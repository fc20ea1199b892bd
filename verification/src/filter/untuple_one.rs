//! A filter that extracts one tuple, as one that extracts its values.
use crate::filter::FilterBase;
use crate::generic::Tuple;
use crate::route::Route;
use vstd::prelude::*;

verus! {

/// Runs `filter`, which extracts a tuple as its one value, and extracts the
/// values of that tuple, to be joined with others without nesting.
#[derive(Clone, Copy, Debug)]
pub struct UntupleOne<F> {
    pub filter: F,
}

impl<F, T> FilterBase for UntupleOne<F> where F: FilterBase<Extract = (T,)>, T: Tuple {
    type Extract = T;

    type Error = F::Error;

    open spec fn ready(&self, route: Route) -> bool {
        self.filter.ready(route)
    }

    /// Success is a success of the filter with this tuple as its one value;
    /// failure is a failure of the filter.
    open spec fn outcome(
        &self,
        before: Route,
        result: Result<T, Self::Error>,
        after: Route,
    ) -> bool {
        match result {
            Ok(x) => self.filter.outcome(before, Ok((x,)), after),
            Err(e) => self.filter.outcome(before, Err(e), after),
        }
    }

    fn filter(&self, route: &mut Route) -> (result: Result<T, Self::Error>) {
        match self.filter.filter(route) {
            Ok((x,)) => Ok(x),
            Err(e) => Err(e),
        }
    }
}

} // verus!
