//! A filter with a function applied to what it extracts.
use crate::filter::FilterBase;
use crate::generic::Func;
use crate::route::Route;
use vstd::prelude::*;

verus! {

/// Runs `filter`, and where it succeeds calls `callback` with the values it
/// extracted; what the function returns is the one value extracted.
/// A failure of `filter` is passed on as it is.
#[derive(Clone, Copy, Debug)]
pub struct Mapped<T, F> {
    pub filter: T,
    pub callback: F,
}

impl<T, F> FilterBase for Mapped<T, F> where T: FilterBase, F: Func<T::Extract> {
    type Extract = (F::Output,);

    type Error = T::Error;

    /// The filter may be run, and the function be called with whatever the
    /// filter extracts.
    open spec fn ready(&self, route: Route) -> bool {
        &&& self.filter.ready(route)
        &&& forall|x: T::Extract, after: Route| #[trigger]
            self.filter.outcome(route, Ok(x), after) ==> self.callback.accepts(x)
    }

    /// Success is a success of the filter, with what the function returns
    /// for it; failure is a failure of the filter.
    open spec fn outcome(
        &self,
        before: Route,
        result: Result<Self::Extract, Self::Error>,
        after: Route,
    ) -> bool {
        match result {
            Ok(y) => exists|x: T::Extract|
                #![trigger self.filter.outcome(before, Ok(x), after)]
                self.filter.outcome(before, Ok(x), after) && self.callback.yields(x, y.0),
            Err(e) => self.filter.outcome(before, Err(e), after),
        }
    }

    fn filter(&self, route: &mut Route) -> (result: Result<Self::Extract, Self::Error>) {
        match self.filter.filter(route) {
            Ok(x) => Ok((self.callback.apply(x),)),
            Err(e) => Err(e),
        }
    }
}

} // verus!
