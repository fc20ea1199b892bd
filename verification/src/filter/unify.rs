//! Two alternatives that extract the same, as one.
use crate::filter::FilterBase;
use crate::generic::{Either, Tuple};
use crate::route::Route;
use vstd::prelude::*;

verus! {

/// What one of two holds, where both are of one type.
pub open spec fn spec_unified<T>(either: Either<T, T>) -> T {
    match either {
        Either::A(x) => x,
        Either::B(x) => x,
    }
}

/// Runs `filter`, which extracts one of two tuples of the same type, and
/// extracts that tuple, whichever of the two it was.
#[derive(Clone, Copy, Debug)]
pub struct Unify<F> {
    pub filter: F,
}

impl<F, T> FilterBase for Unify<F> where F: FilterBase<Extract = (Either<T, T>,)>, T: Tuple {
    type Extract = T;

    type Error = F::Error;

    open spec fn ready(&self, route: Route) -> bool {
        self.filter.ready(route)
    }

    /// Success is a success of the filter with this tuple on either side;
    /// failure is a failure of the filter.
    open spec fn outcome(
        &self,
        before: Route,
        result: Result<T, Self::Error>,
        after: Route,
    ) -> bool {
        match result {
            Ok(x) => exists|either: Either<T, T>|
                #![trigger self.filter.outcome(before, Ok((either,)), after)]
                self.filter.outcome(before, Ok((either,)), after) && x == spec_unified(either),
            Err(e) => self.filter.outcome(before, Err(e), after),
        }
    }

    fn filter(&self, route: &mut Route) -> (result: Result<T, Self::Error>) {
        match self.filter.filter(route) {
            Ok((Either::A(x),)) => Ok(x),
            Ok((Either::B(x),)) => Ok(x),
            Err(e) => Err(e),
        }
    }
}

} // verus!
