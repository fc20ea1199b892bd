//! A filter in a box, with its type forgotten.
use crate::filter::FilterBase;
use crate::generic::Tuple;
use crate::reject::Rejection;
use crate::route::Route;
use vstd::prelude::*;

verus! {

/// What is left of a filter once its type is forgotten: that it can be run,
/// and what it extracts.
pub trait Dynamic<T>: Send + Sync {
    /// Whether the filter may be run on `route`.
    spec fn dyn_ready(&self, route: Route) -> bool;

    /// Whether the filter, run on `before`, may give `result` and leave the
    /// request as `after`.
    spec fn dyn_outcome(&self, before: Route, result: Result<T, Rejection>, after: Route) -> bool;

    /// Runs the filter.
    fn dyn_filter(&self, route: &mut Route) -> (result: Result<T, Rejection>)
        requires
            self.dyn_ready(*old(route)),
        ensures
            self.dyn_outcome(*old(route), result, *final(route)),
            final(route).same_request(*old(route)),
    ;
}

impl<F> Dynamic<F::Extract> for F where F: FilterBase<Error = Rejection> + Send + Sync {
    open spec fn dyn_ready(&self, route: Route) -> bool {
        self.ready(route)
    }

    open spec fn dyn_outcome(
        &self,
        before: Route,
        result: Result<F::Extract, Rejection>,
        after: Route,
    ) -> bool {
        self.outcome(before, result, after)
    }

    fn dyn_filter(&self, route: &mut Route) -> (result: Result<F::Extract, Rejection>) {
        self.filter(route)
    }
}

/// A filter whose type is forgotten but for what it extracts: it keeps the
/// types of long compositions short. It does what the filter in it does.
#[verifier::reject_recursive_types(T)]
pub struct BoxedFilter<T: Tuple> {
    filter: Box<dyn Dynamic<T>>,
}

impl<T: Tuple> BoxedFilter<T> {
    /// Puts `filter` into a box and forgets its type. The box still holds
    /// that filter: what is called through it is what the filter does.
    pub fn new<F>(filter: F) -> (boxed: BoxedFilter<T>) where
        F: FilterBase<Extract = T, Error = Rejection> + Send + Sync + 'static,

        ensures
            forall|route: Route| #[trigger] boxed.ready(route) == filter.ready(route),
            forall|before: Route, result: Result<T, Rejection>, after: Route| #[trigger]
                boxed.outcome(before, result, after) == filter.outcome(before, result, after),
    {
        BoxedFilter { filter: Box::new(filter) }
    }
}

impl<T: Tuple> FilterBase for BoxedFilter<T> {
    type Extract = T;

    type Error = Rejection;

    closed spec fn ready(&self, route: Route) -> bool {
        self.filter.dyn_ready(route)
    }

    closed spec fn outcome(
        &self,
        before: Route,
        result: Result<T, Rejection>,
        after: Route,
    ) -> bool {
        self.filter.dyn_outcome(before, result, after)
    }

    fn filter(&self, route: &mut Route) -> (result: Result<T, Rejection>) {
        self.filter.dyn_filter(route)
    }
}

} // verus!
