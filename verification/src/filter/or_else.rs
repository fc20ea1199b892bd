//! A filter with a function to fall back on.
use crate::filter::FilterBase;
use crate::generic::{Fallible, Func};
use crate::reject::IsReject;
use crate::route::Route;
use vstd::prelude::*;

verus! {

/// Runs `filter`, and where it fails puts the path cursor back and calls
/// `callback` with the error. The function returns values to extract in
/// place of those of the filter, or an error of its own.
#[derive(Clone, Copy, Debug)]
pub struct OrElse<T, F> {
    pub filter: T,
    pub callback: F,
}

impl<T, F> FilterBase for OrElse<T, F> where
    T: FilterBase,
    F: Func<(T::Error,)>,
    F::Output: Fallible<Ok = T::Extract>,
    <F::Output as Fallible>::Error: IsReject,
 {
    type Extract = T::Extract;

    type Error = <F::Output as Fallible>::Error;

    /// The filter may be run, and the function be called with whatever
    /// error the filter fails with.
    open spec fn ready(&self, route: Route) -> bool {
        &&& self.filter.ready(route)
        &&& forall|e: T::Error, mid: Route| #[trigger]
            self.filter.outcome(route, Err(e), mid) ==> self.callback.accepts((e,))
    }

    /// Success is a success of the filter, or one of the function after the
    /// filter failed; failure is a failure of the function after the filter
    /// failed. Where the filter failed, the request is left as it was.
    open spec fn outcome(
        &self,
        before: Route,
        result: Result<Self::Extract, Self::Error>,
        after: Route,
    ) -> bool {
        ||| result matches Ok(x) && self.filter.outcome(before, Ok(x), after)
        ||| after == before && exists|e: T::Error, mid: Route, answer: F::Output|
            #![trigger self.filter.outcome(before, Err(e), mid), self.callback.yields((e,), answer)]
            self.filter.outcome(before, Err(e), mid) && self.callback.yields((e,), answer)
                && answer.spec_result() == result
    }

    fn filter(&self, route: &mut Route) -> (result: Result<Self::Extract, Self::Error>) {
        let ghost before = *route;
        let saved = route.save_cursor();
        match self.filter.filter(route) {
            Ok(x) => Ok(x),
            Err(e) => {
                let ghost mid = *route;
                route.restore_cursor(saved);
                proof {
                    // the request is again as it was before the filter ran
                    mid.lemma_same_request(before);
                    route.lemma_same_request_chain(mid, before);
                    route.lemma_same_request(before);
                }
                self.callback.apply((e,)).into_result()
            },
        }
    }
}

} // verus!
