//! A filter that matches any route.
use crate::filter::FilterBase;
use crate::route::Route;
use std::convert::Infallible;
use vstd::prelude::*;

verus! {

/// A filter that matches any route.
///
/// It extracts nothing and never fails, so it is a start to build other
/// filters from: mapped, it yields a value for every request; in sequence
/// with another filter, it adds nothing to what that filter extracts.
pub fn any() -> (filter: Any) {
    Any
}

/// The filter that [`any`] returns.
#[derive(Copy, Clone, Debug)]
pub struct Any;

impl FilterBase for Any {
    type Extract = ();

    // This filter never fails, so the error type is Infallible.
    type Error = Infallible;

    open spec fn ready(&self, route: Route) -> bool {
        true
    }

    /// It succeeds with nothing and leaves the request as it was.
    open spec fn outcome(
        &self,
        before: Route,
        result: Result<(), Infallible>,
        after: Route,
    ) -> bool {
        result == Ok::<(), Infallible>(()) && after == before
    }

    fn filter(&self, route: &mut Route) -> (result: Result<(), Infallible>) {
        proof {
            route.lemma_same_request(*route);
        }
        Ok(())
    }
}

} // verus!
