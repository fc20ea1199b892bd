//! A filter followed by a function that may reject.
use crate::filter::FilterBase;
use crate::generic::{Fallible, Func};
use crate::reject::CombineRejection;
use crate::route::Route;
use vstd::prelude::*;

verus! {

/// Runs `filter`, and where it succeeds calls `callback` with the values it
/// extracted. The function returns the one value to extract, or an error: a
/// request can so be rejected after its values are known.
#[derive(Clone, Copy, Debug)]
pub struct AndThen<T, F> {
    pub filter: T,
    pub callback: F,
}

impl<T, F> FilterBase for AndThen<T, F> where
    T: FilterBase,
    F: Func<T::Extract>,
    F::Output: Fallible,
    T::Error: CombineRejection<<F::Output as Fallible>::Error>,
 {
    type Extract = (<F::Output as Fallible>::Ok,);

    type Error = <T::Error as CombineRejection<<F::Output as Fallible>::Error>>::One;

    /// The filter may be run, and the function be called with whatever the
    /// filter extracts.
    open spec fn ready(&self, route: Route) -> bool {
        &&& self.filter.ready(route)
        &&& forall|x: T::Extract, after: Route| #[trigger]
            self.filter.outcome(route, Ok(x), after) ==> self.callback.accepts(x)
    }

    /// Success is a success of the filter and then of the function; failure
    /// is a failure of the filter, or of the function after the filter
    /// succeeded.
    open spec fn outcome(
        &self,
        before: Route,
        result: Result<Self::Extract, Self::Error>,
        after: Route,
    ) -> bool {
        match result {
            Ok(y) => exists|x: T::Extract, answer: F::Output|
                #![trigger self.filter.outcome(before, Ok(x), after), self.callback.yields(x, answer)]
                self.filter.outcome(before, Ok(x), after) && self.callback.yields(x, answer)
                    && answer.spec_result() == Ok::<
                    <F::Output as Fallible>::Ok,
                    <F::Output as Fallible>::Error,
                >(y.0),
            Err(e) => {
                ||| exists|ea: T::Error|
                    #![trigger self.filter.outcome(before, Err(ea), after)]
                    self.filter.outcome(before, Err(ea), after) && e == ea.spec_first()
                ||| exists|x: T::Extract, answer: F::Output|
                    #![trigger self.filter.outcome(before, Ok(x), after), self.callback.yields(x, answer)]
                    self.filter.outcome(before, Ok(x), after) && self.callback.yields(x, answer)
                        && answer.spec_result() is Err && e == <T::Error as CombineRejection<
                        <F::Output as Fallible>::Error,
                    >>::spec_second(answer.spec_result()->Err_0)
            },
        }
    }

    fn filter(&self, route: &mut Route) -> (result: Result<Self::Extract, Self::Error>) {
        match self.filter.filter(route) {
            Ok(x) => match self.callback.apply(x).into_result() {
                Ok(y) => Ok((y,)),
                Err(eb) => Err(
                    <T::Error as CombineRejection<<F::Output as Fallible>::Error>>::second(eb),
                ),
            },
            Err(ea) => Err(ea.first()),
        }
    }
}

} // verus!
