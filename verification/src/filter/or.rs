//! Two filters as alternatives.
use crate::filter::FilterBase;
use crate::generic::Either;
use crate::reject::CombineRejection;
use crate::route::Route;
use vstd::prelude::*;

verus! {

/// Runs `first`, and where it fails puts the path cursor back and runs
/// `second`. The first that succeeds is the result, and `second` is not run
/// where `first` succeeds; where both fail, their errors are combined.
#[derive(Clone, Copy, Debug)]
pub struct Or<T, U> {
    pub first: T,
    pub second: U,
}

impl<T, U> FilterBase for Or<T, U> where
    T: FilterBase,
    U: FilterBase,
    T::Error: CombineRejection<U::Error>,
 {
    type Extract = (Either<T::Extract, U::Extract>,);

    type Error = <T::Error as CombineRejection<U::Error>>::Combined;

    /// The first filter may be run, and the second too if the first can fail.
    open spec fn ready(&self, route: Route) -> bool {
        &&& self.first.ready(route)
        &&& forall|ea: T::Error, mid: Route| #[trigger]
            self.first.outcome(route, Err(ea), mid) ==> self.second.ready(route)
    }

    /// Success is the success of the first, or that of the second on the
    /// request as it was after the first failed; failure is the failure of
    /// both, the second again on the request as it was.
    open spec fn outcome(
        &self,
        before: Route,
        result: Result<Self::Extract, Self::Error>,
        after: Route,
    ) -> bool {
        match result {
            Ok(one) => match one.0 {
                Either::A(x) => self.first.outcome(before, Ok(x), after),
                Either::B(y) => exists|ea: T::Error, mid: Route|
                    #![trigger self.first.outcome(before, Err(ea), mid)]
                    self.first.outcome(before, Err(ea), mid) && self.second.outcome(
                        before,
                        Ok(y),
                        after,
                    ),
            },
            Err(e) => exists|ea: T::Error, mid: Route, eb: U::Error|
                #![trigger self.first.outcome(before, Err(ea), mid), self.second.outcome(before, Err(eb), after)]
                self.first.outcome(before, Err(ea), mid) && self.second.outcome(
                    before,
                    Err(eb),
                    after,
                ) && e == ea.spec_combine(eb),
        }
    }

    fn filter(&self, route: &mut Route) -> (result: Result<Self::Extract, Self::Error>) {
        let ghost before = *route;
        let saved = route.save_cursor();
        match self.first.filter(route) {
            Ok(x) => Ok((Either::A(x),)),
            Err(ea) => {
                let ghost mid = *route;
                route.restore_cursor(saved);
                proof {
                    // the request is again as it was before the first ran
                    mid.lemma_same_request(before);
                    route.lemma_same_request_chain(mid, before);
                    route.lemma_same_request(before);
                }
                match self.second.filter(route) {
                    Ok(y) => Ok((Either::B(y),)),
                    Err(eb) => Err(ea.combine(eb)),
                }
            },
        }
    }
}

/// The first alternative wins: a success of the first filter is a success
/// of the two as alternatives, whatever the second filter is, and nothing
/// else is a success on the first side.
pub proof fn lemma_or_first_wins<T, U>(
    either: Or<T, U>,
    before: Route,
    x: T::Extract,
    after: Route,
) where
    T: FilterBase,
    U: FilterBase,
    T::Error: CombineRejection<U::Error>,

    ensures
        either.outcome(before, Ok((Either::A(x),)), after) <==> either.first.outcome(
            before,
            Ok(x),
            after,
        ),
{
}

/// The second alternative is never run where the first cannot fail: the two
/// as alternatives may then be run wherever the first may, even where the
/// second may not, and whatever they give is a success of the first.
pub proof fn lemma_or_second_not_run<T, U>(
    either: Or<T, U>,
    before: Route,
    result: Result<(Either<T::Extract, U::Extract>,), <T::Error as CombineRejection<
        U::Error,
    >>::Combined>,
    after: Route,
) where T: FilterBase, U: FilterBase, T::Error: CombineRejection<U::Error>
    requires
        forall|ea: T::Error, mid: Route| !#[trigger] either.first.outcome(before, Err(ea), mid),
    ensures
        either.ready(before) <==> either.first.ready(before),
        either.outcome(before, result, after) ==> result is Ok && result->Ok_0.0 is A
            && either.first.outcome(before, Ok(result->Ok_0.0->A_0), after),
{
}

/// The second alternative starts where the first did: what the two give
/// after the first failed is what the second gives on the request as it was
/// before the first ran, with the path cursor back at its place.
pub proof fn lemma_or_starts_over<T, U>(
    either: Or<T, U>,
    before: Route,
    ea: T::Error,
    mid: Route,
    second: Result<U::Extract, U::Error>,
    after: Route,
) where T: FilterBase, U: FilterBase, T::Error: CombineRejection<U::Error>
    requires
        either.first.outcome(before, Err(ea), mid),
        either.second.outcome(before, second, after),
    ensures
        either.outcome(
            before,
            match second {
                Ok(y) => Ok((Either::B(y),)),
                Err(eb) => Err(ea.spec_combine(eb)),
            },
            after,
        ),
{
}

/// Whatever the two give on the second side, the second filter gave on the
/// request as it was before the first ran.
pub proof fn lemma_or_second_side<T, U>(
    either: Or<T, U>,
    before: Route,
    y: U::Extract,
    after: Route,
) where
    T: FilterBase,
    U: FilterBase,
    T::Error: CombineRejection<U::Error>,

    requires
        either.outcome(before, Ok((Either::B(y),)), after),
    ensures
        either.second.outcome(before, Ok(y), after),
        exists|ea: T::Error, mid: Route| #[trigger] either.first.outcome(before, Err(ea), mid),
{
}

} // verus!
