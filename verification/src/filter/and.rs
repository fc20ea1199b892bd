//! Two filters in sequence.
use crate::filter::FilterBase;
use crate::generic::{
    join, lemma_join_associative, lemma_join_unit_left, lemma_join_unit_right, spec_join,
    Associative, Combine, CombinedTuples, Neutral, Tuple,
};
use crate::reject::CombineRejection;
use crate::route::Route;
use vstd::prelude::*;

verus! {

/// Runs `first`, then `second` on the request as `first` left it, and joins
/// what the two extracted. It fails as soon as one of them fails.
#[derive(Clone, Copy, Debug)]
pub struct And<T, U> {
    pub first: T,
    pub second: U,
}

impl<T, U> FilterBase for And<T, U> where
    T: FilterBase,
    U: FilterBase,
    <T::Extract as Tuple>::HList: Combine<<U::Extract as Tuple>::HList>,
    CombinedTuples<T::Extract, U::Extract>: Tuple,
    T::Error: CombineRejection<U::Error>,
 {
    type Extract = CombinedTuples<T::Extract, U::Extract>;

    type Error = <T::Error as CombineRejection<U::Error>>::One;

    /// The first filter may be run, and the second on whatever request the
    /// first leaves when it succeeds.
    open spec fn ready(&self, route: Route) -> bool {
        &&& self.first.ready(route)
        &&& forall|x: T::Extract, mid: Route| #[trigger]
            self.first.outcome(route, Ok(x), mid) ==> self.second.ready(mid)
    }

    /// Success is the success of both, one after the other, with their values
    /// joined; failure is the failure of the first, or that of the second
    /// after the first succeeded.
    open spec fn outcome(
        &self,
        before: Route,
        result: Result<Self::Extract, Self::Error>,
        after: Route,
    ) -> bool {
        match result {
            Ok(joined) => exists|x: T::Extract, y: U::Extract, mid: Route|
                #![trigger self.first.outcome(before, Ok(x), mid), self.second.outcome(mid, Ok(y), after)]
                self.first.outcome(before, Ok(x), mid) && self.second.outcome(mid, Ok(y), after)
                    && joined == spec_join::<T::Extract, U::Extract>(x, y),
            Err(e) => {
                ||| exists|ea: T::Error|
                    #![trigger self.first.outcome(before, Err(ea), after)]
                    self.first.outcome(before, Err(ea), after) && e == ea.spec_first()
                ||| exists|x: T::Extract, mid: Route, eb: U::Error|
                    #![trigger self.first.outcome(before, Ok(x), mid), self.second.outcome(mid, Err(eb), after)]
                    self.first.outcome(before, Ok(x), mid) && self.second.outcome(
                        mid,
                        Err(eb),
                        after,
                    ) && e == <T::Error as CombineRejection<U::Error>>::spec_second(eb)
            },
        }
    }

    fn filter(&self, route: &mut Route) -> (result: Result<Self::Extract, Self::Error>) {
        let ghost before = *route;
        match self.first.filter(route) {
            Ok(x) => {
                let ghost mid = *route;
                let second = self.second.filter(route);
                proof {
                    route.lemma_same_request_chain(mid, before);
                }
                match second {
                    Ok(y) => Ok(join(x, y)),
                    Err(eb) => Err(<T::Error as CombineRejection<U::Error>>::second(eb)),
                }
            },
            Err(ea) => Err(ea.first()),
        }
    }
}

/// Where the first filter succeeds and then the second, the two in sequence
/// succeed with the values of both, joined.
pub proof fn lemma_and_success<T, U>(
    both: And<T, U>,
    before: Route,
    x: T::Extract,
    mid: Route,
    y: U::Extract,
    after: Route,
) where
    T: FilterBase,
    U: FilterBase,
    <T::Extract as Tuple>::HList: Combine<<U::Extract as Tuple>::HList>,
    CombinedTuples<T::Extract, U::Extract>: Tuple,
    T::Error: CombineRejection<U::Error>,

    requires
        both.first.outcome(before, Ok(x), mid),
        both.second.outcome(mid, Ok(y), after),
    ensures
        both.outcome(before, Ok(spec_join::<T::Extract, U::Extract>(x, y)), after),
{
}

/// Two filters that each extract one value extract, in sequence, the pair
/// of the two values.
pub proof fn lemma_and_pairs<A, B, X, Y>(
    both: And<A, B>,
    before: Route,
    x: X,
    y: Y,
    after: Route,
) where
    A: FilterBase<Extract = (X,)>,
    B: FilterBase<Extract = (Y,)>,
    A::Error: CombineRejection<B::Error>,

    ensures
        both.outcome(before, Ok((x, y)), after) <==> exists|mid: Route|
            #![trigger both.first.outcome(before, Ok((x,)), mid)]
            both.first.outcome(before, Ok((x,)), mid) && both.second.outcome(
                mid,
                Ok((y,)),
                after,
            ),
{
    if both.outcome(before, Ok((x, y)), after) {
        let (a, b, mid) = choose|a: (X,), b: (Y,), mid: Route|
            #![trigger both.first.outcome(before, Ok(a), mid), both.second.outcome(mid, Ok(b), after)]
            both.first.outcome(before, Ok(a), mid) && both.second.outcome(mid, Ok(b), after) && (
            x,
            y,
        ) == spec_join::<(X,), (Y,)>(a, b);
        assert(a == (x,));
        assert(b == (y,));
    }
    if exists|mid: Route|
        #![trigger both.first.outcome(before, Ok((x,)), mid)]
        both.first.outcome(before, Ok((x,)), mid) && both.second.outcome(mid, Ok((y,)), after) {
        let mid = choose|mid: Route|
            #![trigger both.first.outcome(before, Ok((x,)), mid)]
            both.first.outcome(before, Ok((x,)), mid) && both.second.outcome(mid, Ok((y,)), after);
        assert(both.first.outcome(before, Ok((x,)), mid) && both.second.outcome(
            mid,
            Ok((y,)),
            after,
        ) && (x, y) == spec_join::<(X,), (Y,)>((x,), (y,)));
    }
}

/// A filter that extracts nothing adds nothing behind a filter: the two in
/// sequence extract what the first extracts.
pub proof fn lemma_and_unit_second<A, C>(
    both: And<A, C>,
    before: Route,
    x: A::Extract,
    after: Route,
) where
    A: FilterBase,
    C: FilterBase<Extract = ()>,
    <A::Extract as Tuple>::HList: Neutral,
    A::Error: CombineRejection<C::Error>,

    ensures
        both.outcome(before, Ok(x), after) <==> exists|mid: Route|
            #![trigger both.first.outcome(before, Ok(x), mid)]
            both.first.outcome(before, Ok(x), mid) && both.second.outcome(mid, Ok(()), after),
{
    if both.outcome(before, Ok(x), after) {
        let (a, c, mid) = choose|a: A::Extract, c: (), mid: Route|
            #![trigger both.first.outcome(before, Ok(a), mid), both.second.outcome(mid, Ok(c), after)]
            both.first.outcome(before, Ok(a), mid) && both.second.outcome(mid, Ok(c), after) && x
                == spec_join::<A::Extract, ()>(a, c);
        lemma_join_unit_right(a);
        assert(c == ());
        assert(a == x);
    }
    if exists|mid: Route|
        #![trigger both.first.outcome(before, Ok(x), mid)]
        both.first.outcome(before, Ok(x), mid) && both.second.outcome(mid, Ok(()), after) {
        let mid = choose|mid: Route|
            #![trigger both.first.outcome(before, Ok(x), mid)]
            both.first.outcome(before, Ok(x), mid) && both.second.outcome(mid, Ok(()), after);
        lemma_join_unit_right(x);
        assert(both.first.outcome(before, Ok(x), mid) && both.second.outcome(mid, Ok(()), after)
            && x == spec_join::<A::Extract, ()>(x, ()));
    }
}

/// A filter that extracts nothing adds nothing before a filter: the two in
/// sequence extract what the second extracts.
pub proof fn lemma_and_unit_first<C, A>(
    both: And<C, A>,
    before: Route,
    x: A::Extract,
    after: Route,
) where C: FilterBase<Extract = ()>, A: FilterBase, C::Error: CombineRejection<A::Error>
    ensures
        both.outcome(before, Ok(x), after) <==> exists|mid: Route|
            #![trigger both.first.outcome(before, Ok(()), mid)]
            both.first.outcome(before, Ok(()), mid) && both.second.outcome(mid, Ok(x), after),
{
    if both.outcome(before, Ok(x), after) {
        let (c, a, mid) = choose|c: (), a: A::Extract, mid: Route|
            #![trigger both.first.outcome(before, Ok(c), mid), both.second.outcome(mid, Ok(a), after)]
            both.first.outcome(before, Ok(c), mid) && both.second.outcome(mid, Ok(a), after) && x
                == spec_join::<(), A::Extract>(c, a);
        lemma_join_unit_left(a);
        assert(c == ());
        assert(a == x);
    }
    if exists|mid: Route|
        #![trigger both.first.outcome(before, Ok(()), mid)]
        both.first.outcome(before, Ok(()), mid) && both.second.outcome(mid, Ok(x), after) {
        let mid = choose|mid: Route|
            #![trigger both.first.outcome(before, Ok(()), mid)]
            both.first.outcome(before, Ok(()), mid) && both.second.outcome(mid, Ok(x), after);
        lemma_join_unit_left(x);
        assert(both.first.outcome(before, Ok(()), mid) && both.second.outcome(mid, Ok(x), after)
            && x == spec_join::<(), A::Extract>((), x));
    }
}

/// Sequencing is associative in what is extracted: three filters in
/// sequence extract the same flat tuple, from the same requests, whether the
/// first two are put together first or the last two.
pub proof fn lemma_and_associative<A, B, C>(
    a: A,
    b: B,
    c: C,
    before: Route,
    v: CombinedTuples<CombinedTuples<A::Extract, B::Extract>, C::Extract>,
    after: Route,
) where
    A: FilterBase,
    B: FilterBase,
    C: FilterBase,
    <A::Extract as Tuple>::HList: Associative<
        <B::Extract as Tuple>::HList,
        <C::Extract as Tuple>::HList,
    >,
    <B::Extract as Tuple>::HList: Combine<<C::Extract as Tuple>::HList>,
    <<A::Extract as Tuple>::HList as Combine<<B::Extract as Tuple>::HList>>::Output: Combine<
        <C::Extract as Tuple>::HList,
    >,
    CombinedTuples<A::Extract, B::Extract>: Tuple<
        HList = <<A::Extract as Tuple>::HList as Combine<<B::Extract as Tuple>::HList>>::Output,
    >,
    CombinedTuples<B::Extract, C::Extract>: Tuple<
        HList = <<B::Extract as Tuple>::HList as Combine<<C::Extract as Tuple>::HList>>::Output,
    >,
    CombinedTuples<CombinedTuples<A::Extract, B::Extract>, C::Extract>: Tuple,
    A::Error: CombineRejection<B::Error>,
    B::Error: CombineRejection<C::Error>,
    <A::Error as CombineRejection<B::Error>>::One: CombineRejection<C::Error>,
    A::Error: CombineRejection<<B::Error as CombineRejection<C::Error>>::One>,

    ensures
        (And { first: And { first: a, second: b }, second: c }).outcome(before, Ok(v), after)
            <==> (And { first: a, second: And { first: b, second: c } }).outcome(
            before,
            Ok(v),
            after,
        ),
{
    let ab = And { first: a, second: b };
    let bc = And { first: b, second: c };
    let left = And { first: ab, second: c };
    let right = And { first: a, second: bc };
    if left.outcome(before, Ok(v), after) {
        let (xy, z, mid2) = choose|
            xy: CombinedTuples<A::Extract, B::Extract>,
            z: C::Extract,
            mid2: Route,
        |
            #![trigger ab.outcome(before, Ok(xy), mid2), c.outcome(mid2, Ok(z), after)]
            ab.outcome(before, Ok(xy), mid2) && c.outcome(mid2, Ok(z), after) && v == spec_join::<
                CombinedTuples<A::Extract, B::Extract>,
                C::Extract,
            >(xy, z);
        let (x, y, mid1) = choose|x: A::Extract, y: B::Extract, mid1: Route|
            #![trigger a.outcome(before, Ok(x), mid1), b.outcome(mid1, Ok(y), mid2)]
            a.outcome(before, Ok(x), mid1) && b.outcome(mid1, Ok(y), mid2) && xy == spec_join::<
                A::Extract,
                B::Extract,
            >(x, y);
        let yz = spec_join::<B::Extract, C::Extract>(y, z);
        lemma_and_success(bc, mid1, y, mid2, z, after);
        lemma_join_associative::<A::Extract, B::Extract, C::Extract>(x, y, z);
        lemma_and_success(right, before, x, mid1, yz, after);
    }
    if right.outcome(before, Ok(v), after) {
        let (x, yz, mid1) = choose|
            x: A::Extract,
            yz: CombinedTuples<B::Extract, C::Extract>,
            mid1: Route,
        |
            #![trigger a.outcome(before, Ok(x), mid1), bc.outcome(mid1, Ok(yz), after)]
            a.outcome(before, Ok(x), mid1) && bc.outcome(mid1, Ok(yz), after) && v == spec_join::<
                A::Extract,
                CombinedTuples<B::Extract, C::Extract>,
            >(x, yz);
        let (y, z, mid2) = choose|y: B::Extract, z: C::Extract, mid2: Route|
            #![trigger b.outcome(mid1, Ok(y), mid2), c.outcome(mid2, Ok(z), after)]
            b.outcome(mid1, Ok(y), mid2) && c.outcome(mid2, Ok(z), after) && yz == spec_join::<
                B::Extract,
                C::Extract,
            >(y, z);
        let xy = spec_join::<A::Extract, B::Extract>(x, y);
        lemma_and_success(ab, before, x, mid1, y, mid2);
        lemma_join_associative::<A::Extract, B::Extract, C::Extract>(x, y, z);
        lemma_and_success(left, before, xy, mid2, z, after);
    }
}

/// Nesting does not show in what is extracted. Of a filter `a` that
/// extracts one value, a filter `b` that extracts another and a filter `c`
/// that extracts none, `a.and(b)` followed by `c.and(a)` extracts the same
/// three values, from the same requests, as `a.and(b).and(c).and(a)`.
pub proof fn lemma_and_nested<A, B, C, X, Y>(
    a: A,
    b: B,
    c: C,
    before: Route,
    v: (X, Y, X),
    after: Route,
) where
    A: FilterBase<Extract = (X,)>,
    B: FilterBase<Extract = (Y,)>,
    C: FilterBase<Extract = ()>,
    A::Error: CombineRejection<B::Error>,
    C::Error: CombineRejection<A::Error>,
    <A::Error as CombineRejection<B::Error>>::One: CombineRejection<C::Error>,
    <A::Error as CombineRejection<B::Error>>::One: CombineRejection<
        <C::Error as CombineRejection<A::Error>>::One,
    >,
    <<A::Error as CombineRejection<B::Error>>::One as CombineRejection<
        C::Error,
    >>::One: CombineRejection<A::Error>,

    ensures
        (And { first: And { first: a, second: b }, second: And { first: c, second: a } }).outcome(
            before,
            Ok(v),
            after,
        ) <==> (And {
            first: And { first: And { first: a, second: b }, second: c },
            second: a,
        }).outcome(before, Ok(v), after),
{
    lemma_and_associative(And { first: a, second: b }, c, a, before, v, after);
}

} // verus!
