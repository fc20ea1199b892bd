//! Filters and the ways to compose them.
//!
//! A filter is run on a request and either extracts a tuple of values or
//! fails with an error. What it may do is told by two relations: on which
//! requests it may be run ([`FilterBase::ready`]), and which results it may
//! give, leaving the path cursor where ([`FilterBase::outcome`]). The
//! combinators are stated over these relations alone, so they hold of any
//! filter.
use crate::filter::and::And;
use crate::filter::and_then::AndThen;
use crate::filter::boxed::BoxedFilter;
use crate::filter::map::Mapped;
use crate::filter::or::Or;
use crate::filter::or_else::OrElse;
use crate::filter::recover::Recover;
use crate::filter::unify::Unify;
use crate::filter::untuple_one::UntupleOne;
use crate::filter::wrap::Wrap;
use crate::generic::{Combine, CombinedTuples, Either, Fallible, Func, Tuple};
use crate::reject::{CombineRejection, IsReject, Rejection};
use crate::route::Route;
use vstd::prelude::*;

pub mod and;
pub mod and_then;
pub mod boxed;
pub mod map;
pub mod or;
pub mod or_else;
pub mod recover;
pub mod unify;
pub mod untuple_one;
pub mod wrap;

verus! {

/// What every filter is: something to run on a request.
pub trait FilterBase {
    /// The values that are extracted from a request that is accepted.
    type Extract: Tuple;

    /// The error that a request is rejected with.
    type Error: IsReject;

    /// Whether the filter may be run on `route`.
    spec fn ready(&self, route: Route) -> bool;

    /// Whether the filter, run on `before`, may give `result` and leave the
    /// request as `after`.
    spec fn outcome(
        &self,
        before: Route,
        result: Result<Self::Extract, Self::Error>,
        after: Route,
    ) -> bool;

    /// Runs the filter on a request. Of the request, nothing but the path
    /// cursor changes.
    fn filter(&self, route: &mut Route) -> (result: Result<Self::Extract, Self::Error>)
        requires
            self.ready(*old(route)),
        ensures
            self.outcome(*old(route), result, *final(route)),
            final(route).same_request(*old(route)),
    ;
}

/// The ways to compose filters. Every filter has them.
pub trait Filter: FilterBase + Sized {
    /// This filter, then `other`: both must accept the request, and what
    /// they extract is joined into one flat tuple.
    fn and<F>(self, other: F) -> (both: And<Self, F>) where
        F: FilterBase,
        <Self::Extract as Tuple>::HList: Combine<<F::Extract as Tuple>::HList>,
        CombinedTuples<Self::Extract, F::Extract>: Tuple,
        Self::Error: CombineRejection<F::Error>,

        ensures
            both.first == self,
            both.second == other,
    ;

    /// This filter, or else `other` on the same request.
    fn or<F>(self, other: F) -> (either: Or<Self, F>) where
        F: FilterBase,
        Self::Error: CombineRejection<F::Error>,

        ensures
            either.first == self,
            either.second == other,
    ;

    /// This filter, with `fun` applied to the values it extracts.
    fn map<F>(self, fun: F) -> (mapped: Mapped<Self, F>) where F: Func<Self::Extract>
        ensures
            mapped.filter == self,
            mapped.callback == fun,
    ;

    /// This filter, then `fun` on the values it extracts: a function that
    /// may reject the request.
    fn and_then<F>(self, fun: F) -> (then: AndThen<Self, F>) where
        F: Func<Self::Extract>,
        F::Output: Fallible,
        Self::Error: CombineRejection<<F::Output as Fallible>::Error>,

        ensures
            then.filter == self,
            then.callback == fun,
    ;

    /// This filter, or else `fun` on the error it failed with: a function
    /// that returns other values to extract, or an error.
    fn or_else<F>(self, fun: F) -> (fallback: OrElse<Self, F>) where
        F: Func<(Self::Error,)>,
        F::Output: Fallible<Ok = Self::Extract>,
        <F::Output as Fallible>::Error: IsReject,

        ensures
            fallback.filter == self,
            fallback.callback == fun,
    ;

    /// This filter, or else `fun` on the error it failed with: a function
    /// that returns an answer in place of what the filter extracts, or an
    /// error.
    fn recover<F>(self, fun: F) -> (recovered: Recover<Self, F>) where
        F: Func<(Self::Error,)>,
        F::Output: Fallible,
        <F::Output as Fallible>::Error: IsReject,

        ensures
            recovered.filter == self,
            recovered.callback == fun,
    ;

    /// This filter, which extracts one of two tuples of one type, as a
    /// filter that extracts that tuple.
    fn unify<T>(self) -> (unified: Unify<Self>) where
        Self: FilterBase<Extract = (Either<T, T>,)>,
        T: Tuple,

        ensures
            unified.filter == self,
    ;

    /// This filter, which extracts a tuple as its one value, as a filter
    /// that extracts the values of that tuple.
    fn untuple_one<T>(self) -> (untupled: UntupleOne<Self>) where
        Self: FilterBase<Extract = (T,)>,
        T: Tuple,

        ensures
            untupled.filter == self,
    ;

    /// This filter with its type forgotten, which does what this filter
    /// does.
    fn boxed(self) -> (boxed: BoxedFilter<Self::Extract>) where
        Self: FilterBase<Error = Rejection> + Send + Sync + 'static,

        ensures
            forall|route: Route| #[trigger] boxed.ready(route) == self.ready(route),
            forall|before: Route, result: Result<Self::Extract, Rejection>, after: Route| #[trigger]
                boxed.outcome(before, result, after) == self.outcome(before, result, after),
    ;

    /// This filter, wrapped by `wrapper`.
    fn with<W>(self, wrapper: W) -> (wrapped: W::Wrapped) where W: Wrap<Self>
        requires
            wrapper.accepts(self),
        ensures
            wrapper.wraps(self, wrapped),
    ;
}

impl<S: FilterBase> Filter for S {
    fn and<F>(self, other: F) -> (both: And<Self, F>) where
        F: FilterBase,
        <Self::Extract as Tuple>::HList: Combine<<F::Extract as Tuple>::HList>,
        CombinedTuples<Self::Extract, F::Extract>: Tuple,
        Self::Error: CombineRejection<F::Error>,
     {
        And { first: self, second: other }
    }

    fn or<F>(self, other: F) -> (either: Or<Self, F>) where
        F: FilterBase,
        Self::Error: CombineRejection<F::Error>,
     {
        Or { first: self, second: other }
    }

    fn map<F>(self, fun: F) -> (mapped: Mapped<Self, F>) where F: Func<Self::Extract> {
        Mapped { filter: self, callback: fun }
    }

    fn and_then<F>(self, fun: F) -> (then: AndThen<Self, F>) where
        F: Func<Self::Extract>,
        F::Output: Fallible,
        Self::Error: CombineRejection<<F::Output as Fallible>::Error>,
     {
        AndThen { filter: self, callback: fun }
    }

    fn or_else<F>(self, fun: F) -> (fallback: OrElse<Self, F>) where
        F: Func<(Self::Error,)>,
        F::Output: Fallible<Ok = Self::Extract>,
        <F::Output as Fallible>::Error: IsReject,
     {
        OrElse { filter: self, callback: fun }
    }

    fn recover<F>(self, fun: F) -> (recovered: Recover<Self, F>) where
        F: Func<(Self::Error,)>,
        F::Output: Fallible,
        <F::Output as Fallible>::Error: IsReject,
     {
        Recover { filter: self, callback: fun }
    }

    fn unify<T>(self) -> (unified: Unify<Self>) where
        Self: FilterBase<Extract = (Either<T, T>,)>,
        T: Tuple,
     {
        Unify { filter: self }
    }

    fn untuple_one<T>(self) -> (untupled: UntupleOne<Self>) where
        Self: FilterBase<Extract = (T,)>,
        T: Tuple,
     {
        UntupleOne { filter: self }
    }

    fn boxed(self) -> (boxed: BoxedFilter<Self::Extract>) where
        Self: FilterBase<Error = Rejection> + Send + Sync + 'static,
     {
        BoxedFilter::new(self)
    }

    fn with<W>(self, wrapper: W) -> (wrapped: W::Wrapped) where W: Wrap<Self> {
        wrapper.wrap(self)
    }
}

} // verus!
