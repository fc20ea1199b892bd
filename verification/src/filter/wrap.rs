//! Wrapping a filter into another.
use crate::filter::FilterBase;
use vstd::prelude::*;

verus! {

/// What can take a filter and hand back a filter made from it.
pub trait WrapSealed<F: FilterBase> {
    /// The filter that is handed back.
    type Wrapped: FilterBase;

    /// Whether `filter` may be wrapped.
    spec fn accepts(&self, filter: F) -> bool;

    /// Whether wrapping `filter` may give `wrapped`.
    spec fn wraps(&self, filter: F, wrapped: Self::Wrapped) -> bool;

    /// Wraps `filter`.
    fn wrap(&self, filter: F) -> (wrapped: Self::Wrapped)
        requires
            self.accepts(filter),
        ensures
            self.wraps(filter, wrapped),
    ;
}

impl<'a, T, F> WrapSealed<F> for &'a T where T: WrapSealed<F>, F: FilterBase {
    type Wrapped = T::Wrapped;

    open spec fn accepts(&self, filter: F) -> bool {
        (**self).accepts(filter)
    }

    open spec fn wraps(&self, filter: F, wrapped: Self::Wrapped) -> bool {
        (**self).wraps(filter, wrapped)
    }

    fn wrap(&self, filter: F) -> (wrapped: Self::Wrapped) {
        (*self).wrap(filter)
    }
}

/// The wrappers of filters: whatever is a [`WrapSealed`].
pub trait Wrap<F: FilterBase>: WrapSealed<F> {

}

impl<T, F> Wrap<F> for T where T: WrapSealed<F>, F: FilterBase {

}

/// Makes a wrapper from a function that takes a filter and returns a filter,
/// to put something before and after what the filter does.
pub fn wrap_fn<F, T, U>(func: F) -> (wrapper: WrapFn<F>) where
    F: Fn(T) -> U,
    T: FilterBase,
    U: FilterBase,

    ensures
        wrapper.func == func,
{
    WrapFn { func }
}

/// The wrapper that [`wrap_fn`] makes.
#[derive(Debug)]
pub struct WrapFn<F> {
    pub func: F,
}

impl<F, T, U> WrapSealed<T> for WrapFn<F> where F: Fn(T) -> U, T: FilterBase, U: FilterBase {
    type Wrapped = U;

    /// The function may be called with the filter.
    open spec fn accepts(&self, filter: T) -> bool {
        call_requires(self.func, (filter,))
    }

    /// The function, called with the filter, may return the wrapped one.
    open spec fn wraps(&self, filter: T, wrapped: U) -> bool {
        call_ensures(self.func, (filter,), wrapped)
    }

    fn wrap(&self, filter: T) -> (wrapped: U) {
        let func = &self.func;
        func(filter)
    }
}

} // verus!
