//! The algebra of extracted values.
//!
//! A filter extracts a tuple of values. Two filters in sequence extract the
//! values of the first followed by those of the second, as one flat tuple:
//! the empty tuple adds nothing, and no tuple is nested in another. The
//! tuples are joined as lists: a tuple is taken apart into a list of its
//! values, two lists are joined end to end, and the joined list is put back
//! together as a tuple.
use vstd::prelude::*;

verus! {

/// A list of values with a first value and the list of the others. The empty
/// list is `()`.
#[derive(Debug)]
pub struct Product<H, T: HList>(pub H, pub T);

/// A tuple with exactly one value.
pub type One<T> = (T,);

/// Wraps a value as a tuple of one.
pub fn one<T>(val: T) -> (tuple: One<T>)
    ensures
        tuple == (val,),
{
    (val,)
}

/// One of two values.
#[derive(Debug)]
pub enum Either<T, U> {
    /// The first of the two.
    A(T),
    /// The second of the two.
    B(U),
}

/// A list of values, of types that may differ.
pub trait HList: Sized {
    /// The tuple with the same values in the same order.
    type Tuple;

    /// The tuple with the values of this list.
    spec fn spec_flatten(self) -> Self::Tuple;

    /// Puts the values of this list into a tuple.
    fn flatten(self) -> (tuple: Self::Tuple)
        ensures
            tuple == self.spec_flatten(),
    ;
}

/// A tuple of values, of types that may differ.
pub trait Tuple: Sized {
    /// The list with the same values in the same order.
    type HList: HList<Tuple = Self>;

    /// The list with the values of this tuple.
    spec fn spec_hlist(self) -> Self::HList;

    /// Takes this tuple apart into the list of its values.
    fn hlist(self) -> (list: Self::HList)
        ensures
            list == self.spec_hlist(),
    ;

    /// A tuple taken apart and put together again is the tuple.
    proof fn lemma_round_trip(self)
        ensures
            self.spec_hlist().spec_flatten() == self,
    ;

    /// A list put together as a tuple and taken apart again is the list.
    proof fn lemma_list_round_trip(list: Self::HList)
        ensures
            list.spec_flatten().spec_hlist() == list,
    ;
}

/// The flat tuple with the values of `first`, then those of `second`.
pub open spec fn spec_join<T: Tuple, U: Tuple>(first: T, second: U) -> CombinedTuples<T, U> where
    T::HList: Combine<U::HList>,
 {
    first.spec_hlist().spec_combine(second.spec_hlist()).spec_flatten()
}

/// Joins two tuples into one flat tuple.
pub fn join<T: Tuple, U: Tuple>(first: T, second: U) -> (joined: CombinedTuples<T, U>) where
    T::HList: Combine<U::HList>,

    ensures
        joined == spec_join::<T, U>(first, second),
{
    first.hlist().combine(second.hlist()).flatten()
}

/// The empty tuple adds nothing before a tuple.
pub proof fn lemma_join_unit_left<T: Tuple>(tuple: T)
    ensures
        spec_join::<(), T>((), tuple) == tuple,
{
    tuple.lemma_round_trip();
}

/// The empty tuple adds nothing behind a tuple of one, and two tuples of one
/// join into the pair of their values.
pub proof fn lemma_join_ones<A, B>(a: A, b: B)
    ensures
        spec_join::<(A,), ()>((a,), ()) == (a,),
        spec_join::<(), (A,)>((), (a,)) == (a,),
        spec_join::<(A,), (B,)>((a,), (b,)) == (a, b),
{
}

/// Lists that can be joined with a list `T`.
pub trait Combine<T: HList> {
    /// The type of the joined list.
    type Output: HList;

    /// The values of this list, then those of `other`.
    spec fn spec_combine(self, other: T) -> Self::Output;

    /// Joins this list and `other` end to end.
    fn combine(self, other: T) -> (joined: Self::Output)
        ensures
            joined == self.spec_combine(other),
    ;
}

/// The type of the flat tuple that holds the values of a `T`, then those of
/// a `U`.
pub type CombinedTuples<T, U> =
    <<<T as Tuple>::HList as Combine<<U as Tuple>::HList>>::Output as HList>::Tuple;

impl<T: HList> Combine<T> for () {
    type Output = T;

    open spec fn spec_combine(self, other: T) -> T {
        other
    }

    fn combine(self, other: T) -> (joined: T) {
        other
    }
}

impl<H, T: HList, U: HList> Combine<U> for Product<H, T> where
    T: Combine<U>,
    Product<H, <T as Combine<U>>::Output>: HList,
 {
    type Output = Product<H, <T as Combine<U>>::Output>;

    open spec fn spec_combine(self, other: U) -> Self::Output {
        Product(self.0, self.1.spec_combine(other))
    }

    fn combine(self, other: U) -> (joined: Self::Output) {
        Product(self.0, self.1.combine(other))
    }
}

impl HList for () {
    type Tuple = ();

    open spec fn spec_flatten(self) -> () {
        ()
    }

    fn flatten(self) -> (tuple: ()) {
        ()
    }
}

impl Tuple for () {
    type HList = ();

    open spec fn spec_hlist(self) -> () {
        ()
    }

    fn hlist(self) -> (list: ()) {
        ()
    }

    proof fn lemma_round_trip(self) {
    }

    proof fn lemma_list_round_trip(list: Self::HList) {
    }
}

/// The list of 1 value.
pub type List1<T1> = Product<T1, ()>;

impl<T1> HList for List1<T1> {
    type Tuple = (T1,);

    open spec fn spec_flatten(self) -> Self::Tuple {
        (self.0,)
    }

    fn flatten(self) -> (tuple: Self::Tuple) {
        (self.0,)
    }
}

impl<T1> Tuple for (T1,) {
    type HList = List1<T1>;

    open spec fn spec_hlist(self) -> Self::HList {
        Product(self.0, ())
    }

    fn hlist(self) -> (list: Self::HList) {
        Product(self.0, ())
    }

    proof fn lemma_round_trip(self) {
    }

    proof fn lemma_list_round_trip(list: Self::HList) {
        assert(list.1 == ());
    }
}

/// The list of 2 values.
pub type List2<T1, T2> = Product<T1, List1<T2>>;

impl<T1, T2> HList for List2<T1, T2> {
    type Tuple = (T1, T2);

    open spec fn spec_flatten(self) -> Self::Tuple {
        let rest = self.1.spec_flatten();
        (self.0, rest.0)
    }

    fn flatten(self) -> (tuple: Self::Tuple) {
        let rest = self.1.flatten();
        (self.0, rest.0)
    }
}

impl<T1, T2> Tuple for (T1, T2) {
    type HList = List2<T1, T2>;

    open spec fn spec_hlist(self) -> Self::HList {
        Product(self.0, (self.1,).spec_hlist())
    }

    fn hlist(self) -> (list: Self::HList) {
        Product(self.0, (self.1,).hlist())
    }

    proof fn lemma_round_trip(self) {
    }

    proof fn lemma_list_round_trip(list: Self::HList) {
        assert(list.1.1 == ());
    }
}

/// The list of 3 values.
pub type List3<T1, T2, T3> = Product<T1, List2<T2, T3>>;

impl<T1, T2, T3> HList for List3<T1, T2, T3> {
    type Tuple = (T1, T2, T3);

    open spec fn spec_flatten(self) -> Self::Tuple {
        let rest = self.1.spec_flatten();
        (self.0, rest.0, rest.1)
    }

    fn flatten(self) -> (tuple: Self::Tuple) {
        let rest = self.1.flatten();
        (self.0, rest.0, rest.1)
    }
}

impl<T1, T2, T3> Tuple for (T1, T2, T3) {
    type HList = List3<T1, T2, T3>;

    open spec fn spec_hlist(self) -> Self::HList {
        Product(self.0, (self.1, self.2).spec_hlist())
    }

    fn hlist(self) -> (list: Self::HList) {
        Product(self.0, (self.1, self.2).hlist())
    }

    proof fn lemma_round_trip(self) {
    }

    proof fn lemma_list_round_trip(list: Self::HList) {
        assert(list.1.1.1 == ());
    }
}

/// The list of 4 values.
pub type List4<T1, T2, T3, T4> = Product<T1, List3<T2, T3, T4>>;

impl<T1, T2, T3, T4> HList for List4<T1, T2, T3, T4> {
    type Tuple = (T1, T2, T3, T4);

    open spec fn spec_flatten(self) -> Self::Tuple {
        let rest = self.1.spec_flatten();
        (self.0, rest.0, rest.1, rest.2)
    }

    fn flatten(self) -> (tuple: Self::Tuple) {
        let rest = self.1.flatten();
        (self.0, rest.0, rest.1, rest.2)
    }
}

impl<T1, T2, T3, T4> Tuple for (T1, T2, T3, T4) {
    type HList = List4<T1, T2, T3, T4>;

    open spec fn spec_hlist(self) -> Self::HList {
        Product(self.0, (self.1, self.2, self.3).spec_hlist())
    }

    fn hlist(self) -> (list: Self::HList) {
        Product(self.0, (self.1, self.2, self.3).hlist())
    }

    proof fn lemma_round_trip(self) {
    }

    proof fn lemma_list_round_trip(list: Self::HList) {
        assert(list.1.1.1.1 == ());
    }
}

/// The list of 5 values.
pub type List5<T1, T2, T3, T4, T5> = Product<T1, List4<T2, T3, T4, T5>>;

impl<T1, T2, T3, T4, T5> HList for List5<T1, T2, T3, T4, T5> {
    type Tuple = (T1, T2, T3, T4, T5);

    open spec fn spec_flatten(self) -> Self::Tuple {
        let rest = self.1.spec_flatten();
        (self.0, rest.0, rest.1, rest.2, rest.3)
    }

    fn flatten(self) -> (tuple: Self::Tuple) {
        let rest = self.1.flatten();
        (self.0, rest.0, rest.1, rest.2, rest.3)
    }
}

impl<T1, T2, T3, T4, T5> Tuple for (T1, T2, T3, T4, T5) {
    type HList = List5<T1, T2, T3, T4, T5>;

    open spec fn spec_hlist(self) -> Self::HList {
        Product(self.0, (self.1, self.2, self.3, self.4).spec_hlist())
    }

    fn hlist(self) -> (list: Self::HList) {
        Product(self.0, (self.1, self.2, self.3, self.4).hlist())
    }

    proof fn lemma_round_trip(self) {
    }

    proof fn lemma_list_round_trip(list: Self::HList) {
        assert(list.1.1.1.1.1 == ());
    }
}

/// The list of 6 values.
pub type List6<T1, T2, T3, T4, T5, T6> = Product<T1, List5<T2, T3, T4, T5, T6>>;

impl<T1, T2, T3, T4, T5, T6> HList for List6<T1, T2, T3, T4, T5, T6> {
    type Tuple = (T1, T2, T3, T4, T5, T6);

    open spec fn spec_flatten(self) -> Self::Tuple {
        let rest = self.1.spec_flatten();
        (self.0, rest.0, rest.1, rest.2, rest.3, rest.4)
    }

    fn flatten(self) -> (tuple: Self::Tuple) {
        let rest = self.1.flatten();
        (self.0, rest.0, rest.1, rest.2, rest.3, rest.4)
    }
}

impl<T1, T2, T3, T4, T5, T6> Tuple for (T1, T2, T3, T4, T5, T6) {
    type HList = List6<T1, T2, T3, T4, T5, T6>;

    open spec fn spec_hlist(self) -> Self::HList {
        Product(self.0, (self.1, self.2, self.3, self.4, self.5).spec_hlist())
    }

    fn hlist(self) -> (list: Self::HList) {
        Product(self.0, (self.1, self.2, self.3, self.4, self.5).hlist())
    }

    proof fn lemma_round_trip(self) {
    }

    proof fn lemma_list_round_trip(list: Self::HList) {
        assert(list.1.1.1.1.1.1 == ());
    }
}

/// The list of 7 values.
pub type List7<T1, T2, T3, T4, T5, T6, T7> = Product<T1, List6<T2, T3, T4, T5, T6, T7>>;

impl<T1, T2, T3, T4, T5, T6, T7> HList for List7<T1, T2, T3, T4, T5, T6, T7> {
    type Tuple = (T1, T2, T3, T4, T5, T6, T7);

    open spec fn spec_flatten(self) -> Self::Tuple {
        let rest = self.1.spec_flatten();
        (self.0, rest.0, rest.1, rest.2, rest.3, rest.4, rest.5)
    }

    fn flatten(self) -> (tuple: Self::Tuple) {
        let rest = self.1.flatten();
        (self.0, rest.0, rest.1, rest.2, rest.3, rest.4, rest.5)
    }
}

impl<T1, T2, T3, T4, T5, T6, T7> Tuple for (T1, T2, T3, T4, T5, T6, T7) {
    type HList = List7<T1, T2, T3, T4, T5, T6, T7>;

    open spec fn spec_hlist(self) -> Self::HList {
        Product(self.0, (self.1, self.2, self.3, self.4, self.5, self.6).spec_hlist())
    }

    fn hlist(self) -> (list: Self::HList) {
        Product(self.0, (self.1, self.2, self.3, self.4, self.5, self.6).hlist())
    }

    proof fn lemma_round_trip(self) {
    }

    proof fn lemma_list_round_trip(list: Self::HList) {
        assert(list.1.1.1.1.1.1.1 == ());
    }
}

/// The list of 8 values.
pub type List8<T1, T2, T3, T4, T5, T6, T7, T8> = Product<T1, List7<T2, T3, T4, T5, T6, T7, T8>>;

impl<T1, T2, T3, T4, T5, T6, T7, T8> HList for List8<T1, T2, T3, T4, T5, T6, T7, T8> {
    type Tuple = (T1, T2, T3, T4, T5, T6, T7, T8);

    open spec fn spec_flatten(self) -> Self::Tuple {
        let rest = self.1.spec_flatten();
        (self.0, rest.0, rest.1, rest.2, rest.3, rest.4, rest.5, rest.6)
    }

    fn flatten(self) -> (tuple: Self::Tuple) {
        let rest = self.1.flatten();
        (self.0, rest.0, rest.1, rest.2, rest.3, rest.4, rest.5, rest.6)
    }
}

impl<T1, T2, T3, T4, T5, T6, T7, T8> Tuple for (T1, T2, T3, T4, T5, T6, T7, T8) {
    type HList = List8<T1, T2, T3, T4, T5, T6, T7, T8>;

    open spec fn spec_hlist(self) -> Self::HList {
        Product(self.0, (self.1, self.2, self.3, self.4, self.5, self.6, self.7).spec_hlist())
    }

    fn hlist(self) -> (list: Self::HList) {
        Product(self.0, (self.1, self.2, self.3, self.4, self.5, self.6, self.7).hlist())
    }

    proof fn lemma_round_trip(self) {
    }

    proof fn lemma_list_round_trip(list: Self::HList) {
        assert(list.1.1.1.1.1.1.1.1 == ());
    }
}

/// Lists that the empty list adds nothing to: joined with the empty list
/// behind it, a list is itself.
pub trait Neutral: Combine<(), Output = Self> + Sized {
    /// The empty list adds nothing behind this list.
    proof fn lemma_neutral(self)
        ensures
            self.spec_combine(()) == self,
    ;
}

impl Neutral for () {
    proof fn lemma_neutral(self) {
    }
}

impl<H, T: HList + Neutral> Neutral for Product<H, T> where Product<H, T>: HList {
    proof fn lemma_neutral(self) {
        self.1.lemma_neutral();
    }
}

/// The empty tuple adds nothing behind a tuple.
pub proof fn lemma_join_unit_right<T: Tuple>(tuple: T) where T::HList: Neutral
    ensures
        spec_join::<T, ()>(tuple, ()) == tuple,
{
    tuple.spec_hlist().lemma_neutral();
    tuple.lemma_round_trip();
}

/// Lists for which joining is associative: whether a list is first joined
/// with a `B` and then with a `C`, or joined with a `B` that was joined with
/// a `C`, the values come out the same, in the same order.
pub trait Associative<B: HList, C: HList>: Combine<B> + Combine<
    <B as Combine<C>>::Output,
    Output = <<Self as Combine<B>>::Output as Combine<C>>::Output,
> + Sized where B: Combine<C>, <Self as Combine<B>>::Output: Combine<C> {
    /// Joining is associative.
    proof fn lemma_associative(self, b: B, c: C)
        ensures
            Combine::<C>::spec_combine(Combine::<B>::spec_combine(self, b), c) == Combine::<
                <B as Combine<C>>::Output,
            >::spec_combine(self, b.spec_combine(c)),
    ;
}

impl<B: HList, C: HList> Associative<B, C> for () where B: Combine<C> {
    proof fn lemma_associative(self, b: B, c: C) {
    }
}

impl<H, T: HList, B: HList, C: HList> Associative<B, C> for Product<H, T> where
    B: Combine<C>,
    T: Associative<B, C>,
    <T as Combine<B>>::Output: Combine<C>,
    Product<H, <T as Combine<B>>::Output>: HList,
    Product<H, <<T as Combine<B>>::Output as Combine<C>>::Output>: HList,
 {
    proof fn lemma_associative(self, b: B, c: C) {
        self.1.lemma_associative(b, c);
    }
}

/// Joining tuples is associative: whether the first two of three tuples are
/// joined first, or the last two, the flat tuple is the same.
pub proof fn lemma_join_associative<T1: Tuple, T2: Tuple, T3: Tuple>(a: T1, b: T2, c: T3) where
    T1::HList: Associative<T2::HList, T3::HList>,
    T2::HList: Combine<T3::HList>,
    <T1::HList as Combine<T2::HList>>::Output: Combine<T3::HList>,
    CombinedTuples<T1, T2>: Tuple<HList = <T1::HList as Combine<T2::HList>>::Output>,
    CombinedTuples<T2, T3>: Tuple<HList = <T2::HList as Combine<T3::HList>>::Output>,

    ensures
        spec_join::<CombinedTuples<T1, T2>, T3>(spec_join::<T1, T2>(a, b), c) == spec_join::<
            T1,
            CombinedTuples<T2, T3>,
        >(a, spec_join::<T2, T3>(b, c)),
{
    let first = a.spec_hlist();
    let second = b.spec_hlist();
    let third = c.spec_hlist();
    <CombinedTuples<T1, T2> as Tuple>::lemma_list_round_trip(first.spec_combine(second));
    <CombinedTuples<T2, T3> as Tuple>::lemma_list_round_trip(second.spec_combine(third));
    first.lemma_associative(second, third);
}

/// What a function that may fail returns: a `Result`.
pub trait Fallible: Sized {
    /// What is returned on success.
    type Ok;

    /// What is returned on failure.
    type Error;

    /// This value, as the `Result` that it is.
    spec fn spec_result(self) -> Result<Self::Ok, Self::Error>;

    /// Returns this value, as the `Result` that it is.
    fn into_result(self) -> (result: Result<Self::Ok, Self::Error>)
        ensures
            result == self.spec_result(),
    ;
}

impl<V, E> Fallible for Result<V, E> {
    type Ok = V;

    type Error = E;

    open spec fn spec_result(self) -> Result<V, E> {
        self
    }

    fn into_result(self) -> (result: Result<V, E>) {
        self
    }
}

/// A function that takes the values of a tuple `Args`, one argument for each.
///
/// Every closure of up to eight arguments is one: it accepts what its
/// `requires` admits, and yields what its `ensures` allows.
pub trait Func<Args> {
    /// What the function returns.
    type Output;

    /// Whether the function may be called with `args`.
    spec fn accepts(&self, args: Args) -> bool;

    /// Whether the function, called with `args`, may return `output`.
    spec fn yields(&self, args: Args, output: Self::Output) -> bool;

    /// Calls the function with the values of `args`.
    fn apply(&self, args: Args) -> (output: Self::Output)
        requires
            self.accepts(args),
        ensures
            self.yields(args, output),
    ;
}

impl<F, R> Func<()> for F where F: Fn() -> R {
    type Output = R;

    open spec fn accepts(&self, args: ()) -> bool {
        call_requires(*self, args)
    }

    open spec fn yields(&self, args: (), output: R) -> bool {
        call_ensures(*self, args, output)
    }

    fn apply(&self, args: ()) -> (output: R) {
        (*self)()
    }
}

impl<F, R, T1> Func<(T1,)> for F where F: Fn(T1) -> R {
    type Output = R;

    open spec fn accepts(&self, args: (T1,)) -> bool {
        call_requires(*self, args)
    }

    open spec fn yields(&self, args: (T1,), output: R) -> bool {
        call_ensures(*self, args, output)
    }

    fn apply(&self, args: (T1,)) -> (output: R) {
        (*self)(args.0)
    }
}

impl<F, R, T1, T2> Func<(T1, T2)> for F where F: Fn(T1, T2) -> R {
    type Output = R;

    open spec fn accepts(&self, args: (T1, T2)) -> bool {
        call_requires(*self, args)
    }

    open spec fn yields(&self, args: (T1, T2), output: R) -> bool {
        call_ensures(*self, args, output)
    }

    fn apply(&self, args: (T1, T2)) -> (output: R) {
        (*self)(args.0, args.1)
    }
}

impl<F, R, T1, T2, T3> Func<(T1, T2, T3)> for F where F: Fn(T1, T2, T3) -> R {
    type Output = R;

    open spec fn accepts(&self, args: (T1, T2, T3)) -> bool {
        call_requires(*self, args)
    }

    open spec fn yields(&self, args: (T1, T2, T3), output: R) -> bool {
        call_ensures(*self, args, output)
    }

    fn apply(&self, args: (T1, T2, T3)) -> (output: R) {
        (*self)(args.0, args.1, args.2)
    }
}

impl<F, R, T1, T2, T3, T4> Func<(T1, T2, T3, T4)> for F where F: Fn(T1, T2, T3, T4) -> R {
    type Output = R;

    open spec fn accepts(&self, args: (T1, T2, T3, T4)) -> bool {
        call_requires(*self, args)
    }

    open spec fn yields(&self, args: (T1, T2, T3, T4), output: R) -> bool {
        call_ensures(*self, args, output)
    }

    fn apply(&self, args: (T1, T2, T3, T4)) -> (output: R) {
        (*self)(args.0, args.1, args.2, args.3)
    }
}

impl<F, R, T1, T2, T3, T4, T5> Func<(T1, T2, T3, T4, T5)> for F where
    F: Fn(T1, T2, T3, T4, T5) -> R,
 {
    type Output = R;

    open spec fn accepts(&self, args: (T1, T2, T3, T4, T5)) -> bool {
        call_requires(*self, args)
    }

    open spec fn yields(&self, args: (T1, T2, T3, T4, T5), output: R) -> bool {
        call_ensures(*self, args, output)
    }

    fn apply(&self, args: (T1, T2, T3, T4, T5)) -> (output: R) {
        (*self)(args.0, args.1, args.2, args.3, args.4)
    }
}

impl<F, R, T1, T2, T3, T4, T5, T6> Func<(T1, T2, T3, T4, T5, T6)> for F where
    F: Fn(T1, T2, T3, T4, T5, T6) -> R,
 {
    type Output = R;

    open spec fn accepts(&self, args: (T1, T2, T3, T4, T5, T6)) -> bool {
        call_requires(*self, args)
    }

    open spec fn yields(&self, args: (T1, T2, T3, T4, T5, T6), output: R) -> bool {
        call_ensures(*self, args, output)
    }

    fn apply(&self, args: (T1, T2, T3, T4, T5, T6)) -> (output: R) {
        (*self)(args.0, args.1, args.2, args.3, args.4, args.5)
    }
}

impl<F, R, T1, T2, T3, T4, T5, T6, T7> Func<(T1, T2, T3, T4, T5, T6, T7)> for F where
    F: Fn(T1, T2, T3, T4, T5, T6, T7) -> R,
 {
    type Output = R;

    open spec fn accepts(&self, args: (T1, T2, T3, T4, T5, T6, T7)) -> bool {
        call_requires(*self, args)
    }

    open spec fn yields(&self, args: (T1, T2, T3, T4, T5, T6, T7), output: R) -> bool {
        call_ensures(*self, args, output)
    }

    fn apply(&self, args: (T1, T2, T3, T4, T5, T6, T7)) -> (output: R) {
        (*self)(args.0, args.1, args.2, args.3, args.4, args.5, args.6)
    }
}

impl<F, R, T1, T2, T3, T4, T5, T6, T7, T8> Func<(T1, T2, T3, T4, T5, T6, T7, T8)> for F where
    F: Fn(T1, T2, T3, T4, T5, T6, T7, T8) -> R,
 {
    type Output = R;

    open spec fn accepts(&self, args: (T1, T2, T3, T4, T5, T6, T7, T8)) -> bool {
        call_requires(*self, args)
    }

    open spec fn yields(&self, args: (T1, T2, T3, T4, T5, T6, T7, T8), output: R) -> bool {
        call_ensures(*self, args, output)
    }

    fn apply(&self, args: (T1, T2, T3, T4, T5, T6, T7, T8)) -> (output: R) {
        (*self)(args.0, args.1, args.2, args.3, args.4, args.5, args.6, args.7)
    }
}

} // verus!
