//! HTTP Method filters.
//!
//! The filters deal with the HTTP Method part of a request. Several here will
//! match the request `Method`, and if not matched, will reject the request
//! with a `405 Method Not Allowed`.
//!
//! There is also [`method()`](method), which never rejects
//! a request, and just extracts the method to be used in your filter chains.
use crate::filter::FilterBase;
use crate::generic::One;
use crate::reject::{method_not_allowed, Cause, Known, Rejection};
use crate::route::Route;
use std::convert::Infallible;
use std::marker::PhantomData;
use vstd::prelude::*;
use vstd::string::*;

verus! {

/// Whether two strings hold the same characters. They do where they are
/// made of the same bytes.
fn same_text(one: &str, other: &str) -> (same: bool)
    ensures
        same == (one@ == other@),
{
    let left = one.as_bytes();
    let right = other.as_bytes();
    proof {
        // a string is told by its bytes
        vstd::utf8::encode_utf8_decode_utf8(one@);
        vstd::utf8::encode_utf8_decode_utf8(other@);
    }
    if left.len() != right.len() {
        return false;
    }
    let mut i: usize = 0;
    while i < left.len()
        invariant
            left@ == one.spec_bytes(),
            right@ == other.spec_bytes(),
            left@.len() == right@.len(),
            i <= left@.len(),
            forall|j: int| 0 <= j < i ==> left@[j] == right@[j],
        decreases left@.len() - i,
    {
        if left[i] != right[i] {
            return false;
        }
        i += 1;
    }
    assert(left@ =~= right@);
    true
}

/// Create a `Filter` that requires the request method to be `GET`.
pub fn get() -> (filter: MethodIs<Get>) {
    method_is()
}

/// Create a `Filter` that requires the request method to be `POST`.
pub fn post() -> (filter: MethodIs<Post>) {
    method_is()
}

/// Create a `Filter` that requires the request method to be `PUT`.
pub fn put() -> (filter: MethodIs<Put>) {
    method_is()
}

/// Create a `Filter` that requires the request method to be `DELETE`.
pub fn delete() -> (filter: MethodIs<Delete>) {
    method_is()
}

/// Create a `Filter` that requires the request method to be `HEAD`.
pub fn head() -> (filter: MethodIs<Head>) {
    method_is()
}

/// Create a `Filter` that requires the request method to be `OPTIONS`.
pub fn options() -> (filter: MethodIs<Options>) {
    method_is()
}

/// Create a `Filter` that requires the request method to be `PATCH`.
pub fn patch() -> (filter: MethodIs<Patch>) {
    method_is()
}

/// Extract the method from the request.
///
/// This never rejects a request.
pub fn method() -> (filter: MethodOf) {
    MethodOf
}

/// A request method, as a type: the filter for it then takes no room.
pub trait Verb {
    /// The name of the method, in capital letters.
    spec fn spec_name() -> Seq<char>;

    /// Returns the name of the method.
    fn name() -> (name: &'static str)
        ensures
            name@ == Self::spec_name(),
    ;
}

/// The method `GET`.
#[derive(Copy, Clone, Debug)]
pub struct Get;

impl Verb for Get {
    open spec fn spec_name() -> Seq<char> {
        "GET"@
    }

    fn name() -> (name: &'static str) {
        "GET"
    }
}

/// The method `POST`.
#[derive(Copy, Clone, Debug)]
pub struct Post;

impl Verb for Post {
    open spec fn spec_name() -> Seq<char> {
        "POST"@
    }

    fn name() -> (name: &'static str) {
        "POST"
    }
}

/// The method `PUT`.
#[derive(Copy, Clone, Debug)]
pub struct Put;

impl Verb for Put {
    open spec fn spec_name() -> Seq<char> {
        "PUT"@
    }

    fn name() -> (name: &'static str) {
        "PUT"
    }
}

/// The method `DELETE`.
#[derive(Copy, Clone, Debug)]
pub struct Delete;

impl Verb for Delete {
    open spec fn spec_name() -> Seq<char> {
        "DELETE"@
    }

    fn name() -> (name: &'static str) {
        "DELETE"
    }
}

/// The method `HEAD`.
#[derive(Copy, Clone, Debug)]
pub struct Head;

impl Verb for Head {
    open spec fn spec_name() -> Seq<char> {
        "HEAD"@
    }

    fn name() -> (name: &'static str) {
        "HEAD"
    }
}

/// The method `OPTIONS`.
#[derive(Copy, Clone, Debug)]
pub struct Options;

impl Verb for Options {
    open spec fn spec_name() -> Seq<char> {
        "OPTIONS"@
    }

    fn name() -> (name: &'static str) {
        "OPTIONS"
    }
}

/// The method `PATCH`.
#[derive(Copy, Clone, Debug)]
pub struct Patch;

impl Verb for Patch {
    open spec fn spec_name() -> Seq<char> {
        "PATCH"@
    }

    fn name() -> (name: &'static str) {
        "PATCH"
    }
}

// NOTE: The method is a type parameter instead of a value in the filter so
// that the filter can be zero-sized. Moving it around should be cheaper than
// holding a single static pointer (which would make it 1 word).
fn method_is<M: Verb>() -> (filter: MethodIs<M>) {
    MethodIs { verb: PhantomData }
}

/// The filter that requires one method.
#[derive(Debug)]
pub struct MethodIs<M> {
    verb: PhantomData<M>,
}

impl<M> Clone for MethodIs<M> {
    fn clone(&self) -> (copy: Self) {
        MethodIs { verb: PhantomData }
    }
}

impl<M> Copy for MethodIs<M> {

}

impl<M: Verb> FilterBase for MethodIs<M> {
    type Extract = ();

    type Error = Rejection;

    open spec fn ready(&self, route: Route) -> bool {
        true
    }

    /// It succeeds where the request has the method, and else fails with
    /// "method not allowed"; the request stays as it was.
    open spec fn outcome(
        &self,
        before: Route,
        result: Result<(), Rejection>,
        after: Route,
    ) -> bool {
        &&& after == before
        &&& match result {
            Ok(_) => before.spec_method() == M::spec_name(),
            Err(e) => {
                &&& before.spec_method() != M::spec_name()
                &&& e@.len() == 1
                &&& e@[0] matches Cause::Known(Known::MethodNotAllowed(_))
            },
        }
    }

    fn filter(&self, route: &mut Route) -> (result: Result<(), Rejection>) {
        proof {
            route.lemma_same_request(*route);
        }
        if same_text(route.method(), M::name()) {
            Ok(())
        } else {
            Err(method_not_allowed())
        }
    }
}

/// The filter that extracts the method.
#[derive(Copy, Clone, Debug)]
pub struct MethodOf;

impl FilterBase for MethodOf {
    type Extract = One<String>;

    type Error = Infallible;

    open spec fn ready(&self, route: Route) -> bool {
        true
    }

    /// It succeeds with the method of the request, which stays as it was.
    open spec fn outcome(
        &self,
        before: Route,
        result: Result<One<String>, Infallible>,
        after: Route,
    ) -> bool {
        &&& after == before
        &&& result matches Ok(name)
        &&& name.0@ == before.spec_method()
    }

    fn filter(&self, route: &mut Route) -> (result: Result<One<String>, Infallible>) {
        proof {
            route.lemma_same_request(*route);
        }
        Ok((String::from_str(route.method()),))
    }
}

} // verus!
