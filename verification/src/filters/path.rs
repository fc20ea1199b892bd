//! Path filters.
//!
//! The filters here match the path of a request, segment by segment: each
//! looks at the segment at the path cursor, and moves the cursor behind it
//! where it matches. A path that does not match is rejected as "not found",
//! with the cursor where it was.
use crate::filter::FilterBase;
use crate::generic::One;
use crate::reject::{not_found, Rejection};
use crate::route::Route;
use std::marker::PhantomData;
use vstd::prelude::*;
use vstd::string::*;

verus! {

/// The number that a run of decimal digits stands for.
pub open spec fn spec_digits_value(digits: Seq<char>) -> nat
    decreases digits.len(),
{
    if digits.len() == 0 {
        0
    } else {
        spec_digits_value(digits.drop_last()) * 10 + (digits.last() as nat - '0' as nat) as nat
    }
}

/// Whether `text` is one decimal digit or more, and nothing else.
pub open spec fn is_digits(text: Seq<char>) -> bool {
    &&& text.len() > 0
    &&& forall|i: int| 0 <= i < text.len() ==> '0' <= #[trigger] text[i] <= '9'
}

/// The number that `text` stands for, written as decimal digits with or
/// without a plus sign before them.
pub open spec fn spec_unsigned(text: Seq<char>) -> Option<nat> {
    let digits = if text.len() > 0 && text[0] == '+' {
        text.subrange(1, text.len() as int)
    } else {
        text
    };
    if is_digits(digits) {
        Some(spec_digits_value(digits))
    } else {
        None
    }
}

/// The number that `text` stands for, if it stands for one up to `max`.
pub open spec fn spec_unsigned_up_to(text: Seq<char>, max: nat) -> Option<nat> {
    match spec_unsigned(text) {
        Some(n) => if n <= max {
            Some(n)
        } else {
            None
        },
        None => None,
    }
}

/// The digits at the start of a run of digits stand for no more than the
/// whole run.
pub proof fn lemma_digits_value_grows(digits: Seq<char>, k: int)
    requires
        0 <= k <= digits.len(),
    ensures
        spec_digits_value(digits.take(k)) <= spec_digits_value(digits),
    decreases digits.len(),
{
    if k < digits.len() {
        lemma_digits_value_grows(digits.drop_last(), k);
        assert(digits.drop_last().take(k) =~= digits.take(k));
    } else {
        assert(digits.take(k) =~= digits);
    }
}

/// Reads `text` as a number up to `max`, written in decimal digits with or
/// without a plus sign before them.
fn parse_unsigned(text: &str, max: u64) -> (parsed: Option<u64>)
    ensures
        match parsed {
            Some(n) => spec_unsigned_up_to(text@, max as nat) == Some(n as nat),
            None => spec_unsigned_up_to(text@, max as nat) is None,
        },
{
    let ghost signed = text@.len() > 0 && text@[0] == '+';
    let ghost digits = if signed {
        text@.subrange(1, text@.len() as int)
    } else {
        text@
    };
    if !text.is_ascii() {
        proof {
            let at = choose|at: int|
                0 <= at < text@.len() && !('\0' <= #[trigger] text@[at] <= '\u{7f}');
            if signed {
                assert(digits[at - 1] == text@[at]);
            }
        }
        return None;
    }
    proof {
        is_ascii_spec_bytes(text);
    }
    let len = text.as_bytes().len();
    let start: usize = if len > 0 && text.get_ascii(0) == 43u8 {
        1
    } else {
        0
    };
    assert(digits =~= text@.subrange(start as int, len as int));
    if start == len {
        return None;
    }
    let mut value: u64 = 0;
    let mut i: usize = start;
    while i < len
        invariant
            text.is_ascii(),
            len == text@.len(),
            start <= i <= len,
            digits == text@.subrange(start as int, len as int),
            spec_unsigned(text@) == if is_digits(digits) {
                Some(spec_digits_value(digits))
            } else {
                None
            },
            forall|j: int| 0 <= j < i - start ==> '0' <= #[trigger] digits[j] <= '9',
            value == spec_digits_value(digits.take(i - start)),
            value <= max,
        decreases len - i,
    {
        let byte = text.get_ascii(i);
        assert(digits[i - start] == text@[i as int]);
        if byte < 48u8 || byte > 57u8 {
            assert(!('0' <= digits[i - start] <= '9'));
            return None;
        }
        let digit: u64 = (byte - 48u8) as u64;
        proof {
            let longer = digits.take(i - start + 1);
            assert(longer.drop_last() =~= digits.take(i - start));
            assert(longer.last() == digits[i - start]);
            assert(spec_digits_value(longer) == value * 10 + digit);
            lemma_digits_value_grows(digits, i - start + 1);
        }
        if max < digit || value > (max - digit) / 10 {
            assert(value * 10 + digit > max);
            return None;
        }
        value = value * 10 + digit;
        i += 1;
    }
    assert(digits.take(len - start) =~= digits);
    Some(value)
}

/// The types of the values that a path segment can be read as.
pub trait FromSegment: Sized {
    /// Whether reading `segment` may give `value`.
    spec fn reads(segment: Seq<char>, value: Option<Self>) -> bool;

    /// Reads a segment, which is not empty.
    fn from_segment(segment: &str) -> (value: Option<Self>)
        requires
            segment@.len() > 0,
        ensures
            Self::reads(segment@, value),
    ;
}

impl FromSegment for u32 {
    /// The number that the segment stands for, if it is one within `u32`.
    open spec fn reads(segment: Seq<char>, value: Option<u32>) -> bool {
        match spec_unsigned(segment) {
            Some(n) => value == if n <= u32::MAX {
                Some(n as u32)
            } else {
                None
            },
            None => value is None,
        }
    }

    fn from_segment(segment: &str) -> (value: Option<u32>) {
        match parse_unsigned(segment, 0xffff_ffff) {
            Some(n) => Some(n as u32),
            None => None,
        }
    }
}

impl FromSegment for u64 {
    /// The number that the segment stands for, if it is one within `u64`.
    open spec fn reads(segment: Seq<char>, value: Option<u64>) -> bool {
        match spec_unsigned(segment) {
            Some(n) => value == if n <= u64::MAX {
                Some(n as u64)
            } else {
                None
            },
            None => value is None,
        }
    }

    fn from_segment(segment: &str) -> (value: Option<u64>) {
        parse_unsigned(segment, 0xffff_ffff_ffff_ffff)
    }
}

impl FromSegment for String {
    /// The segment itself.
    open spec fn reads(segment: Seq<char>, value: Option<String>) -> bool {
        value matches Some(text) && text@ == segment
    }

    fn from_segment(segment: &str) -> (value: Option<String>) {
        Some(String::from_str(segment))
    }
}

/// Create a filter that matches one exact segment of the path.
pub fn path(segment: &'static str) -> (filter: Exact)
    ensures
        filter.segment == segment,
{
    Exact { segment }
}

/// Create a filter that reads the segment at the cursor as a `T`.
///
/// It never matches an empty segment.
pub fn param<T: FromSegment>() -> (filter: Param<T>) {
    Param { marker: PhantomData }
}

/// Create a filter that matches the end of the path.
pub fn end() -> (filter: End) {
    End
}

/// The filter that matches one exact segment.
#[derive(Copy, Clone, Debug)]
pub struct Exact {
    /// The segment to match.
    pub segment: &'static str,
}

impl FilterBase for Exact {
    type Extract = ();

    type Error = Rejection;

    open spec fn ready(&self, route: Route) -> bool {
        true
    }

    /// It succeeds where the segment at the cursor is the one to match, and
    /// moves the cursor behind it; else it fails with "not found" and leaves
    /// the cursor where it was.
    open spec fn outcome(
        &self,
        before: Route,
        result: Result<(), Rejection>,
        after: Route,
    ) -> bool {
        match result {
            Ok(_) => before.spec_segment() == self.segment@ && after == before.spec_past_segment(),
            Err(e) => before.spec_segment() != self.segment@ && after == before && e@.len() == 0,
        }
    }

    fn filter(&self, route: &mut Route) -> (result: Result<(), Rejection>) {
        if route.advance(self.segment) {
            Ok(())
        } else {
            Err(not_found())
        }
    }
}

/// The filter that reads a segment as a `T`.
#[derive(Debug)]
pub struct Param<T> {
    marker: PhantomData<T>,
}

impl<T> Clone for Param<T> {
    fn clone(&self) -> (copy: Self) {
        Param { marker: PhantomData }
    }
}

impl<T> Copy for Param<T> {

}

impl<T: FromSegment> FilterBase for Param<T> {
    type Extract = One<T>;

    type Error = Rejection;

    open spec fn ready(&self, route: Route) -> bool {
        true
    }

    /// It succeeds where the segment at the cursor is not empty and reads as
    /// a `T`, and moves the cursor behind it; else it fails with "not found"
    /// and leaves the cursor where it was.
    open spec fn outcome(
        &self,
        before: Route,
        result: Result<One<T>, Rejection>,
        after: Route,
    ) -> bool {
        match result {
            Ok(value) => {
                &&& before.spec_segment().len() > 0
                &&& T::reads(before.spec_segment(), Some(value.0))
                &&& after == before.spec_past_segment()
            },
            Err(e) => {
                &&& before.spec_segment().len() == 0 || T::reads(before.spec_segment(), None)
                &&& after == before
                &&& e@.len() == 0
            },
        }
    }

    fn filter(&self, route: &mut Route) -> (result: Result<One<T>, Rejection>) {
        proof {
            route.lemma_same_request(*route);
        }
        let segment = route.segment();
        if segment.is_empty() {
            return Err(not_found());
        }
        match T::from_segment(segment) {
            Some(value) => {
                route.skip_segment();
                Ok((value,))
            },
            None => Err(not_found()),
        }
    }
}

/// The filter that matches the end of the path.
#[derive(Copy, Clone, Debug)]
pub struct End;

impl FilterBase for End {
    type Extract = ();

    type Error = Rejection;

    open spec fn ready(&self, route: Route) -> bool {
        true
    }

    /// It succeeds where nothing of the path is left to match, and else
    /// fails with "not found"; the request stays as it was.
    open spec fn outcome(
        &self,
        before: Route,
        result: Result<(), Rejection>,
        after: Route,
    ) -> bool {
        &&& after == before
        &&& match result {
            Ok(_) => before.spec_remaining_path().len() == 0,
            Err(e) => before.spec_remaining_path().len() > 0 && e@.len() == 0,
        }
    }

    fn filter(&self, route: &mut Route) -> (result: Result<(), Rejection>) {
        proof {
            route.lemma_same_request(*route);
        }
        if route.at_end() {
            Ok(())
        } else {
            Err(not_found())
        }
    }
}

} // verus!
