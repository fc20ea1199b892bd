//! The request that filters look at.
//!
//! A [`Route`] holds what is known of one request, its method, its path and
//! its headers, and a cursor into the path: what lies before the cursor has
//! been matched by the filters that ran so far, what lies behind it is left
//! to match. Filters move the cursor forward, segment by segment; an
//! alternative that fails has it put back where it was, so that the next
//! alternative starts from the same place.
use crate::headers::{header_text, no_headers, spec_header_text, spec_no_values, spec_values};
use http::header::{HeaderMap, HeaderValue};
use vstd::prelude::*;
use vstd::string::*;

verus! {

/// The number of characters of `path` from `from` up to the next slash, or
/// up to the end where no slash follows.
pub open spec fn spec_segment_len(path: Seq<char>, from: int) -> nat
    decreases path.len() - from,
{
    if from < 0 || from >= path.len() || path[from] == '/' {
        0
    } else {
        1 + spec_segment_len(path, from + 1)
    }
}

/// A segment ends within the path, holds no slash, and is followed by a
/// slash or by the end of the path.
pub proof fn lemma_segment_len(path: Seq<char>, from: int)
    requires
        0 <= from <= path.len(),
    ensures
        from + spec_segment_len(path, from) <= path.len(),
        forall|i: int| from <= i < from + spec_segment_len(path, from) ==> path[i] != '/',
        from + spec_segment_len(path, from) < path.len() ==> path[from + spec_segment_len(
            path,
            from,
        )] == '/',
    decreases path.len() - from,
{
    if from < path.len() && path[from] != '/' {
        lemma_segment_len(path, from + 1);
    }
}

/// Where the cursor stands once the `matched` characters from `cursor` on
/// are matched: behind them, and behind the slash that follows them, if one
/// does.
pub open spec fn spec_cursor_after(path: Seq<char>, cursor: int, matched: int) -> int {
    if cursor + matched < path.len() {
        cursor + matched + 1
    } else {
        cursor + matched
    }
}

/// The number of characters of a string of ASCII characters.
fn ascii_len(text: &str) -> (len: usize)
    requires
        text.is_ascii(),
    ensures
        len == text@.len(),
{
    proof {
        is_ascii_spec_bytes(text);
    }
    text.as_bytes().len()
}

/// The version of the protocol that a request came by.
#[derive(Clone, Copy, Debug, PartialEq, Eq, Structural)]
pub enum Version {
    /// `HTTP/0.9`
    Http09,
    /// `HTTP/1.0`
    Http10,
    /// `HTTP/1.1`
    Http11,
    /// `HTTP/2.0`
    H2,
    /// `HTTP/3.0`
    H3,
}

/// One request, as the filters see it.
#[derive(Debug)]
pub struct Route {
    method: String,
    path: String,
    cursor: usize,
    version: Version,
    remote_addr: Option<String>,
    headers: HeaderMap<HeaderValue>,
}

impl Route {
    /// The path is made of ASCII characters, and the cursor stands within it
    /// or at its end.
    #[verifier::type_invariant]
    spec fn inv(self) -> bool {
        &&& self.path.is_ascii()
        &&& self.cursor <= self.path@.len()
    }

    /// The method of the request.
    pub closed spec fn spec_method(&self) -> Seq<char> {
        self.method@
    }

    /// The whole path of the request.
    pub closed spec fn spec_full_path(&self) -> Seq<char> {
        self.path@
    }

    /// The number of characters of the path that are matched.
    pub closed spec fn spec_cursor(&self) -> nat {
        self.cursor as nat
    }

    /// The version of the protocol.
    pub closed spec fn spec_version(&self) -> Version {
        self.version
    }

    /// The address that the request came from, where it is known.
    pub closed spec fn spec_remote_addr(&self) -> Option<Seq<char>> {
        match self.remote_addr {
            Some(addr) => Some(addr@),
            None => None,
        }
    }

    /// The headers: for each name, in lower case, the values that came under
    /// it.
    pub closed spec fn spec_headers(&self) -> Map<Seq<char>, Seq<Seq<u8>>> {
        spec_values(self.headers)
    }

    /// Whether this is the request of `other`, with the cursor anywhere.
    pub closed spec fn same_request(&self, other: Route) -> bool {
        &&& self.method == other.method
        &&& self.path == other.path
        &&& self.version == other.version
        &&& self.remote_addr == other.remote_addr
        &&& self.headers == other.headers
    }

    /// This request with the cursor at `position`.
    pub closed spec fn spec_at(&self, position: nat) -> Route {
        Route {
            method: self.method,
            path: self.path,
            cursor: position as usize,
            version: self.version,
            remote_addr: self.remote_addr,
            headers: self.headers,
        }
    }

    /// The part of the path that is left to match.
    pub open spec fn spec_remaining_path(&self) -> Seq<char> {
        self.spec_full_path().subrange(
            self.spec_cursor() as int,
            self.spec_full_path().len() as int,
        )
    }

    /// The segment at the cursor: what is left of the path, up to the next
    /// slash.
    pub open spec fn spec_segment(&self) -> Seq<char> {
        self.spec_full_path().subrange(
            self.spec_cursor() as int,
            self.spec_cursor() as int + spec_segment_len(
                self.spec_full_path(),
                self.spec_cursor() as int,
            ),
        )
    }

    /// This request with the segment at the cursor matched.
    pub open spec fn spec_past_segment(&self) -> Route {
        self.spec_at(
            spec_cursor_after(
                self.spec_full_path(),
                self.spec_cursor() as int,
                spec_segment_len(self.spec_full_path(), self.spec_cursor() as int) as int,
            ) as nat,
        )
    }

    /// Two requests are one where they are the same request with the same
    /// cursor; a request with the cursor moved is the same request.
    pub proof fn lemma_same_request(&self, other: Route)
        ensures
            self.same_request(other) && self.spec_cursor() == other.spec_cursor() ==> *self
                == other,
            self.same_request(other) ==> other.same_request(*self) && self.spec_method()
                == other.spec_method() && self.spec_full_path() == other.spec_full_path()
                && self.spec_version() == other.spec_version() && self.spec_remote_addr()
                == other.spec_remote_addr() && self.spec_headers() == other.spec_headers(),
            self.same_request(*self),
    {
    }

    /// The same request as the same request is the same request.
    pub proof fn lemma_same_request_chain(&self, mid: Route, other: Route)
        requires
            self.same_request(mid),
            mid.same_request(other),
        ensures
            self.same_request(other),
            other.same_request(*self),
    {
    }

    /// What a request with its cursor moved holds.
    pub proof fn lemma_at(&self, position: nat)
        requires
            position <= usize::MAX,
        ensures
            self.spec_at(position).same_request(*self),
            self.spec_at(position).spec_cursor() == position,
            self.spec_at(self.spec_cursor()) == *self,
    {
    }

    /// Makes the request with this method and this path, nothing of which is
    /// matched but the slash it starts with. It comes by `HTTP/1.1`, from
    /// an address that is not known, and without headers. A path must be made
    /// of ASCII characters: there is no request for any other.
    pub fn new(method: &str, path: &str) -> (route: Option<Route>)
        ensures
            route is Some <==> path.is_ascii(),
            route matches Some(r) ==> {
                &&& r.spec_method() == method@
                &&& r.spec_full_path() == path@
                &&& r.spec_cursor() == if path@.len() > 0 && path@[0] == '/' {
                    1nat
                } else {
                    0nat
                }
                &&& r.spec_version() == Version::Http11
                &&& r.spec_remote_addr() is None
                &&& r.spec_headers() == spec_no_values()
            },
    {
        if !path.is_ascii() {
            return None;
        }
        let cursor: usize = if ascii_len(path) > 0 && path.get_ascii(0) == 47u8 {
            1
        } else {
            0
        };
        Some(
            Route {
                method: String::from_str(method),
                path: String::from_str(path),
                cursor,
                version: Version::Http11,
                remote_addr: None,
                headers: no_headers(),
            },
        )
    }

    /// This request, come by another version of the protocol.
    pub fn with_version(self, version: Version) -> (route: Route)
        ensures
            route.spec_version() == version,
            route.spec_method() == self.spec_method(),
            route.spec_full_path() == self.spec_full_path(),
            route.spec_cursor() == self.spec_cursor(),
            route.spec_remote_addr() == self.spec_remote_addr(),
            route.spec_headers() == self.spec_headers(),
    {
        proof {
            use_type_invariant(&self);
        }
        Route {
            method: self.method,
            path: self.path,
            cursor: self.cursor,
            version,
            remote_addr: self.remote_addr,
            headers: self.headers,
        }
    }

    /// This request, come from the address `addr`.
    pub fn with_remote_addr(self, addr: &str) -> (route: Route)
        ensures
            route.spec_remote_addr() == Some(addr@),
            route.spec_method() == self.spec_method(),
            route.spec_full_path() == self.spec_full_path(),
            route.spec_cursor() == self.spec_cursor(),
            route.spec_version() == self.spec_version(),
            route.spec_headers() == self.spec_headers(),
    {
        proof {
            use_type_invariant(&self);
        }
        Route {
            method: self.method,
            path: self.path,
            cursor: self.cursor,
            version: self.version,
            remote_addr: Some(String::from_str(addr)),
            headers: self.headers,
        }
    }

    /// This request, with these headers in place of those it has.
    pub fn with_headers(self, headers: HeaderMap<HeaderValue>) -> (route: Route)
        ensures
            route.spec_headers() == spec_values(headers),
            route.spec_method() == self.spec_method(),
            route.spec_full_path() == self.spec_full_path(),
            route.spec_cursor() == self.spec_cursor(),
            route.spec_version() == self.spec_version(),
            route.spec_remote_addr() == self.spec_remote_addr(),
    {
        proof {
            use_type_invariant(&self);
        }
        Route {
            method: self.method,
            path: self.path,
            cursor: self.cursor,
            version: self.version,
            remote_addr: self.remote_addr,
            headers,
        }
    }

    /// Returns the version of the protocol.
    pub fn version(&self) -> (version: Version)
        ensures
            version == self.spec_version(),
    {
        self.version
    }

    /// Returns the address that the request came from, where it is known.
    pub fn remote_addr(&self) -> (addr: Option<&str>)
        ensures
            match addr {
                Some(text) => self.spec_remote_addr() == Some(text@),
                None => self.spec_remote_addr() is None,
            },
    {
        match &self.remote_addr {
            Some(addr) => Some(addr.as_str()),
            None => None,
        }
    }

    /// Returns the headers.
    pub fn headers(&self) -> (headers: &HeaderMap<HeaderValue>)
        ensures
            spec_values(*headers) == self.spec_headers(),
    {
        &self.headers
    }

    /// Returns the first value that came under the header `name`, whatever
    /// the case of the letters in `name`, if that value is text.
    pub fn header(&self, name: &str) -> (value: Option<&str>)
        ensures
            match value {
                Some(text) => spec_header_text(self.spec_headers(), name@) == Some(text@),
                None => spec_header_text(self.spec_headers(), name@) is None,
            },
    {
        header_text(&self.headers, name)
    }

    /// Returns the method of the request.
    pub fn method(&self) -> (method: &str)
        ensures
            method@ == self.spec_method(),
    {
        self.method.as_str()
    }

    /// Returns the whole path of the request.
    pub fn full_path(&self) -> (path: &str)
        ensures
            path@ == self.spec_full_path(),
    {
        self.path.as_str()
    }

    /// Returns the part of the path that is left to match.
    pub fn remaining_path(&self) -> (path: &str)
        ensures
            path@ == self.spec_remaining_path(),
    {
        let whole = self.path.as_str();
        proof {
            use_type_invariant(self);
        }
        whole.substring_ascii(self.cursor, ascii_len(whole))
    }

    /// Whether all of the path is matched.
    pub fn at_end(&self) -> (yes: bool)
        ensures
            yes == (self.spec_remaining_path().len() == 0),
    {
        self.cursor == self.len()
    }

    /// The length of the whole path.
    fn len(&self) -> (len: usize)
        ensures
            len == self.spec_full_path().len(),
            self.spec_cursor() <= len,
    {
        proof {
            use_type_invariant(self);
        }
        ascii_len(self.path.as_str())
    }

    /// Returns where the cursor stands, to come back to later.
    pub fn save_cursor(&self) -> (position: usize)
        ensures
            position == self.spec_cursor(),
            position <= self.spec_full_path().len(),
    {
        proof {
            use_type_invariant(self);
        }
        self.cursor
    }

    /// Puts the cursor at `position`. A position beyond the path is none of
    /// this request, and leaves the cursor where it is.
    pub fn restore_cursor(&mut self, position: usize)
        ensures
            final(self).same_request(*old(self)),
            final(self).spec_cursor() == if position <= old(self).spec_full_path().len() {
                position as nat
            } else {
                old(self).spec_cursor()
            },
    {
        proof {
            use_type_invariant(&*self);
        }
        let len = self.len();
        if position <= len {
            self.cursor = position;
        }
    }

    /// The place in the path where the segment at the cursor ends.
    fn segment_end(&self) -> (end: usize)
        ensures
            end == self.spec_cursor() + spec_segment_len(
                self.spec_full_path(),
                self.spec_cursor() as int,
            ),
            end <= self.spec_full_path().len(),
    {
        let whole = self.path.as_str();
        proof {
            use_type_invariant(self);
        }
        let len = ascii_len(whole);
        let mut end = self.cursor;
        while end < len && whole.get_ascii(end) != 47u8
            invariant
                whole@ == self.path@,
                whole.is_ascii(),
                len == whole@.len(),
                self.cursor <= end <= len,
                spec_segment_len(whole@, self.cursor as int) == (end - self.cursor)
                    + spec_segment_len(whole@, end as int),
            decreases len - end,
        {
            end += 1;
        }
        end
    }

    /// Returns the segment at the cursor.
    pub fn segment(&self) -> (segment: &str)
        ensures
            segment@ == self.spec_segment(),
    {
        proof {
            use_type_invariant(self);
        }
        let end = self.segment_end();
        self.path.as_str().substring_ascii(self.cursor, end)
    }

    /// Moves the cursor behind the segment it stands at, and behind the
    /// slash that ends the segment.
    pub fn skip_segment(&mut self)
        ensures
            *final(self) == old(self).spec_past_segment(),
            final(self).same_request(*old(self)),
    {
        proof {
            use_type_invariant(&*self);
        }
        let len = self.len();
        let end = self.segment_end();
        if end < len {
            self.cursor = end + 1;
        } else {
            self.cursor = end;
        }
    }

    /// Matches `segment` against the segment at the cursor. Where they are
    /// equal the cursor moves behind the segment; where not, nothing changes.
    pub fn advance(&mut self, segment: &str) -> (matched: bool)
        ensures
            matched == (old(self).spec_segment() == segment@),
            *final(self) == if matched {
                old(self).spec_past_segment()
            } else {
                *old(self)
            },
            final(self).same_request(*old(self)),
    {
        proof {
            use_type_invariant(&*self);
        }
        let len = self.len();
        let end = self.segment_end();
        if !segment.is_ascii() || ascii_len(segment) != end - self.cursor {
            return false;
        }
        let whole = self.path.as_str();
        let start = self.cursor;
        let ghost here = self.spec_segment();
        let mut i: usize = 0;
        while i < end - start
            invariant
                whole@ == self.path@,
                whole.is_ascii(),
                segment.is_ascii(),
                start <= end <= whole@.len(),
                segment@.len() == end - start,
                here == whole@.subrange(start as int, end as int),
                here == old(self).spec_segment(),
                i <= end - start,
                forall|j: int| 0 <= j < i ==> segment@[j] == here[j],
            decreases end - start - i,
        {
            if whole.get_ascii(start + i) != segment.get_ascii(i) {
                assert(here[i as int] == whole@[start + i]);
                assert(segment@[i as int] != here[i as int]);
                return false;
            }
            assert(here[i as int] == whole@[start + i]);
            i += 1;
        }
        assert(segment@ =~= here);
        if end < len {
            self.cursor = end + 1;
        } else {
            self.cursor = end;
        }
        true
    }
}

} // verus!
