//! Tracing of requests.
//!
//! A [`Trace`] wraps a filter so that every request is seen by a function
//! before the filter runs: the function is given what is known of the
//! request, and what it returns, a span or a guard of one, is held until
//! the filter is done. What is to be logged when the filter is done, and at
//! which level, is decided by [`finished`]; the logging itself is left to
//! the caller.
use crate::filter::wrap::WrapSealed;
use crate::filter::FilterBase;
use crate::reject::IsReject;
use crate::reply::{Reply, Response};
use crate::headers::{spec_header_text, spec_values};
use crate::route::{Route, Version};
use http::header::{HeaderMap, HeaderValue};
use crate::status::{class, spec_class, StatusClass};
use vstd::prelude::*;

verus! {

/// Create a wrapping filter that hands every request to `func` before the
/// wrapped filter runs, and holds what `func` returns while it runs.
pub fn trace<F>(func: F) -> (trace: Trace<F>)
    ensures
        trace.func == func,
{
    Trace { func }
}

/// Decorates a filter with a function that sees every request.
#[derive(Clone, Copy, Debug)]
pub struct Trace<F> {
    pub func: F,
}

/// Information about the request that can be used to prepare log lines.
pub struct Info<'a> {
    pub route: &'a Route,
}

/// Whether `value` is the first value under the header `name` of the
/// request, read as text.
pub open spec fn spec_header_is(route: Route, name: Seq<char>, value: Option<&str>) -> bool {
    match value {
        Some(text) => spec_header_text(route.spec_headers(), name) == Some(text@),
        None => spec_header_text(route.spec_headers(), name) is None,
    }
}

impl<'a> Info<'a> {
    /// View the remote address of the request, where it is known.
    pub fn remote_addr(&self) -> (addr: Option<&str>)
        ensures
            match addr {
                Some(text) => self.route.spec_remote_addr() == Some(text@),
                None => self.route.spec_remote_addr() is None,
            },
    {
        self.route.remote_addr()
    }

    /// View the version of the protocol of the request.
    pub fn version(&self) -> (version: Version)
        ensures
            version == self.route.spec_version(),
    {
        self.route.version()
    }

    /// View the referer of the request.
    pub fn referer(&self) -> (value: Option<&str>)
        ensures
            spec_header_is(*self.route, "referer"@, value),
    {
        self.route.header("referer")
    }

    /// View the user agent of the request.
    pub fn user_agent(&self) -> (value: Option<&str>)
        ensures
            spec_header_is(*self.route, "user-agent"@, value),
    {
        self.route.header("user-agent")
    }

    /// View the host of the request
    pub fn host(&self) -> (value: Option<&str>)
        ensures
            spec_header_is(*self.route, "host"@, value),
    {
        self.route.header("host")
    }

    /// View the request headers.
    pub fn request_headers(&self) -> (headers: &HeaderMap<HeaderValue>)
        ensures
            spec_values(*headers) == self.route.spec_headers(),
    {
        self.route.headers()
    }

    /// View the method of the request.
    pub fn method(&self) -> (method: &str)
        ensures
            method@ == self.route.spec_method(),
    {
        self.route.method()
    }

    /// View the URI path of the request.
    pub fn path(&self) -> (path: &str)
        ensures
            path@ == self.route.spec_full_path(),
    {
        self.route.full_path()
    }
}

/// How much a log line matters.
#[derive(Clone, Copy, Debug, PartialEq, Eq, Structural)]
pub enum Level {
    /// For what went as it should.
    Info,
    /// For what the client did wrong.
    Warn,
    /// For what the server did wrong.
    Error,
}

/// What is to be logged once a request is done.
#[derive(Clone, Copy, Debug)]
pub struct Finished {
    /// The status code of the response.
    pub status: u16,
    /// The level to log at.
    pub level: Level,
    /// Whether the line tells the error, if there was one.
    pub with_error: bool,
    /// The text of the line.
    pub message: &'static str,
}

/// The line for a response with this status code: a success is worth a
/// note, a server error an error with its cause, a client error a warning
/// with its cause, and anything else a note with its cause.
pub open spec fn spec_finished(status: u16) -> Finished {
    match spec_class(status) {
        StatusClass::Success => Finished {
            status,
            level: Level::Info,
            with_error: false,
            message: "finished processing with success",
        },
        StatusClass::ServerError => Finished {
            status,
            level: Level::Error,
            with_error: true,
            message: "unable to process request (internal error)",
        },
        StatusClass::ClientError => Finished {
            status,
            level: Level::Warn,
            with_error: true,
            message: "unable to serve request (client error)",
        },
        StatusClass::Other => Finished {
            status,
            level: Level::Info,
            with_error: true,
            message: "finished processing with status",
        },
    }
}

/// The status code that a reply, or the error in its place, comes with.
pub open spec fn spec_reply_status<E: IsReject>(reply: Result<(Traced,), E>) -> u16 {
    match reply {
        Ok(traced) => traced.0.0.status,
        Err(error) => error.spec_status(),
    }
}

/// Decides what is to be logged for a reply, or for the error in its place.
pub fn finished<E: IsReject>(reply: &Result<(Traced,), E>) -> (line: Finished)
    ensures
        line == spec_finished(spec_reply_status(*reply)),
{
    let status = match reply {
        Ok(traced) => traced.0.0.status,
        Err(error) => error.status(),
    };
    match class(status) {
        StatusClass::Success => Finished {
            status,
            level: Level::Info,
            with_error: false,
            message: "finished processing with success",
        },
        StatusClass::ServerError => Finished {
            status,
            level: Level::Error,
            with_error: true,
            message: "unable to process request (internal error)",
        },
        StatusClass::ClientError => Finished {
            status,
            level: Level::Warn,
            with_error: true,
            message: "unable to serve request (client error)",
        },
        StatusClass::Other => Finished {
            status,
            level: Level::Info,
            with_error: true,
            message: "finished processing with status",
        },
    }
}

/// The response of a traced filter.
#[derive(Debug)]
pub struct Traced(pub Response);

impl Reply for Traced {
    open spec fn spec_into_response(self) -> Response {
        self.0
    }

    fn into_response(self) -> (res: Response) {
        self.0
    }
}

/// Turns a reply into the response of a traced filter.
pub fn convert_reply<R: Reply>(reply: R) -> (traced: (Traced,))
    ensures
        traced.0.0 == reply.spec_into_response(),
{
    (Traced(reply.into_response()),)
}

impl<FN, F, S> WrapSealed<F> for Trace<FN> where
    FN: Fn(Info<'_>) -> S + Clone,
    F: FilterBase,
    F::Extract: Reply,
 {
    type Wrapped = WithTrace<FN, F>;

    open spec fn accepts(&self, filter: F) -> bool {
        true
    }

    /// The wrapped filter holds the filter; its function is a clone of this
    /// one's.
    open spec fn wraps(&self, filter: F, wrapped: WithTrace<FN, F>) -> bool {
        &&& wrapped.filter == filter
        &&& cloned::<FN>(self.func, wrapped.trace.func)
    }

    fn wrap(&self, filter: F) -> (wrapped: WithTrace<FN, F>) {
        WithTrace { filter, trace: Trace { func: self.func.clone() } }
    }
}

/// A filter with a function that sees every request before the filter runs.
#[derive(Clone, Copy, Debug)]
pub struct WithTrace<FN, F> {
    pub filter: F,
    pub trace: Trace<FN>,
}

impl<FN, F, S> WithTrace<FN, F> where FN: Fn(Info<'_>) -> S, F: FilterBase, F::Extract: Reply {
    /// Hands the request to the function, and returns what the function
    /// makes of it: the first step of running this filter.
    pub fn span(&self, route: &Route) -> (span: S)
        requires
            call_requires(self.trace.func, (Info { route },)),
        ensures
            call_ensures(self.trace.func, (Info { route },), span),
    {
        let func = &self.trace.func;
        func(Info { route })
    }

    /// Runs the wrapped filter and turns what it extracts into a response:
    /// the second step of running this filter.
    pub fn reply(&self, route: &mut Route) -> (result: Result<(Traced,), F::Error>)
        requires
            self.filter.ready(*old(route)),
        ensures
            self.outcome(*old(route), result, *final(route)),
            final(route).same_request(*old(route)),
    {
        match self.filter.filter(route) {
            Ok(reply) => Ok(convert_reply(reply)),
            Err(e) => Err(e),
        }
    }
}

impl<FN, F, S> FilterBase for WithTrace<FN, F> where
    FN: Fn(Info<'_>) -> S,
    F: FilterBase,
    F::Extract: Reply,
 {
    type Extract = (Traced,);

    type Error = F::Error;

    /// The function may be called with the request, and the filter be run
    /// on it.
    open spec fn ready(&self, route: Route) -> bool {
        &&& call_requires(self.trace.func, (Info { route: &route },))
        &&& self.filter.ready(route)
    }

    /// Success is a success of the filter, with what it extracts turned into
    /// a response; failure is a failure of the filter.
    open spec fn outcome(
        &self,
        before: Route,
        result: Result<(Traced,), F::Error>,
        after: Route,
    ) -> bool {
        match result {
            Ok(traced) => exists|reply: F::Extract|
                #![trigger self.filter.outcome(before, Ok(reply), after)]
                self.filter.outcome(before, Ok(reply), after) && traced.0.0
                    == reply.spec_into_response(),
            Err(e) => self.filter.outcome(before, Err(e), after),
        }
    }

    fn filter(&self, route: &mut Route) -> (result: Result<(Traced,), F::Error>) {
        // held until the filter is done
        let _span = self.span(&*route);
        self.reply(route)
    }
}

} // verus!
