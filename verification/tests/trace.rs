use http::header::{HeaderMap, HeaderValue, HOST, REFERER, USER_AGENT};
use starterm::reject::{custom, method_not_allowed, not_found, Reject, Rejection};
use starterm::reply::Response;
use starterm::route::Version;
use starterm::trace::{convert_reply, finished, Info, Level, Traced};
use starterm::{any, reply, trace, Filter, FilterBase, Route};
use std::sync::atomic::{AtomicUsize, Ordering};

#[derive(Debug)]
struct Broken;

impl Reject for Broken {}

#[test]
fn finished_goes_by_the_class_of_the_status() {
    let ok: Result<(Traced,), Rejection> = Ok((Traced(Response::empty(200)),));
    let line = finished(&ok);
    assert_eq!(line.status, 200);
    assert_eq!(line.level, Level::Info);
    assert!(!line.with_error);
    assert_eq!(line.message, "finished processing with success");

    let redirect: Result<(Traced,), Rejection> = Ok((Traced(Response::empty(301)),));
    let line = finished(&redirect);
    assert_eq!(line.status, 301);
    assert_eq!(line.level, Level::Info);
    assert!(line.with_error);
    assert_eq!(line.message, "finished processing with status");

    let line = finished(&Err::<(Traced,), _>(not_found()));
    assert_eq!(line.status, 404);
    assert_eq!(line.level, Level::Warn);
    assert!(line.with_error);
    assert_eq!(line.message, "unable to serve request (client error)");

    let line = finished(&Err::<(Traced,), _>(method_not_allowed()));
    assert_eq!(line.status, 405);
    assert_eq!(line.level, Level::Warn);

    let line = finished(&Err::<(Traced,), _>(custom(Broken)));
    assert_eq!(line.status, 500);
    assert_eq!(line.level, Level::Error);
    assert!(line.with_error);
    assert_eq!(line.message, "unable to process request (internal error)");

    // a response counts by its own status, error or not
    let failed: Result<(Traced,), Rejection> = Ok((Traced(Response::empty(503)),));
    assert_eq!(finished(&failed).level, Level::Error);
    let last: Result<(Traced,), Rejection> = Ok((Traced(Response::empty(299)),));
    assert_eq!(finished(&last).level, Level::Info);
    assert!(!finished(&last).with_error);
    let first: Result<(Traced,), Rejection> = Ok((Traced(Response::empty(400)),));
    assert_eq!(finished(&first).level, Level::Warn);
    let info: Result<(Traced,), Rejection> = Ok((Traced(Response::empty(100)),));
    assert_eq!(finished(&info).message, "finished processing with status");
}

#[test]
fn convert_reply_keeps_the_response() {
    let (traced,) = convert_reply(Response::text(201, "made".to_string()));
    assert_eq!(traced.0.status, 201);
    assert_eq!(traced.0.body, "made");

    let (traced,) = convert_reply((reply(),));
    assert_eq!(traced.0.status, 200);
    assert_eq!(traced.0.body, "");
}

#[test]
fn info_views_the_request() {
    let mut headers = HeaderMap::new();
    headers.insert(HOST, HeaderValue::from_static("www.example.org"));
    headers.insert(USER_AGENT, HeaderValue::from_static("test"));
    headers.insert(REFERER, HeaderValue::from_static("http://example.org/"));
    let mut route = Route::new("POST", "/a/b")
        .unwrap()
        .with_version(Version::Http10)
        .with_remote_addr("127.0.0.1:80")
        .with_headers(headers);
    assert!(route.advance("a"));

    let info = Info { route: &route };
    assert_eq!(info.method(), "POST");
    // the whole path, matched or not
    assert_eq!(info.path(), "/a/b");
    assert_eq!(info.version(), Version::Http10);
    assert_eq!(info.remote_addr(), Some("127.0.0.1:80"));
    assert_eq!(info.host(), Some("www.example.org"));
    assert_eq!(info.user_agent(), Some("test"));
    assert_eq!(info.referer(), Some("http://example.org/"));
    assert_eq!(info.request_headers().len(), 3);

    let bare = Route::new("GET", "/").unwrap();
    let info = Info { route: &bare };
    assert_eq!(info.remote_addr(), None);
    assert_eq!(info.host(), None);
    assert_eq!(info.user_agent(), None);
    assert_eq!(info.referer(), None);

    // a value that is no text is not handed out as text
    let mut headers = HeaderMap::new();
    headers.insert(HOST, HeaderValue::from_bytes(b"\xff").unwrap());
    let odd = Route::new("GET", "/").unwrap().with_headers(headers);
    let info = Info { route: &odd };
    assert_eq!(info.host(), None);
    assert_eq!(info.request_headers().len(), 1);
}

#[test]
fn trace_sees_every_request_before_the_filter_runs() {
    static SEEN: AtomicUsize = AtomicUsize::new(0);

    let route = starterm::path("aa")
        .map(|| {
            // the function has seen the request by now
            assert_eq!(SEEN.load(Ordering::SeqCst) % 2, 1);
            reply()
        })
        .with(trace(|info: Info<'_>| {
            assert_eq!(info.method(), "GET");
            SEEN.fetch_add(1, Ordering::SeqCst);
            info.path().len()
        }));

    let (traced,) = route.filter(&mut Route::new("GET", "/aa").unwrap()).unwrap();
    assert_eq!(traced.0.status, 200);
    assert_eq!(SEEN.load(Ordering::SeqCst), 1);
    SEEN.fetch_add(1, Ordering::SeqCst);

    // a request that is rejected is seen too
    SEEN.fetch_add(0, Ordering::SeqCst);
    let err = route
        .filter(&mut Route::new("GET", "/bb").unwrap())
        .unwrap_err();
    assert!(err.is_not_found());
    assert_eq!(SEEN.load(Ordering::SeqCst), 3);

    let _ = any();
}

#[test]
fn a_traced_filter_runs_in_two_steps() {
    let traced = starterm::path("aa")
        .map(reply)
        .with(trace(|info: Info<'_>| info.path().to_string()));

    let mut route = Route::new("GET", "/aa/bb").unwrap();
    // the first step sees the request and leaves it as it is
    assert_eq!(traced.span(&route), "/aa/bb");
    assert_eq!(route.remaining_path(), "aa/bb");
    // the second runs the filter
    let (reply,) = traced.reply(&mut route).unwrap();
    assert_eq!(reply.0.status, 200);
    assert_eq!(route.remaining_path(), "bb");

    let mut route = Route::new("GET", "/bb").unwrap();
    assert!(traced.reply(&mut route).unwrap_err().is_not_found());
}
