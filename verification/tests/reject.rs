use http::StatusCode;
use starterm::reject::{
    custom, invalid_header, invalid_query, known, length_required, method_not_allowed,
    missing_cookie, missing_header, not_found, payload_too_large, unsupported_media_type,
    BodyConsumedMultipleTimes, BodyDeserializeError, BodyReadError, CombineRejection,
    CorsForbidden, FileOpenError, FilePermissionError, InvalidHeader, IsReject, Known,
    MethodNotAllowed, MissingConnectionUpgrade, MissingCookie, MissingExtension, MissingHeader,
    Reject, Rejection,
};
use starterm::status;

#[derive(Debug, PartialEq)]
struct Left;

#[derive(Debug, PartialEq)]
struct Right;

impl Reject for Left {}

impl Reject for Right {}

#[test]
fn rejection_status() {
    assert_eq!(not_found().status(), StatusCode::NOT_FOUND);
    assert_eq!(method_not_allowed().status(), StatusCode::METHOD_NOT_ALLOWED);
    assert_eq!(length_required().status(), StatusCode::LENGTH_REQUIRED);
    assert_eq!(payload_too_large().status(), StatusCode::PAYLOAD_TOO_LARGE);
    assert_eq!(unsupported_media_type().status(), StatusCode::UNSUPPORTED_MEDIA_TYPE);
    assert_eq!(custom(Left).status(), StatusCode::INTERNAL_SERVER_ERROR);
}

#[test]
fn combine_rejection_causes_with_some_left_and_none_right() {
    let left = custom(Left);
    let right = not_found();
    let reject = left.combine(right);
    let resp = reject.as_response();

    assert_eq!(resp.status, StatusCode::INTERNAL_SERVER_ERROR);
    assert_eq!(resp.body, "Unhandled rejection: Left")
}

#[test]
fn combine_rejection_causes_with_none_left_and_some_right() {
    let left = not_found();
    let right = custom(Right);
    let reject = left.combine(right);
    let resp = reject.as_response();

    assert_eq!(resp.status, StatusCode::INTERNAL_SERVER_ERROR);
    assert_eq!(resp.body, "Unhandled rejection: Right")
}

#[test]
fn unhandled_customs() {
    let reject = not_found().combine(custom(Right));

    let resp = reject.as_response();
    assert_eq!(resp.status, StatusCode::INTERNAL_SERVER_ERROR);
    assert_eq!(resp.body, "Unhandled rejection: Right");

    // There's no real way to determine which is worse, since both are a 500,
    // so pick the first one.
    let reject = custom(Left).combine(custom(Right));

    let resp = reject.as_response();
    assert_eq!(resp.status, StatusCode::INTERNAL_SERVER_ERROR);
    assert_eq!(resp.body, "Unhandled rejection: Left");

    // With many rejections, custom still is top priority.
    let reject = not_found()
        .combine(not_found())
        .combine(not_found())
        .combine(custom(Right))
        .combine(not_found());

    let resp = reject.as_response();
    assert_eq!(resp.status, StatusCode::INTERNAL_SERVER_ERROR);
    assert_eq!(resp.body, "Unhandled rejection: Right");
}

#[test]
fn find_cause() {
    let rej = custom(Left);

    assert_eq!(rej.find::<Left>(), Some(&Left));

    let rej = rej.combine(method_not_allowed());

    assert_eq!(rej.find::<Left>(), Some(&Left));
    assert!(rej.find::<MethodNotAllowed>().is_some(), "MethodNotAllowed");
}

#[test]
fn size_of_rejection() {
    assert_eq!(
        ::std::mem::size_of::<Rejection>(),
        ::std::mem::size_of::<usize>(),
    );
}

#[derive(Debug)]
struct X(#[allow(unused)] u32);

impl Reject for X {}

fn combine_n<F, R>(n: u32, new_reject: F) -> Rejection
where
    F: Fn(u32) -> R,
    R: Reject,
{
    let mut rej = not_found();

    for i in 0..n {
        rej = rej.combine(custom(new_reject(i)));
    }

    rej
}

#[test]
fn test_debug() {
    let rej = combine_n(3, X);

    let s = rej.debug_string();
    assert_eq!(s, "Rejection([X(0), X(1), X(2)])");
}

#[derive(Debug)]
struct Os(#[allow(unused)] std::io::Error);

impl Reject for Os {}

#[test]
fn convert_big_rejections_into_response() {
    let mut rejection = custom(Os(std::io::Error::from_raw_os_error(100)));
    for _ in 0..50 {
        rejection = method_not_allowed().combine(rejection);
    }
    assert_eq!(
        StatusCode::INTERNAL_SERVER_ERROR,
        rejection.as_response().status
    );
}

#[test]
fn not_found_is_weakest_in_either_order() {
    let after = not_found().combine(custom(Left));
    let before = custom(Left).combine(not_found());

    for reject in [after, before] {
        assert_eq!(reject.status(), 500);
        let resp = reject.as_response();
        assert_eq!(resp.status, 500);
        assert_eq!(resp.body, "Unhandled rejection: Left");
        assert_eq!(reject.find::<Left>(), Some(&Left));
        assert!(!reject.is_not_found());
    }

    // and of itself it stays what it is
    let nothing = not_found().combine(not_found());
    assert!(nothing.is_not_found());
    assert_eq!(nothing.status(), 404);
    let resp = nothing.as_response();
    assert_eq!(resp.status, 404);
    assert_eq!(resp.body, "");
    assert!(resp.headers.is_empty());
}

#[test]
fn method_not_allowed_is_weak_in_either_order() {

    for other in [400u16, 411, 413, 415, 500] {
        let make = || match other {
            400 => invalid_query(),
            411 => length_required(),
            413 => payload_too_large(),
            415 => unsupported_media_type(),
            _ => custom(Right),
        };
        assert_eq!(method_not_allowed().combine(make()).status(), other);
        assert_eq!(make().combine(method_not_allowed()).status(), other);
        assert_eq!(
            method_not_allowed().combine(make()).as_response().body,
            make().as_response().body
        );
    }

    // but it is stronger than nothing
    assert_eq!(method_not_allowed().combine(not_found()).status(), 405);
    assert_eq!(not_found().combine(method_not_allowed()).status(), 405);

    // a header that is missing on the one route wins over a method that
    // another route does not take
    let reject = method_not_allowed().combine(missing_header("host"));
    let resp = reject.as_response();
    assert_eq!(resp.status, 400);
    assert_eq!(resp.body, "Missing request header \"host\"");
}

#[test]
fn the_greater_status_code_wins_and_ties_go_to_the_first() {

    // 415 over 413 over 411 over 400, in either order
    assert_eq!(length_required().combine(payload_too_large()).status(), 413);
    assert_eq!(payload_too_large().combine(length_required()).status(), 413);
    assert_eq!(
        unsupported_media_type().combine(payload_too_large()).status(),
        415
    );
    assert_eq!(invalid_query().combine(length_required()).status(), 411);
    assert_eq!(custom(Left).combine(unsupported_media_type()).status(), 500);
    assert_eq!(unsupported_media_type().combine(custom(Left)).status(), 500);

    // a tie goes to the first
    let tie = invalid_header("a").combine(missing_cookie("b"));
    assert_eq!(tie.as_response().body, "Invalid request header \"a\"");
    let tie = missing_cookie("b").combine(invalid_header("a"));
    assert_eq!(tie.as_response().body, "Missing request cookie \"b\"");

    // however the rejections were put together
    let left = invalid_header("a")
        .combine(missing_cookie("b"))
        .combine(invalid_query());
    let right = invalid_header("a").combine(missing_cookie("b").combine(invalid_query()));
    assert_eq!(left.as_response().body, right.as_response().body);
    assert_eq!(left.debug_string(), right.debug_string());
}

#[test]
fn many_rejections_resolve_to_the_custom_one() {
    let reject = not_found()
        .combine(not_found())
        .combine(custom(Right))
        .combine(not_found());

    assert_eq!(reject.status(), 500);
    let resp = reject.as_response();
    assert_eq!(resp.status, 500);
    assert_eq!(resp.body, "Unhandled rejection: Right");
    assert_eq!(reject.debug_string(), "Rejection(Right)");
}

#[test]
fn find_searches_all_causes_in_order() {
    #[derive(Debug, PartialEq)]
    struct Numbered(u8);
    impl Reject for Numbered {}

    let rej = method_not_allowed()
        .combine(custom(Numbered(1)))
        .combine(custom(Left).combine(custom(Numbered(2))));

    // the first of its type, wherever it stands
    assert_eq!(rej.find::<Numbered>(), Some(&Numbered(1)));
    assert_eq!(rej.find::<Left>(), Some(&Left));
    assert!(rej.find::<MethodNotAllowed>().is_some());
    // and nothing of a type that is not there
    assert_eq!(rej.find::<Right>(), None);
    assert!(rej.find::<starterm::reject::InvalidQuery>().is_none());
    assert_eq!(not_found().find::<Left>(), None);

    // lookup goes by order, not by rank
    let rej = missing_header("a").combine(missing_header("b"));
    assert_eq!(
        rej.find::<MissingHeader>().map(|h| h.name),
        Some("a")
    );
}

#[test]
fn every_known_cause_has_its_status_and_its_text() {

    let cases: Vec<(Rejection, u16, &str)> = vec![
        (method_not_allowed(), 405, "Method not allowed"),
        (invalid_header("x-id"), 400, "Invalid request header \"x-id\""),
        (missing_header("x-id"), 400, "Missing request header \"x-id\""),
        (missing_cookie("sid"), 400, "Missing request cookie \"sid\""),
        (invalid_query(), 400, "Invalid query string"),
        (length_required(), 411, "Length required"),
        (payload_too_large(), 413, "Payload too large"),
        (unsupported_media_type(), 415, "Unsupported media type"),
        (
            known(Known::FileOpenError(FileOpenError::new())),
            500,
            "file open error",
        ),
        (
            known(Known::FilePermissionError(FilePermissionError::new())),
            403,
            "file perimission error",
        ),
        (
            known(Known::BodyReadError(BodyReadError {
                detail: "eof".to_string(),
            })),
            400,
            "Request body read error: eof",
        ),
        (
            known(Known::BodyDeserializeError(BodyDeserializeError {
                detail: "expected value".to_string(),
            })),
            400,
            "Request body deserialize error: expected value",
        ),
        (
            known(Known::CorsForbidden(CorsForbidden {
                detail: "origin not allowed".to_string(),
            })),
            403,
            "CORS request forbidden: origin not allowed",
        ),
        (
            known(Known::MissingConnectionUpgrade(MissingConnectionUpgrade::new())),
            400,
            "Connection header did not include 'upgrade'",
        ),
        (
            known(Known::MissingExtension(MissingExtension::new())),
            500,
            "Missing request extension",
        ),
        (
            known(Known::BodyConsumedMultipleTimes(
                BodyConsumedMultipleTimes::new(),
            )),
            500,
            "Request body consumed multiple times",
        ),
    ];

    for (rejection, status, text) in cases {
        assert_eq!(rejection.status(), status, "{}", text);
        let resp = rejection.as_response();
        assert_eq!(resp.status, status, "{}", text);
        assert_eq!(resp.body, text);
        assert_eq!(
            resp.headers,
            vec![(
                "content-type".to_string(),
                "text/plain; charset=utf-8".to_string()
            )]
        );
        assert!(!rejection.is_not_found());
    }
}

#[test]
fn a_cause_alone_answers_without_a_media_type() {

    let missing = MissingHeader { name: "host" };
    assert_eq!(missing.status(), 400);
    assert_eq!(missing.message(), "Missing request header \"host\"");
    let resp = missing.as_response();
    assert_eq!(resp.status, 400);
    assert_eq!(resp.body, "Missing request header \"host\"");
    assert!(resp.headers.is_empty());

    let invalid = InvalidHeader { name: "host" };
    assert_eq!(invalid.status(), StatusCode::BAD_REQUEST);
    assert_eq!(invalid.as_response().body, "Invalid request header \"host\"");

    let cookie = MissingCookie { name: "sid" };
    assert_eq!(cookie.status(), StatusCode::BAD_REQUEST);
    assert_eq!(cookie.as_response().body, "Missing request cookie \"sid\"");

    let found = method_not_allowed();
    let cause = found.find::<MethodNotAllowed>().unwrap();
    assert_eq!(cause.status(), StatusCode::METHOD_NOT_ALLOWED);
    assert_eq!(cause.message(), "Method not allowed");
    assert_eq!(cause.as_response().body, "Method not allowed");
}

#[test]
fn debug_string_lists_the_causes() {

    assert_eq!(not_found().debug_string(), "Rejection(NotFound)");
    assert_eq!(custom(X(7)).debug_string(), "Rejection(X(7))");
    assert_eq!(
        method_not_allowed().debug_string(),
        "Rejection(MethodNotAllowed { _p: () })"
    );
    assert_eq!(
        missing_header("a \"quoted\" name").debug_string(),
        "Rejection(MissingHeader { name: \"a \\\"quoted\\\" name\" })"
    );
    assert_eq!(
        custom(Left).combine(method_not_allowed()).debug_string(),
        "Rejection([Left, MethodNotAllowed { _p: () }])"
    );

    // the text of a known cause is what its own `Debug` writes
    let found = method_not_allowed();
    let cause = found.find::<MethodNotAllowed>().unwrap();
    assert_eq!(
        found.debug_string(),
        format!("Rejection({:?})", cause)
    );
    let header = missing_header("tab\there");
    assert_eq!(
        header.debug_string(),
        format!(
            "Rejection({:?})",
            header.find::<MissingHeader>().unwrap()
        )
    );
    let read = known(Known::BodyReadError(BodyReadError {
        detail: "line\nbreak".to_string(),
    }));
    assert_eq!(
        read.debug_string(),
        format!(
            "Rejection({:?})",
            read.find::<BodyReadError>().unwrap()
        )
    );
}

#[test]
fn a_custom_cause_converts_into_a_rejection() {
    let rejection: Rejection = Left.into();
    assert_eq!(rejection.find::<Left>(), Some(&Left));
    assert_eq!(rejection.status(), 500);

    let rejection = Rejection::from(Right);
    assert_eq!(rejection.as_response().body, "Unhandled rejection: Right");
}

#[test]
fn reject_is_not_found() {
    let rejection = starterm::reject();
    assert!(rejection.is_not_found());
    assert_eq!(rejection.status(), StatusCode::NOT_FOUND);
    assert!(!custom(Left).is_not_found());
}

#[test]
fn status_codes_are_those_of_http() {

    assert_eq!(status::BAD_REQUEST, StatusCode::BAD_REQUEST.as_u16());
    assert_eq!(status::FORBIDDEN, StatusCode::FORBIDDEN.as_u16());
    assert_eq!(status::NOT_FOUND, StatusCode::NOT_FOUND.as_u16());
    assert_eq!(
        status::METHOD_NOT_ALLOWED,
        StatusCode::METHOD_NOT_ALLOWED.as_u16()
    );
    assert_eq!(status::LENGTH_REQUIRED, StatusCode::LENGTH_REQUIRED.as_u16());
    assert_eq!(
        status::PAYLOAD_TOO_LARGE,
        StatusCode::PAYLOAD_TOO_LARGE.as_u16()
    );
    assert_eq!(
        status::UNSUPPORTED_MEDIA_TYPE,
        StatusCode::UNSUPPORTED_MEDIA_TYPE.as_u16()
    );
    assert_eq!(
        status::INTERNAL_SERVER_ERROR,
        StatusCode::INTERNAL_SERVER_ERROR.as_u16()
    );

    // and their classes too
    for code in 100u16..1000 {
        let of_http = StatusCode::from_u16(code).unwrap();
        let class = status::class(code);
        assert_eq!(class == status::StatusClass::Success, of_http.is_success());
        assert_eq!(
            class == status::StatusClass::ClientError,
            of_http.is_client_error()
        );
        assert_eq!(
            class == status::StatusClass::ServerError,
            of_http.is_server_error()
        );
    }
    assert_eq!(status::class(0), status::StatusClass::Other);
    assert_eq!(status::class(u16::MAX), status::StatusClass::Other);
}

struct Mute;

impl std::fmt::Debug for Mute {
    fn fmt(&self, f: &mut std::fmt::Formatter<'_>) -> std::fmt::Result {
        // writes a part, then gives up
        f.write_str("half")?;
        Err(std::fmt::Error)
    }
}

impl Reject for Mute {}

#[test]
fn a_cause_without_a_text_is_still_answered() {
    let rejection = custom(Mute);
    assert_eq!(rejection.status(), 500);
    assert_eq!(rejection.as_response().body, "Unhandled rejection: <unknown>");
    assert_eq!(rejection.debug_string(), "Rejection(<unknown>)");
    assert!(rejection.find::<Mute>().is_some());

    let rejection = custom(Left).combine(custom(Mute));
    assert_eq!(rejection.debug_string(), "Rejection([Left, <unknown>])");
}

#[test]
fn a_custom_cause_carries_what_debug_writes_for_it() {
    assert_eq!(custom(X(5)).as_response().body, format!("Unhandled rejection: {:?}", X(5)));
    assert_eq!(
        custom(Os(std::io::Error::from_raw_os_error(100))).as_response().body,
        format!(
            "Unhandled rejection: {:?}",
            Os(std::io::Error::from_raw_os_error(100))
        )
    );
}
