use starterm::generic::Either;
use starterm::reject::IsReject;
use starterm::{Filter, FilterBase, Route};

fn request(uri: &str) -> Route {
    let uri: http::Uri = uri.parse().expect("a uri");
    Route::new("GET", uri.path()).expect("a path of ASCII characters")
}

fn matches<F: FilterBase>(filter: &F, uri: &str) -> bool {
    filter.filter(&mut request(uri)).is_ok()
}

#[test]
fn path() {
    let foo = starterm::path("foo");
    let bar = starterm::path("bar");
    let foo_bar = foo.and(bar.clone());

    // /foo
    assert!(matches(&foo, "/foo"));
    assert!(!matches(&bar, "/foo"));
    assert!(!matches(&foo_bar, "/foo"));

    // /foo/bar
    assert!(matches(&foo, "/foo/bar"));
    assert!(!matches(&bar, "/foo/bar"));
    assert!(matches(&foo_bar, "/foo/bar"));
}

#[test]
fn param() {
    let num = starterm::path::param::<u32>();

    assert_eq!(num.filter(&mut request("/321")).unwrap(), (321,));

    let s = starterm::path::param::<String>();

    assert_eq!(
        s.filter(&mut request("/starterm")).unwrap(),
        ("starterm".to_string(),)
    );

    // u32 doesn't extract a non-int
    assert!(!matches(&num, "/starterm"));

    let combo = num.map(|n| n + 5).and(s.clone());

    assert_eq!(
        combo.filter(&mut request("/42/vroom")).unwrap(),
        (47, "vroom".to_string())
    );

    // empty segments never match
    assert!(
        !matches(&s, "/"),
        "param should never match an empty segment"
    );
}

#[test]
fn param_reads_numbers_as_written_in_decimal() {
    let num = starterm::path::param::<u32>();
    let big = starterm::path::param::<u64>();

    assert_eq!(num.filter(&mut request("/0")).unwrap(), (0,));
    assert_eq!(num.filter(&mut request("/007")).unwrap(), (7,));
    assert_eq!(num.filter(&mut request("/+7")).unwrap(), (7,));
    assert_eq!(num.filter(&mut request("/4294967295")).unwrap(), (u32::MAX,));
    assert!(num.filter(&mut request("/4294967296")).is_err());
    assert_eq!(big.filter(&mut request("/4294967296")).unwrap(), (4294967296,));
    assert_eq!(
        big.filter(&mut request("/18446744073709551615")).unwrap(),
        (u64::MAX,)
    );
    assert!(big.filter(&mut request("/18446744073709551616")).is_err());
    for bad in ["/-1", "/+", "/1a", "/a1", "/1.0", "/0x10", "/not-a-number"] {
        let err = num.filter(&mut request(bad)).unwrap_err();
        assert!(err.is_not_found(), "{}", bad);
        assert_eq!(err.status(), 404);
        assert!(big.filter(&mut request(bad)).is_err(), "{}", bad);
    }

    // what does not match falls through to an alternative
    let route = num.or(starterm::path("not-a-number"));
    assert!(matches!(
        route.filter(&mut request("/not-a-number")),
        Ok((Either::B(()),))
    ));
    assert!(matches!(
        route.filter(&mut request("/321")),
        Ok((Either::A((321,)),))
    ));
}

#[test]
fn param_leaves_the_cursor_where_it_fails() {
    let num = starterm::path::param::<u32>();

    let mut route = request("/x/1");
    assert!(num.filter(&mut route).is_err());
    assert_eq!(route.remaining_path(), "x/1");

    let mut route = request("/1/x");
    assert!(num.filter(&mut route).is_ok());
    assert_eq!(route.remaining_path(), "x");
}

#[test]
fn end() {
    let foo = starterm::path("foo");
    let end = starterm::path::end();
    let foo_end = foo.and(end);

    assert!(matches(&end, "/"), "end() matches /");

    assert!(matches(&end, "http://localhost:1234"), "end() matches /");

    assert!(
        matches(&end, "http://localhost:1234?q=2"),
        "end() matches empty path"
    );

    assert!(
        matches(&end, "localhost:1234"),
        "end() matches authority-form"
    );

    assert!(!matches(&end, "/foo"), "end() doesn't match /foo");

    assert!(matches(&foo_end, "/foo"), "path().and(end()) matches /foo");

    assert!(
        matches(&foo_end, "/foo/"),
        "path().and(end()) matches /foo/"
    );
}

#[test]
fn path_or() {
    // /foo/bar OR /foo/baz
    let foo = starterm::path("foo");
    let bar = starterm::path("bar");
    let baz = starterm::path("baz");
    let p = foo.and(bar.or(baz));

    // /foo/bar
    assert!(matches(&p, "/foo/bar"));

    // /foo/baz
    assert!(matches(&p, "/foo/baz"));

    // deeper nested ORs
    // /foo/bar/baz OR /foo/baz/bar OR /foo/bar/bar
    let p = foo
        .and(bar.and(baz))
        .or(foo.and(baz.and(bar)))
        .or(foo.and(bar.and(bar)));

    // /foo/baz
    assert!(!matches(&p, "/foo/baz"), "shouldn't match");

    // /foo/bar/bar
    assert!(matches(&p, "/foo/bar/bar"));
}

#[test]
fn path_or_else() {
    let foo = starterm::path("foo");
    let bar = starterm::path("bar");

    let p = foo.and(bar.or_else(|_| Ok::<_, std::convert::Infallible>(())));

    // /foo/bar
    assert!(matches(&p, "/foo/nope"));
}

#[test]
fn path_matches_whole_segments_only() {
    assert!(!matches(&starterm::path("fo"), "/foo"));
    assert!(!matches(&starterm::path("foo"), "/fo"));
    assert!(!matches(&starterm::path("foo/bar"), "/foo/bar"));
    assert!(!matches(&starterm::path("foo"), "/Foo"));
    assert!(!matches(&starterm::path("fo\u{f6}"), "/foo"));
    // the empty segment is what stands before a slash, or at the end
    assert!(matches(&starterm::path(""), "/"));
    assert!(matches(&starterm::path(""), "//foo"));
    assert!(!matches(&starterm::path(""), "/foo"));
}

#[test]
fn param_reads_what_the_standard_library_reads() {
    let num = starterm::path::param::<u32>();
    let big = starterm::path::param::<u64>();
    let inputs = [
        "0", "1", "9", "10", "00", "0000000000000000000001", "+0", "+1", "+", "-", "-0", "++1",
        "+-1", "1+", "1_000", "1e3", " 1", "1 ", "0b1", "٣", "１", "4294967295", "4294967296",
        "04294967295", "+4294967295", "42949672950", "18446744073709551615",
        "18446744073709551616", "99999999999999999999999999", "a", "%31", "1%20", ":", "1:",
    ];
    for input in inputs {
        let path = format!("/{}", input);
        let Some(mut route) = Route::new("GET", &path) else {
            // what is no path cannot be read at all
            assert!(!input.is_ascii());
            continue;
        };
        assert_eq!(
            num.filter(&mut route).ok().map(|(n,)| n),
            input.parse::<u32>().ok(),
            "{:?}",
            input
        );
        let mut route = Route::new("GET", &path).unwrap();
        assert_eq!(
            big.filter(&mut route).ok().map(|(n,)| n),
            input.parse::<u64>().ok(),
            "{:?}",
            input
        );
    }
}
