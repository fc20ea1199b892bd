use starterm::filter::boxed::BoxedFilter;
use starterm::generic::Either;
use starterm::reject::{custom, invalid_header, IsReject, Reject};
use starterm::{any, get, post, reply, wrap_fn, Filter, FilterBase, Rejection, Route};
use std::convert::Infallible;
use std::sync::atomic::{AtomicUsize, Ordering};

fn request(uri: &str) -> Route {
    let uri: http::Uri = uri.parse().expect("a uri");
    Route::new("GET", uri.path()).expect("a path of ASCII characters")
}

fn matches<F: FilterBase>(filter: &F, uri: &str) -> bool {
    filter.filter(&mut request(uri)).is_ok()
}

#[test]
fn flattens_tuples() {
    let str1 = any().map(|| "starterm");
    let true1 = any().map(|| true);
    let unit1 = any();

    // just 1 value
    let ext = str1.filter(&mut request("/")).unwrap();
    assert_eq!(ext, ("starterm",));

    // just 1 unit
    let ext = unit1.filter(&mut request("/")).unwrap();
    assert_eq!(ext, ());

    // combine 2 values
    let and = str1.and(true1);
    let ext = and.filter(&mut request("/")).unwrap();
    assert_eq!(ext, ("starterm", true));

    // combine 2 reversed
    let and = true1.and(str1);
    let ext = and.filter(&mut request("/")).unwrap();
    assert_eq!(ext, (true, "starterm"));

    // combine 1 with unit
    let and = str1.and(unit1);
    let ext = and.filter(&mut request("/")).unwrap();
    assert_eq!(ext, ("starterm",));

    let and = unit1.and(str1);
    let ext = and.filter(&mut request("/")).unwrap();
    assert_eq!(ext, ("starterm",));

    // combine 3 values
    let and = str1.and(str1).and(true1);
    let ext = and.filter(&mut request("/")).unwrap();
    assert_eq!(ext, ("starterm", "starterm", true));

    // combine 2 with unit
    let and = str1.and(unit1).and(true1);
    let ext = and.filter(&mut request("/")).unwrap();
    assert_eq!(ext, ("starterm", true));

    let and = unit1.and(str1).and(true1);
    let ext = and.filter(&mut request("/")).unwrap();
    assert_eq!(ext, ("starterm", true));

    let and = str1.and(true1).and(unit1);
    let ext = and.filter(&mut request("/")).unwrap();
    assert_eq!(ext, ("starterm", true));

    // nested tuples
    let str_true_unit = str1.and(true1).and(unit1);
    let unit_str_true = unit1.and(str1).and(true1);

    let and = str_true_unit.and(unit_str_true);
    let ext = and.filter(&mut request("/")).unwrap();
    assert_eq!(ext, ("starterm", true, "starterm", true));

    let and = unit_str_true.and(unit1).and(str1).and(str_true_unit);
    let ext = and.filter(&mut request("/")).unwrap();
    assert_eq!(ext, ("starterm", true, "starterm", "starterm", true));
}

#[test]
fn nesting_does_not_show_in_what_is_extracted() {
    let a = any().map(|| 1u8);
    let b = any().map(|| "two");
    let c = any();

    let nested = a.and(b).and(c.and(a));
    let flat = a.and(b).and(c).and(a);

    assert_eq!(nested.filter(&mut request("/")).unwrap(), (1, "two", 1));
    assert_eq!(
        nested.filter(&mut request("/")).unwrap(),
        flat.filter(&mut request("/")).unwrap()
    );

    // up to eight values come out flat
    let eight = a.and(a).and(a).and(a).and(a.and(a).and(a.and(a)));
    assert_eq!(
        eight.filter(&mut request("/")).unwrap(),
        (1, 1, 1, 1, 1, 1, 1, 1)
    );
}

#[test]
fn map() {
    let ok = any().map(reply);

    let (resp,) = ok.filter(&mut request("/")).unwrap();
    assert_eq!(resp.status, 200);
}

#[test]
fn map_takes_one_argument_for_each_value() {
    let sum = any()
        .map(|| 40u32)
        .and(any().map(|| 2u32))
        .map(|a: u32, b: u32| a + b);

    assert_eq!(sum.filter(&mut request("/")).unwrap(), (42,));
}

#[test]
fn and_then_may_reject() {
    #[derive(Debug, PartialEq)]
    struct Zero;
    impl Reject for Zero {}

    let id = starterm::path::param::<u32>().and_then(|id: u32| {
        if id == 0 {
            Err(custom(Zero))
        } else {
            Ok("id is valid")
        }
    });

    assert_eq!(id.filter(&mut request("/7")).unwrap(), ("id is valid",));

    let err = id.filter(&mut request("/0")).unwrap_err();
    assert_eq!(err.find::<Zero>(), Some(&Zero));
    assert_eq!(err.status(), 500);

    // the failure of the filter itself is passed on
    let err = id.filter(&mut request("/x")).unwrap_err();
    assert!(err.is_not_found());
}

#[test]
fn filter_or() {
    // Or can be combined with an infallible filter
    let a = starterm::path::param::<u32>();
    let b = any().map(|| 41i32);
    let f = a.or(b);

    let _: Result<_, Infallible> = f.filter(&mut request("/"));
}

#[test]
fn or_never_runs_the_second_where_the_first_succeeds() {
    let a = any().map(|| 1u8);
    let b = any().map(|| -> u8 { panic!("the second alternative was run") });
    let f = a.or(b);

    let (either,) = f.filter(&mut request("/")).unwrap();
    assert!(matches!(either, Either::A((1,))));
}

#[test]
fn or_runs_the_second_once_where_the_first_fails() {
    static CALLS: AtomicUsize = AtomicUsize::new(0);

    let a = starterm::path("nope");
    let b = any().map(|| CALLS.fetch_add(1, Ordering::SeqCst));
    let f = a.or(b);

    let (either,) = f.filter(&mut request("/")).unwrap();
    assert!(matches!(either, Either::B((0,))));
    assert_eq!(CALLS.load(Ordering::SeqCst), 1);
}

#[test]
fn or_puts_the_cursor_back() {
    // the first alternative matches "foo" and then fails: the second starts
    // over, before "foo"
    let first = starterm::path("foo").and(starterm::path("nope"));
    let second = starterm::path("foo").and(starterm::path("bar"));
    let f = first.or(second);

    let mut route = request("/foo/bar");
    assert!(f.filter(&mut route).is_ok());
    assert_eq!(route.remaining_path(), "");

    // where both fail, the cursor is where the second left it
    let mut route = request("/foo/baz");
    let err = f.filter(&mut route).unwrap_err();
    assert_eq!(err.status(), 404);
}

#[test]
fn filter_or_else() {
    let a = starterm::path::param::<u32>();
    let f = a.or_else(|_| Ok::<_, Rejection>((44u32,)));

    assert_eq!(f.filter(&mut request("/33")).unwrap(), (33,));
    assert_eq!(f.filter(&mut request("/")).unwrap(), (44,));

    // OrElse can be combined with an infallible filter
    let a = starterm::path::param::<u32>();
    let f = a.or_else(|_| Ok::<_, Infallible>((44u32,)));

    let _: Result<_, Infallible> = f.filter(&mut request("/"));
}

#[test]
fn recover() {
    let a = starterm::path::param::<String>();
    let f = a.recover(|err| Err::<String, _>(err));

    // not rejected
    let (ext,) = f.filter(&mut request("/hi")).unwrap();
    assert!(matches!(ext, Either::A((ref s,)) if s == "hi"));

    // rejected, recovered, re-rejected
    let err: Rejection = f.filter(&mut request("/")).unwrap_err();
    assert_eq!(err.status(), 404);

    // Recover can be infallible
    let a = starterm::path::param::<String>();
    let f = a.recover(|_| Ok::<_, Infallible>("shh"));

    let _: Result<_, Infallible> = f.filter(&mut request("/"));
}

#[test]
fn recover_answers_in_place_of_the_filter() {
    let f = starterm::path::param::<u32>().recover(|err: Rejection| Ok::<_, Infallible>(err.status()));

    let (ext,) = f.filter(&mut request("/")).unwrap();
    assert!(matches!(ext, Either::B((404,))));
}

#[test]
fn unify() {
    let a = starterm::path::param::<u32>();
    let b = starterm::path::param::<u32>();
    let f = a.or(b).unify();

    let ex = f.filter(&mut request("/1")).unwrap();

    assert_eq!(ex, (1,));
}

#[test]
fn untuple_one_hands_out_the_values_of_the_one_tuple() {
    let pair = any().map(|| (1u8, "one"));
    assert_eq!(pair.filter(&mut request("/")).unwrap(), ((1, "one"),));

    let flat = any().map(|| (1u8, "one")).untuple_one();
    assert_eq!(flat.filter(&mut request("/")).unwrap(), (1, "one"));

    // and so they join others without nesting
    let more = any().map(|| (1u8, "one")).untuple_one().and(any().map(|| true));
    assert_eq!(more.filter(&mut request("/")).unwrap(), (1, "one", true));
}

#[test]
fn boxed_does_what_the_filter_does() {
    let plain = starterm::path("foo").and(starterm::path::param::<u32>());
    let boxed: BoxedFilter<(u32,)> = starterm::path("foo").and(starterm::path::param::<u32>()).boxed();

    let mut one = request("/foo/7/rest");
    let mut other = request("/foo/7/rest");
    assert_eq!(plain.filter(&mut one).unwrap(), (7,));
    assert_eq!(boxed.filter(&mut other).unwrap(), (7,));
    assert_eq!(one.remaining_path(), other.remaining_path());

    assert!(boxed.filter(&mut request("/bar/7")).unwrap_err().is_not_found());
}

#[test]
fn wrap_fn_puts_a_filter_around_a_filter() {
    let route = any()
        .map(|| "hello world")
        .with(wrap_fn(|filter| starterm::path("hello").and(filter)));

    assert_eq!(route.filter(&mut request("/hello")).unwrap(), ("hello world",));
    assert!(route.filter(&mut request("/bye")).is_err());

    // the identity wraps into the filter itself
    let same = any().map(|| 1u8).with(wrap_fn(|filter| filter));
    assert_eq!(same.filter(&mut request("/")).unwrap(), (1,));
}

#[test]
fn test_any_filter_matches_any_request() {
    let filter = any();
    let result = filter.filter(&mut request("/"));
    assert!(result.is_ok());
}

#[test]
fn method() {
    let get = get().map(reply);

    assert!(get.filter(&mut request("/")).is_ok());

    let mut req = Route::new("POST", "/").unwrap();
    assert!(get.filter(&mut req).is_err());

    let mut req = Route::new("POST", "/").unwrap();
    let err = get.filter(&mut req).unwrap_err();
    assert_eq!(err.status(), 405);
    assert_eq!(err.as_response().body, "Method not allowed");
}

#[test]
fn method_size_of() {
    // See comment on `method_is` function.
    assert_eq!(std::mem::size_of_val(&get()), 0,);
}

#[test]
fn method_extracts_the_method() {
    let mut req = Route::new("PATCH", "/").unwrap();
    assert_eq!(
        starterm::method().filter(&mut req).unwrap(),
        ("PATCH".to_string(),)
    );
}

#[test]
fn every_method_filter_takes_its_own_method_only() {
    let names = ["GET", "POST", "PUT", "DELETE", "HEAD", "OPTIONS", "PATCH"];
    for name in names {
        let run = |which: &str| -> bool {
            let mut req = Route::new(name, "/").unwrap();
            match which {
                "GET" => starterm::get().filter(&mut req).is_ok(),
                "POST" => starterm::post().filter(&mut req).is_ok(),
                "PUT" => starterm::put().filter(&mut req).is_ok(),
                "DELETE" => starterm::delete().filter(&mut req).is_ok(),
                "HEAD" => starterm::head().filter(&mut req).is_ok(),
                "OPTIONS" => starterm::options().filter(&mut req).is_ok(),
                _ => starterm::patch().filter(&mut req).is_ok(),
            }
        };
        for which in names {
            assert_eq!(run(which), which == name, "{} on {}", which, name);
        }
    }
    // methods are told apart by case
    let mut req = Route::new("get", "/").unwrap();
    assert!(starterm::get().filter(&mut req).is_err());
}

#[test]
fn method_not_allowed_trumps_not_found() {
    let get = get().and(starterm::path("hello").map(reply));
    let post = post().and(starterm::path("bye").map(reply));

    let routes = get.or(post);

    let mut req = Route::new("GET", "/bye").unwrap();

    let err = routes.filter(&mut req).unwrap_err();
    // GET was allowed, but only for /hello, so POST returning 405 is fine.
    assert_eq!(err.status(), 405);
}

#[test]
fn bad_request_trumps_method_not_allowed() {
    // a header that is never as required
    let exact = any()
        .and_then(|| Err::<(), _>(invalid_header("foo")))
        .untuple_one();

    let get = get().and(starterm::path("hello")).and(exact).map(reply);
    let post = post().and(starterm::path("bye")).map(reply);

    let routes = get.or(post);

    let mut req = Route::new("GET", "/hello").unwrap();

    let err = routes.filter(&mut req).unwrap_err();
    // GET was allowed, but header rejects with 400, should not
    // assume POST was the appropriate method.
    assert_eq!(err.status(), 400);
}
