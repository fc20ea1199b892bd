use starterm::generic::{join, one, Combine, Either, Func, HList, Product, Tuple};

#[test]
fn unit_adds_nothing() {
    assert_eq!(join((), ()), ());
    assert_eq!(join((1,), ()), (1,));
    assert_eq!(join((), (1,)), (1,));
    assert_eq!(join((1, "two"), ()), (1, "two"));
    assert_eq!(join((), (1, "two")), (1, "two"));
}

#[test]
fn values_keep_their_order() {
    assert_eq!(join((1,), ("two",)), (1, "two"));
    assert_eq!(join(("two",), (1,)), ("two", 1));
    assert_eq!(join((1, 2), (3, 4, 5)), (1, 2, 3, 4, 5));
    assert_eq!(join((1, 2, 3, 4), (5, 6, 7, 8)), (1, 2, 3, 4, 5, 6, 7, 8));
    assert_eq!(join((1, 2, 3, 4, 5, 6, 7), (8,)), (1, 2, 3, 4, 5, 6, 7, 8));
    assert_eq!(join((1,), (2, 3, 4, 5, 6, 7, 8)), (1, 2, 3, 4, 5, 6, 7, 8));
}

#[test]
fn joining_is_associative() {
    let a = (1u8, 'a');
    let b = ("b",);
    let c = (true, 2.5f64, ());

    assert_eq!(join(join(a, b), c), join(a, join(b, c)));
    assert_eq!(join(join(a, b), c), (1, 'a', "b", true, 2.5, ()));
    assert_eq!(join(join(a, ()), c), join(a, join((), c)));
}

#[test]
fn tuples_and_lists_hold_the_same_values() {
    let list = (1, "two", 3.0).hlist();
    assert_eq!(list.0, 1);
    assert_eq!((list.1).0, "two");
    assert_eq!(list.flatten(), (1, "two", 3.0));

    let joined = Product(1, ()).combine(Product("two", Product(3.0, ())));
    assert_eq!(joined.flatten(), (1, "two", 3.0));
    assert_eq!(().combine(()).flatten(), ());
}

#[test]
fn one_is_a_tuple_of_one() {
    assert_eq!(one(5), (5,));
    assert_eq!(join(one(5), one("x")), (5, "x"));
}

#[test]
fn functions_take_the_values_of_a_tuple() {
    assert_eq!((|| 7).apply(()), 7);
    assert_eq!((|a: u8| a + 1).apply((1,)), 2);
    assert_eq!((|a: u8, b: u8| a - b).apply((3, 1)), 2);
    assert_eq!(
        (|a: u8, b: u8, c: u8, d: u8, e: u8, f: u8, g: u8, h: u8| [a, b, c, d, e, f, g, h])
            .apply((1, 2, 3, 4, 5, 6, 7, 8)),
        [1, 2, 3, 4, 5, 6, 7, 8]
    );
}

#[test]
fn either_holds_one_of_two() {
    let a: Either<u8, &str> = Either::A(1);
    let b: Either<u8, &str> = Either::B("b");
    assert!(matches!(a, Either::A(1)));
    assert!(matches!(b, Either::B("b")));
}
