use rsbwapi::predicate::{IntoPredicate, Predicate};

#[test]
fn predicates_combine_with_operators() {
    let big = (|x: &i32| *x > 10).into_predicate();
    let both = big & (|x: &i32| *x % 2 == 0);
    assert!(both.test(&12));
    assert!(!both.test(&11));
    assert!(!both.test(&8));

    let outside = (|x: &i32| *x > 10).into_predicate() | (|x: &i32| *x < 0);
    assert!(outside.test(&11));
    assert!(outside.test(&-1));
    assert!(!outside.test(&5));

    let inside = !((|x: &i32| *x > 10).into_predicate() | (|x: &i32| *x < 0));
    assert!(inside.test(&5));
    assert!(!inside.test(&20));

    let one_of = (|x: &i32| *x > 10).into_predicate() ^ (|x: &i32| *x % 2 == 0);
    assert!(one_of.test(&11));
    assert!(one_of.test(&4));
    assert!(!one_of.test(&12));
    assert!(!one_of.test(&3));
}

#[test]
fn de_morgan_on_values() {
    for v in -5..25 {
        let a = !((|x: &i32| *x > 10).into_predicate() & (|x: &i32| *x % 3 == 0));
        let b = !(|x: &i32| *x > 10).into_predicate() | !(|x: &i32| *x % 3 == 0).into_predicate();
        assert_eq!(a.test(&v), b.test(&v));
    }
}
