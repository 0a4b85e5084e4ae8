use cbqn::BoundFns;

#[test]
fn a_new_registry_is_empty() {
    let fns: BoundFns<&str, &str> = BoundFns::new();
    assert_eq!(fns.len_1(), 0);
    assert_eq!(fns.len_2(), 0);
    assert_eq!(fns.lookup_1(0), None);
    assert_eq!(fns.lookup_2(0), None);
}

#[test]
fn keys_count_up_from_zero() {
    let mut fns: BoundFns<&str, &str> = BoundFns::new();
    assert_eq!(fns.register_1(0x1000, "a"), 0);
    assert_eq!(fns.register_1(0x2000, "b"), 1);
    assert_eq!(fns.register_1(0x3000, "c"), 2);
    assert_eq!(fns.len_1(), 3);
    assert_eq!(fns.lookup_1(0), Some(&"a"));
    assert_eq!(fns.lookup_1(1), Some(&"b"));
    assert_eq!(fns.lookup_1(2), Some(&"c"));
    assert_eq!(fns.lookup_1(3), None);
    assert_eq!(fns.lookup_1(u64::MAX), None);
}

#[test]
fn a_function_is_registered_once() {
    let mut fns: BoundFns<&str, &str> = BoundFns::new();
    assert_eq!(fns.register_1(0x1000, "a"), 0);
    assert_eq!(fns.register_1(0x2000, "b"), 1);
    assert_eq!(fns.register_1(0x2000, "b again"), 1);
    assert_eq!(fns.register_1(0x1000, "a again"), 0);
    assert_eq!(fns.register_1(0x3000, "c"), 2);
    assert_eq!(fns.len_1(), 3);
    assert_eq!(fns.lookup_1(0), Some(&"a"));
    assert_eq!(fns.lookup_1(1), Some(&"b"));
    assert_eq!(fns.lookup_1(2), Some(&"c"));
}

#[test]
fn the_two_arities_are_kept_apart() {
    let mut fns: BoundFns<&str, u8> = BoundFns::new();
    assert_eq!(fns.register_1(7, "one"), 0);
    assert_eq!(fns.register_2(7, 2), 0);
    assert_eq!(fns.register_2(8, 3), 1);
    assert_eq!(fns.register_2(7, 4), 0);
    assert_eq!(fns.len_1(), 1);
    assert_eq!(fns.len_2(), 2);
    assert_eq!(fns.lookup_1(0), Some(&"one"));
    assert_eq!(fns.lookup_1(1), None);
    assert_eq!(fns.lookup_2(0), Some(&2));
    assert_eq!(fns.lookup_2(1), Some(&3));
    assert_eq!(fns.lookup_2(2), None);
}
