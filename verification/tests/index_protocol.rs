use anon_sum::Sum3;
use anon_sum::index::construct_0;
use anon_sum::index::construct_1;
use anon_sum::index::construct_2;
use anon_sum::index::destructure_leaf_0;
use anon_sum::index::destructure_leaf_1;
use anon_sum::index::destructure_leaf_2;
use anon_sum::index::destructure_remainder_0;
use anon_sum::index::destructure_remainder_1;
use anon_sum::index::destructure_remainder_2;
use anon_sum::index::position_2;
use anon_sum::index::position_3;

type IntIntText = Sum3<i32, i32, String>;

#[test]
fn leaf_destructuring_recovers_the_payload_at_its_own_position() {
    let at_0: IntIntText = construct_0(1);
    assert_eq!(destructure_leaf_0(at_0), Some(1));

    let at_1: IntIntText = construct_1(42);
    assert_eq!(destructure_leaf_1(at_1), Some(42));

    let at_2: IntIntText = construct_2(String::from("hi"));
    assert_eq!(destructure_leaf_2(at_2), Some(String::from("hi")));
}

#[test]
fn leaf_destructuring_misses_every_other_position() {
    let at_0: IntIntText = construct_0(1);
    assert_eq!(destructure_leaf_1(at_0), None);
    let at_0: IntIntText = construct_0(1);
    assert_eq!(destructure_leaf_2(at_0), None);

    let at_1: IntIntText = construct_1(42);
    assert_eq!(destructure_leaf_0(at_1), None);
    let at_1: IntIntText = construct_1(42);
    assert_eq!(destructure_leaf_2(at_1), None);

    let at_2: IntIntText = construct_2(String::from("hi"));
    assert_eq!(destructure_leaf_0(at_2), None);
    let at_2: IntIntText = construct_2(String::from("hi"));
    assert_eq!(destructure_leaf_1(at_2), None);
}

#[test]
fn every_value_sits_at_one_of_the_three_positions() {
    let at_0: IntIntText = construct_0(1);
    let at_1: IntIntText = construct_1(42);
    let at_2: IntIntText = construct_2(String::from("hi"));
    assert_eq!(position_3(&at_0), 0);
    assert_eq!(position_3(&at_1), 1);
    assert_eq!(position_3(&at_2), 2);

    let two_at_1: anon_sum::Sum2<bool, u8> = construct_1(7);
    assert_eq!(position_2(&two_at_1), 1);
}

#[test]
fn remainder_destructuring_matches_the_constructed_position_or_later() {
    let at_0: IntIntText = construct_0(1);
    assert!(destructure_remainder_1(at_0).is_none());
    let at_1: IntIntText = construct_1(42);
    assert!(destructure_remainder_2(at_1).is_none());

    let at_1: IntIntText = construct_1(42);
    let tail = destructure_remainder_1(at_1).unwrap();
    assert_eq!(destructure_leaf_0(tail), Some(42));

    let at_2: IntIntText = construct_2(String::from("hi"));
    let tail = destructure_remainder_1(at_2).unwrap();
    assert_eq!(destructure_leaf_1(tail), Some(String::from("hi")));

    let at_2: IntIntText = construct_2(String::from("hi"));
    let tail = destructure_remainder_2(at_2).unwrap();
    assert_eq!(destructure_leaf_0(tail), Some(String::from("hi")));

    let at_0: IntIntText = construct_0(1);
    let whole = destructure_remainder_0(at_0).unwrap();
    assert_eq!(destructure_leaf_0(whole), Some(1));
}

#[test]
fn wide_sums_round_trip_at_the_last_covered_position() {
    let wide: anon_sum::Sum7<u8, u8, u8, u8, u8, u8, u8> = anon_sum::index::construct_6(9);
    assert_eq!(anon_sum::index::destructure_leaf_6(wide), Some(9));
    let wide: anon_sum::Sum7<u8, u8, u8, u8, u8, u8, u8> = anon_sum::index::construct_6(9);
    assert_eq!(anon_sum::index::destructure_leaf_0(wide), None);
    let wide: anon_sum::Sum7<u8, u8, u8, u8, u8, u8, u8> = anon_sum::index::construct_6(9);
    let tail = anon_sum::index::destructure_remainder_6(wide).unwrap();
    assert_eq!(anon_sum::index::destructure_leaf_0(tail), Some(9));
}
