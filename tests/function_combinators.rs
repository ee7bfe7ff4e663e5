use fp_std::function::{always, apply_first, apply_second, first_arg, flip, second_arg};
use std::ops::{Add, Sub};

fn double(x: usize) -> usize {
    x * 2
}

#[test]
fn always_returns_value() {
    let one = always(1);
    assert_eq!(one(), 1);
}

#[test]
fn always_does_not_drift() {
    let hello = always(String::from("hello"));
    let mut a = hello();
    a.push('!');
    assert_eq!(a, "hello!");
    assert_eq!(hello(), "hello");
    assert_eq!(hello(), hello());
}

#[test]
fn flip_swaps_arguments() {
    let sub = flip(usize::sub);
    assert_eq!(sub(3, 5), 2);
}

#[test]
fn flip_twice_is_original() {
    let concat = |a: String, b: &str| a + b;
    let back = flip(flip(concat));
    assert_eq!(back(String::from("ab"), "cd"), "abcd");
    assert_eq!(flip(usize::sub)(2, 9), 9 - 2);
    assert_eq!(flip(flip(usize::sub))(9, 2), 7);
}

#[test]
fn first_arg_ignores_second() {
    let double_first = first_arg(double);
    assert_eq!(double_first(3, 4), 6);
    assert_eq!(first_arg(double)(3, "anything"), 6);
}

#[test]
fn second_arg_ignores_first() {
    let double_second = second_arg(double);
    assert_eq!(double_second(3, 4), 8);
    assert_eq!(second_arg(double)('x', 4), 8);
}

#[test]
fn apply_first_adds() {
    let add1 = apply_first(1, usize::add);
    assert_eq!(add1(2), 3);
}

#[test]
fn apply_first_subtraction_saturates() {
    let one_minus = apply_first(1usize, usize::saturating_sub);
    assert_eq!(one_minus(2), 0);
    assert_eq!(one_minus(0), 1);
}

#[test]
fn apply_first_repeated_calls_use_same_value() {
    let prefix = apply_first(String::from("x-"), |a: String, b: &str| a + b);
    assert_eq!(prefix("one"), "x-one");
    assert_eq!(prefix("two"), "x-two");
}

#[test]
fn apply_second_subtracts() {
    let sub1 = apply_second(1, usize::sub);
    assert_eq!(sub1(2), 1);
    assert_eq!(sub1(10), 9);
}

#[test]
fn apply_second_repeated_calls_use_same_value() {
    let suffix = apply_second(String::from("-y"), |a: &str, b: String| String::from(a) + &b);
    assert_eq!(suffix("one"), "one-y");
    assert_eq!(suffix("two"), "two-y");
}
