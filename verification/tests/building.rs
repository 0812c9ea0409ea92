//! Concatenation and collection.

use shared_cow::{ArcCow, RcCow, SharedCow};
use std::rc::Rc;
use std::sync::Arc;

#[test]
fn empty_left_operand_adopts_the_right_operand() {
    let empty: ArcCow = SharedCow::Borrowed("");
    let handle = Arc::new(String::from("abc"));
    let right: ArcCow = SharedCow::Shared(Arc::clone(&handle));
    let out = empty.concat(right);
    match out {
        SharedCow::Shared(h) => {
            // The right operand's storage is adopted, not reallocated.
            assert!(Arc::ptr_eq(&handle, &h));
            assert_eq!(*h, "abc");
        }
        _ => panic!("the empty left operand must adopt the right operand's state"),
    }

    let empty: ArcCow = SharedCow::Borrowed("");
    let right: ArcCow = SharedCow::Borrowed("abc");
    let out = empty.concat(right);
    assert!(matches!(out, SharedCow::Borrowed(_)));
    assert_eq!(out.as_str(), "abc");
}

#[test]
fn two_empty_operands_adopt_the_right_operand() {
    let left: ArcCow = SharedCow::Owned(String::new());
    let right: ArcCow = SharedCow::Borrowed("");
    let out = left.concat(right);
    // The empty-receiver rule is checked first: the result is the right
    // operand, state included.
    assert!(matches!(out, SharedCow::Borrowed(_)));
    assert_eq!(out.as_str(), "");
}

#[test]
fn empty_right_operand_is_a_no_op() {
    let left: ArcCow = SharedCow::Borrowed("abc");
    let empty: ArcCow = SharedCow::Owned(String::new());
    let out = left.concat(empty);
    assert!(matches!(out, SharedCow::Borrowed(_)));
    assert_eq!(out.as_str(), "abc");
}

#[test]
fn concatenation_of_two_nonempty_values_is_owned() {
    let a: ArcCow = SharedCow::Borrowed("ab");
    let b: ArcCow = SharedCow::Borrowed("cd");
    let out = a.concat(b);
    assert!(matches!(out, SharedCow::Owned(_)));
    assert_eq!(out.as_str(), "abcd");
}

#[test]
fn append_in_place_promotes_a_shared_receiver() {
    let mut v: RcCow = SharedCow::Shared(Rc::new(String::from("ab")));
    v.append(SharedCow::Borrowed("cd"));
    assert!(matches!(v, SharedCow::Owned(_)));
    assert_eq!(v.as_str(), "abcd");
}

#[test]
fn collecting_characters_yields_an_owned_value() {
    let chars = vec!['a', 'b', 'c'];
    let v = ArcCow::from_chars(&chars);
    assert!(matches!(v, SharedCow::Owned(_)));
    assert_eq!(v.as_str(), "abc");

    let wide = vec!['h', 'é', '€'];
    let v = RcCow::from_chars(&wide);
    assert!(matches!(v, SharedCow::Owned(_)));
    assert_eq!(v.as_str(), "hé€");
}

#[test]
fn collecting_fragments_yields_an_owned_value() {
    let parts = vec!["ab", "", "cd"];
    let v = ArcCow::from_fragments(&parts);
    assert!(matches!(v, SharedCow::Owned(_)));
    assert_eq!(v.as_str(), "abcd");
}

#[test]
fn collecting_owned_strings_yields_an_owned_value() {
    let parts = vec![String::from("ab"), String::from("cd")];
    let v = RcCow::from_strings(&parts);
    assert!(matches!(v, SharedCow::Owned(_)));
    assert_eq!(v.as_str(), "abcd");
}

#[test]
fn flattening_copies_every_value_in_order() {
    let values: Vec<ArcCow> = vec![
        SharedCow::Borrowed("ab"),
        SharedCow::Shared(Arc::new(String::from("cd"))),
    ];
    let flat = SharedCow::flatten(&values);
    assert_eq!(flat, "abcd");

    let empty: Vec<RcCow> = Vec::new();
    assert_eq!(SharedCow::flatten(&empty), "");
}
