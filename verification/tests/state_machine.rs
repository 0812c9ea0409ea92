//! The promotion state machine, observed on concrete values.

use shared_cow::{ArcCow, RcCow, SharedCow};
use std::rc::Rc;
use std::sync::Arc;

#[test]
fn to_owned_leaves_value_alone_and_is_repeatable() {
    let v: ArcCow = SharedCow::Borrowed("ab");
    let first = v.to_owned();
    let second = v.to_owned();
    assert_eq!(first, "ab");
    assert_eq!(first, second);
    assert!(matches!(v, SharedCow::Borrowed(_)));

    let v: ArcCow = SharedCow::Shared(Arc::new(String::from("ab")));
    let first = v.to_owned();
    let second = v.to_owned();
    assert_eq!(first, second);
    assert!(matches!(v, SharedCow::Shared(_)));
}

#[test]
fn to_mut_promotes_every_state_to_owned() {
    let mut b: ArcCow = SharedCow::Borrowed("ab");
    b.to_mut().push_str("c");
    assert!(matches!(b, SharedCow::Owned(_)));
    assert_eq!(b.as_str(), "abc");

    let mut o: ArcCow = SharedCow::Owned(String::from("ab"));
    o.to_mut().push_str("c");
    assert!(matches!(o, SharedCow::Owned(_)));
    assert_eq!(o.as_str(), "abc");

    let mut s: RcCow = SharedCow::Shared(Rc::new(String::from("ab")));
    s.to_mut().push_str("c");
    assert!(matches!(s, SharedCow::Owned(_)));
    assert_eq!(s.as_str(), "abc");
}

#[test]
fn into_owned_agrees_with_to_owned() {
    let b: ArcCow = SharedCow::Borrowed("ab");
    assert_eq!(b.to_owned(), SharedCow::<Arc<String>>::Borrowed("ab").into_owned());

    let o: ArcCow = SharedCow::Owned(String::from("ab"));
    let copied = o.to_owned();
    assert_eq!(o.into_owned(), copied);

    let handle = Rc::new(String::from("ab"));
    let s: RcCow = SharedCow::Shared(handle);
    let copied = s.to_owned();
    assert_eq!(s.into_owned(), copied);
}

#[test]
fn into_owned_reuses_the_owned_buffer() {
    let mut s = String::with_capacity(64);
    s.push_str("ab");
    let v: ArcCow = SharedCow::Owned(s);
    let out = v.into_owned();
    // The held buffer is handed out as it stands, not copied: its spare
    // capacity survives.
    assert_eq!(out.capacity(), 64);
    assert_eq!(out, "ab");
}

#[test]
fn into_shared_reuses_a_shared_handle() {
    let handle = Arc::new(String::from("ab"));
    let v: ArcCow = SharedCow::Shared(Arc::clone(&handle));
    let out = v.into_shared();
    assert!(Arc::ptr_eq(&handle, &out));
}

#[test]
fn into_shared_copies_borrowed_and_owned() {
    let b: ArcCow = SharedCow::Borrowed("ab");
    assert_eq!(*b.into_shared(), "ab");

    let o: RcCow = SharedCow::Owned(String::from("ab"));
    assert_eq!(*o.into_shared(), "ab");
}

#[test]
fn to_shared_always_allocates_a_fresh_buffer() {
    let handle = Arc::new(String::from("ab"));
    let v: ArcCow = SharedCow::Shared(Arc::clone(&handle));
    let out = v.to_shared();
    assert_eq!(*out, "ab");
    assert!(!Arc::ptr_eq(&handle, &out));
    assert!(matches!(v, SharedCow::Shared(_)));
}

#[test]
fn clone_keeps_the_state() {
    let b: ArcCow = SharedCow::Borrowed("ab");
    assert!(matches!(b.clone(), SharedCow::Borrowed(_)));

    let o: ArcCow = SharedCow::Owned(String::from("ab"));
    let c = o.clone();
    assert!(matches!(c, SharedCow::Owned(_)));
    assert_eq!(c.as_str(), "ab");

    let handle = Rc::new(String::from("ab"));
    let s: RcCow = SharedCow::Shared(Rc::clone(&handle));
    let c = s.clone();
    match &c {
        SharedCow::Shared(h) => assert!(Rc::ptr_eq(&handle, h)),
        _ => panic!("clone changed the state"),
    }
}

#[test]
fn default_is_the_empty_owned_value() {
    let v: ArcCow = SharedCow::default();
    assert!(matches!(v, SharedCow::Owned(_)));
    assert_eq!(v.as_str(), "");
}

#[test]
fn construction_from_each_source() {
    let b = ArcCow::from("ab");
    assert!(matches!(b, SharedCow::Borrowed(_)));
    assert_eq!(b.as_str(), "ab");

    let o = RcCow::from(String::from("ab"));
    assert!(matches!(o, SharedCow::Owned(_)));

    let s = ArcCow::from(Arc::new(String::from("ab")));
    assert!(matches!(s, SharedCow::Shared(_)));

    let c: ArcCow = SharedCow::copied("ab");
    assert!(matches!(c, SharedCow::Owned(_)));
    assert_eq!(c.as_str(), "ab");
}
