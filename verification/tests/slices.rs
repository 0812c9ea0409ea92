//! The slice-like specialization.

use shared_cow::{ArcSliceCow, RcSliceCow, SliceCow};
use std::rc::Rc;
use std::sync::Arc;

#[test]
fn slice_promotion_reaches_owned_from_every_state() {
    let mut b: ArcSliceCow<u8> = SliceCow::Borrowed(&[1, 2]);
    b.to_mut().push(3);
    assert!(matches!(b, SliceCow::Owned(_)));
    assert_eq!(b.as_slice(), &[1, 2, 3]);

    let mut s: RcSliceCow<u8> = SliceCow::Shared(Rc::new(vec![1, 2]));
    s.to_mut().push(3);
    assert!(matches!(s, SliceCow::Owned(_)));
    assert_eq!(s.as_slice(), &[1, 2, 3]);
}

#[test]
fn slice_owned_round_trips() {
    let b: ArcSliceCow<u32> = SliceCow::Borrowed(&[7, 8]);
    assert_eq!(b.to_owned(), vec![7, 8]);
    assert_eq!(b.into_owned(), vec![7, 8]);

    let handle = Arc::new(vec![7u32, 8]);
    let s: ArcSliceCow<u32> = SliceCow::Shared(Arc::clone(&handle));
    let reused = s.into_shared();
    assert!(Arc::ptr_eq(&handle, &reused));
}

#[test]
fn slice_to_shared_always_copies() {
    let handle = Rc::new(vec![7u32, 8]);
    let s: RcSliceCow<u32> = SliceCow::Shared(Rc::clone(&handle));
    let fresh = s.to_shared();
    assert_eq!(*fresh, vec![7, 8]);
    assert!(!Rc::ptr_eq(&handle, &fresh));
}

#[test]
fn slice_cross_strategy_conversion_maps_state_to_state() {
    let s: ArcSliceCow<u8> = SliceCow::Shared(Arc::new(vec![1, 2]));
    let converted: RcSliceCow<u8> = s.to_other_strategy();
    assert!(matches!(converted, SliceCow::Shared(_)));
    assert_eq!(converted.as_slice(), &[1, 2]);

    let b: RcSliceCow<u8> = SliceCow::Borrowed(&[1]);
    let converted: ArcSliceCow<u8> = b.to_other_strategy();
    assert!(matches!(converted, SliceCow::Borrowed(_)));
}

#[test]
fn collecting_elements_yields_an_owned_value() {
    let elems = vec![1u64, 2, 3];
    let v = ArcSliceCow::from_elems(&elems);
    assert!(matches!(v, SliceCow::Owned(_)));
    assert_eq!(v.as_slice(), &[1, 2, 3]);
}

#[test]
fn flattening_slices_copies_every_value_in_order() {
    let values: Vec<RcSliceCow<u8>> = vec![
        SliceCow::Borrowed(&[1, 2]),
        SliceCow::Shared(Rc::new(vec![3, 4])),
        SliceCow::Owned(Vec::new()),
    ];
    let flat = SliceCow::flatten(&values);
    assert_eq!(flat, vec![1, 2, 3, 4]);
}

#[test]
fn slice_equality_ignores_the_state() {
    let b: ArcSliceCow<u8> = SliceCow::Borrowed(&[1, 2]);
    let s: ArcSliceCow<u8> = SliceCow::Shared(Arc::new(vec![1, 2]));
    let o: ArcSliceCow<u8> = SliceCow::Owned(vec![1, 2]);
    assert!(b == s);
    assert!(s == o);
    assert!(o == b);

    let longer: ArcSliceCow<u8> = SliceCow::Owned(vec![1, 2, 3]);
    let other: ArcSliceCow<u8> = SliceCow::Borrowed(&[1, 3]);
    assert!(b != longer);
    assert!(b != other);
}

#[test]
fn slice_clone_keeps_the_state() {
    let handle = Arc::new(vec![5u8]);
    let s: ArcSliceCow<u8> = SliceCow::Shared(Arc::clone(&handle));
    match s.clone() {
        SliceCow::Shared(h) => assert!(Arc::ptr_eq(&handle, &h)),
        _ => panic!("clone changed the state"),
    }

    let d: ArcSliceCow<u8> = SliceCow::default();
    assert!(matches!(d, SliceCow::Owned(_)));
    assert_eq!(d.as_slice(), &[] as &[u8]);
}
