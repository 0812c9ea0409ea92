//! The single-thread instantiation.

use crate::arc_cow::ArcCow;
use crate::cow::SharedCow;
use std::rc::Rc;
use std::sync::Arc;
use vstd::prelude::*;

verus! {

/// A clone-on-write value whose shared state counts references without
/// atomics: cheaper than the thread-safe strategy, but a `Shared` value
/// must stay within one thread.
pub type RcCow<'a> = SharedCow<'a, Rc<String>>;

impl<'a> From<Rc<String>> for RcCow<'a> {
    /// Takes a shared handle as it stands; only the reference count moves.
    fn from(s: Rc<String>) -> (r: Self) {
        SharedCow::Shared(s)
    }
}

impl<'a> vstd::std_specs::convert::FromSpecImpl<Rc<String>> for RcCow<'a> {
    open spec fn obeys_from_spec() -> bool {
        true
    }

    open spec fn from_spec(s: Rc<String>) -> Self {
        SharedCow::Shared(s)
    }
}

impl<'a> RcCow<'a> {
    /// Converts to the thread-safe sharing strategy, state for state; the
    /// shared buffer, if any, is copied, never aliased across strategies.
    pub fn to_arccow(&self) -> (r: ArcCow<'a>)
        ensures
            r@ == self@,
            self matches SharedCow::Borrowed(b) ==> r == ArcCow::Borrowed(b),
            self is Borrowed <==> r is Borrowed,
            self is Owned <==> r is Owned,
            self is Shared <==> r is Shared,
    {
        self.to_other_strategy::<Arc<String>>()
    }
}

} // verus!
