//! The thread-safe instantiation.

use crate::cow::SharedCow;
use crate::rc_cow::RcCow;
use std::rc::Rc;
use std::sync::Arc;
use vstd::prelude::*;

verus! {

/// A clone-on-write value whose shared state counts references
/// atomically, so a `Shared` value may be duplicated and read from many
/// threads at once.
pub type ArcCow<'a> = SharedCow<'a, Arc<String>>;

impl<'a> From<Arc<String>> for ArcCow<'a> {
    /// Takes a shared handle as it stands; only the reference count moves.
    fn from(s: Arc<String>) -> (r: Self) {
        SharedCow::Shared(s)
    }
}

impl<'a> vstd::std_specs::convert::FromSpecImpl<Arc<String>> for ArcCow<'a> {
    open spec fn obeys_from_spec() -> bool {
        true
    }

    open spec fn from_spec(s: Arc<String>) -> Self {
        SharedCow::Shared(s)
    }
}

impl<'a> ArcCow<'a> {
    /// Converts to the single-thread sharing strategy, state for state;
    /// the shared buffer, if any, is copied, never aliased across
    /// strategies.
    pub fn to_rccow(&self) -> (r: RcCow<'a>)
        ensures
            r@ == self@,
            self matches SharedCow::Borrowed(b) ==> r == RcCow::Borrowed(b),
            self is Borrowed <==> r is Borrowed,
            self is Owned <==> r is Owned,
            self is Shared <==> r is Shared,
    {
        self.to_other_strategy::<Rc<String>>()
    }
}

} // verus!
