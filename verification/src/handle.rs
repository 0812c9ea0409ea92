//! The shared-ownership capability that a clone-on-write value is built on.

use std::rc::Rc;
use std::sync::Arc;
use vstd::prelude::*;

verus! {

/// A reference-counted, immutable handle to a string buffer.
///
/// The two sharing strategies of this crate implement it: `Arc<String>`
/// is safe to hand across threads, `Rc<String>` is confined to one thread
/// but cheaper. Duplicating a handle only bumps the reference count; the
/// buffer is freed when the count reaches zero.
pub trait SharedHandle: Sized {
    /// The logical value the handle reads.
    spec fn content(&self) -> Seq<char>;

    /// Moves an owned buffer into a freshly allocated shared buffer.
    fn new_shared(s: String) -> (r: Self)
        ensures
            r.content() == s@,
    ;

    /// Reads the shared buffer; never copies.
    fn read(&self) -> (r: &str)
        ensures
            r@ == self.content(),
    ;

    /// Duplicates the handle by a reference-count increment; never copies
    /// the buffer.
    fn dup(&self) -> (r: Self)
        ensures
            r == *self,
            r.content() == self.content(),
    ;
}

impl SharedHandle for Arc<String> {
    open spec fn content(&self) -> Seq<char> {
        self@
    }

    fn new_shared(s: String) -> (r: Self) {
        Arc::new(s)
    }

    fn read(&self) -> (r: &str) {
        (**self).as_str()
    }

    fn dup(&self) -> (r: Self) {
        self.clone()
    }
}

impl SharedHandle for Rc<String> {
    open spec fn content(&self) -> Seq<char> {
        self@
    }

    fn new_shared(s: String) -> (r: Self) {
        Rc::new(s)
    }

    fn read(&self) -> (r: &str) {
        (**self).as_str()
    }

    fn dup(&self) -> (r: Self) {
        self.clone()
    }
}

} // verus!
