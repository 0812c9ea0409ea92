//! The slice-like specialization: the same three-state container over a
//! sequence of plain elements instead of text.

use crate::cow::concat_of;
use std::rc::Rc;
use std::sync::Arc;
use vstd::prelude::*;
use vstd::slice::slice_index_get;
use vstd::slice::slice_to_vec;
use vstd::std_specs::cmp::PartialEqSpec;

verus! {

/// A reference-counted, immutable handle to a buffer of elements; the
/// slice-like counterpart of the text handle.
pub trait SliceHandle<T>: Sized {
    /// The logical value the handle reads.
    spec fn content(&self) -> Seq<T>;

    /// Moves an owned buffer into a freshly allocated shared buffer.
    fn new_shared(v: Vec<T>) -> (r: Self)
        ensures
            r.content() == v@,
    ;

    /// Reads the shared buffer; never copies.
    fn read(&self) -> (r: &[T])
        ensures
            r@ == self.content(),
    ;

    /// Duplicates the handle by a reference-count increment; never copies
    /// the buffer.
    fn dup(&self) -> (r: Self)
        ensures
            r == *self,
            r.content() == self.content(),
    ;
}

impl<T> SliceHandle<T> for Arc<Vec<T>> {
    open spec fn content(&self) -> Seq<T> {
        self@
    }

    fn new_shared(v: Vec<T>) -> (r: Self) {
        Arc::new(v)
    }

    fn read(&self) -> (r: &[T]) {
        (**self).as_slice()
    }

    fn dup(&self) -> (r: Self) {
        self.clone()
    }
}

impl<T> SliceHandle<T> for Rc<Vec<T>> {
    open spec fn content(&self) -> Seq<T> {
        self@
    }

    fn new_shared(v: Vec<T>) -> (r: Self) {
        Rc::new(v)
    }

    fn read(&self) -> (r: &[T]) {
        (**self).as_slice()
    }

    fn dup(&self) -> (r: Self) {
        self.clone()
    }
}

/// A sequence of plain elements held in one of three ownership states,
/// with the same promotion state machine as the text container.
pub enum SliceCow<'a, T, S> {
    /// A reference to externally owned elements; zero-copy, read-only.
    Borrowed(&'a [T]),
    /// Exclusively held elements in the canonical owned representation.
    Owned(Vec<T>),
    /// Reference-counted elements; immutable through this handle.
    Shared(S),
}

impl<'a, T, S: SliceHandle<T>> View for SliceCow<'a, T, S> {
    type V = Seq<T>;

    open spec fn view(&self) -> Seq<T> {
        match self {
            SliceCow::Borrowed(b) => b@,
            SliceCow::Owned(o) => o@,
            SliceCow::Shared(s) => s.content(),
        }
    }
}

impl<'a, T: Copy, S: SliceHandle<T>> SliceCow<'a, T, S> {
    /// Reads the logical value, never copying, whatever the state.
    pub fn as_slice(&self) -> (r: &[T])
        ensures
            r@ == self@,
    {
        match self {
            SliceCow::Borrowed(b) => b,
            SliceCow::Owned(o) => o.as_slice(),
            SliceCow::Shared(s) => s.read(),
        }
    }

    /// Copies the logical value into a fresh owned buffer, whatever the
    /// state; `self` is untouched.
    pub fn to_owned(&self) -> (r: Vec<T>)
        ensures
            r@ == self@,
    {
        slice_to_vec(self.as_slice())
    }

    /// Consumes the value and returns the owned buffer: handed out as it
    /// stands when the value was already `Owned`, copied once otherwise.
    pub fn into_owned(self) -> (r: Vec<T>)
        ensures
            r@ == self@,
            self matches SliceCow::Owned(o) ==> r == o,
    {
        match self {
            SliceCow::Borrowed(b) => slice_to_vec(b),
            SliceCow::Owned(o) => o,
            SliceCow::Shared(s) => slice_to_vec(s.read()),
        }
    }

    /// Promotes the value to `Owned` (copying once from `Borrowed` or
    /// `Shared`) and hands out a mutable handle into the owned buffer.
    /// After the call the value is `Owned`, every time, holding whatever
    /// the caller leaves in the handle.
    pub fn to_mut(&mut self) -> (r: &mut Vec<T>)
        ensures
            r@ == old(self)@,
            *final(self) == SliceCow::<'a, T, S>::Owned(*final(r)),
            *final(self) is Owned,
    {
        let promoted: Option<Vec<T>> = match &*self {
            SliceCow::Borrowed(b) => Some(slice_to_vec(b)),
            SliceCow::Owned(_) => None,
            SliceCow::Shared(s) => Some(slice_to_vec(s.read())),
        };
        if let Some(o) = promoted {
            *self = SliceCow::Owned(o);
        }
        match self {
            SliceCow::Owned(o) => o,
            _ => vstd::pervasive::unreached(),
        }
    }

    /// Consumes the value and returns a shared handle: the handle itself
    /// when the value was already `Shared` (a zero-copy move), a freshly
    /// allocated shared buffer otherwise.
    pub fn into_shared(self) -> (r: S)
        ensures
            r.content() == self@,
            self matches SliceCow::Shared(s) ==> r == s,
    {
        match self {
            SliceCow::Borrowed(b) => S::new_shared(slice_to_vec(b)),
            SliceCow::Owned(o) => S::new_shared(o),
            SliceCow::Shared(s) => s,
        }
    }

    /// Copies the logical value into a freshly allocated shared buffer,
    /// whatever the state — deliberately also when the value is already
    /// `Shared`: this duplicates the allocation, it does not bump the
    /// reference count. `self` is untouched.
    pub fn to_shared(&self) -> (r: S)
        ensures
            r.content() == self@,
    {
        S::new_shared(self.to_owned())
    }

    /// Converts the value to the other sharing strategy, state for state:
    /// `Borrowed` keeps the same reference with no copy, `Owned` copies
    /// the buffer, and `Shared` copies the elements into a freshly
    /// allocated buffer under the target strategy.
    pub fn to_other_strategy<U: SliceHandle<T>>(&self) -> (r: SliceCow<'a, T, U>)
        ensures
            r@ == self@,
            self matches SliceCow::Borrowed(b) ==> r == SliceCow::<'a, T, U>::Borrowed(b),
            self is Borrowed <==> r is Borrowed,
            self is Owned <==> r is Owned,
            self is Shared <==> r is Shared,
    {
        match self {
            SliceCow::Borrowed(b) => SliceCow::Borrowed(*b),
            SliceCow::Owned(o) => SliceCow::Owned(slice_to_vec(o.as_slice())),
            SliceCow::Shared(s) => SliceCow::Shared(U::new_shared(slice_to_vec(s.read()))),
        }
    }

    /// Builds an `Owned` value by copying out of a reference.
    pub fn copied(v: &[T]) -> (r: Self)
        ensures
            r@ == v@,
            r is Owned,
    {
        SliceCow::Owned(slice_to_vec(v))
    }

    /// Builds a value from a sequence of elements. Collection always
    /// yields the `Owned` state.
    pub fn from_elems(elems: &Vec<T>) -> (r: Self)
        ensures
            r is Owned,
            r@ == elems@,
    {
        SliceCow::Owned(slice_to_vec(elems.as_slice()))
    }

    /// Flattens a sequence of values into one plain owned collection,
    /// copying each value's elements in order, with no deduplication.
    pub fn flatten(values: &Vec<SliceCow<'a, T, S>>) -> (r: Vec<T>)
        ensures
            r@ == concat_of(values@.map_values(|v: SliceCow<'a, T, S>| v@)),
    {
        let n = values.len();
        let mut buf: Vec<T> = Vec::new();
        let mut i: usize = 0;
        proof {
            assert(values@.map_values(|v: SliceCow<'a, T, S>| v@).take(0).flatten()
                =~= Seq::<T>::empty());
        }
        while i < n
            invariant
                0 <= i <= n,
                n == values@.len(),
                buf@ == concat_of(values@.map_values(|v: SliceCow<'a, T, S>| v@).take(i as int)),
            decreases n - i,
        {
            let mut chunk = values[i].to_owned();
            buf.append(&mut chunk);
            proof {
                let dv = values@.map_values(|v: SliceCow<'a, T, S>| v@);
                dv.take(i as int).lemma_flatten_push(dv[i as int]);
                assert(dv.take(i as int).push(dv[i as int]) =~= dv.take(i as int + 1));
            }
            i += 1;
        }
        proof {
            let dv = values@.map_values(|v: SliceCow<'a, T, S>| v@);
            assert(dv.take(n as int) =~= dv);
        }
        buf
    }
}

impl<'a, T: Copy, S: SliceHandle<T>> Clone for SliceCow<'a, T, S> {
    /// Duplicates the value without changing its state: `Borrowed` copies
    /// the reference, `Owned` copies the buffer, `Shared` bumps the
    /// reference count.
    fn clone(&self) -> (r: Self)
        ensures
            r@ == self@,
            self is Borrowed ==> r == *self,
            self is Shared ==> r == *self,
            self is Borrowed <==> r is Borrowed,
            self is Owned <==> r is Owned,
            self is Shared <==> r is Shared,
    {
        match self {
            SliceCow::Borrowed(b) => SliceCow::Borrowed(*b),
            SliceCow::Owned(o) => SliceCow::Owned(slice_to_vec(o.as_slice())),
            SliceCow::Shared(s) => SliceCow::Shared(s.dup()),
        }
    }
}

impl<'a, T: Copy + PartialEq, S: SliceHandle<T>> PartialEq for SliceCow<'a, T, S> {
    /// Equality of the logical values, element by element; the states
    /// never take part.
    fn eq(&self, other: &Self) -> (r: bool) {
        let x = self.as_slice();
        let y = other.as_slice();
        if x.len() != y.len() {
            return false;
        }
        let n = x.len();
        let mut i: usize = 0;
        while i < n
            invariant
                0 <= i <= n,
                n == x@.len(),
                n == y@.len(),
                x@ == self@,
                y@ == other@,
                T::obeys_eq_spec() ==> forall|j: int| 0 <= j < i ==> x@[j].eq_spec(&y@[j]),
            decreases n - i,
        {
            let xi: T = *slice_index_get(x, i);
            let yi: T = *slice_index_get(y, i);
            if !(xi == yi) {
                return false;
            }
            i += 1;
        }
        true
    }
}

impl<'a, T: Copy + PartialEq, S: SliceHandle<T>> vstd::std_specs::cmp::PartialEqSpecImpl for SliceCow<'a, T, S> {
    open spec fn obeys_eq_spec() -> bool {
        T::obeys_eq_spec()
    }

    open spec fn eq_spec(&self, other: &Self) -> bool {
        &&& self@.len() == other@.len()
        &&& forall|i: int| #![auto] 0 <= i < self@.len() ==> self@[i].eq_spec(&other@[i])
    }
}

impl<'a, T: Copy, S: SliceHandle<T>> Default for SliceCow<'a, T, S> {
    /// The empty value, in the `Owned` state.
    fn default() -> (r: Self)
        ensures
            r@ == Seq::<T>::empty(),
            r is Owned,
    {
        SliceCow::Owned(Vec::new())
    }
}

/// A slice value whose shared state counts references atomically.
pub type ArcSliceCow<'a, T> = SliceCow<'a, T, Arc<Vec<T>>>;

/// A slice value whose shared state counts references without atomics.
pub type RcSliceCow<'a, T> = SliceCow<'a, T, Rc<Vec<T>>>;

} // verus!
