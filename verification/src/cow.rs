//! The three-state clone-on-write container.

use crate::handle::SharedHandle;
use crate::order::lex_cmp;
use crate::order::str_compare;
use crate::order::str_equal;
use crate::strbuf::lemma_encode_utf8_len;
use crate::strbuf::string_push;
use crate::strbuf::string_with_capacity;
use core::cmp::Ordering;
use core::hash::Hasher;
use std::collections::hash_map::DefaultHasher;
use vstd::prelude::*;
use vstd::std_specs::hash::DefaultHasherAdditionalSpecFns;
use vstd::utf8::encode_utf8;

verus! {

/// The hash of a logical value: what the default hasher returns after
/// being fed the UTF-8 encoding of the text — and nothing else, in
/// particular no state tag — so that equal values hash identically
/// whatever their states.
pub open spec fn content_hash(s: Seq<char>) -> u64 {
    DefaultHasher::spec_finish(seq![encode_utf8(s)])
}

/// The concatenation of a sequence of fragments, in order, nothing
/// dropped and nothing deduplicated.
pub open spec fn concat_of<A>(parts: Seq<Seq<A>>) -> Seq<A> {
    parts.flatten()
}

/// A string value held in one of three ownership states.
///
/// `Borrowed` is a reference whose lifetime is bounded by an outer scope;
/// `Owned` is an exclusively held growable buffer, the only state open to
/// in-place mutation; `Shared` is a reference-counted immutable buffer of
/// the sharing strategy `S`. Every read goes through the same dereference
/// path regardless of state, and every mutating operation first promotes
/// the value to `Owned`.
pub enum SharedCow<'a, S> {
    /// A reference to externally owned text; zero-copy, read-only.
    Borrowed(&'a str),
    /// Exclusively held text in the canonical owned representation.
    Owned(String),
    /// Reference-counted text; immutable through this handle.
    Shared(S),
}

impl<'a, S: SharedHandle> View for SharedCow<'a, S> {
    type V = Seq<char>;

    open spec fn view(&self) -> Seq<char> {
        match self {
            SharedCow::Borrowed(b) => b@,
            SharedCow::Owned(o) => o@,
            SharedCow::Shared(s) => s.content(),
        }
    }
}

impl<'a, S: SharedHandle> SharedCow<'a, S> {
    /// Reads the logical value, never copying, whatever the state.
    pub fn as_str(&self) -> (r: &str)
        ensures
            r@ == self@,
    {
        match self {
            SharedCow::Borrowed(b) => b,
            SharedCow::Owned(o) => o.as_str(),
            SharedCow::Shared(s) => s.read(),
        }
    }

    /// Copies the logical value into a fresh owned buffer, whatever the
    /// state; `self` is untouched.
    pub fn to_owned(&self) -> (r: String)
        ensures
            r@ == self@,
    {
        self.as_str().to_owned()
    }

    /// Consumes the value and returns the owned buffer: handed out as it
    /// stands when the value was already `Owned`, copied once otherwise.
    pub fn into_owned(self) -> (r: String)
        ensures
            r@ == self@,
            self matches SharedCow::Owned(o) ==> r == o,
    {
        match self {
            SharedCow::Borrowed(b) => b.to_owned(),
            SharedCow::Owned(o) => o,
            SharedCow::Shared(s) => s.read().to_owned(),
        }
    }

    /// Promotes the value to `Owned` (copying once from `Borrowed` or
    /// `Shared`) and hands out a mutable handle into the owned buffer.
    /// After the call the value is `Owned`, every time, holding whatever
    /// the caller leaves in the handle.
    pub fn to_mut(&mut self) -> (r: &mut String)
        ensures
            r@ == old(self)@,
            *final(self) == SharedCow::<'a, S>::Owned(*final(r)),
            *final(self) is Owned,
    {
        let promoted: Option<String> = match &*self {
            SharedCow::Borrowed(b) => Some((*b).to_owned()),
            SharedCow::Owned(_) => None,
            SharedCow::Shared(s) => Some(s.read().to_owned()),
        };
        if let Some(o) = promoted {
            *self = SharedCow::Owned(o);
        }
        match self {
            SharedCow::Owned(o) => o,
            _ => vstd::pervasive::unreached(),
        }
    }

    /// Consumes the value and returns a shared handle: the handle itself
    /// when the value was already `Shared` (a zero-copy move), a freshly
    /// allocated shared buffer otherwise.
    pub fn into_shared(self) -> (r: S)
        ensures
            r.content() == self@,
            self matches SharedCow::Shared(s) ==> r == s,
    {
        match self {
            SharedCow::Borrowed(b) => S::new_shared(b.to_owned()),
            SharedCow::Owned(o) => S::new_shared(o),
            SharedCow::Shared(s) => s,
        }
    }

    /// Copies the logical value into a freshly allocated shared buffer,
    /// whatever the state — deliberately also when the value is already
    /// `Shared`: this duplicates the allocation, it does not bump the
    /// reference count. `self` is untouched.
    pub fn to_shared(&self) -> (r: S)
        ensures
            r.content() == self@,
    {
        S::new_shared(self.to_owned())
    }

    /// Converts the value to the other sharing strategy, state for state:
    /// `Borrowed` keeps the same reference with no copy, `Owned` copies
    /// the buffer, and `Shared` copies the text into a freshly allocated
    /// buffer under the target strategy — the two strategies' allocations
    /// are never shared.
    pub fn to_other_strategy<T: SharedHandle>(&self) -> (r: SharedCow<'a, T>)
        ensures
            r@ == self@,
            self matches SharedCow::Borrowed(b) ==> r == SharedCow::<'a, T>::Borrowed(b),
            self is Borrowed <==> r is Borrowed,
            self is Owned <==> r is Owned,
            self is Shared <==> r is Shared,
    {
        match self {
            SharedCow::Borrowed(b) => SharedCow::Borrowed(*b),
            SharedCow::Owned(o) => SharedCow::Owned(o.clone()),
            SharedCow::Shared(s) => SharedCow::Shared(T::new_shared(s.read().to_owned())),
        }
    }

    /// Builds an `Owned` value by copying out of a reference.
    pub fn copied(s: &str) -> (r: Self)
        ensures
            r@ == s@,
            r is Owned,
    {
        SharedCow::Owned(s.to_owned())
    }
}

impl<'a, S: SharedHandle> Clone for SharedCow<'a, S> {
    /// Duplicates the value without changing its state: `Borrowed` copies
    /// the reference, `Owned` copies the buffer, `Shared` bumps the
    /// reference count.
    fn clone(&self) -> (r: Self)
        ensures
            r == *self,
    {
        match self {
            SharedCow::Borrowed(b) => SharedCow::Borrowed(*b),
            SharedCow::Owned(o) => SharedCow::Owned(o.clone()),
            SharedCow::Shared(s) => SharedCow::Shared(s.dup()),
        }
    }
}

impl<'a, S: SharedHandle> Default for SharedCow<'a, S> {
    /// The empty value, in the `Owned` state.
    fn default() -> (r: Self)
        ensures
            r@ == Seq::<char>::empty(),
            r is Owned,
    {
        SharedCow::Owned(String::new())
    }
}

impl<'a, S: SharedHandle> From<&'a str> for SharedCow<'a, S> {
    /// Wraps a borrowed reference; zero-copy.
    fn from(s: &'a str) -> (r: Self) {
        SharedCow::Borrowed(s)
    }
}

impl<'a, S: SharedHandle> vstd::std_specs::convert::FromSpecImpl<&'a str> for SharedCow<'a, S> {
    open spec fn obeys_from_spec() -> bool {
        true
    }

    open spec fn from_spec(s: &'a str) -> Self {
        SharedCow::Borrowed(s)
    }
}

impl<'a, S: SharedHandle> From<String> for SharedCow<'a, S> {
    /// Takes an owned buffer as it stands; zero-copy.
    fn from(s: String) -> (r: Self) {
        SharedCow::Owned(s)
    }
}

impl<'a, S: SharedHandle> vstd::std_specs::convert::FromSpecImpl<String> for SharedCow<'a, S> {
    open spec fn obeys_from_spec() -> bool {
        true
    }

    open spec fn from_spec(s: String) -> Self {
        SharedCow::Owned(s)
    }
}

impl<'a, S: SharedHandle> PartialEq for SharedCow<'a, S> {
    /// Equality of the logical values; the states never take part.
    fn eq(&self, other: &Self) -> (r: bool) {
        str_equal(self.as_str(), other.as_str())
    }
}

impl<'a, S: SharedHandle> vstd::std_specs::cmp::PartialEqSpecImpl for SharedCow<'a, S> {
    open spec fn obeys_eq_spec() -> bool {
        true
    }

    open spec fn eq_spec(&self, other: &Self) -> bool {
        self@ == other@
    }
}

impl<'a, S: SharedHandle> Eq for SharedCow<'a, S> {
}

impl<'a, S: SharedHandle> PartialOrd for SharedCow<'a, S> {
    /// The order of the logical values — lexicographic on their UTF-8
    /// encodings; the states never take part.
    fn partial_cmp(&self, other: &Self) -> (r: Option<Ordering>) {
        Some(str_compare(self.as_str(), other.as_str()))
    }
}

impl<'a, S: SharedHandle> vstd::std_specs::cmp::PartialOrdSpecImpl for SharedCow<'a, S> {
    open spec fn obeys_partial_cmp_spec() -> bool {
        true
    }

    open spec fn partial_cmp_spec(&self, other: &Self) -> Option<Ordering> {
        Some(lex_cmp(self@, other@))
    }
}

impl<'a, S: SharedHandle> SharedCow<'a, S> {
    /// Compares the logical value against a plain string, both ways round
    /// the same: equality across types agrees with same-type equality.
    pub fn eq_str(&self, other: &str) -> (r: bool)
        ensures
            r == (self@ == other@),
    {
        str_equal(self.as_str(), other)
    }

    /// Orders the logical value against a plain string, in the same order
    /// that same-type comparison gives.
    pub fn cmp_str(&self, other: &str) -> (r: Ordering)
        ensures
            r == lex_cmp(self@, other@),
    {
        str_compare(self.as_str(), other)
    }

    /// Compares the logical value against a conventional two-variant
    /// clone-on-write string: equality across the two container kinds
    /// agrees with same-type equality, whatever either side's state.
    pub fn eq_cow(&self, other: &std::borrow::Cow<'_, str>) -> (r: bool)
        ensures
            r == (self@ == other@),
    {
        match other {
            std::borrow::Cow::Borrowed(b) => self.eq_str(b),
            std::borrow::Cow::Owned(o) => self.eq_str(o.as_str()),
        }
    }

    /// Orders the logical value against a conventional two-variant
    /// clone-on-write string, in the same order that same-type comparison
    /// gives.
    pub fn cmp_cow(&self, other: &std::borrow::Cow<'_, str>) -> (r: Ordering)
        ensures
            r == lex_cmp(self@, other@),
    {
        match other {
            std::borrow::Cow::Borrowed(b) => self.cmp_str(b),
            std::borrow::Cow::Owned(o) => self.cmp_str(o.as_str()),
        }
    }

    /// Hashes the logical value alone: the hasher is fed the UTF-8
    /// encoding of the text and no state tag, so equal values hash
    /// identically whatever their states.
    pub fn hash_value(&self) -> (r: u64)
        ensures
            r == content_hash(self@),
    {
        let mut h = DefaultHasher::new();
        h.write(self.as_str().as_bytes());
        h.finish()
    }

    /// Renders the logical value, uniformly across states: no state
    /// prefix or marker, just the text.
    pub fn render(&self) -> (r: String)
        ensures
            r@ == self@,
    {
        self.to_owned()
    }

    /// Appends `other` in place. An empty receiver becomes exactly
    /// `other`, adopting its state and storage without a copy; an empty
    /// argument leaves the receiver untouched; otherwise the receiver is
    /// promoted into a fresh owned buffer sized for both operands and the
    /// argument's text is appended.
    pub fn append(&mut self, other: SharedCow<'a, S>)
        ensures
            final(self)@ == old(self)@ + other@,
            old(self)@.len() == 0 ==> *final(self) == other,
            old(self)@.len() > 0 && other@.len() == 0 ==> *final(self) == *old(self),
            old(self)@.len() > 0 && other@.len() > 0 ==> *final(self) is Owned,
    {
        if self.as_str().is_empty() {
            proof {
                assert(old(self)@ + other@ =~= other@);
            }
            *self = other;
        } else if other.as_str().is_empty() {
            proof {
                assert(old(self)@ + other@ =~= old(self)@);
            }
        } else {
            let cap = self.as_str().len().checked_add(other.as_str().len());
            let mut buf = match cap {
                Some(c) => {
                    if c <= isize::MAX as usize {
                        string_with_capacity(c)
                    } else {
                        String::new()
                    }
                },
                None => String::new(),
            };
            buf.append(self.as_str());
            buf.append(other.as_str());
            proof {
                assert(buf@ =~= old(self)@ + other@);
            }
            *self = SharedCow::Owned(buf);
        }
    }

    /// Concatenation by value: in-place append applied to the moved left
    /// operand.
    pub fn concat(self, other: SharedCow<'a, S>) -> (r: Self)
        ensures
            r@ == self@ + other@,
            self@.len() == 0 ==> r == other,
            self@.len() > 0 && other@.len() == 0 ==> r == self,
            self@.len() > 0 && other@.len() > 0 ==> r is Owned,
    {
        let mut left = self;
        left.append(other);
        left
    }

    /// Builds a value from a sequence of characters. Collection always
    /// yields the `Owned` state. The length bound keeps the owned buffer
    /// within what one allocation may hold.
    pub fn from_chars(chars: &Vec<char>) -> (r: Self)
        requires
            4 * chars@.len() <= isize::MAX,
        ensures
            r is Owned,
            r@ == chars@,
    {
        let n = chars.len();
        let mut buf = String::new();
        let mut i: usize = 0;
        while i < n
            invariant
                0 <= i <= n,
                n == chars@.len(),
                4 * n <= isize::MAX,
                buf@ == chars@.take(i as int),
            decreases n - i,
        {
            proof {
                lemma_encode_utf8_len(buf@);
            }
            string_push(&mut buf, chars[i]);
            proof {
                assert(chars@.take(i as int).push(chars@[i as int]) =~= chars@.take(
                    i as int + 1,
                ));
            }
            i += 1;
        }
        proof {
            assert(chars@.take(n as int) =~= chars@);
        }
        SharedCow::Owned(buf)
    }

    /// Builds a value from a sequence of string fragments, concatenated in
    /// order. Collection always yields the `Owned` state.
    pub fn from_fragments(parts: &Vec<&str>) -> (r: Self)
        ensures
            r is Owned,
            r@ == concat_of(parts.deep_view()),
    {
        let n = parts.len();
        let mut buf = String::new();
        let mut i: usize = 0;
        proof {
            assert(parts.deep_view().take(0).flatten() =~= Seq::<char>::empty());
        }
        while i < n
            invariant
                0 <= i <= n,
                n == parts@.len(),
                parts.deep_view().len() == n,
                forall|j: int| 0 <= j < n ==> parts.deep_view()[j] == parts@[j]@,
                buf@ == concat_of(parts.deep_view().take(i as int)),
            decreases n - i,
        {
            let p = parts[i];
            buf.append(p);
            proof {
                let dv = parts.deep_view();
                dv.take(i as int).lemma_flatten_push(dv[i as int]);
                assert(dv.take(i as int).push(dv[i as int]) =~= dv.take(i as int + 1));
            }
            i += 1;
        }
        proof {
            assert(parts.deep_view().take(n as int) =~= parts.deep_view());
        }
        SharedCow::Owned(buf)
    }

    /// Builds a value from a sequence of owned strings, concatenated in
    /// order. Collection always yields the `Owned` state.
    pub fn from_strings(parts: &Vec<String>) -> (r: Self)
        ensures
            r is Owned,
            r@ == concat_of(parts.deep_view()),
    {
        let n = parts.len();
        let mut buf = String::new();
        let mut i: usize = 0;
        proof {
            assert(parts.deep_view().take(0).flatten() =~= Seq::<char>::empty());
        }
        while i < n
            invariant
                0 <= i <= n,
                n == parts@.len(),
                parts.deep_view().len() == n,
                forall|j: int| 0 <= j < n ==> parts.deep_view()[j] == parts@[j]@,
                buf@ == concat_of(parts.deep_view().take(i as int)),
            decreases n - i,
        {
            let p = &parts[i];
            buf.append(p.as_str());
            proof {
                let dv = parts.deep_view();
                dv.take(i as int).lemma_flatten_push(dv[i as int]);
                assert(dv.take(i as int).push(dv[i as int]) =~= dv.take(i as int + 1));
            }
            i += 1;
        }
        proof {
            assert(parts.deep_view().take(n as int) =~= parts.deep_view());
        }
        SharedCow::Owned(buf)
    }

    /// Flattens a sequence of values into one plain owned collection,
    /// copying each value's text in order, with no deduplication.
    pub fn flatten(values: &Vec<SharedCow<'a, S>>) -> (r: String)
        ensures
            r@ == concat_of(values@.map_values(|v: SharedCow<'a, S>| v@)),
    {
        let n = values.len();
        let mut buf = String::new();
        let mut i: usize = 0;
        proof {
            assert(values@.map_values(|v: SharedCow<'a, S>| v@).take(0).flatten()
                =~= Seq::<char>::empty());
        }
        while i < n
            invariant
                0 <= i <= n,
                n == values@.len(),
                buf@ == concat_of(values@.map_values(|v: SharedCow<'a, S>| v@).take(i as int)),
            decreases n - i,
        {
            let v = &values[i];
            buf.append(v.as_str());
            proof {
                let dv = values@.map_values(|v: SharedCow<'a, S>| v@);
                dv.take(i as int).lemma_flatten_push(dv[i as int]);
                assert(dv.take(i as int).push(dv[i as int]) =~= dv.take(i as int + 1));
            }
            i += 1;
        }
        proof {
            let dv = values@.map_values(|v: SharedCow<'a, S>| v@);
            assert(dv.take(n as int) =~= dv);
        }
        buf
    }
}

} // verus!
