//! Owned-buffer operations that the standard specifications leave open,
//! and the facts about UTF-8 encoding lengths that their callers need.

use vstd::prelude::*;
use vstd::utf8::encode_scalar;
use vstd::utf8::encode_utf8;

verus! {

/// Relies on `String::with_capacity`: it returns a new, empty string whose
/// buffer has room for at least `cap` bytes. The bound on `cap` keeps the
/// call away from its documented capacity-overflow panic.
#[verifier::external_body]
pub(crate) fn string_with_capacity(cap: usize) -> (r: String)
    requires
        cap <= isize::MAX,
    ensures
        r@ == Seq::<char>::empty(),
{
    String::with_capacity(cap)
}

/// Relies on `String::push`: it appends the character to the end of the
/// string. The byte-length bound keeps the buffer growth away from the
/// documented capacity-overflow panic.
#[verifier::external_body]
pub(crate) fn string_push(s: &mut String, c: char)
    requires
        encode_utf8(old(s)@).len() + 4 <= isize::MAX,
    ensures
        final(s)@ == old(s)@.push(c),
{
    s.push(c)
}

/// A scalar encodes to at most four bytes.
pub proof fn lemma_encode_scalar_len(scalar: u32)
    ensures
        1 <= encode_scalar(scalar).len() <= 4,
{
}

/// A text of `n` characters encodes to at most `4 * n` bytes.
pub proof fn lemma_encode_utf8_len(chars: Seq<char>)
    ensures
        encode_utf8(chars).len() <= 4 * chars.len(),
    decreases chars.len(),
{
    if chars.len() > 0 {
        lemma_encode_scalar_len(chars[0] as u32);
        lemma_encode_utf8_len(chars.drop_first());
    }
}

} // verus!
