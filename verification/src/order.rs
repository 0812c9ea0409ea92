//! Comparison of logical values, independent of the ownership state.
//!
//! Equality and ordering are defined on the text alone. The order is the
//! lexicographic order on the UTF-8 encoding of the value, which is the
//! order the plain string types give.

use core::cmp::Ordering;
use vstd::prelude::*;
use vstd::utf8::encode_utf8;

verus! {

/// Lexicographic order on byte sequences: the first differing byte
/// decides; a proper prefix comes first.
pub open spec fn lex_cmp_bytes(a: Seq<u8>, b: Seq<u8>) -> Ordering
    decreases a.len(),
{
    if a.len() == 0 && b.len() == 0 {
        Ordering::Equal
    } else if a.len() == 0 {
        Ordering::Less
    } else if b.len() == 0 {
        Ordering::Greater
    } else if a[0] < b[0] {
        Ordering::Less
    } else if a[0] > b[0] {
        Ordering::Greater
    } else {
        lex_cmp_bytes(a.drop_first(), b.drop_first())
    }
}

/// The order of two texts: the lexicographic order of their UTF-8
/// encodings.
pub open spec fn lex_cmp(a: Seq<char>, b: Seq<char>) -> Ordering {
    lex_cmp_bytes(encode_utf8(a), encode_utf8(b))
}

/// Dropping an equal prefix from both sequences does not change their
/// order.
proof fn lemma_lex_cmp_bytes_skip(a: Seq<u8>, b: Seq<u8>, i: int)
    requires
        0 <= i <= a.len(),
        i <= b.len(),
        forall|j: int| 0 <= j < i ==> a[j] == b[j],
    ensures
        lex_cmp_bytes(a, b) == lex_cmp_bytes(a.skip(i), b.skip(i)),
    decreases i,
{
    if i == 0 {
        assert(a.skip(0) =~= a);
        assert(b.skip(0) =~= b);
    } else {
        assert(a[0] == b[0]);
        lemma_lex_cmp_bytes_skip(a.drop_first(), b.drop_first(), i - 1);
        assert(a.drop_first().skip(i - 1) =~= a.skip(i));
        assert(b.drop_first().skip(i - 1) =~= b.skip(i));
    }
}

/// Two byte sequences are in the `Equal` order exactly when they are the
/// same sequence.
pub proof fn lemma_lex_cmp_bytes_equal_iff(a: Seq<u8>, b: Seq<u8>)
    ensures
        lex_cmp_bytes(a, b) == Ordering::Equal <==> a == b,
    decreases a.len(),
{
    if a.len() == 0 && b.len() == 0 {
        assert(a =~= b);
    } else if a.len() != 0 && b.len() != 0 && a[0] == b[0] {
        lemma_lex_cmp_bytes_equal_iff(a.drop_first(), b.drop_first());
        if a.drop_first() == b.drop_first() {
            assert forall|j: int| 0 <= j < a.len() implies a[j] == b[j] by {
                if j > 0 {
                    assert(a[j] == a.drop_first()[j - 1]);
                    assert(b[j] == b.drop_first()[j - 1]);
                }
            }
            assert(a =~= b);
        }
    }
}

/// Two texts are in the `Equal` order exactly when they are the same text.
pub proof fn lemma_lex_cmp_equal_iff(a: Seq<char>, b: Seq<char>)
    ensures
        lex_cmp(a, b) == Ordering::Equal <==> a == b,
{
    vstd::utf8::encode_utf8_decode_utf8(a);
    vstd::utf8::encode_utf8_decode_utf8(b);
    lemma_lex_cmp_bytes_equal_iff(encode_utf8(a), encode_utf8(b));
}

/// Compares two strings in the lexicographic order of their UTF-8
/// encodings, reading both texts once and copying nothing.
pub fn str_compare(a: &str, b: &str) -> (r: Ordering)
    ensures
        r == lex_cmp(a@, b@),
{
    let ab = a.as_bytes();
    let bb = b.as_bytes();
    let n: usize = if ab.len() <= bb.len() {
        ab.len()
    } else {
        bb.len()
    };
    let mut i: usize = 0;
    while i < n
        invariant
            0 <= i <= n,
            n <= ab@.len(),
            n <= bb@.len(),
            ab@ == encode_utf8(a@),
            bb@ == encode_utf8(b@),
            forall|j: int| 0 <= j < i ==> ab@[j] == bb@[j],
        decreases n - i,
    {
        let x = ab[i];
        let y = bb[i];
        if x < y {
            proof {
                lemma_lex_cmp_bytes_skip(ab@, bb@, i as int);
            }
            return Ordering::Less;
        }
        if x > y {
            proof {
                lemma_lex_cmp_bytes_skip(ab@, bb@, i as int);
            }
            return Ordering::Greater;
        }
        i += 1;
    }
    proof {
        lemma_lex_cmp_bytes_skip(ab@, bb@, n as int);
    }
    if ab.len() == bb.len() {
        Ordering::Equal
    } else if ab.len() < bb.len() {
        Ordering::Less
    } else {
        Ordering::Greater
    }
}

/// Decides whether two strings carry the same text.
pub fn str_equal(a: &str, b: &str) -> (r: bool)
    ensures
        r == (a@ == b@),
{
    let c = str_compare(a, b);
    proof {
        lemma_lex_cmp_equal_iff(a@, b@);
    }
    matches!(c, Ordering::Equal)
}

} // verus!
