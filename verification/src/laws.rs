//! The laws the container keeps, stated once over the views that the
//! operations' contracts speak of, and proved for every sharing strategy.

use crate::cow::content_hash;
use crate::cow::SharedCow;
use crate::handle::SharedHandle;
use crate::order::lemma_lex_cmp_equal_iff;
use core::cmp::Ordering;
use vstd::prelude::*;
use vstd::std_specs::cmp::PartialEqSpec;
use vstd::std_specs::cmp::PartialOrdSpec;

verus! {

/// Copying out the owned representation only reads the value, so any two
/// copies taken from the same value carry the same text.
pub proof fn lemma_to_owned_repeatable<'a, S: SharedHandle>(
    v: &SharedCow<'a, S>,
    first: &String,
    second: &String,
)
    requires
        first@ == v@,
        second@ == v@,
    ensures
        first@ == second@,
{
}

/// Consuming a value into its owned representation yields the same text
/// that copying it out does.
pub proof fn lemma_into_owned_agrees_with_to_owned<'a, S: SharedHandle>(
    v: &SharedCow<'a, S>,
    consumed: &String,
    copied: &String,
)
    requires
        consumed@ == v@,
        copied@ == v@,
    ensures
        consumed@ == copied@,
{
}

/// Equality and hashing read only the logical value: two values with the
/// same text are equal and hash identically, whatever their states.
pub proof fn lemma_eq_and_hash_ignore_state<'a, S: SharedHandle>(
    a: &SharedCow<'a, S>,
    b: &SharedCow<'a, S>,
)
    requires
        a@ == b@,
    ensures
        a.eq_spec(b),
        content_hash(a@) == content_hash(b@),
{
}

/// Equality and order agree: two values compare `Equal` exactly when they
/// are equal.
pub proof fn lemma_cmp_agrees_with_eq<'a, S: SharedHandle>(
    a: &SharedCow<'a, S>,
    b: &SharedCow<'a, S>,
)
    ensures
        a.partial_cmp_spec(b) == Some(Ordering::Equal) <==> a.eq_spec(b),
{
    lemma_lex_cmp_equal_iff(a@, b@);
}

/// Converting a value to the shared representation and wrapping the
/// handle back up yields a value logically equal to the original.
pub proof fn lemma_shared_round_trip<'a, S: SharedHandle>(
    x: &SharedCow<'a, S>,
    handle: S,
    back: &SharedCow<'a, S>,
)
    requires
        handle.content() == x@,
        *back == SharedCow::<'a, S>::Shared(handle),
    ensures
        back@ == x@,
{
}

/// Converting a value to the other sharing strategy and back yields a
/// value logically equal to the original, in the original's state.
pub proof fn lemma_cross_strategy_round_trip<'a, S: SharedHandle, T: SharedHandle>(
    x: &SharedCow<'a, S>,
    across: &SharedCow<'a, T>,
    back: &SharedCow<'a, S>,
)
    requires
        across@ == x@,
        x is Borrowed <==> across is Borrowed,
        x is Owned <==> across is Owned,
        x is Shared <==> across is Shared,
        back@ == across@,
        across is Borrowed <==> back is Borrowed,
        across is Owned <==> back is Owned,
        across is Shared <==> back is Shared,
    ensures
        back@ == x@,
        x is Borrowed <==> back is Borrowed,
        x is Owned <==> back is Owned,
        x is Shared <==> back is Shared,
{
}

} // verus!
