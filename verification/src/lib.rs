//! A clone-on-write container with a shared third state.
//!
//! A [`SharedCow`] holds its text in one of three states: borrowed from an
//! outer scope, exclusively owned, or held through a reference-counted
//! handle. Reading never copies; mutation first promotes the value into the
//! owned state. The container is generic over the reference-counting
//! strategy, and is instantiated twice: [`ArcCow`] for the atomic,
//! thread-safe strategy and [`RcCow`] for the cheaper single-thread one.
//! [`SliceCow`] is the same container over a sequence of plain elements
//! instead of text.

mod arc_cow;
mod cow;
mod handle;
mod laws;
mod order;
mod rc_cow;
mod slice_cow;
mod strbuf;

pub use arc_cow::ArcCow;
pub use cow::concat_of;
pub use cow::content_hash;
pub use cow::SharedCow;
pub use handle::SharedHandle;
pub use laws::lemma_cmp_agrees_with_eq;
pub use laws::lemma_cross_strategy_round_trip;
pub use laws::lemma_eq_and_hash_ignore_state;
pub use laws::lemma_into_owned_agrees_with_to_owned;
pub use laws::lemma_shared_round_trip;
pub use laws::lemma_to_owned_repeatable;
pub use order::lex_cmp;
pub use order::lex_cmp_bytes;
pub use order::str_compare;
pub use order::str_equal;
pub use rc_cow::RcCow;
pub use slice_cow::ArcSliceCow;
pub use slice_cow::RcSliceCow;
pub use slice_cow::SliceCow;
pub use slice_cow::SliceHandle;
