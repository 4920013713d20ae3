//! An enum similar to `Poll`, but holding the pending future itself in its `Pending`
//! variant, so that the future, its output and the fact that the output was taken out
//! travel together in one value.

mod fallible;
mod laws;
mod poll;
mod polling;

pub use laws::{
    lemma_done_is_empty, lemma_exactly_one_state, lemma_fallible_is_transposed,
    lemma_fallible_no_output, lemma_fallible_ready_error, lemma_fallible_ready_success,
    lemma_transitions_by_state, lemma_transposed_option_by_case, lemma_transposed_poll_by_case,
    lemma_views_by_state,
    lemma_handed_output_is_done, lemma_output_taken_once, lemma_polling_once_by_state, lemma_poll_agrees_with_ready,
    lemma_poll_once_agrees_with_poll,
};
pub use poll::{transposed_option, transposed_poll, Poll};
pub use polling::{FuturePollingExt, PollStep, Polling};
