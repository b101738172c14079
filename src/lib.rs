//! Decision logic of a fuzzy-filter history search for a line editor.
//!
//! The editor's history is walked slot by slot, serialised as newline
//! separated records for an external filter process, and the filter's answer
//! is turned into the exact sequence of editing primitives that replaces the
//! current line. Reading foreign memory, spawning the filter and calling the
//! editor's primitives are left to the host; everything decided in between is
//! stated and proved here.

mod history;
mod inject;
mod search;
mod session;

pub use inject::{
    injection_steps, replace_current_line, respond, response_steps, steps_of, terminated,
    EditAction, EditStep, TerminatedBytes,
};
pub use session::{
    input_stream, outcome_of, selection_input, session_output, session_outcome, Outcome,
    NEWLINE, SENTINEL,
};
pub use history::{
    entry_line, entry_slots, lemma_walk_hands_on_each_entry, lemma_walk_reads_to_sentinel, step,
    walk, HistoryWalk, Slot, WalkState,
};
pub use search::{
    filter_launch, finish_search, lemma_answer_gains_one_sentinel, lemma_cancel_only_redraws,
    lemma_empty_history, lemma_selection_order, lemma_terminated_answer_unchanged, FilterLaunch,
    SearchReply, FILTER_PROGRAM, REVERSE_ORDER, SENTINEL_OUTPUT, SINGLE_SELECT,
};
