use vstd::prelude::*;
use crate::inject::{respond, response_steps, steps_of, terminated, EditAction, EditStep};
use crate::session::{
    input_stream, outcome_of, selection_input, session_outcome, session_output, SENTINEL,
};

verus! {

/// The filter program that runs a search.
pub const FILTER_PROGRAM: &'static str = "fzf";

/// Filter flag: a single selection.
pub const SINGLE_SELECT: &'static str = "+m";

/// Filter flag: show the candidates in reverse order.
pub const REVERSE_ORDER: &'static str = "--tac";

/// Filter flag: end the answer with the sentinel rather than a newline.
pub const SENTINEL_OUTPUT: &'static str = "--print0";

/// What the host starts for a search: the filter program, its arguments, and
/// the bytes to stream into its standard input.
pub struct FilterLaunch {
    pub program: &'static str,
    pub args: Vec<&'static str>,
    pub input: Vec<u8>,
}

/// What the host does once the filter has exited: the editing actions to
/// perform in order, and the status to return to the editor.
pub struct SearchReply {
    pub actions: Vec<EditAction>,
    pub code: isize,
}

/// The launch of a search over the history `lines`; a launch is made for every
/// history, the empty one included.
pub fn filter_launch(lines: &Vec<Vec<u8>>) -> (r: FilterLaunch)
    ensures
        r.program == FILTER_PROGRAM,
        r.args@ == seq![SINGLE_SELECT, REVERSE_ORDER, SENTINEL_OUTPUT],
        r.input@ == input_stream(lines@.map_values(|l: Vec<u8>| l@)),
{
    let args = vec![SINGLE_SELECT, REVERSE_ORDER, SENTINEL_OUTPUT];
    FilterLaunch { program: FILTER_PROGRAM, args, input: selection_input(lines) }
}

/// The answer to a filter that exited with status `success` after writing
/// `output`. The search is handled either way: the editor's own search is
/// not run after it.
pub fn finish_search(success: bool, output: Vec<u8>) -> (r: SearchReply)
    ensures
        steps_of(r.actions@) == response_steps(outcome_of(success, output@)),
        r.code == 0,
{
    let outcome = session_outcome(success, output);
    SearchReply { actions: respond(outcome), code: 0 }
}

/// An empty history streams nothing to the filter, and the filter's exit
/// status alone still decides the outcome.
pub proof fn lemma_empty_history(out: Seq<u8>)
    ensures
        input_stream(Seq::<Seq<u8>>::empty()) == Seq::<u8>::empty(),
        outcome_of(false, out) is None,
        outcome_of(true, out) is Some,
{
}

/// An answer written without a trailing sentinel is inserted as exactly its
/// bytes followed by one sentinel.
pub proof fn lemma_answer_gains_one_sentinel(out: Seq<u8>)
    requires
        out.len() > 0,
        out.last() != SENTINEL,
    ensures
        response_steps(outcome_of(true, out)).last() == EditStep::InsertText(out.push(SENTINEL)),
{
}

/// An answer that already ends with the sentinel is inserted as it is:
/// termination never adds a second sentinel.
pub proof fn lemma_terminated_answer_unchanged(out: Seq<u8>)
    requires
        out.len() > 0,
        out.last() == SENTINEL,
    ensures
        session_output(out) == out,
        response_steps(outcome_of(true, out)).last() == EditStep::InsertText(out),
        session_output(session_output(out)) == session_output(out),
        terminated(terminated(out)) == terminated(out),
{
}

/// A cancelled session never touches the line: its only action is one redraw.
pub proof fn lemma_cancel_only_redraws(out: Seq<u8>)
    ensures
        response_steps(outcome_of(false, out)) == seq![EditStep::Refresh],
        forall|i: int|
            0 <= i < response_steps(outcome_of(false, out)).len()
                ==> !(response_steps(outcome_of(false, out))[i] is InsertText),
{
}

/// A selection is answered by exactly: end of line, line discard, redraw,
/// insertion of the terminated answer.
pub proof fn lemma_selection_order(out: Seq<u8>)
    ensures
        response_steps(outcome_of(true, out)) == seq![
            EditStep::EndOfLine,
            EditStep::LineDiscard,
            EditStep::Refresh,
            EditStep::InsertText(terminated(session_output(out))),
        ],
{
}

} // verus!
