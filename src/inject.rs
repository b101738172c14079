use vstd::prelude::*;
use crate::session::{Outcome, SENTINEL};

verus! {

/// `s` as a sentinel-terminated sequence: unchanged when it already ends with
/// the sentinel, else with one sentinel appended.
pub open spec fn terminated(s: Seq<u8>) -> Seq<u8> {
    if s.len() > 0 && s.last() == SENTINEL {
        s
    } else {
        s.push(SENTINEL)
    }
}

/// A byte sequence that is never empty and always ends with the sentinel, as
/// the editor's text insertion primitive reads it.
pub struct TerminatedBytes {
    bytes: Vec<u8>,
}

impl View for TerminatedBytes {
    type V = Seq<u8>;

    closed spec fn view(&self) -> Seq<u8> {
        self.bytes@
    }
}

impl TerminatedBytes {
    #[verifier::type_invariant]
    spec fn inv(&self) -> bool {
        self.bytes@.len() > 0 && self.bytes@.last() == SENTINEL
    }

    /// Terminates `bytes`, appending the sentinel only where it is missing.
    pub fn terminate(bytes: Vec<u8>) -> (r: Self)
        ensures
            r@ == terminated(bytes@),
    {
        let mut b = bytes;
        let n = b.len();
        if n == 0 || b[n - 1] != SENTINEL {
            b.push(SENTINEL);
        }
        TerminatedBytes { bytes: b }
    }

    /// The bytes, sentinel included.
    pub fn as_slice(&self) -> (r: &[u8])
        ensures
            r@ == self@,
            r@.len() > 0,
            r@.last() == SENTINEL,
    {
        proof {
            use_type_invariant(self);
        }
        self.bytes.as_slice()
    }
}

/// One call into the editor's editing primitives.
pub enum EditAction {
    /// Move the cursor to the end of the line.
    EndOfLine,
    /// Discard the whole current line.
    LineDiscard,
    /// Redraw the line.
    Refresh,
    /// Insert the text at the cursor.
    InsertText(TerminatedBytes),
}

/// What an [`EditAction`] does, with the inserted text as a sequence.
pub enum EditStep {
    EndOfLine,
    LineDiscard,
    Refresh,
    InsertText(Seq<u8>),
}

impl View for EditAction {
    type V = EditStep;

    open spec fn view(&self) -> EditStep {
        match self {
            EditAction::EndOfLine => EditStep::EndOfLine,
            EditAction::LineDiscard => EditStep::LineDiscard,
            EditAction::Refresh => EditStep::Refresh,
            EditAction::InsertText(t) => EditStep::InsertText(t@),
        }
    }
}

/// The steps of a list of actions.
pub open spec fn steps_of(actions: Seq<EditAction>) -> Seq<EditStep> {
    actions.map_values(|a: EditAction| a@)
}

/// Replacing the current line by `text`: clear it, redraw, insert.
pub open spec fn injection_steps(text: Seq<u8>) -> Seq<EditStep> {
    seq![
        EditStep::EndOfLine,
        EditStep::LineDiscard,
        EditStep::Refresh,
        EditStep::InsertText(terminated(text)),
    ]
}

/// The editor's answer to a session outcome: the selection replaces the
/// line; a cancelled session only redraws the screen the filter drew over.
pub open spec fn response_steps(outcome: Option<Seq<u8>>) -> Seq<EditStep> {
    match outcome {
        Some(text) => injection_steps(text),
        None => seq![EditStep::Refresh],
    }
}

/// The actions that replace the editor's current line by `text`.
pub fn replace_current_line(text: Vec<u8>) -> (r: Vec<EditAction>)
    ensures
        steps_of(r@) == injection_steps(text@),
{
    let t = TerminatedBytes::terminate(text);
    let r = vec![
        EditAction::EndOfLine,
        EditAction::LineDiscard,
        EditAction::Refresh,
        EditAction::InsertText(t),
    ];
    assert(steps_of(r@) =~= injection_steps(text@));
    r
}

/// The actions that answer a finished session.
pub fn respond(outcome: Outcome) -> (r: Vec<EditAction>)
    ensures
        steps_of(r@) == response_steps(outcome@),
{
    match outcome {
        Outcome::Selected(text) => replace_current_line(text),
        Outcome::Cancelled => {
            let r = vec![EditAction::Refresh];
            assert(steps_of(r@) =~= seq![EditStep::Refresh]);
            r
        },
    }
}

} // verus!
