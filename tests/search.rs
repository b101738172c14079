use fzf_isearch::{
    filter_launch, finish_search, replace_current_line, respond, selection_input, session_outcome,
    EditAction, HistoryWalk, Outcome, Slot, TerminatedBytes, FILTER_PROGRAM, REVERSE_ORDER,
    SENTINEL_OUTPUT, SINGLE_SELECT,
};

fn lines(items: &[&str]) -> Vec<Vec<u8>> {
    items.iter().map(|s| s.as_bytes().to_vec()).collect()
}

fn inserted(action: &EditAction) -> Vec<u8> {
    match action {
        EditAction::InsertText(t) => t.as_slice().to_vec(),
        _ => panic!("not an insertion"),
    }
}

fn walk_all(slots: Vec<Slot>, present: bool) -> (Vec<Vec<u8>>, Vec<usize>) {
    let mut walk = HistoryWalk::start(present);
    let mut slots = slots.into_iter();
    let mut out = Vec::new();
    let mut reads = Vec::new();
    while !walk.is_done() {
        reads.push(walk.position());
        let slot = slots.next().expect("walk read past the end");
        if let Some(line) = walk.advance(slot) {
            out.push(line);
        }
    }
    (out, reads)
}

#[test]
fn input_stream_terminates_each_line() {
    let input = selection_input(&lines(&["abc", "def"]));
    assert_eq!(input, b"abc\ndef\n".to_vec());
}

#[test]
fn empty_history_streams_nothing() {
    assert_eq!(selection_input(&Vec::new()), Vec::<u8>::new());
    let launch = filter_launch(&Vec::new());
    assert!(launch.input.is_empty());
    assert_eq!(launch.program, "fzf");
}

#[test]
fn empty_lines_still_give_records() {
    assert_eq!(selection_input(&lines(&["", "x", ""])), b"\nx\n\n".to_vec());
}

#[test]
fn large_history_is_serialised_whole() {
    let many: Vec<Vec<u8>> = (0..50_000).map(|i| format!("command {}", i).into_bytes()).collect();
    let expected: usize = many.iter().map(|l| l.len() + 1).sum();
    let input = selection_input(&many);
    assert_eq!(input.len(), expected);
    assert_eq!(input.iter().filter(|b| **b == b'\n').count(), 50_000);
    assert!(input.ends_with(b"command 49999\n"));
}

#[test]
fn launch_uses_filter_flags() {
    let launch = filter_launch(&lines(&["ls"]));
    assert_eq!(launch.program, FILTER_PROGRAM);
    assert_eq!(launch.args, vec!["+m", "--tac", "--print0"]);
    assert_eq!(launch.args, vec![SINGLE_SELECT, REVERSE_ORDER, SENTINEL_OUTPUT]);
    assert_eq!(launch.input, b"ls\n".to_vec());
}

#[test]
fn failure_status_cancels() {
    assert!(matches!(session_outcome(false, b"def".to_vec()), Outcome::Cancelled));
    assert!(matches!(session_outcome(false, Vec::new()), Outcome::Cancelled));
}

#[test]
fn answer_without_sentinel_gets_one() {
    match session_outcome(true, b"def".to_vec()) {
        Outcome::Selected(b) => assert_eq!(b, b"def\0".to_vec()),
        Outcome::Cancelled => panic!("cancelled"),
    }
}

#[test]
fn answer_with_sentinel_is_kept() {
    match session_outcome(true, b"def\0".to_vec()) {
        Outcome::Selected(b) => assert_eq!(b, b"def\0".to_vec()),
        Outcome::Cancelled => panic!("cancelled"),
    }
}

#[test]
fn empty_answer_is_selected_empty() {
    match session_outcome(true, Vec::new()) {
        Outcome::Selected(b) => assert!(b.is_empty()),
        Outcome::Cancelled => panic!("cancelled"),
    }
}

#[test]
fn terminate_appends_only_when_missing() {
    assert_eq!(TerminatedBytes::terminate(Vec::new()).as_slice(), &[0u8][..]);
    assert_eq!(TerminatedBytes::terminate(b"x".to_vec()).as_slice(), b"x\0");
    assert_eq!(TerminatedBytes::terminate(b"x\0".to_vec()).as_slice(), b"x\0");
    assert_eq!(TerminatedBytes::terminate(b"\0".to_vec()).as_slice(), b"\0");
}

#[test]
fn replacement_order() {
    let actions = replace_current_line(b"git status".to_vec());
    assert_eq!(actions.len(), 4);
    assert!(matches!(actions[0], EditAction::EndOfLine));
    assert!(matches!(actions[1], EditAction::LineDiscard));
    assert!(matches!(actions[2], EditAction::Refresh));
    assert_eq!(inserted(&actions[3]), b"git status\0".to_vec());
}

#[test]
fn cancel_only_redraws() {
    let actions = respond(Outcome::Cancelled);
    assert_eq!(actions.len(), 1);
    assert!(matches!(actions[0], EditAction::Refresh));
    let reply = finish_search(false, b"abc".to_vec());
    assert_eq!(reply.code, 0);
    assert_eq!(reply.actions.len(), 1);
    assert!(matches!(reply.actions[0], EditAction::Refresh));
}

#[test]
fn round_trip_inserts_answer_and_sentinel() {
    let launch = filter_launch(&lines(&["abc", "def"]));
    assert_eq!(launch.input, b"abc\ndef\n".to_vec());
    let reply = finish_search(true, b"def".to_vec());
    assert_eq!(reply.code, 0);
    assert_eq!(reply.actions.len(), 4);
    assert!(matches!(reply.actions[0], EditAction::EndOfLine));
    assert!(matches!(reply.actions[1], EditAction::LineDiscard));
    assert!(matches!(reply.actions[2], EditAction::Refresh));
    assert_eq!(inserted(&reply.actions[3]), b"def\0".to_vec());
}

#[test]
fn terminated_answer_not_extended() {
    let reply = finish_search(true, b"def\0".to_vec());
    assert_eq!(inserted(&reply.actions[3]), b"def\0".to_vec());
}

#[test]
fn empty_answer_inserts_empty_text() {
    let reply = finish_search(true, Vec::new());
    assert_eq!(reply.actions.len(), 4);
    assert_eq!(inserted(&reply.actions[3]), vec![0u8]);
}

#[test]
fn walk_hands_on_each_entry_in_order() {
    let slots = vec![
        Slot::Entry(Some(b"one".to_vec())),
        Slot::Entry(None),
        Slot::Entry(Some(b"three".to_vec())),
        Slot::Sentinel,
        Slot::Entry(Some(b"beyond".to_vec())),
    ];
    let (out, reads) = walk_all(slots, true);
    assert_eq!(out, vec![b"one".to_vec(), Vec::new(), b"three".to_vec()]);
    assert_eq!(reads, vec![0, 1, 2, 3]);
}

#[test]
fn walk_of_empty_list() {
    let (out, reads) = walk_all(vec![Slot::Sentinel], true);
    assert!(out.is_empty());
    assert_eq!(reads, vec![0]);
}

#[test]
fn walk_of_absent_list_reads_nothing() {
    let (out, reads) = walk_all(Vec::new(), false);
    assert!(out.is_empty());
    assert!(reads.is_empty());
}
