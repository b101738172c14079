use vstd::prelude::*;

verus! {

/// What the host found at the slot of the editor's history list that a walk
/// asked for.
pub enum Slot {
    /// An entry, with its line, or `None` where the entry has no line.
    Entry(Option<Vec<u8>>),
    /// The marker that ends the list (also what an absent list reads as).
    Sentinel,
}

/// The line that an entry contributes: its bytes, or nothing when it has none.
pub open spec fn entry_line(line: Option<Vec<u8>>) -> Seq<u8> {
    match line {
        Some(l) => l@,
        None => Seq::empty(),
    }
}

/// The state of a walk: the slot to read next, and whether the end was seen.
pub struct WalkState {
    pub next: nat,
    pub done: bool,
}

/// One read: an entry hands its line on and moves to the next slot; the
/// sentinel ends the walk where it stands.
pub open spec fn step(s: WalkState, slot: Slot) -> (WalkState, Option<Seq<u8>>) {
    match slot {
        Slot::Entry(line) => (WalkState { next: s.next + 1, done: false }, Some(entry_line(line))),
        Slot::Sentinel => (WalkState { next: s.next, done: true }, None),
    }
}

/// Feeding `slots` to a walk, one per read, until it ends: the final state,
/// the lines handed on, and the slot positions that were read.
pub open spec fn walk(s: WalkState, slots: Seq<Slot>) -> (WalkState, Seq<Seq<u8>>, Seq<nat>)
    decreases slots.len(),
{
    if s.done || slots.len() == 0 {
        (s, Seq::empty(), Seq::empty())
    } else {
        let (s1, out) = step(s, slots[0]);
        let (s2, lines, reads) = walk(s1, slots.drop_first());
        let lines1 = match out {
            Some(l) => seq![l] + lines,
            None => lines,
        };
        (s2, lines1, seq![s.next] + reads)
    }
}

/// The slots of a list whose entries are `entries`, in memory order.
pub open spec fn entry_slots(entries: Seq<Option<Vec<u8>>>) -> Seq<Slot> {
    entries.map_values(|e: Option<Vec<u8>>| Slot::Entry(e))
}

/// A walk over the editor's history list, one slot at a time. The host reads
/// the slot at [`HistoryWalk::position`] and hands it to
/// [`HistoryWalk::advance`] until [`HistoryWalk::is_done`].
pub struct HistoryWalk {
    next: usize,
    done: bool,
}

impl View for HistoryWalk {
    type V = WalkState;

    closed spec fn view(&self) -> WalkState {
        WalkState { next: self.next as nat, done: self.done }
    }
}

impl HistoryWalk {
    /// A walk over a list whose head is `present`; over an absent list it is
    /// over before it starts.
    pub fn start(present: bool) -> (r: Self)
        ensures
            r@ == (WalkState { next: 0, done: !present }),
    {
        HistoryWalk { next: 0, done: !present }
    }

    /// The slot to read next.
    pub fn position(&self) -> (r: usize)
        ensures
            r == self@.next,
    {
        self.next
    }

    /// Whether the end of the list has been seen.
    pub fn is_done(&self) -> (r: bool)
        ensures
            r == self@.done,
    {
        self.done
    }

    /// Takes the slot read at [`HistoryWalk::position`]; returns the line to
    /// hand on, if it was an entry.
    pub fn advance(&mut self, slot: Slot) -> (r: Option<Vec<u8>>)
        requires
            !old(self)@.done,
            old(self)@.next < usize::MAX,
        ensures
            final(self)@ == step(old(self)@, slot).0,
            step(old(self)@, slot).1 == match r {
                Some(l) => Some(l@),
                None => None::<Seq<u8>>,
            },
    {
        match slot {
            Slot::Entry(line) => {
                self.next = self.next + 1;
                self.done = false;
                match line {
                    Some(l) => Some(l),
                    None => Some(Vec::new()),
                }
            },
            Slot::Sentinel => {
                self.done = true;
                None
            },
        }
    }
}

/// Walking a list of `entries` followed by the sentinel, from slot `k`:
/// slots `k` to `k + N` are read in order and nothing beyond (whatever lies in
/// `beyond`), each entry's line is handed on once and in order, and the walk
/// ends at the sentinel.
pub proof fn lemma_walk_reads_to_sentinel(
    k: nat,
    entries: Seq<Option<Vec<u8>>>,
    beyond: Seq<Slot>,
)
    ensures
        walk(WalkState { next: k, done: false }, entry_slots(entries) + seq![Slot::Sentinel] + beyond)
            == (
            WalkState { next: k + entries.len(), done: true },
            entries.map_values(|e: Option<Vec<u8>>| entry_line(e)),
            Seq::new((entries.len() + 1) as nat, |i: int| (k + i) as nat),
        ),
    decreases entries.len(),
{
    let s = WalkState { next: k, done: false };
    let slots = entry_slots(entries) + seq![Slot::Sentinel] + beyond;
    if entries.len() == 0 {
        assert(slots[0] == Slot::Sentinel);
        let s1 = WalkState { next: k, done: true };
        assert(walk(s1, slots.drop_first()) == (s1, Seq::<Seq<u8>>::empty(), Seq::<nat>::empty()));
        assert(entries.map_values(|e: Option<Vec<u8>>| entry_line(e)) =~= Seq::<Seq<u8>>::empty());
        assert(seq![k] + Seq::<nat>::empty() =~= Seq::new(1, |i: int| (k + i) as nat));
    } else {
        let rest = entries.drop_first();
        lemma_walk_reads_to_sentinel(k + 1, rest, beyond);
        assert(slots[0] == Slot::Entry(entries[0]));
        assert(slots.drop_first() =~= entry_slots(rest) + seq![Slot::Sentinel] + beyond);
        assert(seq![entry_line(entries[0])] + rest.map_values(|e: Option<Vec<u8>>| entry_line(e))
            =~= entries.map_values(|e: Option<Vec<u8>>| entry_line(e)));
        assert(seq![k] + Seq::new((rest.len() + 1) as nat, |i: int| (k + 1 + i) as nat)
            =~= Seq::new((entries.len() + 1) as nat, |i: int| (k + i) as nat));
    }
}

/// A fresh walk over a list of `N` entries reads slots `0` to `N` and hands on
/// exactly the `N` lines, in the list's order; an absent list reads nothing.
pub proof fn lemma_walk_hands_on_each_entry(entries: Seq<Option<Vec<u8>>>, beyond: Seq<Slot>)
    ensures
        walk(WalkState { next: 0, done: false }, entry_slots(entries) + seq![Slot::Sentinel] + beyond).1
            == entries.map_values(|e: Option<Vec<u8>>| entry_line(e)),
        walk(WalkState { next: 0, done: false }, entry_slots(entries) + seq![Slot::Sentinel] + beyond).2
            == Seq::new((entries.len() + 1) as nat, |i: int| i as nat),
        walk(WalkState { next: 0, done: true }, beyond).1.len() == 0,
        walk(WalkState { next: 0, done: true }, beyond).2.len() == 0,
{
    lemma_walk_reads_to_sentinel(0, entries, beyond);
    assert(Seq::new((entries.len() + 1) as nat, |i: int| (0 + i) as nat)
        =~= Seq::new((entries.len() + 1) as nat, |i: int| i as nat));
}

} // verus!
