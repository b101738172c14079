use vstd::prelude::*;

verus! {

/// The record delimiter of the stream handed to the filter process.
pub const NEWLINE: u8 = 10;

/// The byte that ends the filter's answer and every text given to the editor.
pub const SENTINEL: u8 = 0;

/// The bytes fed to the filter: every line followed by one newline, in order.
pub open spec fn input_stream(lines: Seq<Seq<u8>>) -> Seq<u8>
    decreases lines.len(),
{
    if lines.len() == 0 {
        Seq::empty()
    } else {
        input_stream(lines.drop_last()) + lines.last().push(NEWLINE)
    }
}

/// The filter's answer as the session reports it: a non-empty answer that
/// does not already end with the sentinel gets one sentinel appended.
pub open spec fn session_output(out: Seq<u8>) -> Seq<u8> {
    if out.len() > 0 && out.last() != SENTINEL {
        out.push(SENTINEL)
    } else {
        out
    }
}

/// Serialises the history lines into the filter's input stream.
pub fn selection_input(lines: &Vec<Vec<u8>>) -> (r: Vec<u8>)
    ensures
        r@ == input_stream(lines@.map_values(|l: Vec<u8>| l@)),
{
    let ghost views = lines@.map_values(|l: Vec<u8>| l@);
    let mut r: Vec<u8> = Vec::new();
    let mut i: usize = 0;
    while i < lines.len()
        invariant
            i <= lines.len(),
            views == lines@.map_values(|l: Vec<u8>| l@),
            r@ == input_stream(views.take(i as int)),
        decreases lines.len() - i,
    {
        let line = &lines[i];
        let ghost before = r@;
        let mut j: usize = 0;
        while j < line.len()
            invariant
                j <= line.len(),
                r@ == before + line@.take(j as int),
            decreases line.len() - j,
        {
            r.push(line[j]);
            proof {
                assert(line@.take(j as int + 1) == line@.take(j as int).push(line@[j as int]));
            }
            j += 1;
        }
        r.push(NEWLINE);
        proof {
            assert(line@.take(j as int) == line@);
            assert(views.take(i as int + 1).drop_last() == views.take(i as int));
            assert(views.take(i as int + 1).last() == line@);
        }
        i += 1;
    }
    proof {
        assert(views.take(i as int) == views);
    }
    r
}

/// How a filter session ended: the user picked a line, or left the filter.
pub enum Outcome {
    /// The filter exited successfully with this answer.
    Selected(Vec<u8>),
    /// The filter exited with a failure status.
    Cancelled,
}

impl View for Outcome {
    /// The selected bytes, or `None` for a cancelled session.
    type V = Option<Seq<u8>>;

    open spec fn view(&self) -> Option<Seq<u8>> {
        match self {
            Outcome::Selected(b) => Some(b@),
            Outcome::Cancelled => None,
        }
    }
}

/// The outcome of a session whose filter exited with status `success` after
/// writing `out`: the exit status alone decides between the two outcomes.
pub open spec fn outcome_of(success: bool, out: Seq<u8>) -> Option<Seq<u8>> {
    if success {
        Some(session_output(out))
    } else {
        None
    }
}

/// Classifies a finished filter process by its exit status and its output.
pub fn session_outcome(success: bool, output: Vec<u8>) -> (r: Outcome)
    ensures
        r@ == outcome_of(success, output@),
{
    if !success {
        return Outcome::Cancelled;
    }
    let mut buf = output;
    let n = buf.len();
    if n > 0 && buf[n - 1] != SENTINEL {
        buf.push(SENTINEL);
    }
    Outcome::Selected(buf)
}

} // verus!
