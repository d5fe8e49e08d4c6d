//! The outcome of the latest poll, and the cell that holds it.

use vstd::prelude::*;
use crate::reading::Report;

verus! {

/// What the most recent completed poll attempt produced.
#[derive(Clone, Debug)]
pub enum Outcome {
    /// No poll attempt has completed yet.
    Unavailable,
    /// The latest attempt failed; the HTTP status where the provider answered
    /// with an error status, `None` for a transport or parse failure.
    Failed(Option<u16>),
    /// The latest attempt succeeded.
    Ready(Report),
}

/// Holds the latest `Outcome`. A write replaces the whole value; no history is
/// kept. Sharing it between the poller and the readers is left to the lock
/// that the caller wraps it in.
pub struct OutcomeCell {
    current: Outcome,
}

impl View for OutcomeCell {
    type V = Outcome;

    closed spec fn view(&self) -> Outcome {
        self.current
    }
}

/// The cell as it stands after `o` is written into `c`.
pub closed spec fn written(c: OutcomeCell, o: Outcome) -> OutcomeCell {
    OutcomeCell { current: o }
}

impl OutcomeCell {
    /// An empty cell: it holds `Unavailable`.
    pub fn new() -> (c: OutcomeCell)
        ensures
            c@ == Outcome::Unavailable,
    {
        OutcomeCell { current: Outcome::Unavailable }
    }

    /// The current outcome.
    pub fn read(&self) -> (r: &Outcome)
        ensures
            *r == self@,
    {
        &self.current
    }

    /// Replaces the current outcome by `o`.
    pub fn write(&mut self, o: Outcome)
        ensures
            *final(self) == written(*old(self), o),
    {
        self.current = o;
    }
}

/// Reading a cell right after writing `o` gives back exactly `o`.
pub proof fn lemma_read_after_write(c: OutcomeCell, o: Outcome)
    ensures
        written(c, o)@ == o,
{
}

/// A write discards what was there before: writing `a` then `b` leaves the
/// same cell as writing `b` alone.
pub proof fn lemma_write_discards(c: OutcomeCell, a: Outcome, b: Outcome)
    ensures
        written(written(c, a), b) == written(c, b),
{
}

} // verus!
