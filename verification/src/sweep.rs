//! Which sweep over the servers an answer stems from, so that an answer
//! that was overtaken by a newer one is not taken in.

use vstd::prelude::*;

verus! {

/// The sweeps in their order: how many were started after the first one,
/// and for each server the number of the sweep whose answer was taken in
/// last.
#[derive(Clone, Debug, PartialEq, Eq)]
pub struct SweepLog {
    started: u64,
    applied: Vec<u64>,
}

/// A `SweepLog` as plain values.
pub ghost struct SweepView {
    /// The number of the sweep that was started last; the first one is 0.
    pub started: u64,
    /// For each server the number of the sweep whose answer was taken in
    /// last, and 0 before any was.
    pub applied: Seq<u64>,
}

/// The log after a sweep was started: the sweep has the next number. When
/// the numbers run out, the last one is used again.
pub open spec fn begun(log: SweepView) -> SweepView {
    SweepView {
        started: if log.started < u64::MAX {
            (log.started + 1) as u64
        } else {
            log.started
        },
        applied: log.applied,
    }
}

/// Whether the answer of the sweep `ticket` for the server at `index` is
/// taken in: there is such a server, and no answer of a later sweep was
/// taken in for it.
pub open spec fn accepts(log: SweepView, index: int, ticket: u64) -> bool {
    0 <= index < log.applied.len() && ticket >= log.applied[index]
}

/// The log after the answer of the sweep `ticket` for the server at `index`
/// came in: where it is taken in, the log notes its sweep for that server.
pub open spec fn accepted(log: SweepView, index: int, ticket: u64) -> SweepView {
    if accepts(log, index, ticket) {
        SweepView { started: log.started, applied: log.applied.update(index, ticket) }
    } else {
        log
    }
}

impl View for SweepLog {
    type V = SweepView;

    closed spec fn view(&self) -> SweepView {
        SweepView { started: self.started, applied: self.applied@ }
    }
}

impl SweepLog {
    /// The log for `count` servers at the start: the first sweep has the
    /// number 0, and no answer was taken in.
    pub fn new(count: usize) -> (log: Self)
        ensures
            log@.started == 0,
            log@.applied == Seq::new(count as nat, |i: int| 0u64),
    {
        let mut applied: Vec<u64> = Vec::new();
        let mut i: usize = 0;
        while i < count
            invariant
                i <= count,
                applied@ == Seq::new(i as nat, |k: int| 0u64),
            decreases count - i,
        {
            applied.push(0);
            i += 1;
            assert(applied@ =~= Seq::new(i as nat, |k: int| 0u64));
        }
        SweepLog { started: 0, applied }
    }

    /// The number of the sweep that was started last.
    pub fn current(&self) -> (ticket: u64)
        ensures
            ticket == self@.started,
    {
        self.started
    }

    /// How many servers the log is kept for.
    pub fn len(&self) -> (n: usize)
        ensures
            n == self@.applied.len(),
    {
        self.applied.len()
    }

    /// Starts a sweep and gives its number, which goes with each of its
    /// fetches and comes back with the answer.
    pub fn begin(&mut self) -> (ticket: u64)
        ensures
            final(self)@ == begun(old(self)@),
            ticket == final(self)@.started,
    {
        if self.started < u64::MAX {
            self.started = self.started + 1;
        }
        self.started
    }

    /// Says whether the answer of the sweep `ticket` for the server at
    /// `index` is taken in, and if so notes its sweep for that server.
    pub fn accept(&mut self, index: usize, ticket: u64) -> (taken: bool)
        ensures
            taken == accepts(old(self)@, index as int, ticket),
            final(self)@ == accepted(old(self)@, index as int, ticket),
    {
        if index < self.applied.len() && ticket >= self.applied[index] {
            self.applied[index] = ticket;
            assert(self@.applied =~= old(self)@.applied.update(index as int, ticket));
            true
        } else {
            false
        }
    }
}

/// An answer that was overtaken changes nothing in the log.
pub proof fn lemma_overtaken_is_refused(log: SweepView, index: int, newer: u64, older: u64)
    requires
        older < newer,
        accepts(log, index, newer),
    ensures
        !accepts(accepted(log, index, newer), index, older),
        accepted(accepted(log, index, newer), index, older) == accepted(log, index, newer),
{
}

/// The answers of one sweep for different servers are taken in whatever
/// their order: none stands in the way of another.
pub proof fn lemma_servers_do_not_wait(log: SweepView, i: int, j: int, ticket: u64, other: u64)
    requires
        i != j,
    ensures
        accepts(accepted(log, i, ticket), j, other) == accepts(log, j, other),
        accepted(accepted(log, i, ticket), j, other) == accepted(accepted(log, j, other), i, ticket),
{
    assert(accepted(accepted(log, i, ticket), j, other).applied =~= accepted(
        accepted(log, j, other),
        i,
        ticket,
    ).applied);
}

/// The number of a new sweep is no less than that of any sweep before, so
/// that its answers are taken in after theirs.
pub proof fn lemma_new_sweep_is_newest(log: SweepView)
    ensures
        begun(log).started >= log.started,
        begun(log).applied == log.applied,
        log.started < u64::MAX ==> begun(log).started > log.started,
{
}

} // verus!
