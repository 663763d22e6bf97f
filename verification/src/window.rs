//! The rolling window of tick timestamps: capacity-bounded, insertion
//! ordered, oldest evicted first.

use vstd::prelude::*;

verus! {

/// Greatest number of timestamps the window retains.
pub const WINDOW_CAP: usize = 200;

/// One recording step: append `t`; if the capacity is now exceeded, drop
/// the oldest entry.
pub open spec fn record_step(w: Seq<u64>, t: u64) -> Seq<u64> {
    if w.len() < WINDOW_CAP as nat {
        w.push(t)
    } else {
        w.push(t).skip(1)
    }
}

/// The window contents after recording the timestamps of `ts` in order,
/// starting from contents `w`.
pub open spec fn record_all(w: Seq<u64>, ts: Seq<u64>) -> Seq<u64>
    decreases ts.len(),
{
    if ts.len() == 0 {
        w
    } else {
        record_step(record_all(w, ts.drop_last()), ts.last())
    }
}

/// What a window filled from empty retains of a run `ts`: all of it while
/// it fits, otherwise the most recent `WINDOW_CAP` entries.
pub open spec fn retained(ts: Seq<u64>) -> Seq<u64> {
    if ts.len() <= WINDOW_CAP as nat {
        ts
    } else {
        ts.skip(ts.len() - WINDOW_CAP as nat)
    }
}

proof fn lemma_record_all_from_empty(ts: Seq<u64>)
    ensures
        record_all(Seq::<u64>::empty(), ts) == retained(ts),
    decreases ts.len(),
{
    if ts.len() > 0 {
        let prefix = ts.drop_last();
        lemma_record_all_from_empty(prefix);
        assert(record_all(Seq::<u64>::empty(), ts) =~= retained(ts));
    } else {
        assert(record_all(Seq::<u64>::empty(), ts) =~= retained(ts));
    }
}

/// Law: a run of at most `WINDOW_CAP` recorded timestamps is retained
/// exactly, in insertion order.
pub proof fn lemma_window_retains_all(ts: Seq<u64>)
    requires
        ts.len() <= WINDOW_CAP as nat,
    ensures
        record_all(Seq::<u64>::empty(), ts) == ts,
{
    lemma_record_all_from_empty(ts);
}

/// Law: a run of more than `WINDOW_CAP` recorded timestamps leaves exactly
/// the most recent `WINDOW_CAP`, the oldest discarded first, and pins the
/// length at `WINDOW_CAP`.
pub proof fn lemma_window_retains_last(ts: Seq<u64>)
    requires
        ts.len() > WINDOW_CAP as nat,
    ensures
        record_all(Seq::<u64>::empty(), ts) == ts.skip(ts.len() - WINDOW_CAP as nat),
        record_all(Seq::<u64>::empty(), ts).len() == WINDOW_CAP as nat,
{
    lemma_record_all_from_empty(ts);
}

/// The executable rolling window.
pub struct TickWindow {
    ticks: Vec<u64>,
}

impl View for TickWindow {
    type V = Seq<u64>;

    closed spec fn view(&self) -> Seq<u64> {
        self.ticks@
    }
}

impl TickWindow {
    /// The capacity bound; constructors establish it and every method
    /// preserves it.
    pub open spec fn wf(&self) -> bool {
        self@.len() <= WINDOW_CAP as nat
    }

    /// An empty, active window.
    pub fn new() -> (w: Self)
        ensures
            w@ == Seq::<u64>::empty(),
            w.wf(),
    {
        TickWindow { ticks: Vec::new() }
    }

    pub fn len(&self) -> (n: usize)
        ensures
            n == self@.len(),
    {
        self.ticks.len()
    }

    pub fn get(&self, i: usize) -> (t: u64)
        requires
            i < self@.len(),
        ensures
            t == self@[i as int],
    {
        self.ticks[i]
    }

    /// Record one timestamp: append it, evicting the oldest entry if the
    /// capacity would be exceeded.
    pub fn record(&mut self, t: u64)
        requires
            old(self).wf(),
        ensures
            final(self).wf(),
            final(self)@ == record_step(old(self)@, t),
    {
        self.ticks.push(t);
        if self.ticks.len() > WINDOW_CAP {
            self.ticks.remove(0);
            proof {
                assert(self@ =~= record_step(old(self)@, t));
            }
        }
    }
}

} // verus!
