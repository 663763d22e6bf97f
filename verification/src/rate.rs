//! The ticks-per-second metric derived from the window contents.

use vstd::prelude::*;

use crate::window::TickWindow;

verus! {

/// Sum of the consecutive inter-arrival deltas of `s`: each entry minus
/// its immediate predecessor, the first entry contributing no delta.
pub open spec fn delta_sum(s: Seq<u64>) -> int
    decreases s.len(),
{
    if s.len() < 2 {
        0
    } else {
        delta_sum(s.drop_last()) + (s.last() - s[s.len() - 2])
    }
}

/// The deltas telescope: their sum is the last entry minus the first.
pub proof fn lemma_delta_sum_telescopes(s: Seq<u64>)
    requires
        s.len() >= 1,
    ensures
        delta_sum(s) == s.last() - s[0],
    decreases s.len(),
{
    if s.len() >= 2 {
        lemma_delta_sum_telescopes(s.drop_last());
    }
}

/// The rate that a window with contents `s` yields. The average
/// inter-arrival interval is `delta_sum(s) / (s.len() - 1)` milliseconds,
/// and the rate is `1000 / average`, truncated. Fewer than two entries, a
/// non-positive delta sum (all timestamps identical, or a wall clock that
/// went backwards), or an average that truncates to zero all yield the
/// unavailable sentinel `-1` rather than an undefined division.
pub open spec fn tps_of(s: Seq<u64>) -> int {
    if s.len() < 2 {
        -1
    } else if delta_sum(s) <= 0 {
        -1
    } else if delta_sum(s) / (s.len() - 1) == 0 {
        -1
    } else {
        1000int / (delta_sum(s) / (s.len() - 1))
    }
}

/// Law: a window with fewer than two entries has no inter-arrival delta,
/// so it yields the unavailable sentinel.
pub proof fn lemma_below_two_ticks_unavailable(s: Seq<u64>)
    requires
        s.len() < 2,
    ensures
        tps_of(s) == -1,
{
}

/// Law: a window whose entries are all identical yields the unavailable
/// sentinel, never a division by zero.
pub proof fn lemma_identical_ticks_unavailable(s: Seq<u64>)
    requires
        s.len() >= 2,
        forall|i: int| 0 <= i < s.len() ==> #[trigger] s[i] == s[0],
    ensures
        tps_of(s) == -1,
{
    lemma_delta_sum_telescopes(s);
}

/// Compute the rate from a snapshot of the window, summing the
/// inter-arrival deltas and dividing as `tps_of` describes.
pub fn compute_tps(w: &TickWindow) -> (r: i32)
    ensures
        r as int == tps_of(w@),
{
    let n: usize = w.len();
    if n < 2 {
        return -1;
    }
    let mut total: i128 = 0;
    let mut prev: u64 = w.get(0);
    let mut i: usize = 1;
    while i < n
        invariant
            1 <= i <= n,
            2 <= n,
            n == w@.len(),
            prev == w@[i as int - 1],
            total == delta_sum(w@.take(i as int)),
            -0x1_0000_0000_0000_0000 < total < 0x1_0000_0000_0000_0000,
        decreases n - i,
    {
        let cur: u64 = w.get(i);
        let d: i128 = cur as i128 - prev as i128;
        proof {
            assert(w@.take(i as int + 1).drop_last() =~= w@.take(i as int));
            lemma_delta_sum_telescopes(w@.take(i as int + 1));
        }
        total = total + d;
        prev = cur;
        i = i + 1;
    }
    proof {
        assert(w@.take(n as int) =~= w@);
    }
    if total <= 0 {
        return -1;
    }
    let tot: u128 = total as u128;
    let avg: u128 = tot / ((n - 1) as u128);
    if avg == 0 {
        return -1;
    }
    let rate: u128 = 1000 / avg;
    rate as i32
}

} // verus!
