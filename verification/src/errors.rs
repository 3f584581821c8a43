//! Error counters: what has gone wrong on this board, since boot, and how often.
//!
//! Free-running, and they wrap. A master reads them periodically and looks at the difference;
//! nothing but a reset of the board clears them.
use crate::index::{Id, Per};
use crate::proto::od::PerErrorCounter;
use core::ops::IndexMut;
use vstd::prelude::*;

pub use crate::proto::od::ErrorCounter;

verus! {

/// One free-running counter per [`ErrorCounter`], and whether any has moved since it was last
/// looked at.
pub struct Counters {
    counts: PerErrorCounter<u32>,
    changed: bool,
}

impl Counters {
    /// The reading of one counter.
    pub closed spec fn reading(self, which: ErrorCounter) -> u32 {
        self.counts.at(which)
    }

    /// Whether something has been counted since the counters were last taken.
    pub closed spec fn moved(self) -> bool {
        self.changed
    }

    pub fn new() -> (r: Self)
        ensures
            forall|which: ErrorCounter| #[trigger] r.reading(which) == 0,
            !r.moved(),
    {
        Self { counts: Per::splat(0), changed: false }
    }
}

impl Default for Counters {
    fn default() -> (r: Self)
        ensures
            forall|which: ErrorCounter| #[trigger] r.reading(which) == 0,
            !r.moved(),
    {
        Self::new()
    }
}

/// The sum of two counts, wrapped at the end of the range.
pub open spec fn wrapped_sum(a: u32, b: u32) -> u32 {
    ((a + b) % 0x1_0000_0000) as u32
}

/// Records one occurrence.
pub fn bump(counters: &mut Counters, which: ErrorCounter)
    ensures
        final(counters).moved(),
        forall|other: ErrorCounter|
            #[trigger] final(counters).reading(other) == if other == which {
                wrapped_sum(old(counters).reading(other), 1)
            } else {
                old(counters).reading(other)
            },
{
    bump_by(counters, which, 1);
}

/// Records `n` occurrences at once. Zero is a no-op and does not mark the counters changed.
pub fn bump_by(counters: &mut Counters, which: ErrorCounter, n: u32)
    ensures
        final(counters).moved() == (old(counters).moved() || n > 0),
        forall|other: ErrorCounter|
            #[trigger] final(counters).reading(other) == if other == which {
                wrapped_sum(old(counters).reading(other), n)
            } else {
                old(counters).reading(other)
            },
{
    broadcast use crate::index::per_len;

    if n == 0 {
        return ;
    }
    let ghost before = counters.counts;
    let next: u32 = counters.counts[which].wrapping_add(n);
    *counters.counts.index_mut(which) = next;
    counters.changed = true;
    proof {
        assert forall|other: ErrorCounter| #[trigger]
            counters.reading(other) == if other == which {
                wrapped_sum(before.at(other), n)
            } else {
                before.at(other)
            } by {
            crate::index::writing_one_entry_keeps_the_others(
                before,
                counters.counts,
                which,
                next,
                other,
            );
        }
    }
}

/// Reads one counter.
pub fn count(counters: &Counters, which: ErrorCounter) -> (r: u32)
    ensures
        r == counters.reading(which),
{
    counters.counts[which]
}

/// Reads all of them.
pub fn snapshot(counters: &Counters) -> (r: PerErrorCounter<u32>)
    ensures
        forall|which: ErrorCounter| #[trigger] r.at(which) == counters.reading(which),
{
    counters.counts
}

/// A snapshot, but only when something has been counted since the last call.
pub fn take_if_changed(counters: &mut Counters) -> (r: Option<PerErrorCounter<u32>>)
    ensures
        !final(counters).moved(),
        r is Some <==> old(counters).moved(),
        r matches Some(taken) ==> forall|which: ErrorCounter| #[trigger]
            taken.at(which) == old(counters).reading(which),
        forall|which: ErrorCounter| #[trigger]
            final(counters).reading(which) == old(counters).reading(which),
{
    if !counters.changed {
        return None;
    }
    counters.changed = false;
    Some(snapshot(counters))
}

/// Zeroes every counter.
pub fn reset_all(counters: &mut Counters)
    ensures
        forall|which: ErrorCounter| #[trigger] final(counters).reading(which) == 0,
        !final(counters).moved(),
{
    *counters = Counters::new();
}

/// As many lost messages as a counter can be raised by at once.
pub open spec fn countable(lost: u64) -> u32 {
    if lost > u32::MAX {
        u32::MAX
    } else {
        lost as u32
    }
}

/// Records what a lagging queue lost: `lost` messages, as many of them as a counter can hold.
pub fn bump_lost(counters: &mut Counters, which: ErrorCounter, lost: u64)
    ensures
        final(counters).moved() == (old(counters).moved() || lost > 0),
        forall|other: ErrorCounter|
            #[trigger] final(counters).reading(other) == if other == which {
                wrapped_sum(
                    old(counters).reading(other),
                    if lost > u32::MAX {
                        u32::MAX
                    } else {
                        lost as u32
                    },
                )
            } else {
                old(counters).reading(other)
            },
        final(counters).reading(which) == wrapped_sum(old(counters).reading(which), countable(lost)),
{
    let n: u32 = if lost > u32::MAX as u64 {
        u32::MAX
    } else {
        lost as u32
    };
    bump_by(counters, which, n);
}

/// A counter that has not wrapped reads the sum of what was recorded.
pub proof fn counts_add_up(start: u32, a: u32, b: u32)
    requires
        start + a + b <= u32::MAX,
    ensures
        wrapped_sum(wrapped_sum(start, a), b) == start + a + b,
{
}

/// However often a counter has wrapped, two readings tell what was recorded between them, as long
/// as that fits a counter.
pub proof fn readings_differ_by_what_was_recorded(start: u32, n: u32)
    ensures
        (wrapped_sum(start, n) - start) % 0x1_0000_0000 == n,
{
}

/// A counter that is at its end starts over at zero, and counts on from there.
pub proof fn a_counter_wraps_to_zero(start: u32, n: u32)
    ensures
        wrapped_sum(u32::MAX, 1) == 0,
        start + n <= u32::MAX ==> wrapped_sum(start, n) == start + n,
        start + n > u32::MAX ==> wrapped_sum(start, n) == start + n - 0x1_0000_0000,
        wrapped_sum(start, 0) == start,
{
}

/// Every lost message is counted, as long as the number fits a counter.
pub proof fn every_lost_message_counts(lost: u64, start: u32)
    ensures
        lost <= 0xffff_ffff ==> countable(lost) == lost,
        lost >= 0xffff_ffff ==> countable(lost) == 0xffff_ffff,
        start + lost <= 0xffff_ffff ==> wrapped_sum(start, countable(lost)) == start + lost,
{
}

} // verus!
