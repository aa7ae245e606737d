//! A single-slot, latest-value-wins channel for angle samples: publishing never
//! blocks and overwrites an unread sample; reading takes the sample out.

use crate::angle::AngleSample;
use vstd::prelude::*;

verus! {

/// The slot that holds the newest sample not yet read, if any.
pub struct SampleSlot {
    pub latest: Option<AngleSample>,
}

/// The slot after publishing `s`.
pub open spec fn published(slot: SampleSlot, s: AngleSample) -> SampleSlot {
    SampleSlot { latest: Some(s) }
}

/// What a read returns, and the slot after it.
pub open spec fn polled(slot: SampleSlot) -> (Option<AngleSample>, SampleSlot) {
    (slot.latest, SampleSlot { latest: None })
}

impl SampleSlot {
    /// An empty slot.
    pub fn new() -> (r: SampleSlot)
        ensures
            r.latest is None,
    {
        SampleSlot { latest: None }
    }

    /// Puts `sample` in the slot, replacing any unread one.
    pub fn publish(&mut self, sample: AngleSample)
        ensures
            *final(self) == published(*old(self), sample),
    {
        self.latest = Some(sample);
    }

    /// Takes the newest unread sample, or `None` when nothing was published since
    /// the last read.
    pub fn poll_latest(&mut self) -> (r: Option<AngleSample>)
        ensures
            r == polled(*old(self)).0,
            *final(self) == polled(*old(self)).1,
    {
        self.latest.take()
    }
}

/// Of two publishes with no read between them only the second is read; a read
/// with no publish since the last read finds nothing.
pub proof fn lemma_latest_value_wins(slot: SampleSlot, a: AngleSample, b: AngleSample)
    ensures
        polled(published(published(slot, a), b)).0 == Some(b),
        polled(polled(published(published(slot, a), b)).1).0 is None,
{
}

} // verus!
