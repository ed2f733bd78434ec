//! Counting frames between two reports of the frame rate.

use vstd::prelude::*;
use crate::scalar::{Scalar, ONE_BITS};

verus! {

/// Counts the frames drawn since the last report. The host keeps the clock:
/// with each frame it says how many seconds have passed since that report.
pub struct FpsCounter {
    frame_count: u32,
}

impl FpsCounter {
    /// The frames counted since the last report.
    pub closed spec fn frames(&self) -> nat {
        self.frame_count as nat
    }

    /// Whether a report is due after `elapsed` seconds: a full second has
    /// passed.
    pub open spec fn is_due(elapsed: Scalar) -> bool {
        (Scalar { bits: ONE_BITS }).at_most(elapsed)
    }

    /// A counter that has seen no frame.
    pub fn new() -> (counter: FpsCounter)
        ensures
            counter.frames() == 0,
    {
        FpsCounter { frame_count: 0 }
    }

    /// The frames counted since the last report.
    pub fn frame_count(&self) -> (n: u32)
        ensures
            n == self.frames(),
    {
        self.frame_count
    }

    /// Counts one frame. If at least a second has passed since the last
    /// report, hands out the frames counted over that time and starts again
    /// from zero; the rate is that count divided by `elapsed`.
    pub fn update(&mut self, elapsed: Scalar) -> (report: Option<u32>)
        requires
            old(self).frames() < u32::MAX,
        ensures
            Self::is_due(elapsed) ==> report == Some((old(self).frames() + 1) as u32),
            Self::is_due(elapsed) ==> final(self).frames() == 0,
            !Self::is_due(elapsed) ==> report.is_none(),
            !Self::is_due(elapsed) ==> final(self).frames() == old(self).frames() + 1,
    {
        self.frame_count = self.frame_count + 1;
        if Scalar::one().le(elapsed) {
            let frames: u32 = self.frame_count;
            self.frame_count = 0;
            Some(frames)
        } else {
            None
        }
    }
}

} // verus!
