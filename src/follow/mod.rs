//! Envelope follower.
use vstd::prelude::*;

verus! {

/// Engages when its input crosses an amplitude threshold, and stays engaged
/// for a hold time (counted in samples) after the input falls back below it.
#[derive(Debug, Default)]
pub struct EnvFollower {
    /// How many samples we have been holding for.
    count: usize,
    /// Whether we are holding because the threshold was crossed.
    holding: bool,
}

impl EnvFollower {
    /// Samples held since the input last crossed the threshold.
    pub closed spec fn count(&self) -> nat {
        self.count as nat
    }

    /// Whether the follower is holding.
    pub closed spec fn holding(&self) -> bool {
        self.holding
    }

    /// A follower that is not holding.
    pub fn new() -> (r: EnvFollower)
        ensures
            !r.holding(),
            r.count() == 0,
    {
        EnvFollower { count: 0, holding: false }
    }

    /// Advance by one sample. `above_threshold` tells whether the sample's
    /// amplitude is above the threshold; `hold_samples` is the hold time in
    /// samples. Returns whether the envelope is engaged for this sample.
    pub fn apply(&mut self, above_threshold: bool, hold_samples: usize) -> (r: bool)
        ensures
            above_threshold ==> r && final(self).holding() && final(self).count() == 0,
            !above_threshold && old(self).holding() && old(self).count() < hold_samples ==> r
                && final(self).holding() && final(self).count() == old(self).count() + 1,
            !above_threshold && old(self).holding() && old(self).count() >= hold_samples ==> !r
                && !final(self).holding() && final(self).count() == old(self).count(),
            !above_threshold && !old(self).holding() ==> !r && final(self).holding() == old(
                self,
            ).holding() && final(self).count() == old(self).count(),
    {
        if above_threshold {
            self.holding = true;
            self.count = 0;
            true
        } else if self.holding {
            if self.count < hold_samples {
                self.count = self.count + 1;
                true
            } else {
                self.holding = false;
                false
            }
        } else {
            false
        }
    }
}

} // verus!
