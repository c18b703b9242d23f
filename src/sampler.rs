//! The decision a periodic sampler makes on each reading: whether it is
//! worth reporting and recording.

use vstd::prelude::*;
use crate::telemetry::BatteryInfo;

verus! {

/// The charge level and health of the last reading that was reported.
pub struct ChangeTracker {
    pub last_percent: Option<i32>,
    pub last_health: Option<i32>,
}

fn same_level(a: Option<i32>, b: Option<i32>) -> (r: bool)
    ensures
        r == (a == b),
{
    match (a, b) {
        (Some(x), Some(y)) => x == y,
        (None, None) => true,
        _ => false,
    }
}

impl ChangeTracker {
    /// A tracker that has seen nothing yet.
    pub fn new() -> (t: ChangeTracker)
        ensures
            t.last_percent is None,
            t.last_health is None,
    {
        ChangeTracker { last_percent: None, last_health: None }
    }

    /// Whether `info` differs from the last reported reading in charge
    /// level or health; if so it becomes the last reported reading.
    pub fn observe(&mut self, info: &BatteryInfo) -> (changed: bool)
        ensures
            changed == (old(self).last_percent != Some(info.percent) || old(self).last_health
                != info.health),
            changed ==> final(self).last_percent == Some(info.percent) && final(self).last_health
                == info.health,
            !changed ==> *final(self) == *old(self),
    {
        let changed = !same_level(self.last_percent, Some(info.percent)) || !same_level(
            self.last_health,
            info.health,
        );
        if changed {
            self.last_percent = Some(info.percent);
            self.last_health = info.health;
        }
        changed
    }
}

} // verus!
