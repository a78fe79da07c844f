use vstd::prelude::*;

use crate::healthcheck::{healthcheck_interval_passed, interval_passed, verdict};
use crate::time::current_time_as_secs;

verus! {

/// The binary verdict on the indexer.
#[derive(Clone, Copy, Debug, PartialEq, Eq, Structural)]
pub enum Health {
    UP,
    DOWN,
}

/// One sample: the indexed height, the chain height and when they were read
/// (seconds since the Unix epoch).
#[derive(Clone, Copy, Debug, PartialEq, Eq, Structural)]
pub struct HealthcheckState {
    pub indexed_block_num: i64,
    pub latest_block_num: i64,
    pub time: u64,
}

impl HealthcheckState {
    /// A sample of the given heights, taken at `time`.
    pub fn new(indexed_block_num: i64, latest_block_num: i64, time: u64) -> (s: Self)
        ensures
            s.indexed_block_num == indexed_block_num,
            s.latest_block_num == latest_block_num,
            s.time == time,
    {
        HealthcheckState { indexed_block_num, latest_block_num, time }
    }

    /// A sample of the given heights, stamped with the current time.
    pub fn from(indexed_block_num: i64, latest_block_num: i64) -> (s: Self)
        ensures
            s.indexed_block_num == indexed_block_num,
            s.latest_block_num == latest_block_num,
    {
        HealthcheckState { indexed_block_num, latest_block_num, time: current_time_as_secs() }
    }

    /// The sample that a published record holds.
    pub fn from_global(global_state: &GlobalHealthcheckState) -> (s: Self)
        ensures
            s == global_state.previous(),
    {
        HealthcheckState {
            indexed_block_num: global_state.indexed_block_num,
            latest_block_num: global_state.latest_block_num,
            time: global_state.time,
        }
    }
}

/// The published record: the last sample that passed the debounce gate and
/// the verdict derived from it. Its four fields are always written together.
#[derive(Clone, Copy, Debug, PartialEq, Eq, Structural)]
pub struct GlobalHealthcheckState {
    pub indexed_block_num: i64,
    pub latest_block_num: i64,
    pub time: u64,
    pub health: Health,
}

impl GlobalHealthcheckState {
    /// The sample this record holds.
    pub open spec fn previous(self) -> HealthcheckState {
        HealthcheckState {
            indexed_block_num: self.indexed_block_num,
            latest_block_num: self.latest_block_num,
            time: self.time,
        }
    }

    /// The record that publishes `sample` with the verdict `health`.
    pub open spec fn published(sample: HealthcheckState, health: Health) -> Self {
        GlobalHealthcheckState {
            indexed_block_num: sample.indexed_block_num,
            latest_block_num: sample.latest_block_num,
            time: sample.time,
            health,
        }
    }

    /// The record after an evaluation on `current`: unchanged inside the
    /// debounce interval, else `current` with the verdict of the rule.
    pub open spec fn after(self, current: HealthcheckState) -> Self {
        if interval_passed(current.time as int, self.time as int) {
            Self::published(current, verdict(current, self.previous()))
        } else {
            self
        }
    }

    /// A record of the given sample values and verdict.
    pub fn new(indexed_block_num: i64, latest_block_num: i64, time: u64, health: Health) -> (s:
        Self)
        ensures
            s.indexed_block_num == indexed_block_num,
            s.latest_block_num == latest_block_num,
            s.time == time,
            s.health == health,
    {
        GlobalHealthcheckState { indexed_block_num, latest_block_num, time, health }
    }

    /// Whether an evaluation at `now` calls for a fresh sample; when it does
    /// not, the stored verdict is the answer and the sources are left alone.
    pub fn needs_sample(&self, now: u64) -> (r: bool)
        ensures
            r == interval_passed(now as int, self.time as int),
    {
        healthcheck_interval_passed(now, self.time)
    }
}

} // verus!
