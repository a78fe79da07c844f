use vstd::prelude::*;
use vstd::rwlock::{RwLock, RwLockPredicate};

use crate::errors::HealthcheckError;
use crate::healthcheck::{graph_healthcheck, interval_passed};
use crate::state::{GlobalHealthcheckState, Health, HealthcheckState};

verus! {

/// Admits every published record into the lock.
pub struct AnyRecord;

impl RwLockPredicate<GlobalHealthcheckState> for AnyRecord {
    open spec fn inv(self, v: GlobalHealthcheckState) -> bool {
        true
    }
}

/// The process-wide published record, shared between concurrent evaluators.
/// Every read takes the whole record under the lock, and every update
/// replaces the whole record under the write lock, so no evaluator can see
/// fields that come from different samples.
pub struct HealthMonitor {
    state: RwLock<GlobalHealthcheckState, AnyRecord>,
}

impl HealthMonitor {
    /// A monitor seeded with the sample taken at start-up and the optimistic
    /// verdict UP.
    pub fn new(seed: &HealthcheckState) -> (m: Self) {
        let record = GlobalHealthcheckState::new(
            seed.indexed_block_num,
            seed.latest_block_num,
            seed.time,
            Health::UP,
        );
        HealthMonitor { state: RwLock::new(record, Ghost(AnyRecord)) }
    }

    /// The debounce gate at `now`, on the record read under the lock: the
    /// stored verdict while the stored sample is younger than the interval,
    /// `None` when a fresh sample is called for. Returns the record it read
    /// beside the answer.
    pub fn cached_health(&self, now: u64) -> (r: (GlobalHealthcheckState, Option<Health>))
        ensures
            r.1 == if interval_passed(now as int, r.0.time as int) {
                None::<Health>
            } else {
                Some(r.0.health)
            },
    {
        let handle = self.state.acquire_read();
        let record = *handle.borrow();
        handle.release_read();
        if record.needs_sample(now) {
            (record, None)
        } else {
            (record, Some(record.health))
        }
    }

    /// One evaluation on the outcome of sampling the sources. On a sample,
    /// the debounce gate, the rule and the publication all happen under one
    /// write lock; on a failed sample the published verdict is returned and
    /// nothing changes. Returns the record it found beside the verdict.
    pub fn evaluate(&self, sample: &Result<HealthcheckState, HealthcheckError>) -> (r: (
        GlobalHealthcheckState,
        Health,
    ))
        ensures
            sample matches Ok(current) ==> r.1 == r.0.after(*current).health,
            sample is Err ==> r.1 == r.0.health,
    {
        match sample {
            Ok(current) => {
                let (mut record, handle) = self.state.acquire_write();
                let previous = record;
                let health = graph_healthcheck(&mut record, current);
                handle.release_write(record);
                (previous, health)
            },
            Err(_) => {
                let handle = self.state.acquire_read();
                let record = *handle.borrow();
                handle.release_read();
                (record, record.health)
            },
        }
    }
}

} // verus!
