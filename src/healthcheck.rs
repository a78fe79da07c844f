use vstd::prelude::*;

use crate::state::{GlobalHealthcheckState, Health, HealthcheckState};

verus! {

/// Minimum number of seconds between two re-samples.
pub const HEALTHCHECK_INTERVAL: u64 = 5;

/// Lag (in blocks) below which an indexer that made no progress is still
/// taken to be healthy.
pub const HEALTHCHECK_BUFFER: i64 = 10;

/// Whether `current_time` lies at least one debounce interval after
/// `previous_time`.
pub open spec fn interval_passed(current_time: int, previous_time: int) -> bool {
    current_time >= previous_time + HEALTHCHECK_INTERVAL
}

/// The hysteresis rule: the first matching clause wins.
pub open spec fn verdict(current: HealthcheckState, previous: HealthcheckState) -> Health {
    if current.indexed_block_num == current.latest_block_num {
        Health::UP
    } else if current.indexed_block_num > previous.indexed_block_num {
        Health::UP
    } else if current.latest_block_num - current.indexed_block_num < HEALTHCHECK_BUFFER {
        Health::UP
    } else {
        Health::DOWN
    }
}

/// Whether a sample taken at `current_time` may replace one taken at
/// `previous_time`.
pub fn healthcheck_interval_passed(current_time: u64, previous_time: u64) -> (r: bool)
    ensures
        r == interval_passed(current_time as int, previous_time as int),
{
    current_time >= previous_time && current_time - previous_time >= HEALTHCHECK_INTERVAL
}

/// Applies the hysteresis rule to a fresh sample and the previous one.
pub fn validate_state(current_state: &HealthcheckState, previous_state: &HealthcheckState) -> (r:
    Health)
    ensures
        r == verdict(*current_state, *previous_state),
        current_state.indexed_block_num == current_state.latest_block_num ==> r == Health::UP,
        current_state.indexed_block_num > previous_state.indexed_block_num ==> r == Health::UP,
        current_state.indexed_block_num <= previous_state.indexed_block_num
            && current_state.latest_block_num - current_state.indexed_block_num
            < HEALTHCHECK_BUFFER ==> r == Health::UP,
        current_state.indexed_block_num <= previous_state.indexed_block_num
            && current_state.latest_block_num - current_state.indexed_block_num
            >= HEALTHCHECK_BUFFER ==> r == Health::DOWN,
{
    let lag: i128 = current_state.latest_block_num as i128 - current_state.indexed_block_num as i128;
    if current_state.indexed_block_num == current_state.latest_block_num {
        Health::UP
    } else if current_state.indexed_block_num > previous_state.indexed_block_num {
        Health::UP
    } else if lag < HEALTHCHECK_BUFFER as i128 {
        Health::UP
    } else {
        Health::DOWN
    }
}

/// Publishes a sample and the verdict derived from it as one record.
fn update_global_state(
    current_state: &HealthcheckState,
    health: Health,
    global_state: &mut GlobalHealthcheckState,
)
    ensures
        *final(global_state) == GlobalHealthcheckState::published(*current_state, health),
{
    *global_state = GlobalHealthcheckState::new(
        current_state.indexed_block_num,
        current_state.latest_block_num,
        current_state.time,
        health,
    );
}

/// One evaluation on a fresh sample: inside the debounce interval of the
/// stored sample the stored verdict stands and nothing changes; otherwise the
/// rule is applied against the stored sample and the sample and its verdict
/// replace the stored record together.
pub fn graph_healthcheck(
    global_state: &mut GlobalHealthcheckState,
    current_state: &HealthcheckState,
) -> (r: Health)
    ensures
        *final(global_state) == old(global_state).after(*current_state),
        r == final(global_state).health,
        !interval_passed(current_state.time as int, old(global_state).time as int)
            ==> *final(global_state) == *old(global_state),
        interval_passed(current_state.time as int, old(global_state).time as int) ==> r
            == verdict(*current_state, old(global_state).previous()),
{
    let previous_state = HealthcheckState::from_global(global_state);
    if !healthcheck_interval_passed(current_state.time, previous_state.time) {
        return global_state.health;
    }
    let current_health = validate_state(current_state, &previous_state);
    update_global_state(current_state, current_health, global_state);
    current_health
}

/// Inside the debounce interval of the stored sample an evaluation changes
/// nothing: the record, and with it the verdict, stay as they were, whatever
/// the sources now report.
pub proof fn lemma_debounce_keeps_record(
    global_state: GlobalHealthcheckState,
    current_state: HealthcheckState,
)
    requires
        !interval_passed(current_state.time as int, global_state.time as int),
    ensures
        global_state.after(current_state) == global_state,
        global_state.after(current_state).health == global_state.health,
{
}

/// Two evaluations less than one interval apart, of which the first took a
/// fresh sample: the second needs no sample, changes nothing and answers
/// what the first answered, whatever the sources report in between.
pub proof fn lemma_second_evaluation_within_interval(
    global_state: GlobalHealthcheckState,
    first: HealthcheckState,
    second: HealthcheckState,
)
    requires
        interval_passed(first.time as int, global_state.time as int),
        first.time <= second.time < first.time + HEALTHCHECK_INTERVAL,
    ensures
        ({
            let once = global_state.after(first);
            &&& !interval_passed(second.time as int, once.time as int)
            &&& once.after(second) == once
            &&& once.after(second).health == once.health
        }),
{
}

/// Once the interval has elapsed an evaluation re-samples: the fresh sample
/// is published, and its verdict comes from the rule alone, whatever verdict
/// was stored before.
pub proof fn lemma_evaluation_after_interval(
    global_state: GlobalHealthcheckState,
    current_state: HealthcheckState,
    stored_health: Health,
)
    requires
        interval_passed(current_state.time as int, global_state.time as int),
    ensures
        global_state.after(current_state) == GlobalHealthcheckState::published(
            current_state,
            verdict(current_state, global_state.previous()),
        ),
        (GlobalHealthcheckState { health: stored_health, ..global_state }).after(current_state)
            == global_state.after(current_state),
{
}

} // verus!
