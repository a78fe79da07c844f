use subgraph_healthcheck::healthcheck::{
    graph_healthcheck, healthcheck_interval_passed, validate_state, HEALTHCHECK_BUFFER,
    HEALTHCHECK_INTERVAL,
};
use subgraph_healthcheck::state::{GlobalHealthcheckState, Health, HealthcheckState};
use subgraph_healthcheck::time::current_time_as_secs;

#[test]
fn return_true_if_checked_after_healthcheck_interval() {
    // given
    let current_time = current_time_as_secs();
    let previous_time = current_time_as_secs() - HEALTHCHECK_INTERVAL;

    // when
    let result = healthcheck_interval_passed(current_time, previous_time);

    // then
    assert!(result);
}

#[test]
fn return_false_if_checked_before_healthcheck_interval() {
    // given
    let current_time = current_time_as_secs();
    let previous_time = current_time_as_secs();

    // when
    let result = healthcheck_interval_passed(current_time, previous_time);

    // then
    assert_eq!(result, false);
}

#[test]
fn is_healthy_when_all_blocks_are_indexed() {
    // given
    let current_state = HealthcheckState::from(2, 2);
    let previous_state = HealthcheckState::from(0, 0);

    // when
    let result = validate_state(&current_state, &previous_state);

    // then
    assert!(matches!(result, Health::UP));
}

#[test]
fn is_healthy_when_num_of_indexed_blocks_increased() {
    // given
    let current_state = HealthcheckState::from(2, 3);
    let previous_state = HealthcheckState::from(0, 0);

    // when
    let result = validate_state(&current_state, &previous_state);

    // then
    assert!(matches!(result, Health::UP));
}

#[test]
fn is_healthy_when_num_of_indexed_blocks_did_not_increase_but_is_smaller_than_healthcheck_buffer() {
    // given
    let current_state = HealthcheckState::from(2, 10);
    let previous_state = HealthcheckState::from(2, 2);

    // when
    let result = validate_state(&current_state, &previous_state);

    // then
    assert!(matches!(result, Health::UP));
}

#[test]
fn is_not_healthy_when_num_of_not_indexed_blocks_passed_healthcheck_buffer() {
    // given
    let current_state = HealthcheckState::from(2, 13);
    let previous_state = HealthcheckState::from(2, 2);

    // when
    let result = validate_state(&current_state, &previous_state);

    // then
    assert!(matches!(result, Health::DOWN));
}

#[test]
fn interval_boundary_is_inclusive() {
    assert!(healthcheck_interval_passed(105, 100));
    assert!(!healthcheck_interval_passed(104, 100));
    assert!(!healthcheck_interval_passed(100, 105));
    assert!(!healthcheck_interval_passed(u64::MAX, u64::MAX - 4));
    assert!(healthcheck_interval_passed(u64::MAX, u64::MAX - 5));
}

#[test]
fn caught_up_is_up_whatever_the_previous_sample() {
    let previous = HealthcheckState::new(1_000, 1_000, 0);
    let current = HealthcheckState::new(7, 7, 10);
    assert_eq!(validate_state(&current, &previous), Health::UP);
}

#[test]
fn progress_is_up_even_with_a_large_lag() {
    let previous = HealthcheckState::new(100, 100, 0);
    let current = HealthcheckState::new(101, 1_000_000, 10);
    assert_eq!(validate_state(&current, &previous), Health::UP);
}

#[test]
fn no_progress_is_down_exactly_at_the_buffer() {
    let previous = HealthcheckState::new(2, 2, 0);
    let at_buffer = HealthcheckState::new(2, 2 + HEALTHCHECK_BUFFER, 10);
    let below_buffer = HealthcheckState::new(2, 1 + HEALTHCHECK_BUFFER, 10);
    assert_eq!(validate_state(&at_buffer, &previous), Health::DOWN);
    assert_eq!(validate_state(&below_buffer, &previous), Health::UP);
}

#[test]
fn going_backwards_counts_as_no_progress() {
    let previous = HealthcheckState::new(50, 50, 0);
    let current = HealthcheckState::new(40, 60, 10);
    assert_eq!(validate_state(&current, &previous), Health::DOWN);
}

#[test]
fn extreme_heights_do_not_overflow_the_lag() {
    let previous = HealthcheckState::new(i64::MIN, 0, 0);
    let current = HealthcheckState::new(i64::MIN, i64::MAX, 10);
    assert_eq!(validate_state(&current, &previous), Health::DOWN);
}

#[test]
fn scenario_caught_up_from_empty_previous() {
    let mut global = GlobalHealthcheckState::new(0, 0, 100, Health::UP);
    let health = graph_healthcheck(&mut global, &HealthcheckState::new(2, 2, 105));
    assert_eq!(health, Health::UP);
    assert_eq!(global, GlobalHealthcheckState::new(2, 2, 105, Health::UP));
}

#[test]
fn scenario_progress_since_previous() {
    let mut global = GlobalHealthcheckState::new(0, 0, 100, Health::UP);
    let health = graph_healthcheck(&mut global, &HealthcheckState::new(2, 3, 105));
    assert_eq!(health, Health::UP);
}

#[test]
fn scenario_small_lag_without_progress() {
    let mut global = GlobalHealthcheckState::new(2, 2, 100, Health::UP);
    let health = graph_healthcheck(&mut global, &HealthcheckState::new(2, 10, 105));
    assert_eq!(health, Health::UP);
}

#[test]
fn scenario_large_lag_without_progress() {
    let mut global = GlobalHealthcheckState::new(2, 2, 100, Health::UP);
    let health = graph_healthcheck(&mut global, &HealthcheckState::new(2, 13, 105));
    assert_eq!(health, Health::DOWN);
    assert_eq!(global, GlobalHealthcheckState::new(2, 13, 105, Health::DOWN));
}

#[test]
fn second_evaluation_one_second_later_is_debounced() {
    let mut global = GlobalHealthcheckState::new(2, 2, 100, Health::UP);
    let first = graph_healthcheck(&mut global, &HealthcheckState::new(2, 13, 105));
    let after_first = global;
    assert!(!global.needs_sample(106));
    let second = graph_healthcheck(&mut global, &HealthcheckState::new(13, 13, 106));
    assert_eq!(first, Health::DOWN);
    assert_eq!(second, first);
    assert_eq!(global, after_first);
}

#[test]
fn evaluation_after_interval_resamples_and_may_change_verdict() {
    let mut global = GlobalHealthcheckState::new(2, 2, 100, Health::UP);
    let first = graph_healthcheck(&mut global, &HealthcheckState::new(2, 13, 105));
    assert!(global.needs_sample(110));
    let second = graph_healthcheck(&mut global, &HealthcheckState::new(13, 13, 110));
    assert_eq!(first, Health::DOWN);
    assert_eq!(second, Health::UP);
    assert_eq!(global, GlobalHealthcheckState::new(13, 13, 110, Health::UP));
}

#[test]
fn sample_is_stamped_with_the_current_time() {
    let before = current_time_as_secs();
    let sample = HealthcheckState::from(4, 9);
    let after = current_time_as_secs();
    assert_eq!(sample.indexed_block_num, 4);
    assert_eq!(sample.latest_block_num, 9);
    assert!(before <= sample.time && sample.time <= after);
    assert!(before > 1_500_000_000);
}

#[test]
fn sample_from_global_keeps_the_sample_fields() {
    let global = GlobalHealthcheckState::new(3, 8, 77, Health::DOWN);
    assert_eq!(HealthcheckState::from_global(&global), HealthcheckState::new(3, 8, 77));
}
