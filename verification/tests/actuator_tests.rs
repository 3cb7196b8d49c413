use mavulator::actuator::{
    normalize_actuator_outputs, CONTROL_FULL_SCALE, PWM_DEFAULT_CENTER_RAW, PWM_DEFAULT_MAX_RAW,
    PWM_DEFAULT_MIN_HALF_RAW, PWM_DEFAULT_MIN_RAW,
};
use mavulator::feedback::handle_actuator_outputs;
use mavulator::state::{SimState, ACTUATOR_CHANNEL_COUNT};

/// A full raw vector with every channel set to `v`.
fn uniform(v: Option<i64>) -> Vec<Option<i64>> {
    vec![v; ACTUATOR_CHANNEL_COUNT]
}

#[test]
fn raw_at_half_minimum_is_inactive() {
    let ctrls = normalize_actuator_outputs(&uniform(Some(PWM_DEFAULT_MIN_HALF_RAW)), 4);
    for c in &ctrls {
        assert_eq!(*c, 0);
    }
}

#[test]
fn missing_raw_value_is_inactive() {
    let ctrls = normalize_actuator_outputs(&uniform(None), 4);
    for c in &ctrls {
        assert_eq!(*c, 0);
    }
}

#[test]
fn midpoint_on_non_rotor_channel_is_zero() {
    let ctrls = normalize_actuator_outputs(&uniform(Some(PWM_DEFAULT_CENTER_RAW)), 4);
    for i in 4..ACTUATOR_CHANNEL_COUNT {
        assert_eq!(ctrls[i], 0);
    }
}

#[test]
fn raw_max_on_rotor_channel_is_full_scale() {
    let ctrls = normalize_actuator_outputs(&uniform(Some(PWM_DEFAULT_MAX_RAW)), 4);
    for i in 0..4 {
        assert_eq!(ctrls[i], CONTROL_FULL_SCALE);
    }
}

#[test]
fn below_raw_min_on_rotor_channel_clamps_to_zero() {
    // Active (above half-minimum) yet below the valid range: never negative.
    let raw = Some(PWM_DEFAULT_MIN_RAW - 200_000);
    let ctrls = normalize_actuator_outputs(&uniform(raw), 4);
    for i in 0..4 {
        assert_eq!(ctrls[i], 0);
        assert!(ctrls[i] >= 0);
    }
}

#[test]
fn non_rotor_channels_are_not_clamped() {
    // The same below-range value on a bidirectional channel goes negative.
    let raw = Some(PWM_DEFAULT_MIN_RAW - 200_000);
    let ctrls = normalize_actuator_outputs(&uniform(raw), 4);
    for i in 4..ACTUATOR_CHANNEL_COUNT {
        assert_eq!(ctrls[i], (PWM_DEFAULT_MIN_RAW - 200_000 - PWM_DEFAULT_CENTER_RAW) * 2);
        assert!(ctrls[i] < 0);
    }
}

#[test]
fn linear_maps_hit_exact_values() {
    // Rotor channel at three-quarters of the range; non-rotor at the same
    // raw value sits at half scale above the midpoint.
    let raw = Some(PWM_DEFAULT_MIN_RAW + 750_000);
    let ctrls = normalize_actuator_outputs(&uniform(raw), 4);
    assert_eq!(ctrls[0], 750_000);
    assert_eq!(ctrls[15], 500_000);
}

#[test]
fn rotor_count_splits_the_vector() {
    let raw = Some(PWM_DEFAULT_MAX_RAW);
    let ctrls = normalize_actuator_outputs(&uniform(raw), 6);
    for i in 0..6 {
        assert_eq!(ctrls[i], CONTROL_FULL_SCALE);
    }
    for i in 6..ACTUATOR_CHANNEL_COUNT {
        assert_eq!(ctrls[i], (PWM_DEFAULT_MAX_RAW - PWM_DEFAULT_CENTER_RAW) * 2);
    }
}

#[test]
fn applying_a_command_updates_shared_state() {
    let mut state = SimState::new(5_000_000);
    let raw = uniform(Some(PWM_DEFAULT_MAX_RAW));
    handle_actuator_outputs(&mut state, 777_000, &raw, 4);
    assert_eq!(state.last_actuator_timestamp, 777_000);
    assert_eq!(state.actuator_controls.len(), ACTUATOR_CHANNEL_COUNT);
    assert_eq!(state.actuator_controls[0], CONTROL_FULL_SCALE);
    // The feedback write never touches the clock or the time base.
    assert_eq!(state.simulated_usecs, 0);
    assert_eq!(state.abstime_offset, 5_000_000);
}
