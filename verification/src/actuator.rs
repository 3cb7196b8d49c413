//! Normalization of raw actuator commands. Raw values arrive as PWM
//! pulse widths; the logic here works on a fixed-point representation in
//! thousandths of a microsecond, so every step of the policy is exact. A
//! reading that is not a number carries no fixed-point value and is
//! `None`.
//!
//! The policy: a missing or at-or-below-half-minimum raw value is
//! inactive and normalizes to zero. Channels below the rotor count map
//! linearly from the raw range [min, max] onto [0, 1], clamped at zero on
//! the low side and never negative. Channels at or above the rotor count
//! map linearly onto [-1, 1] around the raw range's midpoint, unclamped.
//!
//! Normalized values are expressed in millionths of full scale, and one
//! full scale equals the width of the raw range, so both linear maps are
//! exact: a rotor channel's control is the raw excess over the minimum,
//! and a bidirectional channel's control is twice the raw offset from
//! the midpoint.

use vstd::prelude::*;
use crate::state::ACTUATOR_CHANNEL_COUNT;

verus! {

/// The minimum valid raw PWM value, in thousandths of a microsecond.
pub const PWM_DEFAULT_MIN_RAW: i64 = 1000000;

/// The maximum valid raw PWM value, in thousandths of a microsecond.
pub const PWM_DEFAULT_MAX_RAW: i64 = 2000000;

/// Half of the minimum valid raw value: at or below it a channel is
/// treated as inactive.
pub const PWM_DEFAULT_MIN_HALF_RAW: i64 = 500000;

/// The midpoint of the valid raw range.
pub const PWM_DEFAULT_CENTER_RAW: i64 = 1500000;

/// One full scale of normalized control, in millionths: a control value
/// of `CONTROL_FULL_SCALE` means 1.0. It equals the raw range's width,
/// which keeps the linear maps exact.
pub const CONTROL_FULL_SCALE: i64 = PWM_DEFAULT_MAX_RAW - PWM_DEFAULT_MIN_RAW;

/// A bound on the magnitude of raw values the normalizer accepts, far
/// beyond any physical pulse width; it keeps the fixed-point arithmetic
/// inside `i64`.
pub const RAW_MAGNITUDE_BOUND: i64 = 0x1000000000000000;

/// The normalized control of one channel under the policy above.
/// `None` stands for a raw reading that is not a number.
pub open spec fn spec_normalize_channel(raw: Option<i64>, is_rotor: bool) -> int {
    match raw {
        Option::None => 0,
        Option::Some(v) => {
            if v <= PWM_DEFAULT_MIN_HALF_RAW {
                0
            } else if is_rotor {
                if v - PWM_DEFAULT_MIN_RAW < 0 {
                    0
                } else {
                    v - PWM_DEFAULT_MIN_RAW
                }
            } else {
                (v - PWM_DEFAULT_CENTER_RAW) * 2
            }
        },
    }
}

/// Rotor channels are one-sided: whatever the raw value, a rotor
/// channel's normalized control is never negative; and while the raw
/// value stays within the valid range's top, the control stays at or
/// below full scale.
pub proof fn lemma_rotor_control_one_sided(raw: Option<i64>)
    ensures
        spec_normalize_channel(raw, true) >= 0,
        raw is Some && raw->Some_0 <= PWM_DEFAULT_MAX_RAW ==> spec_normalize_channel(raw, true)
            <= CONTROL_FULL_SCALE,
{
}

/// Normalizes the full raw command vector: channels below `nrotors` are
/// rotor channels on [0, 1], the rest are bidirectional on [-1, 1].
pub fn normalize_actuator_outputs(pwm: &Vec<Option<i64>>, nrotors: usize) -> (ctrls: Vec<i64>)
    requires
        pwm@.len() == ACTUATOR_CHANNEL_COUNT,
        forall|i: int|
            0 <= i < pwm@.len() && (#[trigger] pwm@[i]) is Some ==> -RAW_MAGNITUDE_BOUND
                <= pwm@[i]->Some_0 <= RAW_MAGNITUDE_BOUND,
    ensures
        ctrls@.len() == ACTUATOR_CHANNEL_COUNT,
        forall|i: int|
            0 <= i < ctrls@.len() ==> #[trigger] ctrls@[i] == spec_normalize_channel(
                pwm@[i],
                i < nrotors,
            ),
{
    let mut ctrls: Vec<i64> = Vec::new();
    let mut i: usize = 0;
    while i < ACTUATOR_CHANNEL_COUNT
        invariant
            i <= ACTUATOR_CHANNEL_COUNT,
            pwm@.len() == ACTUATOR_CHANNEL_COUNT,
            forall|j: int|
                0 <= j < pwm@.len() && (#[trigger] pwm@[j]) is Some ==> -RAW_MAGNITUDE_BOUND
                    <= pwm@[j]->Some_0 <= RAW_MAGNITUDE_BOUND,
            ctrls@.len() == i,
            forall|j: int|
                0 <= j < i ==> #[trigger] ctrls@[j] == spec_normalize_channel(
                    pwm@[j],
                    j < nrotors,
                ),
        decreases ACTUATOR_CHANNEL_COUNT - i,
    {
        let c: i64 = match pwm[i] {
            Option::None => 0,
            Option::Some(v) => {
                if v <= PWM_DEFAULT_MIN_HALF_RAW {
                    0
                } else if i < nrotors {
                    if v - PWM_DEFAULT_MIN_RAW < 0 {
                        0
                    } else {
                        v - PWM_DEFAULT_MIN_RAW
                    }
                } else {
                    (v - PWM_DEFAULT_CENTER_RAW) * 2
                }
            },
        };
        ctrls.push(c);
        i = i + 1;
    }
    ctrls
}

} // verus!
