use mavulator::cadence::{
    CadenceScheduler, FAST_CADENCE_MICROSECONDS, MEDIUM_CADENCE_MICROSECONDS, NEVER_SENT,
    SLOW_CADENCE_MICROSECONDS,
};
use mavulator::messages::MsgKind;

fn full_batch() -> Vec<MsgKind> {
    vec![
        MsgKind::SensorAccel,
        MsgKind::SensorGyro,
        MsgKind::SensorMag,
        MsgKind::SensorBaro,
        MsgKind::DifferentialPressure,
        MsgKind::VehicleAttitude,
        MsgKind::VehicleGpsPosition,
        MsgKind::BatteryStatus,
    ]
}

#[test]
fn first_tick_fires_every_bucket() {
    let mut sched = CadenceScheduler::new();
    assert_eq!(sched.last_fast_cadence_send, NEVER_SENT);
    let batch = sched.collect_due(1000);
    assert_eq!(batch, full_batch());
    assert_eq!(sched.last_fast_cadence_send, 1000);
    assert_eq!(sched.last_med_cadence_send, 1000);
    assert_eq!(sched.last_slow_cadence_send, 1000);
}

#[test]
fn no_bucket_fires_twice_for_the_same_tick() {
    let mut sched = CadenceScheduler::new();
    let first = sched.collect_due(5000);
    assert_eq!(first.len(), 8);
    let again = sched.collect_due(5000);
    assert_eq!(again.len(), 0);
}

#[test]
fn bucket_fires_only_strictly_past_its_threshold() {
    let mut sched = CadenceScheduler::new();
    let start: u64 = 1000;
    sched.collect_due(start);

    // Elapsed exactly equal to the fast threshold: nothing fires.
    let at_boundary = sched.collect_due(start + FAST_CADENCE_MICROSECONDS);
    assert_eq!(at_boundary.len(), 0);

    // One microsecond past the fast threshold: only the fast bucket.
    let past = sched.collect_due(start + FAST_CADENCE_MICROSECONDS + 1);
    assert_eq!(past, vec![MsgKind::SensorAccel, MsgKind::SensorGyro]);
}

#[test]
fn medium_and_slow_fire_at_their_own_cadence() {
    let mut sched = CadenceScheduler::new();
    let start: u64 = 1000;
    sched.collect_due(start);

    let med_due = sched.collect_due(start + MEDIUM_CADENCE_MICROSECONDS + 1);
    assert_eq!(
        med_due,
        vec![
            MsgKind::SensorAccel,
            MsgKind::SensorGyro,
            MsgKind::SensorMag,
            MsgKind::SensorBaro,
            MsgKind::DifferentialPressure,
            MsgKind::VehicleAttitude,
        ]
    );

    let mut sched2 = CadenceScheduler::new();
    sched2.collect_due(start);
    let all_due = sched2.collect_due(start + SLOW_CADENCE_MICROSECONDS + 1);
    assert_eq!(all_due, full_batch());
}

#[test]
fn cadence_advances_to_tick_time_not_threshold_boundary() {
    let mut sched = CadenceScheduler::new();
    sched.collect_due(1000);
    let late: u64 = 1000 + 3 * FAST_CADENCE_MICROSECONDS;
    let batch = sched.collect_due(late);
    assert_eq!(batch, vec![MsgKind::SensorAccel, MsgKind::SensorGyro]);
    // Bookkeeping drifts forward to the tick's own time.
    assert_eq!(sched.last_fast_cadence_send, late);
}

#[test]
fn batch_keeps_fast_before_medium_before_slow() {
    let mut sched = CadenceScheduler::new();
    let batch = sched.collect_due(42);
    let rank = |k: &MsgKind| -> u32 {
        match k {
            MsgKind::SensorAccel | MsgKind::SensorGyro => 0,
            MsgKind::SensorMag
            | MsgKind::SensorBaro
            | MsgKind::DifferentialPressure
            | MsgKind::VehicleAttitude => 1,
            MsgKind::VehicleGpsPosition | MsgKind::BatteryStatus => 2,
            _ => 3,
        }
    };
    for i in 0..batch.len() {
        for j in (i + 1)..batch.len() {
            assert!(rank(&batch[i]) <= rank(&batch[j]));
        }
    }
}

#[test]
fn idle_tick_yields_empty_batch() {
    let mut sched = CadenceScheduler::new();
    sched.collect_due(100000);
    let idle = sched.collect_due(100001);
    assert_eq!(idle.len(), 0);
}
