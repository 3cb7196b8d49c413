//! The cadence scheduler: three independent buckets (fast, medium, slow),
//! each remembering the simulated timestamp of its last emission. On every
//! tick a bucket is due exactly when it has never emitted yet or when the
//! time elapsed since its last emission strictly exceeds its threshold;
//! due buckets are collected in a fixed order, fast first.

use vstd::prelude::*;
use crate::messages::MsgKind;

verus! {

/// Sentinel for "this bucket has never emitted yet"; such a bucket is due
/// on its first evaluation.
pub const NEVER_SENT: u64 = 0;

/// Threshold of the fast bucket (gyro, accel): about 400 Hz.
pub const FAST_CADENCE_MICROSECONDS: u64 = 2500;

/// Threshold of the medium bucket (mag, baro, airspeed, attitude): about
/// 100 Hz.
pub const MEDIUM_CADENCE_MICROSECONDS: u64 = 10000;

/// Threshold of the slow bucket (GPS, battery): about 5 Hz.
pub const SLOW_CADENCE_MICROSECONDS: u64 = 200000;

/// Per-bucket "last sent" bookkeeping, owned by the reporting side alone.
#[derive(Clone, Copy, PartialEq, Eq, Structural, Debug)]
pub struct CadenceScheduler {
    /// Simulated timestamp of the fast bucket's last emission.
    pub last_fast_cadence_send: u64,
    /// Simulated timestamp of the medium bucket's last emission.
    pub last_med_cadence_send: u64,
    /// Simulated timestamp of the slow bucket's last emission.
    pub last_slow_cadence_send: u64,
}

/// Microseconds elapsed from `since` to `now`, clamped at zero.
pub open spec fn spec_elapsed(now: u64, since: u64) -> int {
    if now >= since {
        now - since
    } else {
        0
    }
}

/// The due policy of one bucket: due when it has never emitted, or when
/// strictly more than `threshold` microseconds have elapsed since its
/// last emission.
pub open spec fn spec_due(last_send: u64, now: u64, threshold: u64) -> bool {
    last_send == NEVER_SENT || spec_elapsed(now, last_send) > threshold
}

/// The message kinds of the fast bucket, in emission order.
pub open spec fn spec_fast_cadence_kinds() -> Seq<MsgKind> {
    seq![MsgKind::SensorAccel, MsgKind::SensorGyro]
}

/// The message kinds of the medium bucket, in emission order.
pub open spec fn spec_med_cadence_kinds() -> Seq<MsgKind> {
    seq![
        MsgKind::SensorMag,
        MsgKind::SensorBaro,
        MsgKind::DifferentialPressure,
        MsgKind::VehicleAttitude,
    ]
}

/// The message kinds of the slow bucket, in emission order.
pub open spec fn spec_slow_cadence_kinds() -> Seq<MsgKind> {
    seq![MsgKind::VehicleGpsPosition, MsgKind::BatteryStatus]
}

/// The scheduler after one tick at `now`: every due bucket's "last sent"
/// advances to `now` itself (not to the threshold boundary), the rest
/// keep theirs.
pub open spec fn spec_step(s: CadenceScheduler, now: u64) -> CadenceScheduler {
    CadenceScheduler {
        last_fast_cadence_send: if spec_due(
            s.last_fast_cadence_send,
            now,
            FAST_CADENCE_MICROSECONDS,
        ) {
            now
        } else {
            s.last_fast_cadence_send
        },
        last_med_cadence_send: if spec_due(
            s.last_med_cadence_send,
            now,
            MEDIUM_CADENCE_MICROSECONDS,
        ) {
            now
        } else {
            s.last_med_cadence_send
        },
        last_slow_cadence_send: if spec_due(
            s.last_slow_cadence_send,
            now,
            SLOW_CADENCE_MICROSECONDS,
        ) {
            now
        } else {
            s.last_slow_cadence_send
        },
    }
}

/// The kinds a tick at `now` emits: each due bucket's group, fast first,
/// then medium, then slow; an empty sequence when nothing is due.
pub open spec fn spec_due_batch(s: CadenceScheduler, now: u64) -> Seq<MsgKind> {
    (if spec_due(s.last_fast_cadence_send, now, FAST_CADENCE_MICROSECONDS) {
        spec_fast_cadence_kinds()
    } else {
        Seq::empty()
    }) + (if spec_due(s.last_med_cadence_send, now, MEDIUM_CADENCE_MICROSECONDS) {
        spec_med_cadence_kinds()
    } else {
        Seq::empty()
    }) + (if spec_due(s.last_slow_cadence_send, now, SLOW_CADENCE_MICROSECONDS) {
        spec_slow_cadence_kinds()
    } else {
        Seq::empty()
    })
}

impl CadenceScheduler {
    /// A fresh scheduler: no bucket has emitted yet, so all three are due
    /// on the first tick.
    pub fn new() -> (s: Self)
        ensures
            s.last_fast_cadence_send == NEVER_SENT,
            s.last_med_cadence_send == NEVER_SENT,
            s.last_slow_cadence_send == NEVER_SENT,
    {
        CadenceScheduler {
            last_fast_cadence_send: NEVER_SENT,
            last_med_cadence_send: NEVER_SENT,
            last_slow_cadence_send: NEVER_SENT,
        }
    }

    /// Evaluates all three buckets at `now`, in fast-medium-slow order,
    /// returning the kinds due this tick and advancing the bookkeeping of
    /// every bucket that fired.
    pub fn collect_due(&mut self, now: u64) -> (batch: Vec<MsgKind>)
        ensures
            *final(self) == spec_step(*old(self), now),
            batch@ == spec_due_batch(*old(self), now),
    {
        let mut batch: Vec<MsgKind> = Vec::new();
        if self.last_fast_cadence_send == NEVER_SENT || elapsed_clamped(
            now,
            self.last_fast_cadence_send,
        ) > FAST_CADENCE_MICROSECONDS {
            batch.push(MsgKind::SensorAccel);
            batch.push(MsgKind::SensorGyro);
            self.last_fast_cadence_send = now;
        }
        if self.last_med_cadence_send == NEVER_SENT || elapsed_clamped(
            now,
            self.last_med_cadence_send,
        ) > MEDIUM_CADENCE_MICROSECONDS {
            batch.push(MsgKind::SensorMag);
            batch.push(MsgKind::SensorBaro);
            batch.push(MsgKind::DifferentialPressure);
            batch.push(MsgKind::VehicleAttitude);
            self.last_med_cadence_send = now;
        }
        if self.last_slow_cadence_send == NEVER_SENT || elapsed_clamped(
            now,
            self.last_slow_cadence_send,
        ) > SLOW_CADENCE_MICROSECONDS {
            batch.push(MsgKind::VehicleGpsPosition);
            batch.push(MsgKind::BatteryStatus);
            self.last_slow_cadence_send = now;
        }
        assert(batch@ =~= spec_due_batch(*old(self), now));
        batch
    }
}

/// Microseconds elapsed from `since` to `now`, clamped at zero.
pub fn elapsed_clamped(now: u64, since: u64) -> (e: u64)
    ensures
        e == spec_elapsed(now, since),
{
    if now >= since {
        now - since
    } else {
        0
    }
}

/// Cadence law: a bucket fires on its first evaluation (never sent);
/// thereafter it fires if and only if the time elapsed since its last
/// firing strictly exceeds its threshold; and a bucket that just fired at
/// a tick is not due again at that same tick (once the clock has left
/// zero, where "last sent" is indistinguishable from never-sent).
pub proof fn lemma_cadence_correctness(last_send: u64, now: u64, threshold: u64)
    ensures
        last_send == NEVER_SENT ==> spec_due(last_send, now, threshold),
        last_send != NEVER_SENT ==> (spec_due(last_send, now, threshold) <==> spec_elapsed(
            now,
            last_send,
        ) > threshold),
        now != NEVER_SENT && threshold > 0 ==> !spec_due(now, now, threshold),
{
}

/// No bucket fires twice for the same tick: collecting again at the same
/// `now` immediately after a collection yields an empty batch. The tick
/// must lie after the clock's zero point, where a bucket that fired would
/// look never-sent again.
pub proof fn lemma_no_double_fire(s: CadenceScheduler, now: u64)
    requires
        now != NEVER_SENT,
    ensures
        spec_due_batch(spec_step(s, now), now) =~= Seq::<MsgKind>::empty(),
{
}

/// The rank of a kind's bucket: fast before medium before slow; kinds
/// outside every bucket rank last.
pub open spec fn spec_bucket_rank(k: MsgKind) -> int {
    if spec_fast_cadence_kinds().contains(k) {
        0
    } else if spec_med_cadence_kinds().contains(k) {
        1
    } else if spec_slow_cadence_kinds().contains(k) {
        2
    } else {
        3
    }
}

/// Batch ordering law: within one tick's batch, every fast-bucket kind
/// precedes every medium-bucket kind, which precedes every slow-bucket
/// kind.
pub proof fn lemma_batch_ordering(s: CadenceScheduler, now: u64)
    ensures
        forall|i: int, j: int|
            0 <= i < j < spec_due_batch(s, now).len() ==> spec_bucket_rank(
                #[trigger] spec_due_batch(s, now)[i],
            ) <= spec_bucket_rank(#[trigger] spec_due_batch(s, now)[j]),
{
    let batch = spec_due_batch(s, now);
    assert forall|i: int, j: int| 0 <= i < j < batch.len() implies spec_bucket_rank(
        #[trigger] batch[i],
    ) <= spec_bucket_rank(#[trigger] batch[j]) by {
        assert(spec_fast_cadence_kinds().contains(MsgKind::SensorAccel));
        assert(spec_fast_cadence_kinds().contains(MsgKind::SensorGyro));
        assert(spec_med_cadence_kinds().contains(MsgKind::SensorMag));
        assert(spec_med_cadence_kinds().contains(MsgKind::SensorBaro));
        assert(spec_med_cadence_kinds().contains(MsgKind::DifferentialPressure));
        assert(spec_med_cadence_kinds().contains(MsgKind::VehicleAttitude));
        assert(spec_slow_cadence_kinds().contains(MsgKind::VehicleGpsPosition));
        assert(spec_slow_cadence_kinds().contains(MsgKind::BatteryStatus));
    }
}

} // verus!
