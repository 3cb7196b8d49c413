//! The reporting side: plans which frames to emit. A session begins with
//! exactly one time-synchronization message carrying the absolute-time
//! offset; after that first send succeeds the loop cycles, advancing the
//! shared clock once per tick and emitting every due bucket's messages,
//! in bucket order, each as its own frame. Any send failure stops the
//! loop for good.
//!
//! The blocking transport work stays with the caller; everything decided
//! here — the headers, their order, the clock step, the phase — is
//! verified.

use vstd::prelude::*;
use crate::cadence::{CadenceScheduler, spec_step, spec_due_batch};
use crate::cadence::{spec_fast_cadence_kinds, spec_med_cadence_kinds, spec_slow_cadence_kinds};
use crate::frame::{FrameHeader, spec_header_well_formed};
use crate::messages::{MsgKind, UORB_MAGIC_V1, spec_msg_hash, spec_encoded_len};
use crate::messages::{msg_hash, encoded_len, lemma_hash_identifies_kind};
use crate::state::SimState;
use crate::state::increment_simulated_time;

verus! {

/// The header under which a message of kind `k` is framed at simulated
/// time `timestamp`.
pub open spec fn spec_message_header(k: MsgKind, instance_id: u8, timestamp: u64) -> FrameHeader {
    FrameHeader {
        version: UORB_MAGIC_V1,
        hash: spec_msg_hash(k),
        timestamp,
        instance_id,
        payload_len: spec_encoded_len(k),
    }
}

/// Builds the frame header for one message of kind `k`; always a header
/// the receiving side accepts.
pub fn message_header(k: &MsgKind, instance_id: u8, timestamp: u64) -> (h: FrameHeader)
    ensures
        h == spec_message_header(*k, instance_id, timestamp),
        spec_header_well_formed(h),
{
    proof {
        lemma_hash_identifies_kind(*k);
    }
    FrameHeader {
        version: UORB_MAGIC_V1,
        hash: msg_hash(k),
        timestamp,
        instance_id,
        payload_len: encoded_len(k),
    }
}

/// The session's opening message: one time-synchronization frame whose
/// timestamp is the absolute-time offset, establishing the shared time
/// base.
pub fn first_sync_header(state: &SimState) -> (h: FrameHeader)
    ensures
        h == spec_message_header(MsgKind::TimesyncStatus, 0, state.abstime_offset),
        spec_header_well_formed(h),
{
    message_header(&MsgKind::TimesyncStatus, 0, state.abstime_offset)
}

/// The fast bucket's message group (accelerometer, gyro), headed at the
/// state's current simulated time.
pub fn collect_fast_cadence_sensors(state: &SimState) -> (r: Vec<FrameHeader>)
    ensures
        r@ == spec_fast_cadence_kinds().map_values(
            |k: MsgKind| spec_message_header(k, 0, state.simulated_usecs),
        ),
{
    let t = state.get_simulated_usecs();
    let mut r: Vec<FrameHeader> = Vec::new();
    r.push(message_header(&MsgKind::SensorAccel, 0, t));
    r.push(message_header(&MsgKind::SensorGyro, 0, t));
    assert(r@ =~= spec_fast_cadence_kinds().map_values(
        |k: MsgKind| spec_message_header(k, 0, state.simulated_usecs),
    ));
    r
}

/// The medium bucket's message group (magnetometer, barometer, airspeed,
/// attitude), headed at the state's current simulated time.
pub fn collect_med_cadence_sensors(state: &SimState) -> (r: Vec<FrameHeader>)
    ensures
        r@ == spec_med_cadence_kinds().map_values(
            |k: MsgKind| spec_message_header(k, 0, state.simulated_usecs),
        ),
{
    let t = state.get_simulated_usecs();
    let mut r: Vec<FrameHeader> = Vec::new();
    r.push(message_header(&MsgKind::SensorMag, 0, t));
    r.push(message_header(&MsgKind::SensorBaro, 0, t));
    r.push(message_header(&MsgKind::DifferentialPressure, 0, t));
    r.push(message_header(&MsgKind::VehicleAttitude, 0, t));
    assert(r@ =~= spec_med_cadence_kinds().map_values(
        |k: MsgKind| spec_message_header(k, 0, state.simulated_usecs),
    ));
    r
}

/// The slow bucket's message group (GPS position, battery status),
/// headed at the state's current simulated time.
pub fn collect_slow_cadence_sensors(state: &SimState) -> (r: Vec<FrameHeader>)
    ensures
        r@ == spec_slow_cadence_kinds().map_values(
            |k: MsgKind| spec_message_header(k, 0, state.simulated_usecs),
        ),
{
    let t = state.get_simulated_usecs();
    let mut r: Vec<FrameHeader> = Vec::new();
    r.push(message_header(&MsgKind::VehicleGpsPosition, 0, t));
    r.push(message_header(&MsgKind::BatteryStatus, 0, t));
    assert(r@ =~= spec_slow_cadence_kinds().map_values(
        |k: MsgKind| spec_message_header(k, 0, state.simulated_usecs),
    ));
    r
}

/// One cadence tick: advances the shared clock to `now_micros`, asks the
/// scheduler which buckets are due at that time, and returns the headers
/// of every due message, fast bucket first, all stamped with the tick's
/// time. An empty result means nothing to send this tick, not an error.
pub fn collect_messages(state: &mut SimState, sched: &mut CadenceScheduler, now_micros: u64) -> (r:
    Vec<FrameHeader>)
    requires
        now_micros >= old(state).simulated_usecs,
    ensures
        final(state).simulated_usecs == now_micros,
        final(state).abstime_offset == old(state).abstime_offset,
        final(state).actuator_controls == old(state).actuator_controls,
        final(state).last_actuator_timestamp == old(state).last_actuator_timestamp,
        *final(sched) == spec_step(*old(sched), now_micros),
        r@ == spec_due_batch(*old(sched), now_micros).map_values(
            |k: MsgKind| spec_message_header(k, 0, now_micros),
        ),
{
    increment_simulated_time(state, now_micros);
    let time_check = state.get_simulated_usecs();
    let kinds = sched.collect_due(time_check);
    let ghost batch = spec_due_batch(*old(sched), now_micros);
    let mut r: Vec<FrameHeader> = Vec::new();
    let mut i: usize = 0;
    while i < kinds.len()
        invariant
            i <= kinds@.len(),
            kinds@ == batch,
            r@ == batch.take(i as int).map_values(
                |k: MsgKind| spec_message_header(k, 0, now_micros),
            ),
        decreases kinds@.len() - i,
    {
        r.push(message_header(&kinds[i], 0, now_micros));
        proof {
            assert(batch.take(i + 1) =~= batch.take(i as int).push(batch[i as int]));
            assert(batch.take(i + 1).map_values(|k: MsgKind| spec_message_header(k, 0, now_micros))
                =~= batch.take(i as int).map_values(
                |k: MsgKind| spec_message_header(k, 0, now_micros),
            ).push(spec_message_header(batch[i as int], 0, now_micros)));
        }
        i = i + 1;
    }
    proof {
        assert(batch.take(batch.len() as int) =~= batch);
    }
    r
}

/// Round trip for every supported message kind: a frame headed by
/// `message_header` and carrying a payload of the kind's encoded length
/// decodes back to the same header and payload, whatever bytes follow
/// it on the wire.
pub proof fn lemma_kind_round_trip(
    k: MsgKind,
    instance_id: u8,
    timestamp: u64,
    payload: Seq<u8>,
    rest: Seq<u8>,
)
    requires
        payload.len() == spec_encoded_len(k),
    ensures
        crate::frame::spec_decode_frame(
            crate::frame::spec_frame_bytes(spec_message_header(k, instance_id, timestamp), payload)
                + rest,
        ) == Ok::<_, crate::frame::FrameError>(
            (
                spec_message_header(k, instance_id, timestamp),
                payload,
                crate::frame::HEADER_LEN + spec_encoded_len(k) as int,
            ),
        ),
{
    lemma_hash_identifies_kind(k);
    crate::frame::lemma_frame_round_trip(
        spec_message_header(k, instance_id, timestamp),
        payload,
        rest,
    );
}

/// The reporting loop's phase: first the one-time synchronization send,
/// then cadence cycling; a failed send of either sort stops the loop.
#[derive(Clone, Copy, PartialEq, Eq, Structural, Debug)]
pub enum ReportingPhase {
    /// The opening time-synchronization message has not been sent yet.
    AwaitFirstSync,
    /// The session time base is established; cadence ticks run.
    Cycling,
    /// A send failed; the loop has terminated and never resumes.
    Stopped,
}

/// The phase after a send completes: failure stops the loop from any
/// phase; a successful first sync enters cycling, which then persists.
pub open spec fn spec_after_send(phase: ReportingPhase, send_ok: bool) -> ReportingPhase {
    if !send_ok {
        ReportingPhase::Stopped
    } else {
        match phase {
            ReportingPhase::AwaitFirstSync => ReportingPhase::Cycling,
            ReportingPhase::Cycling => ReportingPhase::Cycling,
            ReportingPhase::Stopped => ReportingPhase::Stopped,
        }
    }
}

/// Advances the reporting phase with the outcome of a send.
pub fn after_send(phase: &ReportingPhase, send_ok: bool) -> (p: ReportingPhase)
    ensures
        p == spec_after_send(*phase, send_ok),
{
    if !send_ok {
        ReportingPhase::Stopped
    } else {
        match phase {
            ReportingPhase::AwaitFirstSync => ReportingPhase::Cycling,
            ReportingPhase::Cycling => ReportingPhase::Cycling,
            ReportingPhase::Stopped => ReportingPhase::Stopped,
        }
    }
}

} // verus!
