//! The closed set of message kinds the bridge speaks, with the constants
//! the wire format keys them by: a type hash unique to each kind and the
//! fixed encoded length of each kind's payload.

use vstd::prelude::*;

verus! {

/// Magic constant identifying the wire-format revision; first field of
/// every frame header.
pub const UORB_MAGIC_V1: u16 = 0x554F;

/// One tag per supported telemetry or command payload kind.
#[derive(Clone, Copy, PartialEq, Eq, Structural, Debug)]
pub enum MsgKind {
    SensorAccel,
    SensorGyro,
    SensorMag,
    SensorBaro,
    DifferentialPressure,
    VehicleAttitude,
    VehicleGpsPosition,
    BatteryStatus,
    TimesyncStatus,
    VehicleStatus,
    ActuatorOutputs,
}

pub const SENSOR_ACCEL_HASH: u32 = 0x2A1D5E03;
pub const SENSOR_GYRO_HASH: u32 = 0x7C40B911;
pub const SENSOR_MAG_HASH: u32 = 0x19F2C688;
pub const SENSOR_BARO_HASH: u32 = 0x5B07AD42;
pub const DIFFERENTIAL_PRESSURE_HASH: u32 = 0x63D19A2F;
pub const VEHICLE_ATTITUDE_HASH: u32 = 0x0E85F174;
pub const VEHICLE_GPS_POSITION_HASH: u32 = 0x448C23B6;
pub const BATTERY_STATUS_HASH: u32 = 0x91DE06C5;
pub const TIMESYNC_STATUS_HASH: u32 = 0x3F6B84DA;
pub const VEHICLE_STATUS_HASH: u32 = 0x86A3129E;
pub const ACTUATOR_OUTPUTS_HASH: u32 = 0x54E9C07B;

/// The type hash that identifies `k` on the wire.
pub open spec fn spec_msg_hash(k: MsgKind) -> u32 {
    match k {
        MsgKind::SensorAccel => SENSOR_ACCEL_HASH,
        MsgKind::SensorGyro => SENSOR_GYRO_HASH,
        MsgKind::SensorMag => SENSOR_MAG_HASH,
        MsgKind::SensorBaro => SENSOR_BARO_HASH,
        MsgKind::DifferentialPressure => DIFFERENTIAL_PRESSURE_HASH,
        MsgKind::VehicleAttitude => VEHICLE_ATTITUDE_HASH,
        MsgKind::VehicleGpsPosition => VEHICLE_GPS_POSITION_HASH,
        MsgKind::BatteryStatus => BATTERY_STATUS_HASH,
        MsgKind::TimesyncStatus => TIMESYNC_STATUS_HASH,
        MsgKind::VehicleStatus => VEHICLE_STATUS_HASH,
        MsgKind::ActuatorOutputs => ACTUATOR_OUTPUTS_HASH,
    }
}

/// The kind a receiver recognizes under the hash `h`, if any.
pub open spec fn spec_kind_of_hash(h: u32) -> Option<MsgKind> {
    if h == SENSOR_ACCEL_HASH {
        Some(MsgKind::SensorAccel)
    } else if h == SENSOR_GYRO_HASH {
        Some(MsgKind::SensorGyro)
    } else if h == SENSOR_MAG_HASH {
        Some(MsgKind::SensorMag)
    } else if h == SENSOR_BARO_HASH {
        Some(MsgKind::SensorBaro)
    } else if h == DIFFERENTIAL_PRESSURE_HASH {
        Some(MsgKind::DifferentialPressure)
    } else if h == VEHICLE_ATTITUDE_HASH {
        Some(MsgKind::VehicleAttitude)
    } else if h == VEHICLE_GPS_POSITION_HASH {
        Some(MsgKind::VehicleGpsPosition)
    } else if h == BATTERY_STATUS_HASH {
        Some(MsgKind::BatteryStatus)
    } else if h == TIMESYNC_STATUS_HASH {
        Some(MsgKind::TimesyncStatus)
    } else if h == VEHICLE_STATUS_HASH {
        Some(MsgKind::VehicleStatus)
    } else if h == ACTUATOR_OUTPUTS_HASH {
        Some(MsgKind::ActuatorOutputs)
    } else {
        None
    }
}

/// The fixed byte length of each kind's encoded payload.
pub open spec fn spec_encoded_len(k: MsgKind) -> u16 {
    match k {
        MsgKind::SensorAccel => 62,
        MsgKind::SensorGyro => 62,
        MsgKind::SensorMag => 43,
        MsgKind::SensorBaro => 24,
        MsgKind::DifferentialPressure => 32,
        MsgKind::VehicleAttitude => 53,
        MsgKind::VehicleGpsPosition => 101,
        MsgKind::BatteryStatus => 94,
        MsgKind::TimesyncStatus => 36,
        MsgKind::VehicleStatus => 78,
        MsgKind::ActuatorOutputs => 76,
    }
}

/// Returns the type hash that identifies `k` on the wire.
pub fn msg_hash(k: &MsgKind) -> (h: u32)
    ensures
        h == spec_msg_hash(*k),
{
    match k {
        MsgKind::SensorAccel => SENSOR_ACCEL_HASH,
        MsgKind::SensorGyro => SENSOR_GYRO_HASH,
        MsgKind::SensorMag => SENSOR_MAG_HASH,
        MsgKind::SensorBaro => SENSOR_BARO_HASH,
        MsgKind::DifferentialPressure => DIFFERENTIAL_PRESSURE_HASH,
        MsgKind::VehicleAttitude => VEHICLE_ATTITUDE_HASH,
        MsgKind::VehicleGpsPosition => VEHICLE_GPS_POSITION_HASH,
        MsgKind::BatteryStatus => BATTERY_STATUS_HASH,
        MsgKind::TimesyncStatus => TIMESYNC_STATUS_HASH,
        MsgKind::VehicleStatus => VEHICLE_STATUS_HASH,
        MsgKind::ActuatorOutputs => ACTUATOR_OUTPUTS_HASH,
    }
}

/// Looks a hash up in the receiver's table of known kinds.
pub fn kind_of_hash(h: u32) -> (k: Option<MsgKind>)
    ensures
        k == spec_kind_of_hash(h),
{
    if h == SENSOR_ACCEL_HASH {
        Some(MsgKind::SensorAccel)
    } else if h == SENSOR_GYRO_HASH {
        Some(MsgKind::SensorGyro)
    } else if h == SENSOR_MAG_HASH {
        Some(MsgKind::SensorMag)
    } else if h == SENSOR_BARO_HASH {
        Some(MsgKind::SensorBaro)
    } else if h == DIFFERENTIAL_PRESSURE_HASH {
        Some(MsgKind::DifferentialPressure)
    } else if h == VEHICLE_ATTITUDE_HASH {
        Some(MsgKind::VehicleAttitude)
    } else if h == VEHICLE_GPS_POSITION_HASH {
        Some(MsgKind::VehicleGpsPosition)
    } else if h == BATTERY_STATUS_HASH {
        Some(MsgKind::BatteryStatus)
    } else if h == TIMESYNC_STATUS_HASH {
        Some(MsgKind::TimesyncStatus)
    } else if h == VEHICLE_STATUS_HASH {
        Some(MsgKind::VehicleStatus)
    } else if h == ACTUATOR_OUTPUTS_HASH {
        Some(MsgKind::ActuatorOutputs)
    } else {
        None
    }
}

/// Returns the fixed encoded length of `k`'s payload.
pub fn encoded_len(k: &MsgKind) -> (n: u16)
    ensures
        n == spec_encoded_len(*k),
{
    match k {
        MsgKind::SensorAccel => 62,
        MsgKind::SensorGyro => 62,
        MsgKind::SensorMag => 43,
        MsgKind::SensorBaro => 24,
        MsgKind::DifferentialPressure => 32,
        MsgKind::VehicleAttitude => 53,
        MsgKind::VehicleGpsPosition => 101,
        MsgKind::BatteryStatus => 94,
        MsgKind::TimesyncStatus => 36,
        MsgKind::VehicleStatus => 78,
        MsgKind::ActuatorOutputs => 76,
    }
}

/// Each kind's hash resolves back to that kind: the hash table has no
/// collisions among supported kinds.
pub proof fn lemma_hash_identifies_kind(k: MsgKind)
    ensures
        spec_kind_of_hash(spec_msg_hash(k)) == Some(k),
{
}

} // verus!
