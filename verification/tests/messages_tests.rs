use mavulator::messages::{encoded_len, kind_of_hash, msg_hash, MsgKind, UORB_MAGIC_V1};

fn all_kinds() -> Vec<MsgKind> {
    vec![
        MsgKind::SensorAccel,
        MsgKind::SensorGyro,
        MsgKind::SensorMag,
        MsgKind::SensorBaro,
        MsgKind::DifferentialPressure,
        MsgKind::VehicleAttitude,
        MsgKind::VehicleGpsPosition,
        MsgKind::BatteryStatus,
        MsgKind::TimesyncStatus,
        MsgKind::VehicleStatus,
        MsgKind::ActuatorOutputs,
    ]
}

#[test]
fn every_hash_resolves_to_its_kind() {
    for kind in all_kinds() {
        assert_eq!(kind_of_hash(msg_hash(&kind)), Some(kind));
    }
}

#[test]
fn hashes_are_pairwise_distinct() {
    let kinds = all_kinds();
    for i in 0..kinds.len() {
        for j in (i + 1)..kinds.len() {
            assert_ne!(msg_hash(&kinds[i]), msg_hash(&kinds[j]));
        }
    }
}

#[test]
fn unknown_hashes_resolve_to_nothing() {
    assert_eq!(kind_of_hash(0), None);
    assert_eq!(kind_of_hash(u32::MAX), None);
    assert_eq!(kind_of_hash(UORB_MAGIC_V1 as u32), None);
}

#[test]
fn encoded_lengths_are_fixed_per_kind() {
    assert_eq!(encoded_len(&MsgKind::SensorAccel), 62);
    assert_eq!(encoded_len(&MsgKind::SensorGyro), 62);
    assert_eq!(encoded_len(&MsgKind::SensorMag), 43);
    assert_eq!(encoded_len(&MsgKind::SensorBaro), 24);
    assert_eq!(encoded_len(&MsgKind::DifferentialPressure), 32);
    assert_eq!(encoded_len(&MsgKind::VehicleAttitude), 53);
    assert_eq!(encoded_len(&MsgKind::VehicleGpsPosition), 101);
    assert_eq!(encoded_len(&MsgKind::BatteryStatus), 94);
    assert_eq!(encoded_len(&MsgKind::TimesyncStatus), 36);
    assert_eq!(encoded_len(&MsgKind::VehicleStatus), 78);
    assert_eq!(encoded_len(&MsgKind::ActuatorOutputs), 76);
}
