use mavulator::frame::{
    decode_all_frames, decode_frame, encode_frame, encode_frames, FrameError, FrameHeader,
    HEADER_LEN,
};
use mavulator::messages::{encoded_len, msg_hash, MsgKind, UORB_MAGIC_V1};
use mavulator::reporting::message_header;

fn all_kinds() -> Vec<MsgKind> {
    vec![
        MsgKind::SensorAccel,
        MsgKind::SensorGyro,
        MsgKind::SensorMag,
        MsgKind::SensorBaro,
        MsgKind::DifferentialPressure,
        MsgKind::VehicleAttitude,
        MsgKind::VehicleGpsPosition,
        MsgKind::BatteryStatus,
        MsgKind::TimesyncStatus,
        MsgKind::VehicleStatus,
        MsgKind::ActuatorOutputs,
    ]
}

fn payload_for(kind: &MsgKind, fill: u8) -> Vec<u8> {
    let n = encoded_len(kind) as usize;
    let mut p = Vec::new();
    for i in 0..n {
        p.push(fill.wrapping_add(i as u8));
    }
    p
}

#[test]
fn round_trip_every_kind() {
    for (idx, kind) in all_kinds().iter().enumerate() {
        let header = message_header(kind, 3, 987654321 + idx as u64);
        let payload = payload_for(kind, idx as u8);
        let bytes = encode_frame(&header, &payload);
        assert_eq!(bytes.len(), HEADER_LEN + payload.len());
        let (got_header, got_payload, consumed) =
            decode_frame(&bytes, 0).expect("decode must succeed");
        assert_eq!(got_header, header);
        assert_eq!(got_payload, payload);
        assert_eq!(consumed, bytes.len());
    }
}

#[test]
fn round_trip_back_to_back() {
    let mut frames: Vec<(FrameHeader, Vec<u8>)> = Vec::new();
    let kinds = all_kinds();
    for i in 0..5usize {
        let kind = &kinds[i];
        let header = message_header(kind, 0, 1000 + i as u64);
        let payload = payload_for(kind, 7 * i as u8);
        frames.push((header, payload));
    }
    let stream = encode_frames(&frames);
    let decoded = decode_all_frames(&stream).expect("stream must decode");
    assert_eq!(decoded.len(), 5);
    for i in 0..5usize {
        assert_eq!(decoded[i].0, frames[i].0);
        assert_eq!(decoded[i].1, frames[i].1);
    }
}

#[test]
fn empty_stream_decodes_to_no_frames() {
    let empty: Vec<u8> = Vec::new();
    let decoded = decode_all_frames(&empty).expect("empty stream is zero frames");
    assert_eq!(decoded.len(), 0);
}

#[test]
fn bad_magic_is_rejected() {
    let kind = MsgKind::SensorGyro;
    let header = FrameHeader {
        version: UORB_MAGIC_V1 ^ 1,
        hash: msg_hash(&kind),
        timestamp: 42,
        instance_id: 0,
        payload_len: encoded_len(&kind),
    };
    let payload = payload_for(&kind, 0);
    let bytes = encode_frame(&header, &payload);
    assert_eq!(decode_frame(&bytes, 0), Err(FrameError::BadMagic));
}

#[test]
fn unknown_hash_is_rejected() {
    let kind = MsgKind::SensorBaro;
    let header = FrameHeader {
        version: UORB_MAGIC_V1,
        hash: 0xDEAD_BEEF,
        timestamp: 42,
        instance_id: 0,
        payload_len: encoded_len(&kind),
    };
    let payload = payload_for(&kind, 0);
    let bytes = encode_frame(&header, &payload);
    assert_eq!(decode_frame(&bytes, 0), Err(FrameError::UnknownHash));
}

#[test]
fn wrong_payload_length_is_rejected() {
    let kind = MsgKind::SensorBaro;
    let header = FrameHeader {
        version: UORB_MAGIC_V1,
        hash: msg_hash(&kind),
        timestamp: 42,
        instance_id: 0,
        payload_len: encoded_len(&kind) + 1,
    };
    let mut payload = payload_for(&kind, 0);
    payload.push(0);
    let bytes = encode_frame(&header, &payload);
    assert_eq!(decode_frame(&bytes, 0), Err(FrameError::BadLength));
}

#[test]
fn truncated_frame_is_incomplete() {
    let kind = MsgKind::TimesyncStatus;
    let header = message_header(&kind, 0, 77);
    let payload = payload_for(&kind, 1);
    let mut bytes = encode_frame(&header, &payload);
    bytes.truncate(bytes.len() - 1);
    assert_eq!(decode_frame(&bytes, 0), Err(FrameError::Incomplete));
    let short: Vec<u8> = vec![0x4F; HEADER_LEN - 1];
    assert_eq!(decode_frame(&short, 0), Err(FrameError::Incomplete));
}

#[test]
fn header_encodes_fields_in_order() {
    let kind = MsgKind::VehicleStatus;
    let header = message_header(&kind, 17, 666);
    let payload = payload_for(&kind, 0);
    let bytes = encode_frame(&header, &payload);
    assert_eq!(bytes[0], (UORB_MAGIC_V1 & 0xFF) as u8);
    assert_eq!(bytes[1], (UORB_MAGIC_V1 >> 8) as u8);
    let hash = msg_hash(&kind);
    assert_eq!(bytes[2], (hash & 0xFF) as u8);
    assert_eq!(bytes[5], (hash >> 24) as u8);
    assert_eq!(bytes[6], (666u64 & 0xFF) as u8);
    assert_eq!(bytes[14], 17);
    assert_eq!(bytes[15], (encoded_len(&kind) & 0xFF) as u8);
}
