//! The frame-on-wire layout: a fixed header (version magic, type hash,
//! timestamp, instance id, payload length) followed by exactly
//! `payload_len` bytes of payload. Encoding and decoding are verified to
//! be inverse to each other, frame by frame and over whole back-to-back
//! batches.

use vstd::prelude::*;
use vstd::bytes::*;
use vstd::slice::{slice_subrange, slice_to_vec};
use crate::messages::{
    MsgKind, UORB_MAGIC_V1, spec_kind_of_hash, spec_encoded_len, kind_of_hash, encoded_len,
};

verus! {

/// Byte length of the fixed frame header.
pub const HEADER_LEN: usize = 17;

/// One frame header: everything on the wire before the payload bytes.
#[derive(Clone, Copy, PartialEq, Eq, Structural, Debug)]
pub struct FrameHeader {
    /// Wire-format magic; must equal `UORB_MAGIC_V1`.
    pub version: u16,
    /// Identifies which payload kind follows.
    pub hash: u32,
    /// Simulated-time stamp carried with the message.
    pub timestamp: u64,
    /// Disambiguates multiple sensors of the same kind.
    pub instance_id: u8,
    /// Byte length of the encoded payload that follows the header.
    pub payload_len: u16,
}

/// Why a buffer failed to decode as a frame.
#[derive(Clone, Copy, PartialEq, Eq, Structural, Debug)]
pub enum FrameError {
    /// Fewer bytes than one complete frame; more input may complete it.
    Incomplete,
    /// The version field is not the recognized magic.
    BadMagic,
    /// The type hash is not in the receiver's table of known kinds.
    UnknownHash,
    /// The payload length does not match the kind's fixed encoded length.
    BadLength,
}

/// A header the receiver accepts: recognized magic, a hash in the known
/// table, and the payload length the hashed kind prescribes.
pub open spec fn spec_header_well_formed(h: FrameHeader) -> bool {
    &&& h.version == UORB_MAGIC_V1
    &&& spec_kind_of_hash(h.hash) is Some
    &&& h.payload_len == spec_encoded_len(spec_kind_of_hash(h.hash)->Some_0)
}

/// The wire bytes of a header, fields in order, integers little-endian.
pub open spec fn spec_header_bytes(h: FrameHeader) -> Seq<u8> {
    spec_u16_to_le_bytes(h.version) + spec_u32_to_le_bytes(h.hash) + spec_u64_to_le_bytes(
        h.timestamp,
    ) + seq![h.instance_id] + spec_u16_to_le_bytes(h.payload_len)
}

/// The wire bytes of one complete frame: header, then payload.
pub open spec fn spec_frame_bytes(h: FrameHeader, payload: Seq<u8>) -> Seq<u8> {
    spec_header_bytes(h) + payload
}

/// The header read back from the first `HEADER_LEN` bytes of `b`.
pub open spec fn spec_header_from_bytes(b: Seq<u8>) -> FrameHeader
    recommends
        b.len() >= HEADER_LEN,
{
    FrameHeader {
        version: spec_u16_from_le_bytes(b.subrange(0, 2)),
        hash: spec_u32_from_le_bytes(b.subrange(2, 6)),
        timestamp: spec_u64_from_le_bytes(b.subrange(6, 14)),
        instance_id: b[14],
        payload_len: spec_u16_from_le_bytes(b.subrange(15, 17)),
    }
}

/// Decoding one frame from the front of `b`: either the header, the
/// payload and the total byte count consumed, or the failure class.
pub open spec fn spec_decode_frame(b: Seq<u8>) -> Result<(FrameHeader, Seq<u8>, int), FrameError> {
    if b.len() < HEADER_LEN {
        Err(FrameError::Incomplete)
    } else {
        let h = spec_header_from_bytes(b);
        if h.version != UORB_MAGIC_V1 {
            Err(FrameError::BadMagic)
        } else if spec_kind_of_hash(h.hash) is None {
            Err(FrameError::UnknownHash)
        } else if h.payload_len != spec_encoded_len(spec_kind_of_hash(h.hash)->Some_0) {
            Err(FrameError::BadLength)
        } else if b.len() < HEADER_LEN + h.payload_len {
            Err(FrameError::Incomplete)
        } else {
            Ok(
                (
                    h,
                    b.subrange(HEADER_LEN as int, HEADER_LEN + h.payload_len),
                    HEADER_LEN + h.payload_len,
                ),
            )
        }
    }
}

/// Serializes a header into its wire bytes.
pub fn encode_header(h: &FrameHeader) -> (r: Vec<u8>)
    ensures
        r@ == spec_header_bytes(*h),
        r@.len() == HEADER_LEN,
{
    proof {
        lemma_auto_spec_u16_to_from_le_bytes();
        lemma_auto_spec_u32_to_from_le_bytes();
        lemma_auto_spec_u64_to_from_le_bytes();
    }
    let mut out = u16_to_le_bytes(h.version);
    let mut part = u32_to_le_bytes(h.hash);
    out.append(&mut part);
    let mut part = u64_to_le_bytes(h.timestamp);
    out.append(&mut part);
    out.push(h.instance_id);
    let mut part = u16_to_le_bytes(h.payload_len);
    out.append(&mut part);
    assert(out@ =~= spec_header_bytes(*h));
    out
}

/// Serializes one complete frame: the header's wire bytes, then exactly
/// the payload bytes.
pub fn encode_frame(h: &FrameHeader, payload: &Vec<u8>) -> (r: Vec<u8>)
    requires
        payload@.len() == h.payload_len,
    ensures
        r@ == spec_frame_bytes(*h, payload@),
        r@.len() == HEADER_LEN + h.payload_len,
{
    let mut out = encode_header(h);
    out.extend_from_slice(payload.as_slice());
    assert(out@ =~= spec_frame_bytes(*h, payload@));
    out
}

/// Decodes one frame from `buf` starting at `start`. On success returns
/// the header, the payload, and the index just past the frame.
pub fn decode_frame(buf: &Vec<u8>, start: usize) -> (r: Result<
    (FrameHeader, Vec<u8>, usize),
    FrameError,
>)
    requires
        start <= buf@.len(),
    ensures
        match r {
            Ok((h, payload, next)) => {
                &&& spec_decode_frame(buf@.skip(start as int)) == Ok::<_, FrameError>(
                    (h, payload@, next - start),
                )
                &&& start < next <= buf@.len()
            },
            Err(e) => spec_decode_frame(buf@.skip(start as int)) == Err::<
                (FrameHeader, Seq<u8>, int),
                _,
            >(e),
        },
{
    let remaining = buf.len() - start;
    if remaining < HEADER_LEN {
        return Err(FrameError::Incomplete);
    }
    proof {
        lemma_auto_spec_u16_to_from_le_bytes();
        lemma_auto_spec_u32_to_from_le_bytes();
        lemma_auto_spec_u64_to_from_le_bytes();
    }
    let all = buf.as_slice();
    let version = u16_from_le_bytes(slice_subrange(all, start, start + 2));
    let hash = u32_from_le_bytes(slice_subrange(all, start + 2, start + 6));
    let timestamp = u64_from_le_bytes(slice_subrange(all, start + 6, start + 14));
    let instance_id = *vstd::slice::slice_index_get(all, start + 14);
    let payload_len = u16_from_le_bytes(slice_subrange(all, start + 15, start + 17));
    let h = FrameHeader { version, hash, timestamp, instance_id, payload_len };
    proof {
        let b = buf@.skip(start as int);
        assert(b.subrange(0, 2) =~= buf@.subrange(start as int, start + 2));
        assert(b.subrange(2, 6) =~= buf@.subrange(start + 2, start + 6));
        assert(b.subrange(6, 14) =~= buf@.subrange(start + 6, start + 14));
        assert(b[14] == buf@[start + 14]);
        assert(b.subrange(15, 17) =~= buf@.subrange(start + 15, start + 17));
        assert(spec_header_from_bytes(b) == h);
    }
    if version != UORB_MAGIC_V1 {
        return Err(FrameError::BadMagic);
    }
    let kind = kind_of_hash(hash);
    match kind {
        None => Err(FrameError::UnknownHash),
        Some(k) => {
            if payload_len != encoded_len(&k) {
                Err(FrameError::BadLength)
            } else if remaining - HEADER_LEN < payload_len as usize {
                Err(FrameError::Incomplete)
            } else {
                let payload = slice_to_vec(
                    slice_subrange(all, start + HEADER_LEN, start + HEADER_LEN + payload_len
                        as usize),
                );
                proof {
                    let b = buf@.skip(start as int);
                    assert(b.subrange(HEADER_LEN as int, HEADER_LEN + payload_len as int)
                        =~= buf@.subrange(
                        start + HEADER_LEN,
                        start + HEADER_LEN + payload_len as int,
                    ));
                }
                Ok((h, payload, start + HEADER_LEN + payload_len as usize))
            }
        },
    }
}

/// The wire bytes of a batch of frames, sent back-to-back in order, each
/// as its own complete frame.
pub open spec fn spec_frames_bytes(frames: Seq<(FrameHeader, Seq<u8>)>) -> Seq<u8>
    decreases frames.len(),
{
    if frames.len() == 0 {
        Seq::empty()
    } else {
        spec_frame_bytes(frames[0].0, frames[0].1) + spec_frames_bytes(frames.skip(1))
    }
}

/// Every frame of a batch is one the receiver accepts, with the payload
/// length its header declares.
pub open spec fn spec_frames_well_formed(frames: Seq<(FrameHeader, Seq<u8>)>) -> bool {
    forall|i: int|
        0 <= i < frames.len() ==> spec_header_well_formed(#[trigger] frames[i].0)
            && frames[i].1.len() == frames[i].0.payload_len
}

/// Decoding a whole buffer as consecutive frames: all of them, in order,
/// or the first failure. A buffer that ends inside a frame is incomplete.
pub open spec fn spec_decode_all(b: Seq<u8>) -> Result<Seq<(FrameHeader, Seq<u8>)>, FrameError>
    decreases b.len(),
{
    if b.len() == 0 {
        Ok(Seq::empty())
    } else {
        match spec_decode_frame(b) {
            Err(e) => Err(e),
            Ok((h, p, n)) => match spec_decode_all(b.skip(n)) {
                Err(e) => Err(e),
                Ok(rest) => Ok(seq![(h, p)] + rest),
            },
        }
    }
}

/// Appending one frame to a batch appends its wire bytes.
proof fn lemma_frames_bytes_push(frames: Seq<(FrameHeader, Seq<u8>)>, f: (FrameHeader, Seq<u8>))
    ensures
        spec_frames_bytes(frames.push(f)) == spec_frames_bytes(frames) + spec_frame_bytes(
            f.0,
            f.1,
        ),
    decreases frames.len(),
{
    if frames.len() == 0 {
        let pushed = frames.push(f);
        assert(pushed.skip(1) =~= Seq::<(FrameHeader, Seq<u8>)>::empty());
        assert(spec_frames_bytes(Seq::<(FrameHeader, Seq<u8>)>::empty()) == Seq::<u8>::empty());
        assert(spec_frames_bytes(pushed) =~= spec_frame_bytes(f.0, f.1));
        assert(spec_frames_bytes(frames) + spec_frame_bytes(f.0, f.1) =~= spec_frame_bytes(
            f.0,
            f.1,
        ));
    } else {
        assert(frames.push(f).skip(1) =~= frames.skip(1).push(f));
        lemma_frames_bytes_push(frames.skip(1), f);
        assert(spec_frames_bytes(frames.push(f)) =~= spec_frames_bytes(frames) + spec_frame_bytes(
            f.0,
            f.1,
        ));
    }
}

/// Serializes a batch of frames into one byte stream, in order, each as
/// its own complete frame.
pub fn encode_frames(frames: &Vec<(FrameHeader, Vec<u8>)>) -> (r: Vec<u8>)
    requires
        forall|i: int|
            0 <= i < frames@.len() ==> (#[trigger] frames@[i]).1@.len() == frames@[i].0.payload_len,
    ensures
        r@ == spec_frames_bytes(frames@.map_values(|f: (FrameHeader, Vec<u8>)| (f.0, f.1@))),
{
    let ghost model = frames@.map_values(|f: (FrameHeader, Vec<u8>)| (f.0, f.1@));
    let mut out: Vec<u8> = Vec::new();
    let mut i: usize = 0;
    assert(spec_frames_bytes(model.take(0)) =~= Seq::empty());
    while i < frames.len()
        invariant
            i <= frames@.len(),
            model == frames@.map_values(|f: (FrameHeader, Vec<u8>)| (f.0, f.1@)),
            forall|j: int|
                0 <= j < frames@.len() ==> (#[trigger] frames@[j]).1@.len()
                    == frames@[j].0.payload_len,
            out@ == spec_frames_bytes(model.take(i as int)),
        decreases frames@.len() - i,
    {
        let pair = &frames[i];
        let mut fb = encode_frame(&pair.0, &pair.1);
        out.append(&mut fb);
        proof {
            lemma_frames_bytes_push(model.take(i as int), model[i as int]);
            assert(model.take(i + 1) =~= model.take(i as int).push(model[i as int]));
        }
        i = i + 1;
    }
    proof {
        assert(model.take(model.len() as int) =~= model);
    }
    out
}

/// Decodes a whole buffer as consecutive frames. Returns every frame in
/// order, or the first failure; a trailing partial frame is `Incomplete`.
pub fn decode_all_frames(buf: &Vec<u8>) -> (r: Result<Vec<(FrameHeader, Vec<u8>)>, FrameError>)
    ensures
        match r {
            Ok(frames) => spec_decode_all(buf@) == Ok::<_, FrameError>(
                frames@.map_values(|f: (FrameHeader, Vec<u8>)| (f.0, f.1@)),
            ),
            Err(e) => spec_decode_all(buf@) == Err::<Seq<(FrameHeader, Seq<u8>)>, _>(e),
        },
{
    let mut acc: Vec<(FrameHeader, Vec<u8>)> = Vec::new();
    let mut offset: usize = 0;
    proof {
        assert(buf@.skip(0) =~= buf@);
        let m0 = acc@.map_values(|f: (FrameHeader, Vec<u8>)| (f.0, f.1@));
        assert(m0 =~= Seq::<(FrameHeader, Seq<u8>)>::empty());
        if spec_decode_all(buf@) is Ok {
            let rest = spec_decode_all(buf@)->Ok_0;
            assert(m0 + rest =~= rest);
        }
    }
    loop
        invariant
            offset <= buf@.len(),
            spec_decode_all(buf@) == match spec_decode_all(buf@.skip(offset as int)) {
                Ok(rest) => Ok::<_, FrameError>(
                    acc@.map_values(|f: (FrameHeader, Vec<u8>)| (f.0, f.1@)) + rest,
                ),
                Err(e) => Err::<Seq<(FrameHeader, Seq<u8>)>, _>(e),
            },
        decreases buf@.len() - offset,
    {
        if offset == buf.len() {
            proof {
                assert(buf@.skip(offset as int) =~= Seq::empty());
                assert(acc@.map_values(|f: (FrameHeader, Vec<u8>)| (f.0, f.1@)) + Seq::empty()
                    =~= acc@.map_values(|f: (FrameHeader, Vec<u8>)| (f.0, f.1@)));
            }
            return Ok(acc);
        }
        match decode_frame(buf, offset) {
            Err(e) => {
                return Err(e);
            },
            Ok((h, payload, next)) => {
                proof {
                    let b1 = buf@.skip(offset as int);
                    let b2 = buf@.skip(next as int);
                    let before = acc@.map_values(|f: (FrameHeader, Vec<u8>)| (f.0, f.1@));
                    let after = acc@.push((h, payload)).map_values(
                        |f: (FrameHeader, Vec<u8>)| (f.0, f.1@),
                    );
                    assert(b1.skip(next - offset) =~= b2);
                    assert(after =~= before.push((h, payload@)));
                    assert(b1.len() > 0);
                    if spec_decode_all(b2) is Ok {
                        let rest = spec_decode_all(b2)->Ok_0;
                        assert(before.push((h, payload@)) + rest =~= before + (seq![(h, payload@)]
                            + rest));
                    }
                }
                acc.push((h, payload));
                offset = next;
            },
        }
    }
}

/// Round trip of a whole batch: decoding the back-to-back encoding of
/// well-formed frames yields exactly those frames, in order.
pub proof fn lemma_frames_round_trip(frames: Seq<(FrameHeader, Seq<u8>)>)
    requires
        spec_frames_well_formed(frames),
    ensures
        spec_decode_all(spec_frames_bytes(frames)) == Ok::<_, FrameError>(frames),
    decreases frames.len(),
{
    if frames.len() == 0 {
        assert(frames =~= Seq::<(FrameHeader, Seq<u8>)>::empty());
        assert(spec_frames_bytes(frames) =~= Seq::<u8>::empty());
        assert(spec_decode_all(spec_frames_bytes(frames)) == Ok::<_, FrameError>(frames));
    } else {
        lemma_auto_spec_u16_to_from_le_bytes();
        lemma_auto_spec_u32_to_from_le_bytes();
        lemma_auto_spec_u64_to_from_le_bytes();
        let h = frames[0].0;
        let p = frames[0].1;
        assert(spec_header_well_formed(h) && p.len() == h.payload_len);
        let rest_bytes = spec_frames_bytes(frames.skip(1));
        lemma_frame_round_trip(h, p, rest_bytes);
        let b = spec_frame_bytes(h, p) + rest_bytes;
        let n = HEADER_LEN + h.payload_len as int;
        assert(spec_header_bytes(h).len() == HEADER_LEN);
        assert(b.len() >= n);
        assert(b.skip(n) =~= rest_bytes);
        assert(spec_frames_well_formed(frames.skip(1))) by {
            assert forall|i: int| 0 <= i < frames.skip(1).len() implies spec_header_well_formed(
                (#[trigger] frames.skip(1)[i]).0,
            ) && frames.skip(1)[i].1.len() == frames.skip(1)[i].0.payload_len by {
                assert(frames.skip(1)[i] == frames[i + 1]);
            }
        }
        lemma_frames_round_trip(frames.skip(1));
        assert(spec_frames_bytes(frames) == b);
        assert(spec_decode_frame(b) == Ok::<_, FrameError>((h, p, n)));
        assert(spec_decode_all(b.skip(n)) == Ok::<_, FrameError>(frames.skip(1)));
        assert(spec_decode_all(b) == Ok::<_, FrameError>(seq![(h, p)] + frames.skip(1)));
        assert(seq![(h, p)] + frames.skip(1) =~= frames);
    }
}

/// Round trip of one frame, with any trailing bytes behind it: decoding
/// the encoding of a well-formed frame yields the header and payload
/// back and consumes exactly the frame's bytes.
pub proof fn lemma_frame_round_trip(h: FrameHeader, payload: Seq<u8>, rest: Seq<u8>)
    requires
        spec_header_well_formed(h),
        payload.len() == h.payload_len,
    ensures
        spec_decode_frame(spec_frame_bytes(h, payload) + rest) == Ok::<_, FrameError>(
            (h, payload, HEADER_LEN + h.payload_len as int),
        ),
{
    lemma_auto_spec_u16_to_from_le_bytes();
    lemma_auto_spec_u32_to_from_le_bytes();
    lemma_auto_spec_u64_to_from_le_bytes();
    let b = spec_frame_bytes(h, payload) + rest;
    let hb = spec_header_bytes(h);
    assert(hb.len() == HEADER_LEN);
    assert(b.subrange(0, 2) =~= spec_u16_to_le_bytes(h.version));
    assert(b.subrange(2, 6) =~= spec_u32_to_le_bytes(h.hash));
    assert(b.subrange(6, 14) =~= spec_u64_to_le_bytes(h.timestamp));
    assert(b[14] == h.instance_id);
    assert(b.subrange(15, 17) =~= spec_u16_to_le_bytes(h.payload_len));
    assert(spec_header_from_bytes(b) == h);
    assert(b.subrange(HEADER_LEN as int, HEADER_LEN + h.payload_len) =~= payload);
}

} // verus!
