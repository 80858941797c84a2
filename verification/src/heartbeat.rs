//! Heartbeat packet codec.
//!
//! A heartbeat is the minimal discovery transport: each node periodically
//! broadcasts a fixed-layout frame and peers are considered live while frames
//! keep arriving. Wire layout, little-endian throughout: an 8-byte magic
//! constant, a 1-byte version, an 8-byte unix timestamp, a 1-byte name length
//! `n`, and exactly `n` bytes of UTF-8 device name. Decoding validates every
//! field and returns a recoverable error instead of panicking on malformed
//! input; encoding is the exact inverse and round-trips byte for byte.

use crate::MalformedPacketError;
use crate::is_err;
use crate::utf8::utf8_check;
use vstd::prelude::*;
use vstd::bytes::{
    lemma_auto_spec_u64_to_from_le_bytes, spec_u64_from_le_bytes, spec_u64_to_le_bytes,
    u64_from_le_bytes, u64_to_le_bytes,
};
use vstd::slice::{slice_subrange, slice_to_vec};
use vstd::string::StrSliceExecFns;
use vstd::utf8::{encode_utf8, encode_utf8_valid_utf8, valid_utf8};

verus! {

/// The only protocol version this codec emits and accepts.
pub const CURRENT_VERSION: u8 = 1;

/// The magic constant that opens every heartbeat frame: the 8 ASCII bytes of
/// `"DRIPPING"`.
pub open spec fn spec_magic() -> Seq<u8> {
    seq![68u8, 82u8, 73u8, 80u8, 80u8, 73u8, 78u8, 71u8]
}

/// One liveness heartbeat: who sent it and when. The device name is kept as
/// its UTF-8 bytes; well-formed packets carry at most 255 of them.
#[derive(Clone, Debug, PartialEq, Eq)]
pub struct Packet {
    pub timestamp: u64,
    pub device_name: Vec<u8>,
}

impl Packet {
    /// A packet can be put on the wire: its name fits the 1-byte length field
    /// and is valid UTF-8.
    pub open spec fn wf(self) -> bool {
        &&& self.device_name@.len() <= 255
        &&& valid_utf8(self.device_name@)
    }

    /// Builds a heartbeat for this node. The name's UTF-8 form must fit the
    /// frame's 1-byte length field.
    pub fn new(device_name: String, timestamp: u64) -> (p: Packet)
        requires
            encode_utf8(device_name@).len() <= 255,
        ensures
            p.wf(),
            p.timestamp == timestamp,
            p.device_name@ == encode_utf8(device_name@),
    {
        proof {
            encode_utf8_valid_utf8(device_name@);
        }
        let name = device_name.as_str().as_bytes_vec();
        Packet { timestamp, device_name: name }
    }

    /// Encodes this packet into its exact wire form.
    pub fn serialize(&self) -> (out: Vec<u8>)
        requires
            self.wf(),
        ensures
            out@ == spec_encode(*self),
    {
        let mut buffer: Vec<u8> = Vec::new();
        push_magic(&mut buffer);
        buffer.push(CURRENT_VERSION);
        let mut ts_bytes = u64_to_le_bytes(self.timestamp);
        buffer.append(&mut ts_bytes);
        buffer.push(self.device_name.len() as u8);
        let mut name_bytes = slice_to_vec(self.device_name.as_slice());
        buffer.append(&mut name_bytes);
        proof {
            assert(buffer@ =~= spec_encode(*self));
        }
        buffer
    }

    /// Decodes and validates one wire frame. Succeeds exactly on well-formed
    /// frames; each malformed buffer is rejected with the error naming the
    /// first check it fails, in the order: truncation, magic, version, total
    /// length, name encoding.
    pub fn deserialize(data: &[u8]) -> (r: Result<Packet, MalformedPacketError>)
        ensures
            r is Ok <==> spec_frame_ok(data@),
            r is Ok ==> (r->Ok_0).wf(),
            r is Ok ==> (r->Ok_0).timestamp == spec_timestamp_of(data@),
            r is Ok ==> (r->Ok_0).device_name@ == data@.skip(18),
            r is Ok ==> spec_encode(r->Ok_0) == data@,
            is_err(r, MalformedPacketError::Truncated) <==> data@.len() < 18,
            is_err(r, MalformedPacketError::BadMagic) <==> data@.len() >= 18
                && data@.subrange(0, 8) != spec_magic(),
            is_err(r, MalformedPacketError::BadVersion) <==> data@.len() >= 18
                && data@.subrange(0, 8) == spec_magic() && data@[8] != CURRENT_VERSION,
            is_err(r, MalformedPacketError::BadLength) <==> data@.len() >= 18
                && data@.subrange(0, 8) == spec_magic() && data@[8] == CURRENT_VERSION
                && data@.len() != 18 + data@[17],
            is_err(r, MalformedPacketError::BadName) <==> data@.len() >= 18
                && data@.subrange(0, 8) == spec_magic() && data@[8] == CURRENT_VERSION
                && data@.len() == 18 + data@[17] && !valid_utf8(data@.skip(18)),
    {
        if data.len() < 18 {
            return Err(MalformedPacketError::Truncated);
        }
        if !has_magic(data) {
            return Err(MalformedPacketError::BadMagic);
        }
        if data[8] != CURRENT_VERSION {
            return Err(MalformedPacketError::BadVersion);
        }
        let name_len = data[17];
        if data.len() - 18 != name_len as usize {
            return Err(MalformedPacketError::BadLength);
        }
        let name_slice = slice_subrange(data, 18, data.len());
        if !utf8_check(name_slice) {
            return Err(MalformedPacketError::BadName);
        }
        let ts_slice = slice_subrange(data, 9, 17);
        let timestamp = u64_from_le_bytes(ts_slice);
        let device_name = slice_to_vec(name_slice);
        let p = Packet { timestamp, device_name };
        proof {
            lemma_auto_spec_u64_to_from_le_bytes();
            assert(spec_u64_to_le_bytes(spec_u64_from_le_bytes(data@.subrange(9, 17)))
                == data@.subrange(9, 17));
            assert(spec_encode(p) =~= data@);
        }
        Ok(p)
    }
}

/// The exact wire form of a packet.
pub open spec fn spec_encode(p: Packet) -> Seq<u8> {
    spec_magic() + seq![CURRENT_VERSION] + spec_u64_to_le_bytes(p.timestamp)
        + seq![p.device_name@.len() as u8] + p.device_name@
}

/// A buffer is a well-formed heartbeat frame: long enough, opened by the
/// magic constant, carrying the supported version, sized exactly to its name
/// length field, with a UTF-8 name.
pub open spec fn spec_frame_ok(data: Seq<u8>) -> bool {
    &&& data.len() >= 18
    &&& data.subrange(0, 8) == spec_magic()
    &&& data[8] == CURRENT_VERSION
    &&& data.len() == 18 + data[17]
    &&& valid_utf8(data.skip(18))
}

/// The timestamp a well-formed frame carries.
pub open spec fn spec_timestamp_of(data: Seq<u8>) -> u64 {
    spec_u64_from_le_bytes(data.subrange(9, 17))
}

fn push_magic(buffer: &mut Vec<u8>)
    ensures
        final(buffer)@ == old(buffer)@ + spec_magic(),
{
    buffer.push(68);
    buffer.push(82);
    buffer.push(73);
    buffer.push(80);
    buffer.push(80);
    buffer.push(73);
    buffer.push(78);
    buffer.push(71);
    proof {
        assert(buffer@ =~= old(buffer)@ + spec_magic());
    }
}

fn has_magic(data: &[u8]) -> (r: bool)
    requires
        data@.len() >= 8,
    ensures
        r == (data@.subrange(0, 8) == spec_magic()),
{
    let r = data[0] == 68 && data[1] == 82 && data[2] == 73 && data[3] == 80 && data[4] == 80
        && data[5] == 73 && data[6] == 78 && data[7] == 71;
    proof {
        let m = data@.subrange(0, 8);
        assert(forall|i: int| 0 <= i < 8 ==> m[i] == data@[i]);
        if r {
            assert(m =~= spec_magic());
        } else {
            if m == spec_magic() {
                assert(data@[0] == 68 && data@[1] == 82 && data@[2] == 73 && data@[3] == 80
                    && data@[4] == 80 && data@[5] == 73 && data@[6] == 78 && data@[7] == 71);
            }
        }
    }
    r
}

/// Round trip: every well-formed packet's encoding is accepted by the frame
/// validator and parses back to exactly the packet's own fields.
pub proof fn lemma_round_trip(p: Packet)
    requires
        p.wf(),
    ensures
        spec_frame_ok(spec_encode(p)),
        spec_timestamp_of(spec_encode(p)) == p.timestamp,
        spec_encode(p).skip(18) == p.device_name@,
{
    lemma_auto_spec_u64_to_from_le_bytes();
    let d = spec_encode(p);
    assert(d.subrange(0, 8) =~= spec_magic());
    assert(d.subrange(9, 17) =~= spec_u64_to_le_bytes(p.timestamp));
    assert(d.skip(18) =~= p.device_name@);
    assert(d[8] == CURRENT_VERSION);
    assert(d[17] == p.device_name@.len() as u8);
}

} // verus!
