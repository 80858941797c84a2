//! Signaling packet codec and routing.
//!
//! A signaling packet carries one step of a session negotiation — an offer, an
//! answer, or an ICE candidate — between two named peers. The session
//! description or candidate text is opaque to the codec; it only needs a
//! reversible, validated encoding of the tagged union and the two peer ids.
//!
//! Wire layout, little-endian: a 1-byte tag (offer, answer or candidate),
//! a 2-byte length for the `from` id, a 2-byte length for the `to` id, a
//! 4-byte length for the payload text, then the three fields' UTF-8 bytes in
//! that order. Because every recipient on a shared broadcast transport sees
//! every packet, routing filters by the packet's `to` field.

use crate::MalformedPacketError;
use crate::is_err;
use crate::utf8::utf8_check;
use vstd::prelude::*;
use vstd::bytes::{
    lemma_auto_spec_u16_to_from_le_bytes, lemma_auto_spec_u32_to_from_le_bytes,
    spec_u16_from_le_bytes, spec_u16_to_le_bytes, spec_u32_from_le_bytes, spec_u32_to_le_bytes,
    u16_from_le_bytes, u16_to_le_bytes, u32_from_le_bytes, u32_to_le_bytes,
};
use vstd::slice::slice_subrange;
use vstd::string::StrSliceExecFns;
use vstd::utf8::{decode_utf8, decode_utf8_encode_utf8, encode_utf8, encode_utf8_decode_utf8,
    encode_utf8_valid_utf8, valid_utf8};

verus! {

/// The negotiation step a signaling packet carries. The text is an opaque
/// serialized session description or candidate.
pub enum SignalingData {
    Offer(String),
    Answer(String),
    IceCandidate(String),
}

/// One routed signaling message: the step itself plus the sender's and the
/// addressee's peer ids.
pub struct SignalingPacket {
    pub data: SignalingData,
    pub from: String,
    pub to: String,
}

/// The wire tag of each packet kind.
pub open spec fn spec_tag_of(d: SignalingData) -> u8 {
    match d {
        SignalingData::Offer(_) => 1,
        SignalingData::Answer(_) => 2,
        SignalingData::IceCandidate(_) => 3,
    }
}

/// The opaque text a packet kind carries.
pub open spec fn spec_text_of(d: SignalingData) -> Seq<char> {
    match d {
        SignalingData::Offer(s) => s@,
        SignalingData::Answer(s) => s@,
        SignalingData::IceCandidate(s) => s@,
    }
}

impl SignalingPacket {
    /// The packet fits the frame's length fields: ids fit 2 bytes, the
    /// payload fits 4.
    pub open spec fn wf(self) -> bool {
        &&& encode_utf8(self.from@).len() <= 0xffff
        &&& encode_utf8(self.to@).len() <= 0xffff
        &&& encode_utf8(spec_text_of(self.data)).len() <= 0xffffffff
    }

    /// Runtime check of `wf`, for callers that receive ids and payloads of
    /// unknown size.
    pub fn check_wf(&self) -> (b: bool)
        ensures
            b == self.wf(),
    {
        let text = match &self.data {
            SignalingData::Offer(s) => s,
            SignalingData::Answer(s) => s,
            SignalingData::IceCandidate(s) => s,
        };
        self.from.as_str().as_bytes().len() <= 0xffff
            && self.to.as_str().as_bytes().len() <= 0xffff
            && text.as_str().as_bytes().len() <= 0xffffffff
    }

    /// Encodes this packet into its exact wire form.
    pub fn encode(&self) -> (out: Vec<u8>)
        requires
            self.wf(),
        ensures
            out@ == spec_encode_signal(*self),
    {
        let text = match &self.data {
            SignalingData::Offer(s) => s,
            SignalingData::Answer(s) => s,
            SignalingData::IceCandidate(s) => s,
        };
        let tag: u8 = match &self.data {
            SignalingData::Offer(_) => 1,
            SignalingData::Answer(_) => 2,
            SignalingData::IceCandidate(_) => 3,
        };
        let mut from_bytes = self.from.as_str().as_bytes_vec();
        let mut to_bytes = self.to.as_str().as_bytes_vec();
        let mut text_bytes = text.as_str().as_bytes_vec();
        let mut out: Vec<u8> = Vec::new();
        out.push(tag);
        let mut fl = u16_to_le_bytes(from_bytes.len() as u16);
        out.append(&mut fl);
        let mut tl = u16_to_le_bytes(to_bytes.len() as u16);
        out.append(&mut tl);
        let mut pl = u32_to_le_bytes(text_bytes.len() as u32);
        out.append(&mut pl);
        out.append(&mut from_bytes);
        out.append(&mut to_bytes);
        out.append(&mut text_bytes);
        proof {
            assert(out@ =~= spec_encode_signal(*self));
        }
        out
    }

    /// Decodes and validates one wire frame. Succeeds exactly on well-formed
    /// frames; a malformed buffer is rejected with the error naming the first
    /// check it fails, in the order: truncation, tag, total length, text
    /// encoding.
    pub fn decode(data: &[u8]) -> (r: Result<SignalingPacket, MalformedPacketError>)
        ensures
            r is Ok <==> spec_signal_frame_ok(data@),
            r is Ok ==> (r->Ok_0).wf(),
            r is Ok ==> spec_tag_of((r->Ok_0).data) == data@[0],
            r is Ok ==> (r->Ok_0).from@ == decode_utf8(spec_from_bytes(data@)),
            r is Ok ==> (r->Ok_0).to@ == decode_utf8(spec_to_bytes(data@)),
            r is Ok ==> spec_text_of((r->Ok_0).data) == decode_utf8(spec_text_bytes(data@)),
            r is Ok ==> spec_encode_signal(r->Ok_0) == data@,
            is_err(r, MalformedPacketError::Truncated) <==> data@.len() < 9,
            is_err(r, MalformedPacketError::BadTag) <==> data@.len() >= 9
                && !(1 <= data@[0] <= 3),
            is_err(r, MalformedPacketError::BadLength) <==> data@.len() >= 9
                && 1 <= data@[0] <= 3
                && data@.len() != 9 + spec_from_len(data@) + spec_to_len(data@)
                    + spec_text_len(data@),
            is_err(r, MalformedPacketError::BadName) <==> data@.len() >= 9
                && 1 <= data@[0] <= 3
                && data@.len() == 9 + spec_from_len(data@) + spec_to_len(data@)
                    + spec_text_len(data@)
                && !(valid_utf8(spec_from_bytes(data@)) && valid_utf8(spec_to_bytes(data@))
                    && valid_utf8(spec_text_bytes(data@))),
    {
        if data.len() < 9 {
            return Err(MalformedPacketError::Truncated);
        }
        let tag = data[0];
        if !(1 <= tag && tag <= 3) {
            return Err(MalformedPacketError::BadTag);
        }
        let fl = u16_from_le_bytes(slice_subrange(data, 1, 3)) as usize;
        let tl = u16_from_le_bytes(slice_subrange(data, 3, 5)) as usize;
        let pl = u32_from_le_bytes(slice_subrange(data, 5, 9));
        let rest = data.len() - 9;
        if rest < fl {
            return Err(MalformedPacketError::BadLength);
        }
        let rest = rest - fl;
        if rest < tl {
            return Err(MalformedPacketError::BadLength);
        }
        let rest = rest - tl;
        if !(rest as u64 == pl as u64) {
            return Err(MalformedPacketError::BadLength);
        }
        let from_end = 9 + fl;
        let to_end = from_end + tl;
        let from_slice = slice_subrange(data, 9, from_end);
        let to_slice = slice_subrange(data, from_end, to_end);
        let text_slice = slice_subrange(data, to_end, data.len());
        if !(utf8_check(from_slice) && utf8_check(to_slice) && utf8_check(text_slice)) {
            return Err(MalformedPacketError::BadName);
        }
        let from = bytes_to_string(vstd::slice::slice_to_vec(from_slice));
        let to = bytes_to_string(vstd::slice::slice_to_vec(to_slice));
        let text = bytes_to_string(vstd::slice::slice_to_vec(text_slice));
        let packet_data = if tag == 1 {
            SignalingData::Offer(text)
        } else if tag == 2 {
            SignalingData::Answer(text)
        } else {
            SignalingData::IceCandidate(text)
        };
        let p = SignalingPacket { data: packet_data, from, to };
        proof {
            lemma_auto_spec_u16_to_from_le_bytes();
            lemma_auto_spec_u32_to_from_le_bytes();
            decode_utf8_encode_utf8(spec_from_bytes(data@));
            decode_utf8_encode_utf8(spec_to_bytes(data@));
            decode_utf8_encode_utf8(spec_text_bytes(data@));
            assert(spec_encode_signal(p) =~= data@);
        }
        Ok(p)
    }

    /// A recipient on the shared transport keeps only the packets addressed
    /// to its own id.
    pub fn is_addressed_to(&self, our_id: &String) -> (b: bool)
        ensures
            b == (self.to@ == our_id@),
    {
        self.to.eq(our_id)
    }
}

/// Length of the `from` field a frame advertises.
pub open spec fn spec_from_len(data: Seq<u8>) -> int {
    spec_u16_from_le_bytes(data.subrange(1, 3)) as int
}

/// Length of the `to` field a frame advertises.
pub open spec fn spec_to_len(data: Seq<u8>) -> int {
    spec_u16_from_le_bytes(data.subrange(3, 5)) as int
}

/// Length of the payload text a frame advertises.
pub open spec fn spec_text_len(data: Seq<u8>) -> int {
    spec_u32_from_le_bytes(data.subrange(5, 9)) as int
}

/// The bytes of the `from` field.
pub open spec fn spec_from_bytes(data: Seq<u8>) -> Seq<u8> {
    data.subrange(9, 9 + spec_from_len(data))
}

/// The bytes of the `to` field.
pub open spec fn spec_to_bytes(data: Seq<u8>) -> Seq<u8> {
    data.subrange(9 + spec_from_len(data), 9 + spec_from_len(data) + spec_to_len(data))
}

/// The bytes of the payload text.
pub open spec fn spec_text_bytes(data: Seq<u8>) -> Seq<u8> {
    data.subrange(9 + spec_from_len(data) + spec_to_len(data), data.len() as int)
}

/// A buffer is a well-formed signaling frame: it holds the fixed header, a
/// known tag, lengths that add up to the total, and three UTF-8 text fields.
pub open spec fn spec_signal_frame_ok(data: Seq<u8>) -> bool {
    &&& data.len() >= 9
    &&& 1 <= data[0] <= 3
    &&& data.len() == 9 + spec_from_len(data) + spec_to_len(data) + spec_text_len(data)
    &&& valid_utf8(spec_from_bytes(data))
    &&& valid_utf8(spec_to_bytes(data))
    &&& valid_utf8(spec_text_bytes(data))
}

/// The exact wire form of a packet.
pub open spec fn spec_encode_signal(p: SignalingPacket) -> Seq<u8> {
    let from_bytes = encode_utf8(p.from@);
    let to_bytes = encode_utf8(p.to@);
    let text_bytes = encode_utf8(spec_text_of(p.data));
    seq![spec_tag_of(p.data)] + spec_u16_to_le_bytes(from_bytes.len() as u16)
        + spec_u16_to_le_bytes(to_bytes.len() as u16)
        + spec_u32_to_le_bytes(text_bytes.len() as u32) + from_bytes + to_bytes + text_bytes
}

/// Relies on `String::from_utf8`: on bytes the verified validator has
/// already accepted it succeeds and yields the characters vstd's UTF-8
/// model decodes from them.
#[verifier::external_body]
fn bytes_to_string(v: Vec<u8>) -> (r: String)
    requires
        valid_utf8(v@),
    ensures
        r@ == decode_utf8(v@),
{
    match String::from_utf8(v) {
        Ok(s) => s,
        Err(_) => String::new(),
    }
}

/// Round trip: every well-formed packet's encoding is accepted by the frame
/// validator and parses back to exactly the packet's own fields.
pub proof fn lemma_signal_round_trip(p: SignalingPacket)
    requires
        p.wf(),
    ensures
        spec_signal_frame_ok(spec_encode_signal(p)),
        spec_encode_signal(p)[0] == spec_tag_of(p.data),
        decode_utf8(spec_from_bytes(spec_encode_signal(p))) == p.from@,
        decode_utf8(spec_to_bytes(spec_encode_signal(p))) == p.to@,
        decode_utf8(spec_text_bytes(spec_encode_signal(p))) == spec_text_of(p.data),
{
    lemma_auto_spec_u16_to_from_le_bytes();
    lemma_auto_spec_u32_to_from_le_bytes();
    let d = spec_encode_signal(p);
    let from_bytes = encode_utf8(p.from@);
    let to_bytes = encode_utf8(p.to@);
    let text_bytes = encode_utf8(spec_text_of(p.data));
    assert(d.subrange(1, 3) =~= spec_u16_to_le_bytes(from_bytes.len() as u16));
    assert(d.subrange(3, 5) =~= spec_u16_to_le_bytes(to_bytes.len() as u16));
    assert(d.subrange(5, 9) =~= spec_u32_to_le_bytes(text_bytes.len() as u32));
    assert(spec_from_len(d) == from_bytes.len());
    assert(spec_to_len(d) == to_bytes.len());
    assert(spec_text_len(d) == text_bytes.len());
    assert(spec_from_bytes(d) =~= from_bytes);
    assert(spec_to_bytes(d) =~= to_bytes);
    assert(spec_text_bytes(d) =~= text_bytes);
    encode_utf8_valid_utf8(p.from@);
    encode_utf8_valid_utf8(p.to@);
    encode_utf8_valid_utf8(spec_text_of(p.data));
    encode_utf8_decode_utf8(p.from@);
    encode_utf8_decode_utf8(p.to@);
    encode_utf8_decode_utf8(spec_text_of(p.data));
}

} // verus!
