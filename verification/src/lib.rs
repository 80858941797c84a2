//! Connection-establishment core of a local-network peer-to-peer file-sharing
//! tool: peer discovery events, a peer registry, a per-peer perfect-negotiation
//! state machine, and the framed packet codecs that carry signaling messages
//! and liveness heartbeats over the network.
//!
//! The library is the decision core; all I/O stays with the surrounding
//! runtime. [`discovery`] decides what each raw service event means and
//! [`polite`] assigns the pair's negotiation roles; [`registry`] owns the
//! authoritative peer set and routes events to each peer's [`negotiator`],
//! the perfect-negotiation state machine. On the wire, [`signaling`] frames
//! offer/answer/candidate packets and [`heartbeat`] frames liveness beacons,
//! both validated byte-exactly with the [`utf8`] checker; [`liveness`] turns
//! recorded heartbeats into presence with timed eviction, and [`queue`]
//! models the bounded channels that connect the tasks.

pub mod discovery;
pub mod heartbeat;
pub mod liveness;
pub mod negotiator;
pub mod polite;
pub mod queue;
pub mod registry;
pub mod signaling;
pub mod utf8;

use vstd::prelude::*;

verus! {

/// Why a byte buffer was rejected by one of the packet codecs. Decoding is
/// total: malformed input is reported through this type, never by a panic.
#[derive(Clone, Copy, Debug, PartialEq, Eq, Structural)]
pub enum MalformedPacketError {
    /// Shorter than the fixed part of the frame.
    Truncated,
    /// The frame does not open with the magic constant.
    BadMagic,
    /// The version byte is not the supported version.
    BadVersion,
    /// The total length disagrees with the length fields.
    BadLength,
    /// The tag names no known packet kind.
    BadTag,
    /// A text field is not valid UTF-8.
    BadName,
}

/// Convenience for stating which error a decode returned.
pub open spec fn is_err<T>(r: Result<T, MalformedPacketError>, e: MalformedPacketError) -> bool {
    r is Err && r->Err_0 == e
}

} // verus!
