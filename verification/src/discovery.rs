//! Decision core of the discovery watcher.
//!
//! The discovery mechanism itself (service announcement and browsing) is an
//! external collaborator doing network I/O; the runtime forwards each raw
//! service event here. These functions make every decision the event stream
//! contract requires: only events for this node's own service type are
//! accepted, the peer id is parsed out of the service's full name (the
//! instance-name prefix before the first `.`), a node's own announcement is
//! never emitted as a peer (self-filtering is mandatory), and the negotiation
//! role is derived at emission time from the id pair.

use crate::registry::PeerInfo;
use vstd::prelude::*;
use vstd::string::{StrSliceExecFns, StringExecFns};

verus! {

/// The characters of a service full name before its first `.`: the instance
/// name, which discovery uses as the peer id.
pub open spec fn spec_dot_split(s: Seq<char>) -> Seq<char>
    decreases s.len(),
{
    if s.len() == 0 {
        s
    } else if s[0] == '.' {
        Seq::empty()
    } else {
        seq![s[0]] + spec_dot_split(s.drop_first())
    }
}

proof fn lemma_dot_split_prefix(s: Seq<char>, i: int)
    requires
        0 <= i <= s.len(),
        forall|j: int| 0 <= j < i ==> s[j] != '.',
        i == s.len() || s[i] == '.',
    ensures
        spec_dot_split(s) == s.subrange(0, i),
    decreases i,
{
    if i == 0 {
        assert(s.subrange(0, 0) =~= Seq::<char>::empty());
        if s.len() > 0 {
            assert(s[0] == '.');
        }
    } else {
        assert(s[0] != '.');
        lemma_dot_split_prefix(s.drop_first(), i - 1);
        assert(seq![s[0]] + s.drop_first().subrange(0, i - 1) =~= s.subrange(0, i));
    }
}

/// Parses the peer id out of a service full name: everything before the
/// first `.`, or the whole name if it has none.
pub fn instance_id(fullname: &str) -> (r: String)
    ensures
        r@ == spec_dot_split(fullname@),
{
    let n = fullname.unicode_len();
    let mut i: usize = 0;
    while i < n
        invariant
            n == fullname@.len(),
            i <= n,
            forall|j: int| 0 <= j < i ==> fullname@[j] != '.',
        decreases n - i,
    {
        if fullname.get_char(i) == '.' {
            proof {
                lemma_dot_split_prefix(fullname@, i as int);
            }
            let prefix = fullname.substring_char(0, i);
            return String::from_str(prefix);
        }
        i = i + 1;
    }
    proof {
        lemma_dot_split_prefix(fullname@, n as int);
        assert(fullname@.subrange(0, n as int) =~= fullname@);
    }
    String::from_str(fullname)
}

/// Decides what a resolved-service event means: a `PeerFound` for the parsed
/// peer, or nothing. A foreign service type is ignored, and this node's own
/// announcement is never emitted as a peer.
pub fn resolved_event(
    service_type: &String,
    fullname: &str,
    address: String,
    mobile: bool,
    our_id: &String,
    our_service: &String,
) -> (r: Option<PeerInfo>)
    ensures
        r is Some <==> (service_type@ == our_service@ && spec_dot_split(fullname@) != our_id@),
        r is Some ==> ({
            let info = r->0;
            &&& info.wf()
            &&& info.id@ == spec_dot_split(fullname@)
            &&& info.our_id@ == our_id@
            &&& info.address == address
            &&& info.mobile == mobile
        }),
{
    if !service_type.eq(our_service) {
        return Option::None;
    }
    let id = instance_id(fullname);
    if id.eq(our_id) {
        return Option::None;
    }
    Some(PeerInfo::new(id, our_id.clone(), address, mobile))
}

/// Decides what a removed-service event means: a `PeerLost` for the parsed
/// peer id, or nothing for a foreign service type.
pub fn removed_event(service_type: &String, fullname: &str, our_service: &String) -> (r: Option<
    String,
>)
    ensures
        r is Some <==> service_type@ == our_service@,
        r is Some ==> (r->0)@ == spec_dot_split(fullname@),
{
    if !service_type.eq(our_service) {
        return Option::None;
    }
    Some(instance_id(fullname))
}

} // verus!
