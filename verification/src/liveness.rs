//! Heartbeat-driven peer liveness.
//!
//! Where the rich discovery protocol is unavailable, presence is inferred
//! from heartbeats: each valid heartbeat records the sender under its network
//! address, and a peer is evicted once the elapsed time since its last valid
//! heartbeat reaches the configured timeout. Malformed packets never reach
//! this table — decoding rejects them first — so they cannot refresh or
//! disturb any peer's timer.

use crate::heartbeat::Packet;
use vstd::prelude::*;
use vstd::utf8::encode_utf8;

verus! {

/// A peer is live at `now` when its last heartbeat is not from the future
/// and less than `timeout` seconds old.
pub open spec fn spec_live(last: u64, now: u64, timeout: u64) -> bool {
    last <= now && now - last < timeout
}

/// Runtime form of [`spec_live`].
pub fn is_live(last: u64, now: u64, timeout: u64) -> (r: bool)
    ensures
        r == spec_live(last, now, timeout),
{
    last <= now && now - last < timeout
}

/// The pruning predicate: keeps an entry whose last heartbeat is live.
pub open spec fn live_pred(now: u64, timeout: u64) -> spec_fn(HeartbeatEntry) -> bool {
    |e: HeartbeatEntry| spec_live(e.last.timestamp, now, timeout)
}

/// One peer as the heartbeat table sees it: its network address (as text)
/// and the most recent valid heartbeat it sent.
pub struct HeartbeatEntry {
    pub address: String,
    pub last: Packet,
}

/// There is an entry for this address.
pub open spec fn spec_contains_addr(s: Seq<HeartbeatEntry>, addr: Seq<char>) -> bool {
    exists|i: int| 0 <= i < s.len() && #[trigger] s[i].address@ == addr
}

/// The index of this address's entry; meaningful only while the address is
/// present (and then unique, by `spec_entries_wf`).
pub open spec fn spec_index_of_addr(s: Seq<HeartbeatEntry>, addr: Seq<char>) -> int {
    choose|i: int| 0 <= i < s.len() && #[trigger] s[i].address@ == addr
}

/// Table invariant: one entry per address, each holding a wire-worthy packet.
pub open spec fn spec_entries_wf(s: Seq<HeartbeatEntry>) -> bool {
    &&& forall|i: int, j: int|
        #![trigger s[i].address@, s[j].address@]
        0 <= i < s.len() && 0 <= j < s.len() && i != j ==> s[i].address@ != s[j].address@
    &&& forall|i: int| 0 <= i < s.len() ==> (#[trigger] s[i]).last.wf()
}

/// The set of peers currently considered present, keyed by network address,
/// each with the most recent valid heartbeat it sent. Its view is the entry
/// sequence in first-heard order.
pub struct Peers {
    entries: Vec<HeartbeatEntry>,
}

impl View for Peers {
    type V = Seq<HeartbeatEntry>;

    closed spec fn view(&self) -> Seq<HeartbeatEntry> {
        self.entries@
    }
}

impl Peers {
    /// The table invariant; established at creation, preserved by every
    /// method.
    pub open spec fn wf(self) -> bool {
        spec_entries_wf(self@)
    }

    /// An empty table.
    pub fn new() -> (p: Peers)
        ensures
            p.wf(),
            p@ == Seq::<HeartbeatEntry>::empty(),
    {
        Peers { entries: Vec::new() }
    }

    /// How many peers are currently recorded.
    pub fn len(&self) -> (n: usize)
        ensures
            n == self@.len(),
    {
        self.entries.len()
    }

    /// Whether a peer is recorded under this address.
    pub fn contains_addr(&self, address: &String) -> (r: bool)
        ensures
            r == spec_contains_addr(self@, address@),
    {
        self.index_of_addr(address).is_some()
    }

    /// The timestamp of the last valid heartbeat heard from this address.
    pub fn last_timestamp(&self, address: &String) -> (r: Option<u64>)
        requires
            self.wf(),
        ensures
            r is Some <==> spec_contains_addr(self@, address@),
            r is Some ==> r->0 == self@[spec_index_of_addr(self@, address@)].last.timestamp,
    {
        match self.index_of_addr(address) {
            Some(i) => {
                proof {
                    assert(spec_index_of_addr(self@, address@) == i);
                }
                Some(self.entries[i].last.timestamp)
            },
            Option::None => Option::None,
        }
    }

    fn index_of_addr(&self, address: &String) -> (r: Option<usize>)
        ensures
            r is Some ==> 0 <= r->0 < self@.len() && self@[r->0 as int].address@ == address@,
            r is None ==> !spec_contains_addr(self@, address@),
            r is Some ==> spec_contains_addr(self@, address@),
    {
        let n = self.entries.len();
        let mut i: usize = 0;
        while i < n
            invariant
                n == self@.len(),
                i <= n,
                forall|j: int| 0 <= j < i ==> (#[trigger] self@[j].address@) != address@,
            decreases n - i,
        {
            if self.entries[i].address.eq(address) {
                return Some(i);
            }
            i = i + 1;
        }
        None
    }

    /// Records a valid heartbeat heard from `address`, replacing any earlier
    /// entry for that address. A node's own heartbeats (the device name
    /// matches `our_name`) are filtered out and leave the table unchanged.
    /// Returns whether the heartbeat was recorded.
    pub fn record(&mut self, address: String, packet: Packet, our_name: &str) -> (recorded: bool)
        requires
            old(self).wf(),
            packet.wf(),
        ensures
            final(self).wf(),
            recorded == (packet.device_name@ != encode_utf8(our_name@)),
            !recorded ==> final(self)@ == old(self)@,
            (recorded && !spec_contains_addr(old(self)@, address@)) ==> final(self)@ == old(
                self,
            )@.push(HeartbeatEntry { address, last: packet }),
            (recorded && spec_contains_addr(old(self)@, address@)) ==> final(self)@ == old(
                self,
            )@.update(
                spec_index_of_addr(old(self)@, address@),
                (HeartbeatEntry { address, last: packet }),
            ),
    {
        if bytes_eq(packet.device_name.as_slice(), our_name.as_bytes()) {
            return false;
        }
        match self.index_of_addr(&address) {
            Some(i) => {
                proof {
                    assert(spec_index_of_addr(self@, address@) == i);
                }
                self.entries[i] = HeartbeatEntry { address, last: packet };
                true
            },
            Option::None => {
                self.entries.push(HeartbeatEntry { address, last: packet });
                true
            },
        }
    }

    /// Evicts every peer whose last heartbeat is no longer live at `now`:
    /// exactly the live entries remain, in their original order.
    pub fn prune(&mut self, now: u64, timeout: u64)
        requires
            old(self).wf(),
        ensures
            final(self).wf(),
            final(self)@ == old(self)@.filter(live_pred(now, timeout)),
    {
        let ghost orig = self@;
        let ghost pred = live_pred(now, timeout);
        let mut source: Vec<HeartbeatEntry> = Vec::new();
        core::mem::swap(&mut source, &mut self.entries);
        proof {
            reveal(Seq::filter);
            assert(orig.subrange(0, 0) =~= Seq::<HeartbeatEntry>::empty());
            assert(orig.subrange(0, 0).filter(pred) =~= Seq::<HeartbeatEntry>::empty());
        }
        while source.len() > 0
            invariant
                source@.len() <= orig.len(),
                source@ == orig.subrange(orig.len() - source@.len(), orig.len() as int),
                self@ == orig.subrange(0, orig.len() - source@.len()).filter(pred),
                pred == live_pred(now, timeout),
                spec_entries_wf(orig),
                spec_entries_wf(self@),
                forall|q: int|
                    0 <= q < self@.len() ==> exists|j: int|
                        0 <= j < orig.len() - source@.len() && orig[j] == #[trigger] self@[q],
            decreases source@.len(),
        {
            let ghost k = orig.len() - source@.len();
            let ghost pre = self@;
            let e = source.remove(0);
            proof {
                assert(orig.subrange(k as int, orig.len() as int)[0] == orig[k as int]);
                assert(e == orig[k as int]);
                assert(source@ =~= orig.subrange(k as int + 1, orig.len() as int));
            }
            let keep = is_live(e.last.timestamp, now, timeout);
            if keep {
                proof {
                    assert forall|q: int| 0 <= q < pre.len() implies (#[trigger] pre[q]).address@
                        != e.address@ by {
                        let j = choose|j: int| 0 <= j < k && orig[j] == pre[q];
                        assert(orig[j].address@ != orig[k as int].address@);
                    }
                }
                self.entries.push(e);
            }
            proof {
                let a = orig.subrange(0, k as int);
                let b = seq![orig[k as int]];
                assert(a + b =~= orig.subrange(0, k as int + 1));
                Seq::<HeartbeatEntry>::filter_distributes_over_add(a, b, pred);
                assert(b.filter(pred) =~= if pred(e) {
                    seq![e]
                } else {
                    Seq::<HeartbeatEntry>::empty()
                }) by {
                    reveal(Seq::filter);
                    assert(b.drop_last() =~= Seq::<HeartbeatEntry>::empty());
                    assert(b.drop_last().filter(pred) =~= Seq::<HeartbeatEntry>::empty());
                    assert(b.last() == e);
                }
                if keep {
                    assert(self@ =~= pre.push(e));
                    assert(self@ =~= a.filter(pred) + b.filter(pred));
                    assert forall|i2: int, j2: int|
                        0 <= i2 < self@.len() && 0 <= j2 < self@.len() && i2 != j2 implies self@[i2].address@
                        != self@[j2].address@ by {
                        if i2 < pre.len() && j2 < pre.len() {
                            assert(pre[i2].address@ != pre[j2].address@);
                        }
                    }
                    assert forall|i2: int| 0 <= i2 < self@.len() implies (
                    #[trigger] self@[i2]).last.wf() by {
                        if i2 < pre.len() {
                            assert(pre[i2].last.wf());
                        } else {
                            assert(self@[i2] == orig[k as int]);
                        }
                    }
                    assert(spec_entries_wf(self@));
                    assert forall|q: int| 0 <= q < self@.len() implies exists|j: int|
                        0 <= j <= k && orig[j] == #[trigger] self@[q] by {
                        if q < pre.len() {
                            let j = choose|j: int| 0 <= j < k && orig[j] == pre[q];
                            assert(orig[j] == self@[q]);
                        } else {
                            assert(orig[k as int] == self@[q]);
                        }
                    }
                } else {
                    assert(self@ =~= a.filter(pred) + b.filter(pred));
                }
                assert(self@ == orig.subrange(0, k as int + 1).filter(pred));
            }
        }
        proof {
            assert(orig.subrange(0, orig.len() as int) =~= orig);
        }
    }
}

fn bytes_eq(a: &[u8], b: &[u8]) -> (r: bool)
    ensures
        r == (a@ == b@),
{
    if a.len() != b.len() {
        proof {
            assert(a@ != b@);
        }
        return false;
    }
    let n = a.len();
    let mut i: usize = 0;
    while i < n
        invariant
            n == a@.len(),
            a@.len() == b@.len(),
            i <= n,
            forall|j: int| 0 <= j < i ==> a@[j] == b@[j],
        decreases n - i,
    {
        if a[i] != b[i] {
            return false;
        }
        i = i + 1;
    }
    proof {
        assert(a@ =~= b@);
    }
    true
}

/// The chosen index of an address is the only one holding it.
proof fn lemma_index_of_addr_unique(s: Seq<HeartbeatEntry>, addr: Seq<char>, i: int)
    requires
        spec_entries_wf(s),
        0 <= i < s.len(),
        s[i].address@ == addr,
    ensures
        spec_contains_addr(s, addr),
        spec_index_of_addr(s, addr) == i,
{
    assert(spec_contains_addr(s, addr));
    let j = spec_index_of_addr(s, addr);
    assert(0 <= j < s.len() && s[j].address@ == addr);
    if i != j {
        assert(s[i].address@ != s[j].address@);
    }
}

proof fn lemma_entries_wf_drop_last(s: Seq<HeartbeatEntry>)
    requires
        spec_entries_wf(s),
        s.len() > 0,
    ensures
        spec_entries_wf(s.drop_last()),
{
    let dl = s.drop_last();
    assert forall|i: int, j: int|
        #![trigger dl[i].address@, dl[j].address@]
        0 <= i < dl.len() && 0 <= j < dl.len() && i != j implies dl[i].address@
        != dl[j].address@ by {
        assert(dl[i] == s[i]);
        assert(dl[j] == s[j]);
        assert(s[i].address@ != s[j].address@);
    }
    assert forall|i: int| 0 <= i < dl.len() implies (#[trigger] dl[i]).last.wf() by {
        assert(dl[i] == s[i]);
        assert(s[i].last.wf());
    }
}

/// What `prune` leaves behind, address by address: an address is present in
/// the filtered table exactly when it was present before and its entry's
/// last heartbeat was still live.
pub proof fn lemma_prune_membership(s: Seq<HeartbeatEntry>, now: u64, timeout: u64, addr: Seq<char>)
    requires
        spec_entries_wf(s),
    ensures
        spec_contains_addr(s.filter(live_pred(now, timeout)), addr) <==> (spec_contains_addr(
            s,
            addr,
        ) && spec_live(s[spec_index_of_addr(s, addr)].last.timestamp, now, timeout)),
    decreases s.len(),
{
    reveal(Seq::filter);
    let pred = live_pred(now, timeout);
    let f = s.filter(pred);
    if s.len() == 0 {
        assert(!spec_contains_addr(f, addr));
        assert(!spec_contains_addr(s, addr));
    } else {
        let dl = s.drop_last();
        let lst = s.last();
        let df = dl.filter(pred);
        lemma_entries_wf_drop_last(s);
        lemma_prune_membership(dl, now, timeout, addr);
        if lst.address@ == addr {
            lemma_index_of_addr_unique(s, addr, s.len() - 1);
            assert(s[spec_index_of_addr(s, addr)] == lst);
            // No other entry holds this address.
            assert forall|i: int| 0 <= i < dl.len() implies (#[trigger] dl[i]).address@
                != addr by {
                assert(dl[i] == s[i]);
                assert(s[i].address@ != s[s.len() - 1].address@);
            }
            assert(!spec_contains_addr(dl, addr));
            if pred(lst) {
                assert(f == df.push(lst));
                assert(f[f.len() - 1].address@ == addr);
                assert(spec_contains_addr(f, addr));
            } else {
                assert(f == df);
                assert forall|i: int| 0 <= i < f.len() implies (#[trigger] f[i]).address@
                    != addr by {
                    if f[i].address@ == addr {
                        assert(spec_contains_addr(df, addr));
                    }
                }
                assert(!spec_contains_addr(f, addr));
            }
        } else {
            // The last entry is not the address in question: membership on
            // both sides reduces to the shorter table.
            if spec_contains_addr(s, addr) {
                let i = spec_index_of_addr(s, addr);
                assert(s[i].address@ == addr);
                assert(i != s.len() - 1);
                assert(dl[i] == s[i]);
                lemma_index_of_addr_unique(dl, addr, i);
                assert(spec_index_of_addr(dl, addr) == i);
            }
            if spec_contains_addr(dl, addr) {
                let i = spec_index_of_addr(dl, addr);
                assert(dl[i] == s[i]);
                lemma_index_of_addr_unique(s, addr, i);
            }
            if pred(lst) {
                assert(f == df.push(lst));
                if spec_contains_addr(df, addr) {
                    let i = choose|i: int|
                        0 <= i < df.len() && #[trigger] df[i].address@ == addr;
                    assert(f[i] == df[i]);
                    assert(spec_contains_addr(f, addr));
                }
                if spec_contains_addr(f, addr) {
                    let i = choose|i: int| 0 <= i < f.len() && #[trigger] f[i].address@ == addr;
                    if i < f.len() - 1 {
                        assert(df[i] == f[i]);
                        assert(spec_contains_addr(df, addr));
                    } else {
                        assert(f[i] == lst);
                        assert(false);
                    }
                }
            } else {
                assert(f == df);
            }
        }
    }
}

/// The liveness window with heartbeats at 0 and 60 seconds and a timeout of
/// 180: after the second heartbeat the peer stays live up to (not including)
/// 240, and any prune at or after 240 evicts it.
pub proof fn lemma_liveness_window(now: u64)
    ensures
        60 <= now < 240 ==> spec_live(60, now, 180),
        now >= 240 ==> !spec_live(60, now, 180),
        now < 180 ==> spec_live(0, now, 180),
{
}

} // verus!
