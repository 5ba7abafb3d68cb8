//! The registry of discovered peers: which addresses were heard from, and when.

use vstd::prelude::*;

verus! {

/// The network address of a peer: an IP address and a port, as plain numbers.
///
/// `V4` carries the four octets of the address as one big-endian number, `V6`
/// the sixteen octets together with the flow label and the scope of the
/// socket address.
#[derive(Clone, Copy, Debug, PartialEq, Eq, Structural, Hash)]
#[allow(inconsistent_fields)]
pub enum PeerAddr {
    V4 { ip: u32, port: u16 },
    V6 { ip: u128, port: u16, flowinfo: u32, scope_id: u32 },
}

/// One discovered peer and the time of the last beacon heard from it, in
/// milliseconds on the node's monotonic clock.
#[derive(Clone, Copy, Debug, PartialEq, Eq, Structural)]
pub struct PeerRecord {
    pub addr: PeerAddr,
    pub last_seen: u64,
}

/// The time that has passed between `seen` and `now`; zero where the clock
/// reading `now` is the earlier one.
pub open spec fn age(now: u64, seen: u64) -> int {
    if now >= seen {
        now - seen
    } else {
        0
    }
}

/// A record is fresh while less than `timeout` has passed since its beacon.
pub open spec fn fresh(now: u64, seen: u64, timeout: u64) -> bool {
    age(now, seen) < timeout
}

/// The registry after a beacon from `addr` at time `now`.
pub open spec fn with_beacon(peers: Map<PeerAddr, u64>, addr: PeerAddr, now: u64) -> Map<
    PeerAddr,
    u64,
> {
    peers.insert(addr, now)
}

/// The registry after every record of age `timeout` or more has left it.
pub open spec fn without_stale(peers: Map<PeerAddr, u64>, now: u64, timeout: u64) -> Map<
    PeerAddr,
    u64,
> {
    Map::new(|a: PeerAddr| peers.dom().contains(a) && fresh(now, peers[a], timeout), |a: PeerAddr| peers[a])
}

spec fn listed(s: Seq<PeerRecord>, a: PeerAddr) -> bool {
    exists|i: int| 0 <= i < s.len() && (#[trigger] s[i]).addr == a
}

spec fn slot_of(s: Seq<PeerRecord>, a: PeerAddr) -> int {
    choose|i: int| 0 <= i < s.len() && (#[trigger] s[i]).addr == a
}

spec fn distinct_addrs(s: Seq<PeerRecord>) -> bool {
    forall|i: int, j: int| 0 <= i < j < s.len() ==> (#[trigger] s[i]).addr != (#[trigger] s[j]).addr
}

spec fn as_map(s: Seq<PeerRecord>) -> Map<PeerAddr, u64> {
    Map::new(|a: PeerAddr| listed(s, a), |a: PeerAddr| s[slot_of(s, a)].last_seen)
}

spec fn addrs_of(s: Seq<PeerRecord>) -> Seq<PeerAddr> {
    Seq::new(s.len(), |i: int| s[i].addr)
}

/// The addresses of distinct records are as many as the records, and they
/// are the domain of the map.
proof fn lemma_addrs(s: Seq<PeerRecord>)
    requires
        distinct_addrs(s),
    ensures
        addrs_of(s).no_duplicates(),
        forall|a: PeerAddr| addrs_of(s).contains(a) <==> as_map(s).dom().contains(a),
        as_map(s).dom().len() == s.len(),
{
    let addrs = addrs_of(s);
    assert forall|x: int, y: int| 0 <= x < addrs.len() && 0 <= y < addrs.len() && x != y implies addrs[x]
        != addrs[y] by {
        if x < y {
            assert(s[x].addr != s[y].addr);
        } else {
            assert(s[y].addr != s[x].addr);
        }
    }
    assert forall|a: PeerAddr| addrs.contains(a) <==> as_map(s).dom().contains(a) by {
        if addrs.contains(a) {
            let k = choose|k: int| 0 <= k < addrs.len() && addrs[k] == a;
            assert(s[k].addr == a);
        }
        if listed(s, a) {
            assert(addrs[slot_of(s, a)] == a);
        }
    }
    addrs.unique_seq_to_set();
    assert(addrs.to_set() =~= as_map(s).dom());
}

proof fn lemma_slot(s: Seq<PeerRecord>, i: int)
    requires
        distinct_addrs(s),
        0 <= i < s.len(),
    ensures
        listed(s, s[i].addr),
        slot_of(s, s[i].addr) == i,
        as_map(s).dom().contains(s[i].addr),
        as_map(s)[s[i].addr] == s[i].last_seen,
{
    let a = s[i].addr;
    assert(listed(s, a));
    let k = slot_of(s, a);
    assert(0 <= k < s.len() && s[k].addr == a);
    if k < i {
        assert(s[k].addr != s[i].addr);
    } else if i < k {
        assert(s[i].addr != s[k].addr);
    }
}

/// The peers that were discovered and are not yet expired, each address once.
pub struct PeerRegistry {
    records: Vec<PeerRecord>,
}

impl View for PeerRegistry {
    type V = Map<PeerAddr, u64>;

    /// The registry as a map from each known address to the time of its last
    /// beacon.
    closed spec fn view(&self) -> Map<PeerAddr, u64> {
        as_map(self.records@)
    }
}

impl PeerRegistry {
    #[verifier::type_invariant]
    spec fn well_formed(&self) -> bool {
        distinct_addrs(self.records@)
    }

    /// A registry that knows no peer.
    pub fn new() -> (registry: PeerRegistry)
        ensures
            registry@ == Map::<PeerAddr, u64>::empty(),
    {
        let registry = PeerRegistry { records: Vec::new() };
        assert(registry@ =~= Map::<PeerAddr, u64>::empty());
        registry
    }

    fn position(&self, addr: PeerAddr) -> (found: Option<usize>)
        ensures
            match found {
                Some(i) => i < self.records@.len() && self.records@[i as int].addr == addr,
                None => !listed(self.records@, addr),
            },
    {
        let mut i: usize = 0;
        while i < self.records.len()
            invariant
                i <= self.records@.len(),
                forall|k: int| 0 <= k < i ==> (#[trigger] self.records@[k]).addr != addr,
            decreases self.records@.len() - i,
        {
            if self.records[i].addr == addr {
                return Some(i);
            }
            i += 1;
        }
        None
    }

    /// Records a beacon from `addr` heard at time `now`: the address is
    /// inserted, or its time refreshed, and no other record changes.
    pub fn record_beacon(&mut self, addr: PeerAddr, now: u64)
        ensures
            final(self)@ == with_beacon(old(self)@, addr, now),
    {
        proof {
            use_type_invariant(&*self);
        }
        let found = self.position(addr);
        let mut records: Vec<PeerRecord> = Vec::new();
        core::mem::swap(&mut self.records, &mut records);
        let record = PeerRecord { addr, last_seen: now };
        match found {
            Some(i) => {
                proof {
                    lemma_refreshed(records@, i as int, record);
                }
                records.set(i, record);
            },
            None => {
                proof {
                    lemma_appended(records@, record);
                }
                records.push(record);
            },
        }
        self.records = records;
    }
}

/// Replacing the record of an address by a newer one of the same address
/// refreshes that address in the map and keeps the addresses distinct.
proof fn lemma_refreshed(before: Seq<PeerRecord>, i: int, record: PeerRecord)
    requires
        distinct_addrs(before),
        0 <= i < before.len(),
        before[i].addr == record.addr,
    ensures
        distinct_addrs(before.update(i, record)),
        as_map(before.update(i, record)) == with_beacon(
            as_map(before),
            record.addr,
            record.last_seen,
        ),
{
    let after = before.update(i, record);
    assert forall|x: int, y: int| 0 <= x < y < after.len() implies (#[trigger] after[x]).addr != (
    #[trigger] after[y]).addr by {
        assert(before[x].addr != before[y].addr);
    }
    assert forall|a: PeerAddr| listed(after, a) <==> listed(before, a) by {
        if listed(after, a) {
            assert(before[slot_of(after, a)].addr == a);
        }
        if listed(before, a) {
            assert(after[slot_of(before, a)].addr == a);
        }
    }
    assert forall|a: PeerAddr| listed(after, a) implies #[trigger] as_map(after)[a] == with_beacon(
        as_map(before),
        record.addr,
        record.last_seen,
    )[a] by {
        let k = slot_of(after, a);
        lemma_slot(after, k);
        lemma_slot(before, k);
    }
    assert(as_map(after) =~= with_beacon(as_map(before), record.addr, record.last_seen));
}

/// Appending the record of an address that is not listed inserts that
/// address into the map and keeps the addresses distinct.
proof fn lemma_appended(before: Seq<PeerRecord>, record: PeerRecord)
    requires
        distinct_addrs(before),
        !listed(before, record.addr),
    ensures
        distinct_addrs(before.push(record)),
        as_map(before.push(record)) == with_beacon(as_map(before), record.addr, record.last_seen),
{
    let after = before.push(record);
    assert forall|x: int, y: int| 0 <= x < y < after.len() implies (#[trigger] after[x]).addr != (
    #[trigger] after[y]).addr by {
        if y < before.len() {
            assert(before[x].addr != before[y].addr);
        } else {
            assert(before[x].addr != record.addr);
        }
    }
    assert forall|a: PeerAddr| listed(after, a) <==> (a == record.addr || listed(before, a)) by {
        if listed(after, a) {
            let k = slot_of(after, a);
            if k < before.len() {
                assert(before[k].addr == a);
            }
        }
        if listed(before, a) {
            assert(after[slot_of(before, a)].addr == a);
        }
        if a == record.addr {
            assert(after[before.len() as int].addr == a);
        }
    }
    assert forall|a: PeerAddr| listed(after, a) implies #[trigger] as_map(after)[a] == with_beacon(
        as_map(before),
        record.addr,
        record.last_seen,
    )[a] by {
        let k = slot_of(after, a);
        lemma_slot(after, k);
        if k < before.len() {
            lemma_slot(before, k);
        }
    }
    assert(as_map(after) =~= with_beacon(as_map(before), record.addr, record.last_seen));
}

impl PeerRegistry {
    /// Removes every record whose age at time `now` is `timeout` or more;
    /// the fresh records stay as they are.
    pub fn evict_stale(&mut self, now: u64, timeout: u64)
        ensures
            final(self)@ == without_stale(old(self)@, now, timeout),
    {
        proof {
            use_type_invariant(&*self);
        }
        let mut records: Vec<PeerRecord> = Vec::new();
        core::mem::swap(&mut self.records, &mut records);
        let mut kept: Vec<PeerRecord> = Vec::new();
        let mut i: usize = 0;
        while i < records.len()
            invariant
                i <= records@.len(),
                distinct_addrs(records@),
                distinct_addrs(kept@),
                forall|k: int|
                    0 <= k < kept@.len() ==> records@.take(i as int).contains(#[trigger] kept@[k])
                        && fresh(now, kept@[k].last_seen, timeout),
                forall|j: int|
                    0 <= j < i && fresh(now, (#[trigger] records@[j]).last_seen, timeout)
                        ==> kept@.contains(records@[j]),
            decreases records@.len() - i,
        {
            let record = records[i];
            let elapsed: u64 = if now >= record.last_seen {
                now - record.last_seen
            } else {
                0
            };
            let ghost earlier = kept@;
            if elapsed < timeout {
                kept.push(record);
                proof {
                    assert forall|x: int, y: int| 0 <= x < y < kept@.len() implies (
                    #[trigger] kept@[x]).addr != (#[trigger] kept@[y]).addr by {
                        if y < earlier.len() {
                            assert(earlier[x].addr != earlier[y].addr);
                        } else {
                            assert(records@.take(i as int).contains(earlier[x]));
                            let j = choose|j: int|
                                0 <= j < i && records@.take(i as int)[j] == earlier[x];
                            assert(records@[j].addr != records@[i as int].addr);
                        }
                    }
                }
            }
            proof {
                let wider = records@.take(i + 1);
                assert forall|k: int| 0 <= k < kept@.len() implies wider.contains(
                    #[trigger] kept@[k],
                ) && fresh(now, kept@[k].last_seen, timeout) by {
                    if k < earlier.len() {
                        assert(kept@[k] == earlier[k]);
                        assert(records@.take(i as int).contains(earlier[k]));
                        let j = choose|j: int|
                            0 <= j < i && records@.take(i as int)[j] == earlier[k];
                        assert(wider[j] == kept@[k]);
                    } else {
                        assert(wider[i as int] == kept@[k]);
                    }
                }
                assert forall|j: int|
                    0 <= j < i + 1 && fresh(
                        now,
                        (#[trigger] records@[j]).last_seen,
                        timeout,
                    ) implies kept@.contains(records@[j]) by {
                    if j < i {
                        assert(earlier.contains(records@[j]));
                        let k = choose|k: int| 0 <= k < earlier.len() && earlier[k] == records@[j];
                        assert(kept@[k] == records@[j]);
                    } else {
                        assert(kept@[earlier.len() as int] == records@[j]);
                    }
                }
            }
            i += 1;
        }
        proof {
            assert(records@.take(i as int) == records@);
            lemma_filtered(records@, kept@, now, timeout);
        }
        self.records = kept;
    }

    /// The addresses known at this moment, each once, in no particular order.
    pub fn snapshot(&self) -> (addrs: Vec<PeerAddr>)
        ensures
            addrs@.no_duplicates(),
            forall|a: PeerAddr| addrs@.contains(a) <==> self@.dom().contains(a),
            addrs@.len() == self@.dom().len(),
    {
        proof {
            use_type_invariant(self);
        }
        let mut addrs: Vec<PeerAddr> = Vec::new();
        let mut i: usize = 0;
        while i < self.records.len()
            invariant
                i <= self.records@.len(),
                addrs@.len() == i,
                forall|k: int| 0 <= k < i ==> #[trigger] addrs@[k] == self.records@[k].addr,
            decreases self.records@.len() - i,
        {
            addrs.push(self.records[i].addr);
            i += 1;
        }
        proof {
            assert(addrs@ =~= addrs_of(self.records@));
            lemma_addrs(self.records@);
        }
        addrs
    }

    /// The number of peers known at this moment.
    pub fn len(&self) -> (n: usize)
        ensures
            n == self@.dom().len(),
    {
        proof {
            use_type_invariant(self);
            lemma_addrs(self.records@);
        }
        self.records.len()
    }

    /// Whether no peer is known at this moment.
    pub fn is_empty(&self) -> (empty: bool)
        ensures
            empty <==> self@ == Map::<PeerAddr, u64>::empty(),
    {
        let empty = self.records.len() == 0;
        proof {
            if empty {
                assert(self@ =~= Map::<PeerAddr, u64>::empty());
            } else {
                assert(listed(self.records@, self.records@[0].addr));
                assert(self@.dom().contains(self.records@[0].addr));
            }
        }
        empty
    }

    /// The time of the last beacon heard from `addr`, if the peer is known.
    pub fn last_seen(&self, addr: PeerAddr) -> (seen: Option<u64>)
        ensures
            seen == (if self@.dom().contains(addr) {
                Some(self@[addr])
            } else {
                None
            }),
    {
        proof {
            use_type_invariant(self);
        }
        match self.position(addr) {
            Some(i) => {
                proof {
                    lemma_slot(self.records@, i as int);
                }
                Some(self.records[i].last_seen)
            },
            None => None,
        }
    }

    /// Whether `addr` is known at this moment.
    pub fn contains(&self, addr: PeerAddr) -> (known: bool)
        ensures
            known <==> self@.dom().contains(addr),
    {
        self.position(addr).is_some()
    }
}

proof fn lemma_filtered(all: Seq<PeerRecord>, kept: Seq<PeerRecord>, now: u64, timeout: u64)
    requires
        distinct_addrs(all),
        distinct_addrs(kept),
        forall|k: int|
            0 <= k < kept.len() ==> all.contains(#[trigger] kept[k]) && fresh(
                now,
                kept[k].last_seen,
                timeout,
            ),
        forall|j: int|
            0 <= j < all.len() && fresh(now, (#[trigger] all[j]).last_seen, timeout)
                ==> kept.contains(all[j]),
    ensures
        as_map(kept) == without_stale(as_map(all), now, timeout),
{
    let target = without_stale(as_map(all), now, timeout);
    assert forall|a: PeerAddr| as_map(kept).dom().contains(a) <==> target.dom().contains(a) by {
        if listed(kept, a) {
            let k = slot_of(kept, a);
            assert(all.contains(kept[k]));
            let j = choose|j: int| 0 <= j < all.len() && all[j] == kept[k];
            lemma_slot(all, j);
        }
        if target.dom().contains(a) {
            let j = slot_of(all, a);
            lemma_slot(all, j);
            assert(kept.contains(all[j]));
            let k = choose|k: int| 0 <= k < kept.len() && kept[k] == all[j];
            assert(kept[k].addr == a);
        }
    }
    assert forall|a: PeerAddr| as_map(kept).dom().contains(a) implies #[trigger] as_map(kept)[a]
        == target[a] by {
        let k = slot_of(kept, a);
        lemma_slot(kept, k);
        assert(all.contains(kept[k]));
        let j = choose|j: int| 0 <= j < all.len() && all[j] == kept[k];
        lemma_slot(all, j);
    }
    assert(as_map(kept) =~= target);
}

/// An empty registry, as a node holds it at start-up.
pub fn init_peers() -> (registry: PeerRegistry)
    ensures
        registry@ == Map::<PeerAddr, u64>::empty(),
{
    PeerRegistry::new()
}

} // verus!
