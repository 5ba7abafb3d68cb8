//! Peer discovery: the beacon, the listener's rule, the janitor's sweep, and
//! what a registry holds after any run of the two.

use crate::registry::{age, fresh, with_beacon, without_stale, PeerAddr, PeerRegistry};
use vstd::prelude::*;

verus! {

/// The port that beacons are sent to and connections are accepted on.
pub const SERVICE_PORT: u16 = 3000;

/// The time between two beacons of one node, in milliseconds.
pub const BROADCAST_INTERVAL_MS: u64 = 5000;

/// The time between two sweeps of the janitor, in milliseconds.
pub const SWEEP_INTERVAL_MS: u64 = 2000;

/// The age at which a peer without a new beacon leaves the registry, in
/// milliseconds.
pub const PEER_TIMEOUT_MS: u64 = 15000;

/// The payload of a beacon: the ASCII text `HELLO_P2P`.
pub open spec fn discovery_token_bytes() -> Seq<u8> {
    seq![0x48u8, 0x45u8, 0x4Cu8, 0x4Cu8, 0x4Fu8, 0x5Fu8, 0x50u8, 0x32u8, 0x50u8]
}

/// The payload that a node broadcasts to announce itself.
pub fn discovery_token() -> (token: [u8; 9])
    ensures
        token@ == discovery_token_bytes(),
{
    let token: [u8; 9] = [0x48, 0x45, 0x4C, 0x4C, 0x4F, 0x5F, 0x50, 0x32, 0x50];
    assert(token@ =~= discovery_token_bytes());
    token
}

/// The address that beacons are sent to: the limited broadcast address
/// 255.255.255.255 on the given port.
pub fn broadcast_target(port: u16) -> (target: PeerAddr)
    ensures
        target == (PeerAddr::V4 { ip: 0xFFFF_FFFFu32, port }),
{
    PeerAddr::V4 { ip: 0xFFFF_FFFF, port }
}

/// Whether a received datagram is a beacon: its payload is the discovery
/// token, byte for byte and nothing more.
pub fn is_beacon(payload: &[u8]) -> (beacon: bool)
    ensures
        beacon <==> payload@ == discovery_token_bytes(),
{
    let token = discovery_token();
    if payload.len() != 9 {
        return false;
    }
    let mut i: usize = 0;
    while i < 9
        invariant
            i <= 9,
            payload@.len() == 9,
            token@ == discovery_token_bytes(),
            forall|k: int| 0 <= k < i ==> payload@[k] == token@[k],
        decreases 9 - i,
    {
        if payload[i] != token[i] {
            return false;
        }
        i += 1;
    }
    assert(payload@ =~= discovery_token_bytes());
    true
}

/// The listener's rule for one datagram received from `source` at time `now`:
/// a beacon is recorded, anything else is dropped and changes nothing.
pub fn on_datagram(registry: &mut PeerRegistry, payload: &[u8], source: PeerAddr, now: u64) -> (recorded:
    bool)
    ensures
        recorded <==> payload@ == discovery_token_bytes(),
        final(registry)@ == (if recorded {
            with_beacon(old(registry)@, source, now)
        } else {
            old(registry)@
        }),
{
    if is_beacon(payload) {
        registry.record_beacon(source, now);
        true
    } else {
        false
    }
}

/// The janitor's sweep at time `now`: every peer whose last beacon is
/// `PEER_TIMEOUT_MS` old or older leaves the registry.
pub fn sweep(registry: &mut PeerRegistry, now: u64)
    ensures
        final(registry)@ == without_stale(old(registry)@, now, PEER_TIMEOUT_MS),
{
    registry.evict_stale(now, PEER_TIMEOUT_MS);
}

/// Something that happens to a registry: a beacon is heard, or the janitor
/// sweeps.
#[derive(Clone, Copy, Debug, PartialEq, Eq, Structural)]
pub enum RegistryEvent {
    Beacon { addr: PeerAddr, at: u64 },
    Sweep { now: u64 },
}

impl RegistryEvent {
    /// The clock reading at which the event happens.
    pub open spec fn time(self) -> u64 {
        match self {
            RegistryEvent::Beacon { at, .. } => at,
            RegistryEvent::Sweep { now } => now,
        }
    }
}

/// The registry after one event.
pub open spec fn after_event(peers: Map<PeerAddr, u64>, event: RegistryEvent, timeout: u64) -> Map<
    PeerAddr,
    u64,
> {
    match event {
        RegistryEvent::Beacon { addr, at } => with_beacon(peers, addr, at),
        RegistryEvent::Sweep { now } => without_stale(peers, now, timeout),
    }
}

/// The registry that an empty one becomes after the events, first to last.
pub open spec fn replay(events: Seq<RegistryEvent>, timeout: u64) -> Map<PeerAddr, u64>
    decreases events.len(),
{
    if events.len() == 0 {
        Map::empty()
    } else {
        after_event(replay(events.drop_last(), timeout), events.last(), timeout)
    }
}

/// The events happen on a clock that never runs backwards.
pub open spec fn in_time_order(events: Seq<RegistryEvent>) -> bool {
    forall|i: int, j: int|
        0 <= i <= j < events.len() ==> (#[trigger] events[i]).time() <= (#[trigger] events[j]).time()
}

/// The event is a beacon from `addr`.
pub open spec fn is_beacon_from(event: RegistryEvent, addr: PeerAddr) -> bool {
    event matches RegistryEvent::Beacon { addr: a, .. } && a == addr
}

/// Among the events is a beacon from `addr` that is younger than `timeout` at
/// time `now`.
pub open spec fn heard_within(events: Seq<RegistryEvent>, addr: PeerAddr, now: u64, timeout: u64) -> bool {
    exists|i: int|
        0 <= i < events.len() && is_beacon_from(#[trigger] events[i], addr) && fresh(
            now,
            events[i].time(),
            timeout,
        )
}

/// Applies one event to the registry.
pub fn apply_event(registry: &mut PeerRegistry, event: RegistryEvent, timeout: u64)
    ensures
        final(registry)@ == after_event(old(registry)@, event, timeout),
{
    match event {
        RegistryEvent::Beacon { addr, at } => registry.record_beacon(addr, at),
        RegistryEvent::Sweep { now } => registry.evict_stale(now, timeout),
    }
}

spec fn latest_time(events: Seq<RegistryEvent>) -> u64 {
    if events.len() == 0 {
        0
    } else {
        events.last().time()
    }
}

/// What holds of a replayed registry: a present address carries the time of
/// its latest beacon, and every beacon of an absent address has expired.
spec fn replay_invariant(events: Seq<RegistryEvent>, timeout: u64, addr: PeerAddr) -> bool {
    let peers = replay(events, timeout);
    if peers.dom().contains(addr) {
        &&& exists|i: int|
            0 <= i < events.len() && #[trigger] events[i] == (RegistryEvent::Beacon {
                addr,
                at: peers[addr],
            })
        &&& forall|i: int|
            0 <= i < events.len() && is_beacon_from(#[trigger] events[i], addr) ==> events[i].time()
                <= peers[addr]
    } else {
        forall|i: int|
            0 <= i < events.len() && is_beacon_from(#[trigger] events[i], addr) ==> age(
                latest_time(events),
                events[i].time(),
            ) >= timeout
    }
}

proof fn lemma_replay_invariant(events: Seq<RegistryEvent>, timeout: u64, addr: PeerAddr)
    requires
        in_time_order(events),
    ensures
        replay_invariant(events, timeout, addr),
    decreases events.len(),
{
    if events.len() > 0 {
        let prev = events.drop_last();
        let last = events.last();
        assert(in_time_order(prev)) by {
            assert forall|i: int, j: int| 0 <= i <= j < prev.len() implies (#[trigger] prev[i]).time()
                <= (#[trigger] prev[j]).time() by {
                assert(events[i].time() <= events[j].time());
            }
        }
        lemma_replay_invariant(prev, timeout, addr);
        let before = replay(prev, timeout);
        let peers = replay(events, timeout);
        assert forall|i: int| 0 <= i < prev.len() implies #[trigger] events[i].time()
            <= latest_time(prev) && latest_time(prev) <= last.time() by {
            assert(events[i] == prev[i]);
            assert(prev[i].time() <= prev[prev.len() - 1].time());
            assert(events[prev.len() - 1].time() <= events[events.len() - 1].time());
        }
        if peers.dom().contains(addr) {
            if is_beacon_from(last, addr) {
                assert(events[events.len() - 1] == (RegistryEvent::Beacon { addr, at: peers[addr] }));
                assert forall|i: int|
                    0 <= i < events.len() && is_beacon_from(
                        #[trigger] events[i],
                        addr,
                    ) implies events[i].time() <= peers[addr] by {
                    assert(events[i].time() <= events[events.len() - 1].time());
                }
            } else {
                assert(before.dom().contains(addr));
                assert(peers[addr] == before[addr]);
                let k = choose|i: int|
                    0 <= i < prev.len() && #[trigger] prev[i] == (RegistryEvent::Beacon {
                        addr,
                        at: before[addr],
                    });
                assert(events[k] == prev[k]);
                assert forall|i: int|
                    0 <= i < events.len() && is_beacon_from(
                        #[trigger] events[i],
                        addr,
                    ) implies events[i].time() <= peers[addr] by {
                    assert(i < prev.len());
                    assert(events[i] == prev[i]);
                }
            }
        } else {
            assert(!is_beacon_from(last, addr));
            assert forall|i: int|
                0 <= i < events.len() && is_beacon_from(#[trigger] events[i], addr) implies age(
                latest_time(events),
                events[i].time(),
            ) >= timeout by {
                assert(i < prev.len());
                assert(events[i] == prev[i]);
                assert(events[i].time() <= latest_time(prev) && latest_time(prev) <= last.time());
                if before.dom().contains(addr) {
                    assert(prev[i].time() <= before[addr]);
                    assert(last is Sweep);
                    assert(!fresh(last.time(), before[addr], timeout));
                } else {
                    assert(age(latest_time(prev), prev[i].time()) >= timeout);
                }
            }
        }
    }
}

/// An address is in the registry after a sweep exactly if a beacon from it
/// was heard less than `timeout` before the sweep.
///
/// The events are any beacons and earlier sweeps, on a clock that does not
/// run backwards and has not passed `now`; the registry starts empty.
pub proof fn lemma_present_iff_heard_within(
    events: Seq<RegistryEvent>,
    now: u64,
    timeout: u64,
    addr: PeerAddr,
)
    requires
        in_time_order(events),
        forall|i: int| 0 <= i < events.len() ==> (#[trigger] events[i]).time() <= now,
    ensures
        replay(events.push(RegistryEvent::Sweep { now }), timeout).dom().contains(addr)
            <==> heard_within(events, addr, now, timeout),
{
    let all = events.push(RegistryEvent::Sweep { now });
    assert(all.drop_last() == events);
    assert(in_time_order(all)) by {
        assert forall|i: int, j: int| 0 <= i <= j < all.len() implies (#[trigger] all[i]).time() <= (
        #[trigger] all[j]).time() by {
            if j < events.len() {
                assert(events[i].time() <= events[j].time());
            } else if i < events.len() {
                assert(events[i].time() <= now);
            }
        }
    }
    lemma_replay_invariant(all, timeout, addr);
    lemma_replay_invariant(events, timeout, addr);
    let before = replay(events, timeout);
    let peers = replay(all, timeout);
    assert(peers == without_stale(before, now, timeout));
    if peers.dom().contains(addr) {
        let k = choose|i: int|
            0 <= i < events.len() && #[trigger] events[i] == (RegistryEvent::Beacon {
                addr,
                at: before[addr],
            });
        assert(heard_within(events, addr, now, timeout));
    }
    if heard_within(events, addr, now, timeout) {
        let k = choose|i: int|
            0 <= i < events.len() && is_beacon_from(#[trigger] events[i], addr) && fresh(
                now,
                events[i].time(),
                timeout,
            );
        assert(all[k] == events[k]);
        assert(is_beacon_from(all[k], addr));
        if !peers.dom().contains(addr) {
            assert(age(latest_time(all), all[k].time()) >= timeout);
        }
    }
}

/// No record outlives the timeout by more than the time since the last
/// sweep: whatever a sweep at `swept_at` left in the registry is, at any
/// later time, younger than the timeout plus the time that has passed since.
pub proof fn lemma_staleness_is_bounded(
    peers: Map<PeerAddr, u64>,
    swept_at: u64,
    timeout: u64,
    later: u64,
    addr: PeerAddr,
)
    requires
        swept_at <= later,
        without_stale(peers, swept_at, timeout).dom().contains(addr),
    ensures
        without_stale(peers, swept_at, timeout)[addr] == peers[addr],
        age(later, peers[addr]) < timeout + (later - swept_at),
{
}

} // verus!
