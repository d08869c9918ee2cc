//! A node's own identity and grab state, and the rules by which received
//! beacons update the peer registry and raise events.
use vstd::prelude::*;

use crate::identity::{host_name, is_hyphenated_uuid, local_ip_text, random_device_id};
use crate::peer::{BeaconPacket, Peer, PeerView};
use crate::registry::PeerRegistry;

verus! {

/// The UDP port on which beacons are sent and received.
pub const DISCOVERY_PORT: u16 = 9988;

/// Time between two beacons, in milliseconds.
pub const BEACON_INTERVAL_MS: u64 = 1000;

/// Where each beacon is broadcast.
pub const BROADCAST_ADDR: &'static str = "255.255.255.255:9988";

/// The multicast group each beacon is also sent to, for networks that drop broadcast.
pub const MULTICAST_ADDR: &'static str = "224.0.0.251:9988";

/// Which of the two peer events a beacon raised.
#[derive(Debug, Clone, Copy, PartialEq, Eq, Structural)]
pub enum EventKind {
    /// The first beacon from an identifier not seen before.
    Discovered,
    /// A known peer now holds something else.
    GrabUpdate,
}

/// An event for the observers of the listener, with the record it concerns.
#[derive(Debug)]
pub struct PeerEvent {
    pub kind: EventKind,
    pub peer: Peer,
}

impl View for PeerEvent {
    type V = (EventKind, PeerView);

    open spec fn view(&self) -> (EventKind, PeerView) {
        (self.kind, self.peer@)
    }
}

/// The event that a beacon `p` raises, given the records known before it.
pub open spec fn classify(
    known: Map<Seq<char>, PeerView>,
    own_id: Seq<char>,
    p: PeerView,
) -> Option<(EventKind, PeerView)> {
    if p.id == own_id {
        None
    } else if !known.contains_key(p.id) {
        Some((EventKind::Discovered, p))
    } else if known[p.id].grab_differs(p) {
        Some((EventKind::GrabUpdate, p))
    } else {
        None
    }
}

/// The records known after a beacon `p`: our own beacons change nothing,
/// any other replaces the record for its identifier.
pub open spec fn registry_after(
    known: Map<Seq<char>, PeerView>,
    own_id: Seq<char>,
    p: PeerView,
) -> Map<Seq<char>, PeerView> {
    if p.id == own_id {
        known
    } else {
        known.insert(p.id, p)
    }
}

/// A beacon from a peer not yet known raises `Discovered` with its record;
/// the same beacon received again raises nothing.
pub proof fn lemma_repeated_beacon_one_discovery(
    known: Map<Seq<char>, PeerView>,
    own_id: Seq<char>,
    p: PeerView,
)
    requires
        p.id != own_id,
        !known.contains_key(p.id),
    ensures
        classify(known, own_id, p) == Some((EventKind::Discovered, p)),
        classify(registry_after(known, own_id, p), own_id, p) == None::<(EventKind, PeerView)>,
{
}

/// A beacon from a known peer raises `GrabUpdate` with its record exactly
/// when what it holds differs from the record, and nothing otherwise; the
/// same beacon received again raises nothing.
pub proof fn lemma_grab_change_one_update(
    known: Map<Seq<char>, PeerView>,
    own_id: Seq<char>,
    p: PeerView,
)
    requires
        p.id != own_id,
        known.contains_key(p.id),
    ensures
        classify(known, own_id, p) == if known[p.id].grab_differs(p) {
            Some((EventKind::GrabUpdate, p))
        } else {
            None
        },
        classify(registry_after(known, own_id, p), own_id, p) == None::<(EventKind, PeerView)>,
{
}

/// What an optional event says.
pub open spec fn event_view(e: Option<PeerEvent>) -> Option<(EventKind, PeerView)> {
    match e {
        Some(ev) => Some(ev@),
        None => None,
    }
}

/// The record that `ManualConnect` makes up for a peer known only by address.
pub open spec fn manual_peer(ip: Seq<char>) -> PeerView {
    PeerView {
        id: "manual-"@ + ip,
        ip: ip,
        name: "Device at "@ + ip,
        is_holding: false,
        held_file: Seq::empty(),
    }
}

/// This node's identity, what it holds, and the peers it has heard.
pub struct DiscoveryState {
    pub device_id: String,
    pub device_name: String,
    pub local_ip: String,
    pub is_holding: bool,
    pub held_file: String,
    pub peers: PeerRegistry,
}

impl DiscoveryState {
    /// The registry is sound and never lists this node, and a node holds
    /// something exactly when it names a file.
    pub open spec fn wf(&self) -> bool {
        &&& self.peers.wf()
        &&& !self.peers@.contains_key(self.device_id@)
        &&& self.is_holding <==> self.held_file@.len() > 0
    }

    /// The record that this node announces about itself.
    pub open spec fn own_record(&self) -> PeerView {
        PeerView {
            id: self.device_id@,
            ip: self.local_ip@,
            name: self.device_name@,
            is_holding: self.is_holding,
            held_file: self.held_file@,
        }
    }

    /// The same identity in both states.
    pub open spec fn same_identity(&self, other: &DiscoveryState) -> bool {
        &&& self.device_id@ == other.device_id@
        &&& self.device_name@ == other.device_name@
        &&& self.local_ip@ == other.local_ip@
    }

    /// A node that holds nothing and knows no peer, with the given
    /// identifier, the host name if there is one (else `Unknown`) and the
    /// local address if there is one (else `127.0.0.1`).
    pub fn from_identity(device_id: String, host: Option<String>, ip: Option<String>) -> (r:
        DiscoveryState)
        ensures
            r.wf(),
            r.device_id@ == device_id@,
            r.device_name@ == match host {
                Some(h) => h@,
                None => "Unknown"@,
            },
            r.local_ip@ == match ip {
                Some(a) => a@,
                None => "127.0.0.1"@,
            },
            !r.is_holding,
            r.held_file@.len() == 0,
            r.peers@ == Map::<Seq<char>, PeerView>::empty(),
    {
        let device_name = match host {
            Some(h) => h,
            None => String::from_str("Unknown"),
        };
        let local_ip = match ip {
            Some(a) => a,
            None => String::from_str("127.0.0.1"),
        };
        DiscoveryState {
            device_id,
            device_name,
            local_ip,
            is_holding: false,
            held_file: String::new(),
            peers: PeerRegistry::new(),
        }
    }

    /// A node with a fresh random identifier, this machine's name and
    /// address, holding nothing and knowing no peer.
    pub fn new() -> (r: DiscoveryState)
        ensures
            r.wf(),
            is_hyphenated_uuid(r.device_id@),
            !r.is_holding,
            r.held_file@.len() == 0,
            r.peers@ == Map::<Seq<char>, PeerView>::empty(),
    {
        let device_id = random_device_id();
        let host = host_name();
        let ip = local_ip_text();
        DiscoveryState::from_identity(device_id, host, ip)
    }

    /// Starts holding `filename`.
    pub fn set_grab(&mut self, filename: &str)
        requires
            old(self).wf(),
            filename@.len() > 0,
        ensures
            final(self).wf(),
            final(self).is_holding,
            final(self).held_file@ == filename@,
            final(self).same_identity(old(self)),
            final(self).peers@ == old(self).peers@,
    {
        self.is_holding = true;
        self.held_file = String::from_str(filename);
    }

    /// Stops holding anything.
    pub fn clear_grab(&mut self)
        requires
            old(self).wf(),
        ensures
            final(self).wf(),
            !final(self).is_holding,
            final(self).held_file@.len() == 0,
            final(self).same_identity(old(self)),
            final(self).peers@ == old(self).peers@,
    {
        self.is_holding = false;
        self.held_file = String::new();
    }

    /// The beacon this node sends now.
    pub fn beacon_packet(&self) -> (r: BeaconPacket)
        ensures
            r@ == self.own_record(),
    {
        BeaconPacket {
            id: self.device_id.clone(),
            ip: self.local_ip.clone(),
            name: self.device_name.clone(),
            is_holding: self.is_holding,
            held_file: self.held_file.clone(),
        }
    }

    /// Takes in one received beacon: our own is ignored; any other replaces
    /// the record for its identifier, and raises `Discovered` if none was
    /// there, `GrabUpdate` if the earlier record held something else, and
    /// nothing otherwise.
    pub fn receive_beacon(&mut self, packet: BeaconPacket) -> (r: Option<PeerEvent>)
        requires
            old(self).wf(),
        ensures
            final(self).wf(),
            final(self).peers@ == registry_after(old(self).peers@, old(self).device_id@, packet@),
            event_view(r) == classify(old(self).peers@, old(self).device_id@, packet@),
            packet.id@ != old(self).device_id@ ==> final(self).peers@.contains_key(packet.id@)
                && final(self).peers@[packet.id@] == packet@,
            !final(self).peers@.contains_key(final(self).device_id@),
            final(self).same_identity(old(self)),
            final(self).is_holding == old(self).is_holding,
            final(self).held_file@ == old(self).held_file@,
    {
        if packet.id == self.device_id {
            return None;
        }
        let peer = Peer::from_packet(&packet);
        let event = match self.peers.get(packet.id.as_str()) {
            None => Some(PeerEvent { kind: EventKind::Discovered, peer: peer.duplicate() }),
            Some(prev) => {
                if prev.is_holding != peer.is_holding || !(prev.held_file == peer.held_file) {
                    Some(PeerEvent { kind: EventKind::GrabUpdate, peer: peer.duplicate() })
                } else {
                    None
                }
            },
        };
        self.peers.insert(peer);
        event
    }

    /// Adds a peer known only by its address, as `manual-<ip>` named
    /// `Device at <ip>` and holding nothing, and returns its record; where
    /// that identifier is this node's own, nothing changes.
    pub fn manual_connect(&mut self, ip: &str) -> (r: Option<Peer>)
        requires
            old(self).wf(),
        ensures
            final(self).wf(),
            final(self).same_identity(old(self)),
            final(self).is_holding == old(self).is_holding,
            final(self).held_file@ == old(self).held_file@,
            final(self).peers@ == registry_after(
                old(self).peers@,
                old(self).device_id@,
                manual_peer(ip@),
            ),
            match r {
                Some(p) => p@ == manual_peer(ip@) && manual_peer(ip@).id != old(self).device_id@,
                None => manual_peer(ip@).id == old(self).device_id@,
            },
    {
        let mut id = String::from_str("manual-");
        id.append(ip);
        if id == self.device_id {
            return None;
        }
        let mut name = String::from_str("Device at ");
        name.append(ip);
        let peer = Peer {
            id,
            ip: String::from_str(ip),
            name,
            is_holding: false,
            held_file: String::new(),
        };
        let copy = peer.duplicate();
        self.peers.insert(peer);
        Some(copy)
    }
}

} // verus!
