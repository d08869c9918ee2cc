//! The record that a node announces about itself and keeps about others.
use vstd::prelude::*;

verus! {

/// What a beacon or a peer record says, as mathematical values.
pub struct PeerView {
    pub id: Seq<char>,
    pub ip: Seq<char>,
    pub name: Seq<char>,
    pub is_holding: bool,
    pub held_file: Seq<char>,
}

impl PeerView {
    /// Two records differ in what a peer holds.
    pub open spec fn grab_differs(self, other: PeerView) -> bool {
        self.is_holding != other.is_holding || self.held_file != other.held_file
    }
}

/// One announcement on the wire: a node's identity and what it holds.
#[derive(Debug, Clone)]
pub struct BeaconPacket {
    pub id: String,
    pub ip: String,
    pub name: String,
    pub is_holding: bool,
    pub held_file: String,
}

impl View for BeaconPacket {
    type V = PeerView;

    open spec fn view(&self) -> PeerView {
        PeerView {
            id: self.id@,
            ip: self.ip@,
            name: self.name@,
            is_holding: self.is_holding,
            held_file: self.held_file@,
        }
    }
}

/// A remote node as the registry remembers it.
#[derive(Debug, Clone)]
pub struct Peer {
    pub id: String,
    pub ip: String,
    pub name: String,
    pub is_holding: bool,
    pub held_file: String,
}

impl View for Peer {
    type V = PeerView;

    open spec fn view(&self) -> PeerView {
        PeerView {
            id: self.id@,
            ip: self.ip@,
            name: self.name@,
            is_holding: self.is_holding,
            held_file: self.held_file@,
        }
    }
}

impl Peer {
    /// The record built from a received beacon, field for field.
    pub fn from_packet(packet: &BeaconPacket) -> (r: Peer)
        ensures
            r@ == packet@,
    {
        Peer {
            id: packet.id.clone(),
            ip: packet.ip.clone(),
            name: packet.name.clone(),
            is_holding: packet.is_holding,
            held_file: packet.held_file.clone(),
        }
    }

    /// A second record with the same contents.
    pub fn duplicate(&self) -> (r: Peer)
        ensures
            r@ == self@,
    {
        Peer {
            id: self.id.clone(),
            ip: self.ip.clone(),
            name: self.name.clone(),
            is_holding: self.is_holding,
            held_file: self.held_file.clone(),
        }
    }
}

} // verus!
