use airshare::discovery::{DiscoveryState, EventKind, PeerEvent};
use airshare::peer::BeaconPacket;

fn packet(id: &str, ip: &str, name: &str, holding: bool, file: &str) -> BeaconPacket {
    BeaconPacket {
        id: id.to_string(),
        ip: ip.to_string(),
        name: name.to_string(),
        is_holding: holding,
        held_file: file.to_string(),
    }
}

fn node(id: &str) -> DiscoveryState {
    DiscoveryState::from_identity(id.to_string(), Some("laptop".to_string()), Some("10.0.0.2".to_string()))
}

fn kind_of(e: &Option<PeerEvent>) -> Option<EventKind> {
    e.as_ref().map(|ev| ev.kind)
}

#[test]
fn scenario_discovery_then_release_then_quiet() {
    let mut b = node("B");
    let first = b.receive_beacon(packet("A", "10.0.0.5", "Phone", true, "photo.jpg"));
    let ev = first.expect("a new peer raises an event");
    assert_eq!(ev.kind, EventKind::Discovered);
    assert_eq!(ev.peer.id, "A");
    assert_eq!(ev.peer.ip, "10.0.0.5");
    assert_eq!(ev.peer.name, "Phone");
    assert!(ev.peer.is_holding);
    assert_eq!(ev.peer.held_file, "photo.jpg");

    let second = b.receive_beacon(packet("A", "10.0.0.5", "Phone", false, ""));
    let ev = second.expect("a change of grab raises an event");
    assert_eq!(ev.kind, EventKind::GrabUpdate);
    assert!(!ev.peer.is_holding);
    assert_eq!(ev.peer.held_file, "");

    let third = b.receive_beacon(packet("A", "10.0.0.5", "Phone", false, ""));
    assert!(third.is_none());
    let rec = b.peers.get("A").unwrap();
    assert!(!rec.is_holding);
}

#[test]
fn unchanged_packet_twice_gives_one_event() {
    let mut s = node("me");
    let p = packet("peer-1", "192.168.1.4", "Desk", false, "");
    assert_eq!(kind_of(&s.receive_beacon(p.clone())), Some(EventKind::Discovered));
    assert_eq!(kind_of(&s.receive_beacon(p)), None);
}

#[test]
fn each_grab_change_gives_one_update() {
    let mut s = node("me");
    assert_eq!(kind_of(&s.receive_beacon(packet("p", "1.1.1.1", "P", false, ""))), Some(EventKind::Discovered));
    assert_eq!(kind_of(&s.receive_beacon(packet("p", "1.1.1.1", "P", true, "a.txt"))), Some(EventKind::GrabUpdate));
    assert_eq!(kind_of(&s.receive_beacon(packet("p", "1.1.1.1", "P", true, "a.txt"))), None);
    assert_eq!(kind_of(&s.receive_beacon(packet("p", "1.1.1.1", "P", true, "b.txt"))), Some(EventKind::GrabUpdate));
    assert_eq!(kind_of(&s.receive_beacon(packet("p", "1.1.1.1", "P", false, ""))), Some(EventKind::GrabUpdate));
    assert_eq!(kind_of(&s.receive_beacon(packet("p", "1.1.1.1", "P", false, ""))), None);
}

#[test]
fn name_or_address_change_refreshes_without_event() {
    let mut s = node("me");
    s.receive_beacon(packet("p", "1.1.1.1", "Old", false, ""));
    let e = s.receive_beacon(packet("p", "2.2.2.2", "New", false, ""));
    assert!(e.is_none());
    let rec = s.peers.get("p").unwrap();
    assert_eq!(rec.ip, "2.2.2.2");
    assert_eq!(rec.name, "New");
}

#[test]
fn own_beacon_is_ignored() {
    let mut s = node("self-id");
    let e = s.receive_beacon(packet("self-id", "10.0.0.2", "laptop", true, "x"));
    assert!(e.is_none());
    assert!(!s.peers.contains("self-id"));
    assert!(s.peers.get("self-id").is_none());
}

#[test]
fn received_packet_is_recorded() {
    let mut s = node("me");
    s.receive_beacon(packet("x", "10.1.1.1", "X", true, "f.bin"));
    s.receive_beacon(packet("y", "10.1.1.2", "Y", false, ""));
    assert!(s.peers.contains("x"));
    assert!(s.peers.contains("y"));
    assert!(!s.peers.contains("z"));
    let x = s.peers.get("x").unwrap();
    assert_eq!(x.held_file, "f.bin");
    assert!(x.is_holding);
}

#[test]
fn from_identity_defaults() {
    let s = DiscoveryState::from_identity("id".to_string(), None, None);
    assert_eq!(s.device_name, "Unknown");
    assert_eq!(s.local_ip, "127.0.0.1");
    assert!(!s.is_holding);
    assert_eq!(s.held_file, "");
    let t = node("id2");
    assert_eq!(t.device_name, "laptop");
    assert_eq!(t.local_ip, "10.0.0.2");
}

#[test]
fn new_state_has_uuid_identifier() {
    let s = DiscoveryState::new();
    let id: Vec<char> = s.device_id.chars().collect();
    assert_eq!(id.len(), 36);
    for (i, c) in id.iter().enumerate() {
        if i == 8 || i == 13 || i == 18 || i == 23 {
            assert_eq!(*c, '-');
        } else {
            assert!(c.is_ascii_hexdigit() && !c.is_ascii_uppercase());
        }
    }
    assert!(!s.is_holding);
    assert!(!s.device_name.is_empty());
    assert!(!s.local_ip.is_empty());
}

#[test]
fn set_and_clear_grab() {
    let mut s = node("me");
    s.set_grab("report.pdf");
    assert!(s.is_holding);
    assert_eq!(s.held_file, "report.pdf");
    let p = s.beacon_packet();
    assert!(p.is_holding);
    assert_eq!(p.held_file, "report.pdf");
    s.clear_grab();
    assert!(!s.is_holding);
    assert_eq!(s.held_file, "");
    let p = s.beacon_packet();
    assert!(!p.is_holding);
    assert_eq!(p.held_file, "");
}

#[test]
fn beacon_carries_identity() {
    let s = node("me");
    let p = s.beacon_packet();
    assert_eq!(p.id, "me");
    assert_eq!(p.ip, "10.0.0.2");
    assert_eq!(p.name, "laptop");
}

#[test]
fn manual_connect_adds_peer() {
    let mut s = node("me");
    let p = s.manual_connect("192.168.43.1").unwrap();
    assert_eq!(p.id, "manual-192.168.43.1");
    assert_eq!(p.ip, "192.168.43.1");
    assert_eq!(p.name, "Device at 192.168.43.1");
    assert!(!p.is_holding);
    assert_eq!(p.held_file, "");
    assert!(s.peers.contains("manual-192.168.43.1"));
}

#[test]
fn manual_connect_refuses_own_identifier() {
    let mut s = node("manual-1.2.3.4");
    assert!(s.manual_connect("1.2.3.4").is_none());
    assert!(!s.peers.contains("manual-1.2.3.4"));
}
