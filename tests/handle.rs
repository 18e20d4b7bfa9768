use nakamoto_client::handle::{
    addr_matches, connected_link, filter_range, is_disconnect_of, known_height_hash, synced_hash,
    HandleError, PeerWait, PeersWait, DEFAULT_TIMEOUT_SECS,
};
use nakamoto_client::spv::ProtocolEvent;
use nakamoto_client::types::{
    services_has, BlockHash, BlockHeader, IpAddr, Link, PeerAddr, SERVICES_COMPACT_FILTERS,
    SERVICES_NETWORK,
};

fn v4(a: u32, port: u16) -> PeerAddr {
    PeerAddr { ip: IpAddr::V4(a), port }
}

fn negotiated(addr: PeerAddr, services: u64, height: u64) -> ProtocolEvent {
    ProtocolEvent::PeerNegotiated {
        addr,
        link: Link::Outbound,
        services,
        user_agent: "/test/".to_string(),
        height,
        version: 70016,
    }
}

#[test]
fn empty_filter_range_is_rejected() {
    assert_eq!(filter_range(10, 9), Err(HandleError::EmptyFilterRange));
    assert_eq!(filter_range(10, 10), Ok((10, 10)));
    assert_eq!(filter_range(0, 5), Ok((0, 5)));
}

#[test]
fn unspecified_address_matches_by_port() {
    let any = v4(0, 8333);
    assert!(addr_matches(any, v4(0x0a000001, 8333)));
    assert!(!addr_matches(any, v4(0x0a000001, 8334)));
    let any6 = PeerAddr { ip: IpAddr::V6(0), port: 18333 };
    assert!(addr_matches(any6, v4(0x0a000001, 18333)));
    let exact = v4(0x0a000001, 8333);
    assert!(addr_matches(exact, v4(0x0a000001, 8333)));
    assert!(!addr_matches(exact, v4(0x0a000002, 8333)));
}

#[test]
fn connect_wait_ends_on_matching_peer() {
    let target = v4(0, 8333);
    let e = ProtocolEvent::PeerConnected { addr: v4(0x01020304, 8333), link: Link::Inbound };
    assert_eq!(connected_link(&e, target), Some(Link::Inbound));
    let e = ProtocolEvent::PeerConnected { addr: v4(0x01020304, 9000), link: Link::Inbound };
    assert_eq!(connected_link(&e, target), None);
    assert_eq!(connected_link(&ProtocolEvent::Other, target), None);
}

#[test]
fn disconnect_wait_ends_on_matching_peer() {
    let target = v4(0x01020304, 8333);
    let e = ProtocolEvent::PeerDisconnected { addr: target, reason: "gone".to_string() };
    assert!(is_disconnect_of(&e, target));
    assert!(!is_disconnect_of(&e, v4(0x01020305, 8333)));
    let c = ProtocolEvent::PeerConnected { addr: target, link: Link::Outbound };
    assert!(!is_disconnect_of(&c, target));
}

#[test]
fn wait_for_peers_returns_at_once_when_enough() {
    let peers = vec![(v4(1, 1), 10, SERVICES_NETWORK), (v4(2, 2), 20, SERVICES_NETWORK)];
    match PeerWait::start(2, SERVICES_NETWORK, peers.clone()) {
        PeersWait::Done(v) => assert_eq!(v, peers),
        PeersWait::Waiting(_) => panic!("expected an immediate result"),
    }
}

#[test]
fn wait_for_peers_collects_negotiated_peers() {
    let required = SERVICES_NETWORK | SERVICES_COMPACT_FILTERS;
    let peers = vec![(v4(1, 1), 10, required)];
    let mut w = match PeerWait::start(3, required, peers) {
        PeersWait::Waiting(w) => w,
        PeersWait::Done(_) => panic!("expected a wait"),
    };
    // Lacks the filter service: ignored.
    assert_eq!(w.on_event(&negotiated(v4(2, 2), SERVICES_NETWORK, 5)), None);
    // A peer already held is updated, not counted twice.
    assert_eq!(w.on_event(&negotiated(v4(1, 1), required, 11)), None);
    assert_eq!(w.on_event(&ProtocolEvent::Other), None);
    assert_eq!(w.on_event(&negotiated(v4(3, 3), required, 12)), None);
    let r = w.on_event(&negotiated(v4(4, 4), required, 13)).unwrap();
    assert_eq!(r, vec![(v4(1, 1), 11, required), (v4(3, 3), 12, required), (v4(4, 4), 13, required)]);
}

#[test]
fn wait_for_peers_dedups_known_peers() {
    let peers = vec![(v4(1, 1), 10, SERVICES_NETWORK), (v4(1, 1), 12, SERVICES_NETWORK)];
    let mut w = match PeerWait::start(1, SERVICES_NETWORK, peers) {
        PeersWait::Waiting(w) => w,
        PeersWait::Done(_) => panic!("expected a wait"),
    };
    let r = w.on_event(&negotiated(v4(9, 9), 0, 1));
    assert_eq!(r, Some(vec![(v4(1, 1), 12, SERVICES_NETWORK)]));
}

#[test]
fn wait_for_height_takes_known_header_or_synced_event() {
    let h = BlockHeader {
        version: 2,
        prev_blockhash: BlockHash { bytes: [1u8; 32] },
        merkle_root: [2u8; 32],
        time: 3,
        bits: 4,
        nonce: 5,
    };
    assert_eq!(known_height_hash(Some(h)), Some(h.block_hash()));
    assert_eq!(known_height_hash(None), None);

    let hash = BlockHash { bytes: [5u8; 32] };
    let e = ProtocolEvent::ChainSynced { hash, height: 500 };
    assert_eq!(synced_hash(&e, 500), Some(hash));
    assert_eq!(synced_hash(&e, 499), None);
    assert_eq!(synced_hash(&ProtocolEvent::PeerHeightUpdated { height: 500 }, 500), None);
}

#[test]
fn service_flags_and_timeout() {
    assert!(services_has(SERVICES_NETWORK | SERVICES_COMPACT_FILTERS, SERVICES_COMPACT_FILTERS));
    assert!(!services_has(SERVICES_NETWORK, SERVICES_COMPACT_FILTERS));
    assert!(services_has(SERVICES_NETWORK, 0));
    assert_eq!(DEFAULT_TIMEOUT_SECS, 60);
}
