use nakamoto_client::bootstrap::{
    count_with_services, needs_dns_seeding, seed_addresses, seeding_outcome, store_step,
    ClientError, Network, StoreOutcome, StoreStage,
};
use nakamoto_client::types::{SERVICES_COMPACT_FILTERS, SERVICES_NETWORK};

#[test]
fn new_store_is_ready_at_once() {
    assert_eq!(store_step(StoreStage::Creating, StoreOutcome::Done), StoreStage::Ready);
    assert_eq!(store_step(StoreStage::Creating, StoreOutcome::Error), StoreStage::Failed);
}

#[test]
fn intact_existing_store_is_not_healed() {
    let mut s = store_step(StoreStage::Creating, StoreOutcome::Exists);
    assert_eq!(s, StoreStage::Opening);
    s = store_step(s, StoreOutcome::Done);
    assert_eq!(s, StoreStage::Checking);
    s = store_step(s, StoreOutcome::Done);
    assert_eq!(s, StoreStage::Ready);
}

#[test]
fn corrupt_store_is_healed() {
    assert_eq!(store_step(StoreStage::Checking, StoreOutcome::Error), StoreStage::Healing);
    assert_eq!(store_step(StoreStage::Healing, StoreOutcome::Done), StoreStage::Ready);
    assert_eq!(store_step(StoreStage::Healing, StoreOutcome::Error), StoreStage::Failed);
    assert_eq!(store_step(StoreStage::Opening, StoreOutcome::Error), StoreStage::Failed);
}

#[test]
fn dns_seeding_only_without_peers() {
    assert!(needs_dns_seeding(0, 0));
    assert!(!needs_dns_seeding(1, 0));
    assert!(!needs_dns_seeding(0, 3));
}

#[test]
fn seeds_get_the_network_port() {
    let seeds = vec!["seed.example.org".to_string(), "dnsseed.example.net".to_string()];
    let r = seed_addresses(&seeds, Network::Mainnet);
    assert_eq!(
        r,
        vec![("seed.example.org".to_string(), 8333), ("dnsseed.example.net".to_string(), 8333)]
    );
    assert_eq!(seed_addresses(&seeds, Network::Testnet)[0].1, 18333);
}

#[test]
fn seeding_without_peers_is_fatal() {
    assert_eq!(seeding_outcome(0), Err(ClientError::NoPeers));
    assert_eq!(seeding_outcome(4), Ok(()));
}

#[test]
fn counts_compact_filter_peers() {
    let s = vec![SERVICES_NETWORK, SERVICES_NETWORK | SERVICES_COMPACT_FILTERS, SERVICES_COMPACT_FILTERS, 0];
    assert_eq!(count_with_services(&s, SERVICES_COMPACT_FILTERS), 2);
    assert_eq!(count_with_services(&Vec::new(), SERVICES_COMPACT_FILTERS), 0);
}

#[test]
fn network_names() {
    assert_eq!(Network::Mainnet.as_str(), "mainnet");
    assert_eq!(Network::Signet.as_str(), "signet");
    assert_eq!(Network::Regtest.port(), 18444);
}
