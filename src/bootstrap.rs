//! Start-up decisions of the client: how each persistent store is opened,
//! checked and healed, and when the peer cache is seeded from DNS.
use vstd::prelude::*;

use crate::types::{has_services, Height, ServiceFlags};

verus! {

/// A Bitcoin network.
#[derive(Clone, Copy, Debug, PartialEq, Eq, Structural)]
pub enum Network {
    Mainnet,
    Testnet,
    Regtest,
    Signet,
}

/// The default peer-to-peer port of a network.
pub open spec fn default_port(n: Network) -> u16 {
    match n {
        Network::Mainnet => 8333,
        Network::Testnet => 18333,
        Network::Regtest => 18444,
        Network::Signet => 38333,
    }
}

impl Network {
    /// The network's name, which names its data directory.
    pub fn as_str(&self) -> (r: &'static str)
        ensures
            *self is Mainnet ==> r@ == "mainnet"@,
            *self is Testnet ==> r@ == "testnet"@,
            *self is Regtest ==> r@ == "regtest"@,
            *self is Signet ==> r@ == "signet"@,
    {
        match self {
            Network::Mainnet => "mainnet",
            Network::Testnet => "testnet",
            Network::Regtest => "regtest",
            Network::Signet => "signet",
        }
    }

    /// The network's default peer-to-peer port.
    pub fn port(&self) -> (r: u16)
        ensures
            r == default_port(*self),
    {
        match self {
            Network::Mainnet => 8333,
            Network::Testnet => 18333,
            Network::Regtest => 18444,
            Network::Signet => 38333,
        }
    }
}

/// A progress report made while the stores load.
#[derive(Clone, Copy, Debug, PartialEq, Eq, Structural)]
pub enum Loading {
    BlockHeaderLoaded { height: Height },
    FilterHeaderLoaded { height: Height },
    FilterHeaderVerified { height: Height },
}

/// Where opening a store stands.
#[derive(Clone, Copy, Debug, PartialEq, Eq, Structural)]
pub enum StoreStage {
    /// About to create the store with the genesis record.
    Creating,
    /// The store exists; about to open it.
    Opening,
    /// Opened; about to check its integrity.
    Checking,
    /// The check failed; about to roll back to the last valid record.
    Healing,
    /// The store is usable.
    Ready,
    /// Opening failed for good.
    Failed,
}

/// How the operation of a stage ended.
#[derive(Clone, Copy, Debug, PartialEq, Eq, Structural)]
pub enum StoreOutcome {
    /// It succeeded.
    Done,
    /// Creation found the file already there.
    Exists,
    /// It failed otherwise (for a check: corruption was found).
    Error,
}

/// The stage that follows `stage` once its operation ended with `outcome`.
pub open spec fn spec_store_step(stage: StoreStage, outcome: StoreOutcome) -> StoreStage {
    match (stage, outcome) {
        (StoreStage::Creating, StoreOutcome::Done) => StoreStage::Ready,
        (StoreStage::Creating, StoreOutcome::Exists) => StoreStage::Opening,
        (StoreStage::Opening, StoreOutcome::Done) => StoreStage::Checking,
        (StoreStage::Checking, StoreOutcome::Done) => StoreStage::Ready,
        (StoreStage::Checking, _) => StoreStage::Healing,
        (StoreStage::Healing, StoreOutcome::Done) => StoreStage::Ready,
        (StoreStage::Ready, _) => StoreStage::Ready,
        _ => StoreStage::Failed,
    }
}

/// Advances the opening of a store: a new store is ready at once; an
/// existing one is opened and checked, and healed when the check fails.
/// Only a failure to create, open or heal is fatal.
pub fn store_step(stage: StoreStage, outcome: StoreOutcome) -> (r: StoreStage)
    ensures
        r == spec_store_step(stage, outcome),
{
    match (stage, outcome) {
        (StoreStage::Creating, StoreOutcome::Done) => StoreStage::Ready,
        (StoreStage::Creating, StoreOutcome::Exists) => StoreStage::Opening,
        (StoreStage::Opening, StoreOutcome::Done) => StoreStage::Checking,
        (StoreStage::Checking, StoreOutcome::Done) => StoreStage::Ready,
        (StoreStage::Checking, _) => StoreStage::Healing,
        (StoreStage::Healing, StoreOutcome::Done) => StoreStage::Ready,
        (StoreStage::Ready, _) => StoreStage::Ready,
        _ => StoreStage::Failed,
    }
}

/// A store whose integrity check passes is used as it is: it is never
/// healed.
pub proof fn lemma_intact_store_not_healed(outcome: StoreOutcome)
    requires
        outcome is Done,
    ensures
        spec_store_step(StoreStage::Checking, outcome) == StoreStage::Ready,
{
}

/// Corruption is not fatal: a failed check leads to healing, and a heal that
/// succeeds leaves the store ready.
pub proof fn lemma_corruption_healed(check: StoreOutcome)
    requires
        !(check is Done),
    ensures
        spec_store_step(StoreStage::Checking, check) == StoreStage::Healing,
        spec_store_step(StoreStage::Healing, StoreOutcome::Done) == StoreStage::Ready,
{
}

/// Errors of the client's start-up.
#[derive(Clone, Debug, PartialEq, Eq)]
pub enum ClientError {
    /// A file-system or socket operation failed.
    Io(String),
    /// A header or filter store could not be opened or healed.
    Store(String),
    /// The peer cache could not be loaded or flushed.
    PeerStore(String),
    /// No peer address is known after seeding.
    NoPeers,
}

/// Whether the peer cache must be seeded from DNS: no peer is configured
/// and the cache is empty.
pub fn needs_dns_seeding(configured: usize, cached: usize) -> (r: bool)
    ensures
        r == (configured == 0 && cached == 0),
{
    configured == 0 && cached == 0
}

/// Pairs each DNS seed with the network's default port.
pub fn seed_addresses(seeds: &Vec<String>, network: Network) -> (r: Vec<(String, u16)>)
    ensures
        r@.len() == seeds@.len(),
        forall|i: int|
            0 <= i < seeds@.len() ==> (#[trigger] r@[i]).0@ == seeds@[i]@ && r@[i].1
                == default_port(network),
{
    let port = network.port();
    let mut r: Vec<(String, u16)> = Vec::new();
    let mut i: usize = 0;
    while i < seeds.len()
        invariant
            0 <= i <= seeds@.len(),
            port == default_port(network),
            r@.len() == i,
            forall|j: int| 0 <= j < i ==> (#[trigger] r@[j]).0@ == seeds@[j]@ && r@[j].1 == port,
        decreases seeds@.len() - i,
    {
        r.push((seeds[i].clone(), port));
        i = i + 1;
    }
    r
}

/// The outcome of seeding: seeding that leaves no peer address is fatal;
/// otherwise start-up goes on, even when some seeds did not resolve.
pub fn seeding_outcome(peers_after: usize) -> (r: Result<(), ClientError>)
    ensures
        peers_after == 0 ==> r == Err::<(), ClientError>(ClientError::NoPeers),
        peers_after > 0 ==> r is Ok,
{
    if peers_after == 0 {
        Err(ClientError::NoPeers)
    } else {
        Ok(())
    }
}

/// How many of the flag sets in `s` include `required`.
pub open spec fn count_with(s: Seq<ServiceFlags>, required: ServiceFlags) -> nat
    decreases s.len(),
{
    if s.len() == 0 {
        0
    } else {
        count_with(s.drop_last(), required) + if has_services(s.last(), required) {
            1nat
        } else {
            0nat
        }
    }
}

/// Counts the peers whose services include `required`.
pub fn count_with_services(services: &Vec<ServiceFlags>, required: ServiceFlags) -> (r: usize)
    ensures
        r == count_with(services@, required),
{
    let mut n: usize = 0;
    let mut i: usize = 0;
    while i < services.len()
        invariant
            0 <= i <= services@.len(),
            n == count_with(services@.subrange(0, i as int), required),
            n <= i,
        decreases services@.len() - i,
    {
        assert(services@.subrange(0, i + 1).drop_last() =~= services@.subrange(0, i as int));
        if crate::types::services_has(services[i], required) {
            n = n + 1;
        }
        i = i + 1;
    }
    assert(services@.subrange(0, services@.len() as int) =~= services@);
    n
}

} // verus!
