//! Plain value types shared by the client: heights, hashes, peer addresses,
//! block headers, transactions and blocks.
use vstd::prelude::*;

verus! {

/// A block height.
pub type Height = u64;

/// Service flags advertised by a peer, as a bit set.
pub type ServiceFlags = u64;

/// No services.
pub const SERVICES_NONE: u64 = 0;

/// Peer serves full blocks.
pub const SERVICES_NETWORK: u64 = 1;

/// Peer serves compact block filters.
pub const SERVICES_COMPACT_FILTERS: u64 = 64;

/// Whether the flag set `services` includes every flag of `required`.
pub open spec fn has_services(services: u64, required: u64) -> bool {
    services & required == required
}

/// Whether `services` includes every flag of `required`.
pub fn services_has(services: ServiceFlags, required: ServiceFlags) -> (r: bool)
    ensures
        r == has_services(services, required),
{
    services & required == required
}

/// The double-SHA256 digest of a block header.
#[derive(Clone, Copy, Debug, PartialEq, Eq, PartialOrd, Ord, Hash)]
pub struct BlockHash {
    pub bytes: [u8; 32],
}

/// The double-SHA256 digest of a transaction.
#[derive(Clone, Copy, Debug, PartialEq, Eq, PartialOrd, Ord, Hash)]
pub struct Txid {
    pub bytes: [u8; 32],
}

/// An IP address: IPv4 as its 32-bit value, IPv6 as its 128-bit value.
#[derive(Clone, Copy, Debug, PartialEq, Eq, PartialOrd, Ord, Hash, Structural)]
pub enum IpAddr {
    V4(u32),
    V6(u128),
}

impl IpAddr {
    /// The "any" address of its family (`0.0.0.0` or `::`).
    pub open spec fn spec_is_unspecified(self) -> bool {
        match self {
            IpAddr::V4(a) => a == 0,
            IpAddr::V6(a) => a == 0,
        }
    }

    /// Whether this is the "any" address of its family.
    pub fn is_unspecified(&self) -> (r: bool)
        ensures
            r == self.spec_is_unspecified(),
    {
        match self {
            IpAddr::V4(a) => *a == 0,
            IpAddr::V6(a) => *a == 0,
        }
    }
}

/// A socket address of a peer.
#[derive(Clone, Copy, Debug, PartialEq, Eq, PartialOrd, Ord, Hash, Structural)]
pub struct PeerAddr {
    pub ip: IpAddr,
    pub port: u16,
}

/// Direction of a peer connection.
#[derive(Clone, Copy, Debug, PartialEq, Eq, PartialOrd, Ord, Hash, Structural)]
pub enum Link {
    Inbound,
    Outbound,
}

/// A block header, field by field.
#[derive(Clone, Copy, Debug, PartialEq, Eq)]
pub struct BlockHeader {
    pub version: i32,
    pub prev_blockhash: BlockHash,
    pub merkle_root: [u8; 32],
    pub time: u32,
    pub bits: u32,
    pub nonce: u32,
}

/// A transaction, held as its serialization without witness data.
#[derive(Clone, Debug, PartialEq, Eq)]
pub struct Transaction {
    pub raw: Vec<u8>,
}

/// A block: its header and its transactions.
#[derive(Clone, Debug, PartialEq, Eq)]
pub struct Block {
    pub header: BlockHeader,
    pub txdata: Vec<Transaction>,
}

/// Fee rates observed in a block.
#[derive(Clone, Copy, Debug, PartialEq, Eq)]
pub struct FeeEstimate {
    pub low: u64,
    pub median: u64,
    pub high: u64,
}

} // verus!
