//! Identifiers of headers and transactions: the 80-byte header encoding and
//! the double-SHA256 digest over it.
use vstd::prelude::*;

use crate::types::{BlockHash, BlockHeader, Transaction, Txid};

verus! {

/// What double SHA-256 yields for the given bytes.
pub uninterp spec fn sha256d_of(data: Seq<u8>) -> Seq<u8>;

/// Relies on `bitcoin_hashes::sha256d::Hash::hash`: the double SHA-256 digest
/// of the input, which depends on the input bytes alone.
#[verifier::external_body]
fn sha256d(data: &[u8]) -> (r: [u8; 32])
    ensures
        r@ == sha256d_of(data@),
{
    let h = <bitcoin_hashes::sha256d::Hash as bitcoin_hashes::Hash>::hash(data);
    <bitcoin_hashes::sha256d::Hash as bitcoin_hashes::Hash>::into_inner(h)
}

/// Little-endian bytes of a 32-bit value.
pub open spec fn le_u32(x: u32) -> Seq<u8> {
    seq![
        (x % 256) as u8,
        ((x / 256) % 256) as u8,
        ((x / 65536) % 256) as u8,
        ((x / 16777216) % 256) as u8,
    ]
}

/// The 80-byte encoding of a header: version, previous hash, merkle root,
/// time, bits and nonce, integers little-endian.
pub open spec fn header_bytes(h: BlockHeader) -> Seq<u8> {
    le_u32(h.version as u32) + h.prev_blockhash.bytes@ + h.merkle_root@ + le_u32(h.time) + le_u32(
        h.bits,
    ) + le_u32(h.nonce)
}

/// Whether `hash` identifies the header `h`.
pub open spec fn is_block_hash(hash: BlockHash, h: BlockHeader) -> bool {
    hash.bytes@ == sha256d_of(header_bytes(h))
}

/// Whether `txid` identifies the transaction `tx`.
pub open spec fn is_txid(txid: Txid, tx: Transaction) -> bool {
    txid.bytes@ == sha256d_of(tx.raw@)
}

fn push_le_u32(out: &mut Vec<u8>, x: u32)
    ensures
        final(out)@ == old(out)@ + le_u32(x),
{
    out.push((x % 256) as u8);
    out.push(((x / 256) % 256) as u8);
    out.push(((x / 65536) % 256) as u8);
    out.push(((x / 16777216) % 256) as u8);
    assert(final(out)@ =~= old(out)@ + le_u32(x));
}

fn push_bytes(out: &mut Vec<u8>, bytes: &[u8; 32])
    ensures
        final(out)@ == old(out)@ + bytes@,
{
    let ghost start = out@;
    let mut i: usize = 0;
    while i < 32
        invariant
            0 <= i <= 32,
            bytes@.len() == 32,
            out@ == start + bytes@.subrange(0, i as int),
        decreases 32 - i,
    {
        out.push(bytes[i]);
        i = i + 1;
        assert(out@ =~= start + bytes@.subrange(0, i as int));
    }
    assert(bytes@.subrange(0, 32) =~= bytes@);
}

/// Encodes a header as the 80 bytes that its hash is taken over.
pub fn encode_header(h: &BlockHeader) -> (r: Vec<u8>)
    ensures
        r@ == header_bytes(*h),
        r@.len() == 80,
{
    let mut out: Vec<u8> = Vec::new();
    push_le_u32(&mut out, h.version as u32);
    push_bytes(&mut out, &h.prev_blockhash.bytes);
    push_bytes(&mut out, &h.merkle_root);
    push_le_u32(&mut out, h.time);
    push_le_u32(&mut out, h.bits);
    push_le_u32(&mut out, h.nonce);
    assert(out@ =~= header_bytes(*h));
    out
}

impl BlockHeader {
    /// The hash that identifies this header.
    pub fn block_hash(&self) -> (r: BlockHash)
        ensures
            is_block_hash(r, *self),
    {
        let bytes = encode_header(self);
        BlockHash { bytes: sha256d(bytes.as_slice()) }
    }
}

impl Transaction {
    /// The identifier of this transaction.
    pub fn txid(&self) -> (r: Txid)
        ensures
            is_txid(r, *self),
    {
        Txid { bytes: sha256d(self.raw.as_slice()) }
    }
}

} // verus!
