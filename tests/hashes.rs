use nakamoto_client::hash::encode_header;
use nakamoto_client::types::{BlockHash, BlockHeader, Transaction};

/// Bytes of a hash written in the usual display order (reversed).
fn from_display_hex(s: &str) -> [u8; 32] {
    let mut out = [0u8; 32];
    for i in 0..32 {
        out[31 - i] = u8::from_str_radix(&s[2 * i..2 * i + 2], 16).unwrap();
    }
    out
}

fn genesis_header() -> BlockHeader {
    BlockHeader {
        version: 1,
        prev_blockhash: BlockHash { bytes: [0u8; 32] },
        merkle_root: from_display_hex(
            "4a5e1e4baab89f3a32518a88c31bc87f618f76673e2cc77ab2127b7afdeda33b",
        ),
        time: 1231006505,
        bits: 0x1d00ffff,
        nonce: 2083236893,
    }
}

#[test]
fn header_encodes_to_80_bytes() {
    let bytes = encode_header(&genesis_header());
    assert_eq!(bytes.len(), 80);
    assert_eq!(&bytes[0..4], &[1, 0, 0, 0]);
    assert_eq!(&bytes[68..72], &[0x29, 0xab, 0x5f, 0x49]);
    assert_eq!(&bytes[72..76], &[0xff, 0xff, 0x00, 0x1d]);
    assert_eq!(&bytes[76..80], &[0x1d, 0xac, 0x2b, 0x7c]);
}

#[test]
fn genesis_block_hash() {
    let hash = genesis_header().block_hash();
    assert_eq!(
        hash.bytes,
        from_display_hex("000000000019d6689c085ae165831e934ff763ae46a2a6c172b3f1b60a8ce26f")
    );
}

#[test]
fn txid_of_empty_serialization() {
    let tx = Transaction { raw: Vec::new() };
    let mut expected = [0u8; 32];
    let hex = "5df6e0e2761359d30a8275058e299fcc0381534545f55cf43e41983f5d4c9456";
    for i in 0..32 {
        expected[i] = u8::from_str_radix(&hex[2 * i..2 * i + 2], 16).unwrap();
    }
    assert_eq!(tx.txid().bytes, expected);
}

#[test]
fn negative_version_encodes_as_twos_complement() {
    let mut h = genesis_header();
    h.version = -1;
    let bytes = encode_header(&h);
    assert_eq!(&bytes[0..4], &[0xff, 0xff, 0xff, 0xff]);
}
