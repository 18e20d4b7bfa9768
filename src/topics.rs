//! The topics derived from the protocol event stream: processed blocks and
//! received filters.
use vstd::prelude::*;

use crate::spv::ProtocolEvent;
use crate::types::{Block, BlockHash, Height};

verus! {

/// The block and its height when `e` reports a processed block.
pub fn processed_block(e: ProtocolEvent) -> (r: Option<(Block, Height)>)
    ensures
        r == (match e {
            ProtocolEvent::BlockProcessed { block, height, .. } => Some((block, height)),
            _ => None,
        }),
{
    match e {
        ProtocolEvent::BlockProcessed { block, height, .. } => Some((block, height)),
        _ => None,
    }
}

/// The filter, its block's hash and its height when `e` reports a received
/// filter.
pub fn received_filter(e: ProtocolEvent) -> (r: Option<(Vec<u8>, BlockHash, Height)>)
    ensures
        r == (match e {
            ProtocolEvent::FilterReceived { filter, block_hash, height } => Some(
                (filter, block_hash, height),
            ),
            _ => None,
        }),
{
    match e {
        ProtocolEvent::FilterReceived { filter, block_hash, height } => Some(
            (filter, block_hash, height),
        ),
        _ => None,
    }
}

} // verus!
