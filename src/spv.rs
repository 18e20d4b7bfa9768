//! SPV event mapper: folds protocol events into client events while keeping
//! three height cursors (filters processed, matched blocks processed, sync
//! reported) in order.
use std::collections::HashSet;
use vstd::prelude::*;

use crate::hash::{header_bytes, sha256d_of};
use crate::types::{
    Block, BlockHash, BlockHeader, FeeEstimate, Height, Link, PeerAddr, ServiceFlags, Transaction,
    Txid,
};

verus! {

broadcast use vstd::std_specs::hash::group_hash_axioms;

/// Status of a transaction announced by the client.
#[derive(Clone, Copy, Debug, PartialEq, Eq, PartialOrd, Ord)]
pub enum TxStatus {
    /// Announced by the client, not yet seen in a block.
    Unconfirmed,
    /// A peer requested the transaction data after its announcement.
    Acknowledged { peer: PeerAddr },
    /// Included in a block of the main chain.
    Confirmed { height: Height, block: BlockHash },
    /// Was confirmed, and the block that held it left the main chain.
    Reverted,
    /// Replaced by another transaction, included in `block`.
    Stale { replaced_by: Txid, block: BlockHash },
}

/// An event of the protocol state machine, as far as the mapper reads it.
#[derive(Clone, Debug, PartialEq, Eq)]
pub enum ProtocolEvent {
    /// The state machine is initialized at these heights.
    Ready { height: Height, filter_height: Height },
    /// A connection to a peer was established.
    PeerConnected { addr: PeerAddr, link: Link },
    /// A connection attempt failed.
    PeerConnectionFailed { addr: PeerAddr, error: String },
    /// The handshake with a peer completed.
    PeerNegotiated {
        addr: PeerAddr,
        link: Link,
        services: ServiceFlags,
        user_agent: String,
        height: Height,
        version: u32,
    },
    /// A peer was disconnected.
    PeerDisconnected { addr: PeerAddr, reason: String },
    /// The best height announced by peers changed.
    PeerHeightUpdated { height: Height },
    /// The header chain is synced up to `height`.
    ChainSynced { hash: BlockHash, height: Height },
    /// A block joined the main chain.
    BlockConnected { header: BlockHeader, height: Height },
    /// A block left the main chain.
    BlockDisconnected { header: BlockHeader, height: Height },
    /// A block was downloaded and scanned.
    BlockProcessed { block: Block, height: Height, fees: Option<FeeEstimate> },
    /// A transaction of ours was found in a block.
    TxConfirmed { transaction: Transaction, height: Height, block: BlockHash },
    /// A peer requested one of our transactions.
    TxAcknowledged { txid: Txid, peer: PeerAddr },
    /// Filter processing restarts at `start`.
    RescanStarted { start: Height },
    /// The filter of a block was checked against our scripts.
    FilterProcessed { block: BlockHash, height: Height, matched: bool, valid: bool },
    /// A filter was received from a peer.
    FilterReceived { filter: Vec<u8>, block_hash: BlockHash, height: Height },
    /// Anything else the state machine reports.
    Other,
}

/// An event reported to the users of the client.
#[derive(Clone, Debug, PartialEq, Eq)]
pub enum Event {
    Ready { tip: Height, filter_tip: Height },
    PeerConnected { addr: PeerAddr, link: Link },
    PeerConnectionFailed { addr: PeerAddr, error: String },
    PeerNegotiated {
        addr: PeerAddr,
        link: Link,
        services: ServiceFlags,
        user_agent: String,
        height: Height,
        version: u32,
    },
    PeerDisconnected { addr: PeerAddr, reason: String },
    PeerHeightUpdated { height: Height },
    BlockConnected { header: BlockHeader, hash: BlockHash, height: Height },
    BlockDisconnected { header: BlockHeader, hash: BlockHash, height: Height },
    /// A block whose filter matched, with its transactions.
    BlockMatched {
        height: Height,
        hash: BlockHash,
        header: BlockHeader,
        transactions: Vec<Transaction>,
    },
    FeeEstimated { block: BlockHash, height: Height, fees: FeeEstimate },
    FilterProcessed { block: BlockHash, height: Height, matched: bool, valid: bool },
    TxStatusChanged { txid: Txid, status: TxStatus },
    /// Filters and matched blocks are processed up to `height`.
    Synced { height: Height, tip: Height },
}

/// The mapper's state as values.
pub struct MapperView {
    pub tip: Height,
    pub sync_height: Height,
    pub filter_height: Height,
    pub block_height: Height,
    /// Heights whose filter matched and whose block is awaited.
    pub pending: Set<Height>,
}

/// Order of the cursors: blocks and sync reports never pass filters, and
/// every awaited height has had its filter processed.
pub open spec fn mapper_wf(s: MapperView) -> bool {
    &&& s.block_height <= s.filter_height
    &&& s.sync_height <= s.filter_height
    &&& forall|h: Height| #[trigger] s.pending.contains(h) ==> h <= s.filter_height
}

/// Every awaited height lies above the block cursor and at or below the
/// filter cursor.
pub open spec fn pending_window(s: MapperView) -> bool {
    forall|h: Height| #[trigger]
        s.pending.contains(h) ==> s.block_height < h && h <= s.filter_height
}

/// Events the mapper accepts in state `s`: filters come at or above the
/// filter cursor, awaited blocks at or above the block cursor.
pub open spec fn admissible(s: MapperView, e: ProtocolEvent) -> bool {
    match e {
        ProtocolEvent::FilterProcessed { height, .. } => height >= s.filter_height,
        ProtocolEvent::BlockProcessed { height, .. } => s.pending.contains(height) ==> height
            >= s.block_height,
        _ => true,
    }
}

/// Events that arrive in chain order: filters strictly above the filter
/// cursor, and only the lowest awaited block.
pub open spec fn in_order(s: MapperView, e: ProtocolEvent) -> bool {
    match e {
        ProtocolEvent::FilterProcessed { height, .. } => height > s.filter_height,
        ProtocolEvent::BlockProcessed { height, .. } => s.pending.contains(height) ==> forall|
            h: Height,
        | #[trigger] s.pending.contains(h) ==> height <= h,
        _ => true,
    }
}

/// The height that is synced in state `s`: the filter cursor once no block
/// is awaited, else the block cursor.
pub open spec fn synced_target(s: MapperView) -> Height {
    if s.pending.is_empty() {
        s.filter_height
    } else {
        s.block_height
    }
}

/// The state after the event's own handling, before the sync rule.
pub open spec fn apply_event(s: MapperView, e: ProtocolEvent) -> MapperView {
    match e {
        ProtocolEvent::ChainSynced { height, .. } => MapperView { tip: height, ..s },
        ProtocolEvent::BlockProcessed { height, .. } => {
            if s.pending.contains(height) {
                MapperView { block_height: height, pending: s.pending.remove(height), ..s }
            } else {
                s
            }
        },
        ProtocolEvent::RescanStarted { start } => MapperView {
            filter_height: start,
            sync_height: start,
            block_height: start,
            pending: Set::empty(),
            ..s
        },
        ProtocolEvent::FilterProcessed { height, matched, .. } => MapperView {
            filter_height: height,
            pending: if matched {
                s.pending.insert(height)
            } else {
                s.pending
            },
            ..s
        },
        _ => s,
    }
}

/// The sync rule: raise the sync cursor to the synced height when it is higher.
pub open spec fn apply_sync(t: MapperView) -> MapperView {
    if synced_target(t) > t.sync_height {
        MapperView { sync_height: synced_target(t), ..t }
    } else {
        t
    }
}

/// The state after the mapper processed `e` in state `s`.
pub open spec fn next_state(s: MapperView, e: ProtocolEvent) -> MapperView {
    apply_sync(apply_event(s, e))
}

/// The `Synced` report the sync rule makes in state `t`, if any.
pub open spec fn sync_report(t: MapperView) -> Seq<Event> {
    if synced_target(t) > t.sync_height {
        seq![Event::Synced { height: synced_target(t), tip: t.tip }]
    } else {
        seq![]
    }
}

/// Whether `dg` is the digest the event's header or transaction is
/// identified by (any value for an event without one).
pub open spec fn digest_fits(e: ProtocolEvent, dg: [u8; 32]) -> bool {
    match e {
        ProtocolEvent::BlockConnected { header, .. } => dg@ == sha256d_of(header_bytes(header)),
        ProtocolEvent::BlockDisconnected { header, .. } => dg@ == sha256d_of(header_bytes(header)),
        ProtocolEvent::BlockProcessed { block, .. } => dg@ == sha256d_of(header_bytes(block.header)),
        ProtocolEvent::TxConfirmed { transaction, .. } => dg@ == sha256d_of(transaction.raw@),
        _ => true,
    }
}

/// The events `e` translates to in state `s`, before any `Synced` report;
/// `dg` is the digest of the event's header or transaction.
pub open spec fn translate(s: MapperView, e: ProtocolEvent, dg: [u8; 32]) -> Seq<Event> {
    match e {
        ProtocolEvent::Ready { height, filter_height } => seq![
            Event::Ready { tip: height, filter_tip: filter_height },
        ],
        ProtocolEvent::PeerConnected { addr, link } => seq![Event::PeerConnected { addr, link }],
        ProtocolEvent::PeerConnectionFailed { addr, error } => seq![
            Event::PeerConnectionFailed { addr, error },
        ],
        ProtocolEvent::PeerNegotiated { addr, link, services, user_agent, height, version } => seq![
            Event::PeerNegotiated { addr, link, services, user_agent, height, version },
        ],
        ProtocolEvent::PeerDisconnected { addr, reason } => seq![
            Event::PeerDisconnected { addr, reason },
        ],
        ProtocolEvent::PeerHeightUpdated { height } => seq![Event::PeerHeightUpdated { height }],
        ProtocolEvent::BlockConnected { header, height } => seq![
            Event::BlockConnected { header, hash: BlockHash { bytes: dg }, height },
        ],
        ProtocolEvent::BlockDisconnected { header, height } => seq![
            Event::BlockDisconnected { header, hash: BlockHash { bytes: dg }, height },
        ],
        ProtocolEvent::BlockProcessed { block, height, fees } => {
            let hash = BlockHash { bytes: dg };
            let matched = if s.pending.contains(height) {
                seq![
                    Event::BlockMatched {
                        height,
                        hash,
                        header: block.header,
                        transactions: block.txdata,
                    },
                ]
            } else {
                seq![]
            };
            match fees {
                Some(f) => matched.push(Event::FeeEstimated { block: hash, height, fees: f }),
                None => matched,
            }
        },
        ProtocolEvent::TxConfirmed { height, block, .. } => seq![
            Event::TxStatusChanged {
                txid: Txid { bytes: dg },
                status: TxStatus::Confirmed { height, block },
            },
        ],
        ProtocolEvent::TxAcknowledged { txid, peer } => seq![
            Event::TxStatusChanged { txid, status: TxStatus::Acknowledged { peer } },
        ],
        ProtocolEvent::FilterProcessed { block, height, matched, valid } => seq![
            Event::FilterProcessed { block, height, matched, valid },
        ],
        _ => seq![],
    }
}

/// Everything the mapper emits for `e` in state `s`, in order.
pub open spec fn emitted(s: MapperView, e: ProtocolEvent, dg: [u8; 32]) -> Seq<Event> {
    translate(s, e, dg) + sync_report(apply_event(s, e))
}

/// Processing an accepted event keeps the cursors in order: the block cursor
/// and the sync cursor stay at or below the filter cursor.
pub proof fn lemma_cursors_ordered(s: MapperView, e: ProtocolEvent)
    requires
        mapper_wf(s),
        admissible(s, e),
    ensures
        mapper_wf(next_state(s, e)),
        next_state(s, e).block_height <= next_state(s, e).filter_height,
        next_state(s, e).sync_height <= next_state(s, e).filter_height,
{
}

/// The sync cursor never moves down, except on a rescan.
pub proof fn lemma_sync_monotone(s: MapperView, e: ProtocolEvent)
    requires
        mapper_wf(s),
        admissible(s, e),
        !(e is RescanStarted),
    ensures
        next_state(s, e).sync_height >= s.sync_height,
{
}

/// The state reached from `s` by processing `es` in order.
pub open spec fn run_events(s: MapperView, es: Seq<ProtocolEvent>) -> MapperView
    decreases es.len(),
{
    if es.len() == 0 {
        s
    } else {
        next_state(run_events(s, es.drop_last()), es.last())
    }
}

/// Whether each event of `es` is accepted in the state reached before it.
pub open spec fn accepted_run(s: MapperView, es: Seq<ProtocolEvent>) -> bool
    decreases es.len(),
{
    if es.len() == 0 {
        true
    } else {
        accepted_run(s, es.drop_last()) && admissible(run_events(s, es.drop_last()), es.last())
    }
}

/// Over any run of accepted events the cursors stay in order, and a run
/// without a rescan never moves the sync cursor down.
pub proof fn lemma_run_keeps_order(s: MapperView, es: Seq<ProtocolEvent>)
    requires
        mapper_wf(s),
        accepted_run(s, es),
    ensures
        mapper_wf(run_events(s, es)),
        (forall|i: int| 0 <= i < es.len() ==> !(#[trigger] es[i] is RescanStarted)) ==> run_events(
            s,
            es,
        ).sync_height >= s.sync_height,
    decreases es.len(),
{
    if es.len() > 0 {
        let prev = es.drop_last();
        lemma_run_keeps_order(s, prev);
        lemma_cursors_ordered(run_events(s, prev), es.last());
        if forall|i: int| 0 <= i < es.len() ==> !(#[trigger] es[i] is RescanStarted) {
            assert forall|i: int| 0 <= i < prev.len() implies !(#[trigger] prev[i] is RescanStarted) by {
                assert(prev[i] == es[i]);
            }
            assert(!(es[es.len() - 1] is RescanStarted));
            lemma_sync_monotone(run_events(s, prev), es.last());
        }
    }
}

/// A height enters the awaited set only through a matching filter at that
/// height, at or below the new filter cursor; it leaves only through the
/// block at that height, which lies above the block cursor it replaces.
/// Outside a rescan nothing else changes the set, and a height that has left
/// stays out until a filter matches it again.
pub proof fn lemma_pending_entry_exit(s: MapperView, e: ProtocolEvent, h: Height)
    requires
        mapper_wf(s),
        pending_window(s),
        admissible(s, e),
        !(e is RescanStarted),
    ensures
        !s.pending.contains(h) && next_state(s, e).pending.contains(h) ==> {
            &&& e is FilterProcessed
            &&& e->FilterProcessed_height == h
            &&& e->FilterProcessed_matched
            &&& h <= next_state(s, e).filter_height
        },
        s.pending.contains(h) && !next_state(s, e).pending.contains(h) ==> {
            &&& e is BlockProcessed
            &&& e->BlockProcessed_height == h
            &&& h > s.block_height
            &&& next_state(s, e).block_height == h
        },
{
}

/// Events in chain order keep every awaited height above the block cursor
/// and at or below the filter cursor.
pub proof fn lemma_pending_window_kept(s: MapperView, e: ProtocolEvent)
    requires
        mapper_wf(s),
        pending_window(s),
        admissible(s, e),
        in_order(s, e),
    ensures
        pending_window(next_state(s, e)),
{
    let t = next_state(s, e);
    assert forall|h: Height| #[trigger] t.pending.contains(h) implies t.block_height < h && h
        <= t.filter_height by {
        if let ProtocolEvent::BlockProcessed { height, .. } = e {
            if s.pending.contains(height) {
                assert(s.pending.contains(h));
                assert(height <= h);
            }
        }
    }
}

/// Every `Synced` report carries the filter cursor when no block is awaited
/// at emission time, and the block cursor otherwise; with awaited heights
/// kept in their window, it equals the filter cursor exactly when nothing is
/// awaited.
pub proof fn lemma_synced_height(s: MapperView, e: ProtocolEvent, dg: [u8; 32], i: int)
    requires
        mapper_wf(s),
        admissible(s, e),
        0 <= i < emitted(s, e, dg).len(),
        emitted(s, e, dg)[i] is Synced,
    ensures
        ({
            let t = next_state(s, e);
            let height = emitted(s, e, dg)[i]->Synced_height;
            &&& t.pending.is_empty() ==> height == t.filter_height
            &&& !t.pending.is_empty() ==> height == t.block_height
            &&& height == t.sync_height
            &&& pending_window(s) && in_order(s, e) ==> (height == t.filter_height
                <==> t.pending.is_empty())
        }),
{
    let tr = translate(s, e, dg);
    assert(!(tr.len() > i && tr[i] is Synced));
    let t = next_state(s, e);
    if pending_window(s) && in_order(s, e) {
        lemma_pending_window_kept(s, e);
        if !t.pending.is_empty() {
            let h = t.pending.choose();
            assert(t.pending.contains(h));
        }
    }
}

/// Maps protocol events to client events, tracking sync progress.
pub struct Mapper {
    /// Best header height known.
    tip: Height,
    /// Height up to which filters and matching blocks are processed.
    sync_height: Height,
    /// Height up to which filters are processed.
    filter_height: Height,
    /// Height up to which matching blocks are processed.
    block_height: Height,
    /// Heights whose filter matched and whose block is awaited.
    pending: HashSet<Height>,
}

impl View for Mapper {
    type V = MapperView;

    closed spec fn view(&self) -> MapperView {
        MapperView {
            tip: self.tip,
            sync_height: self.sync_height,
            filter_height: self.filter_height,
            block_height: self.block_height,
            pending: self.pending@,
        }
    }
}

impl Mapper {
    /// Well-formedness: the cursors are in order.
    pub open spec fn wf(&self) -> bool {
        mapper_wf(self@)
    }

    /// A mapper with every cursor at zero and nothing awaited.
    pub fn new() -> (r: Mapper)
        ensures
            r.wf(),
            r@ == (MapperView {
                tip: 0,
                sync_height: 0,
                filter_height: 0,
                block_height: 0,
                pending: Set::empty(),
            }),
    {
        Mapper {
            tip: 0,
            sync_height: 0,
            filter_height: 0,
            block_height: 0,
            pending: HashSet::new(),
        }
    }

    /// Whether this mapper accepts `e` now: a filter at or above the filter
    /// cursor, an awaited block at or above the block cursor, or any other
    /// event.
    pub fn admits(&self, e: &ProtocolEvent) -> (r: bool)
        ensures
            r == admissible(self@, *e),
    {
        match e {
            ProtocolEvent::FilterProcessed { height, .. } => *height >= self.filter_height,
            ProtocolEvent::BlockProcessed { height, .. } => !self.pending.contains(height)
                || *height >= self.block_height,
            _ => true,
        }
    }

    /// Processes one protocol event and returns the client events it maps to,
    /// in the order they are emitted.
    pub fn process(&mut self, event: ProtocolEvent) -> (r: Vec<Event>)
        requires
            old(self).wf(),
            admissible(old(self)@, event),
        ensures
            final(self).wf(),
            final(self)@ == next_state(old(self)@, event),
            exists|dg: [u8; 32]| digest_fits(event, dg) && r@ == emitted(old(self)@, event, dg),
    {
        let ghost s = self@;
        let ghost e = event;
        let mut out: Vec<Event> = Vec::new();
        let mut dg: [u8; 32] = [0u8; 32];
        match event {
            ProtocolEvent::Ready { height, filter_height } => {
                out.push(Event::Ready { tip: height, filter_tip: filter_height });
            },
            ProtocolEvent::PeerConnected { addr, link } => {
                out.push(Event::PeerConnected { addr, link });
            },
            ProtocolEvent::PeerConnectionFailed { addr, error } => {
                out.push(Event::PeerConnectionFailed { addr, error });
            },
            ProtocolEvent::PeerNegotiated { addr, link, services, user_agent, height, version } => {
                out.push(
                    Event::PeerNegotiated { addr, link, services, user_agent, height, version },
                );
            },
            ProtocolEvent::PeerDisconnected { addr, reason } => {
                out.push(Event::PeerDisconnected { addr, reason });
            },
            ProtocolEvent::PeerHeightUpdated { height } => {
                out.push(Event::PeerHeightUpdated { height });
            },
            ProtocolEvent::ChainSynced { height, .. } => {
                self.tip = height;
            },
            ProtocolEvent::BlockConnected { header, height } => {
                let hash = header.block_hash();
                dg = hash.bytes;
                out.push(Event::BlockConnected { header, hash, height });
            },
            ProtocolEvent::BlockDisconnected { header, height } => {
                let hash = header.block_hash();
                dg = hash.bytes;
                out.push(Event::BlockDisconnected { header, hash, height });
            },
            ProtocolEvent::BlockProcessed { block, height, fees } => {
                let hash = self.process_block(block, height, &mut out);
                dg = hash.bytes;
                if let Some(fees) = fees {
                    out.push(Event::FeeEstimated { block: hash, height, fees });
                }
            },
            ProtocolEvent::TxConfirmed { transaction, height, block } => {
                let txid = transaction.txid();
                dg = txid.bytes;
                out.push(
                    Event::TxStatusChanged { txid, status: TxStatus::Confirmed { height, block } },
                );
            },
            ProtocolEvent::TxAcknowledged { txid, peer } => {
                out.push(Event::TxStatusChanged { txid, status: TxStatus::Acknowledged { peer } });
            },
            ProtocolEvent::RescanStarted { start } => {
                self.pending.clear();
                self.filter_height = start;
                self.sync_height = start;
                self.block_height = start;
            },
            ProtocolEvent::FilterProcessed { block, height, matched, valid } => {
                self.process_filter(block, height, matched, valid, &mut out);
            },
            _ => {},
        }
        assert(self@ == apply_event(s, e));
        assert(out@ =~= translate(s, e, dg));

        // With no block awaited, sync reaches the last filter; otherwise it
        // stops at the last matched block.
        let height = if self.pending.is_empty() {
            self.filter_height
        } else {
            self.block_height
        };
        if height > self.sync_height {
            self.sync_height = height;
            out.push(Event::Synced { height, tip: self.tip });
        }
        assert(digest_fits(e, dg));
        assert(out@ =~= emitted(s, e, dg));
        out
    }

    /// Handles a downloaded block: an awaited one advances the block cursor
    /// and is reported as matched; any other leaves the state alone.
    /// Returns the block's hash.
    fn process_block(&mut self, block: Block, height: Height, out: &mut Vec<Event>) -> (r:
        BlockHash)
        requires
            mapper_wf(old(self)@),
            old(self)@.pending.contains(height) ==> height >= old(self)@.block_height,
        ensures
            r.bytes@ == sha256d_of(header_bytes(block.header)),
            old(self)@.pending.contains(height) ==> final(self)@ == (MapperView {
                block_height: height,
                pending: old(self)@.pending.remove(height),
                ..old(self)@
            }) && final(out)@ == old(out)@.push(
                Event::BlockMatched {
                    height,
                    hash: r,
                    header: block.header,
                    transactions: block.txdata,
                },
            ),
            !old(self)@.pending.contains(height) ==> final(self)@ == old(self)@ && final(out)@
                == old(out)@,
    {
        let hash = block.header.block_hash();
        let ghost before = self.pending@;
        if !self.pending.remove(&height) {
            assert(self.pending@ =~= before);
            return hash;
        }
        self.block_height = height;
        out.push(
            Event::BlockMatched { height, hash, header: block.header, transactions: block.txdata },
        );
        hash
    }

    /// Handles a processed filter: a match makes its height awaited; the
    /// filter cursor moves to `height`.
    fn process_filter(
        &mut self,
        block: BlockHash,
        height: Height,
        matched: bool,
        valid: bool,
        out: &mut Vec<Event>,
    )
        requires
            height >= old(self)@.filter_height,
        ensures
            final(self)@ == (MapperView {
                filter_height: height,
                pending: if matched {
                    old(self)@.pending.insert(height)
                } else {
                    old(self)@.pending
                },
                ..old(self)@
            }),
            final(out)@ == old(out)@.push(Event::FilterProcessed { block, height, matched, valid }),
    {
        if matched {
            self.pending.insert(height);
        }
        self.filter_height = height;
        out.push(Event::FilterProcessed { height, matched, valid, block });
    }
    /// Best header height known.
    pub fn tip(&self) -> (r: Height)
        ensures
            r == self@.tip,
    {
        self.tip
    }

    /// Height last reported as synced.
    pub fn sync_height(&self) -> (r: Height)
        ensures
            r == self@.sync_height,
    {
        self.sync_height
    }

    /// Height up to which filters are processed.
    pub fn filter_height(&self) -> (r: Height)
        ensures
            r == self@.filter_height,
    {
        self.filter_height
    }

    /// Height up to which matching blocks are processed.
    pub fn block_height(&self) -> (r: Height)
        ensures
            r == self@.block_height,
    {
        self.block_height
    }

    /// Whether the block at `height` is awaited.
    pub fn is_pending(&self, height: Height) -> (r: bool)
        ensures
            r == self@.pending.contains(height),
    {
        self.pending.contains(&height)
    }

    /// Whether no block is awaited.
    pub fn nothing_pending(&self) -> (r: bool)
        ensures
            r == self@.pending.is_empty(),
    {
        self.pending.is_empty()
    }
}

} // verus!
