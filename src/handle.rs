//! Decisions the client handle takes: which requests are well-formed, and
//! which protocol events end a wait.
use vstd::prelude::*;

use crate::hash::is_block_hash;
use crate::spv::ProtocolEvent;
use crate::types::{has_services, BlockHash, BlockHeader, Height, Link, PeerAddr, ServiceFlags};

verus! {

/// Seconds a wait lasts unless the handle is given another timeout.
pub const DEFAULT_TIMEOUT_SECS: u64 = 60;

/// Errors of handle operations.
#[derive(Clone, Debug, PartialEq, Eq)]
pub enum HandleError {
    /// A filter range with no height in it.
    EmptyFilterRange,
    /// The requested filters could not be served.
    GetFilters(String),
    /// The protocol rejected a command.
    Command(String),
    /// The command or response channel is closed.
    Channel,
    /// The awaited event did not arrive in time.
    Timeout,
}

/// A peer as the handle reports it: address, best height, services.
pub type PeerEntry = (PeerAddr, Height, ServiceFlags);

/// Checks a request for the filters of `start..=end`: the range must hold at
/// least one height.
pub fn filter_range(start: Height, end: Height) -> (r: Result<(Height, Height), HandleError>)
    ensures
        start <= end ==> r == Ok::<(Height, Height), HandleError>((start, end)),
        start > end ==> r == Err::<(Height, Height), HandleError>(HandleError::EmptyFilterRange),
{
    if start <= end {
        Ok((start, end))
    } else {
        Err(HandleError::EmptyFilterRange)
    }
}

/// Whether a peer at `a` answers a request aimed at `target`: the same
/// address, or any address on the target's port when the target's IP is the
/// unspecified one.
pub open spec fn spec_addr_matches(target: PeerAddr, a: PeerAddr) -> bool {
    a == target || (target.ip.spec_is_unspecified() && a.port == target.port)
}

/// Whether a peer at `a` answers a request aimed at `target`.
pub fn addr_matches(target: PeerAddr, a: PeerAddr) -> (r: bool)
    ensures
        r == spec_addr_matches(target, a),
{
    a == target || (target.ip.is_unspecified() && a.port == target.port)
}

/// The link of a connection that ends a wait for `target` to connect.
pub fn connected_link(e: &ProtocolEvent, target: PeerAddr) -> (r: Option<Link>)
    ensures
        r == (match *e {
            ProtocolEvent::PeerConnected { addr, link } => if spec_addr_matches(target, addr) {
                Some(link)
            } else {
                None
            },
            _ => None,
        }),
{
    match e {
        ProtocolEvent::PeerConnected { addr, link } => {
            if addr_matches(target, *addr) {
                Some(*link)
            } else {
                None
            }
        },
        _ => None,
    }
}

/// Whether `e` ends a wait for `target` to disconnect.
pub fn is_disconnect_of(e: &ProtocolEvent, target: PeerAddr) -> (r: bool)
    ensures
        r == (match *e {
            ProtocolEvent::PeerDisconnected { addr, .. } => spec_addr_matches(target, addr),
            _ => false,
        }),
{
    match e {
        ProtocolEvent::PeerDisconnected { addr, .. } => addr_matches(target, *addr),
        _ => false,
    }
}

/// The hash at `h` when the header at that height is already known, which
/// ends a wait for height `h` at once.
pub fn known_height_hash(header: Option<BlockHeader>) -> (r: Option<BlockHash>)
    ensures
        header is None ==> r is None,
        header matches Some(hd) ==> r matches Some(hash) && is_block_hash(hash, hd),
{
    match header {
        Some(hd) => Some(hd.block_hash()),
        None => None,
    }
}

/// The hash reported when the chain syncs to exactly `h`.
pub fn synced_hash(e: &ProtocolEvent, h: Height) -> (r: Option<BlockHash>)
    ensures
        r == (match *e {
            ProtocolEvent::ChainSynced { hash, height } => if height == h {
                Some(hash)
            } else {
                None
            },
            _ => None,
        }),
{
    match e {
        ProtocolEvent::ChainSynced { hash, height } => {
            if *height == h {
                Some(*hash)
            } else {
                None
            }
        },
        _ => None,
    }
}

/// Whether no address occurs twice in `s`.
pub open spec fn distinct_addrs(s: Seq<PeerEntry>) -> bool {
    forall|i: int, j: int|
        0 <= i < s.len() && 0 <= j < s.len() && i != j ==> #[trigger] s[i].0 != #[trigger] s[j].0
}

/// `s` with the entry for `x`'s address replaced by `x`, or `x` appended
/// when the address is new.
pub open spec fn upsert(s: Seq<PeerEntry>, x: PeerEntry) -> Seq<PeerEntry> {
    if exists|i: int| 0 <= i < s.len() && s[i].0 == x.0 {
        s.update(choose|i: int| 0 <= i < s.len() && s[i].0 == x.0, x)
    } else {
        s.push(x)
    }
}

/// The entries of `xs` keyed by address, a later entry replacing an earlier.
pub open spec fn upsert_all(xs: Seq<PeerEntry>) -> Seq<PeerEntry>
    decreases xs.len(),
{
    if xs.len() == 0 {
        seq![]
    } else {
        upsert(upsert_all(xs.drop_last()), xs.last())
    }
}

/// The entries a peer wait holds after event `e`.
pub open spec fn negotiated_after(
    s: Seq<PeerEntry>,
    required: ServiceFlags,
    e: ProtocolEvent,
) -> Seq<PeerEntry> {
    match e {
        ProtocolEvent::PeerNegotiated { addr, services, height, .. } => if has_services(
            services,
            required,
        ) {
            upsert(s, (addr, height, services))
        } else {
            s
        },
        _ => s,
    }
}

fn upsert_entry(v: &mut Vec<PeerEntry>, x: PeerEntry)
    requires
        distinct_addrs(old(v)@),
    ensures
        final(v)@ == upsert(old(v)@, x),
        distinct_addrs(final(v)@),
{
    let mut i: usize = 0;
    while i < v.len()
        invariant
            0 <= i <= v@.len(),
            v@ == old(v)@,
            distinct_addrs(v@),
            forall|j: int| 0 <= j < i ==> v@[j].0 != x.0,
        decreases v@.len() - i,
    {
        if v[i].0 == x.0 {
            let ghost s = v@;
            assert(exists|k: int| 0 <= k < s.len() && s[k].0 == x.0) by {
                assert(s[i as int].0 == x.0);
            }
            let ghost c = choose|k: int| 0 <= k < s.len() && s[k].0 == x.0;
            assert(c == i as int);
            v.set(i, x);
            assert(v@ =~= s.update(i as int, x));
            assert forall|a: int, b: int|
                0 <= a < v@.len() && 0 <= b < v@.len() && a != b implies #[trigger] v@[a].0
                != #[trigger] v@[b].0 by {
                if a != i && b != i {
                    assert(s[a].0 != s[b].0);
                } else if a == i {
                    assert(s[i as int].0 != s[b].0);
                } else {
                    assert(s[a].0 != s[i as int].0);
                }
            }
            return ;
        }
        i = i + 1;
    }
    let ghost s = v@;
    v.push(x);
    assert(!exists|k: int| 0 <= k < s.len() && s[k].0 == x.0);
    assert forall|a: int, b: int|
        0 <= a < v@.len() && 0 <= b < v@.len() && a != b implies #[trigger] v@[a].0
        != #[trigger] v@[b].0 by {
        if a < s.len() && b < s.len() {
            assert(s[a].0 != s[b].0);
        }
    }
}

fn copy_entries(v: &Vec<PeerEntry>) -> (r: Vec<PeerEntry>)
    ensures
        r@ == v@,
{
    let mut r: Vec<PeerEntry> = Vec::new();
    let mut i: usize = 0;
    while i < v.len()
        invariant
            0 <= i <= v@.len(),
            r@ == v@.subrange(0, i as int),
        decreases v@.len() - i,
    {
        r.push(v[i]);
        i = i + 1;
        assert(r@ =~= v@.subrange(0, i as int));
    }
    assert(v@.subrange(0, v@.len() as int) =~= v@);
    r
}

/// The view of a wait for peers.
pub struct PeerWaitView {
    /// Number of peers awaited.
    pub count: usize,
    /// Services each peer must offer.
    pub required: ServiceFlags,
    /// Peers negotiated so far, by address.
    pub negotiated: Seq<PeerEntry>,
}

/// A wait for a number of negotiated peers offering some services.
pub struct PeerWait {
    count: usize,
    required: ServiceFlags,
    negotiated: Vec<PeerEntry>,
}

/// How a wait for peers starts: done at once, or waiting on events.
pub enum PeersWait {
    Done(Vec<PeerEntry>),
    Waiting(PeerWait),
}

impl View for PeerWait {
    type V = PeerWaitView;

    closed spec fn view(&self) -> PeerWaitView {
        PeerWaitView { count: self.count, required: self.required, negotiated: self.negotiated@ }
    }
}

impl PeerWait {
    /// Well-formedness: each address is held once.
    pub open spec fn wf(&self) -> bool {
        distinct_addrs(self@.negotiated)
    }

    /// Starts a wait for `count` peers offering `required`, given the peers
    /// already connected with those services. When exactly `count` are, the
    /// wait is done at once with them.
    pub fn start(count: usize, required: ServiceFlags, peers: Vec<PeerEntry>) -> (r: PeersWait)
        ensures
            peers@.len() == count ==> (r matches PeersWait::Done(v) && v@ == peers@),
            peers@.len() != count ==> (r matches PeersWait::Waiting(w) && w.wf() && w@ == (
            PeerWaitView { count, required, negotiated: upsert_all(peers@) })),
    {
        if peers.len() == count {
            return PeersWait::Done(peers);
        }
        let mut negotiated: Vec<PeerEntry> = Vec::new();
        let mut k: usize = 0;
        while k < peers.len()
            invariant
                0 <= k <= peers@.len(),
                distinct_addrs(negotiated@),
                negotiated@ == upsert_all(peers@.subrange(0, k as int)),
            decreases peers@.len() - k,
        {
            assert(peers@.subrange(0, k + 1).drop_last() =~= peers@.subrange(0, k as int));
            upsert_entry(&mut negotiated, peers[k]);
            k = k + 1;
        }
        assert(peers@.subrange(0, peers@.len() as int) =~= peers@);
        PeersWait::Waiting(PeerWait { count, required, negotiated })
    }

    /// Takes one protocol event into account: a negotiated peer offering
    /// the required services is recorded. Returns the recorded peers once
    /// exactly `count` of them are held after such an event.
    pub fn on_event(&mut self, e: &ProtocolEvent) -> (r: Option<Vec<PeerEntry>>)
        requires
            old(self).wf(),
        ensures
            final(self).wf(),
            final(self)@ == (PeerWaitView {
                negotiated: negotiated_after(old(self)@.negotiated, old(self)@.required, *e),
                ..old(self)@
            }),
            r is Some <==> (*e is PeerNegotiated && final(self)@.negotiated.len()
                == old(self)@.count),
            r matches Some(v) ==> v@ == final(self)@.negotiated,
    {
        match e {
            ProtocolEvent::PeerNegotiated { addr, services, height, .. } => {
                if crate::types::services_has(*services, self.required) {
                    upsert_entry(&mut self.negotiated, (*addr, *height, *services));
                }
                if self.negotiated.len() == self.count {
                    Some(copy_entries(&self.negotiated))
                } else {
                    None
                }
            },
            _ => None,
        }
    }
}

} // verus!
