//! The single-flight fetch cache.
//!
//! The cache owns one optional slot for the index fetch and one map from
//! identifier to detail fetch.  It never performs I/O: `get_index` and
//! `get_detail` return a request descriptor exactly when a transport call
//! must be issued, and the transport layer later reports the outcome
//! through `complete_index` / `complete_detail`.  Each request descriptor
//! carries the cache generation current when it was issued; a completion
//! whose generation is stale — the cache was invalidated in between — is
//! discarded instead of being written into an entry it no longer belongs
//! to.

use vstd::prelude::*;

verus! {

use std::collections::HashMap;
use crate::entry::{CacheEntry, FetchError, FullEntry, PartialEntry};

/// A request the transport layer must issue: fetch the index (`GET /all`).
/// Carries the cache generation current when it was issued.
#[derive(Clone, Copy, Debug, PartialEq, Eq)]
pub struct IndexRequest {
    /// Generation of the cache at issue time; quote it back to
    /// [`FetchCache::complete_index`].
    pub generation: u64,
}

/// A request the transport layer must issue: fetch one detail record
/// (`GET /{id}`).  Carries the cache generation current when it was issued.
#[derive(Clone, Copy, Debug, PartialEq, Eq)]
pub struct DetailRequest {
    /// Identifier of the entry to fetch.
    pub id: u64,
    /// Generation of the cache at issue time; quote it back to
    /// [`FetchCache::complete_detail`].
    pub generation: u64,
}

/// Mathematical model of the cache: the generation counter, the index slot
/// and the detail map.
pub struct CacheModel {
    /// Bumped by every invalidation; requests issued under an older
    /// generation are orphaned.
    pub generation: u64,
    /// The one slot for the index fetch.
    pub index: Option<CacheEntry<Vec<PartialEntry>>>,
    /// One fetch lifecycle per requested identifier.
    pub details: Map<u64, CacheEntry<FullEntry>>,
}

/// The model of a freshly created cache: nothing fetched, generation zero.
pub open spec fn initial_model() -> CacheModel {
    CacheModel { generation: 0, index: None, details: Map::empty() }
}

/// Whether a call to `get_index` on `m` must issue a transport request:
/// only when the slot is empty.
pub open spec fn index_request_needed(m: CacheModel) -> bool {
    m.index is None
}

/// What `get_index` does to the cache: fills an empty slot with a pending
/// entry, touches nothing otherwise.
pub open spec fn index_step(m: CacheModel) -> CacheModel {
    if m.index is None {
        CacheModel { index: Some(CacheEntry::Pending), ..m }
    } else {
        m
    }
}

/// Whether a call to `get_detail(id)` on `m` must issue a transport
/// request: only when no entry for `id` exists.
pub open spec fn detail_request_needed(m: CacheModel, id: u64) -> bool {
    !m.details.contains_key(id)
}

/// What `get_detail(id)` does to the cache: inserts a pending entry for an
/// absent key, touches nothing otherwise.
pub open spec fn detail_step(m: CacheModel, id: u64) -> CacheModel {
    if m.details.contains_key(id) {
        m
    } else {
        CacheModel { details: m.details.insert(id, CacheEntry::Pending), ..m }
    }
}

/// What a reported index outcome does to the cache: it is written exactly
/// once, into a still-pending slot of the same generation; any other
/// completion — stale generation, no slot, slot already ready — is a no-op.
pub open spec fn complete_index_step(
    m: CacheModel,
    generation: u64,
    outcome: Result<Vec<PartialEntry>, FetchError>,
) -> CacheModel {
    if generation == m.generation && m.index matches Some(CacheEntry::Pending) {
        CacheModel { index: Some(CacheEntry::Ready(outcome)), ..m }
    } else {
        m
    }
}

/// What a reported detail outcome does to the cache: it is written exactly
/// once, into a still-pending entry for the same key and generation; any
/// other completion is a no-op.
pub open spec fn complete_detail_step(
    m: CacheModel,
    id: u64,
    generation: u64,
    outcome: Result<FullEntry, FetchError>,
) -> CacheModel {
    if generation == m.generation && m.details.contains_key(id) && m.details[id] is Pending {
        CacheModel { details: m.details.insert(id, CacheEntry::Ready(outcome)), ..m }
    } else {
        m
    }
}

/// What `invalidate_all` does to the cache: every entry is destroyed and
/// the generation is bumped, so completions of requests issued earlier find
/// no entry of their generation to write into.
pub open spec fn invalidate_step(m: CacheModel) -> CacheModel
    recommends
        m.generation < u64::MAX,
{
    CacheModel { generation: (m.generation + 1) as u64, index: None, details: Map::empty() }
}

/// The stateful cache manager.  All mutation goes through the five
/// operations below; observers are read-only.
pub struct FetchCache {
    generation: u64,
    index: Option<CacheEntry<Vec<PartialEntry>>>,
    details: HashMap<u64, CacheEntry<FullEntry>>,
}

impl FetchCache {
    /// The cache as its mathematical model.
    pub closed spec fn model(self) -> CacheModel {
        CacheModel { generation: self.generation, index: self.index, details: self.details@ }
    }

    /// Creates an empty cache.
    pub fn new() -> (c: FetchCache)
        ensures
            c.model() == initial_model(),
    {
        FetchCache { generation: 0, index: None, details: HashMap::new() }
    }

    /// The current generation, for observation; completions carry the
    /// generation of their request instead.
    pub fn generation(&self) -> (g: u64)
        ensures
            g == self.model().generation,
    {
        self.generation
    }

    /// Requests the index.  Returns the transport request to issue iff the
    /// slot was empty — the single-flight guarantee: an existing entry,
    /// pending or ready, is reused and no new call is made.
    pub fn get_index(&mut self) -> (r: Option<IndexRequest>)
        ensures
            final(self).model() == index_step(old(self).model()),
            r is Some <==> index_request_needed(old(self).model()),
            r matches Some(req) ==> req == (IndexRequest { generation: old(self).model().generation }),
    {
        if self.index.is_some() {
            None
        } else {
            self.index = Some(CacheEntry::Pending);
            Some(IndexRequest { generation: self.generation })
        }
    }

    /// Requests the detail record for `id`.  Returns the transport request
    /// to issue iff no entry for `id` existed — the single-flight
    /// guarantee, keyed by identifier.
    pub fn get_detail(&mut self, id: u64) -> (r: Option<DetailRequest>)
        ensures
            final(self).model() == detail_step(old(self).model(), id),
            r is Some <==> detail_request_needed(old(self).model(), id),
            r matches Some(req) ==> req == (DetailRequest { id, generation: old(self).model().generation }),
    {
        if self.details.contains_key(&id) {
            None
        } else {
            self.details.insert(id, CacheEntry::Pending);
            Some(DetailRequest { id, generation: self.generation })
        }
    }

    /// Read-only poll of the index slot: `None` if the index was never
    /// requested, otherwise the stored entry, unchanged by the poll.
    pub fn poll_index(&self) -> (r: Option<&CacheEntry<Vec<PartialEntry>>>)
        ensures
            match r {
                None => self.model().index is None,
                Some(e) => self.model().index == Some(*e),
            },
    {
        self.index.as_ref()
    }

    /// Read-only poll of the detail entry for `id`: `None` if `id` was
    /// never requested, otherwise the stored entry, unchanged by the poll.
    pub fn poll_detail(&self, id: u64) -> (r: Option<&CacheEntry<FullEntry>>)
        ensures
            match r {
                None => !self.model().details.contains_key(id),
                Some(e) => self.model().details.contains_key(id) && *e == self.model().details[id],
            },
    {
        self.details.get(&id)
    }

    /// Reports the outcome of an index request.  The outcome is written
    /// only into a still-pending slot of the same generation; a stale or
    /// duplicate completion is discarded.
    pub fn complete_index(&mut self, generation: u64, outcome: Result<Vec<PartialEntry>, FetchError>)
        ensures
            final(self).model() == complete_index_step(old(self).model(), generation, outcome),
    {
        if generation == self.generation {
            let pending = match &self.index {
                Some(CacheEntry::Pending) => true,
                _ => false,
            };
            if pending {
                self.index = Some(CacheEntry::Ready(outcome));
            }
        }
    }

    /// Reports the outcome of a detail request.  The outcome is written
    /// only into a still-pending entry for the same key and generation; a
    /// stale or duplicate completion is discarded.
    pub fn complete_detail(&mut self, id: u64, generation: u64, outcome: Result<FullEntry, FetchError>)
        ensures
            final(self).model() == complete_detail_step(old(self).model(), id, generation, outcome),
    {
        if generation == self.generation {
            let pending = match self.details.get(&id) {
                Some(CacheEntry::Pending) => true,
                _ => false,
            };
            if pending {
                self.details.insert(id, CacheEntry::Ready(outcome));
            }
        }
    }

    /// Discards the index slot and every detail entry and bumps the
    /// generation.  In-flight transport calls are not cancelled: they are
    /// orphaned, and their eventual completion, carrying the old
    /// generation, is discarded.
    pub fn invalidate_all(&mut self)
        requires
            old(self).model().generation < u64::MAX,
        ensures
            final(self).model() == invalidate_step(old(self).model()),
    {
        self.generation = self.generation + 1;
        self.index = None;
        self.details = HashMap::new();
    }
}

/// How many transport requests `n` consecutive `get_detail(id)` calls on a
/// cache modelled by `m` issue, with no completion or invalidation in
/// between.
pub open spec fn detail_requests_issued(m: CacheModel, id: u64, n: nat) -> nat
    decreases n,
{
    if n == 0 {
        0
    } else {
        (if detail_request_needed(m, id) {
            1 as nat
        } else {
            0 as nat
        }) + detail_requests_issued(detail_step(m, id), id, (n - 1) as nat)
    }
}

/// Single flight: however many times one key is requested before its fetch
/// resolves, at most one transport request is issued for it — exactly one
/// if no entry for the key existed, none if one did (pending or ready).
pub proof fn lemma_single_flight(m: CacheModel, id: u64, n: nat)
    requires
        n >= 1,
    ensures
        detail_requests_issued(m, id, n) == if detail_request_needed(m, id) {
            1 as nat
        } else {
            0 as nat
        },
    decreases n,
{
    let m1 = detail_step(m, id);
    assert(!detail_request_needed(m1, id));
    if n == 1 {
        assert(detail_requests_issued(m1, id, 0) == 0);
    } else {
        lemma_single_flight(m1, id, (n - 1) as nat);
    }
}

/// Idempotent read: once the entry for a key is ready, its value survives
/// every further request or completion unchanged — for any key and any
/// reported outcome — so repeated polls return the identical value until
/// invalidation destroys the entry.
pub proof fn lemma_ready_entry_stable(
    m: CacheModel,
    id: u64,
    other: u64,
    generation: u64,
    detail_outcome: Result<FullEntry, FetchError>,
    index_outcome: Result<Vec<PartialEntry>, FetchError>,
)
    requires
        m.details.contains_key(id),
        m.details[id] is Ready,
    ensures
        detail_step(m, other).details.contains_key(id),
        detail_step(m, other).details[id] == m.details[id],
        complete_detail_step(m, other, generation, detail_outcome).details.contains_key(id),
        complete_detail_step(m, other, generation, detail_outcome).details[id] == m.details[id],
        index_step(m).details == m.details,
        complete_index_step(m, generation, index_outcome).details == m.details,
{
}

/// The same stability for the index slot: once ready, its value survives
/// every further request or completion unchanged, until invalidation.
pub proof fn lemma_ready_index_stable(
    m: CacheModel,
    id: u64,
    generation: u64,
    detail_outcome: Result<FullEntry, FetchError>,
    index_outcome: Result<Vec<PartialEntry>, FetchError>,
)
    requires
        m.index matches Some(e) && e is Ready,
    ensures
        index_step(m).index == m.index,
        complete_index_step(m, generation, index_outcome).index == m.index,
        detail_step(m, id).index == m.index,
        complete_detail_step(m, id, generation, detail_outcome).index == m.index,
{
}

/// Invalidation isolation, first half: a completion whose generation is
/// older than the cache's — every request orphaned by an invalidation is —
/// changes nothing at all.
pub proof fn lemma_stale_completion_rejected(
    m: CacheModel,
    id: u64,
    generation: u64,
    detail_outcome: Result<FullEntry, FetchError>,
    index_outcome: Result<Vec<PartialEntry>, FetchError>,
)
    requires
        generation != m.generation,
    ensures
        complete_detail_step(m, id, generation, detail_outcome) == m,
        complete_index_step(m, generation, index_outcome) == m,
{
}

/// Invalidation isolation, second half: invalidation strictly increases
/// the generation and no other operation changes it, so a request issued
/// before an invalidation stays stale forever after it.
pub proof fn lemma_invalidation_orphans_requests(
    m: CacheModel,
    id: u64,
    generation: u64,
    detail_outcome: Result<FullEntry, FetchError>,
    index_outcome: Result<Vec<PartialEntry>, FetchError>,
)
    requires
        m.generation < u64::MAX,
    ensures
        invalidate_step(m).generation > m.generation,
        index_step(m).generation == m.generation,
        detail_step(m, id).generation == m.generation,
        complete_index_step(m, generation, index_outcome).generation == m.generation,
        complete_detail_step(m, id, generation, detail_outcome).generation == m.generation,
{
}

} // verus!
