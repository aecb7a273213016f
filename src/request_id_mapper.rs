//! One-shot correlation table used by proxies: downstream request ids are
//! rewritten into a private, densely allocated namespace of the upstream
//! connection and mapped back exactly once when the response arrives.
//!
//! The table is owned by a single upstream-facing connection and has no
//! internal locking: callers that share it across tasks must serialise
//! access themselves (one owning task, or an outer mutex).
use std::collections::HashMap;
use vstd::prelude::*;

verus! {

/// Abstract state of a [`RequestIdMapper`]: the outstanding outbound ids,
/// each mapped to the id its downstream chose, and the next outbound id.
pub ghost struct MapperState {
    pub outstanding: Map<u32, u32>,
    pub next_id: nat,
}

impl MapperState {
    /// The state of a freshly created mapper.
    pub open spec fn fresh() -> MapperState {
        MapperState { outstanding: Map::empty(), next_id: 0 }
    }

    /// Every outstanding id was handed out before, and the counter fits in
    /// the 32-bit identifier space.
    pub open spec fn wf(self) -> bool {
        &&& self.next_id <= u32::MAX
        &&& forall|k: u32| #[trigger] self.outstanding.contains_key(k) ==> k < self.next_id
    }

    /// Whether one more outbound id can be handed out.
    pub open spec fn can_allocate(self) -> bool {
        self.next_id < u32::MAX
    }

    /// Allocation: the next id is recorded against `original` and returned.
    pub open spec fn allocate(self, original: u32) -> (MapperState, u32) {
        (
            MapperState {
                outstanding: self.outstanding.insert(self.next_id as u32, original),
                next_id: self.next_id + 1,
            },
            self.next_id as u32,
        )
    }

    /// Resolution: an outstanding id is removed and its original id returned;
    /// any other id leaves the state alone and yields nothing.
    pub open spec fn resolve(self, outbound: u32) -> (MapperState, Option<u32>) {
        if self.outstanding.contains_key(outbound) {
            (
                MapperState {
                    outstanding: self.outstanding.remove(outbound),
                    next_id: self.next_id,
                },
                Some(self.outstanding[outbound]),
            )
        } else {
            (self, None)
        }
    }

    /// The state and the returned ids after allocating for each of
    /// `originals` in turn.
    pub open spec fn allocate_all(self, originals: Seq<u32>) -> (MapperState, Seq<u32>)
        decreases originals.len(),
    {
        if originals.len() == 0 {
            (self, Seq::empty())
        } else {
            let (before, ids) = self.allocate_all(originals.drop_last());
            let (after, id) = before.allocate(originals.last());
            (after, ids.push(id))
        }
    }
}

/// Error returned when an outbound id is resolved that is not outstanding:
/// it was never handed out, or its response was already resolved.
#[derive(Debug, Clone, Copy, PartialEq, Eq, Structural)]
pub struct UnknownRequestId {
    pub upstream_id: u32,
}

/// Proxies rewrite the request ids of downstream messages and remember the
/// original id so that the upstream's response can be patched with it.
#[derive(Debug)]
pub struct RequestIdMapper {
    // upstream id -> downstream id
    request_ids_map: HashMap<u32, u32>,
    next_id: u32,
}

impl View for RequestIdMapper {
    type V = MapperState;

    closed spec fn view(&self) -> MapperState {
        MapperState { outstanding: self.request_ids_map@, next_id: self.next_id as nat }
    }
}

impl RequestIdMapper {
    /// An empty table whose first outbound id is 0.
    pub fn new() -> (r: Self)
        ensures
            r@ == MapperState::fresh(),
    {
        let r = Self { request_ids_map: HashMap::new(), next_id: 0 };
        assert(r@.outstanding =~= Map::empty());
        r
    }

    /// Whether every outbound id has been handed out, so that no further
    /// request can be mapped on this connection.
    pub fn is_exhausted(&self) -> (r: bool)
        ensures
            r == !self@.can_allocate(),
    {
        self.next_id == u32::MAX
    }

    /// Records `id`, chosen by a downstream, under the next outbound id and
    /// returns that outbound id.
    pub fn on_open_channel(&mut self, id: u32) -> (r: u32)
        requires
            old(self)@.can_allocate(),
        ensures
            (final(self)@, r) == old(self)@.allocate(id),
    {
        let new_id = self.next_id;
        self.next_id = self.next_id + 1;
        self.request_ids_map.insert(new_id, id);
        new_id
    }

    /// Removes the outstanding outbound id `upstream_id` and returns the
    /// downstream id it stood for; an id that is not outstanding is an error.
    pub fn remove(&mut self, upstream_id: u32) -> (r: Result<u32, UnknownRequestId>)
        ensures
            final(self)@ == old(self)@.resolve(upstream_id).0,
            match r {
                Ok(original) => old(self)@.resolve(upstream_id).1 == Some(original),
                Err(e) => old(self)@.resolve(upstream_id).1 is None && e.upstream_id
                    == upstream_id,
            },
    {
        match self.request_ids_map.remove(&upstream_id) {
            Some(original) => {
                assert(self@.outstanding =~= old(self)@.outstanding.remove(upstream_id));
                Ok(original)
            },
            None => {
                assert(self@.outstanding =~= old(self)@.outstanding);
                Err(UnknownRequestId { upstream_id })
            },
        }
    }
}

impl Default for RequestIdMapper {
    fn default() -> (r: Self)
        ensures
            r@ == MapperState::fresh(),
    {
        Self::new()
    }
}

/// A fresh table is well formed.
pub proof fn lemma_fresh_wf()
    ensures
        MapperState::fresh().wf(),
{
}

/// Allocation keeps the table well formed.
pub proof fn lemma_allocate_preserves_wf(s: MapperState, original: u32)
    requires
        s.wf(),
        s.can_allocate(),
    ensures
        s.allocate(original).0.wf(),
{
}

/// Resolution keeps the table well formed.
pub proof fn lemma_resolve_preserves_wf(s: MapperState, outbound: u32)
    requires
        s.wf(),
    ensures
        s.resolve(outbound).0.wf(),
{
}

/// On a fresh table, `n` allocations return exactly `0, 1, ..., n - 1` in
/// call order, all distinct, and each returned id maps to the original id
/// given in the same call.
pub proof fn lemma_fresh_allocations_are_sequential(originals: Seq<u32>)
    requires
        originals.len() < u32::MAX,
    ensures
        ({
            let (s, ids) = MapperState::fresh().allocate_all(originals);
            &&& ids.len() == originals.len()
            &&& forall|i: int| 0 <= i < ids.len() ==> #[trigger] ids[i] == i
            &&& forall|i: int, j: int|
                0 <= i < ids.len() && 0 <= j < ids.len() && i != j ==> ids[i] != ids[j]
            &&& s.next_id == originals.len()
            &&& s.outstanding == Map::new(
                |k: u32| k < originals.len(),
                |k: u32| originals[k as int],
            )
            &&& s.wf()
        }),
    decreases originals.len(),
{
    if originals.len() > 0 {
        let prefix = originals.drop_last();
        lemma_fresh_allocations_are_sequential(prefix);
        let (before, ids) = MapperState::fresh().allocate_all(prefix);
        let (s, all) = MapperState::fresh().allocate_all(originals);
        assert(before.next_id == prefix.len());
        assert(s == before.allocate(originals.last()).0);
        assert(all == ids.push(prefix.len() as u32));
        assert(s.outstanding == before.outstanding.insert(prefix.len() as u32, originals.last()));
        assert(s.outstanding =~= Map::new(
            |k: u32| k < originals.len(),
            |k: u32| originals[k as int],
        ));
        assert forall|i: int| 0 <= i < all.len() implies #[trigger] all[i] == i by {
            if i < prefix.len() {
                assert(all[i] == ids[i]);
            }
        }
        assert(s.wf());
    } else {
        assert(MapperState::fresh().allocate_all(originals).0.outstanding =~= Map::new(
            |k: u32| k < originals.len(),
            |k: u32| originals[k as int],
        ));
    }
}

/// Resolving an id right after it was allocated returns the original id
/// unchanged and leaves the outstanding ids as they were before.
pub proof fn lemma_resolve_after_allocate(s: MapperState, original: u32)
    requires
        s.wf(),
        s.can_allocate(),
    ensures
        ({
            let (allocated, outbound) = s.allocate(original);
            let (resolved, r) = allocated.resolve(outbound);
            &&& r == Some(original)
            &&& resolved.outstanding == s.outstanding
        }),
{
    let (allocated, outbound) = s.allocate(original);
    assert(!s.outstanding.contains_key(outbound));
    assert(allocated.outstanding.remove(outbound) =~= s.outstanding);
}

/// An id that was never handed out cannot be resolved: the table is left
/// unchanged and nothing is returned.
pub proof fn lemma_resolve_unallocated(s: MapperState, outbound: u32)
    requires
        s.wf(),
        outbound >= s.next_id,
    ensures
        s.resolve(outbound) == (s, None::<u32>),
{
}

/// An id that was resolved cannot be resolved a second time.
pub proof fn lemma_resolve_twice(s: MapperState, outbound: u32)
    ensures
        s.resolve(outbound).0.resolve(outbound).1 is None,
{
}

/// Once resolved, an id stays unresolvable whatever is allocated afterwards:
/// outbound ids are never reused.
pub proof fn lemma_resolved_id_not_reused(s: MapperState, outbound: u32, originals: Seq<u32>)
    requires
        s.wf(),
        outbound < s.next_id,
        s.next_id + originals.len() <= u32::MAX,
    ensures
        s.resolve(outbound).0.allocate_all(originals).0.resolve(outbound).1 is None,
    decreases originals.len(),
{
    lemma_allocate_all_keeps_old_absent(s.resolve(outbound).0, outbound, originals);
}

proof fn lemma_allocate_all_keeps_old_absent(t: MapperState, outbound: u32, originals: Seq<u32>)
    requires
        !t.outstanding.contains_key(outbound),
        outbound < t.next_id,
        t.next_id + originals.len() <= u32::MAX,
    ensures
        !t.allocate_all(originals).0.outstanding.contains_key(outbound),
        t.allocate_all(originals).0.next_id == t.next_id + originals.len(),
    decreases originals.len(),
{
    if originals.len() > 0 {
        lemma_allocate_all_keeps_old_absent(t, outbound, originals.drop_last());
    }
}

} // verus!
