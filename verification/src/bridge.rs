//! The tracking allocator bridge.
//!
//! A native component requests all of its heap memory through four
//! callbacks (allocate, zero-allocate, resize, free). The bridge keeps one
//! record per live address — its size and alignment — so that resize and
//! free can be serviced with the exact layout the memory was requested
//! with, which the native side never remembers.
//!
//! The functions here are the decisions those callbacks make: which layout
//! to request, when to fail with a null result, and how the record map
//! changes. The callbacks themselves hand the system allocator's answer
//! (an address, or 0 for refusal) back into these functions.

use vstd::prelude::*;

use std::collections::HashMap;

use crate::layout::{checked_next_power_of_two, layout_valid, next_pow2, AllocLayout};

verus! {

broadcast use vstd::std_specs::hash::group_hash_axioms;

/// The layout an allocation of `sz` bytes is requested with: alignment is
/// the least power of two at least `sz`. Fails exactly when that alignment
/// does not fit in `usize` or the resulting layout is invalid.
pub open spec fn spec_malloc_plan(sz: usize) -> Option<AllocLayout> {
    let a = next_pow2(sz as nat);
    if a <= usize::MAX && layout_valid(sz as nat, a) {
        Some(AllocLayout { size: sz, align: a as usize })
    } else {
        None
    }
}

/// The layout a zero-initialized allocation of `n` elements of `sz` bytes
/// is requested with: alignment is derived from the element size, the total
/// from the product. Fails on either overflow or an invalid layout.
pub open spec fn spec_calloc_plan(n: usize, sz: usize) -> Option<AllocLayout> {
    let a = next_pow2(sz as nat);
    if a <= usize::MAX && n * sz <= usize::MAX && layout_valid((n * sz) as nat, a) {
        Some(AllocLayout { size: (n * sz) as usize, align: a as usize })
    } else {
        None
    }
}

/// What freeing `addr` does to the record map: the null address and an
/// untracked address are no-ops, a tracked address loses its record.
pub open spec fn spec_free(m: Map<usize, AllocLayout>, addr: usize) -> Map<usize, AllocLayout> {
    if addr == 0 {
        m
    } else if m.contains_key(addr) {
        m.remove(addr)
    } else {
        m
    }
}

/// The layouts a resize works with: the record given up and the layout the
/// new region is requested with (the original alignment is preserved).
#[derive(Clone, Copy, Debug)]
pub struct ReallocPlan {
    pub old_layout: Option<AllocLayout>,
    pub new_layout: AllocLayout,
}

/// What planning a resize of `addr` to `new_sz` bytes does to the record
/// map, and what it yields. The null address behaves as a fresh allocation.
/// An untracked address is caller misuse, answered with a null result. A
/// tracked address gives its record up before the new one is inserted, so
/// the same key is never owned twice; if the new layout is invalid the
/// resize fails with the record already surrendered, exactly as the
/// callback sequence does.
pub open spec fn spec_realloc_plan(m: Map<usize, AllocLayout>, addr: usize, new_sz: usize) -> (
    Map<usize, AllocLayout>,
    Option<ReallocPlan>,
) {
    if addr == 0 {
        (
            m,
            match spec_malloc_plan(new_sz) {
                Some(l) => Some(ReallocPlan { old_layout: None, new_layout: l }),
                None => None,
            },
        )
    } else if !m.contains_key(addr) {
        (m, None)
    } else {
        let removed = m[addr];
        let shrunk = m.remove(addr);
        if layout_valid(new_sz as nat, removed.align as nat) {
            (
                shrunk,
                Some(
                    ReallocPlan {
                        old_layout: Some(removed),
                        new_layout: AllocLayout { size: new_sz, align: removed.align },
                    },
                ),
            )
        } else {
            (shrunk, None)
        }
    }
}

/// The tracking context: one record per address currently lent to the
/// native side, holding the layout the memory was requested with.
#[derive(Debug)]
pub struct FsmAlloc {
    allocs: HashMap<usize, AllocLayout>,
}

impl FsmAlloc {
    /// The record map: address to layout.
    pub closed spec fn allocations(self) -> Map<usize, AllocLayout> {
        self.allocs@
    }

    /// A fresh context tracking nothing.
    pub fn new() -> (r: FsmAlloc)
        ensures
            r.allocations() == Map::<usize, AllocLayout>::empty(),
    {
        FsmAlloc { allocs: HashMap::new() }
    }

    /// How many addresses are currently tracked.
    pub fn count(&self) -> (n: usize)
        ensures
            n == self.allocations().len(),
    {
        self.allocs.len()
    }

    /// Whether `addr` currently has a record.
    pub fn tracks(&self, addr: usize) -> (b: bool)
        ensures
            b == self.allocations().contains_key(addr),
    {
        self.allocs.contains_key(&addr)
    }

    /// The layout `addr` was requested with, if it is tracked.
    pub fn layout_of(&self, addr: usize) -> (r: Option<AllocLayout>)
        ensures
            self.allocations().contains_key(addr) ==> r == Some(self.allocations()[addr]),
            !self.allocations().contains_key(addr) ==> r is None,
    {
        match self.allocs.get(&addr) {
            Some(l) => Some(*l),
            None => None,
        }
    }

    /// The layout to request `sz` bytes with.
    pub fn malloc_plan(sz: usize) -> (r: Option<AllocLayout>)
        ensures
            r == spec_malloc_plan(sz),
    {
        let align = match checked_next_power_of_two(sz) {
            Some(a) => a,
            None => {
                return None;
            },
        };
        AllocLayout::from_size_align(sz, align)
    }

    /// The layout to request `n` zero-initialized elements of `sz` bytes
    /// with. A product that overflows yields no layout, so nothing is
    /// allocated for it.
    pub fn calloc_plan(n: usize, sz: usize) -> (r: Option<AllocLayout>)
        ensures
            r == spec_calloc_plan(n, sz),
    {
        let align = match checked_next_power_of_two(sz) {
            Some(a) => a,
            None => {
                return None;
            },
        };
        let total = match n.checked_mul(sz) {
            Some(t) => t,
            None => {
                return None;
            },
        };
        AllocLayout::from_size_align(total, align)
    }

    /// Inserts the record for an address the system allocator just handed
    /// out. The address is non-null because null means refusal, and fresh
    /// because a collision with a live record would mean the allocator
    /// itself is broken — the caller must treat that as fatal before
    /// recording.
    pub fn record(&mut self, addr: usize, layout: AllocLayout)
        requires
            addr != 0,
            !old(self).allocations().contains_key(addr),
        ensures
            final(self).allocations() == old(self).allocations().insert(addr, layout),
    {
        let _previous = self.allocs.insert(addr, layout);
    }

    /// Services a free request: the null address is a documented no-op, an
    /// untracked address a tolerated one; a tracked address gives up its
    /// record, returned so the memory can be released with the layout it
    /// was requested with — never one re-derived from the pointer.
    pub fn free(&mut self, addr: usize) -> (r: Option<AllocLayout>)
        ensures
            final(self).allocations() == spec_free(old(self).allocations(), addr),
            r == (if addr != 0 && old(self).allocations().contains_key(addr) {
                Some(old(self).allocations()[addr])
            } else {
                None::<AllocLayout>
            }),
    {
        if addr == 0 {
            return None;
        }
        self.allocs.remove(&addr)
    }

    /// Plans a resize of `addr` to `new_sz` bytes; see `spec_realloc_plan`
    /// for the exact effect. On success the caller performs the move and
    /// records the resulting address with the returned new layout.
    pub fn realloc_plan(&mut self, addr: usize, new_sz: usize) -> (r: Option<ReallocPlan>)
        ensures
            (final(self).allocations(), r) == spec_realloc_plan(
                old(self).allocations(),
                addr,
                new_sz,
            ),
    {
        if addr == 0 {
            return match Self::malloc_plan(new_sz) {
                Some(l) => Some(ReallocPlan { old_layout: None, new_layout: l }),
                None => None,
            };
        }
        let removed = match self.allocs.remove(&addr) {
            Some(l) => l,
            None => {
                return None;
            },
        };
        match AllocLayout::from_size_align(new_sz, removed.align) {
            Some(l) => Some(ReallocPlan { old_layout: Some(removed), new_layout: l }),
            None => None,
        }
    }
}

/// One allocation-affecting event, as committed by the callbacks: a fresh
/// allocation recorded, a resize moving a record, or a free.
pub enum BridgeEvent {
    Allocate { addr: usize, layout: AllocLayout },
    Reallocate { old_addr: usize, new_addr: usize, new_layout: AllocLayout },
    Release { addr: usize },
}

/// How one event changes the record map.
pub open spec fn apply_event(m: Map<usize, AllocLayout>, e: BridgeEvent) -> Map<
    usize,
    AllocLayout,
> {
    match e {
        BridgeEvent::Allocate { addr, layout } => m.insert(addr, layout),
        BridgeEvent::Reallocate { old_addr, new_addr, new_layout } => m.remove(old_addr).insert(
            new_addr,
            new_layout,
        ),
        BridgeEvent::Release { addr } => spec_free(m, addr),
    }
}

/// The record map after a whole sequence of events.
pub open spec fn apply_events(m: Map<usize, AllocLayout>, es: Seq<BridgeEvent>) -> Map<
    usize,
    AllocLayout,
>
    decreases es.len(),
{
    if es.len() == 0 {
        m
    } else {
        apply_event(apply_events(m, es.drop_last()), es.last())
    }
}

/// How one event changes the set of outstanding addresses (those handed to
/// the native side and not yet given back).
pub open spec fn outstanding_after(s: Set<usize>, e: BridgeEvent) -> Set<usize> {
    match e {
        BridgeEvent::Allocate { addr, layout } => s.insert(addr),
        BridgeEvent::Reallocate { old_addr, new_addr, new_layout } => s.remove(old_addr).insert(
            new_addr,
        ),
        BridgeEvent::Release { addr } => if addr != 0 && s.contains(addr) {
            s.remove(addr)
        } else {
            s
        },
    }
}

/// The outstanding addresses after a whole sequence of events.
pub open spec fn outstanding(s: Set<usize>, es: Seq<BridgeEvent>) -> Set<usize>
    decreases es.len(),
{
    if es.len() == 0 {
        s
    } else {
        outstanding_after(outstanding(s, es.drop_last()), es.last())
    }
}

/// An event free of native misuse: allocations and resize results are
/// non-null and fresh, resizes touch only live addresses. Free may name
/// anything — an untracked address is tolerated by design.
pub open spec fn event_ok(m: Map<usize, AllocLayout>, e: BridgeEvent) -> bool {
    match e {
        BridgeEvent::Allocate { addr, layout } => addr != 0 && !m.contains_key(addr),
        BridgeEvent::Reallocate { old_addr, new_addr, new_layout } => old_addr != 0
            && m.contains_key(old_addr) && new_addr != 0 && !m.remove(old_addr).contains_key(
            new_addr,
        ),
        BridgeEvent::Release { addr } => true,
    }
}

/// A whole sequence of events free of native misuse, each judged against
/// the map it finds.
pub open spec fn events_ok(m: Map<usize, AllocLayout>, es: Seq<BridgeEvent>) -> bool
    decreases es.len(),
{
    if es.len() == 0 {
        true
    } else {
        events_ok(m, es.drop_last()) && event_ok(apply_events(m, es.drop_last()), es.last())
    }
}

/// Law: after any misuse-free sequence of allocate, resize and free events,
/// the tracked addresses are exactly the outstanding ones — so the map's
/// size equals the count of outstanding addresses at every point.
pub proof fn lemma_tracking_matches_outstanding(m: Map<usize, AllocLayout>, es: Seq<BridgeEvent>)
    requires
        events_ok(m, es),
    ensures
        apply_events(m, es).dom() == outstanding(m.dom(), es),
        apply_events(m, es).dom().len() == outstanding(m.dom(), es).len(),
    decreases es.len(),
{
    if es.len() == 0 {
    } else {
        let prefix = es.drop_last();
        lemma_tracking_matches_outstanding(m, prefix);
        let pm = apply_events(m, prefix);
        let ps = outstanding(m.dom(), prefix);
        match es.last() {
            BridgeEvent::Allocate { addr, layout } => {
                assert(pm.insert(addr, layout).dom() =~= ps.insert(addr));
            },
            BridgeEvent::Reallocate { old_addr, new_addr, new_layout } => {
                assert(pm.remove(old_addr).insert(new_addr, new_layout).dom() =~= ps.remove(
                    old_addr,
                ).insert(new_addr));
            },
            BridgeEvent::Release { addr } => {
                if addr != 0 && pm.contains_key(addr) {
                    assert(pm.remove(addr).dom() =~= ps.remove(addr));
                }
            },
        }
    }
}

/// Law: freeing an address that is not tracked is a no-op.
pub proof fn lemma_free_untracked_noop(m: Map<usize, AllocLayout>, addr: usize)
    requires
        addr == 0 || !m.contains_key(addr),
    ensures
        spec_free(m, addr) == m,
{
}

/// Law: freeing the same address twice is the same as freeing it once.
pub proof fn lemma_free_idempotent(m: Map<usize, AllocLayout>, addr: usize)
    ensures
        spec_free(spec_free(m, addr), addr) == spec_free(m, addr),
{
    if addr != 0 && m.contains_key(addr) {
        assert(!m.remove(addr).contains_key(addr));
    }
}

/// Law: recording one fresh allocation and then freeing it restores the
/// map it started from; starting from the empty map, it ends empty.
pub proof fn lemma_alloc_then_free(m: Map<usize, AllocLayout>, addr: usize, layout: AllocLayout)
    requires
        addr != 0,
        !m.contains_key(addr),
    ensures
        spec_free(m.insert(addr, layout), addr) == m,
{
    assert(m.insert(addr, layout).remove(addr) =~= m);
}

/// Law: planning a resize of the null address is exactly planning a fresh
/// allocation — the map is untouched and the layout is the malloc layout.
pub proof fn lemma_realloc_null_is_malloc(m: Map<usize, AllocLayout>, new_sz: usize)
    ensures
        spec_realloc_plan(m, 0, new_sz).0 == m,
        match spec_realloc_plan(m, 0, new_sz).1 {
            Some(p) => p.old_layout is None && spec_malloc_plan(new_sz) == Some(p.new_layout),
            None => spec_malloc_plan(new_sz) is None,
        },
{
}

/// A compiled automaton: the native handle paired with the bridge that
/// serviced its construction, whose records the native object still
/// depends on.
#[derive(Debug)]
pub struct Fsm {
    handle: usize,
    alloc: FsmAlloc,
}

impl Fsm {
    /// The native handle.
    pub closed spec fn spec_handle(self) -> usize {
        self.handle
    }

    /// The bridge that backed the handle's construction.
    pub closed spec fn bridge(self) -> FsmAlloc {
        self.alloc
    }

    /// Pairs a native handle with its bridge. The handle is non-null: a
    /// null handle means construction failed and there is nothing to own.
    pub fn new(handle: usize, alloc: FsmAlloc) -> (r: Fsm)
        requires
            handle != 0,
        ensures
            r.spec_handle() == handle,
            r.bridge() == alloc,
    {
        Fsm { handle, alloc }
    }

    /// The native handle, for calls into the native library.
    pub fn handle(&self) -> (h: usize)
        ensures
            h == self.spec_handle(),
    {
        self.handle
    }

    /// Consumes the pair for teardown. The native handle comes first and
    /// must be released before the bridge state is reclaimed: releasing it
    /// triggers free callbacks that still consult the bridge's records, so
    /// reversing the order would touch reclaimed state.
    pub fn into_parts(self) -> (r: (usize, FsmAlloc))
        ensures
            r.0 == self.spec_handle(),
            r.1 == self.bridge(),
    {
        let Fsm { handle, alloc } = self;
        (handle, alloc)
    }
}

} // verus!
