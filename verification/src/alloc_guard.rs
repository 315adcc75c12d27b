//! A guarded allocation: one region laid out as
//! `[front canary][usable data][back canary]`.
//!
//! The canary bytes hold fixed sentinels from creation until the region is
//! checked or released, so an out-of-bounds write by the consumer of the
//! usable data is detected by `check`. Releasing the region overwrites all
//! of it with a poison byte, so stale canaries or data cannot be observed
//! afterwards.

use vstd::prelude::*;
use vstd::pervasive::VecAdditionalExecFns;

use crate::layout::{checked_next_power_of_two, layout_valid, next_pow2, AllocLayout};

verus! {

/// Sentinel stamped over the canary region in front of the usable data.
pub const FRONT_GUARD_BYTE: u8 = 0x46;

/// Sentinel stamped over the canary region behind the usable data.
pub const BACK_GUARD_BYTE: u8 = 0x42;

/// Byte the whole region is overwritten with on release.
pub const POISON_BYTE: u8 = 0x58;

/// One guarded region: `guard_bytes` canary bytes, then `data_size` usable
/// bytes, then `guard_bytes` canary bytes again.
#[derive(Debug)]
pub struct AllocGuard {
    buf: Vec<u8>,
    guard_bytes: usize,
    data_size: usize,
    align: usize,
}

/// Whether a region of `gw` guard bytes around `ds` data bytes still holds
/// both sentinels intact.
pub open spec fn region_guards_ok(region: Seq<u8>, gw: nat, ds: nat) -> bool {
    &&& forall|i: int| 0 <= i < gw ==> region[i] == FRONT_GUARD_BYTE
    &&& forall|i: int| 0 <= i < gw ==> #[trigger] region[gw + ds + i] == BACK_GUARD_BYTE
}

/// The condition under which a guarded allocation of `sz` usable bytes with
/// `guard_sz`-byte canaries succeeds: the total byte count fits in `usize`,
/// and the alignment derived from it yields a valid layout.
pub open spec fn guard_malloc_ok(guard_sz: usize, sz: usize) -> bool {
    let total = sz + 2 * guard_sz;
    &&& total <= usize::MAX
    &&& next_pow2(total as nat) <= usize::MAX
    &&& layout_valid(total as nat, next_pow2(total as nat))
}

/// The condition under which the zero-initializing variant succeeds: the
/// element count times the element size fits in `usize`, and a guarded
/// allocation of that many bytes succeeds.
pub open spec fn guard_calloc_ok(guard_sz: usize, n: usize, sz: usize) -> bool {
    &&& n * sz <= usize::MAX
    &&& guard_malloc_ok(guard_sz, (n * sz) as usize)
}

impl AllocGuard {
    /// The whole region, canaries included.
    pub closed spec fn region(self) -> Seq<u8> {
        self.buf@
    }

    /// Width of each canary, in bytes.
    pub closed spec fn guard_width(self) -> nat {
        self.guard_bytes as nat
    }

    /// Number of usable bytes between the canaries.
    pub closed spec fn data_len(self) -> nat {
        self.data_size as nat
    }

    /// Alignment the region was requested with.
    pub closed spec fn alignment(self) -> nat {
        self.align as nat
    }

    /// The region is exactly large enough for the data and both canaries.
    pub open spec fn wf(self) -> bool {
        self.region().len() == self.data_len() + 2 * self.guard_width()
    }

    /// Both canaries still hold their sentinels.
    pub open spec fn guards_ok(self) -> bool {
        region_guards_ok(self.region(), self.guard_width(), self.data_len())
    }

    /// Allocates a guarded region with `sz` usable bytes. Fails exactly when
    /// the total size overflows or the layout derived from it is invalid.
    pub fn malloc(guard_sz: usize, sz: usize) -> (r: Option<AllocGuard>)
        ensures
            r is Some <==> guard_malloc_ok(guard_sz, sz),
            r matches Some(g) ==> {
                &&& g.wf()
                &&& g.guards_ok()
                &&& g.guard_width() == guard_sz
                &&& g.data_len() == sz
                &&& g.alignment() == next_pow2((sz + 2 * guard_sz) as nat)
            },
    {
        Self::alloc_with_guards(guard_sz, sz)
    }

    /// Allocates a guarded region with `n * sz` usable bytes, zero-filled.
    /// Fails exactly when `n * sz` overflows, the total size overflows, or
    /// the layout derived from it is invalid.
    pub fn calloc(guard_sz: usize, n: usize, sz: usize) -> (r: Option<AllocGuard>)
        ensures
            r is Some <==> guard_calloc_ok(guard_sz, n, sz),
            r matches Some(g) ==> {
                &&& g.wf()
                &&& g.guards_ok()
                &&& g.guard_width() == guard_sz
                &&& g.data_len() == n * sz
                &&& g.alignment() == next_pow2((n * sz + 2 * guard_sz) as nat)
                &&& forall|i: int|
                    guard_sz <= i < guard_sz + n * sz ==> g.region()[i] == 0
            },
    {
        let total = match n.checked_mul(sz) {
            Some(t) => t,
            None => {
                return None;
            },
        };
        Self::alloc_with_guards(guard_sz, total)
    }

    /// Builds the region: front sentinels, zeroed data, back sentinels.
    fn alloc_with_guards(guard_sz: usize, sz: usize) -> (r: Option<AllocGuard>)
        ensures
            r is Some <==> guard_malloc_ok(guard_sz, sz),
            r matches Some(g) ==> {
                &&& g.wf()
                &&& g.guards_ok()
                &&& g.guard_width() == guard_sz
                &&& g.data_len() == sz
                &&& g.alignment() == next_pow2((sz + 2 * guard_sz) as nat)
                &&& forall|i: int| guard_sz <= i < guard_sz + sz ==> g.region()[i] == 0
            },
    {
        let doubled = match guard_sz.checked_mul(2) {
            Some(d) => d,
            None => {
                return None;
            },
        };
        let total = match sz.checked_add(doubled) {
            Some(t) => t,
            None => {
                return None;
            },
        };
        let align = match checked_next_power_of_two(total) {
            Some(a) => a,
            None => {
                return None;
            },
        };
        if AllocLayout::from_size_align(total, align).is_none() {
            return None;
        }
        let mut buf: Vec<u8> = Vec::new();
        push_bytes(&mut buf, guard_sz, FRONT_GUARD_BYTE);
        push_bytes(&mut buf, sz, 0);
        push_bytes(&mut buf, guard_sz, BACK_GUARD_BYTE);
        Some(AllocGuard { buf, guard_bytes: guard_sz, data_size: sz, align })
    }

    /// Offset of the first usable byte within the region.
    pub fn data_offset(&self) -> (r: usize)
        ensures
            r == self.guard_width(),
    {
        self.guard_bytes
    }

    /// Number of usable bytes.
    pub fn data_size(&self) -> (r: usize)
        ensures
            r == self.data_len(),
    {
        self.data_size
    }

    /// Reads one byte of the usable region.
    pub fn read_data(&self, i: usize) -> (r: u8)
        requires
            self.wf(),
            i < self.data_len(),
        ensures
            r == self.region()[self.guard_width() + i],
    {
        proof {
            assert(self.buf.len() <= usize::MAX);
        }
        self.buf[self.guard_bytes + i]
    }

    /// Writes one byte of the usable region; the canaries are untouched.
    pub fn write_data(&mut self, i: usize, b: u8)
        requires
            old(self).wf(),
            i < old(self).data_len(),
        ensures
            final(self).wf(),
            final(self).guard_width() == old(self).guard_width(),
            final(self).data_len() == old(self).data_len(),
            final(self).alignment() == old(self).alignment(),
            final(self).region() == old(self).region().update(
                old(self).guard_width() + i as int,
                b,
            ),
            final(self).guards_ok() == old(self).guards_ok(),
    {
        proof {
            lemma_data_write_preserves_guards(
                self.region(),
                self.guard_width(),
                self.data_len(),
                self.guard_width() + i,
                b,
            );
        }
        proof {
            assert(self.buf.len() <= usize::MAX);
        }
        let idx = self.guard_bytes + i;
        self.buf.set(idx, b);
    }

    /// Writes one byte anywhere in the region, canaries included. This is
    /// what a consumer holding the raw region can always do; a write into a
    /// canary is what `check` exists to detect.
    pub fn write_raw(&mut self, i: usize, b: u8)
        requires
            old(self).wf(),
            i < old(self).region().len(),
        ensures
            final(self).wf(),
            final(self).guard_width() == old(self).guard_width(),
            final(self).data_len() == old(self).data_len(),
            final(self).alignment() == old(self).alignment(),
            final(self).region() == old(self).region().update(i as int, b),
    {
        self.buf.set(i, b);
    }

    /// Re-reads both canary regions and reports whether every sentinel is
    /// intact. A `false` verdict means the consumer wrote out of bounds
    /// and the memory state is already unsafe to continue with: the caller
    /// must treat it as fatal and stop, never downgrade it. Verified code
    /// cannot raise that stop itself, so the verdict is handed back;
    /// `free` enforces the same policy statically by requiring intact
    /// guards, so no release path can run past a corrupted region.
    pub fn check(&self) -> (r: bool)
        requires
            self.wf(),
        ensures
            r == self.guards_ok(),
    {
        let mut i: usize = 0;
        while i < self.guard_bytes
            invariant
                self.wf(),
                i <= self.guard_bytes,
                forall|k: int| 0 <= k < i ==> self.region()[k] == FRONT_GUARD_BYTE,
            decreases self.guard_bytes - i,
        {
            if self.buf[i] != FRONT_GUARD_BYTE {
                return false;
            }
            i = i + 1;
        }
        let n = self.buf.len();
        let back_start = self.guard_bytes + self.data_size;
        let mut j: usize = 0;
        while j < self.guard_bytes
            invariant
                self.wf(),
                n == self.region().len(),
                back_start == self.guard_width() + self.data_len(),
                j <= self.guard_bytes,
                forall|k: int| 0 <= k < self.guard_width() ==> self.region()[k]
                    == FRONT_GUARD_BYTE,
                forall|k: int| 0 <= k < j ==> #[trigger] self.region()[back_start + k]
                    == BACK_GUARD_BYTE,
            decreases self.guard_bytes - j,
        {
            if self.buf[back_start + j] != BACK_GUARD_BYTE {
                return false;
            }
            j = j + 1;
        }
        true
    }

    /// Consumes the allocation: the whole region, canaries and data alike,
    /// is overwritten with the poison byte and handed back to the allocator.
    /// The guard check that release performs is discharged statically by the
    /// precondition, so a corrupted region can never reach this point.
    pub fn free(self) -> (r: Vec<u8>)
        requires
            self.wf(),
            self.guards_ok(),
        ensures
            r@.len() == self.region().len(),
            forall|i: int| 0 <= i < r@.len() ==> r@[i] == POISON_BYTE,
    {
        let AllocGuard { mut buf, guard_bytes: _, data_size: _, align: _ } = self;
        let n = buf.len();
        let mut i: usize = 0;
        while i < n
            invariant
                buf@.len() == n,
                i <= n,
                forall|k: int| 0 <= k < i ==> buf@[k] == POISON_BYTE,
            decreases n - i,
        {
            buf.set(i, POISON_BYTE);
            i = i + 1;
        }
        buf
    }
}

/// Appends `count` copies of `b`.
fn push_bytes(buf: &mut Vec<u8>, count: usize, b: u8)
    requires
        old(buf)@.len() + count <= usize::MAX,
    ensures
        final(buf)@.len() == old(buf)@.len() + count,
        forall|k: int| 0 <= k < old(buf)@.len() ==> final(buf)@[k] == old(buf)@[k],
        forall|k: int| old(buf)@.len() <= k < final(buf)@.len() ==> final(buf)@[k] == b,
{
    let mut i: usize = 0;
    while i < count
        invariant
            old(buf)@.len() + count <= usize::MAX,
            i <= count,
            buf@.len() == old(buf)@.len() + i,
            forall|k: int| 0 <= k < old(buf)@.len() ==> buf@[k] == old(buf)@[k],
            forall|k: int| old(buf)@.len() <= k < buf@.len() ==> buf@[k] == b,
        decreases count - i,
    {
        buf.push(b);
        i = i + 1;
    }
}

/// Writing within the usable region never disturbs the canaries: the guard
/// check gives the same verdict before and after.
pub proof fn lemma_data_write_preserves_guards(
    region: Seq<u8>,
    gw: nat,
    ds: nat,
    i: int,
    b: u8,
)
    requires
        region.len() == ds + 2 * gw,
        gw <= i < gw + ds,
    ensures
        region_guards_ok(region.update(i, b), gw, ds) == region_guards_ok(region, gw, ds),
{
    let updated = region.update(i, b);
    if region_guards_ok(region, gw, ds) {
        assert forall|k: int| 0 <= k < gw implies updated[k] == FRONT_GUARD_BYTE by {
            assert(region[k] == FRONT_GUARD_BYTE);
        }
        assert forall|k: int| 0 <= k < gw implies #[trigger] updated[gw + ds + k]
            == BACK_GUARD_BYTE by {
            assert(region[gw + ds + k] == BACK_GUARD_BYTE);
        }
        assert(region_guards_ok(updated, gw, ds));
    }
    if region_guards_ok(updated, gw, ds) {
        assert forall|k: int| 0 <= k < gw implies region[k] == FRONT_GUARD_BYTE by {
            assert(updated[k] == FRONT_GUARD_BYTE);
        }
        assert forall|k: int| 0 <= k < gw implies #[trigger] region[gw + ds + k]
            == BACK_GUARD_BYTE by {
            assert(updated[gw + ds + k] == BACK_GUARD_BYTE);
        }
        assert(region_guards_ok(region, gw, ds));
    }
}

/// A write one byte past the usable region lands on the first back-canary
/// byte, so the guard check fails afterwards (unless the byte written happens
/// to equal the sentinel itself, which no canary scheme can detect).
pub proof fn lemma_oob_write_breaks_guards(region: Seq<u8>, gw: nat, ds: nat, b: u8)
    requires
        region.len() == ds + 2 * gw,
        gw >= 1,
        b != BACK_GUARD_BYTE,
    ensures
        !region_guards_ok(region.update((gw + ds) as int, b), gw, ds),
{
    let updated = region.update((gw + ds) as int, b);
    if region_guards_ok(updated, gw, ds) {
        assert(updated[gw as int + ds as int + 0] == BACK_GUARD_BYTE);
        assert(updated[(gw + ds) as int] == b);
        assert(false);
    }
}

} // verus!
