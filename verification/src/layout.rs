//! Allocation layouts: the size/alignment pairs handed to the system
//! allocator, and the arithmetic that derives them.
//!
//! An alignment is always derived as the least power of two at least as
//! large as some byte count, and a layout is valid exactly when the size,
//! rounded up to a multiple of the alignment, still fits in `isize`.

use vstd::prelude::*;

verus! {

/// Size and alignment of one allocation, as handed to the system allocator.
#[derive(Clone, Copy, Debug, PartialEq, Eq, Structural)]
pub struct AllocLayout {
    pub size: usize,
    pub align: usize,
}

/// Whether `n` is a power of two (so in particular at least 1).
pub open spec fn is_pow2(n: nat) -> bool
    decreases n,
{
    if n == 0 {
        false
    } else if n == 1 {
        true
    } else {
        n % 2 == 0 && is_pow2(n / 2)
    }
}

/// The least power of two that is at least `n` (and at least 1).
pub open spec fn next_pow2(n: nat) -> nat
    decreases n,
{
    if n <= 1 {
        1
    } else {
        2 * next_pow2((n + 1) / 2)
    }
}

/// `size` rounded up to the nearest multiple of `align`.
pub open spec fn round_up_to_align(size: nat, align: nat) -> nat
    recommends
        align >= 1,
{
    if size % align == 0 {
        size
    } else {
        (size + align - size % align) as nat
    }
}

/// The condition under which a (size, align) pair is accepted by the system
/// allocator's layout constructor: the alignment is a power of two and the
/// rounded-up size does not overflow `isize`.
pub open spec fn layout_valid(size: nat, align: nat) -> bool {
    &&& is_pow2(align)
    &&& round_up_to_align(size, align) <= isize::MAX
}

impl AllocLayout {
    /// Whether this layout would be accepted by the system allocator.
    pub open spec fn valid(self) -> bool {
        layout_valid(self.size as nat, self.align as nat)
    }

    /// Builds a layout, failing exactly when the pair is invalid.
    pub fn from_size_align(size: usize, align: usize) -> (r: Option<AllocLayout>)
        ensures
            layout_valid(size as nat, align as nat) ==> r == Some(AllocLayout { size, align }),
            !layout_valid(size as nat, align as nat) ==> r is None,
    {
        if !is_power_of_two(align) {
            return None;
        }
        let rem = size % align;
        let padded = if rem == 0 {
            size
        } else {
            match size.checked_add(align - rem) {
                Some(p) => p,
                None => {
                    return None;
                },
            }
        };
        if padded <= isize::MAX as usize {
            Some(AllocLayout { size, align })
        } else {
            None
        }
    }
}

pub proof fn lemma_pow2_positive(n: nat)
    requires
        is_pow2(n),
    ensures
        n >= 1,
{
}

pub proof fn lemma_pow2_double(n: nat)
    requires
        is_pow2(n),
    ensures
        is_pow2(2 * n),
{
    lemma_pow2_positive(n);
    assert((2 * n) % 2 == 0);
    assert((2 * n) / 2 == n);
}

/// Two distinct powers of two are at least a factor of two apart.
pub proof fn lemma_pow2_gap(a: nat, b: nat)
    requires
        is_pow2(a),
        is_pow2(b),
        a < b,
    ensures
        2 * a <= b,
    decreases b,
{
    lemma_pow2_positive(a);
    assert(b >= 2);
    assert(b % 2 == 0 && is_pow2(b / 2));
    if a < b / 2 {
        lemma_pow2_gap(a, b / 2);
    } else if a == b / 2 {
        assert(2 * a == b);
    } else {
        // a power of two strictly between b/2 and b cannot exist
        assert(a >= 2);
        assert(a % 2 == 0 && is_pow2(a / 2));
        assert(a / 2 < b / 2);
        lemma_pow2_gap(a / 2, b / 2);
        assert(2 * (a / 2) <= b / 2);
        assert(a <= b / 2);
        assert(false);
    }
}

pub proof fn lemma_next_pow2_props(n: nat)
    ensures
        is_pow2(next_pow2(n)),
        next_pow2(n) >= n,
        next_pow2(n) >= 1,
    decreases n,
{
    if n <= 1 {
    } else {
        let m = (n + 1) / 2;
        lemma_next_pow2_props(m);
        lemma_pow2_double(next_pow2(m));
        assert(2 * ((n + 1) / 2) >= n);
    }
}

/// `next_pow2(n)` is the least power of two at least `n`.
pub proof fn lemma_next_pow2_least(n: nat, q: nat)
    requires
        is_pow2(q),
        q >= n,
    ensures
        q >= next_pow2(n),
    decreases n,
{
    if n <= 1 {
        lemma_pow2_positive(q);
    } else {
        assert(q >= 2);
        assert(q % 2 == 0 && is_pow2(q / 2));
        let m = (n + 1) / 2;
        assert(q / 2 >= m);
        lemma_next_pow2_least(m, q / 2);
    }
}

/// The least power of two at least `sz`, failing exactly when that power of
/// two does not fit in `usize`.
pub fn checked_next_power_of_two(n: usize) -> (r: Option<usize>)
    ensures
        r matches Some(p) ==> p == next_pow2(n as nat) && next_pow2(n as nat) <= usize::MAX,
        r is None ==> next_pow2(n as nat) > usize::MAX,
{
    let mut p: usize = 1;
    while p < n
        invariant
            1 <= p,
            is_pow2(p as nat),
            p == 1 || p / 2 < n,
        decreases 2 * n - p,
    {
        if p > usize::MAX / 2 {
            proof {
                lemma_next_pow2_props(n as nat);
                lemma_pow2_gap(p as nat, next_pow2(n as nat));
            }
            return None;
        }
        proof {
            lemma_pow2_double(p as nat);
        }
        p = p * 2;
    }
    proof {
        lemma_next_pow2_props(n as nat);
        if p > 1 {
            lemma_next_pow2_least(n as nat, p as nat);
            if next_pow2(n as nat) < p {
                lemma_pow2_gap(next_pow2(n as nat), p as nat);
            }
        }
    }
    Some(p)
}

/// Whether `n` is a power of two.
pub fn is_power_of_two(n: usize) -> (r: bool)
    ensures
        r == is_pow2(n as nat),
{
    if n == 0 {
        return false;
    }
    let mut m = n;
    while m > 1
        invariant
            m >= 1,
            is_pow2(n as nat) == is_pow2(m as nat),
        decreases m,
    {
        if m % 2 != 0 {
            return false;
        }
        m = m / 2;
    }
    true
}

} // verus!
