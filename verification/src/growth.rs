//! The growth algorithm, as arithmetic: capacity doubling and the number of
//! allocations it performs.

use vstd::prelude::*;
use vstd::arithmetic::power2::pow2;

verus! {

/// Capacity after a (re)allocation: the first allocation holds exactly one
/// element, every later one doubles the capacity.
pub open spec fn grown_cap(cap: nat) -> nat {
    if cap == 0 {
        1
    } else {
        2 * cap
    }
}

/// Capacity after one more push into a container of capacity `cap` holding
/// `len` elements: a full container grows first, any other is left alone.
pub open spec fn cap_after_push(cap: nat, len: nat) -> nat {
    if len == cap {
        grown_cap(cap)
    } else {
        cap
    }
}

/// Capacity and allocation count after `k` pushes, with no intervening
/// pops, into a freshly constructed container: before push number `i`
/// (counted from zero) the container holds `i` elements, each push moves
/// the capacity by `cap_after_push` — the step that `push` itself
/// guarantees — and each change of capacity is one (re)allocation.
pub open spec fn growth_state(k: nat) -> (nat, nat)
    decreases k,
{
    if k == 0 {
        (0, 0)
    } else {
        let prev = growth_state((k - 1) as nat);
        let cap = cap_after_push(prev.0, (k - 1) as nat);
        if cap == prev.0 {
            prev
        } else {
            (cap, prev.1 + 1)
        }
    }
}

/// Growth doubling: after `k` pushes with no intervening pops, the capacity
/// is the least power of two that is at least `k`, and the number of
/// allocations performed is the matching exponent plus one — the extra step
/// being the first allocation, which takes the capacity from zero to one.
pub proof fn lemma_growth_doubling(k: nat)
    requires
        1 <= k,
    ensures
        1 <= growth_state(k).1,
        growth_state(k).0 == pow2((growth_state(k).1 - 1) as nat),
        k <= growth_state(k).0 < 2 * k,
    decreases k,
{
    vstd::arithmetic::power2::lemma2_to64();
    if k == 1 {
        assert(growth_state(0) == (0nat, 0nat));
    } else {
        lemma_growth_doubling((k - 1) as nat);
        let prev = growth_state((k - 1) as nat);
        if prev.0 == (k - 1) as nat {
            vstd::arithmetic::power2::lemma_pow2_unfold(prev.1);
        }
    }
}

} // verus!
