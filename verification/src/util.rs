//! Arithmetic facts about power-of-two rings indexed by wrapping `u32` positions.

pub(crate) mod private;

use vstd::arithmetic::div_mod::{lemma_mod_multiples_vanish, lemma_small_mod, lemma_mod_equivalence};
use vstd::arithmetic::power2::{lemma2_to64, lemma_pow2_adds, lemma_pow2_pos, lemma_pow2_strictly_increases, pow2};
use vstd::bits::{lemma_u32_low_bits_mask_is_mod, low_bits_mask};
use vstd::prelude::*;

verus! {

/// `2^32`, the period of `u32` ring positions.
pub open spec fn u32_period() -> int {
    0x1_0000_0000
}

/// Number of entries between `head` and `tail` on a ring whose positions wrap at `2^32`.
pub open spec fn ring_distance(head: u32, tail: u32) -> nat {
    if head <= tail {
        (tail - head) as nat
    } else {
        (tail + u32_period() - head) as nat
    }
}

/// Position reached from `pos` after `n` steps, wrapping at `2^32`.
pub open spec fn ring_advance(pos: u32, n: nat) -> u32 {
    ((pos as int + n) % u32_period()) as u32
}

/// The slot that logical position `pos` occupies in a ring of `entries` slots.
pub open spec fn ring_slot(pos: int, entries: int) -> int {
    pos % entries
}

/// `2^k` for `k <= 31` fits in `u32` and `2^32 == 2^k * 2^(32-k)`.
pub proof fn lemma_pow2_u32(k: nat)
    requires
        k <= 31,
    ensures
        1 <= pow2(k) <= 0x8000_0000,
        pow2(k) * pow2((32 - k) as nat) == u32_period(),
        low_bits_mask(k) == pow2(k) - 1,
{
    lemma2_to64();
    lemma_pow2_pos(k);
    if k < 31 {
        lemma_pow2_strictly_increases(k, 31);
    }
    lemma_pow2_adds(k, (32 - k) as nat);
}

/// Masking a wrapped position selects the slot of the unwrapped position.
pub proof fn lemma_mask_selects_slot(pos: u32, n: nat, k: nat)
    requires
        k <= 31,
        n < u32_period(),
    ensures
        ((ring_advance(pos, n) & (low_bits_mask(k) as u32)) as int) == ring_slot(
            pos as int + n,
            pow2(k) as int,
        ),
        (ring_advance(pos, n) as int) % (pow2(k) as int) == ring_slot(pos as int + n, pow2(k) as int),
{
    lemma_pow2_u32(k);
    let w = ring_advance(pos, n);
    lemma_u32_low_bits_mask_is_mod(w, k);
    let p = pow2(k) as int;
    let q = pow2((32 - k) as nat) as int;
    if pos as int + n < u32_period() {
        lemma_small_mod((pos as int + n) as nat, u32_period() as nat);
        assert(w as int == pos as int + n);
    } else {
        assert((pos as int + n) - u32_period() < u32_period());
        lemma_small_mod(((pos as int + n) - u32_period()) as nat, u32_period() as nat);
        lemma_mod_multiples_vanish(1, (pos as int + n) - u32_period(), u32_period());
        assert(w as int == pos as int + n - u32_period());
        lemma_mod_multiples_vanish(q, w as int, p);
        assert(p * q + w as int == pos as int + n);
    }
}

/// Distinct logical positions less than a full ring apart occupy distinct slots.
pub proof fn lemma_slots_distinct(base: int, i: int, j: int, entries: int)
    requires
        entries > 0,
        0 <= i < j < entries,
    ensures
        ring_slot(base + i, entries) != ring_slot(base + j, entries),
{
    if ring_slot(base + i, entries) == ring_slot(base + j, entries) {
        lemma_mod_equivalence(base + j, base + i, entries);
        lemma_small_mod((j - i) as nat, entries as nat);
        assert((base + j) - (base + i) == j - i);
    }
}

/// Advancing by `n` and then measuring the distance gives back `n`.
pub proof fn lemma_advance_distance(pos: u32, n: nat)
    requires
        n < u32_period(),
    ensures
        ring_distance(pos, ring_advance(pos, n)) == n,
{
    let w = pos as int + n;
    if w < u32_period() {
        lemma_small_mod(w as nat, u32_period() as nat);
    } else {
        lemma_small_mod((w - u32_period()) as nat, u32_period() as nat);
        lemma_mod_multiples_vanish(1, w - u32_period(), u32_period());
    }
}

/// The tail sits `distance` positions after the head.
pub proof fn lemma_distance_advance(head: u32, tail: u32)
    ensures
        ring_advance(head, ring_distance(head, tail)) == tail,
        ring_distance(head, tail) < u32_period(),
{
    let d = ring_distance(head, tail);
    let w = head as int + d;
    if head <= tail {
        lemma_small_mod(w as nat, u32_period() as nat);
    } else {
        assert(w == tail + u32_period());
        lemma_small_mod(tail as nat, u32_period() as nat);
        lemma_mod_multiples_vanish(1, tail as int, u32_period());
    }
}

/// `wrapping_add` on `u32` positions is `ring_advance`.
pub proof fn lemma_wrapping_add_is_advance(pos: u32, n: u32)
    ensures
        pos.wrapping_add(n) == ring_advance(pos, n as nat),
{
    let w = pos as int + n as int;
    if w < u32_period() {
        lemma_small_mod(w as nat, u32_period() as nat);
    } else {
        lemma_small_mod((w - u32_period()) as nat, u32_period() as nat);
        lemma_mod_multiples_vanish(1, w - u32_period(), u32_period());
    }
}

/// `wrapping_sub` on `u32` positions is `ring_distance`.
pub proof fn lemma_wrapping_sub_is_distance(head: u32, tail: u32)
    ensures
        tail.wrapping_sub(head) as nat == ring_distance(head, tail),
{
}

/// Advancing twice is advancing by the sum.
pub proof fn lemma_advance_advance(pos: u32, a: nat, b: nat)
    requires
        a < u32_period(),
        b < u32_period(),
    ensures
        ring_advance(ring_advance(pos, a), b) == ring_advance(pos, a + b),
{
    let w = pos as int + a;
    vstd::arithmetic::div_mod::lemma_add_mod_noop(w, b as int, u32_period());
    lemma_small_mod((b as int) as nat, u32_period() as nat);
    vstd::arithmetic::div_mod::lemma_mod_twice(w + b, u32_period());
}

/// Dropping the front entry of a non-empty ring shortens it by one.
pub proof fn lemma_pop_front(head: u32, tail: u32)
    requires
        ring_distance(head, tail) >= 1,
    ensures
        ring_distance(ring_advance(head, 1), tail) == ring_distance(head, tail) - 1,
{
    let d = ring_distance(head, tail);
    lemma_distance_advance(head, tail);
    lemma_advance_advance(head, 1, (d - 1) as nat);
    lemma_advance_distance(ring_advance(head, 1), (d - 1) as nat);
}

/// Appending one entry at the tail lengthens the ring by one.
pub proof fn lemma_push_back(head: u32, tail: u32)
    requires
        ring_distance(head, tail) + 1 < u32_period(),
    ensures
        ring_distance(head, ring_advance(tail, 1)) == ring_distance(head, tail) + 1,
{
    let d = ring_distance(head, tail);
    lemma_distance_advance(head, tail);
    lemma_advance_advance(head, d, 1);
    lemma_advance_distance(head, d + 1);
}

/// The slot of a position reached by advancing equals the slot of the unwrapped position.
pub proof fn lemma_advance_slot(pos: u32, a: nat, i: int, k: nat)
    requires
        k <= 31,
        a < u32_period(),
    ensures
        ring_slot(ring_advance(pos, a) as int + i, pow2(k) as int) == ring_slot(
            pos as int + a + i,
            pow2(k) as int,
        ),
{
    lemma_mask_selects_slot(pos, a, k);
    lemma_pow2_u32(k);
    let p = pow2(k) as int;
    vstd::arithmetic::div_mod::lemma_add_mod_noop(ring_advance(pos, a) as int, i, p);
    vstd::arithmetic::div_mod::lemma_add_mod_noop(pos as int + a, i, p);
}

} // verus!
