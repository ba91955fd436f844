//! Arithmetic modulo the group order.
//!
//! Scalars of the group are modelled in specifications as natural numbers
//! below the group order; this module defines that order, the modular
//! operations the contracts speak of, and the lemmas the protocol proofs need.

use vstd::arithmetic::div_mod::{
    lemma_add_mod_noop_right, lemma_mod_add_multiples_vanish, lemma_mod_bound,
    lemma_mod_equivalence, lemma_small_mod,
};
use vstd::prelude::*;

verus! {

/// The order of the Ristretto group and of its scalar field:
/// 2^252 + 27742317777372353535851937790883648493.
pub open spec fn group_order() -> nat {
    0x1000000000000000000000000000000014def9dea2f79cd65812631a5cf5d3ednat
}

/// Addition modulo the group order.
pub open spec fn mod_add(a: int, b: int) -> int {
    (a + b) % (group_order() as int)
}

/// Multiplication modulo the group order.
pub open spec fn mod_mul(a: int, b: int) -> int {
    (a * b) % (group_order() as int)
}

/// Subtraction modulo the group order, phrased so the dividend stays
/// non-negative.
pub open spec fn mod_sub(a: int, b: int) -> int {
    (a % (group_order() as int) + group_order() - b % (group_order() as int))
        % (group_order() as int)
}

/// The value of a byte string read as a little-endian integer.
pub open spec fn le_value(b: Seq<u8>) -> nat
    decreases b.len(),
{
    if b.len() == 0 {
        0
    } else {
        b[0] as nat + 256 * le_value(b.drop_first())
    }
}

/// The three modular operations stay below the group order.
pub proof fn lemma_mod_ops_bounded(a: int, b: int)
    ensures
        0 <= mod_add(a, b) < group_order(),
        0 <= mod_mul(a, b) < group_order(),
        0 <= mod_sub(a, b) < group_order(),
{
    let l = group_order() as int;
    lemma_mod_bound(a + b, l);
    lemma_mod_bound(a * b, l);
    lemma_mod_bound(a % l + l - b % l, l);
}

/// Two integers less than the group order apart are equal once they agree
/// modulo the group order.
pub proof fn lemma_eq_mod_small_diff(u: int, v: int)
    requires
        u % (group_order() as int) == v % (group_order() as int),
        v - group_order() < u < v + group_order(),
    ensures
        u == v,
{
    let l = group_order() as int;
    lemma_mod_equivalence(u, v, l);
    if u - v >= 0 {
        lemma_small_mod((u - v) as nat, group_order());
    } else {
        lemma_mod_add_multiples_vanish(u - v, l);
        lemma_small_mod((u - v + l) as nat, group_order());
    }
}

/// Adding `t1` and then subtracting `t2` modulo the group order returns to
/// the start exactly when `t1 == t2`.
pub proof fn lemma_mod_add_then_sub(k: int, t1: int, t2: int)
    requires
        0 <= k < group_order(),
        0 <= t1 < group_order(),
        0 <= t2 < group_order(),
    ensures
        (mod_sub(mod_add(k, t1), t2) == k) <==> (t1 == t2),
{
    let l = group_order() as int;
    lemma_mod_bound(k + t1, l);
    lemma_small_mod(mod_add(k, t1) as nat, group_order());
    lemma_small_mod(t2 as nat, group_order());
    // mod_sub(mod_add(k, t1), t2) == (k + t1 + (l - t2)) % l
    lemma_add_mod_noop_right(l - t2, k + t1, l);
    assert(mod_sub(mod_add(k, t1), t2) == (l - t2 + (k + t1)) % l);
    // the added multiple of l vanishes
    lemma_mod_add_multiples_vanish(k + t1 - t2, l);
    assert(mod_sub(mod_add(k, t1), t2) == (k + t1 - t2) % l);
    lemma_small_mod(k as nat, group_order());
    if t1 == t2 {
        assert((k + t1 - t2) % l == k);
    } else {
        if (k + t1 - t2) % l == k {
            lemma_eq_mod_small_diff(k + t1 - t2, k);
            assert(false);
        }
    }
}

/// Subtracting the same `t` from two values below the group order gives equal
/// results only for equal values.
pub proof fn lemma_mod_sub_injective(s1: int, s2: int, t: int)
    requires
        0 <= s1 < group_order(),
        0 <= s2 < group_order(),
        mod_sub(s1, t) == mod_sub(s2, t),
    ensures
        s1 == s2,
{
    let l = group_order() as int;
    lemma_small_mod(s1 as nat, group_order());
    lemma_small_mod(s2 as nat, group_order());
    lemma_eq_mod_small_diff(s1 + l - t % l, s2 + l - t % l);
}

} // verus!
