//! Bit-level spec functions on 64-bit words, and the lemmas that connect
//! word equalities to per-bit reasoning.

use vstd::prelude::*;

verus! {

/// True iff bit `i` of `x` is set (square `i` is in the set `x`).
pub open spec fn bit64(x: u64, i: u64) -> bool {
    x & (1u64 << i) != 0
}

/// Number of set bits in `x`.
pub open spec fn pop64(x: u64) -> nat
    decreases x,
{
    if x == 0 {
        0
    } else {
        (x % 2) as nat + pop64(x / 2)
    }
}

/// `x` has exactly one set bit.
pub open spec fn one_bit(x: u64) -> bool {
    x != 0 && x & ((x - 1) as u64) == 0
}

/// How the boolean operators on words act on single bits.
pub proof fn lemma_bit_ops()
    by (bit_vector)
    ensures
        forall|x: u64, y: u64, i: u64|
            i < 64 ==> (#[trigger] bit64(x & y, i) <==> bit64(x, i) && bit64(y, i)),
        forall|x: u64, y: u64, i: u64|
            i < 64 ==> (#[trigger] bit64(x | y, i) <==> bit64(x, i) || bit64(y, i)),
        forall|x: u64, y: u64, i: u64|
            i < 64 ==> (#[trigger] bit64(x ^ y, i) <==> (bit64(x, i) != bit64(y, i))),
        forall|x: u64, i: u64| i < 64 ==> (#[trigger] bit64(!x, i) <==> !bit64(x, i)),
        forall|i: u64| i < 64 ==> !(#[trigger] bit64(0u64, i)),
        forall|j: u64, i: u64| i < 64 && j < 64 ==> (#[trigger] bit64(1u64 << j, i) <==> i == j),
        forall|x: u64, i: u64| i < 64 ==> (#[trigger] bit64(x, i) <==> (x >> i) & 1 == 1),
        forall|x: u64, i: u64| i < 64 ==> ((x >> i) & 1 == 1 || #[trigger] (x >> i) & 1 == 0),
        forall|x: u64, y: u64| #[trigger] (x & y) == y & x,
        forall|x: u64, y: u64| #[trigger] (x | y) == y | x,
        forall|x: u64| #[trigger] (x | 0) == x,
        forall|x: u64| #[trigger] (0 | x) == x,
        forall|x: u64| #[trigger] (x & !0) == x,
{
}

/// A singleton is absorbed by any set that holds its bit.
pub proof fn lemma_single_and(x: u64, i: u64)
    by (bit_vector)
    requires
        i < 64,
        x & (1u64 << i) != 0,
    ensures
        (1u64 << i) & x == 1u64 << i,
{
}

/// Clearing the lowest set bit shrinks a nonempty word.
pub proof fn lemma_blsr(x: u64)
    by (bit_vector)
    ensures
        x != 0 ==> (x & ((x - 1) as u64)) < x,
{
}

/// Regrouping a union of three sets.
pub proof fn lemma_or_assoc(a: u64, b: u64, c: u64)
    by (bit_vector)
    ensures
        (a | b) | c == a | (b | c),
{
}

/// True iff `x` has exactly one set bit.
pub fn is_one_bit(x: u64) -> (r: bool)
    ensures
        r == one_bit(x),
{
    x != 0 && x & (x - 1) == 0
}

proof fn lemma_bits_eq_step(x: u64, y: u64, i: u64)
    by (bit_vector)
    requires
        i < 64,
        x >> (i + 1) == y >> (i + 1),
        bit64(x, i) == bit64(y, i),
    ensures
        x >> i == y >> i,
{
}

proof fn lemma_bits_eq_rec(x: u64, y: u64, n: u64)
    requires
        n < 64,
        x >> (n + 1) == y >> (n + 1),
        forall|i: u64| i < 64 ==> bit64(x, i) == bit64(y, i),
    ensures
        x >> 0u64 == y >> 0u64,
    decreases n,
{
    lemma_bits_eq_step(x, y, n);
    if n > 0 {
        lemma_bits_eq_rec(x, y, (n - 1) as u64);
    }
}

/// Two words with the same bits are equal.
pub proof fn lemma_bits_eq(x: u64, y: u64)
    requires
        forall|i: u64| i < 64 ==> bit64(x, i) == bit64(y, i),
    ensures
        x == y,
{
    assert(x >> 64u64 == y >> 64u64) by (bit_vector);
    lemma_bits_eq_rec(x, y, 63);
    assert(x >> 0u64 == x && y >> 0u64 == y) by (bit_vector);
}

proof fn lemma_pop64_step(a: u64, b: u64)
    by (bit_vector)
    requires
        a & b == 0,
    ensures
        (a | b) % 2 == a % 2 + b % 2,
        (a | b) / 2 == (a / 2) | (b / 2),
        (a / 2) & (b / 2) == 0,
        a | b == 0 ==> a == 0 && b == 0,
{
}

/// Disjoint sets have additive population counts.
pub proof fn lemma_pop64_disjoint(a: u64, b: u64)
    requires
        a & b == 0,
    ensures
        pop64(a | b) == pop64(a) + pop64(b),
    decreases a | b,
{
    lemma_pop64_step(a, b);
    if a | b != 0 {
        assert((a | b) / 2 < a | b) by (bit_vector)
            requires
                a | b != 0,
        ;
        lemma_pop64_disjoint(a / 2, b / 2);
    }
}

proof fn lemma_one_bit_step(x: u64)
    by (bit_vector)
    requires
        one_bit(x),
    ensures
        x == 1 || (x % 2 == 0 && one_bit(x / 2)),
{
}

/// A set with exactly one bit has population count one.
pub proof fn lemma_pop64_one_bit(x: u64)
    requires
        one_bit(x),
    ensures
        pop64(x) == 1,
    decreases x,
{
    lemma_one_bit_step(x);
    assert(pop64(0) == 0);
    if x != 1 {
        lemma_pop64_one_bit(x / 2);
    }
}

proof fn lemma_pop64_bound_rec(x: u64, k: nat)
    requires
        x < vstd::arithmetic::power2::pow2(k),
    ensures
        pop64(x) <= k,
    decreases k,
{
    if x != 0 {
        assert(vstd::arithmetic::power2::pow2(0) == 1) by {
            vstd::arithmetic::power2::lemma2_to64();
        }
        vstd::arithmetic::power2::lemma_pow2_unfold(k);
        lemma_pop64_bound_rec(x / 2, (k - 1) as nat);
    }
}

/// No 64-bit word has more than 64 set bits.
pub proof fn lemma_pop64_bound(x: u64)
    ensures
        pop64(x) <= 64,
{
    vstd::arithmetic::power2::lemma2_to64_rest();
    lemma_pop64_bound_rec(x, 64);
}

/// A set with exactly one bit is the singleton of any bit it holds.
pub proof fn lemma_one_bit_single(x: u64, i: u64)
    by (bit_vector)
    requires
        one_bit(x),
        i < 64,
        bit64(x, i),
    ensures
        x == 1u64 << i,
{
}

} // verus!
