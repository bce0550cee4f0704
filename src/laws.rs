//! Laws that relate the bridge's operations to one another, stated over the
//! specifications their contracts use and proved from them.
use vstd::prelude::*;
use vstd::arithmetic::div_mod::{
    lemma_add_mod_noop, lemma_add_mod_noop_right, lemma_fundamental_div_mod, lemma_multiply_divide_lt,
    lemma_small_mod,
};
use crate::felt::{lemma_neg_involutive, lemma_words_of_value};
use crate::field::{
    be_value, felt_of, field_add, field_mul, field_neg, is_root, le_value, limb_radix, limbs_value,
    modulus, words_of,
};
use crate::permute::permuted_state;

verus! {

/// An integer below `2^256` is the value of its own four words.
pub proof fn lemma_value_of_words(x: nat)
    requires
        x < limb_radix() * limb_radix() * limb_radix() * limb_radix(),
    ensures
        limbs_value(words_of(x)) == x,
{
    let b = limb_radix() as int;
    let x1 = x as int / b;
    let x2 = x1 / b;
    let x3 = x2 / b;
    lemma_fundamental_div_mod(x as int, b);
    lemma_fundamental_div_mod(x1, b);
    lemma_fundamental_div_mod(x2, b);
    assert(x < b * (b * b * b));
    lemma_multiply_divide_lt(x as int, b, b * b * b);
    lemma_multiply_divide_lt(x1, b, b * b);
    lemma_multiply_divide_lt(x2, b, b);
    lemma_small_mod(x3 as nat, b as nat);
}

/// Writing a field element into a limb buffer (`felt_to_limbs`) and decoding the
/// buffer (`limbs_to_felt`) gives the element back; and a buffer that holds a
/// representative is written back unchanged after it is decoded.
pub proof fn lemma_limbs_round_trip(x: nat, l: [u64; 4])
    requires
        x < modulus(),
    ensures
        felt_of(words_of(x)) == x,
        limbs_value(l) < modulus() ==> words_of(felt_of(l)) == l,
{
    lemma_value_of_words(x);
    lemma_small_mod(x, modulus());
    if limbs_value(l) < modulus() {
        lemma_small_mod(limbs_value(l), modulus());
        lemma_words_of_value(l);
    }
}

/// Bytes written for a field element, big-endian (`Felt::to_bytes_be`) or
/// little-endian (`Felt::to_bytes_le`), decode (`Felt::from_bytes_be`,
/// `Felt::from_bytes_le`) to the same element.
pub proof fn lemma_bytes_round_trip(x: nat, be: Seq<u8>, le: Seq<u8>)
    requires
        x < modulus(),
        be_value(be) == x,
        le_value(le) == x,
    ensures
        be_value(be) % modulus() == x,
        le_value(le) % modulus() == x,
{
    lemma_small_mod(x, modulus());
}

/// Addition is commutative.
pub proof fn lemma_add_commutative(a: nat, b: nat)
    ensures
        field_add(a, b) == field_add(b, a),
{
}

/// Addition is associative.
pub proof fn lemma_add_associative(a: nat, b: nat, c: nat)
    requires
        a < modulus(),
        b < modulus(),
        c < modulus(),
    ensures
        field_add(a, field_add(b, c)) == field_add(field_add(a, b), c),
{
    let p = modulus() as int;
    lemma_add_mod_noop_right(a as int, (b + c) as int, p);
    lemma_add_mod_noop((a + b) as int, c as int, p);
    lemma_small_mod(c, modulus());
}

/// Zero is neutral for addition.
pub proof fn lemma_add_zero(a: nat)
    requires
        a < modulus(),
    ensures
        field_add(a, 0) == a,
{
    lemma_small_mod(a, modulus());
}

/// One is neutral for multiplication.
pub proof fn lemma_mul_one(a: nat)
    requires
        a < modulus(),
    ensures
        field_mul(a, 1) == a,
{
    lemma_small_mod(a, modulus());
}

/// Multiplying the quotient that `lw_div` writes for `a / b` by `b` (with
/// `mul`) gives `a` back.
pub proof fn lemma_div_then_mul(a: [u64; 4], b: [u64; 4], q: [u64; 4])
    requires
        felt_of(b) != 0,
        limbs_value(q) < modulus(),
        field_mul(limbs_value(q), felt_of(b)) == felt_of(a),
    ensures
        field_mul(felt_of(q), felt_of(b)) == felt_of(a),
{
    lemma_small_mod(limbs_value(q), modulus());
}

/// When a square `a` has exactly the roots `r` and `p - r`, the root that
/// `felt_sqrt` writes is the smaller of the two.
pub proof fn lemma_sqrt_picks_smaller(a: nat, r: nat, s: nat)
    requires
        r < modulus(),
        forall|x: nat| is_root(x, a) <==> (x == r || x == field_neg(r)),
        is_root(s, a),
        s <= field_neg(s),
    ensures
        s == if r <= field_neg(r) {
            r
        } else {
            field_neg(r)
        },
{
    lemma_neg_involutive(r);
}

/// The permutation depends on the state alone: two calls on equal states leave
/// equal states.
pub proof fn lemma_permute_deterministic(s: Seq<nat>, t: Seq<nat>)
    requires
        s == t,
    ensures
        permuted_state(s) == permuted_state(t),
{
}

} // verus!
