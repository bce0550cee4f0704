//! Operations on the representative as a 256-bit unsigned integer: bitwise
//! logic, shifts, bit length and Euclidean division. A result that may leave
//! `[0, p)` is reduced back into the field.
use vstd::prelude::*;
use vstd::arithmetic::div_mod::{lemma_basic_div, lemma_div_is_ordered_by_denominator, lemma_mod_multiples_basic};
use vstd::arithmetic::mul::{lemma_mul_is_associative, lemma_mul_is_commutative};
use vstd::arithmetic::power2::{lemma2_to64, lemma_pow2_adds, lemma_pow2_pos, lemma_pow2_strictly_increases, pow2};
use crate::backend::{fe_reduce, uint_and, uint_bits, uint_div_rem, uint_or, uint_shl, uint_shr, uint_xor};
use crate::felt::{lemma_words_of_value, Felt, FeltError};
use crate::field::{
    bit_length, limb_radix, limbs_value, modulus, native_value, shl_256, shr_256, words_and, words_of,
    words_or, words_xor,
};

verus! {

/// The words of a representative are those of its field-library form, reversed.
proof fn lemma_words_of_native(n: [u64; 4])
    ensures
        words_of(native_value(n)) == [n[3], n[2], n[1], n[0]],
{
    lemma_words_of_value([n[3], n[2], n[1], n[0]]);
}

/// `2^256` is the radix to the fourth, and exceeds the modulus.
proof fn lemma_pow2_256()
    ensures
        pow2(256) == limb_radix() * limb_radix() * limb_radix() * limb_radix(),
        modulus() < pow2(256),
{
    lemma2_to64();
    lemma_pow2_adds(64, 64);
    lemma_pow2_adds(128, 64);
    lemma_pow2_adds(192, 64);
}

impl Felt {
    /// AND of the representatives' words.
    pub fn and(self, other: Felt) -> (r: Felt)
        ensures
            r@ == limbs_value(words_and(words_of(self@), words_of(other@))) % modulus(),
    {
        let n = uint_and(self.repr, other.repr);
        proof {
            lemma_words_of_native(self.repr);
            lemma_words_of_native(other.repr);
            let w = words_and(words_of(self@), words_of(other@));
            assert(w[0] == n[3] && w[1] == n[2] && w[2] == n[1] && w[3] == n[0]);
            assert(w =~= [n[3], n[2], n[1], n[0]]);
        }
        Felt { repr: fe_reduce(n) }
    }

    /// OR of the representatives' words, reduced.
    pub fn or(self, other: Felt) -> (r: Felt)
        ensures
            r@ == limbs_value(words_or(words_of(self@), words_of(other@))) % modulus(),
    {
        let n = uint_or(self.repr, other.repr);
        proof {
            lemma_words_of_native(self.repr);
            lemma_words_of_native(other.repr);
            let w = words_or(words_of(self@), words_of(other@));
            assert(w[0] == n[3] && w[1] == n[2] && w[2] == n[1] && w[3] == n[0]);
            assert(w =~= [n[3], n[2], n[1], n[0]]);
        }
        Felt { repr: fe_reduce(n) }
    }

    /// XOR of the representatives' words, reduced.
    pub fn xor(self, other: Felt) -> (r: Felt)
        ensures
            r@ == limbs_value(words_xor(words_of(self@), words_of(other@))) % modulus(),
    {
        let n = uint_xor(self.repr, other.repr);
        proof {
            lemma_words_of_native(self.repr);
            lemma_words_of_native(other.repr);
            let w = words_xor(words_of(self@), words_of(other@));
            assert(w[0] == n[3] && w[1] == n[2] && w[2] == n[1] && w[3] == n[0]);
            assert(w =~= [n[3], n[2], n[1], n[0]]);
        }
        Felt { repr: fe_reduce(n) }
    }

    /// The representative shifted left by `k` bits and truncated to 256 bits,
    /// then reduced. A count of 256 or more shifts every bit out and gives zero.
    pub fn shl(self, k: u64) -> (r: Felt)
        ensures
            r@ == shl_256(self@, k as nat) % modulus(),
    {
        if k >= 256 {
            proof {
                let x = self@ as int;
                lemma_pow2_pos(256);
                lemma_pow2_adds(256, (k - 256) as nat);
                lemma_mul_is_commutative(pow2(256) as int, pow2((k - 256) as nat) as int);
                lemma_mul_is_associative(x, pow2((k - 256) as nat) as int, pow2(256) as int);
                lemma_mod_multiples_basic(x * pow2((k - 256) as nat), pow2(256) as int);
                assert(shl_256(self@, k as nat) == 0);
            }
            Felt::zero()
        } else {
            Felt { repr: fe_reduce(uint_shl(self.repr, k as usize)) }
        }
    }

    /// The representative shifted right by `k` bits. A count of 256 or more
    /// gives zero.
    pub fn shr(self, k: usize) -> (r: Felt)
        ensures
            r@ == shr_256(self@, k as nat),
    {
        proof {
            use_type_invariant(&self);
            lemma_pow2_256();
            lemma_pow2_pos(k as nat);
            lemma_div_is_ordered_by_denominator(self@ as int, 1, pow2(k as nat) as int);
        }
        if k >= 256 {
            proof {
                if k > 256 {
                    lemma_pow2_strictly_increases(256, k as nat);
                }
                lemma_basic_div(self@ as int, pow2(k as nat) as int);
            }
            Felt::zero()
        } else {
            Felt { repr: uint_shr(self.repr, k) }
        }
    }

    /// Number of bits in the shortest binary form of the representative.
    pub fn bits(&self) -> (r: u64)
        ensures
            r as nat == bit_length(self@),
    {
        uint_bits(self.repr) as u64
    }

    /// Euclidean quotient and remainder of the representatives, as integers;
    /// `DivisionByZero` when the divisor is zero.
    pub fn div_rem(self, other: Felt) -> (r: Result<(Felt, Felt), FeltError>)
        ensures
            r is Err <==> other@ == 0,
            r matches Err(e) ==> e == FeltError::DivisionByZero,
            r matches Ok((q, m)) ==> q@ == self@ / other@ && m@ == self@ % other@,
    {
        proof {
            use_type_invariant(&self);
            use_type_invariant(&other);
        }
        if other.repr[0] == 0 && other.repr[1] == 0 && other.repr[2] == 0 && other.repr[3] == 0 {
            return Err(FeltError::DivisionByZero);
        }
        proof {
            lemma_words_of_native(other.repr);
            lemma_div_is_ordered_by_denominator(self@ as int, 1, other@ as int);
        }
        let (q, m) = uint_div_rem(self.repr, other.repr);
        Ok((Felt { repr: q }, Felt { repr: m }))
    }
}

} // verus!
