//! The operations on caller-owned buffers: each decodes its limb inputs (four
//! words, least significant first) into field elements, computes, and writes
//! the result into the caller's output buffer. An operation that fails leaves
//! its output buffers as they were.
use vstd::prelude::*;
use crate::felt::{felt_to_limbs, limbs_to_felt, Felt, FeltError};
use crate::field::{
    be_value, bit_length, dec_numeral_value, felt_of, field_add, field_mul, field_neg, field_pow,
    field_sub, hex_body, hex_text, hex_value, is_dec_numeral, is_field_hex, is_root, le_value,
    limbs_value, modulus, shl_256, shr_256, signed_max, signed_text, words_and, words_of, words_or,
    words_xor,
};
use vstd::string::StringSliceAdditionalSpecFns;

verus! {

/// Writes the element `value`.
pub fn from(result: &mut [u64; 4], value: u64)
    ensures
        limbs_value(*final(result)) == value,
{
    felt_to_limbs(Felt::from_u64(value), result);
}

/// Writes the element of a hexadecimal numeral (see `Felt::from_hex`).
pub fn from_hex(result: &mut [u64; 4], value: &str) -> (r: Result<(), FeltError>)
    ensures
        r is Ok <==> is_field_hex(value.spec_bytes()),
        r is Ok ==> limbs_value(*final(result)) == hex_value(hex_body(value.spec_bytes())) % modulus(),
        r matches Err(e) ==> e == FeltError::ParseError && *final(result) == *old(result),
{
    let f = Felt::from_hex(value)?;
    felt_to_limbs(f, result);
    Ok(())
}

/// Writes the element of a decimal numeral with an optional `-` (see
/// `Felt::from_dec_str`).
pub fn from_dec_str(result: &mut [u64; 4], value: &str) -> (r: Result<(), FeltError>)
    ensures
        r is Ok <==> is_dec_numeral(value.spec_bytes()),
        r is Ok ==> limbs_value(*final(result)) == dec_numeral_value(value.spec_bytes()),
        r matches Err(e) ==> e == FeltError::ParseError && *final(result) == *old(result),
{
    let f = Felt::from_dec_str(value)?;
    felt_to_limbs(f, result);
    Ok(())
}

/// Writes the 32 little-endian bytes of the element.
pub fn to_le_bytes(result: &mut [u8; 32], value: &[u64; 4])
    ensures
        le_value(final(result)@) == felt_of(*value),
{
    *result = limbs_to_felt(value).to_bytes_le();
}

/// The element's representative as `0x` and lower-case hexadecimal digits.
pub fn to_hex_string(value: &[u64; 4]) -> (r: String)
    ensures
        r@ == seq!['0', 'x'] + hex_text(felt_of(*value)),
{
    limbs_to_felt(value).to_hex_string()
}

/// Writes the 32 big-endian bytes of the element.
pub fn to_be_bytes(result: &mut [u8; 32], value: &[u64; 4])
    ensures
        be_value(final(result)@) == felt_of(*value),
{
    *result = limbs_to_felt(value).to_bytes_be();
}

/// Writes the element that 32 little-endian bytes are congruent to.
pub fn from_le_bytes(result: &mut [u64; 4], bytes: &[u8; 32])
    ensures
        limbs_value(*final(result)) == le_value(bytes@) % modulus(),
{
    felt_to_limbs(Felt::from_bytes_le(bytes), result);
}

/// Writes the element that 32 big-endian bytes are congruent to.
pub fn from_be_bytes(result: &mut [u64; 4], bytes: &[u8; 32])
    ensures
        limbs_value(*final(result)) == be_value(bytes@) % modulus(),
{
    felt_to_limbs(Felt::from_bytes_be(bytes), result);
}

/// Writes the additive identity.
pub fn zero(result: &mut [u64; 4])
    ensures
        limbs_value(*final(result)) == 0,
{
    felt_to_limbs(Felt::zero(), result);
}

/// Writes the multiplicative identity.
pub fn one(result: &mut [u64; 4])
    ensures
        limbs_value(*final(result)) == 1,
{
    felt_to_limbs(Felt::one(), result);
}

/// Writes the element `(p - 1) / 2`, the largest that stands for a
/// non-negative signed value.
pub fn signed_felt_max_value(result: &mut [u64; 4])
    ensures
        limbs_value(*final(result)) == signed_max(),
{
    felt_to_limbs(Felt::signed_max_value(), result);
}

/// Writes `a + b`.
pub fn add(a: &[u64; 4], b: &[u64; 4], result: &mut [u64; 4])
    ensures
        limbs_value(*final(result)) == field_add(felt_of(*a), felt_of(*b)),
{
    felt_to_limbs(limbs_to_felt(a).add(limbs_to_felt(b)), result);
}

/// Writes `a - b`.
pub fn sub(a: &[u64; 4], b: &[u64; 4], result: &mut [u64; 4])
    ensures
        limbs_value(*final(result)) == field_sub(felt_of(*a), felt_of(*b)),
{
    felt_to_limbs(limbs_to_felt(a).sub(limbs_to_felt(b)), result);
}

/// Writes `a * b`.
pub fn mul(a: &[u64; 4], b: &[u64; 4], result: &mut [u64; 4])
    ensures
        limbs_value(*final(result)) == field_mul(felt_of(*a), felt_of(*b)),
{
    felt_to_limbs(limbs_to_felt(a).mul(limbs_to_felt(b)), result);
}

/// Writes `a / b`, the element that gives `a` when multiplied by `b`;
/// `DivisionByZero` when `b` is zero.
pub fn lw_div(a: &[u64; 4], b: &[u64; 4], result: &mut [u64; 4]) -> (r: Result<(), FeltError>)
    ensures
        r is Err <==> felt_of(*b) == 0,
        r is Ok ==> limbs_value(*final(result)) < modulus() && field_mul(
            limbs_value(*final(result)),
            felt_of(*b),
        ) == felt_of(*a),
        r matches Err(e) ==> e == FeltError::DivisionByZero && *final(result) == *old(result),
{
    let q = limbs_to_felt(a).div(limbs_to_felt(b))?;
    proof {
        use_type_invariant(&q);
    }
    felt_to_limbs(q, result);
    Ok(())
}

/// Number of bits in the shortest binary form of the element's representative.
pub fn bits(limbs: &[u64; 4]) -> (r: u64)
    ensures
        r as nat == bit_length(felt_of(*limbs)),
{
    limbs_to_felt(limbs).bits()
}

/// Writes the AND of the representatives, reduced.
pub fn felt_and(a: &[u64; 4], b: &[u64; 4], result: &mut [u64; 4])
    ensures
        limbs_value(*final(result)) == limbs_value(
            words_and(words_of(felt_of(*a)), words_of(felt_of(*b))),
        ) % modulus(),
{
    felt_to_limbs(limbs_to_felt(a).and(limbs_to_felt(b)), result);
}

/// Writes the OR of the representatives, reduced.
pub fn felt_or(a: &[u64; 4], b: &[u64; 4], result: &mut [u64; 4])
    ensures
        limbs_value(*final(result)) == limbs_value(
            words_or(words_of(felt_of(*a)), words_of(felt_of(*b))),
        ) % modulus(),
{
    felt_to_limbs(limbs_to_felt(a).or(limbs_to_felt(b)), result);
}

/// Writes the XOR of the representatives, reduced.
pub fn felt_xor(a: &[u64; 4], b: &[u64; 4], result: &mut [u64; 4])
    ensures
        limbs_value(*final(result)) == limbs_value(
            words_xor(words_of(felt_of(*a)), words_of(felt_of(*b))),
        ) % modulus(),
{
    felt_to_limbs(limbs_to_felt(a).xor(limbs_to_felt(b)), result);
}

/// Writes the representative shifted left by `num` bits, truncated to 256
/// bits and reduced; `num` of 256 or more gives zero.
pub fn felt_shl(a: &[u64; 4], num: u64, result: &mut [u64; 4])
    ensures
        limbs_value(*final(result)) == shl_256(felt_of(*a), num as nat) % modulus(),
{
    felt_to_limbs(limbs_to_felt(a).shl(num), result);
}

/// Writes `a` to the power `num`; any element to the power 0 is 1.
pub fn felt_pow_uint(a: &[u64; 4], num: u32, result: &mut [u64; 4])
    ensures
        limbs_value(*final(result)) == field_pow(felt_of(*a), num as nat),
{
    felt_to_limbs(limbs_to_felt(a).pow_u32(num), result);
}

/// Writes `a` to the power of the representative of `exponent`.
pub fn felt_pow(a: &[u64; 4], exponent: &[u64; 4], result: &mut [u64; 4])
    ensures
        limbs_value(*final(result)) == field_pow(felt_of(*a), felt_of(*exponent)),
{
    felt_to_limbs(limbs_to_felt(a).pow(limbs_to_felt(exponent)), result);
}

/// Writes the smaller of the two square roots of `a`; `DomainError` when `a`
/// is not a square.
pub fn felt_sqrt(a: &[u64; 4], result: &mut [u64; 4]) -> (r: Result<(), FeltError>)
    ensures
        r is Err <==> forall|x: nat| !is_root(x, felt_of(*a)),
        r is Ok ==> is_root(limbs_value(*final(result)), felt_of(*a)) && limbs_value(*final(result))
            <= field_neg(limbs_value(*final(result))),
        r matches Err(e) ==> e == FeltError::DomainError && *final(result) == *old(result),
{
    let s = limbs_to_felt(a).sqrt()?;
    felt_to_limbs(s, result);
    Ok(())
}

/// Decimal text of the element's signed residue.
pub fn to_signed_felt(value: &[u64; 4]) -> (r: String)
    ensures
        r@ == signed_text(felt_of(*value)),
{
    limbs_to_felt(value).to_signed()
}

/// Writes the representative shifted right by `b` bits; `b` of 256 or more
/// gives zero.
pub fn felt_shr(a: &[u64; 4], b: usize, result: &mut [u64; 4])
    ensures
        limbs_value(*final(result)) == shr_256(felt_of(*a), b as nat),
{
    felt_to_limbs(limbs_to_felt(a).shr(b), result);
}

/// Writes the Euclidean quotient and remainder of the representatives of `a`
/// and `b`; `DivisionByZero` when `b` is zero.
pub fn div_rem(a: &[u64; 4], b: &[u64; 4], div: &mut [u64; 4], rem: &mut [u64; 4]) -> (r: Result<
    (),
    FeltError,
>)
    ensures
        r is Err <==> felt_of(*b) == 0,
        r is Ok ==> limbs_value(*final(div)) == felt_of(*a) / felt_of(*b) && limbs_value(*final(rem))
            == felt_of(*a) % felt_of(*b),
        r matches Err(e) ==> e == FeltError::DivisionByZero && *final(div) == *old(div) && *final(rem)
            == *old(rem),
{
    let (q, m) = limbs_to_felt(a).div_rem(limbs_to_felt(b))?;
    felt_to_limbs(q, div);
    felt_to_limbs(m, rem);
    Ok(())
}

/// Three-way comparison of the representatives: -1, 0 or 1.
pub fn cmp(a: &[u64; 4], b: &[u64; 4]) -> (r: i32)
    ensures
        r == 0 <==> felt_of(*a) == felt_of(*b),
        r == -1 <==> felt_of(*a) < felt_of(*b),
        r == 1 <==> felt_of(*a) > felt_of(*b),
{
    limbs_to_felt(a).cmp(&limbs_to_felt(b))
}

} // verus!
