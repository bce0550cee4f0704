//! The calls into the field library, the big-integer formatter and the sponge
//! permutation. Each function here is believed, not proved: its contract states
//! what the called code does, as its source shows. Words are in the field
//! library's order (most significant first), read through `native_value`.
use vstd::prelude::*;
use vstd::string::StringSliceAdditionalSpecFns;
use crate::field::{
    all_dec_digits, be_value, bit_length, dec_value, field_add, field_mul, field_neg, field_pow,
    field_sub, hex_body, hex_text, hex_value, is_field_hex, is_root, le_value, modulus,
    native_value, shl_256, words_and, words_or, words_xor, shr_256, signed_dec_text, significant_len,
};
use lambdaworks_math::field::element::FieldElement;
use lambdaworks_math::field::fields::fft_friendly::stark_252_prime_field::Stark252PrimeField;
use lambdaworks_math::traits::ByteConversion;
use lambdaworks_math::unsigned_integer::element::UnsignedInteger;
use num_bigint::{BigInt, Sign};
use starknet_crypto::{poseidon_permute_comp, Felt};

verus! {

/// What the Poseidon (Hades) permutation of the STARK field makes of a state of
/// three field elements.
pub uninterp spec fn poseidon_permutation(state: Seq<nat>) -> Seq<nat>;

/// Relies on `FieldElement::from(&UnsignedInteger)` and `representative`: an
/// integer of four words becomes the field element it is congruent to.
#[verifier::external_body]
pub(crate) fn fe_reduce(n: [u64; 4]) -> (r: [u64; 4])
    ensures
        native_value(r) == native_value(n) % modulus(),
{
    FieldElement::<Stark252PrimeField>::from(&UnsignedInteger::from_limbs(n)).representative().limbs
}

/// Relies on `+` of lambdaworks field elements: modular addition.
#[verifier::external_body]
pub(crate) fn fe_add(a: [u64; 4], b: [u64; 4]) -> (r: [u64; 4])
    requires
        native_value(a) < modulus(),
        native_value(b) < modulus(),
    ensures
        native_value(r) == field_add(native_value(a), native_value(b)),
{
    let x = FieldElement::<Stark252PrimeField>::from(&UnsignedInteger::from_limbs(a));
    let y = FieldElement::<Stark252PrimeField>::from(&UnsignedInteger::from_limbs(b));
    (x + y).representative().limbs
}

/// Relies on `-` of lambdaworks field elements: modular subtraction.
#[verifier::external_body]
pub(crate) fn fe_sub(a: [u64; 4], b: [u64; 4]) -> (r: [u64; 4])
    requires
        native_value(a) < modulus(),
        native_value(b) < modulus(),
    ensures
        native_value(r) == field_sub(native_value(a), native_value(b)),
{
    let x = FieldElement::<Stark252PrimeField>::from(&UnsignedInteger::from_limbs(a));
    let y = FieldElement::<Stark252PrimeField>::from(&UnsignedInteger::from_limbs(b));
    (x - y).representative().limbs
}

/// Relies on `*` of lambdaworks field elements: modular multiplication.
#[verifier::external_body]
pub(crate) fn fe_mul(a: [u64; 4], b: [u64; 4]) -> (r: [u64; 4])
    requires
        native_value(a) < modulus(),
        native_value(b) < modulus(),
    ensures
        native_value(r) == field_mul(native_value(a), native_value(b)),
{
    let x = FieldElement::<Stark252PrimeField>::from(&UnsignedInteger::from_limbs(a));
    let y = FieldElement::<Stark252PrimeField>::from(&UnsignedInteger::from_limbs(b));
    (x * y).representative().limbs
}

/// Relies on `/` of lambdaworks field elements: multiplication by the inverse,
/// an error exactly when the divisor is zero.
#[verifier::external_body]
pub(crate) fn fe_div(a: [u64; 4], b: [u64; 4]) -> (r: Option<[u64; 4]>)
    requires
        native_value(a) < modulus(),
        native_value(b) < modulus(),
    ensures
        r is None <==> native_value(b) == 0,
        r matches Some(q) ==> native_value(q) < modulus() && field_mul(native_value(q), native_value(b))
            == native_value(a),
{
    let x = FieldElement::<Stark252PrimeField>::from(&UnsignedInteger::from_limbs(a));
    let y = FieldElement::<Stark252PrimeField>::from(&UnsignedInteger::from_limbs(b));
    match x / y {
        Ok(q) => Some(q.representative().limbs),
        Err(_) => None,
    }
}

/// Relies on `FieldElement::pow` with a `u32` exponent (zero gives one).
#[verifier::external_body]
pub(crate) fn fe_pow_u32(a: [u64; 4], e: u32) -> (r: [u64; 4])
    requires
        native_value(a) < modulus(),
    ensures
        native_value(r) == field_pow(native_value(a), e as nat),
{
    FieldElement::<Stark252PrimeField>::from(&UnsignedInteger::from_limbs(a)).pow(e).representative().limbs
}

/// Relies on `FieldElement::pow` with a four-word exponent (zero gives one).
#[verifier::external_body]
pub(crate) fn fe_pow(a: [u64; 4], e: [u64; 4]) -> (r: [u64; 4])
    requires
        native_value(a) < modulus(),
    ensures
        native_value(r) == field_pow(native_value(a), native_value(e)),
{
    let x = FieldElement::<Stark252PrimeField>::from(&UnsignedInteger::from_limbs(a));
    x.pow(UnsignedInteger::from_limbs(e)).representative().limbs
}

/// Relies on `FieldElement::sqrt`: a root `x` and `-x` when the element is a
/// square (Tonelli-Shanks), nothing when it is not.
#[verifier::external_body]
pub(crate) fn fe_sqrt(a: [u64; 4]) -> (r: Option<([u64; 4], [u64; 4])>)
    requires
        native_value(a) < modulus(),
    ensures
        r matches Some((x, y)) ==> is_root(native_value(x), native_value(a)) && native_value(y)
            == field_neg(native_value(x)),
        r is None ==> forall|x: nat| !is_root(x, native_value(a)),
{
    match FieldElement::<Stark252PrimeField>::from(&UnsignedInteger::from_limbs(a)).sqrt() {
        Some((x, y)) => Some((x.representative().limbs, y.representative().limbs)),
        None => None,
    }
}

/// Relies on `&` of `UnsignedInteger`: word by word.
#[verifier::external_body]
pub(crate) fn uint_and(a: [u64; 4], b: [u64; 4]) -> (r: [u64; 4])
    ensures
        r == words_and(a, b),
{
    (UnsignedInteger::from_limbs(a) & UnsignedInteger::from_limbs(b)).limbs
}

/// Relies on `|` of `UnsignedInteger`: word by word.
#[verifier::external_body]
pub(crate) fn uint_or(a: [u64; 4], b: [u64; 4]) -> (r: [u64; 4])
    ensures
        r == words_or(a, b),
{
    (UnsignedInteger::from_limbs(a) | UnsignedInteger::from_limbs(b)).limbs
}

/// Relies on `^` of `UnsignedInteger`: word by word.
#[verifier::external_body]
pub(crate) fn uint_xor(a: [u64; 4], b: [u64; 4]) -> (r: [u64; 4])
    ensures
        r == words_xor(a, b),
{
    (UnsignedInteger::from_limbs(a) ^ UnsignedInteger::from_limbs(b)).limbs
}

/// Relies on `<<` of `UnsignedInteger`: a shift within 256 bits, for a count
/// below 256 (beyond, it panics).
#[verifier::external_body]
pub(crate) fn uint_shl(a: [u64; 4], k: usize) -> (r: [u64; 4])
    requires
        k < 256,
    ensures
        native_value(r) == shl_256(native_value(a), k as nat),
{
    (UnsignedInteger::from_limbs(a) << k).limbs
}

/// Relies on `>>` of `UnsignedInteger`, for a count below 256 (beyond, it panics).
#[verifier::external_body]
pub(crate) fn uint_shr(a: [u64; 4], k: usize) -> (r: [u64; 4])
    requires
        k < 256,
    ensures
        native_value(r) == shr_256(native_value(a), k as nat),
{
    (UnsignedInteger::from_limbs(a) >> k).limbs
}

/// Relies on `UnsignedInteger::bits_le`: the number of significant bits.
#[verifier::external_body]
pub(crate) fn uint_bits(a: [u64; 4]) -> (r: usize)
    ensures
        r as nat == bit_length(native_value(a)),
{
    UnsignedInteger::from_limbs(a).bits_le()
}

/// Relies on `UnsignedInteger::div_rem`: quotient and remainder, for a non-zero
/// divisor.
#[verifier::external_body]
pub(crate) fn uint_div_rem(a: [u64; 4], b: [u64; 4]) -> (r: ([u64; 4], [u64; 4]))
    requires
        native_value(b) != 0,
    ensures
        native_value(r.0) == native_value(a) / native_value(b),
        native_value(r.1) == native_value(a) % native_value(b),
{
    let (q, m) = UnsignedInteger::from_limbs(a).div_rem(&UnsignedInteger::from_limbs(b));
    (q.limbs, m.limbs)
}

/// Relies on `FieldElement::from_hex`: an optional `0x`, then at most 64
/// hexadecimal digits of a value no larger than the modulus, which is reduced.
#[verifier::external_body]
pub(crate) fn fe_from_hex(s: &str) -> (r: Option<[u64; 4]>)
    ensures
        r is Some <==> is_field_hex(s.spec_bytes()),
        r matches Some(n) ==> native_value(n) == hex_value(hex_body(s.spec_bytes())) % modulus(),
{
    match FieldElement::<Stark252PrimeField>::from_hex(s) {
        Ok(f) => Some(f.representative().limbs),
        Err(_) => None,
    }
}

/// Relies on `UnsignedInteger::from_dec_str`, on the text from byte `start`
/// (the whole text, or what follows a leading `-`): a non-empty run of decimal
/// digits. With at most 77 significant digits the value fits in 256 bits, where
/// the parser neither overflows nor panics.
#[verifier::external_body]
pub(crate) fn uint_from_dec(s: &str, start: usize) -> (r: Option<[u64; 4]>)
    requires
        start == 0 || (start == 1 && s.spec_bytes().len() > 0 && s.spec_bytes()[0] == 45),
        significant_len(s.spec_bytes().subrange(start as int, s.spec_bytes().len() as int)) <= 77,
    ensures
        r is Some <==> (s.spec_bytes().len() > start && all_dec_digits(
            s.spec_bytes().subrange(start as int, s.spec_bytes().len() as int),
        )),
        r matches Some(n) ==> native_value(n) == dec_value(
            s.spec_bytes().subrange(start as int, s.spec_bytes().len() as int),
        ),
{
    match UnsignedInteger::<4>::from_dec_str(&s[start..]) {
        Ok(u) => Some(u.limbs),
        Err(_) => None,
    }
}

/// Relies on `Display` of `UnsignedInteger`: `0x` and lower-case hexadecimal
/// digits without leading zeros.
#[verifier::external_body]
pub(crate) fn uint_hex_text(a: [u64; 4]) -> (r: String)
    ensures
        r@ == seq!['0', 'x'] + hex_text(native_value(a)),
{
    UnsignedInteger::from_limbs(a).to_string()
}

/// Relies on `FieldElement::<Stark252PrimeField>::to_bytes_be`: the 32
/// big-endian bytes of the representative.
#[verifier::external_body]
pub(crate) fn fe_to_bytes_be(a: [u64; 4]) -> (r: [u8; 32])
    requires
        native_value(a) < modulus(),
    ensures
        be_value(r@) == native_value(a),
{
    FieldElement::<Stark252PrimeField>::from(&UnsignedInteger::from_limbs(a)).to_bytes_be()
}

/// Relies on `FieldElement::<Stark252PrimeField>::to_bytes_le`: the 32
/// little-endian bytes of the representative.
#[verifier::external_body]
pub(crate) fn fe_to_bytes_le(a: [u64; 4]) -> (r: [u8; 32])
    requires
        native_value(a) < modulus(),
    ensures
        le_value(r@) == native_value(a),
{
    FieldElement::<Stark252PrimeField>::from(&UnsignedInteger::from_limbs(a)).to_bytes_le()
}

/// Relies on `ByteConversion::from_bytes_be` of a field element: 32 bytes are
/// read as an integer, which is reduced.
#[verifier::external_body]
pub(crate) fn fe_from_bytes_be(b: &[u8; 32]) -> (r: Option<[u64; 4]>)
    ensures
        r is Some,
        r matches Some(n) ==> native_value(n) == be_value(b@) % modulus(),
{
    match FieldElement::<Stark252PrimeField>::from_bytes_be(b) {
        Ok(f) => Some(f.representative().limbs),
        Err(_) => None,
    }
}

/// Relies on `ByteConversion::from_bytes_le` of a field element: 32 bytes are
/// read as an integer, which is reduced.
#[verifier::external_body]
pub(crate) fn fe_from_bytes_le(b: &[u8; 32]) -> (r: Option<[u64; 4]>)
    ensures
        r is Some,
        r matches Some(n) ==> native_value(n) == le_value(b@) % modulus(),
{
    match FieldElement::<Stark252PrimeField>::from_bytes_le(b) {
        Ok(f) => Some(f.representative().limbs),
        Err(_) => None,
    }
}

/// Relies on `BigInt::from_bytes_le` and `Display` of `BigInt`: decimal text,
/// with a minus sign for a negative non-zero value.
#[verifier::external_body]
pub(crate) fn signed_decimal(negative: bool, magnitude: &[u8; 32]) -> (r: String)
    ensures
        r@ == signed_dec_text(negative, le_value(magnitude@)),
{
    let sign = if negative { Sign::Minus } else { Sign::Plus };
    BigInt::from_bytes_le(sign, magnitude).to_string()
}

/// Relies on `starknet_crypto::poseidon_permute_comp`: each 32-byte big-endian
/// word is read as a field element (reduced), the three are permuted in place,
/// and written back as the big-endian bytes of their representatives.
#[verifier::external_body]
pub(crate) fn hades_permute(s: [[u8; 32]; 3]) -> (r: [[u8; 32]; 3])
    ensures
        be_value(r[0]@) < modulus(),
        be_value(r[1]@) < modulus(),
        be_value(r[2]@) < modulus(),
        seq![be_value(r[0]@), be_value(r[1]@), be_value(r[2]@)] == poseidon_permutation(
            seq![be_value(s[0]@) % modulus(), be_value(s[1]@) % modulus(), be_value(s[2]@) % modulus()],
        ),
{
    let mut state = [Felt::from_bytes_be(&s[0]), Felt::from_bytes_be(&s[1]), Felt::from_bytes_be(&s[2])];
    poseidon_permute_comp(&mut state);
    [state[0].to_bytes_be(), state[1].to_bytes_be(), state[2].to_bytes_be()]
}

} // verus!
