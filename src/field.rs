//! The mathematical model: the modulus, the value of a limb or byte buffer, and
//! the field operations as functions on natural numbers.
use vstd::prelude::*;
use vstd::arithmetic::power::pow;
use vstd::arithmetic::power2::pow2;

verus! {

/// Radix of one limb.
pub open spec fn limb_radix() -> nat {
    0x1_0000_0000_0000_0000
}

/// High 128 bits of the modulus: `2^123 + 17 * 2^64`.
pub const FIELD_HIGH: u128 = 0x0800_0000_0000_0011_0000_0000_0000_0000;

/// Low 128 bits of the modulus.
pub const FIELD_LOW: u128 = 1;

/// The field modulus `p = FIELD_HIGH * 2^128 + FIELD_LOW`, that is `2^251 + 17 * 2^192 + 1`.
pub open spec fn modulus() -> nat {
    FIELD_HIGH as nat * (limb_radix() * limb_radix()) + FIELD_LOW as nat
}

/// The largest representative that stands for a non-negative signed value: `(p - 1) / 2`.
pub open spec fn signed_max() -> nat {
    ((modulus() - 1) / 2) as nat
}

/// The integer held by four words in little-endian word order (the limb form).
pub open spec fn limbs_value(l: [u64; 4]) -> nat {
    l[0] as nat + limb_radix() * (l[1] as nat + limb_radix() * (l[2] as nat + limb_radix()
        * l[3] as nat))
}

/// The integer held by four words in big-endian word order (the field library's order).
pub open spec fn native_value(n: [u64; 4]) -> nat {
    limbs_value([n[3], n[2], n[1], n[0]])
}

/// The field element that a limb buffer denotes: its integer reduced modulo `p`.
pub open spec fn felt_of(l: [u64; 4]) -> nat {
    limbs_value(l) % modulus()
}

/// The four words, least significant first, of an integer below `2^256`.
pub open spec fn words_of(x: nat) -> [u64; 4] {
    let b = limb_radix();
    [
        (x % b) as u64,
        (x / b % b) as u64,
        (x / b / b % b) as u64,
        (x / b / b / b % b) as u64,
    ]
}

/// Word-by-word AND.
pub open spec fn words_and(a: [u64; 4], b: [u64; 4]) -> [u64; 4] {
    [a[0] & b[0], a[1] & b[1], a[2] & b[2], a[3] & b[3]]
}

/// Word-by-word OR.
pub open spec fn words_or(a: [u64; 4], b: [u64; 4]) -> [u64; 4] {
    [a[0] | b[0], a[1] | b[1], a[2] | b[2], a[3] | b[3]]
}

/// Word-by-word XOR.
pub open spec fn words_xor(a: [u64; 4], b: [u64; 4]) -> [u64; 4] {
    [a[0] ^ b[0], a[1] ^ b[1], a[2] ^ b[2], a[3] ^ b[3]]
}

/// Modular sum of two field elements.
pub open spec fn field_add(a: nat, b: nat) -> nat {
    (a + b) % modulus()
}

/// Modular difference of two field elements (`b` below the modulus).
pub open spec fn field_sub(a: nat, b: nat) -> nat {
    ((a + modulus() - b) % (modulus() as int)) as nat
}

/// Modular product of two field elements.
pub open spec fn field_mul(a: nat, b: nat) -> nat {
    (a * b) % modulus()
}

/// Modular power, with `x^0 == 1` for every `x`, zero included.
pub open spec fn field_pow(a: nat, e: nat) -> nat {
    (pow(a as int, e) % (modulus() as int)) as nat
}

/// Whether `r` is a square root of `a` in the field.
pub open spec fn is_root(r: nat, a: nat) -> bool {
    r < modulus() && field_mul(r, r) == a
}

/// Additive inverse in the field.
pub open spec fn field_neg(a: nat) -> nat {
    field_sub(0, a)
}

/// Number of bits in the shortest binary form of `n` (0 for 0).
pub open spec fn bit_length(n: nat) -> nat
    decreases n,
{
    if n == 0 {
        0
    } else {
        1 + bit_length(n / 2)
    }
}

/// `n` shifted left by `k` bits, truncated to 256 bits.
pub open spec fn shl_256(n: nat, k: nat) -> nat {
    (n * pow2(k)) % pow2(256)
}

/// `n` shifted right by `k` bits.
pub open spec fn shr_256(n: nat, k: nat) -> nat {
    n / pow2(k)
}

/// The integer of a big-endian byte sequence.
pub open spec fn be_value(b: Seq<u8>) -> nat
    decreases b.len(),
{
    if b.len() == 0 {
        0
    } else {
        be_value(b.drop_last()) * 256 + b.last() as nat
    }
}

/// The integer of a little-endian byte sequence.
pub open spec fn le_value(b: Seq<u8>) -> nat
    decreases b.len(),
{
    if b.len() == 0 {
        0
    } else {
        b[0] as nat + 256 * le_value(b.drop_first())
    }
}

/// Whether a byte is an ASCII decimal digit.
pub open spec fn is_dec_digit(c: u8) -> bool {
    48 <= c <= 57
}

/// Whether a byte is an ASCII hexadecimal digit, in either case.
pub open spec fn is_hex_digit(c: u8) -> bool {
    is_dec_digit(c) || (97 <= c <= 102) || (65 <= c <= 70)
}

/// The value of one hexadecimal digit.
pub open spec fn hex_digit_value(c: u8) -> nat {
    if is_dec_digit(c) {
        (c - 48) as nat
    } else if 97 <= c <= 102 {
        (c - 87) as nat
    } else {
        (c - 55) as nat
    }
}

/// Whether every byte is a decimal digit.
pub open spec fn all_dec_digits(s: Seq<u8>) -> bool {
    forall|i: int| 0 <= i < s.len() ==> is_dec_digit(#[trigger] s[i])
}

/// Whether every byte is a hexadecimal digit.
pub open spec fn all_hex_digits(s: Seq<u8>) -> bool {
    forall|i: int| 0 <= i < s.len() ==> is_hex_digit(#[trigger] s[i])
}

/// The integer of a decimal digit string.
pub open spec fn dec_value(s: Seq<u8>) -> nat
    decreases s.len(),
{
    if s.len() == 0 {
        0
    } else {
        dec_value(s.drop_last()) * 10 + (s.last() - 48) as nat
    }
}

/// The integer of a hexadecimal digit string.
pub open spec fn hex_value(s: Seq<u8>) -> nat
    decreases s.len(),
{
    if s.len() == 0 {
        0
    } else {
        hex_value(s.drop_last()) * 16 + hex_digit_value(s.last())
    }
}

/// Number of digits after the leading zeros.
pub open spec fn significant_len(s: Seq<u8>) -> nat
    decreases s.len(),
{
    if s.len() == 0 {
        0
    } else if s[0] == 48 {
        significant_len(s.drop_first())
    } else {
        s.len()
    }
}

/// The digits of a hexadecimal numeral: the text after a `0x` prefix, where the
/// text is longer than the prefix.
pub open spec fn hex_body(s: Seq<u8>) -> Seq<u8> {
    if s.len() > 2 && s[0] == 48 && s[1] == 120 {
        s.subrange(2, s.len() as int)
    } else {
        s
    }
}

/// Whether a text is a hexadecimal numeral that the field accepts: at most 64
/// digits, after an optional `0x`, whose value is at most the modulus.
pub open spec fn is_field_hex(s: Seq<u8>) -> bool {
    let body = hex_body(s);
    &&& 0 < body.len() <= 64
    &&& all_hex_digits(body)
    &&& hex_value(body) <= modulus()
}

/// The lower-case character of a digit below 16.
pub open spec fn digit_char(d: nat) -> char {
    if d < 10 {
        (48 + d) as char
    } else {
        (87 + d) as char
    }
}

/// Decimal text of `n`, without leading zeros.
pub open spec fn dec_text(n: nat) -> Seq<char>
    decreases n,
{
    if n < 10 {
        seq![digit_char(n)]
    } else {
        dec_text(n / 10).push(digit_char(n % 10))
    }
}

/// Lower-case hexadecimal text of `n`, without leading zeros.
pub open spec fn hex_text(n: nat) -> Seq<char>
    decreases n,
{
    if n < 16 {
        seq![digit_char(n)]
    } else {
        hex_text(n / 16).push(digit_char(n % 16))
    }
}

/// Decimal text of a signed integer given by its sign and magnitude; a zero
/// magnitude has no sign.
pub open spec fn signed_dec_text(negative: bool, magnitude: nat) -> Seq<char> {
    if negative && magnitude != 0 {
        seq!['-'] + dec_text(magnitude)
    } else {
        dec_text(magnitude)
    }
}

/// The magnitude part of a decimal numeral: the text after a leading `-`.
pub open spec fn dec_magnitude(s: Seq<u8>) -> Seq<u8> {
    if s.len() > 0 && s[0] == 45 {
        s.subrange(1, s.len() as int)
    } else {
        s
    }
}

/// Whether a text is a decimal numeral that the bridge reads: an optional `-`,
/// then one or more decimal digits of which at most 77 follow the leading zeros
/// (every such magnitude is below `10^77 < 2^256`).
pub open spec fn is_dec_numeral(s: Seq<u8>) -> bool {
    let m = dec_magnitude(s);
    &&& m.len() > 0
    &&& all_dec_digits(m)
    &&& significant_len(m) <= 77
}

/// The field element of a decimal numeral: its magnitude reduced, negated
/// when the numeral starts with `-`.
pub open spec fn dec_numeral_value(s: Seq<u8>) -> nat {
    let v = dec_value(dec_magnitude(s)) % modulus();
    if s.len() > 0 && s[0] == 45 {
        field_neg(v)
    } else {
        v
    }
}

/// Decimal text of the signed residue of a field element: the representative
/// itself up to `signed_max()`, and minus `p - x` above it.
pub open spec fn signed_text(x: nat) -> Seq<char> {
    if x <= signed_max() {
        dec_text(x)
    } else {
        seq!['-'] + dec_text((modulus() - x) as nat)
    }
}

} // verus!
