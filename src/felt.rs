//! The field element type, its conversion to and from the limb form, and the
//! modular arithmetic on it.
use vstd::prelude::*;
use vstd::arithmetic::div_mod::{
    lemma_fundamental_div_mod_converse, lemma_mod_multiples_vanish, lemma_mod_self_0, lemma_small_mod,
};
use crate::backend::{
    fe_add, fe_div, fe_from_bytes_be, fe_from_bytes_le, fe_mul, fe_pow, fe_pow_u32, fe_reduce, fe_sqrt,
    fe_sub, fe_to_bytes_be, fe_to_bytes_le,
};
use crate::field::{
    be_value, felt_of, field_add, le_value, field_mul, field_neg, field_pow, field_sub, is_root, limb_radix,
    limbs_value, modulus, native_value, words_of,
};

verus! {

/// What an operation of the bridge can fail with.
#[derive(Clone, Copy, Debug, PartialEq, Eq, Structural)]
pub enum FeltError {
    /// A numeral is not well formed, or its magnitude is out of range.
    ParseError,
    /// The element has no square root.
    DomainError,
    /// The divisor is the zero element.
    DivisionByZero,
}

/// An element of the STARK prime field, held as its representative in `[0, p)`
/// in the field library's word order (most significant word first).
#[derive(Clone, Copy, Debug)]
pub struct Felt {
    pub(crate) repr: [u64; 4],
}

impl View for Felt {
    type V = nat;

    /// The representative.
    open(crate) spec fn view(&self) -> nat {
        native_value(self.repr)
    }
}

/// Every limb buffer holds the words of its own integer, which is below `2^256`.
pub proof fn lemma_words_of_value(l: [u64; 4])
    ensures
        words_of(limbs_value(l)) == l,
        limbs_value(l) < limb_radix() * limb_radix() * limb_radix() * limb_radix(),
{
    let b = limb_radix() as int;
    let h2 = l[2] as int + b * l[3] as int;
    let h1 = l[1] as int + b * h2;
    let v = l[0] as int + b * h1;
    lemma_fundamental_div_mod_converse(v, b, h1, l[0] as int);
    lemma_fundamental_div_mod_converse(h1, b, h2, l[1] as int);
    lemma_fundamental_div_mod_converse(h2, b, l[3] as int, l[2] as int);
    lemma_fundamental_div_mod_converse(l[3] as int, b, 0, l[3] as int);
    let w = words_of(limbs_value(l));
    assert(w[0] == l[0] && w[1] == l[1] && w[2] == l[2] && w[3] == l[3]);
    assert(w =~= l);
}

/// Negation is its own inverse on field elements.
pub proof fn lemma_neg_involutive(x: nat)
    requires
        x < modulus(),
    ensures
        field_neg(x) < modulus(),
        field_neg(field_neg(x)) == x,
{
    let p = modulus();
    lemma_mod_self_0(p as int);
    if x > 0 {
        lemma_small_mod((p - x) as nat, p);
        lemma_small_mod(x, p);
    }
}

/// An element and its negation have the same square.
pub proof fn lemma_square_of_neg(x: nat)
    requires
        x < modulus(),
    ensures
        field_mul(field_neg(x), field_neg(x)) == field_mul(x, x),
{
    let p = modulus() as int;
    lemma_neg_involutive(x);
    if x > 0 {
        let y = p - x;
        lemma_small_mod(y as nat, p as nat);
        assert(field_neg(x) == y);
        assert(y * y == p * (p - 2 * x) + x * x) by (nonlinear_arith)
            requires
                y == p - x,
        ;
        lemma_mod_multiples_vanish(p - 2 * x, (x * x) as int, p);
    } else {
        lemma_mod_self_0(p);
    }
}

/// The field library's word order from the limb form's.
fn to_native(l: &[u64; 4]) -> (n: [u64; 4])
    ensures
        native_value(n) == limbs_value(*l),
{
    [l[3], l[2], l[1], l[0]]
}

/// The limb form's word order from the field library's.
fn from_native(n: [u64; 4]) -> (l: [u64; 4])
    ensures
        limbs_value(l) == native_value(n),
{
    [n[3], n[2], n[1], n[0]]
}

/// Decodes a limb buffer (four words, least significant first): the field
/// element that its integer is congruent to.
pub fn limbs_to_felt(limbs: &[u64; 4]) -> (f: Felt)
    ensures
        f@ == felt_of(*limbs),
{
    Felt { repr: fe_reduce(to_native(limbs)) }
}

/// Writes the representative of a field element into a limb buffer, replacing
/// all four words.
pub fn felt_to_limbs(felt: Felt, limbs: &mut [u64; 4])
    ensures
        limbs_value(*final(limbs)) == felt@,
        *final(limbs) == words_of(felt@),
{
    *limbs = from_native(felt.repr);
    proof {
        lemma_words_of_value(*limbs);
    }
}

impl Felt {
    #[verifier::type_invariant]
    pub(crate) open spec fn inv(&self) -> bool {
        native_value(self.repr) < modulus()
    }

    /// The additive identity.
    pub fn zero() -> (r: Felt)
        ensures
            r@ == 0,
    {
        Felt { repr: [0, 0, 0, 0] }
    }

    /// The multiplicative identity.
    pub fn one() -> (r: Felt)
        ensures
            r@ == 1,
    {
        Felt { repr: [0, 0, 0, 1] }
    }

    /// The element whose representative is `value`.
    pub fn from_u64(value: u64) -> (r: Felt)
        ensures
            r@ == value,
    {
        Felt { repr: [0, 0, 0, value] }
    }

    /// Modular sum.
    pub fn add(self, other: Felt) -> (r: Felt)
        ensures
            r@ == field_add(self@, other@),
    {
        proof {
            use_type_invariant(&self);
            use_type_invariant(&other);
        }
        Felt { repr: fe_add(self.repr, other.repr) }
    }

    /// Modular difference.
    pub fn sub(self, other: Felt) -> (r: Felt)
        ensures
            r@ == field_sub(self@, other@),
    {
        proof {
            use_type_invariant(&self);
            use_type_invariant(&other);
        }
        Felt { repr: fe_sub(self.repr, other.repr) }
    }

    /// Modular product.
    pub fn mul(self, other: Felt) -> (r: Felt)
        ensures
            r@ == field_mul(self@, other@),
    {
        proof {
            use_type_invariant(&self);
            use_type_invariant(&other);
        }
        Felt { repr: fe_mul(self.repr, other.repr) }
    }

    /// Additive inverse.
    pub fn neg(self) -> (r: Felt)
        ensures
            r@ == field_neg(self@),
    {
        Felt::zero().sub(self)
    }

    /// Modular quotient: the element that gives `self` when multiplied by
    /// `other`; `DivisionByZero` when `other` is zero.
    pub fn div(self, other: Felt) -> (r: Result<Felt, FeltError>)
        ensures
            r is Err <==> other@ == 0,
            r matches Err(e) ==> e == FeltError::DivisionByZero,
            r matches Ok(q) ==> field_mul(q@, other@) == self@,
    {
        proof {
            use_type_invariant(&self);
            use_type_invariant(&other);
        }
        match fe_div(self.repr, other.repr) {
            Some(q) => Ok(Felt { repr: q }),
            None => Err(FeltError::DivisionByZero),
        }
    }

    /// `self` to a small power; any element to the power 0 is 1.
    pub fn pow_u32(self, exponent: u32) -> (r: Felt)
        ensures
            r@ == field_pow(self@, exponent as nat),
    {
        proof {
            use_type_invariant(&self);
        }
        Felt { repr: fe_pow_u32(self.repr, exponent) }
    }

    /// `self` to the power of another element's representative; any element to
    /// the power 0 is 1.
    pub fn pow(self, exponent: Felt) -> (r: Felt)
        ensures
            r@ == field_pow(self@, exponent@),
    {
        proof {
            use_type_invariant(&self);
        }
        Felt { repr: fe_pow(self.repr, exponent.repr) }
    }

    /// The smaller of the two square roots; `DomainError` when there is none.
    pub fn sqrt(self) -> (r: Result<Felt, FeltError>)
        ensures
            r is Err <==> forall|x: nat| !is_root(x, self@),
            r matches Err(e) ==> e == FeltError::DomainError,
            r matches Ok(s) ==> is_root(s@, self@) && s@ <= field_neg(s@),
    {
        proof {
            use_type_invariant(&self);
        }
        match fe_sqrt(self.repr) {
            Some((x, y)) => {
                let rx = Felt { repr: x };
                let ry = Felt { repr: y };
                proof {
                    lemma_neg_involutive(rx@);
                    lemma_square_of_neg(rx@);
                    assert(is_root(rx@, self@));
                }
                if rx.cmp(&ry) <= 0 {
                    Ok(rx)
                } else {
                    Ok(ry)
                }
            },
            None => Err(FeltError::DomainError),
        }
    }

    /// The 32 big-endian bytes of the representative.
    pub fn to_bytes_be(&self) -> (r: [u8; 32])
        ensures
            be_value(r@) == self@,
    {
        proof {
            use_type_invariant(self);
        }
        fe_to_bytes_be(self.repr)
    }

    /// The 32 little-endian bytes of the representative.
    pub fn to_bytes_le(&self) -> (r: [u8; 32])
        ensures
            le_value(r@) == self@,
    {
        proof {
            use_type_invariant(self);
        }
        fe_to_bytes_le(self.repr)
    }

    /// The element that 32 big-endian bytes are congruent to.
    pub fn from_bytes_be(bytes: &[u8; 32]) -> (r: Felt)
        ensures
            r@ == be_value(bytes@) % modulus(),
    {
        match fe_from_bytes_be(bytes) {
            Some(n) => Felt { repr: n },
            None => Felt::zero(),
        }
    }

    /// The element that 32 little-endian bytes are congruent to.
    pub fn from_bytes_le(bytes: &[u8; 32]) -> (r: Felt)
        ensures
            r@ == le_value(bytes@) % modulus(),
    {
        match fe_from_bytes_le(bytes) {
            Some(n) => Felt { repr: n },
            None => Felt::zero(),
        }
    }

    /// Three-way comparison of the representatives: -1, 0 or 1.
    pub fn cmp(&self, other: &Felt) -> (r: i32)
        ensures
            r == 0 <==> self@ == other@,
            r == -1 <==> self@ < other@,
            r == 1 <==> self@ > other@,
    {
        compare_native(&self.repr, &other.repr)
    }
}

/// One step of a comparison from the most significant word down.
proof fn lemma_lex_step(lo_a: nat, lo_b: nat, hi_a: nat, hi_b: nat)
    requires
        lo_a < limb_radix(),
        lo_b < limb_radix(),
        hi_a < hi_b,
    ensures
        lo_a + limb_radix() * hi_a < lo_b + limb_radix() * hi_b,
{
}

/// Three-way comparison of two integers in the field library's word order.
fn compare_native(a: &[u64; 4], b: &[u64; 4]) -> (r: i32)
    ensures
        r == 0 <==> native_value(*a) == native_value(*b),
        r == -1 <==> native_value(*a) < native_value(*b),
        r == 1 <==> native_value(*a) > native_value(*b),
{
    let mut i: usize = 0;
    while i < 4
        invariant
            0 <= i <= 4,
            forall|j: int| 0 <= j < i ==> a[j] == b[j],
        decreases 4 - i,
    {
        if a[i] != b[i] {
            proof {
                let bb = limb_radix();
                let ha2 = a[1] as nat + bb * a[0] as nat;
                let hb2 = b[1] as nat + bb * b[0] as nat;
                let ha1 = a[2] as nat + bb * ha2;
                let hb1 = b[2] as nat + bb * hb2;
                if i >= 1 {
                    assert(a[0] == b[0]);
                }
                if i >= 2 {
                    assert(a[1] == b[1]);
                }
                if i >= 3 {
                    assert(a[2] == b[2]);
                }
                if a[i as int] < b[i as int] {
                    if i == 0 {
                        lemma_lex_step(a[1] as nat, b[1] as nat, a[0] as nat, b[0] as nat);
                        lemma_lex_step(a[2] as nat, b[2] as nat, ha2, hb2);
                        lemma_lex_step(a[3] as nat, b[3] as nat, ha1, hb1);
                    } else if i == 1 {
                        lemma_lex_step(a[2] as nat, b[2] as nat, ha2, hb2);
                        lemma_lex_step(a[3] as nat, b[3] as nat, ha1, hb1);
                    } else if i == 2 {
                        lemma_lex_step(a[3] as nat, b[3] as nat, ha1, hb1);
                    }
                } else {
                    if i == 0 {
                        lemma_lex_step(b[1] as nat, a[1] as nat, b[0] as nat, a[0] as nat);
                        lemma_lex_step(b[2] as nat, a[2] as nat, hb2, ha2);
                        lemma_lex_step(b[3] as nat, a[3] as nat, hb1, ha1);
                    } else if i == 1 {
                        lemma_lex_step(b[2] as nat, a[2] as nat, hb2, ha2);
                        lemma_lex_step(b[3] as nat, a[3] as nat, hb1, ha1);
                    } else if i == 2 {
                        lemma_lex_step(b[3] as nat, a[3] as nat, hb1, ha1);
                    }
                }
            }
            return if a[i] < b[i] {
                -1
            } else {
                1
            };
        }
        i = i + 1;
    }
    proof {
        assert(a[0] == b[0] && a[1] == b[1] && a[2] == b[2] && a[3] == b[3]);
    }
    0
}

} // verus!
