//! Field elements to and from text: hexadecimal and decimal numerals, and the
//! signed residue.
use vstd::prelude::*;
use vstd::arithmetic::div_mod::lemma_small_mod;
use vstd::string::StringSliceAdditionalSpecFns;
use crate::backend::{fe_from_hex, fe_reduce, fe_to_bytes_le, signed_decimal, uint_from_dec, uint_hex_text};
use crate::felt::{Felt, FeltError};
use crate::field::{
    all_dec_digits, dec_magnitude, dec_numeral_value, hex_body, hex_text,
    hex_value, is_dec_digit, is_dec_numeral, is_field_hex, modulus, signed_max, signed_text,
    significant_len,
};

verus! {

/// A run of leading zeros of length `z` leaves `s.len() - z` significant digits.
proof fn lemma_significant_len(s: Seq<u8>, z: int)
    requires
        0 <= z <= s.len(),
        forall|j: int| 0 <= j < z ==> s[j] == 48,
        z == s.len() || s[z] != 48,
    ensures
        significant_len(s) == s.len() - z,
    decreases z,
{
    if z > 0 {
        let t = s.drop_first();
        assert forall|j: int| 0 <= j < z - 1 implies t[j] == 48 by {
            assert(s[j + 1] == 48);
        }
        lemma_significant_len(t, z - 1);
    }
}

impl Felt {
    /// The element whose representative is `(p - 1) / 2`, the largest that
    /// stands for a non-negative signed value.
    pub fn signed_max_value() -> (r: Felt)
        ensures
            r@ == signed_max(),
    {
        Felt { repr: [0x0400_0000_0000_0008, 0x8000_0000_0000_0000, 0, 0] }
    }

    /// Parses a hexadecimal numeral: an optional `0x` (where the text is longer
    /// than it), then 1 to 64 digits in either case, of a value no larger than
    /// the modulus (which stands for zero). Anything else is a `ParseError`.
    pub fn from_hex(text: &str) -> (r: Result<Felt, FeltError>)
        ensures
            r is Ok <==> is_field_hex(text.spec_bytes()),
            r matches Err(e) ==> e == FeltError::ParseError,
            r matches Ok(f) ==> f@ == hex_value(hex_body(text.spec_bytes())) % modulus(),
    {
        match fe_from_hex(text) {
            Some(n) => Ok(Felt { repr: n }),
            None => Err(FeltError::ParseError),
        }
    }

    /// Parses a decimal numeral with an optional leading `-`. The magnitude is
    /// reduced into the field, and negated for a negative numeral. An empty
    /// magnitude, a byte that is not a digit, or more than 77 significant digits
    /// is a `ParseError`.
    pub fn from_dec_str(text: &str) -> (r: Result<Felt, FeltError>)
        ensures
            r is Ok <==> is_dec_numeral(text.spec_bytes()),
            r matches Err(e) ==> e == FeltError::ParseError,
            r matches Ok(f) ==> f@ == dec_numeral_value(text.spec_bytes()),
    {
        let bytes = text.as_bytes();
        let len = bytes.len();
        let negative = len > 0 && bytes[0] == 45;
        let start: usize = if negative {
            1
        } else {
            0
        };
        let ghost m = text.spec_bytes().subrange(start as int, len as int);
        proof {
            assert(m =~= dec_magnitude(text.spec_bytes()));
        }
        if start == len {
            return Err(FeltError::ParseError);
        }
        let mut k: usize = start;
        while k < len
            invariant
                start <= k <= len,
                bytes@ == text.spec_bytes(),
                len == bytes@.len(),
                m == bytes@.subrange(start as int, len as int),
                m == dec_magnitude(text.spec_bytes()),
                forall|j: int| 0 <= j < k - start ==> is_dec_digit(#[trigger] m[j]),
            decreases len - k,
        {
            if bytes[k] < 48 || bytes[k] > 57 {
                proof {
                    assert(m[k - start] == bytes@[k as int]);
                    assert(!is_dec_digit(m[k - start]));
                    assert(!all_dec_digits(dec_magnitude(text.spec_bytes())));
                }
                return Err(FeltError::ParseError);
            }
            k = k + 1;
        }
        let mut z: usize = start;
        while z < len && bytes[z] == 48
            invariant
                start <= z <= len,
                bytes@ == text.spec_bytes(),
                len == bytes@.len(),
                m == bytes@.subrange(start as int, len as int),
                m == dec_magnitude(text.spec_bytes()),
                forall|j: int| 0 <= j < z - start ==> #[trigger] m[j] == 48,
            decreases len - z,
        {
            z = z + 1;
        }
        proof {
            lemma_significant_len(m, z - start);
        }
        if len - z > 77 {
            return Err(FeltError::ParseError);
        }
        match uint_from_dec(text, start) {
            Some(n) => {
                let v = Felt { repr: fe_reduce(n) };
                if negative {
                    Ok(v.neg())
                } else {
                    Ok(v)
                }
            },
            None => Err(FeltError::ParseError),
        }
    }

    /// The representative as `0x` followed by lower-case hexadecimal digits
    /// without leading zeros (`0x0` for zero).
    pub fn to_hex_string(&self) -> (r: String)
        ensures
            r@ == seq!['0', 'x'] + hex_text(self@),
    {
        uint_hex_text(self.repr)
    }

    /// Decimal text of the signed residue: the representative itself up to
    /// `(p - 1) / 2`, and minus `p` less the representative above it.
    pub fn to_signed(&self) -> (r: String)
        ensures
            r@ == signed_text(self@),
    {
        proof {
            use_type_invariant(self);
        }
        let max = Felt::signed_max_value();
        if self.cmp(&max) <= 0 {
            signed_decimal(false, &fe_to_bytes_le(self.repr))
        } else {
            let m = self.neg();
            proof {
                lemma_small_mod((modulus() - self@) as nat, modulus());
                assert(m@ == modulus() - self@);
            }
            signed_decimal(true, &fe_to_bytes_le(m.repr))
        }
    }
}

} // verus!
