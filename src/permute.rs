//! The sponge permutation applied in place to a state of three field elements,
//! each held in its own 32-byte big-endian buffer.
use vstd::prelude::*;
use crate::backend::{hades_permute, poseidon_permutation};
use crate::field::{be_value, modulus};

verus! {

/// The state of three buffers after one permutation of the state they hold.
pub open spec fn permuted_state(s: Seq<nat>) -> Seq<nat> {
    poseidon_permutation(seq![s[0] % modulus(), s[1] % modulus(), s[2] % modulus()])
}

/// Applies the Poseidon permutation to the three field elements held in
/// `first`, `second` and `third` (big-endian, each reduced into the field), and
/// writes each result back into the buffer it came from. The buffers are
/// distinct by construction: each is borrowed mutably on its own.
pub fn poseidon_permute(first: &mut [u8; 32], second: &mut [u8; 32], third: &mut [u8; 32])
    ensures
        seq![be_value(final(first)@), be_value(final(second)@), be_value(final(third)@)]
            == permuted_state(seq![be_value(old(first)@), be_value(old(second)@), be_value(old(third)@)]),
        be_value(final(first)@) < modulus(),
        be_value(final(second)@) < modulus(),
        be_value(final(third)@) < modulus(),
{
    let state = [*first, *second, *third];
    let out = hades_permute(state);
    *first = out[0];
    *second = out[1];
    *third = out[2];
}

} // verus!
