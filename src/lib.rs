//! A bridge between fixed-size foreign buffers and the 252-bit STARK prime field.
//!
//! Field elements cross the boundary as four 64-bit words in little-endian word
//! order, or as 32 bytes. Arithmetic is done by the `lambdaworks-math` field, the
//! sponge permutation by `starknet-crypto`; this crate converts, validates and
//! chooses, and states what every operation returns.
pub mod field;
mod backend;
pub mod felt;
pub mod bitwise;
pub mod numeral;
pub mod permute;
pub mod bridge;
pub mod laws;

pub use bridge::{
    add, bits, cmp, div_rem, felt_and, felt_or, felt_pow, felt_pow_uint, felt_shl, felt_shr,
    felt_sqrt, felt_xor, from, from_be_bytes, from_dec_str, from_hex, from_le_bytes, lw_div, mul,
    one, signed_felt_max_value, sub, to_be_bytes, to_hex_string, to_le_bytes, to_signed_felt, zero,
};
pub use felt::{felt_to_limbs, limbs_to_felt, Felt, FeltError};
pub use permute::poseidon_permute;
