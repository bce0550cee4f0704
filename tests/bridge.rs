use felt_bridge::{Felt, FeltError};

const P: [u64; 4] = [1, 0, 0, 0x0800_0000_0000_0011];
const P_MINUS_ONE: [u64; 4] = [0, 0, 0, 0x0800_0000_0000_0011];
const SIGNED_MAX: [u64; 4] = [0, 0, 0x8000_0000_0000_0000, 0x0400_0000_0000_0008];
const HALF_P_DEC: &str =
    "1809251394333065606848661391547535052811553607665798349986546028067936010240";
const P_DEC: &str =
    "3618502788666131213697322783095070105623107215331596699973092056135872020481";

fn limbs(v: u64) -> [u64; 4] {
    let mut r = [0u64; 4];
    felt_bridge::from(&mut r, v);
    r
}

#[test]
fn from_writes_low_word() {
    assert_eq!(limbs(5), [5, 0, 0, 0]);
    assert_eq!(limbs(u64::MAX), [u64::MAX, 0, 0, 0]);
}

#[test]
fn zero_one_and_signed_max() {
    let mut r = [9u64; 4];
    felt_bridge::zero(&mut r);
    assert_eq!(r, [0, 0, 0, 0]);
    felt_bridge::one(&mut r);
    assert_eq!(r, [1, 0, 0, 0]);
    felt_bridge::signed_felt_max_value(&mut r);
    assert_eq!(r, SIGNED_MAX);
}

#[test]
fn decoding_reduces_modulo_p() {
    let mut r = [0u64; 4];
    felt_bridge::add(&P, &limbs(0), &mut r);
    assert_eq!(r, [0, 0, 0, 0]);
    let p_plus_one = [2, 0, 0, 0x0800_0000_0000_0011];
    felt_bridge::add(&p_plus_one, &limbs(0), &mut r);
    assert_eq!(r, [1, 0, 0, 0]);
    assert_eq!(felt_bridge::cmp(&P, &limbs(0)), 0);
    felt_bridge::add(&[u64::MAX; 4], &limbs(0), &mut r);
    assert_eq!(r, [0xffff_ffff_ffff_ffe0, u64::MAX, u64::MAX, 0x07ff_ffff_ffff_fdf0]);
}

#[test]
fn limbs_round_trip() {
    for x in [limbs(0), limbs(7), SIGNED_MAX, P_MINUS_ONE, [1, 2, 3, 4]] {
        let f = felt_bridge::limbs_to_felt(&x);
        let mut out = [0u64; 4];
        felt_bridge::felt_to_limbs(f, &mut out);
        assert_eq!(out, x);
    }
}

#[test]
fn bytes_round_trip_both_orders() {
    for x in [limbs(0), limbs(0x0102), SIGNED_MAX, P_MINUS_ONE, [1, 2, 3, 4]] {
        let mut be = [0u8; 32];
        let mut le = [0u8; 32];
        felt_bridge::to_be_bytes(&mut be, &x);
        felt_bridge::to_le_bytes(&mut le, &x);
        let mut back = [0u64; 4];
        felt_bridge::from_be_bytes(&mut back, &be);
        assert_eq!(back, x);
        felt_bridge::from_le_bytes(&mut back, &le);
        assert_eq!(back, x);
    }
}

#[test]
fn bytes_layout() {
    let mut be = [0u8; 32];
    let mut le = [0u8; 32];
    felt_bridge::to_be_bytes(&mut be, &limbs(0x0102));
    felt_bridge::to_le_bytes(&mut le, &limbs(0x0102));
    let mut want_be = [0u8; 32];
    want_be[30] = 1;
    want_be[31] = 2;
    let mut want_le = [0u8; 32];
    want_le[0] = 2;
    want_le[1] = 1;
    assert_eq!(be, want_be);
    assert_eq!(le, want_le);
}

#[test]
fn bytes_above_p_are_reduced() {
    let all = [0xffu8; 32];
    let mut r = [0u64; 4];
    felt_bridge::from_be_bytes(&mut r, &all);
    assert_eq!(felt_bridge::cmp(&r, &P_MINUS_ONE), -1);
    let mut be = [0u8; 32];
    felt_bridge::to_be_bytes(&mut be, &P);
    assert_eq!(be, [0u8; 32]);
}

#[test]
fn add_sub_mul_exact() {
    let mut r = [0u64; 4];
    felt_bridge::add(&P_MINUS_ONE, &limbs(2), &mut r);
    assert_eq!(r, limbs(1));
    felt_bridge::sub(&limbs(3), &limbs(5), &mut r);
    let mut want = [0u64; 4];
    felt_bridge::from_dec_str(&mut want, "-2").unwrap();
    assert_eq!(r, want);
    assert_eq!(r, [0xffff_ffff_ffff_ffff, 0xffff_ffff_ffff_ffff, 0xffff_ffff_ffff_ffff, 0x0800_0000_0000_0010]);
    felt_bridge::mul(&limbs(6), &limbs(7), &mut r);
    assert_eq!(r, limbs(42));
    felt_bridge::mul(&P_MINUS_ONE, &P_MINUS_ONE, &mut r);
    assert_eq!(r, limbs(1));
}

#[test]
fn field_axioms_on_values() {
    let vals = [limbs(0), limbs(1), limbs(123456789), SIGNED_MAX, P_MINUS_ONE, [5, 6, 7, 8]];
    let mut zero = [0u64; 4];
    felt_bridge::zero(&mut zero);
    let mut one = [0u64; 4];
    felt_bridge::one(&mut one);
    for a in vals {
        let mut x = [0u64; 4];
        let mut y = [0u64; 4];
        felt_bridge::add(&a, &zero, &mut x);
        felt_bridge::felt_to_limbs(felt_bridge::limbs_to_felt(&a), &mut y);
        assert_eq!(x, y);
        felt_bridge::mul(&a, &one, &mut x);
        assert_eq!(x, y);
        for b in vals {
            felt_bridge::add(&a, &b, &mut x);
            felt_bridge::add(&b, &a, &mut y);
            assert_eq!(x, y);
            for c in vals {
                let mut bc = [0u64; 4];
                let mut ab = [0u64; 4];
                felt_bridge::add(&b, &c, &mut bc);
                felt_bridge::add(&a, &bc, &mut x);
                felt_bridge::add(&a, &b, &mut ab);
                felt_bridge::add(&ab, &c, &mut y);
                assert_eq!(x, y);
            }
            if felt_bridge::cmp(&b, &zero) != 0 {
                let mut q = [0u64; 4];
                felt_bridge::lw_div(&a, &b, &mut q).unwrap();
                felt_bridge::mul(&q, &b, &mut x);
                felt_bridge::felt_to_limbs(felt_bridge::limbs_to_felt(&a), &mut y);
                assert_eq!(x, y);
            }
        }
    }
}

#[test]
fn div_exact() {
    let mut r = [0u64; 4];
    felt_bridge::lw_div(&limbs(42), &limbs(6), &mut r).unwrap();
    assert_eq!(r, limbs(7));
    felt_bridge::lw_div(&limbs(1), &limbs(2), &mut r).unwrap();
    assert_eq!(r, [1, 0, 0x8000_0000_0000_0000, 0x0400_0000_0000_0008]);
}

#[test]
fn division_by_zero_is_reported() {
    let mut r = [7u64; 4];
    assert_eq!(felt_bridge::lw_div(&limbs(5), &limbs(0), &mut r), Err(FeltError::DivisionByZero));
    assert_eq!(r, [7u64; 4]);
    assert_eq!(felt_bridge::lw_div(&limbs(5), &P, &mut r), Err(FeltError::DivisionByZero));
    let mut q = [1u64; 4];
    let mut m = [2u64; 4];
    assert_eq!(felt_bridge::div_rem(&limbs(5), &limbs(0), &mut q, &mut m), Err(FeltError::DivisionByZero));
    assert_eq!(q, [1u64; 4]);
    assert_eq!(m, [2u64; 4]);
}

#[test]
fn div_rem_of_representatives() {
    let mut q = [0u64; 4];
    let mut m = [0u64; 4];
    felt_bridge::div_rem(&limbs(17), &limbs(5), &mut q, &mut m).unwrap();
    assert_eq!(q, limbs(3));
    assert_eq!(m, limbs(2));
    felt_bridge::div_rem(&P_MINUS_ONE, &limbs(2), &mut q, &mut m).unwrap();
    assert_eq!(q, SIGNED_MAX);
    assert_eq!(m, limbs(0));
}

#[test]
fn pow_small_and_field_exponent() {
    let mut r = [0u64; 4];
    felt_bridge::felt_pow_uint(&limbs(2), 10, &mut r);
    assert_eq!(r, limbs(1024));
    felt_bridge::felt_pow_uint(&limbs(0), 0, &mut r);
    assert_eq!(r, limbs(1));
    felt_bridge::felt_pow_uint(&limbs(9), 0, &mut r);
    assert_eq!(r, limbs(1));
    felt_bridge::felt_pow(&limbs(3), &limbs(4), &mut r);
    assert_eq!(r, limbs(81));
    felt_bridge::felt_pow(&limbs(0), &limbs(0), &mut r);
    assert_eq!(r, limbs(1));
    felt_bridge::felt_pow(&limbs(5), &P_MINUS_ONE, &mut r);
    assert_eq!(r, limbs(1));
}

#[test]
fn sqrt_picks_smaller_root() {
    let mut r = [0u64; 4];
    felt_bridge::felt_sqrt(&limbs(4), &mut r).unwrap();
    assert_eq!(r, limbs(2));
    felt_bridge::felt_sqrt(&limbs(0), &mut r).unwrap();
    assert_eq!(r, limbs(0));
    felt_bridge::felt_sqrt(&limbs(1), &mut r).unwrap();
    assert_eq!(r, limbs(1));
    let mut big_root = [0u64; 4];
    felt_bridge::sub(&limbs(0), &limbs(12345), &mut big_root);
    let mut sq = [0u64; 4];
    felt_bridge::mul(&big_root, &big_root, &mut sq);
    felt_bridge::felt_sqrt(&sq, &mut r).unwrap();
    assert_eq!(r, limbs(12345));
}

#[test]
fn sqrt_of_non_residue_fails() {
    let mut r = [3u64; 4];
    assert_eq!(felt_bridge::felt_sqrt(&limbs(3), &mut r), Err(FeltError::DomainError));
    assert_eq!(r, [3u64; 4]);
}

#[test]
fn cmp_three_way() {
    assert_eq!(felt_bridge::cmp(&limbs(1), &limbs(2)), -1);
    assert_eq!(felt_bridge::cmp(&limbs(2), &limbs(2)), 0);
    assert_eq!(felt_bridge::cmp(&SIGNED_MAX, &limbs(2)), 1);
    assert_eq!(felt_bridge::cmp(&[0, 1, 0, 0], &[u64::MAX, 0, 0, 0]), 1);
}

#[test]
fn bitwise_on_representatives() {
    let mut r = [0u64; 4];
    felt_bridge::felt_and(&limbs(0b1100), &limbs(0b1010), &mut r);
    assert_eq!(r, limbs(0b1000));
    felt_bridge::felt_or(&limbs(0b1100), &limbs(0b1010), &mut r);
    assert_eq!(r, limbs(0b1110));
    felt_bridge::felt_xor(&limbs(0b1100), &limbs(0b1010), &mut r);
    assert_eq!(r, limbs(0b0110));
    // 2^251 | (p - 1) stays below p; (2^251 - 1) | 2^251 = 2^252 - 1 is reduced
    let top = [0, 0, 0, 0x0800_0000_0000_0000];
    felt_bridge::felt_or(&top, &P_MINUS_ONE, &mut r);
    assert_eq!(r, P_MINUS_ONE);
    let low = [u64::MAX, u64::MAX, u64::MAX, 0x07ff_ffff_ffff_ffff];
    felt_bridge::felt_or(&low, &top, &mut r);
    assert_eq!(r, [u64::MAX - 1, u64::MAX, u64::MAX, 0x07ff_ffff_ffff_ffee]);
}

#[test]
fn shifts_and_bits() {
    let mut r = [0u64; 4];
    felt_bridge::felt_shl(&limbs(1), 4, &mut r);
    assert_eq!(r, limbs(16));
    felt_bridge::felt_shl(&limbs(1), 64, &mut r);
    assert_eq!(r, [0, 1, 0, 0]);
    felt_bridge::felt_shl(&limbs(1), 256, &mut r);
    assert_eq!(r, limbs(0));
    felt_bridge::felt_shl(&limbs(1), 255, &mut r);
    let mut two_255 = [0u64; 4];
    felt_bridge::felt_pow_uint(&limbs(2), 255, &mut two_255);
    assert_eq!(r, two_255);
    felt_bridge::felt_shr(&limbs(256), 4, &mut r);
    assert_eq!(r, limbs(16));
    felt_bridge::felt_shr(&[0, 1, 0, 0], 64, &mut r);
    assert_eq!(r, limbs(1));
    felt_bridge::felt_shr(&P_MINUS_ONE, 300, &mut r);
    assert_eq!(r, limbs(0));
    assert_eq!(felt_bridge::bits(&limbs(0)), 0);
    assert_eq!(felt_bridge::bits(&limbs(255)), 8);
    assert_eq!(felt_bridge::bits(&P_MINUS_ONE), 252);
    assert_eq!(felt_bridge::bits(&P), 0);
}

#[test]
fn hex_parsing() {
    let mut r = [0u64; 4];
    felt_bridge::from_hex(&mut r, "0x1a").unwrap();
    assert_eq!(r, limbs(26));
    felt_bridge::from_hex(&mut r, "FF").unwrap();
    assert_eq!(r, limbs(255));
    felt_bridge::from_hex(&mut r, "0x800000000000011000000000000000000000000000000000000000000000000").unwrap();
    assert_eq!(r, P_MINUS_ONE);
    felt_bridge::from_hex(&mut r, "0x800000000000011000000000000000000000000000000000000000000000001").unwrap();
    assert_eq!(r, limbs(0));
    let mut keep = [4u64; 4];
    assert_eq!(felt_bridge::from_hex(&mut keep, "0x800000000000011000000000000000000000000000000000000000000000002"), Err(FeltError::ParseError));
    assert_eq!(felt_bridge::from_hex(&mut keep, "0xzz"), Err(FeltError::ParseError));
    assert_eq!(felt_bridge::from_hex(&mut keep, ""), Err(FeltError::ParseError));
    assert_eq!(felt_bridge::from_hex(&mut keep, "0x"), Err(FeltError::ParseError));
    assert_eq!(keep, [4u64; 4]);
}

#[test]
fn decimal_parsing() {
    let mut r = [0u64; 4];
    felt_bridge::from_dec_str(&mut r, "12345").unwrap();
    assert_eq!(r, limbs(12345));
    felt_bridge::from_dec_str(&mut r, "-1").unwrap();
    assert_eq!(r, P_MINUS_ONE);
    felt_bridge::from_dec_str(&mut r, P_DEC).unwrap();
    assert_eq!(r, limbs(0));
    let long_zeros = format!("{}7", "0".repeat(100));
    felt_bridge::from_dec_str(&mut r, &long_zeros).unwrap();
    assert_eq!(r, limbs(7));
    felt_bridge::from_dec_str(&mut r, "-0").unwrap();
    assert_eq!(r, limbs(0));
    let mut keep = [8u64; 4];
    for bad in ["", "-", "12a", "+5", "--1", " 1", "1".repeat(78).as_str()] {
        assert_eq!(felt_bridge::from_dec_str(&mut keep, bad), Err(FeltError::ParseError));
    }
    assert_eq!(keep, [8u64; 4]);
    let max_77 = "9".repeat(77);
    assert!(felt_bridge::from_dec_str(&mut r, &max_77).is_ok());
}

#[test]
fn hex_text() {
    assert_eq!(felt_bridge::to_hex_string(&limbs(255)), "0xff");
    assert_eq!(felt_bridge::to_hex_string(&limbs(0)), "0x0");
    assert_eq!(felt_bridge::to_hex_string(&[0, 1, 0, 0]), "0x10000000000000000");
    assert_eq!(
        felt_bridge::to_hex_string(&P_MINUS_ONE),
        "0x800000000000011000000000000000000000000000000000000000000000000"
    );
}

#[test]
fn signed_residue() {
    assert_eq!(felt_bridge::to_signed_felt(&limbs(0)), "0");
    assert_eq!(felt_bridge::to_signed_felt(&SIGNED_MAX), HALF_P_DEC);
    let mut above = [0u64; 4];
    felt_bridge::add(&SIGNED_MAX, &limbs(1), &mut above);
    assert_eq!(felt_bridge::to_signed_felt(&above), format!("-{}", HALF_P_DEC));
    assert_eq!(felt_bridge::to_signed_felt(&P_MINUS_ONE), "-1");
}

#[test]
fn scenario_negative_one() {
    let mut r = [0u64; 4];
    felt_bridge::from_dec_str(&mut r, "-1").unwrap();
    assert_eq!(felt_bridge::to_signed_felt(&r), "-1");
}

#[test]
fn scenario_five_minus_three() {
    let mut five = [0u64; 4];
    let mut three = [0u64; 4];
    felt_bridge::from(&mut five, 5);
    felt_bridge::from(&mut three, 3);
    let mut r = [0u64; 4];
    felt_bridge::sub(&five, &three, &mut r);
    assert_eq!(felt_bridge::to_signed_felt(&r), "2");
}

#[test]
fn scenario_bits_of_zero() {
    let mut z = [0u64; 4];
    felt_bridge::from(&mut z, 0);
    assert_eq!(felt_bridge::bits(&z), 0);
}

#[test]
fn felt_methods() {
    let a = Felt::from_u64(10);
    let b = Felt::from_u64(4);
    assert_eq!(a.sub(b).cmp(&Felt::from_u64(6)), 0);
    assert_eq!(b.sub(a).to_signed(), "-6");
    assert_eq!(a.neg().add(a).cmp(&Felt::zero()), 0);
    let (q, m) = a.div_rem(b).unwrap();
    assert_eq!(q.to_signed(), "2");
    assert_eq!(m.to_signed(), "2");
    assert_eq!(Felt::from_dec_str("-7").unwrap().to_hex_string(), "0x800000000000010fffffffffffffffffffffffffffffffffffffffffffffffa");
    assert_eq!(Felt::from_hex("0x10").unwrap().to_signed(), "16");
    let be = Felt::from_u64(258).to_bytes_be();
    assert_eq!(Felt::from_bytes_be(&be).to_signed(), "258");
    let le = Felt::from_u64(258).to_bytes_le();
    assert_eq!(Felt::from_bytes_le(&le).to_signed(), "258");
    assert_eq!(Felt::signed_max_value().to_signed(), HALF_P_DEC);
}

fn word(v: u64) -> [u8; 32] {
    let mut b = [0u8; 32];
    b[24..].copy_from_slice(&v.to_be_bytes());
    b
}

#[test]
fn permutation_is_deterministic_and_not_identity() {
    let (mut a0, mut a1, mut a2) = (word(1), word(2), word(3));
    let (mut b0, mut b1, mut b2) = (word(1), word(2), word(3));
    felt_bridge::poseidon_permute(&mut a0, &mut a1, &mut a2);
    felt_bridge::poseidon_permute(&mut b0, &mut b1, &mut b2);
    assert_eq!((a0, a1, a2), (b0, b1, b2));
    assert_ne!((a0, a1, a2), (word(1), word(2), word(3)));
    assert_ne!(a0, a1);
    assert_ne!(a1, a2);
}

#[test]
fn permutation_reads_each_slot() {
    let (mut a0, mut a1, mut a2) = (word(1), word(2), word(3));
    let (mut b0, mut b1, mut b2) = (word(3), word(2), word(1));
    felt_bridge::poseidon_permute(&mut a0, &mut a1, &mut a2);
    felt_bridge::poseidon_permute(&mut b0, &mut b1, &mut b2);
    assert_ne!((a0, a1, a2), (b0, b1, b2));
}
