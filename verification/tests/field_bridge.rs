//! Field element construction and the coordinate-field bridge, checked
//! against pasta_curves' own scalar-field arithmetic.
use ecdsa_circuit::field::{curve_scalar, Fe, Q_LIMB_0, Q_LIMB_1, Q_LIMB_2, Q_LIMB_3};
use ecdsa_circuit::bridge::base_to_scalar;
use ff::PrimeField;
use pasta_curves::Fq;

fn fq_to_fe(x: &Fq) -> Fe {
    let r = x.to_repr();
    Fe::from_limbs(
        u64::from_le_bytes(r[0..8].try_into().unwrap()),
        u64::from_le_bytes(r[8..16].try_into().unwrap()),
        u64::from_le_bytes(r[16..24].try_into().unwrap()),
        u64::from_le_bytes(r[24..32].try_into().unwrap()),
    )
    .unwrap()
}

#[test]
fn test_from_limbs_rejects_modulus() {
    assert!(Fe::from_limbs(Q_LIMB_0, Q_LIMB_1, Q_LIMB_2, Q_LIMB_3).is_none());
    assert!(Fe::from_limbs(0, 0, 0, 0xffff_ffff_ffff_ffff).is_none());
    let below = Fe::from_limbs(Q_LIMB_0 - 1, Q_LIMB_1, Q_LIMB_2, Q_LIMB_3).unwrap();
    assert_eq!(below.limbs(), (Q_LIMB_0 - 1, Q_LIMB_1, Q_LIMB_2, Q_LIMB_3));
}

#[test]
fn test_curve_scalar_small_value() {
    let five = curve_scalar(5);
    assert_eq!(five.limbs(), (5, 0, 0, 0));
    assert_eq!(five, fq_to_fe(&Fq::from(5u64)));
}

#[test]
fn test_is_odd_and_shr1() {
    let v = Fe::from_limbs(0b1011, 0, 0, 0).unwrap();
    assert!(v.is_odd());
    let h = v.shr1();
    assert_eq!(h.limbs(), (0b101, 0, 0, 0));
    assert!(!Fe::zero().is_odd());
    // Halving crosses the limb boundary: 2^64 / 2 == 2^63.
    let w = Fe::from_limbs(0, 1, 0, 0).unwrap();
    assert_eq!(w.shr1().limbs(), (0x8000_0000_0000_0000, 0, 0, 0));
}

#[test]
fn test_base_to_scalar_zero() {
    // An all-zero representation reinterprets to the zero scalar.
    let z = base_to_scalar(&[0u8; 32]);
    assert_eq!(z, Fe::zero());
}

#[test]
fn test_base_to_scalar_one_is_bit_reversed() {
    // The template's fold treats the first-extracted (least significant) bit
    // as most significant, so the value 1 lands on 2^255 reduced mod q.
    let mut repr = [0u8; 32];
    repr[0] = 1;
    let got = base_to_scalar(&repr);
    let mut expected = Fq::one();
    for _ in 0..255 {
        expected = expected + expected;
    }
    assert_eq!(got, fq_to_fe(&expected));
}

#[test]
fn test_base_to_scalar_matches_field_fold() {
    // Cross-check the whole fold against the same accumulation done directly
    // with pasta_curves arithmetic.
    let mut repr = [0u8; 32];
    for (i, byte) in repr.iter_mut().enumerate() {
        *byte = (i as u8).wrapping_mul(37).wrapping_add(11);
    }
    let bits: Vec<bool> = repr
        .iter()
        .flat_map(|byte| (0..8).map(move |i| (byte >> i) & 1 == 1))
        .collect();
    let mut acc = Fq::zero();
    for bit in bits.iter() {
        acc = acc + acc;
        if *bit {
            acc = acc + Fq::one();
        }
    }
    assert_eq!(base_to_scalar(&repr), fq_to_fe(&acc));
}
