//! Point doubling, chord addition, and double-and-add scalar multiplication,
//! checked against the same formulas computed directly with pasta_curves
//! scalar-field arithmetic.
use ecdsa_circuit::circuit::EcdsaChip;
use ecdsa_circuit::field::Fe;
use ecdsa_circuit::layout::configure;
use ecdsa_circuit::points::Pt;
use ecdsa_circuit::region::{Col, RegionCtx, RegionKind};
use ff::{Field, PrimeField};
use pasta_curves::Fq;

fn fq_to_fe(x: &Fq) -> Fe {
    let r = x.to_repr();
    Fe::from_limbs(
        u64::from_le_bytes(r[0..8].try_into().unwrap()),
        u64::from_le_bytes(r[8..16].try_into().unwrap()),
        u64::from_le_bytes(r[16..24].try_into().unwrap()),
        u64::from_le_bytes(r[24..32].try_into().unwrap()),
    )
    .unwrap()
}

/// A sample point satisfying `y^2 = x^3 + 5` over the scalar field.
fn sample_point() -> (Fq, Fq) {
    let mut x = Fq::one();
    loop {
        let rhs = x * x * x + Fq::from(5u64);
        let y = rhs.sqrt();
        if bool::from(y.is_some()) {
            return (x, y.unwrap());
        }
        x += Fq::one();
    }
}

fn double_fq(p: (Fq, Fq)) -> (Fq, Fq) {
    let (x, y) = p;
    let lam = (x * x + x * x + x * x) * (y + y).invert().unwrap();
    let xr = lam * lam - x - x;
    let yr = lam * (x - xr) - y;
    (xr, yr)
}

fn add_fq(p1: (Fq, Fq), p2: (Fq, Fq)) -> (Fq, Fq) {
    let (x1, y1) = p1;
    let (x2, y2) = p2;
    let lam = (y2 - y1) * (x2 - x1).invert().unwrap();
    let xr = lam * lam - x1 - x2;
    let yr = lam * (x1 - xr) - y1;
    (xr, yr)
}

#[test]
fn test_point_double_formula() {
    let chip = EcdsaChip::construct(configure());
    let (x, y) = sample_point();
    let mut region = RegionCtx::new(RegionKind::GeneratorMult, 1);
    let d = chip.point_double(&mut region, Pt { x: fq_to_fe(&x), y: fq_to_fe(&y) });
    let (ex, ey) = double_fq((x, y));
    assert_eq!(d.x, fq_to_fe(&ex));
    assert_eq!(d.y, fq_to_fe(&ey));
    // The result was recorded at row 0 of the two point wires.
    assert_eq!(region.cells.len(), 2);
    assert_eq!(region.cells[0].col, Col::X);
    assert_eq!(region.cells[0].row, 0);
    assert_eq!(region.cells[0].val, d.x);
    assert_eq!(region.cells[1].col, Col::Y);
    assert_eq!(region.cells[1].val, d.y);
}

#[test]
fn test_point_add_formula() {
    let chip = EcdsaChip::construct(configure());
    let (x, y) = sample_point();
    let d = double_fq((x, y));
    let mut region = RegionCtx::new(RegionKind::FinalAddition, 3);
    let sum = chip.point_add(
        &mut region,
        Pt { x: fq_to_fe(&d.0), y: fq_to_fe(&d.1) },
        Pt { x: fq_to_fe(&x), y: fq_to_fe(&y) },
    );
    let (ex, ey) = add_fq(d, (x, y));
    assert_eq!(sum.x, fq_to_fe(&ex));
    assert_eq!(sum.y, fq_to_fe(&ey));
}

#[test]
fn test_scalar_mult_doubles_only() {
    // The smallest scalar with its top bit set is 2^254; its remaining 254
    // bits are zero, so the run is 254 doublings with no addition: operands
    // never reach the chord formula when they coincide.
    let chip = EcdsaChip::construct(configure());
    let k = Fe::from_limbs(0, 0, 0, 0x4000_0000_0000_0000).unwrap();
    let (x, y) = sample_point();
    let mut region = RegionCtx::new(RegionKind::GeneratorMult, 1);
    let got = chip.scalar_mult(&mut region, &k, Pt { x: fq_to_fe(&x), y: fq_to_fe(&y) });
    let mut expected = (x, y);
    for _ in 0..254 {
        expected = double_fq(expected);
    }
    assert_eq!(got.x, fq_to_fe(&expected.0));
    assert_eq!(got.y, fq_to_fe(&expected.1));
    // One coordinate pair was recorded per doubling.
    assert_eq!(region.cells.len(), 2 * 254);
}

#[test]
fn test_scalar_mult_low_bit_adds_base() {
    // For 2^254 + 1 the last step also adds the base point.
    let chip = EcdsaChip::construct(configure());
    let k = Fe::from_limbs(1, 0, 0, 0x4000_0000_0000_0000).unwrap();
    let (x, y) = sample_point();
    let mut region = RegionCtx::new(RegionKind::PublicKeyMult, 2);
    let got = chip.scalar_mult(&mut region, &k, Pt { x: fq_to_fe(&x), y: fq_to_fe(&y) });
    let mut expected = (x, y);
    for _ in 0..253 {
        expected = double_fq(expected);
    }
    expected = double_fq(expected);
    expected = add_fq(expected, (x, y));
    assert_eq!(got.x, fq_to_fe(&expected.0));
    assert_eq!(got.y, fq_to_fe(&expected.1));
}

#[test]
fn test_check_s_nonzero_inverts() {
    let chip = EcdsaChip::construct(configure());
    let s = Fq::from(7u64);
    let w = chip.check_s_nonzero(&fq_to_fe(&s));
    assert_eq!(w, fq_to_fe(&s.invert().unwrap()));
}
