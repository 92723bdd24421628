//! Witness synthesis and the engine-side gate check.
use ecdsa_circuit::bridge::base_to_scalar;
use ecdsa_circuit::circuit::{EcdsaCircuit, SynthesisError};
use ecdsa_circuit::field::Fe;
use ecdsa_circuit::layout::{configure, verify_assignment};
use ecdsa_circuit::region::{Assignment, CellAssign, Col, RegionCtx, RegionKind};
use ff::{Field, PrimeField};
use group::{Curve, Group};
use pasta_curves::arithmetic::CurveAffine;
use pasta_curves::{pallas, Fp, Fq};
use rand::rngs::OsRng;

fn fq_to_fe(x: &Fq) -> Fe {
    let r = x.to_repr();
    Fe::from_limbs(
        u64::from_le_bytes(r[0..8].try_into().unwrap()),
        u64::from_le_bytes(r[8..16].try_into().unwrap()),
        u64::from_le_bytes(r[16..24].try_into().unwrap()),
        u64::from_le_bytes(r[24..32].try_into().unwrap()),
    )
    .unwrap()
}

#[test]
fn test_configure_shape() {
    let config = configure();
    assert_eq!(config.gate.len(), 3);
    assert_eq!(config.equality, vec![Col::X, Col::Y, Col::R, Col::S]);
    assert!(config.instance_equality);
}

#[test]
fn test_synthesize_missing_inputs() {
    let circuit = EcdsaCircuit { public_key: None, message_hash: None, signature: None };
    assert!(matches!(circuit.synthesize(configure()), Err(SynthesisError::Synthesis)));
    let partial = EcdsaCircuit {
        public_key: Some(([0u8; 32], [0u8; 32])),
        message_hash: Some(Fe::one()),
        signature: None,
    };
    assert!(matches!(partial.synthesize(configure()), Err(SynthesisError::Synthesis)));
    let no_hash = EcdsaCircuit {
        public_key: Some(([0u8; 32], [0u8; 32])),
        message_hash: None,
        signature: Some((Fe::one(), Fe::one())),
    };
    assert!(matches!(no_hash.synthesize(configure()), Err(SynthesisError::Synthesis)));
}

#[test]
fn test_without_witnesses_clears_inputs() {
    let circuit = EcdsaCircuit {
        public_key: Some(([1u8; 32], [2u8; 32])),
        message_hash: Some(Fe::one()),
        signature: Some((Fe::one(), Fe::one())),
    };
    let blank = circuit.without_witnesses();
    assert!(blank.public_key.is_none());
    assert!(blank.message_hash.is_none());
    assert!(blank.signature.is_none());
}

#[test]
fn test_invalid_signature() {
    // A signature with a uniformly random `s` must be rejected: the curve
    // and `r = x` identities fail for the synthesized row.
    let mut rng = OsRng;
    let private_key = pallas::Scalar::random(&mut rng);
    let public_key = (pallas::Point::generator() * private_key).to_affine();
    let msg_hash = pallas::Scalar::random(&mut rng);
    let k = pallas::Scalar::random(&mut rng);
    let r_point = (pallas::Point::generator() * k).to_affine();
    let coords = r_point.coordinates().unwrap();
    // The coordinate field's modulus is below the scalar field's, so the
    // canonical x-coordinate bytes denote a canonical scalar as well.
    let r = Fq::from_repr(coords.x().to_repr()).unwrap();
    let s = pallas::Scalar::random(&mut rng);

    let pk_coords = public_key.coordinates().unwrap();
    let circuit = EcdsaCircuit {
        public_key: Some((pk_coords.x().to_repr(), pk_coords.y().to_repr())),
        message_hash: Some(fq_to_fe(&msg_hash)),
        signature: Some((fq_to_fe(&r), fq_to_fe(&s))),
    };
    let plan = circuit.synthesize(configure()).unwrap();
    assert_eq!(plan.regions.len(), 4);
    assert!(!verify_assignment(&plan, &fq_to_fe(&msg_hash)));
}

/// A sample point satisfying `y^2 = x^3 + 5` over the scalar field.
fn sample_point() -> (Fq, Fq) {
    let mut x = Fq::one();
    loop {
        let rhs = x * x * x + Fq::from(5u64);
        let y = rhs.sqrt();
        if bool::from(y.is_some()) {
            return (x, y.unwrap());
        }
        x += Fq::one();
    }
}

fn row_cells(x: Fq, y: Fq, r: Fq, s: Fq, w: Fq) -> RegionCtx {
    let mut region = RegionCtx::new(RegionKind::MainAssignments, 0);
    region.assign_at(Col::X, 0, fq_to_fe(&x));
    region.assign_at(Col::Y, 0, fq_to_fe(&y));
    region.assign_at(Col::R, 0, fq_to_fe(&r));
    region.assign_at(Col::S, 0, fq_to_fe(&s));
    region.assign_at(Col::W, 0, fq_to_fe(&w));
    region
}

fn single_row_assignment(region: RegionCtx) -> Assignment {
    Assignment { regions: vec![region], enabled: vec![(0, 0)] }
}

#[test]
fn test_synthesize_main_region_cells() {
    let pk_x = Fp::from(123u64);
    let pk_y = Fp::from(456u64);
    let hash = Fq::from(9u64);
    let r = Fq::from(11u64);
    let s = Fq::from(7u64);
    let circuit = EcdsaCircuit {
        public_key: Some((pk_x.to_repr(), pk_y.to_repr())),
        message_hash: Some(fq_to_fe(&hash)),
        signature: Some((fq_to_fe(&r), fq_to_fe(&s))),
    };
    let plan = circuit.synthesize(configure()).unwrap();
    assert_eq!(plan.enabled, vec![(0, 0)]);
    assert_eq!(plan.regions.len(), 4);
    assert_eq!(plan.regions[0].kind, RegionKind::MainAssignments);
    assert_eq!(plan.regions[0].kind.label(), "main assignments");
    assert_eq!(plan.regions[1].kind, RegionKind::GeneratorMult);
    assert_eq!(plan.regions[1].kind.label(), "g_mult");
    assert_eq!(plan.regions[2].kind, RegionKind::PublicKeyMult);
    assert_eq!(plan.regions[2].kind.label(), "pk_mult");
    assert_eq!(plan.regions[3].kind, RegionKind::FinalAddition);
    assert_eq!(plan.regions[3].kind.label(), "final addition");
    let cells = &plan.regions[0].cells;
    assert_eq!(cells.len(), 9);
    let w = s.invert().unwrap();
    assert_eq!((cells[0].col, cells[0].row), (Col::X, 0));
    assert_eq!(cells[0].val, base_to_scalar(&pk_x.to_repr()));
    assert_eq!((cells[1].col, cells[1].row), (Col::Y, 0));
    assert_eq!(cells[1].val, base_to_scalar(&pk_y.to_repr()));
    assert_eq!((cells[2].col, cells[2].row), (Col::R, 0));
    assert_eq!(cells[2].val, fq_to_fe(&r));
    assert_eq!((cells[3].col, cells[3].row), (Col::S, 0));
    assert_eq!(cells[3].val, fq_to_fe(&s));
    assert_eq!((cells[4].col, cells[4].row), (Col::W, 0));
    assert_eq!(cells[4].val, fq_to_fe(&w));
    assert_eq!((cells[5].col, cells[5].row), (Col::X, 1));
    assert_eq!(cells[5].val, fq_to_fe(&(hash * w)));
    assert_eq!((cells[6].col, cells[6].row), (Col::Y, 1));
    assert_eq!(cells[6].val, fq_to_fe(&(r * w)));
    // The generator's bridged coordinates: the affine generator is (-1, 2)
    // over the coordinate field.
    assert_eq!((cells[7].col, cells[7].row), (Col::X, 2));
    assert_eq!(cells[7].val, base_to_scalar(&(-Fp::one()).to_repr()));
    assert_eq!((cells[8].col, cells[8].row), (Col::Y, 2));
    assert_eq!(cells[8].val, base_to_scalar(&Fp::from(2u64).to_repr()));
}

#[test]
fn test_gate_accepts_satisfying_row() {
    // A row whose point lies on the curve, whose `r` matches the x wire, and
    // whose `w` inverts `s` passes all three identities.
    let (x, y) = sample_point();
    let s = Fq::from(7u64);
    let plan = single_row_assignment(row_cells(x, y, x, s, s.invert().unwrap()));
    assert!(verify_assignment(&plan, &Fe::one()));
}

#[test]
fn test_gate_rejects_bad_inverse_witness() {
    let (x, y) = sample_point();
    let s = Fq::from(7u64);
    let plan = single_row_assignment(row_cells(x, y, x, s, Fq::from(3u64)));
    assert!(!verify_assignment(&plan, &Fe::one()));
}

#[test]
fn test_gate_rejects_off_curve_point() {
    let (x, y) = sample_point();
    let s = Fq::from(7u64);
    let plan = single_row_assignment(row_cells(x, y + Fq::one(), x, s, s.invert().unwrap()));
    assert!(!verify_assignment(&plan, &Fe::one()));
}

#[test]
fn test_gate_rejects_mismatched_r() {
    let (x, y) = sample_point();
    let s = Fq::from(7u64);
    let plan = single_row_assignment(row_cells(x, y, x + Fq::one(), s, s.invert().unwrap()));
    assert!(!verify_assignment(&plan, &Fe::one()));
}

#[test]
fn test_gate_rejects_unassigned_wire() {
    let mut region = RegionCtx::new(RegionKind::MainAssignments, 0);
    let (x, y) = sample_point();
    region.assign_at(Col::X, 0, fq_to_fe(&x));
    region.assign_at(Col::Y, 0, fq_to_fe(&y));
    let plan = single_row_assignment(region);
    assert!(!verify_assignment(&plan, &Fe::one()));
}

#[test]
fn test_gate_last_assignment_wins() {
    let (x, y) = sample_point();
    let s = Fq::from(7u64);
    let mut region = row_cells(x, y, x + Fq::one(), s, s.invert().unwrap());
    // Overwrite the mismatched `r` cell; the latest assignment is the one
    // the engine reads.
    region.assign_at(Col::R, 0, fq_to_fe(&x));
    let plan = single_row_assignment(region);
    assert!(verify_assignment(&plan, &Fe::one()));
    let cell = CellAssign { col: Col::R, row: 0, val: fq_to_fe(&x) };
    assert_eq!(plan.regions[0].cells.last(), Some(&cell));
}
