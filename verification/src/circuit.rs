//! The chip and the circuit: witness synthesis for ECDSA verification.
//!
//! Synthesis binds the public key, signature, and message hash, derives
//! `u1 = hash / s` and `u2 = r / s`, multiplies the generator by `u1` and the
//! public key by `u2` with double-and-add, and adds the two products, each
//! phase in its own named region.  The result of the final addition is
//! recorded but never constrained: only the main region's first row is
//! covered by the `ecdsa_verify` identities.
use vstd::prelude::*;
use vstd::arithmetic::power2::pow2;
use vstd::arithmetic::power2::lemma_pow2_adds;
use vstd::arithmetic::power2::lemma_pow2_pos;
use vstd::arithmetic::power2::lemma2_to64;
use vstd::arithmetic::div_mod::lemma_div_denominator;
use vstd::arithmetic::div_mod::lemma_div_is_ordered;
use vstd::arithmetic::div_mod::lemma_div_by_self;
use vstd::arithmetic::div_mod::lemma_multiply_divide_lt;
use crate::field::Fe;
use crate::field::mul_q;
use crate::field::inv_q;
use crate::field::q_modulus;
use crate::field::two_pow_254;
use crate::field::lemma_q_facts;
use crate::field::lemma_inv_q_unique;
use crate::field::fe_mul;
use crate::field::fe_add;
use crate::field::fe_sub;
use crate::field::fe_invert;
use crate::points::Pt;
use crate::points::spec_double;
use crate::points::spec_add;
use crate::points::bit_of;
use crate::points::smul_acc;
use crate::points::smul_defined;
use crate::points::lemma_smul_defined_prefix;
use crate::points::lemma_double_denominator_nonzero;
use crate::points::lemma_sub_nonzero;
use crate::bridge::base_to_scalar;
use crate::bridge::bits_reversed_value;
use crate::region::RegionCtx;
use crate::region::RegionKind;
use crate::region::Col;
use crate::region::CellAssign;
use crate::region::cell_value;
use crate::region::Assignment;
use crate::layout::EcdsaConfig;
use group::prime::PrimeCurveAffine;
use pasta_curves::arithmetic::CurveAffine;
use ff::PrimeField;

verus! {

/// The canonical little-endian representation of the generator's
/// x-coordinate, which is `-1` in the coordinate field.
pub open spec fn gen_x_repr() -> Seq<u8> {
    seq![
        0x00u8, 0x00, 0x00, 0x00, 0xed, 0x30, 0x2d, 0x99, 0x1b, 0xf9, 0x4c, 0x09, 0xfc, 0x98,
        0x46, 0x22, 0x00, 0x00, 0x00, 0x00, 0x00, 0x00, 0x00, 0x00, 0x00, 0x00, 0x00, 0x00, 0x00,
        0x00, 0x00, 0x40,
    ]
}

/// The canonical little-endian representation of the generator's
/// y-coordinate, which is `2` in the coordinate field.
pub open spec fn gen_y_repr() -> Seq<u8> {
    seq![
        0x02u8, 0x00, 0x00, 0x00, 0x00, 0x00, 0x00, 0x00, 0x00, 0x00, 0x00, 0x00, 0x00, 0x00,
        0x00, 0x00, 0x00, 0x00, 0x00, 0x00, 0x00, 0x00, 0x00, 0x00, 0x00, 0x00, 0x00, 0x00, 0x00,
        0x00, 0x00, 0x00,
    ]
}

/// Relies on the Pallas generator being the affine point `(-1, 2)`: returns
/// the canonical little-endian representations of its two coordinates.
#[verifier::external_body]
fn pallas_generator_repr() -> (r: ([u8; 32], [u8; 32]))
    ensures
        r.0@ == gen_x_repr(),
        r.1@ == gen_y_repr(),
{
    let g = pasta_curves::pallas::Affine::generator();
    let c = g.coordinates().unwrap();
    (c.x().to_repr(), c.y().to_repr())
}

/// The generator's coordinates after field bridging.
pub open spec fn gen_pt() -> (nat, nat) {
    (
        bits_reversed_value(gen_x_repr(), 256) % q_modulus(),
        bits_reversed_value(gen_y_repr(), 256) % q_modulus(),
    )
}

/// Synthesis failures.
#[derive(Clone, Copy, Debug, PartialEq, Eq, Structural)]
pub enum SynthesisError {
    /// A required input (public key, message hash, or signature) was absent.
    Synthesis,
}

/// The chip: carries the configuration and performs the circuit's
/// region-level operations.
pub struct EcdsaChip {
    /// The wire and gate configuration the chip assigns against.
    pub config: EcdsaConfig,
}

impl EcdsaChip {
    /// Wraps a configuration.
    pub fn construct(config: EcdsaConfig) -> (r: EcdsaChip)
        ensures
            r.config == config,
    {
        EcdsaChip { config }
    }

    /// Records an advice value at an explicit row of a wire.
    pub fn assign_point(&self, region: &mut RegionCtx, column: Col, offset: u64, value: Fe)
        ensures
            final (region).cells@ == old(region).cells@.push(
                (CellAssign { col: column, row: offset, val: value }),
            ),
            final (region).kind == old(region).kind,
            final (region).index == old(region).index,
            final (region).cur_x == old(region).cur_x,
            final (region).cur_y == old(region).cur_y,
            old(region).wf() && value.wf() ==> final (region).wf(),
    {
        region.assign_at(column, offset, value);
    }

    /// Witnesses that `s` is invertible: returns the canonical inverse, the
    /// value the `w` wire must carry for the first `ecdsa_verify` identity.
    pub fn check_s_nonzero(&self, s: &Fe) -> (w: Fe)
        requires
            s.wf(),
            s@ != 0,
        ensures
            w.wf(),
            w@ == inv_q(s@),
            mul_q(s@, w@) == 1,
    {
        let w = fe_invert(s);
        proof {
            lemma_inv_q_unique(s@, w@);
        }
        w
    }

    /// Doubles a point with the tangent formula and records the result at
    /// the next free row of the point wires.
    pub fn point_double(&self, region: &mut RegionCtx, point: Pt) -> (r: Pt)
        requires
            point.wf(),
            point.y@ != 0,
            old(region).cur_x == old(region).cur_y,
            old(region).cur_x < 0xffff_ffff_ffff_ffff,
        ensures
            r.wf(),
            r.v() == spec_double(point.v()),
            final (region).cells@ == old(region).cells@.push(
                (CellAssign { col: Col::X, row: old(region).cur_x, val: r.x }),
            ).push((CellAssign { col: Col::Y, row: old(region).cur_x, val: r.y })),
            final (region).kind == old(region).kind,
            final (region).index == old(region).index,
            final (region).cur_x == old(region).cur_x + 1,
            final (region).cur_y == old(region).cur_y + 1,
            old(region).wf() ==> final (region).wf(),
    {
        let xx = fe_mul(&point.x, &point.x);
        let t1 = fe_add(&xx, &xx);
        let three_xx = fe_add(&t1, &xx);
        let two_y = fe_add(&point.y, &point.y);
        proof {
            lemma_double_denominator_nonzero(point.y@);
        }
        let inv = fe_invert(&two_y);
        proof {
            lemma_inv_q_unique(two_y@, inv@);
        }
        let lam = fe_mul(&three_xx, &inv);
        let ll = fe_mul(&lam, &lam);
        let t2 = fe_sub(&ll, &point.x);
        let xr = fe_sub(&t2, &point.x);
        let dx = fe_sub(&point.x, &xr);
        let t3 = fe_mul(&lam, &dx);
        let yr = fe_sub(&t3, &point.y);
        region.assign_point_pair(xr, yr);
        Pt { x: xr, y: yr }
    }

    /// Adds two points with distinct x-coordinates with the chord formula
    /// and records the result at the next free row of the point wires.
    pub fn point_add(&self, region: &mut RegionCtx, p1: Pt, p2: Pt) -> (r: Pt)
        requires
            p1.wf(),
            p2.wf(),
            p1.x@ != p2.x@,
            old(region).cur_x == old(region).cur_y,
            old(region).cur_x < 0xffff_ffff_ffff_ffff,
        ensures
            r.wf(),
            r.v() == spec_add(p1.v(), p2.v()),
            final (region).cells@ == old(region).cells@.push(
                (CellAssign { col: Col::X, row: old(region).cur_x, val: r.x }),
            ).push((CellAssign { col: Col::Y, row: old(region).cur_x, val: r.y })),
            final (region).kind == old(region).kind,
            final (region).index == old(region).index,
            final (region).cur_x == old(region).cur_x + 1,
            final (region).cur_y == old(region).cur_y + 1,
            old(region).wf() ==> final (region).wf(),
    {
        let dy = fe_sub(&p2.y, &p1.y);
        let dxv = fe_sub(&p2.x, &p1.x);
        proof {
            lemma_sub_nonzero(p2.x@, p1.x@);
        }
        let inv = fe_invert(&dxv);
        proof {
            lemma_inv_q_unique(dxv@, inv@);
        }
        let lam = fe_mul(&dy, &inv);
        let ll = fe_mul(&lam, &lam);
        let t1 = fe_sub(&ll, &p1.x);
        let xr = fe_sub(&t1, &p2.x);
        let dx = fe_sub(&p1.x, &xr);
        let t2 = fe_mul(&lam, &dx);
        let yr = fe_sub(&t2, &p1.y);
        region.assign_point_pair(xr, yr);
        Pt { x: xr, y: yr }
    }

    /// Double-and-add scalar multiplication.  The scalar's bits are taken
    /// least-significant first by parity and halving, then consumed most
    /// significant first; the accumulator starts at the base point, which
    /// stands for the leading bit, so the scalar's top bit (bit 254) must be
    /// set.  Every intermediate doubling and addition must be defined, which
    /// is what `smul_defined` demands.
    pub fn scalar_mult(&self, region: &mut RegionCtx, scalar: &Fe, point: Pt) -> (r: Pt)
        requires
            scalar.wf(),
            point.wf(),
            scalar@ >= two_pow_254(),
            smul_defined(scalar@, 254, point.v()),
            old(region).cur_x == 0,
            old(region).cur_y == 0,
        ensures
            r.wf(),
            r.v() == smul_acc(scalar@, 254, point.v()),
            final (region).kind == old(region).kind,
            final (region).index == old(region).index,
            final (region).cells@.len() >= 2,
            final (region).cells@[final (region).cells@.len() - 2] == (CellAssign {
                col: Col::X,
                row: (final (region).cur_x - 1) as u64,
                val: r.x,
            }),
            final (region).cells@.last() == (CellAssign {
                col: Col::Y,
                row: (final (region).cur_x - 1) as u64,
                val: r.y,
            }),
            old(region).wf() ==> final (region).wf(),
    {
        let ghost k = scalar@;
        // Extract the bits of the scalar, least significant first, by parity
        // and halving.
        let mut bits: Vec<bool> = Vec::new();
        let mut cur: Fe = *scalar;
        let mut i: usize = 0;
        proof {
            lemma2_to64();
            assert(pow2(0) == 1);
        }
        while i < 255
            invariant
                i <= 255,
                bits@.len() == i,
                cur@ == k / pow2(i as nat),
                forall|t: int| 0 <= t < i ==> bits@[t] == bit_of(k, t as nat),
            decreases 255 - i,
        {
            bits.push(cur.is_odd());
            let prev = cur;
            cur = cur.shr1();
            proof {
                lemma_pow2_pos(i as nat);
                lemma_pow2_adds(i as nat, 1);
                lemma2_to64();
                lemma_div_denominator(k as int, pow2(i as nat) as int, 2);
                assert(cur@ == k / pow2((i + 1) as nat));
            }
            i = i + 1;
        }
        // Reverse into most-significant-first order.
        let mut rev: Vec<bool> = Vec::new();
        let mut j2: usize = 255;
        while j2 > 0
            invariant
                j2 <= 255,
                bits@.len() == 255,
                forall|t: int| 0 <= t < 255 ==> bits@[t] == bit_of(k, t as nat),
                rev@.len() == 255 - j2,
                forall|t: int| 0 <= t < rev@.len() ==> rev@[t] == bit_of(k, (254 - t) as nat),
            decreases j2,
        {
            j2 = j2 - 1;
            rev.push(bits[j2]);
        }
        // The accumulator starts at the point itself: the top bit is set.
        proof {
            lemma_q_facts();
            lemma_two_pow_254_is_pow2();
            lemma_pow2_pos(254);
            lemma_div_is_ordered(pow2(254) as int, k as int, pow2(254) as int);
            lemma_div_by_self(pow2(254) as int);
            lemma_multiply_divide_lt(k as int, pow2(254) as int, 2);
            assert(k / pow2(254) == 1);
            assert(bit_of(k, 254));
        }
        let current = point;
        let mut acc = point;
        let mut j: usize = 1;
        while j <= 254
            invariant
                1 <= j <= 255,
                current == point,
                point.wf(),
                acc.wf(),
                acc.v() == smul_acc(k, (j - 1) as nat, point.v()),
                smul_defined(k, 254, point.v()),
                rev@.len() == 255,
                forall|t: int| 0 <= t < 255 ==> rev@[t] == bit_of(k, (254 - t) as nat),
                region.kind == old(region).kind,
                region.index == old(region).index,
                region.cur_x == region.cur_y,
                region.cur_x <= 2 * (j - 1),
                old(region).wf() ==> region.wf(),
                j >= 2 ==> region.cells@.len() >= 2,
                j >= 2 ==> region.cells@[region.cells@.len() - 2] == (CellAssign {
                    col: Col::X,
                    row: (region.cur_x - 1) as u64,
                    val: acc.x,
                }),
                j >= 2 ==> region.cells@.last() == (CellAssign {
                    col: Col::Y,
                    row: (region.cur_x - 1) as u64,
                    val: acc.y,
                }),
            decreases 255 - j,
        {
            proof {
                lemma_smul_defined_prefix(k, j as nat, 254, point.v());
                assert(smul_defined(k, j as nat, point.v()));
            }
            let doubled = self.point_double(region, acc);
            if rev[j] {
                acc = self.point_add(region, doubled, current);
            } else {
                acc = doubled;
            }
            j = j + 1;
        }
        acc
    }
}

/// The bound marking the scalar field's top bit is the power `2^254`.
proof fn lemma_two_pow_254_is_pow2()
    ensures
        two_pow_254() == pow2(254),
{
    lemma2_to64();
    vstd::arithmetic::power2::lemma2_to64_rest();
    lemma_pow2_adds(64, 62);
    lemma_pow2_adds(64, 126);
    lemma_pow2_adds(64, 190);
    assert(pow2(254) == pow2(64) * (pow2(64) * (pow2(64) * pow2(62))));
    assert(pow2(64) == 0x1_0000_0000_0000_0000 && pow2(62) == 0x4000000000000000);
}

/// Multiplying by the smallest scalar the top-bit precondition admits,
/// `2^254`, performs doublings alone: every bit below the top one is zero,
/// so the chord addition, which is undefined on coinciding operands, is
/// never reached; where the operands would coincide, only doubling runs.
pub proof fn lemma_top_bit_only_scalar_doubles(j: nat, p: (nat, nat))
    requires
        j <= 254,
    ensures
        smul_acc(two_pow_254(), j, p) == crate::points::iter_double(j, p),
    decreases j,
{
    lemma_two_pow_254_is_pow2();
    if j > 0 {
        lemma_top_bit_only_scalar_doubles((j - 1) as nat, p);
        let i = (254 - j) as nat;
        vstd::arithmetic::power2::lemma_pow2_subtracts(i, 254);
        let d = (254 - i) as nat;
        vstd::arithmetic::power2::lemma_pow2_unfold(d);
        vstd::arithmetic::div_mod::lemma_mod_multiples_basic(pow2((d - 1) as nat) as int, 2);
        assert(!bit_of(two_pow_254(), i));
    }
}

/// The scalar `u1 = hash * s^{-1}`.
pub open spec fn u1_val(h: nat, s: nat) -> nat {
    mul_q(h, inv_q(s))
}

/// The scalar `u2 = r * s^{-1}`.
pub open spec fn u2_val(r: nat, s: nat) -> nat {
    mul_q(r, inv_q(s))
}

/// A region's cell list ends with the two coordinates of a point, written at
/// the same row of the two point wires.
pub open spec fn ends_with_point(cells: Seq<CellAssign>, p: (nat, nat)) -> bool {
    &&& cells.len() >= 2
    &&& cells[cells.len() - 2].col == Col::X
    &&& cells[cells.len() - 2].val@ == p.0
    &&& cells.last().col == Col::Y
    &&& cells.last().val@ == p.1
    &&& cells[cells.len() - 2].row == cells.last().row
}

/// The main region's nine cells: the bridged public key at row 0 of the
/// point wires, the signature at row 0 of its wires, the inverse witness at
/// row 0 of `w`, the two derived scalars at row 1, and the bridged generator
/// at row 2.
pub open spec fn main_region_cells(
    cells: Seq<CellAssign>,
    pk: (nat, nat),
    r: nat,
    s: nat,
    u1: nat,
    u2: nat,
) -> bool {
    &&& cells.len() == 9
    &&& cells[0].col == Col::X && cells[0].row == 0 && cells[0].val@ == pk.0
    &&& cells[1].col == Col::Y && cells[1].row == 0 && cells[1].val@ == pk.1
    &&& cells[2].col == Col::R && cells[2].row == 0 && cells[2].val@ == r
    &&& cells[3].col == Col::S && cells[3].row == 0 && cells[3].val@ == s
    &&& cells[4].col == Col::W && cells[4].row == 0 && cells[4].val@ == inv_q(s)
    &&& cells[5].col == Col::X && cells[5].row == 1 && cells[5].val@ == u1
    &&& cells[6].col == Col::Y && cells[6].row == 1 && cells[6].val@ == u2
    &&& cells[7].col == Col::X && cells[7].row == 2 && cells[7].val@ == gen_pt().0
    &&& cells[8].col == Col::Y && cells[8].row == 2 && cells[8].val@ == gen_pt().1
}

/// The circuit: the inputs to bind during synthesis.  Absent inputs make
/// synthesis fail with a typed error.
pub struct EcdsaCircuit {
    /// The signer's public key, as the canonical little-endian
    /// representations of its two coordinate-field coordinates.
    pub public_key: Option<([u8; 32], [u8; 32])>,
    /// The message hash, the circuit's sole public instance value.
    pub message_hash: Option<Fe>,
    /// The signature pair `(r, s)`.
    pub signature: Option<(Fe, Fe)>,
}

impl Default for EcdsaCircuit {
    /// A circuit with every input absent.
    fn default() -> (r: Self)
        ensures
            r.public_key is None,
            r.message_hash is None,
            r.signature is None,
    {
        EcdsaCircuit { public_key: None, message_hash: None, signature: None }
    }
}

impl EcdsaCircuit {
    /// Present field elements are canonical.
    pub open spec fn wf(&self) -> bool {
        &&& self.message_hash is Some ==> self.message_hash->Some_0.wf()
        &&& self.signature is Some ==> self.signature->Some_0.0.wf()
            && self.signature->Some_0.1.wf()
    }

    /// All three inputs were supplied.
    pub open spec fn inputs_present(&self) -> bool {
        self.public_key is Some && self.message_hash is Some && self.signature is Some
    }

    /// The public key's coordinates after field bridging.
    pub open spec fn pk_pt(&self) -> (nat, nat)
        recommends
            self.public_key is Some,
    {
        (
            bits_reversed_value(self.public_key->Some_0.0@, 256) % q_modulus(),
            bits_reversed_value(self.public_key->Some_0.1@, 256) % q_modulus(),
        )
    }

    /// The derived scalar `u1`.
    pub open spec fn u1(&self) -> nat
        recommends
            self.inputs_present(),
    {
        u1_val(self.message_hash->Some_0@, self.signature->Some_0.1@)
    }

    /// The derived scalar `u2`.
    pub open spec fn u2(&self) -> nat
        recommends
            self.inputs_present(),
    {
        u2_val(self.signature->Some_0.0@, self.signature->Some_0.1@)
    }

    /// The arithmetic preconditions synthesis relies on: `s` is invertible,
    /// both derived scalars have their top bit set, every doubling and
    /// addition inside the two scalar multiplications is defined, and the
    /// final addition combines points with distinct x-coordinates.
    pub open spec fn synthesis_defined(&self) -> bool
        recommends
            self.inputs_present(),
    {
        &&& self.signature->Some_0.1@ != 0
        &&& self.u1() >= two_pow_254()
        &&& self.u2() >= two_pow_254()
        &&& smul_defined(self.u1(), 254, gen_pt())
        &&& smul_defined(self.u2(), 254, self.pk_pt())
        &&& smul_acc(self.u1(), 254, gen_pt()).0 != smul_acc(self.u2(), 254, self.pk_pt()).0
    }

    /// The structure-only copy of the circuit, with every input absent.
    pub fn without_witnesses(&self) -> (r: Self)
        ensures
            r.public_key is None,
            r.message_hash is None,
            r.signature is None,
    {
        EcdsaCircuit { public_key: None, message_hash: None, signature: None }
    }

    /// Fills the wires: binds the public key (bridged), signature, inverse
    /// witness, the derived scalars `u1` and `u2`, and the bridged generator
    /// in the main region; multiplies the generator by `u1` and the public
    /// key by `u2` in their own regions; and adds the two products in the
    /// final region.  Only the main region's row 0 is selector-enabled.
    pub fn synthesize(&self, config: EcdsaConfig) -> (res: Result<Assignment, SynthesisError>)
        requires
            self.wf(),
            self.inputs_present() ==> self.synthesis_defined(),
        ensures
            res is Err <==> !self.inputs_present(),
            res is Err ==> res->Err_0 == SynthesisError::Synthesis,
            res is Ok ==> mul_q(self.signature->Some_0.1@, inv_q(self.signature->Some_0.1@)) == 1
                && inv_q(self.signature->Some_0.1@) < q_modulus(),
            res is Ok ==> {
                let plan = res->Ok_0;
                &&& plan.wf()
                &&& plan.regions@.len() == 4
                &&& plan.regions@[0].kind == RegionKind::MainAssignments
                &&& plan.regions@[0].index == 0
                &&& plan.regions@[1].kind == RegionKind::GeneratorMult
                &&& plan.regions@[1].index == 1
                &&& plan.regions@[2].kind == RegionKind::PublicKeyMult
                &&& plan.regions@[2].index == 2
                &&& plan.regions@[3].kind == RegionKind::FinalAddition
                &&& plan.regions@[3].index == 3
                &&& plan.enabled@ == seq![(0usize, 0u64)]
                &&& main_region_cells(
                    plan.regions@[0].cells@,
                    self.pk_pt(),
                    self.signature->Some_0.0@,
                    self.signature->Some_0.1@,
                    self.u1(),
                    self.u2(),
                )
                &&& ends_with_point(plan.regions@[1].cells@, smul_acc(self.u1(), 254, gen_pt()))
                &&& ends_with_point(
                    plan.regions@[2].cells@,
                    smul_acc(self.u2(), 254, self.pk_pt()),
                )
                &&& ends_with_point(
                    plan.regions@[3].cells@,
                    spec_add(
                        smul_acc(self.u1(), 254, gen_pt()),
                        smul_acc(self.u2(), 254, self.pk_pt()),
                    ),
                )
            },
    {
        let chip = EcdsaChip::construct(config);
        let mut main = RegionCtx::new(RegionKind::MainAssignments, 0);
        let mut enabled: Vec<(usize, u64)> = Vec::new();
        enabled.push((0, 0));
        let (pk_xb, pk_yb) = match self.public_key {
            Some(p) => p,
            None => {
                return Err(SynthesisError::Synthesis);
            },
        };
        let pk_x = base_to_scalar(&pk_xb);
        let pk_y = base_to_scalar(&pk_yb);
        chip.assign_point(&mut main, Col::X, 0, pk_x);
        chip.assign_point(&mut main, Col::Y, 0, pk_y);
        let (sig_r, sig_s) = match self.signature {
            Some(p) => p,
            None => {
                return Err(SynthesisError::Synthesis);
            },
        };
        chip.assign_point(&mut main, Col::R, 0, sig_r);
        chip.assign_point(&mut main, Col::S, 0, sig_s);
        let message_hash = match self.message_hash {
            Some(h) => h,
            None => {
                return Err(SynthesisError::Synthesis);
            },
        };
        let w = chip.check_s_nonzero(&sig_s);
        chip.assign_point(&mut main, Col::W, 0, w);
        let u1 = fe_mul(&message_hash, &w);
        chip.assign_point(&mut main, Col::X, 1, u1);
        let u2 = fe_mul(&sig_r, &w);
        chip.assign_point(&mut main, Col::Y, 1, u2);
        let gen = pallas_generator_repr();
        let g_x = base_to_scalar(&gen.0);
        let g_y = base_to_scalar(&gen.1);
        chip.assign_point(&mut main, Col::X, 2, g_x);
        chip.assign_point(&mut main, Col::Y, 2, g_y);
        let g_point = Pt { x: g_x, y: g_y };
        let pk_point = Pt { x: pk_x, y: pk_y };
        let mut gm = RegionCtx::new(RegionKind::GeneratorMult, 1);
        let g_mult = chip.scalar_mult(&mut gm, &u1, g_point);
        let mut pm = RegionCtx::new(RegionKind::PublicKeyMult, 2);
        let pk_mult = chip.scalar_mult(&mut pm, &u2, pk_point);
        let mut fa = RegionCtx::new(RegionKind::FinalAddition, 3);
        let _ = chip.point_add(&mut fa, g_mult, pk_mult);
        let mut regions: Vec<RegionCtx> = Vec::new();
        regions.push(main);
        regions.push(gm);
        regions.push(pm);
        regions.push(fa);
        proof {
            assert(enabled@ =~= seq![(0usize, 0u64)]);
        }
        Ok(Assignment { regions, enabled })
    }
}

/// What the engine's acceptance means for a synthesized assignment.  The
/// inverse witness on the `w` wire really inverts `s`, so the first
/// identity always holds, and acceptance reduces to two statements about the
/// bridged public key alone: it satisfies `y^2 = x^3 + 5` over the scalar
/// field, and the signature's `r` equals its x-coordinate.  Neither the
/// message hash nor the two scalar multiplications influence acceptance:
/// the rows they fill are not covered by any gate.
pub proof fn lemma_synthesis_acceptance(
    plan: Assignment,
    pk: (nat, nat),
    r: nat,
    s: nat,
    u1: nat,
    u2: nat,
    hash: Fe,
)
    requires
        plan.regions@.len() >= 1,
        plan.enabled@ == seq![(0usize, 0u64)],
        main_region_cells(plan.regions@[0].cells@, pk, r, s, u1, u2),
        pk.0 < q_modulus(),
        pk.1 < q_modulus(),
        r < q_modulus(),
        s < q_modulus(),
        hash.wf(),
        mul_q(s, inv_q(s)) == 1,
        inv_q(s) < q_modulus(),
    ensures
        crate::layout::assignment_accepted(plan, hash) <==> (mul_q(pk.1, pk.1) == crate::field::add_q(
            mul_q(mul_q(pk.0, pk.0), pk.0),
            5,
        ) && r == pk.0),
{
    lemma_q_facts();
    let cells = plan.regions@[0].cells@;
    assert(cell_value(cells, Col::X, 0) == Some(cells[0].val)) by {
        reveal_with_fuel(cell_value, 12);
    }
    assert(cell_value(cells, Col::Y, 0) == Some(cells[1].val)) by {
        reveal_with_fuel(cell_value, 12);
    }
    assert(cell_value(cells, Col::R, 0) == Some(cells[2].val)) by {
        reveal_with_fuel(cell_value, 12);
    }
    assert(cell_value(cells, Col::S, 0) == Some(cells[3].val)) by {
        reveal_with_fuel(cell_value, 12);
    }
    assert(cell_value(cells, Col::W, 0) == Some(cells[4].val)) by {
        reveal_with_fuel(cell_value, 12);
    }
    let env = crate::layout::env_at(cells, 0, hash)->Some_0;
    assert(env.x == cells[0].val && env.y == cells[1].val && env.r == cells[2].val && env.s
        == cells[3].val && env.w == cells[4].val && env.hash == hash && env.selector == (Fe {
        c0: 1,
        c1: 0,
        c2: 0,
        c3: 0,
    }));
    assert(env.selector@ == 1);
    assert(env.wf());
    crate::layout::lemma_gate_characterization(env);
    assert(crate::layout::row_accepted(cells, 0, hash) <==> (mul_q(pk.1, pk.1)
        == crate::field::add_q(mul_q(mul_q(pk.0, pk.0), pk.0), 5) && r == pk.0));
    if crate::layout::row_accepted(cells, 0, hash) {
        assert forall|t: int| 0 <= t < plan.enabled@.len() implies {
            let e = #[trigger] plan.enabled@[t];
            e.0 < plan.regions@.len() && crate::layout::row_accepted(
                plan.regions@[e.0 as int].cells@,
                e.1,
                hash,
            )
        } by {
            assert(plan.enabled@[t] == (0usize, 0u64));
        }
    } else {
        assert(plan.enabled@[0] == (0usize, 0u64));
        assert(!crate::layout::assignment_accepted(plan, hash));
    }
}

} // verus!
