//! Elements of the Pallas curve's scalar field, held in canonical form as
//! four 64-bit little-endian limbs.  All circuit arithmetic happens in this
//! field: wire values, signature components, and the reinterpreted point
//! coordinates are all `Fe` values.
//!
//! The modular arithmetic itself (addition, subtraction, multiplication,
//! inversion) is delegated to `pasta_curves::Fq`; everything stated about
//! those operations is an exact congruence on the limb interpretation.
use vstd::prelude::*;
use vstd::arithmetic::div_mod::lemma_add_mod_noop;
use vstd::arithmetic::div_mod::lemma_fundamental_div_mod;
use vstd::arithmetic::div_mod::lemma_fundamental_div_mod_converse;
use vstd::arithmetic::div_mod::lemma_mod_multiples_basic;
use vstd::arithmetic::div_mod::lemma_small_mod;
use vstd::arithmetic::div_mod::lemma_mul_mod_noop_general;
use vstd::arithmetic::mul::lemma_mul_is_associative;
use vstd::arithmetic::mul::lemma_mul_is_commutative;
use ff::Field;
use ff::PrimeField;

verus! {

/// Limbs of the scalar-field modulus
/// `q = 0x40000000000000000000000000000000224698fc0994a8dd8c46eb2100000001`,
/// least significant first.
pub const Q_LIMB_0: u64 = 0x8c46eb2100000001;
/// Second limb of the scalar-field modulus.
pub const Q_LIMB_1: u64 = 0x224698fc0994a8dd;
/// Third limb of the scalar-field modulus.
pub const Q_LIMB_2: u64 = 0x0;
/// Most significant limb of the scalar-field modulus.
pub const Q_LIMB_3: u64 = 0x4000000000000000;

/// The integer denoted by four little-endian 64-bit limbs, in Horner form
/// with the radix `2^64` written out as a literal.
pub open spec fn limbs_nat(c0: u64, c1: u64, c2: u64, c3: u64) -> nat {
    (c0 as nat) + 0x1_0000_0000_0000_0000 * ((c1 as nat) + 0x1_0000_0000_0000_0000 * ((
    c2 as nat) + 0x1_0000_0000_0000_0000 * (c3 as nat)))
}

/// The scalar-field modulus as a mathematical integer.
pub open spec fn q_modulus() -> nat {
    limbs_nat(Q_LIMB_0, Q_LIMB_1, Q_LIMB_2, Q_LIMB_3)
}

/// `2^254`; scalars at or above this bound have their top bit set.
pub open spec fn two_pow_254() -> nat {
    limbs_nat(0, 0, 0, 0x4000000000000000)
}

/// Addition in the scalar field, on integer representatives.
pub open spec fn add_q(a: nat, b: nat) -> nat {
    (a + b) % q_modulus()
}

/// Subtraction in the scalar field, on integer representatives below `q`.
pub open spec fn sub_q(a: nat, b: nat) -> nat
    recommends
        b < q_modulus(),
{
    (((a + q_modulus()) - b) % (q_modulus() as int)) as nat
}

/// Multiplication in the scalar field, on integer representatives.
pub open spec fn mul_q(a: nat, b: nat) -> nat {
    (a * b) % q_modulus()
}

/// The multiplicative inverse in the scalar field: the canonical
/// representative `w` with `a * w == 1 (mod q)`, when one exists.
pub open spec fn inv_q(a: nat) -> nat {
    choose|w: nat| w < q_modulus() && mul_q(a, w) == 1
}

/// A scalar-field element in canonical form: four little-endian limbs
/// denoting an integer strictly below the modulus.
#[derive(Clone, Copy, Debug, PartialEq, Eq, Structural)]
pub struct Fe {
    /// Least significant limb.
    pub c0: u64,
    /// Second limb.
    pub c1: u64,
    /// Third limb.
    pub c2: u64,
    /// Most significant limb.
    pub c3: u64,
}

impl View for Fe {
    type V = nat;

    open spec fn view(&self) -> nat {
        limbs_nat(self.c0, self.c1, self.c2, self.c3)
    }
}

impl Fe {
    /// Canonical form: the denoted integer is below the modulus.
    pub open spec fn wf(&self) -> bool {
        self@ < q_modulus()
    }

    /// The zero element.
    pub fn zero() -> (r: Fe)
        ensures
            r@ == 0,
            r.wf(),
    {
        Fe { c0: 0, c1: 0, c2: 0, c3: 0 }
    }

    /// The one element.
    pub fn one() -> (r: Fe)
        ensures
            r@ == 1,
            r.wf(),
    {
        Fe { c0: 1, c1: 0, c2: 0, c3: 0 }
    }

    /// Builds an element from little-endian limbs, rejecting values that are
    /// not below the modulus.
    pub fn from_limbs(c0: u64, c1: u64, c2: u64, c3: u64) -> (r: Option<Fe>)
        ensures
            limbs_nat(c0, c1, c2, c3) < q_modulus() ==> r == Some((Fe { c0, c1, c2, c3 })),
            limbs_nat(c0, c1, c2, c3) >= q_modulus() ==> r is None,
    {
        let below = c3 < Q_LIMB_3
            || (c3 == Q_LIMB_3 && (c2 < Q_LIMB_2
                || (c2 == Q_LIMB_2 && (c1 < Q_LIMB_1
                    || (c1 == Q_LIMB_1 && c0 < Q_LIMB_0)))));
        if below {
            Some(Fe { c0, c1, c2, c3 })
        } else {
            None
        }
    }

    /// The element's little-endian limbs.
    pub fn limbs(&self) -> (r: (u64, u64, u64, u64))
        ensures
            r == (self.c0, self.c1, self.c2, self.c3),
            limbs_nat(r.0, r.1, r.2, r.3) == self@,
    {
        (self.c0, self.c1, self.c2, self.c3)
    }

    /// Whether the denoted integer is odd.
    pub fn is_odd(&self) -> (b: bool)
        ensures
            b == (self@ % 2 == 1),
    {
        proof {
            lemma_limbs_parity(self.c0, self.c1, self.c2, self.c3);
            let c0 = self.c0;
            assert((c0 & 1) == c0 % 2) by (bit_vector);
        }
        self.c0 & 1 == 1
    }

    /// Halves the denoted integer, discarding the low bit.
    pub fn shr1(&self) -> (r: Fe)
        ensures
            r@ == self@ / 2,
    {
        let n0 = (self.c0 >> 1u64) | (self.c1 << 63u64);
        let n1 = (self.c1 >> 1u64) | (self.c2 << 63u64);
        let n2 = (self.c2 >> 1u64) | (self.c3 << 63u64);
        let n3 = self.c3 >> 1u64;
        proof {
            let c0 = self.c0;
            let c1 = self.c1;
            let c2 = self.c2;
            let c3 = self.c3;
            assert(((c0 >> 1u64) | (c1 << 63u64)) == c0 / 2 + (c1 % 2) * 0x8000000000000000)
                by (bit_vector);
            assert(((c1 >> 1u64) | (c2 << 63u64)) == c1 / 2 + (c2 % 2) * 0x8000000000000000)
                by (bit_vector);
            assert(((c2 >> 1u64) | (c3 << 63u64)) == c2 / 2 + (c3 % 2) * 0x8000000000000000)
                by (bit_vector);
            assert((c3 >> 1u64) == c3 / 2) by (bit_vector);
            lemma_fundamental_div_mod(c0 as int, 2);
            lemma_fundamental_div_mod(c1 as int, 2);
            lemma_fundamental_div_mod(c2 as int, 2);
            lemma_fundamental_div_mod(c3 as int, 2);
            assert(2 * limbs_nat(n0, n1, n2, n3) + (c0 % 2) == limbs_nat(c0, c1, c2, c3));
            lemma_fundamental_div_mod_converse(
                limbs_nat(c0, c1, c2, c3) as int,
                2,
                limbs_nat(n0, n1, n2, n3) as int,
                (c0 % 2) as int,
            );
        }
        Fe { c0: n0, c1: n1, c2: n2, c3: n3 }
    }
}

/// The parity of a limb interpretation is the parity of its low limb.
proof fn lemma_limbs_parity(c0: u64, c1: u64, c2: u64, c3: u64)
    ensures
        limbs_nat(c0, c1, c2, c3) % 2 == c0 % 2,
{
    let rest = ((c1 as nat) + 0x1_0000_0000_0000_0000 * ((c2 as nat) + 0x1_0000_0000_0000_0000 * (
    c3 as nat))) as int;
    assert(0x1_0000_0000_0000_0000 * rest == 2 * (0x8000_0000_0000_0000 * rest));
    lemma_mod_multiples_basic(0x8000_0000_0000_0000 * rest, 2);
    lemma_add_mod_noop(c0 as int, 0x1_0000_0000_0000_0000 * rest, 2);
    assert(limbs_nat(c0, c1, c2, c3) % 2 == ((c0 % 2) + 0) % 2);
    lemma_small_mod((c0 % 2) as nat, 2);
}

/// Basic facts about the modulus that the rest of the library leans on.
pub proof fn lemma_q_facts()
    ensures
        q_modulus() % 2 == 1,
        2 < q_modulus(),
        two_pow_254() < q_modulus(),
        q_modulus() < 2 * two_pow_254(),
{
    lemma_limbs_parity(Q_LIMB_0, Q_LIMB_1, Q_LIMB_2, Q_LIMB_3);
}

/// The canonical inverse is unique: any witness below `q` equals `inv_q`.
pub proof fn lemma_inv_q_unique(a: nat, w: nat)
    requires
        w < q_modulus(),
        mul_q(a, w) == 1,
    ensures
        inv_q(a) == w,
        mul_q(a, inv_q(a)) == 1,
        inv_q(a) < q_modulus(),
{
    let q = q_modulus() as int;
    lemma_q_facts();
    assert(exists|x: nat| x < q_modulus() && mul_q(a, x) == 1);
    let w2 = inv_q(a);
    assert(w2 < q_modulus() && mul_q(a, w2) == 1);
    let ai = a as int;
    let wi = w as int;
    let w2i = w2 as int;
    // w == w * (a * w2) == (w * a) * w2 == w2  (mod q)
    lemma_mul_mod_noop_general(wi, ai * w2i, q);
    assert((wi * ((ai * w2i) % q)) % q == (wi * (ai * w2i)) % q);
    assert((ai * w2i) % q == 1);
    lemma_small_mod(w, q_modulus());
    assert((wi * (ai * w2i)) % q == wi);
    lemma_mul_is_associative(wi, ai, w2i);
    lemma_mul_mod_noop_general(wi * ai, w2i, q);
    assert((((wi * ai) % q) * w2i) % q == ((wi * ai) * w2i) % q);
    lemma_mul_is_commutative(wi, ai);
    assert((wi * ai) % q == 1);
    assert(((wi * ai) % q) * w2i == 1 * w2i);
    lemma_small_mod(w2, q_modulus());
    assert((1 * w2i) % q == w2i);
    assert(wi == w2i);
}

/// Relies on `pasta_curves::Fq` addition: the sum of two canonical field
/// elements, reduced modulo `q`.
#[verifier::external_body]
pub(crate) fn fe_add(a: &Fe, b: &Fe) -> (r: Fe)
    requires
        a.wf(),
        b.wf(),
    ensures
        r.wf(),
        r@ == add_q(a@, b@),
{
    let x = pasta_curves::Fq::from_raw([a.c0, a.c1, a.c2, a.c3])
        + pasta_curves::Fq::from_raw([b.c0, b.c1, b.c2, b.c3]);
    let t = x.to_repr();
    Fe {
        c0: u64::from_le_bytes(t[0..8].try_into().unwrap()),
        c1: u64::from_le_bytes(t[8..16].try_into().unwrap()),
        c2: u64::from_le_bytes(t[16..24].try_into().unwrap()),
        c3: u64::from_le_bytes(t[24..32].try_into().unwrap()),
    }
}

/// Relies on `pasta_curves::Fq` subtraction: the difference of two canonical
/// field elements, reduced modulo `q`.
#[verifier::external_body]
pub(crate) fn fe_sub(a: &Fe, b: &Fe) -> (r: Fe)
    requires
        a.wf(),
        b.wf(),
    ensures
        r.wf(),
        r@ == sub_q(a@, b@),
{
    let x = pasta_curves::Fq::from_raw([a.c0, a.c1, a.c2, a.c3])
        - pasta_curves::Fq::from_raw([b.c0, b.c1, b.c2, b.c3]);
    let t = x.to_repr();
    Fe {
        c0: u64::from_le_bytes(t[0..8].try_into().unwrap()),
        c1: u64::from_le_bytes(t[8..16].try_into().unwrap()),
        c2: u64::from_le_bytes(t[16..24].try_into().unwrap()),
        c3: u64::from_le_bytes(t[24..32].try_into().unwrap()),
    }
}

/// Relies on `pasta_curves::Fq` multiplication: the product of two canonical
/// field elements, reduced modulo `q`.
#[verifier::external_body]
pub(crate) fn fe_mul(a: &Fe, b: &Fe) -> (r: Fe)
    requires
        a.wf(),
        b.wf(),
    ensures
        r.wf(),
        r@ == mul_q(a@, b@),
{
    let x = pasta_curves::Fq::from_raw([a.c0, a.c1, a.c2, a.c3])
        * pasta_curves::Fq::from_raw([b.c0, b.c1, b.c2, b.c3]);
    let t = x.to_repr();
    Fe {
        c0: u64::from_le_bytes(t[0..8].try_into().unwrap()),
        c1: u64::from_le_bytes(t[8..16].try_into().unwrap()),
        c2: u64::from_le_bytes(t[16..24].try_into().unwrap()),
        c3: u64::from_le_bytes(t[24..32].try_into().unwrap()),
    }
}

/// Relies on `pasta_curves::Fq::invert`, which fails only on zero: for a
/// nonzero canonical element it returns the multiplicative inverse.
#[verifier::external_body]
pub(crate) fn fe_invert(a: &Fe) -> (r: Fe)
    requires
        a.wf(),
        a@ != 0,
    ensures
        r.wf(),
        mul_q(a@, r@) == 1,
{
    let x = pasta_curves::Fq::from_raw([a.c0, a.c1, a.c2, a.c3]).invert().unwrap();
    let t = x.to_repr();
    Fe {
        c0: u64::from_le_bytes(t[0..8].try_into().unwrap()),
        c1: u64::from_le_bytes(t[8..16].try_into().unwrap()),
        c2: u64::from_le_bytes(t[16..24].try_into().unwrap()),
        c3: u64::from_le_bytes(t[24..32].try_into().unwrap()),
    }
}

/// Builds the scalar-field element denoting a machine integer.
pub fn curve_scalar(value: u64) -> (r: Fe)
    ensures
        r.wf(),
        r@ == value,
{
    Fe { c0: value, c1: 0, c2: 0, c3: 0 }
}

} // verus!
