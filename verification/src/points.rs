//! Affine curve points as the circuit sees them: pairs of scalar-field
//! elements, together with the mathematical statements of the doubling and
//! chord-addition formulas and of double-and-add scalar multiplication.
//!
//! There is no identity point: doubling is undefined where `y = 0`, and
//! addition is undefined where the two x-coordinates coincide.  Callers must
//! keep those inputs out, which is what the `smul_defined` predicate tracks
//! across a whole double-and-add run.
use vstd::prelude::*;
use vstd::arithmetic::power2::pow2;
use vstd::arithmetic::div_mod::lemma_fundamental_div_mod;
use vstd::arithmetic::div_mod::lemma_div_pos_is_pos;
use vstd::arithmetic::div_mod::lemma_multiply_divide_lt;
use vstd::arithmetic::div_mod::lemma_mod_multiples_basic;
use vstd::arithmetic::mul::lemma_mul_basics;
use crate::field::Fe;
use crate::field::add_q;
use crate::field::sub_q;
use crate::field::mul_q;
use crate::field::inv_q;
use crate::field::q_modulus;
use crate::field::lemma_q_facts;

verus! {

/// An affine point, both coordinates reinterpreted into the scalar field.
#[derive(Clone, Copy, Debug, PartialEq, Eq, Structural)]
pub struct Pt {
    /// The x-coordinate.
    pub x: Fe,
    /// The y-coordinate.
    pub y: Fe,
}

impl Pt {
    /// Both coordinates are in canonical form.
    pub open spec fn wf(&self) -> bool {
        self.x.wf() && self.y.wf()
    }

    /// The pair of integer representatives the point denotes.
    pub open spec fn v(&self) -> (nat, nat) {
        (self.x@, self.y@)
    }
}

/// The tangent-line doubling formula: `lambda = 3 x^2 / 2 y`,
/// `x' = lambda^2 - 2 x`, `y' = lambda (x - x') - y`.  Meaningful only where
/// `y != 0`.
pub open spec fn spec_double(p: (nat, nat)) -> (nat, nat) {
    let xx = mul_q(p.0, p.0);
    let three_xx = add_q(add_q(xx, xx), xx);
    let two_y = add_q(p.1, p.1);
    let lam = mul_q(three_xx, inv_q(two_y));
    let xr = sub_q(sub_q(mul_q(lam, lam), p.0), p.0);
    let yr = sub_q(mul_q(lam, sub_q(p.0, xr)), p.1);
    (xr, yr)
}

/// The chord addition formula for two points with distinct x-coordinates:
/// `lambda = (y2 - y1) / (x2 - x1)`, `x' = lambda^2 - x1 - x2`,
/// `y' = lambda (x1 - x') - y1`.
pub open spec fn spec_add(p1: (nat, nat), p2: (nat, nat)) -> (nat, nat) {
    let lam = mul_q(sub_q(p2.1, p1.1), inv_q(sub_q(p2.0, p1.0)));
    let xr = sub_q(sub_q(mul_q(lam, lam), p1.0), p2.0);
    let yr = sub_q(mul_q(lam, sub_q(p1.0, xr)), p1.1);
    (xr, yr)
}

/// Bit `i` of the binary expansion of `v`.
pub open spec fn bit_of(v: nat, i: nat) -> bool {
    v / pow2(i) % 2 == 1
}

/// The double-and-add accumulator after `j` steps: it starts from `p`, which
/// stands for the leading bit of `k`, and step `j` doubles and then adds `p`
/// when bit `254 - j` of `k` is set, working from the most significant bit
/// downward.
pub open spec fn smul_acc(k: nat, j: nat, p: (nat, nat)) -> (nat, nat)
    recommends
        j <= 254,
    decreases j,
{
    if j == 0 {
        p
    } else {
        let prev = smul_acc(k, (j - 1) as nat, p);
        let d = spec_double(prev);
        if bit_of(k, (254 - j) as nat) {
            spec_add(d, p)
        } else {
            d
        }
    }
}

/// Whether every doubling in the first `j` double-and-add steps starts from a
/// point with nonzero y-coordinate, and every addition combines points with
/// distinct x-coordinates.
pub open spec fn smul_defined(k: nat, j: nat, p: (nat, nat)) -> bool
    recommends
        j <= 254,
    decreases j,
{
    if j == 0 {
        true
    } else {
        let prev = smul_acc(k, (j - 1) as nat, p);
        smul_defined(k, (j - 1) as nat, p) && prev.1 != 0 && (bit_of(k, (254 - j) as nat)
            ==> spec_double(prev).0 != p.0)
    }
}

/// The point after `n` successive doublings.
pub open spec fn iter_double(n: nat, p: (nat, nat)) -> (nat, nat)
    decreases n,
{
    if n == 0 {
        p
    } else {
        spec_double(iter_double((n - 1) as nat, p))
    }
}

/// Definedness of a longer double-and-add run covers every shorter prefix.
pub proof fn lemma_smul_defined_prefix(k: nat, j1: nat, j2: nat, p: (nat, nat))
    requires
        j1 <= j2,
        smul_defined(k, j2, p),
    ensures
        smul_defined(k, j1, p),
    decreases j2,
{
    if j1 < j2 {
        lemma_smul_defined_prefix(k, j1, (j2 - 1) as nat, p);
    }
}

/// A value strictly between `0` and `2 q` other than `q` itself does not
/// reduce to zero modulo `q`.
proof fn lemma_mod_nonzero_small(t: int, q: int)
    requires
        0 < q,
        0 < t < 2 * q,
        t != q,
    ensures
        t % q != 0,
{
    if t % q == 0 {
        lemma_fundamental_div_mod(t, q);
        lemma_div_pos_is_pos(t, q);
        lemma_multiply_divide_lt(t, q, 2);
        let d = t / q;
        lemma_mul_basics(q);
        assert(d == 0 || d == 1);
        assert(t == q * d);
        assert(false);
    }
}

/// Doubling a canonical nonzero y-coordinate never hits the zero denominator:
/// `2 y` is even and nonzero while the modulus is odd.
pub proof fn lemma_double_denominator_nonzero(y: nat)
    requires
        y < q_modulus(),
        y != 0,
    ensures
        add_q(y, y) != 0,
{
    lemma_q_facts();
    let t = (y + y) as int;
    let q = q_modulus() as int;
    assert(t % 2 == 0) by {
        lemma_mod_multiples_basic(y as int, 2);
    }
    lemma_mod_nonzero_small(t, q);
}

/// Subtracting distinct canonical representatives never reduces to zero.
pub proof fn lemma_sub_nonzero(a: nat, b: nat)
    requires
        a < q_modulus(),
        b < q_modulus(),
        a != b,
    ensures
        sub_q(a, b) != 0,
{
    lemma_q_facts();
    let q = q_modulus() as int;
    let t = (a + q_modulus() - b) as int;
    lemma_mod_nonzero_small(t, q);
}

} // verus!
