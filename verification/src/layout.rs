//! The constraint layout: the polynomial expressions of the single
//! `ecdsa_verify` gate, the configuration that declares them, and the
//! engine-side check that evaluates those polynomials over an assignment.
//!
//! Three identities are enforced at every selector-enabled row:
//! `s * w - 1 = 0` (so `s` is invertible and `w` is its inverse),
//! `y^2 - (x^3 + 5) = 0` (the point on the wires lies on the curve, whose
//! coefficients are `a = 0`, `b = 5`), and `r - x = 0` (the signature's `r`
//! matches the x-coordinate wire).
use vstd::prelude::*;
use crate::field::Fe;
use crate::field::add_q;
use crate::field::sub_q;
use crate::field::mul_q;
use crate::field::q_modulus;
use crate::field::lemma_q_facts;
use crate::field::curve_scalar;
use crate::field::fe_add;
use crate::field::fe_sub;
use crate::field::fe_mul;
use crate::region::Assignment;
use crate::region::Col;
use crate::region::cell_value;
use crate::region::find_cell;
use vstd::arithmetic::div_mod::lemma_small_mod;

verus! {

/// A polynomial over the wires of one row, built from constants, wire
/// queries, and ring operations.
#[derive(Debug)]
pub enum Expr {
    /// A fixed field element.
    Constant(Fe),
    /// The value of an advice wire at the current row.
    Advice(Col),
    /// The public-instance value at the current row.
    Instance,
    /// The selector flag at the current row, as a field element.
    Selector,
    /// The sum of two polynomials.
    Sum(Box<Expr>, Box<Expr>),
    /// The difference of two polynomials.
    Sub(Box<Expr>, Box<Expr>),
    /// The product of two polynomials.
    Product(Box<Expr>, Box<Expr>),
}

impl Expr {
    /// Every constant inside the expression is canonical.
    pub open spec fn wf(&self) -> bool
        decreases self,
    {
        match self {
            Expr::Constant(c) => c.wf(),
            Expr::Advice(_) => true,
            Expr::Instance => true,
            Expr::Selector => true,
            Expr::Sum(a, b) => a.wf() && b.wf(),
            Expr::Sub(a, b) => a.wf() && b.wf(),
            Expr::Product(a, b) => a.wf() && b.wf(),
        }
    }
}

/// The values one row presents to the `ecdsa_verify` polynomials: the five
/// advice wires, the public instance, and the selector flag.
#[derive(Clone, Copy, Debug)]
pub struct RowEnv {
    /// Point x-coordinate wire value.
    pub x: Fe,
    /// Point y-coordinate wire value.
    pub y: Fe,
    /// Signature `r` wire value.
    pub r: Fe,
    /// Signature `s` wire value.
    pub s: Fe,
    /// Inverse-witness wire value.
    pub w: Fe,
    /// Public instance value (the message hash).
    pub hash: Fe,
    /// Selector flag, `0` or `1` as a field element.
    pub selector: Fe,
}

impl RowEnv {
    /// All row values are canonical.
    pub open spec fn wf(&self) -> bool {
        self.x.wf() && self.y.wf() && self.r.wf() && self.s.wf() && self.w.wf() && self.hash.wf()
            && self.selector.wf()
    }
}

/// The value of an advice query in a row.
pub open spec fn advice_of(env: RowEnv, col: Col) -> nat {
    match col {
        Col::X => env.x@,
        Col::Y => env.y@,
        Col::R => env.r@,
        Col::S => env.s@,
        Col::W => env.w@,
    }
}

/// The value of a polynomial over one row, as a canonical representative.
pub open spec fn eval_spec(e: Expr, env: RowEnv) -> nat
    decreases e,
{
    match e {
        Expr::Constant(c) => c@,
        Expr::Advice(col) => advice_of(env, col),
        Expr::Instance => env.hash@,
        Expr::Selector => env.selector@,
        Expr::Sum(a, b) => add_q(eval_spec(*a, env), eval_spec(*b, env)),
        Expr::Sub(a, b) => sub_q(eval_spec(*a, env), eval_spec(*b, env)),
        Expr::Product(a, b) => mul_q(eval_spec(*a, env), eval_spec(*b, env)),
    }
}

/// Evaluates a polynomial over one row.
pub fn eval(e: &Expr, env: &RowEnv) -> (r: Fe)
    requires
        e.wf(),
        env.wf(),
    ensures
        r.wf(),
        r@ == eval_spec(*e, *env),
    decreases e,
{
    match e {
        Expr::Constant(c) => *c,
        Expr::Advice(col) => match col {
            Col::X => env.x,
            Col::Y => env.y,
            Col::R => env.r,
            Col::S => env.s,
            Col::W => env.w,
        },
        Expr::Instance => env.hash,
        Expr::Selector => env.selector,
        Expr::Sum(a, b) => {
            let va = eval(&**a, env);
            let vb = eval(&**b, env);
            fe_add(&va, &vb)
        },
        Expr::Sub(a, b) => {
            let va = eval(&**a, env);
            let vb = eval(&**b, env);
            fe_sub(&va, &vb)
        },
        Expr::Product(a, b) => {
            let va = eval(&**a, env);
            let vb = eval(&**b, env);
            fe_mul(&va, &vb)
        },
    }
}

/// The first gate polynomial: the selector times `s * w - 1`.
pub open spec fn gate_s_inverse(env: RowEnv) -> nat {
    mul_q(env.selector@, sub_q(mul_q(env.s@, env.w@), 1))
}

/// The second gate polynomial: the selector times `y^2 - (x^3 + 5)`.
pub open spec fn gate_on_curve(env: RowEnv) -> nat {
    mul_q(env.selector@, sub_q(mul_q(env.y@, env.y@), add_q(mul_q(mul_q(env.x@, env.x@), env.x@), 5)))
}

/// The third gate polynomial: the selector times `r - x`.
pub open spec fn gate_r_matches(env: RowEnv) -> nat {
    mul_q(env.selector@, sub_q(env.r@, env.x@))
}

/// The wire and gate configuration: the `ecdsa_verify` gate's polynomials
/// and the wires on which copy (equality) constraints are allowed.
pub struct EcdsaConfig {
    /// The three gate polynomials, checked together wherever the selector is
    /// enabled.
    pub gate: Vec<Expr>,
    /// Advice wires participating in equality constraints.
    pub equality: Vec<Col>,
    /// Whether the instance wire participates in equality constraints.
    pub instance_equality: bool,
}

impl EcdsaConfig {
    /// Exactly the three `ecdsa_verify` identities, in order.
    pub open spec fn wf(&self) -> bool {
        &&& self.gate@.len() == 3
        &&& forall|i: int| 0 <= i < 3 ==> (#[trigger] self.gate@[i]).wf()
        &&& forall|env: RowEnv| #![all_triggers] eval_spec(self.gate@[0], env) == gate_s_inverse(env)
        &&& forall|env: RowEnv| #![all_triggers] eval_spec(self.gate@[1], env) == gate_on_curve(env)
        &&& forall|env: RowEnv| #![all_triggers] eval_spec(self.gate@[2], env) == gate_r_matches(env)
    }
}

/// Declares the wire columns, equality constraints, the selector, and the
/// `ecdsa_verify` gate.
pub fn configure() -> (c: EcdsaConfig)
    ensures
        c.wf(),
        c.equality@ == seq![Col::X, Col::Y, Col::R, Col::S],
        c.instance_equality,
{
    let b = curve_scalar(5);
    let one = curve_scalar(1);
    let poly_s_inverse = Expr::Product(
        Box::new(Expr::Selector),
        Box::new(
            Expr::Sub(
                Box::new(
                    Expr::Product(Box::new(Expr::Advice(Col::S)), Box::new(Expr::Advice(Col::W))),
                ),
                Box::new(Expr::Constant(one)),
            ),
        ),
    );
    let poly_on_curve = Expr::Product(
        Box::new(Expr::Selector),
        Box::new(
            Expr::Sub(
                Box::new(
                    Expr::Product(Box::new(Expr::Advice(Col::Y)), Box::new(Expr::Advice(Col::Y))),
                ),
                Box::new(
                    Expr::Sum(
                        Box::new(
                            Expr::Product(
                                Box::new(
                                    Expr::Product(
                                        Box::new(Expr::Advice(Col::X)),
                                        Box::new(Expr::Advice(Col::X)),
                                    ),
                                ),
                                Box::new(Expr::Advice(Col::X)),
                            ),
                        ),
                        Box::new(Expr::Constant(b)),
                    ),
                ),
            ),
        ),
    );
    let poly_r_matches = Expr::Product(
        Box::new(Expr::Selector),
        Box::new(
            Expr::Sub(Box::new(Expr::Advice(Col::R)), Box::new(Expr::Advice(Col::X))),
        ),
    );
    let mut gate: Vec<Expr> = Vec::new();
    gate.push(poly_s_inverse);
    gate.push(poly_on_curve);
    gate.push(poly_r_matches);
    let mut equality: Vec<Col> = Vec::new();
    equality.push(Col::X);
    equality.push(Col::Y);
    equality.push(Col::R);
    equality.push(Col::S);
    proof {
        assert(equality@ =~= seq![Col::X, Col::Y, Col::R, Col::S]);
        assert(gate@[0].wf() && gate@[1].wf() && gate@[2].wf()) by {
            reveal_with_fuel(Expr::wf, 10);
        }
        assert forall|env: RowEnv| eval_spec(gate@[0], env) == gate_s_inverse(env) by {
            reveal_with_fuel(eval_spec, 10);
        }
        assert forall|env: RowEnv| eval_spec(gate@[1], env) == gate_on_curve(env) by {
            reveal_with_fuel(eval_spec, 10);
        }
        assert forall|env: RowEnv| eval_spec(gate@[2], env) == gate_r_matches(env) by {
            reveal_with_fuel(eval_spec, 10);
        }
    }
    EcdsaConfig { gate, equality, instance_equality: true }
}

/// What the three identities say at a selector-enabled row: `w` inverts `s`,
/// the point on the wires satisfies `y^2 = x^3 + 5`, and `r` equals the
/// x-coordinate wire.
pub proof fn lemma_gate_characterization(env: RowEnv)
    requires
        env.wf(),
        env.selector@ == 1,
    ensures
        (gate_s_inverse(env) == 0 && gate_on_curve(env) == 0 && gate_r_matches(env) == 0) <==> (
        mul_q(env.s@, env.w@) == 1 && mul_q(env.y@, env.y@) == add_q(
            mul_q(mul_q(env.x@, env.x@), env.x@),
            5,
        ) && env.r@ == env.x@),
{
    lemma_q_facts();
    lemma_one_times_reduced(sub_q(mul_q(env.s@, env.w@), 1));
    lemma_one_times_reduced(
        sub_q(mul_q(env.y@, env.y@), add_q(mul_q(mul_q(env.x@, env.x@), env.x@), 5)),
    );
    lemma_one_times_reduced(sub_q(env.r@, env.x@));
    lemma_sub_q_eq(mul_q(env.s@, env.w@), 1);
    lemma_sub_q_eq(
        mul_q(env.y@, env.y@),
        add_q(mul_q(mul_q(env.x@, env.x@), env.x@), 5),
    );
    lemma_sub_q_eq(env.r@, env.x@);
}

/// Multiplying a reduced representative by one changes nothing.
proof fn lemma_one_times_reduced(a: nat)
    requires
        a < q_modulus(),
    ensures
        mul_q(1, a) == a,
{
    lemma_q_facts();
    lemma_small_mod(a, q_modulus());
}

/// A difference of reduced representatives vanishes exactly on equality.
proof fn lemma_sub_q_eq(a: nat, b: nat)
    requires
        a < q_modulus(),
        b < q_modulus(),
    ensures
        (sub_q(a, b) == 0) <==> (a == b),
{
    lemma_q_facts();
    if a == b {
        assert(((a + q_modulus() - b) as int) % (q_modulus() as int) == 0) by {
            vstd::arithmetic::div_mod::lemma_mod_self_0(q_modulus() as int);
        }
    } else {
        crate::points::lemma_sub_nonzero(a, b);
    }
}

/// A row environment assembled from a region's cells at one row, with the
/// selector enabled; `None` where any of the five wires was never assigned.
pub open spec fn env_at(cells: Seq<crate::region::CellAssign>, row: u64, hash: Fe) -> Option<
    RowEnv,
> {
    if cell_value(cells, Col::X, row) is Some && cell_value(cells, Col::Y, row) is Some
        && cell_value(cells, Col::R, row) is Some && cell_value(cells, Col::S, row) is Some
        && cell_value(cells, Col::W, row) is Some {
        Some(
            (RowEnv {
                x: cell_value(cells, Col::X, row)->Some_0,
                y: cell_value(cells, Col::Y, row)->Some_0,
                r: cell_value(cells, Col::R, row)->Some_0,
                s: cell_value(cells, Col::S, row)->Some_0,
                w: cell_value(cells, Col::W, row)->Some_0,
                hash,
                selector: (Fe { c0: 1, c1: 0, c2: 0, c3: 0 }),
            }),
        )
    } else {
        None
    }
}

/// A selector-enabled row passes when all five wires are assigned there and
/// the three gate polynomials vanish.
pub open spec fn row_accepted(cells: Seq<crate::region::CellAssign>, row: u64, hash: Fe) -> bool {
    match env_at(cells, row, hash) {
        Some(env) => gate_s_inverse(env) == 0 && gate_on_curve(env) == 0 && gate_r_matches(env)
            == 0,
        None => false,
    }
}

/// An assignment is accepted when every selector-enabled row names a real
/// region and satisfies the three identities there.
pub open spec fn assignment_accepted(plan: Assignment, hash: Fe) -> bool {
    forall|t: int|
        0 <= t < plan.enabled@.len() ==> {
            let e = #[trigger] plan.enabled@[t];
            e.0 < plan.regions@.len() && row_accepted(plan.regions@[e.0 as int].cells@, e.1, hash)
        }
}

/// The engine-side check: builds the `ecdsa_verify` polynomials anew and
/// evaluates them at every selector-enabled row of the assignment, with the
/// given public instance value on the instance wire.
pub fn verify_assignment(plan: &Assignment, hash: &Fe) -> (ok: bool)
    requires
        plan.wf(),
        hash.wf(),
    ensures
        ok == assignment_accepted(*plan, *hash),
{
    let config = configure();
    let zero = Fe::zero();
    let mut t: usize = 0;
    while t < plan.enabled.len()
        invariant
            t <= plan.enabled@.len(),
            plan.wf(),
            hash.wf(),
            config.wf(),
            zero@ == 0,
            forall|u: int|
                0 <= u < t ==> {
                    let e = #[trigger] plan.enabled@[u];
                    e.0 < plan.regions@.len() && row_accepted(
                        plan.regions@[e.0 as int].cells@,
                        e.1,
                        *hash,
                    )
                },
        decreases plan.enabled@.len() - t,
    {
        let (ri, row) = plan.enabled[t];
        if ri >= plan.regions.len() {
            return false;
        }
        let cells = &plan.regions[ri].cells;
        let vx = find_cell(cells, Col::X, row);
        let vy = find_cell(cells, Col::Y, row);
        let vr = find_cell(cells, Col::R, row);
        let vs = find_cell(cells, Col::S, row);
        let vw = find_cell(cells, Col::W, row);
        match (vx, vy, vr, vs, vw) {
            (Some(x), Some(y), Some(r), Some(s), Some(w)) => {
                let env = RowEnv {
                    x,
                    y,
                    r,
                    s,
                    w,
                    hash: *hash,
                    selector: Fe { c0: 1, c1: 0, c2: 0, c3: 0 },
                };
                proof {
                    lemma_q_facts();
                    lemma_cell_values_wf(cells@, row);
                }
                let e0 = eval(&config.gate[0], &env);
                let e1 = eval(&config.gate[1], &env);
                let e2 = eval(&config.gate[2], &env);
                if !(e0 == zero && e1 == zero && e2 == zero) {
                    return false;
                }
            },
            _ => {
                return false;
            },
        }
        t = t + 1;
    }
    true
}

/// Values looked up in a well-formed cell list are canonical.
proof fn lemma_cell_values_wf(cells: Seq<crate::region::CellAssign>, row: u64)
    requires
        forall|i: int| 0 <= i < cells.len() ==> (#[trigger] cells[i]).val.wf(),
    ensures
        forall|col: Col|
            (#[trigger] cell_value(cells, col, row)) is Some ==> cell_value(
                cells,
                col,
                row,
            )->Some_0.wf(),
    decreases cells.len(),
{
    assert forall|col: Col| (#[trigger] cell_value(cells, col, row)) is Some implies cell_value(
        cells,
        col,
        row,
    )->Some_0.wf() by {
        if cells.len() > 0 {
            lemma_cell_values_wf(cells.drop_last(), row);
            if !(cells.last().col == col && cells.last().row == row) {
                assert(cell_value(cells, col, row) == cell_value(cells.drop_last(), col, row));
            }
        }
    }
}

} // verus!
