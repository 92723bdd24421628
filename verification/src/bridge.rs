//! The field bridge: reinterpreting a coordinate-field element, given by its
//! canonical 32-byte little-endian representation, as a scalar-field element.
//!
//! The representation is decomposed into bits, least-significant first within
//! each byte, and the bits are folded through the scalar-field accumulator
//! `acc = 2 * acc + bit` in the order they were produced.  Because the fold
//! treats the earliest bit as the most significant one, the resulting scalar
//! denotes the bit-reversed reading of the input, reduced modulo the scalar
//! modulus.
use vstd::prelude::*;
use vstd::arithmetic::div_mod::lemma_add_mod_noop;
use vstd::arithmetic::div_mod::lemma_small_mod;
use crate::field::Fe;
use crate::field::add_q;
use crate::field::q_modulus;
use crate::field::lemma_q_facts;
use crate::field::fe_add;

verus! {

/// Bit `k` of a little-endian byte string: bit `k % 8` of byte `k / 8`.
pub open spec fn bit_at(s: Seq<u8>, k: nat) -> bool {
    (s[k as int / 8] >> ((k % 8) as u8)) & 1 == 1
}

/// The integer obtained by reading bits `0 .. n` of `s` with reversed
/// significance: the bit produced first ends up most significant.
pub open spec fn bits_reversed_value(s: Seq<u8>, n: nat) -> nat
    decreases n,
{
    if n == 0 {
        0
    } else {
        2 * bits_reversed_value(s, (n - 1) as nat) + (if bit_at(s, (n - 1) as nat) {
            1nat
        } else {
            0nat
        })
    }
}

/// One accumulator step, on reduced representatives: doubling then adding a
/// small digit commutes with reduction modulo `q`.
proof fn lemma_double_add_mod(v: nat, b: nat)
    requires
        b < q_modulus(),
    ensures
        add_q(v % q_modulus(), v % q_modulus()) == (2 * v) % q_modulus(),
        add_q(add_q(v % q_modulus(), v % q_modulus()), b) == (2 * v + b) % q_modulus(),
{
    let q = q_modulus() as int;
    lemma_q_facts();
    lemma_add_mod_noop(v as int, v as int, q);
    assert(add_q(v % q_modulus(), v % q_modulus()) == (2 * v) % q_modulus());
    lemma_add_mod_noop(2 * (v as int), b as int, q);
    lemma_small_mod(b, q_modulus());
}

/// Reinterprets a coordinate-field element, given as its canonical
/// little-endian byte representation, as a scalar-field element: the bits are
/// extracted least-significant first and folded through `acc = 2 * acc + bit`
/// in extraction order.
pub fn base_to_scalar(repr: &[u8; 32]) -> (r: Fe)
    ensures
        r.wf(),
        r@ == bits_reversed_value(repr@, 256) % q_modulus(),
{
    let mut bits: Vec<bool> = Vec::new();
    let mut i: usize = 0;
    while i < 32
        invariant
            i <= 32,
            bits@.len() == 8 * i,
            forall|k: int| 0 <= k < 8 * i ==> bits@[k] == bit_at(repr@, k as nat),
        decreases 32 - i,
    {
        let byte = repr[i];
        let mut j: usize = 0;
        while j < 8
            invariant
                i < 32,
                j <= 8,
                byte == repr@[i as int],
                bits@.len() == 8 * i + j,
                forall|k: int| 0 <= k < 8 * i + j ==> bits@[k] == bit_at(repr@, k as nat),
            decreases 8 - j,
        {
            bits.push((byte >> (j as u8)) & 1 == 1);
            proof {
                let k = (8 * i + j) as nat;
                assert(k as int / 8 == i && k % 8 == j) by {
                    vstd::arithmetic::div_mod::lemma_fundamental_div_mod_converse(
                        k as int,
                        8,
                        i as int,
                        j as int,
                    );
                }
            }
            j = j + 1;
        }
        i = i + 1;
    }
    let one = Fe::one();
    let mut acc = Fe::zero();
    let mut k: usize = 0;
    proof {
        lemma_q_facts();
        lemma_small_mod(0nat, q_modulus());
    }
    while k < 256
        invariant
            k <= 256,
            bits@.len() == 256,
            forall|t: int| 0 <= t < 256 ==> bits@[t] == bit_at(repr@, t as nat),
            one@ == 1,
            one.wf(),
            acc.wf(),
            acc@ == bits_reversed_value(repr@, k as nat) % q_modulus(),
        decreases 256 - k,
    {
        let ghost v = bits_reversed_value(repr@, k as nat);
        acc = fe_add(&acc, &acc);
        if bits[k] {
            acc = fe_add(&acc, &one);
        }
        proof {
            lemma_q_facts();
            let b: nat = if bit_at(repr@, k as nat) {
                1nat
            } else {
                0nat
            };
            lemma_double_add_mod(v, b);
            assert(bits_reversed_value(repr@, (k + 1) as nat) == 2 * v + b);
        }
        k = k + 1;
    }
    acc
}

/// An all-zero representation reinterprets to the zero scalar: every bit of
/// the input is zero, so the accumulator never leaves zero.
pub proof fn lemma_zero_reinterprets_to_zero(s: Seq<u8>, n: nat)
    requires
        forall|i: int| 0 <= i < s.len() ==> s[i] == 0,
        n <= 8 * s.len(),
    ensures
        bits_reversed_value(s, n) == 0,
        bits_reversed_value(s, n) % q_modulus() == 0,
    decreases n,
{
    lemma_q_facts();
    lemma_small_mod(0nat, q_modulus());
    if n > 0 {
        lemma_zero_reinterprets_to_zero(s, (n - 1) as nat);
        let k = (n - 1) as nat;
        assert(0 <= k as int / 8 < s.len()) by {
            assert(8 * (k as int / 8) + k as int % 8 == k) by {
                vstd::arithmetic::div_mod::lemma_fundamental_div_mod(k as int, 8);
            }
        }
        let sh = (k % 8) as u8;
        assert((0u8 >> sh) & 1 != 1) by (bit_vector);
        assert(!bit_at(s, k));
        assert(bits_reversed_value(s, n) == 2 * bits_reversed_value(s, k));
    }
}

} // verus!
