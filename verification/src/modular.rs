//! Arithmetic on canonical residues held in `u128`.
//!
//! Every function takes operands already reduced below the modulus and
//! returns the reduced result. No intermediate value leaves the range of
//! `u128`, whatever the modulus.

use vstd::arithmetic::div_mod::{
    lemma_fundamental_div_mod, lemma_fundamental_div_mod_converse, lemma_mod_multiples_vanish,
    lemma_small_mod,
};
use vstd::prelude::*;

verus! {

/// The canonical representative of `v` modulo `n`: the one in `[0, n)`.
pub open spec fn residue(v: int, n: int) -> int {
    v % n
}

/// Adding a multiple of the modulus does not change the residue.
pub proof fn lemma_residue_shift(v: int, m: int, n: int)
    requires
        n > 0,
    ensures
        residue(v + m * n, n) == residue(v, n),
{
    assert(v + m * n == n * m + v) by (nonlinear_arith);
    lemma_mod_multiples_vanish(m, v, n);
}

/// One round of double-and-add keeps `acc + x * k` in its residue class.
proof fn lemma_double_and_add_step(acc: int, x: int, k: int, acc1: int, x1: int, n: int)
    requires
        n > 0,
        k >= 0,
        k % 2 == 1 ==> acc1 == residue(acc + x, n),
        k % 2 == 0 ==> acc1 == acc,
        x1 == residue(2 * x, n),
    ensures
        residue(acc1 + x1 * (k / 2), n) == residue(acc + x * k, n),
{
    let q = k / 2;
    let bit = k % 2;
    let s = if bit == 1 { acc + x } else { 0 };
    let c1 = s / n;
    let c2 = (2 * x) / n;
    lemma_fundamental_div_mod(s, n);
    lemma_fundamental_div_mod(2 * x, n);
    assert(acc + x * k == (acc1 + x1 * q) + (c1 + c2 * q) * n) by (nonlinear_arith)
        requires
            k == 2 * q + bit,
            bit == 1 ==> acc + x == n * c1 + acc1,
            bit == 0 ==> acc1 == acc && c1 == 0,
            bit == 0 || bit == 1,
            2 * x == n * c2 + x1,
    ;
    lemma_residue_shift(acc1 + x1 * q, c1 + c2 * q, n);
}

/// Reduces `v` to its canonical representative.
pub fn reduce(v: u128, n: u128) -> (r: u128)
    requires
        n > 0,
    ensures
        r == residue(v as int, n as int),
        r < n,
{
    v % n
}

/// Sum of two residues.
pub fn add_mod(a: u128, b: u128, n: u128) -> (r: u128)
    requires
        a < n,
        b < n,
    ensures
        r == residue(a + b, n as int),
        r < n,
{
    let gap: u128 = n - b;
    if a >= gap {
        let r: u128 = a - gap;
        proof {
            lemma_fundamental_div_mod_converse(a + b, n as int, 1, r as int);
        }
        r
    } else {
        let r: u128 = a + b;
        proof {
            lemma_small_mod((a + b) as nat, n as nat);
        }
        r
    }
}

/// Difference of two residues, wrapped back into range when `a < b`.
pub fn sub_mod(a: u128, b: u128, n: u128) -> (r: u128)
    requires
        a < n,
        b < n,
    ensures
        r == residue(a - b, n as int),
        a >= b ==> r == a - b,
        a < b ==> r == n - (b - a),
        r < n,
{
    if a < b {
        let r: u128 = n - (b - a);
        proof {
            lemma_fundamental_div_mod_converse(a - b, n as int, -1, r as int);
        }
        r
    } else {
        let r: u128 = a - b;
        proof {
            lemma_small_mod((a - b) as nat, n as nat);
        }
        r
    }
}

/// Product of two residues.
///
/// When the product fits in `u128` it is reduced directly. Otherwise it is
/// built by double-and-add, each step reduced, so that nothing overflows.
pub fn mul_mod(a: u128, b: u128, n: u128) -> (r: u128)
    requires
        a < n,
        b < n,
    ensures
        r == residue(a * b, n as int),
        r < n,
{
    match a.checked_mul(b) {
        Some(p) => p % n,
        None => {
            let mut acc: u128 = 0;
            let mut x: u128 = a;
            let mut k: u128 = b;
            proof {
                lemma_small_mod(0, n as nat);
            }
            while k > 0
                invariant
                    acc < n,
                    x < n,
                    residue(acc + x * k, n as int) == residue(a * b, n as int),
                decreases k,
            {
                let ghost acc0 = acc;
                let ghost x0 = x;
                if k % 2 == 1 {
                    acc = add_mod(acc, x, n);
                }
                x = add_mod(x, x, n);
                proof {
                    lemma_double_and_add_step(
                        acc0 as int,
                        x0 as int,
                        k as int,
                        acc as int,
                        x as int,
                        n as int,
                    );
                }
                k = k / 2;
            }
            proof {
                assert(x * k == 0) by (nonlinear_arith)
                    requires
                        k == 0,
                ;
                lemma_small_mod(acc as nat, n as nat);
            }
            acc
        },
    }
}

} // verus!
