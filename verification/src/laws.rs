//! The ring laws, proved of the spec functions that the operators'
//! contracts are stated in.

use crate::modular::residue;
use crate::ring::Zn;
use vstd::arithmetic::div_mod::{
    lemma_add_mod_noop, lemma_add_mod_noop_right, lemma_mod_twice, lemma_mul_mod_noop_general,
    lemma_small_mod, lemma_sub_mod_noop,
};
use vstd::prelude::*;
use vstd::std_specs::ops::{AddSpec, MulSpec, SubSpec};

verus! {

/// Closure: the sum, the difference and the product of two elements are
/// canonical, each with its representative in `[0, N)`.
pub proof fn law_closure<const N: u128>(a: Zn<N>, b: Zn<N>)
    requires
        N > 0,
    ensures
        0 <= a.add_spec(b)@ < N,
        0 <= a.sub_spec(b)@ < N,
        0 <= a.mul_spec(b)@ < N,
{
    Zn::<N>::lemma_spec_new(a@ + b@);
    Zn::<N>::lemma_spec_new(a@ - b@);
    Zn::<N>::lemma_spec_new(a@ * b@);
}

/// Additive identity: adding zero, on either side, changes nothing.
pub proof fn law_add_zero<const N: u128>(a: Zn<N>)
    requires
        a.wf(),
    ensures
        a.add_spec(Zn::<N>::spec_zero()) == a,
        Zn::<N>::spec_zero().add_spec(a) == a,
{
    Zn::<N>::lemma_spec_new(0);
    lemma_small_mod(0, N as nat);
    Zn::<N>::lemma_spec_new_of_view(a);
}

/// Multiplicative identity: multiplying by one, on either side, changes
/// nothing.
pub proof fn law_mul_one<const N: u128>(a: Zn<N>)
    requires
        a.wf(),
    ensures
        a.mul_spec(Zn::<N>::spec_one()) == a,
        Zn::<N>::spec_one().mul_spec(a) == a,
{
    let one = Zn::<N>::spec_one();
    Zn::<N>::lemma_spec_new(1);
    if N == 1 {
        assert(residue(1, 1) == 0);
        assert(a@ * one@ == a@) by (nonlinear_arith)
            requires
                a@ == 0,
        ;
    } else {
        lemma_small_mod(1, N as nat);
        assert(a@ * one@ == a@) by (nonlinear_arith)
            requires
                one@ == 1,
        ;
    }
    Zn::<N>::lemma_spec_new_of_view(a);
    law_mul_commutative(a, one);
}

/// Subtraction undoes addition: `(a - b) + b` is `a`.
pub proof fn law_sub_then_add<const N: u128>(a: Zn<N>, b: Zn<N>)
    requires
        a.wf(),
        b.wf(),
    ensures
        a.sub_spec(b).add_spec(b) == a,
{
    let n = N as int;
    Zn::<N>::lemma_spec_new(a@ - b@);
    lemma_add_mod_noop(a@ - b@, b@, n);
    lemma_small_mod(b@ as nat, N as nat);
    lemma_mod_twice(a@ - b@ + b@, n);
    Zn::<N>::lemma_spec_new_of_view(a);
}

/// Addition is commutative.
pub proof fn law_add_commutative<const N: u128>(a: Zn<N>, b: Zn<N>)
    ensures
        a.add_spec(b) == b.add_spec(a),
{
}

/// Multiplication is commutative.
pub proof fn law_mul_commutative<const N: u128>(a: Zn<N>, b: Zn<N>)
    ensures
        a.mul_spec(b) == b.mul_spec(a),
{
    assert(a@ * b@ == b@ * a@) by (nonlinear_arith);
}

/// Addition is associative.
pub proof fn law_add_associative<const N: u128>(a: Zn<N>, b: Zn<N>, c: Zn<N>)
    requires
        N > 0,
    ensures
        a.add_spec(b).add_spec(c) == a.add_spec(b.add_spec(c)),
{
    let n = N as int;
    Zn::<N>::lemma_spec_new(a@ + b@);
    Zn::<N>::lemma_spec_new(b@ + c@);
    lemma_add_mod_noop_right(c@, a@ + b@, n);
    lemma_add_mod_noop_right(a@, b@ + c@, n);
    assert(c@ + (a@ + b@) == a@ + (b@ + c@));
}

/// Multiplication is associative.
pub proof fn law_mul_associative<const N: u128>(a: Zn<N>, b: Zn<N>, c: Zn<N>)
    requires
        N > 0,
    ensures
        a.mul_spec(b).mul_spec(c) == a.mul_spec(b.mul_spec(c)),
{
    let n = N as int;
    Zn::<N>::lemma_spec_new(a@ * b@);
    Zn::<N>::lemma_spec_new(b@ * c@);
    lemma_mul_mod_noop_general(a@ * b@, c@, n);
    lemma_mul_mod_noop_general(a@, b@ * c@, n);
    assert((a@ * b@) * c@ == a@ * (b@ * c@)) by (nonlinear_arith);
}

/// Multiplication distributes over addition.
pub proof fn law_mul_distributive<const N: u128>(a: Zn<N>, b: Zn<N>, c: Zn<N>)
    requires
        N > 0,
    ensures
        a.mul_spec(b.add_spec(c)) == a.mul_spec(b).add_spec(a.mul_spec(c)),
{
    let n = N as int;
    Zn::<N>::lemma_spec_new(b@ + c@);
    Zn::<N>::lemma_spec_new(a@ * b@);
    Zn::<N>::lemma_spec_new(a@ * c@);
    lemma_mul_mod_noop_general(a@, b@ + c@, n);
    lemma_add_mod_noop(a@ * b@, a@ * c@, n);
    assert(a@ * (b@ + c@) == a@ * b@ + a@ * c@) by (nonlinear_arith);
}

/// The difference `a - b` is the only canonical element that `b` plus it
/// gives `a`.
pub proof fn law_sub_unique<const N: u128>(a: Zn<N>, b: Zn<N>, c: Zn<N>)
    requires
        b.wf(),
        c.wf(),
        b.add_spec(c) == a,
    ensures
        c == a.sub_spec(b),
{
    let n = N as int;
    Zn::<N>::lemma_spec_new(b@ + c@);
    lemma_sub_mod_noop(b@ + c@, b@, n);
    lemma_small_mod(b@ as nat, N as nat);
    Zn::<N>::lemma_spec_new_of_view(c);
}

/// Reduction is idempotent: reducing a stored representative again gives
/// the same representative.
pub proof fn law_reduction_idempotent<const N: u128>(v: u128)
    requires
        N > 0,
    ensures
        Zn::<N>::spec_new(Zn::<N>::spec_new(v as int)@)@ == Zn::<N>::spec_new(v as int)@,
        Zn::<N>::spec_new(Zn::<N>::spec_new(v as int)@) == Zn::<N>::spec_new(v as int),
{
    Zn::<N>::lemma_spec_new(v as int);
    Zn::<N>::lemma_spec_new_of_view(Zn::<N>::spec_new(v as int));
}

} // verus!
