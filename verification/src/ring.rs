//! The ring element type and its operators.
//!
//! An element is modelled by its view, the stored representative as an
//! `int`. The spec functions `spec_new`, `add_spec`, `sub_spec` and
//! `mul_spec` say which element each operation returns; every operator also
//! states the view of its result directly.

use crate::modular::{add_mod, mul_mod, reduce, residue, sub_mod};
use vstd::arithmetic::div_mod::lemma_small_mod;
use vstd::prelude::*;
use vstd::std_specs::cmp::PartialEqSpecImpl;
use vstd::std_specs::convert::FromSpecImpl;
use vstd::std_specs::ops::{AddSpec, MulSpec};

verus! {

/// An element of the integers modulo `N`, held as its representative in
/// `[0, N)`. Elements of different moduli are different types.
#[derive(Debug, Clone, Copy, Eq)]
pub struct Zn<const N: u128> {
    value: u128,
}

impl<const N: u128> View for Zn<N> {
    type V = int;

    /// The stored representative.
    closed spec fn view(&self) -> int {
        self.value as int
    }
}

impl<const N: u128> Zn<N> {
    /// The representative is canonical: non-negative and below the modulus.
    /// Every element that executable code can hold satisfies this.
    #[verifier::type_invariant]
    pub open spec fn wf(self) -> bool {
        0 <= self@ < N
    }

    /// The element whose stored representative is `v`.
    pub closed spec fn with_value(v: int) -> Self {
        Zn { value: v as u128 }
    }

    /// The residue class of `v`.
    pub open spec fn spec_new(v: int) -> Self {
        Self::with_value(residue(v, N as int))
    }

    /// The additive identity.
    pub open spec fn spec_zero() -> Self {
        Self::spec_new(0)
    }

    /// The multiplicative identity.
    pub open spec fn spec_one() -> Self {
        Self::spec_new(1)
    }

    /// An element is determined by its view.
    pub proof fn lemma_equal_views(a: Self, b: Self)
        requires
            a@ == b@,
        ensures
            a == b,
    {
    }

    /// The class of any integer is held by its canonical representative.
    pub proof fn lemma_spec_new(v: int)
        requires
            N > 0,
        ensures
            Self::spec_new(v)@ == residue(v, N as int),
            Self::spec_new(v).wf(),
    {
    }

    /// A canonical element is the class of its own representative.
    pub proof fn lemma_spec_new_of_view(a: Self)
        requires
            a.wf(),
        ensures
            Self::spec_new(a@) == a,
    {
        lemma_small_mod(a@ as nat, N as nat);
        Self::lemma_equal_views(Self::spec_new(a@), a);
    }

    /// Reduces `value` modulo `N`.
    pub fn new(value: u128) -> (r: Self)
        requires
            N > 0,
        ensures
            r == Self::spec_new(value as int),
            r@ == residue(value as int, N as int),
            r.wf(),
    {
        Zn { value: reduce(value, N) }
    }
}

impl<const N: u128> PartialEqSpecImpl for Zn<N> {
    open spec fn obeys_eq_spec() -> bool {
        true
    }

    open spec fn eq_spec(&self, other: &Self) -> bool {
        *self == *other
    }
}

impl<const N: u128> PartialEq for Zn<N> {
    fn eq(&self, other: &Self) -> (r: bool) {
        self.value == other.value
    }
}

impl<const N: u128> vstd::std_specs::ops::AddSpecImpl for Zn<N> {
    open spec fn obeys_add_spec() -> bool {
        true
    }

    open spec fn add_req(self, rhs: Self) -> bool {
        true
    }

    open spec fn add_spec(self, rhs: Self) -> Self {
        Self::spec_new(self@ + rhs@)
    }
}

impl<const N: u128> core::ops::Add for Zn<N> {
    type Output = Self;

    /// The sum in the ring. Exact for every modulus: the sum of the two
    /// representatives is never formed where it could overflow.
    fn add(self, rhs: Self) -> (r: Self)
        ensures
            r@ == residue(self@ + rhs@, N as int),
            r.wf(),
    {
        proof {
            use_type_invariant(self);
            use_type_invariant(rhs);
        }
        Zn { value: add_mod(self.value, rhs.value, N) }
    }
}

impl<const N: u128> vstd::std_specs::ops::SubSpecImpl for Zn<N> {
    open spec fn obeys_sub_spec() -> bool {
        true
    }

    open spec fn sub_req(self, rhs: Self) -> bool {
        true
    }

    open spec fn sub_spec(self, rhs: Self) -> Self {
        Self::spec_new(self@ - rhs@)
    }
}

impl<const N: u128> core::ops::Sub for Zn<N> {
    type Output = Self;

    /// The difference in the ring. Where the left representative is the
    /// smaller one, the deficit is taken from the top of the range.
    fn sub(self, rhs: Self) -> (r: Self)
        ensures
            r@ == residue(self@ - rhs@, N as int),
            self@ >= rhs@ ==> r@ == self@ - rhs@,
            self@ < rhs@ ==> r@ == N - (rhs@ - self@),
            r.wf(),
    {
        proof {
            use_type_invariant(self);
            use_type_invariant(rhs);
        }
        Zn { value: sub_mod(self.value, rhs.value, N) }
    }
}

impl<const N: u128> vstd::std_specs::ops::MulSpecImpl for Zn<N> {
    open spec fn obeys_mul_spec() -> bool {
        true
    }

    open spec fn mul_req(self, rhs: Self) -> bool {
        true
    }

    open spec fn mul_spec(self, rhs: Self) -> Self {
        Self::spec_new(self@ * rhs@)
    }
}

impl<const N: u128> core::ops::Mul for Zn<N> {
    type Output = Self;

    /// The product in the ring. Exact for every modulus, also where the
    /// product of the two representatives does not fit in a `u128`.
    fn mul(self, rhs: Self) -> (r: Self)
        ensures
            r@ == residue(self@ * rhs@, N as int),
            r.wf(),
    {
        proof {
            use_type_invariant(self);
            use_type_invariant(rhs);
        }
        Zn { value: mul_mod(self.value, rhs.value, N) }
    }
}

impl<const N: u128> core::ops::AddAssign for Zn<N> {
    /// Replaces `self` by `self + rhs`.
    fn add_assign(&mut self, rhs: Self)
        ensures
            *final(self) == old(self).add_spec(rhs),
            final(self)@ == residue(old(self)@ + rhs@, N as int),
            final(self).wf(),
    {
        *self = *self + rhs;
    }
}

impl<const N: u128> core::ops::MulAssign for Zn<N> {
    /// Replaces `self` by `self * rhs`.
    fn mul_assign(&mut self, rhs: Self)
        ensures
            *final(self) == old(self).mul_spec(rhs),
            final(self)@ == residue(old(self)@ * rhs@, N as int),
            final(self).wf(),
    {
        *self = *self * rhs;
    }
}

impl<const N: u128> num_traits::Zero for Zn<N> {
    /// The additive identity.
    fn zero() -> (r: Self)
        requires
            N > 0,
        ensures
            r == Self::spec_zero(),
            r@ == 0,
            r.wf(),
    {
        Zn::new(0)
    }

    /// Whether `self` is the additive identity.
    fn is_zero(&self) -> (r: bool)
        ensures
            r == (self@ == 0),
            r == (*self == Self::spec_zero()),
    {
        proof {
            use_type_invariant(self);
        }
        self.value == 0
    }
}

impl<const N: u128> num_traits::One for Zn<N> {
    /// The multiplicative identity. In the ring of one element it is zero.
    fn one() -> (r: Self)
        requires
            N > 0,
        ensures
            r == Self::spec_one(),
            r@ == (if N == 1 { 0int } else { 1int }),
            r.wf(),
    {
        proof {
            if N == 1 {
                assert(residue(1, 1) == 0);
            } else {
                lemma_small_mod(1, N as nat);
            }
        }
        Zn::new(1)
    }
}

impl<const N: u128> FromSpecImpl<Zn<N>> for u128 {
    open spec fn obeys_from_spec() -> bool {
        true
    }

    open spec fn from_spec(zn: Zn<N>) -> u128 {
        zn@ as u128
    }
}

impl<const N: u128> From<Zn<N>> for u128 {
    /// The stored representative.
    fn from(zn: Zn<N>) -> (r: u128)
        ensures
            r == zn@,
            r < N,
    {
        proof {
            use_type_invariant(zn);
        }
        zn.value
    }
}

} // verus!
