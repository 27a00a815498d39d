//! Unsigned 256-bit integers.
//!
//! A value is held as four 64-bit limbs, least significant first, and viewed
//! as the natural number they spell. Arithmetic that can overflow is done by
//! `primitive_types::U256`; comparisons are done here on the limbs.

use vstd::prelude::*;

verus! {

/// The largest value a `U256` can hold: 2^256 - 1.
pub open spec fn max_u256() -> nat {
    0xffff_ffff_ffff_ffff_ffff_ffff_ffff_ffff_ffff_ffff_ffff_ffff_ffff_ffff_ffff_ffffnat
}

/// The number spelled by four limbs, least significant first.
pub open spec fn limbs_value(l0: u64, l1: u64, l2: u64, l3: u64) -> nat {
    (l0 as nat) + (l1 as nat) * 0x1_0000_0000_0000_0000nat + (l2 as nat)
        * 0x1_0000_0000_0000_0000_0000_0000_0000_0000nat + (l3 as nat)
        * 0x1_0000_0000_0000_0000_0000_0000_0000_0000_0000_0000_0000_0000nat
}

/// An unsigned 256-bit integer, as four limbs with the least significant first.
#[derive(Clone, Copy, Debug, PartialEq, Eq)]
pub struct U256(pub [u64; 4]);

impl View for U256 {
    type V = nat;

    open spec fn view(&self) -> nat {
        limbs_value(self.0[0], self.0[1], self.0[2], self.0[3])
    }
}

/// Two values with the same limbs are the same value, and the other way round.
pub proof fn lemma_view_injective(a: U256, b: U256)
    ensures
        a@ == b@ <==> a == b,
        a@ <= max_u256(),
{
    if a@ == b@ {
        assert(a.0[3] == b.0[3]);
        assert(a.0[2] == b.0[2]);
        assert(a.0[1] == b.0[1]);
        assert(a.0[0] == b.0[0]);
        assert(a.0 =~= b.0);
    }
}

impl U256 {
    /// The value that is a given number; meant for numbers up to 2^256 - 1.
    pub open spec fn of(n: nat) -> U256 {
        choose|w: U256| w@ == n
    }

    /// Every number up to 2^256 - 1 is the number of its value.
    pub proof fn lemma_of_value(n: nat)
        requires
            n <= max_u256(),
        ensures
            U256::of(n)@ == n,
    {
        let r: nat = 0x1_0000_0000_0000_0000nat;
        let l0 = (n % r) as u64;
        let l1 = ((n / r) % r) as u64;
        let l2 = ((n / r / r) % r) as u64;
        let l3 = (n / r / r / r) as u64;
        assert(limbs_value(l0, l1, l2, l3) == n);
        let w = U256([l0, l1, l2, l3]);
        assert(w.0[0] == l0 && w.0[1] == l1 && w.0[2] == l2 && w.0[3] == l3);
        assert(w@ == n);
    }

    /// A value is the value that is its number.
    pub proof fn lemma_of(self)
        ensures
            U256::of(self@) == self,
    {
        lemma_view_injective(U256::of(self@), self);
    }

    /// The value 0.
    pub fn zero() -> (r: U256)
        ensures
            r@ == 0,
    {
        U256([0, 0, 0, 0])
    }

    /// The value 1.
    pub fn one() -> (r: U256)
        ensures
            r@ == 1,
    {
        U256([1, 0, 0, 0])
    }

    /// The value of a 64-bit integer.
    pub fn from_u64(v: u64) -> (r: U256)
        ensures
            r@ == v,
    {
        U256([v, 0, 0, 0])
    }

    /// Whether two values are the same number.
    pub fn eq(&self, other: &U256) -> (r: bool)
        ensures
            r == (self@ == other@),
            r == (*self == *other),
    {
        proof {
            lemma_view_injective(*self, *other);
        }
        self.0[0] == other.0[0] && self.0[1] == other.0[1] && self.0[2] == other.0[2] && self.0[3]
            == other.0[3]
    }

    /// Whether this value is strictly below the other.
    pub fn lt(&self, other: &U256) -> (r: bool)
        ensures
            r == (self@ < other@),
    {
        if self.0[3] != other.0[3] {
            self.0[3] < other.0[3]
        } else if self.0[2] != other.0[2] {
            self.0[2] < other.0[2]
        } else if self.0[1] != other.0[1] {
            self.0[1] < other.0[1]
        } else {
            self.0[0] < other.0[0]
        }
    }

    /// The smaller of two values.
    pub fn min(self, other: U256) -> (r: U256)
        ensures
            r@ == if self@ <= other@ { self@ } else { other@ },
            r == self || r == other,
    {
        if other.lt(&self) {
            other
        } else {
            self
        }
    }

    /// The sum, or `None` where it does not fit in 256 bits.
    pub fn checked_add(self, other: U256) -> (r: Option<U256>)
        ensures
            self@ + other@ <= max_u256() ==> r is Some && r.unwrap()@ == self@ + other@,
            self@ + other@ > max_u256() ==> r is None,
    {
        wide_checked_add(self, other)
    }

    /// The difference, or `None` where the other value is the larger.
    pub fn checked_sub(self, other: U256) -> (r: Option<U256>)
        ensures
            self@ >= other@ ==> r is Some && r.unwrap()@ == self@ - other@,
            self@ < other@ ==> r is None,
    {
        wide_checked_sub(self, other)
    }

    /// The product, or `None` where it does not fit in 256 bits.
    pub fn checked_mul(self, other: U256) -> (r: Option<U256>)
        ensures
            self@ * other@ <= max_u256() ==> r is Some && r.unwrap()@ == self@ * other@,
            self@ * other@ > max_u256() ==> r is None,
    {
        wide_checked_mul(self, other)
    }
}

/// `primitive_types::U256::checked_add`: the sum of the two numbers where it
/// is below 2^256, and `None` where the addition carries out of the top limb.
#[verifier::external_body]
fn wide_checked_add(a: U256, b: U256) -> (r: Option<U256>)
    ensures
        a@ + b@ <= max_u256() ==> r is Some && r.unwrap()@ == a@ + b@,
        a@ + b@ > max_u256() ==> r is None,
{
    primitive_types::U256(a.0).checked_add(primitive_types::U256(b.0)).map(|s| U256(s.0))
}

/// `primitive_types::U256::checked_sub`: the difference of the two numbers
/// where the first is at least the second, and `None` where it borrows.
#[verifier::external_body]
fn wide_checked_sub(a: U256, b: U256) -> (r: Option<U256>)
    ensures
        a@ >= b@ ==> r is Some && r.unwrap()@ == a@ - b@,
        a@ < b@ ==> r is None,
{
    primitive_types::U256(a.0).checked_sub(primitive_types::U256(b.0)).map(|s| U256(s.0))
}

/// `primitive_types::U256::checked_mul`: the product of the two numbers where
/// it is below 2^256, and `None` where the multiplication overflows.
#[verifier::external_body]
fn wide_checked_mul(a: U256, b: U256) -> (r: Option<U256>)
    ensures
        a@ * b@ <= max_u256() ==> r is Some && r.unwrap()@ == a@ * b@,
        a@ * b@ > max_u256() ==> r is None,
{
    primitive_types::U256(a.0).checked_mul(primitive_types::U256(b.0)).map(|s| U256(s.0))
}

} // verus!
