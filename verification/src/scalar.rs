//! The arithmetic that a method needs of its coefficients and of the states
//! it advances.

use vstd::prelude::*;

verus! {

/// A coefficient, a time or a step size: a value that can be added to and
/// multiplied with another, and of which one can tell whether it is zero.
///
/// Every operation is total and a function of its operands alone.
pub trait Scalar: Sized {
    /// Whether the value is the additive zero.
    spec fn is_zero_spec(self) -> bool;

    /// The sum `self + rhs`.
    spec fn plus_spec(self, rhs: Self) -> Self;

    /// The product `self * rhs`.
    spec fn times_spec(self, rhs: Self) -> Self;

    /// Tells whether the value is the additive zero.
    fn is_zero(&self) -> (r: bool)
        ensures
            r == self.is_zero_spec(),
    ;

    /// Computes `self + rhs`.
    fn plus(&self, rhs: &Self) -> (r: Self)
        ensures
            r == self.plus_spec(*rhs),
    ;

    /// Computes `self * rhs`.
    fn times(&self, rhs: &Self) -> (r: Self)
        ensures
            r == self.times_spec(*rhs),
    ;
}

/// A state `y` of a system whose time is of type `T`: a value that can be
/// added to another state and scaled by a `T`.
///
/// Every operation is total and a function of its operands alone.
pub trait State<T>: Sized {
    /// The sum `self + rhs`.
    spec fn plus_spec(self, rhs: Self) -> Self;

    /// The state scaled by `factor`.
    spec fn scaled_spec(self, factor: T) -> Self;

    /// Returns a copy of the state.
    fn duplicate(&self) -> (r: Self)
        ensures
            r == *self,
    ;

    /// Computes `self + rhs`.
    fn plus(&self, rhs: &Self) -> (r: Self)
        ensures
            r == self.plus_spec(*rhs),
    ;

    /// Computes the state scaled by `factor`.
    fn scaled(&self, factor: &T) -> (r: Self)
        ensures
            r == self.scaled_spec(*factor),
    ;
}

/// `num::Zero::is_zero` for `i64`: whether the number equals 0.
#[verifier::external_body]
fn is_zero_i64(value: &i64) -> (r: bool)
    ensures
        r == (*value == 0),
{
    num::Zero::is_zero(value)
}

/// The integers modulo 2^64, in two's complement: sums and products wrap.
impl Scalar for i64 {
    open spec fn is_zero_spec(self) -> bool {
        self == 0
    }

    open spec fn plus_spec(self, rhs: Self) -> Self {
        self.wrapping_add(rhs)
    }

    open spec fn times_spec(self, rhs: Self) -> Self {
        self.wrapping_mul(rhs)
    }

    fn is_zero(&self) -> (r: bool) {
        is_zero_i64(self)
    }

    fn plus(&self, rhs: &Self) -> (r: Self) {
        self.wrapping_add(*rhs)
    }

    fn times(&self, rhs: &Self) -> (r: Self) {
        self.wrapping_mul(*rhs)
    }
}

/// A single equation over the integers modulo 2^64.
impl State<i64> for i64 {
    open spec fn plus_spec(self, rhs: Self) -> Self {
        self.wrapping_add(rhs)
    }

    open spec fn scaled_spec(self, factor: i64) -> Self {
        self.wrapping_mul(factor)
    }

    fn duplicate(&self) -> (r: Self) {
        *self
    }

    fn plus(&self, rhs: &Self) -> (r: Self) {
        self.wrapping_add(*rhs)
    }

    fn scaled(&self, factor: &i64) -> (r: Self) {
        self.wrapping_mul(*factor)
    }
}

} // verus!
