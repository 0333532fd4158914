//! The fast math trait: the method set a type must provide to be driven by
//! expressions lowered under the fast mode.
//!
//! Fast-mode arithmetic assumes every operand is finite — neither infinite
//! nor not-a-number. Here that assumption is an explicit, checked
//! precondition rather than unchecked misbehaviour: each arithmetic method
//! is fallible, and an implementation reports a non-finite operand with
//! [`LowerError::FiniteAssumptionViolated`] instead of computing with it.
//! Prefer the algebraic mode in most cases.

use vstd::prelude::*;

use crate::ast::LowerError;

verus! {

/// The methods the fast mode's lowered calls resolve to. Implementations
/// must return [`LowerError::FiniteAssumptionViolated`] whenever an operand
/// fails the finiteness check, and may otherwise exploit the finiteness of
/// both operands.
pub trait Float: Copy {
    /// The checked form of the fast-mode precondition: hands `self` back
    /// when both operands are finite, and the finite-assumption error when
    /// either is not.
    fn finite(self, other: Self) -> Result<Self, LowerError>;

    fn add(self, other: Self) -> Result<Self, LowerError>;

    fn sub(self, other: Self) -> Result<Self, LowerError>;

    fn mul(self, other: Self) -> Result<Self, LowerError>;

    fn div(self, other: Self) -> Result<Self, LowerError>;

    fn rem(self, other: Self) -> Result<Self, LowerError>;

    fn eq(self, other: Self) -> Result<bool, LowerError>;

    fn lt(self, other: Self) -> Result<bool, LowerError>;

    fn le(self, other: Self) -> Result<bool, LowerError>;

    fn ne(self, other: Self) -> Result<bool, LowerError>;

    fn ge(self, other: Self) -> Result<bool, LowerError>;

    fn gt(self, other: Self) -> Result<bool, LowerError>;

    /// Dereference is the identity on the value: the operand itself.
    fn deref(&self) -> (r: Self)
        ensures
            r == *self,
    {
        *self
    }

    fn neg(self) -> Self;
}

} // verus!
