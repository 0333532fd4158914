//! The algebraic math trait: the method set a type must provide to be driven
//! by expressions lowered under the algebraic mode.
//!
//! The algebraic mode binds the same method names as the default mode; what
//! differs is the contract the caller attaches to the implementations: an
//! algebraic implementation may reorder and refactor the operations, for
//! vectorization among other things, as long as the result equals some valid
//! re-association of the exact expression. An expression such as
//! `a + b + c + d` lowers to `a.add(b).add(c).add(d)`, which such an
//! implementation may compute as `(a + b) + (c + d)` if it chooses.

use vstd::prelude::*;

verus! {

/// The methods the algebraic mode's lowered calls resolve to. Implement it
/// for a type to drive that type through algebraically-relaxed arithmetic.
pub trait Float: Copy {
    fn add(self, other: Self) -> Self;

    fn sub(self, other: Self) -> Self;

    fn mul(self, other: Self) -> Self;

    fn div(self, other: Self) -> Self;

    fn rem(self, other: Self) -> Self;

    fn eq(self, other: Self) -> bool;

    fn lt(self, other: Self) -> bool;

    fn le(self, other: Self) -> bool;

    fn ne(self, other: Self) -> bool;

    fn ge(self, other: Self) -> bool;

    fn gt(self, other: Self) -> bool;

    /// Dereference is the identity on the value: the operand itself.
    fn deref(&self) -> (r: Self)
        ensures
            r == *self,
    {
        *self
    }

    fn neg(self) -> Self;
}

} // verus!
