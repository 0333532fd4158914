//! The operator table's symbol lookup, the mode-name resolution, and the two
//! caller-facing method traits, including the checked fast-mode precondition.

use lower::ast::{LowerError, Mode};
use lower::algebraic::Float as AlgebraicFloat;
use lower::fast::Float as FastFloat;
use lower::pipeline::mode_from_name;
use lower::table::{lookup_binary, lookup_unary};

#[test]
fn binary_lookup_per_mode() {
    assert_eq!(
        lookup_binary(Mode::Default, b"+").unwrap(),
        (b"add".to_vec(), 2)
    );
    assert_eq!(
        lookup_binary(Mode::Wrapping, b"+").unwrap(),
        (b"wrapping_add".to_vec(), 2)
    );
    assert_eq!(
        lookup_binary(Mode::Saturating, b"%").unwrap(),
        (b"saturating_rem".to_vec(), 2)
    );
    assert_eq!(
        lookup_binary(Mode::Algebraic, b"/").unwrap(),
        (b"div".to_vec(), 2)
    );
    assert_eq!(
        lookup_binary(Mode::Fast, b"<=").unwrap(),
        (b"le".to_vec(), 2)
    );
    assert_eq!(
        lookup_binary(Mode::Default, b"!=").unwrap(),
        (b"ne".to_vec(), 2)
    );
}

#[test]
fn unknown_symbol_is_unknown_operator() {
    assert_eq!(
        lookup_binary(Mode::Default, b"^").unwrap_err(),
        LowerError::UnknownOperator
    );
    assert_eq!(
        lookup_unary(Mode::Default, b"!").unwrap_err(),
        LowerError::UnknownOperator
    );
}

#[test]
fn known_symbol_unbound_for_mode() {
    assert_eq!(
        lookup_binary(Mode::Wrapping, b"<").unwrap_err(),
        LowerError::UnsupportedOperatorForMode
    );
    assert_eq!(
        lookup_binary(Mode::Saturating, b"==").unwrap_err(),
        LowerError::UnsupportedOperatorForMode
    );
    assert_eq!(
        lookup_unary(Mode::Wrapping, b"-").unwrap_err(),
        LowerError::UnsupportedOperatorForMode
    );
}

#[test]
fn unary_lookup_per_mode() {
    assert_eq!(
        lookup_unary(Mode::Default, b"-").unwrap(),
        (b"neg".to_vec(), 1)
    );
    assert_eq!(
        lookup_unary(Mode::Wrapping, b"*").unwrap(),
        (b"deref".to_vec(), 1)
    );
    assert_eq!(
        lookup_unary(Mode::Saturating, b"*").unwrap(),
        (b"deref".to_vec(), 1)
    );
}

#[test]
fn mode_name_resolution() {
    assert_eq!(mode_from_name(b"default").unwrap(), Mode::Default);
    assert_eq!(mode_from_name(b"algebraic").unwrap(), Mode::Algebraic);
    assert_eq!(mode_from_name(b"fast").unwrap(), Mode::Fast);
    assert_eq!(mode_from_name(b"wrapping").unwrap(), Mode::Wrapping);
    assert_eq!(mode_from_name(b"saturating").unwrap(), Mode::Saturating);
    assert_eq!(mode_from_name(b"").unwrap_err(), LowerError::UnknownMode);
    assert_eq!(
        mode_from_name(b"turbo").unwrap_err(),
        LowerError::UnknownMode
    );
}

/// An algebraic-mode implementation over a plain float wrapper: ordinary
/// operations are one valid re-association of themselves.
#[derive(Debug, Clone, Copy, PartialEq)]
struct Alge(f64);

impl lower::algebraic::Float for Alge {
    fn add(self, other: Self) -> Self {
        Alge(self.0 + other.0)
    }
    fn sub(self, other: Self) -> Self {
        Alge(self.0 - other.0)
    }
    fn mul(self, other: Self) -> Self {
        Alge(self.0 * other.0)
    }
    fn div(self, other: Self) -> Self {
        Alge(self.0 / other.0)
    }
    fn rem(self, other: Self) -> Self {
        Alge(self.0 % other.0)
    }
    fn eq(self, other: Self) -> bool {
        self.0 == other.0
    }
    fn lt(self, other: Self) -> bool {
        self.0 < other.0
    }
    fn le(self, other: Self) -> bool {
        self.0 <= other.0
    }
    fn ne(self, other: Self) -> bool {
        self.0 != other.0
    }
    fn ge(self, other: Self) -> bool {
        self.0 >= other.0
    }
    fn gt(self, other: Self) -> bool {
        self.0 > other.0
    }
    fn neg(self) -> Self {
        Alge(-self.0)
    }
}

#[test]
fn algebraic_trait_drives_lowered_calls() {
    let (a, b, c) = (Alge(2.0), Alge(3.0), Alge(4.0));
    // a * b + c, as the algebraic mode lowers it.
    assert_eq!(a.mul(b).add(c), Alge(2.0 * 3.0 + 4.0));
    assert_eq!(a.deref(), a);
}

/// A fast-mode implementation with the checked finiteness precondition.
#[derive(Debug, Clone, Copy, PartialEq)]
struct Fast(f64);

impl lower::fast::Float for Fast {
    fn finite(self, other: Self) -> Result<Self, LowerError> {
        if self.0.is_finite() && other.0.is_finite() {
            Ok(self)
        } else {
            Err(LowerError::FiniteAssumptionViolated)
        }
    }
    fn add(self, other: Self) -> Result<Self, LowerError> {
        Ok(Fast(self.finite(other)?.0 + other.0))
    }
    fn sub(self, other: Self) -> Result<Self, LowerError> {
        Ok(Fast(self.finite(other)?.0 - other.0))
    }
    fn mul(self, other: Self) -> Result<Self, LowerError> {
        Ok(Fast(self.finite(other)?.0 * other.0))
    }
    fn div(self, other: Self) -> Result<Self, LowerError> {
        Ok(Fast(self.finite(other)?.0 / other.0))
    }
    fn rem(self, other: Self) -> Result<Self, LowerError> {
        Ok(Fast(self.finite(other)?.0 % other.0))
    }
    fn eq(self, other: Self) -> Result<bool, LowerError> {
        Ok(self.finite(other)?.0 == other.0)
    }
    fn lt(self, other: Self) -> Result<bool, LowerError> {
        Ok(self.finite(other)?.0 < other.0)
    }
    fn le(self, other: Self) -> Result<bool, LowerError> {
        Ok(self.finite(other)?.0 <= other.0)
    }
    fn ne(self, other: Self) -> Result<bool, LowerError> {
        Ok(self.finite(other)?.0 != other.0)
    }
    fn ge(self, other: Self) -> Result<bool, LowerError> {
        Ok(self.finite(other)?.0 >= other.0)
    }
    fn gt(self, other: Self) -> Result<bool, LowerError> {
        Ok(self.finite(other)?.0 > other.0)
    }
    fn neg(self) -> Self {
        Fast(-self.0)
    }
}

#[test]
fn fast_trait_checks_the_finite_assumption() {
    assert_eq!(Fast(1.0).add(Fast(2.0)), Ok(Fast(3.0)));
    assert_eq!(
        Fast(1.0).add(Fast(f64::INFINITY)),
        Err(LowerError::FiniteAssumptionViolated)
    );
    assert_eq!(
        Fast(f64::NAN).mul(Fast(2.0)),
        Err(LowerError::FiniteAssumptionViolated)
    );
    assert_eq!(Fast(6.0).lt(Fast(7.0)), Ok(true));
    assert_eq!(Fast(2.5).deref(), Fast(2.5));
}
