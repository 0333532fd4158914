//! End-to-end behaviour of the lowering engine: parsing, precedence,
//! associativity, mode selection, atom passthrough, and the error taxonomy.

use lower::ast::{LowerError, Mode, SyntaxReason, Token};
use lower::emitter::emit;
use lower::lowering::lower;
use lower::parser::parse;
use lower::pipeline::{lower_tokens, mode_from_name};

fn atom(s: &str) -> Token {
    Token::Atom(s.as_bytes().to_vec())
}

/// Parses, lowers under the given mode, and emits, as one string.
fn lowered(tokens: &Vec<Token>, mode: Mode) -> Result<String, LowerError> {
    let e = parse(tokens)?;
    let c = lower(&e, mode)?;
    Ok(String::from_utf8(emit(&c)).unwrap())
}

#[test]
fn left_associativity() {
    let toks = vec![atom("a"), Token::Minus, atom("b"), Token::Minus, atom("c")];
    assert_eq!(lowered(&toks, Mode::Default).unwrap(), "a.sub(b).sub(c)");
}

#[test]
fn precedence_of_mul_over_add() {
    let toks = vec![atom("a"), Token::Plus, atom("b"), Token::Star, atom("c")];
    assert_eq!(lowered(&toks, Mode::Default).unwrap(), "a.add(b.mul(c))");
}

#[test]
fn unary_binds_tighter_than_binary() {
    let toks = vec![Token::Minus, atom("a"), Token::Plus, atom("b")];
    assert_eq!(lowered(&toks, Mode::Default).unwrap(), "a.neg().add(b)");
}

#[test]
fn mode_changes_names_not_structure() {
    let toks = vec![atom("a"), Token::Star, atom("b"), Token::Plus, atom("c")];
    assert_eq!(lowered(&toks, Mode::Default).unwrap(), "a.mul(b).add(c)");
    assert_eq!(
        lowered(&toks, Mode::Wrapping).unwrap(),
        "a.wrapping_mul(b).wrapping_add(c)"
    );
    assert_eq!(
        lowered(&toks, Mode::Saturating).unwrap(),
        "a.saturating_mul(b).saturating_add(c)"
    );
    assert_eq!(lowered(&toks, Mode::Algebraic).unwrap(), "a.mul(b).add(c)");
    assert_eq!(lowered(&toks, Mode::Fast).unwrap(), "a.mul(b).add(c)");
}

#[test]
fn comparison_unsupported_under_wrapping() {
    let toks = vec![atom("a"), Token::EqEq, atom("b")];
    assert_eq!(
        lowered(&toks, Mode::Wrapping),
        Err(LowerError::UnsupportedOperatorForMode)
    );
}

#[test]
fn negation_unsupported_under_saturating() {
    let toks = vec![Token::Minus, atom("a")];
    assert_eq!(
        lowered(&toks, Mode::Saturating),
        Err(LowerError::UnsupportedOperatorForMode)
    );
}

#[test]
fn atom_passthrough_is_byte_identical() {
    let text = "f(x, y)[0].field";
    for mode in [
        Mode::Default,
        Mode::Algebraic,
        Mode::Fast,
        Mode::Wrapping,
        Mode::Saturating,
    ] {
        let toks = vec![atom(text)];
        assert_eq!(lowered(&toks, mode).unwrap(), text);
    }
}

#[test]
fn double_binary_operator_is_a_syntax_error() {
    let toks = vec![atom("a"), Token::Plus, Token::Plus, atom("b")];
    assert_eq!(
        parse(&toks).unwrap_err(),
        LowerError::SyntaxError(2, SyntaxReason::UnexpectedToken)
    );
}

#[test]
fn unbalanced_delimiter_is_a_syntax_error() {
    let toks = vec![Token::LParen, atom("a"), Token::Plus, atom("b")];
    assert_eq!(
        parse(&toks).unwrap_err(),
        LowerError::SyntaxError(4, SyntaxReason::UnbalancedDelimiter)
    );
}

#[test]
fn empty_input_is_a_syntax_error() {
    let toks: Vec<Token> = vec![];
    assert_eq!(
        parse(&toks).unwrap_err(),
        LowerError::SyntaxError(0, SyntaxReason::UnexpectedEnd)
    );
}

#[test]
fn trailing_token_is_a_syntax_error() {
    let toks = vec![atom("a"), atom("b")];
    assert_eq!(
        parse(&toks).unwrap_err(),
        LowerError::SyntaxError(1, SyntaxReason::UnexpectedToken)
    );
}

#[test]
fn unknown_mode_fails_before_parsing() {
    // The token stream is malformed; the unknown mode is still what fails.
    let toks = vec![Token::Plus, Token::Plus];
    assert_eq!(
        lower_tokens(b"turbo", &toks),
        Err(LowerError::UnknownMode)
    );
    assert_eq!(
        mode_from_name(b"Default").unwrap_err(),
        LowerError::UnknownMode
    );
}

#[test]
fn pipeline_with_known_modes() {
    let toks = vec![atom("a"), Token::Star, atom("b"), Token::Plus, atom("c")];
    assert_eq!(
        lower_tokens(b"wrapping", &toks).unwrap(),
        b"a.wrapping_mul(b).wrapping_add(c)".to_vec()
    );
    assert_eq!(
        lower_tokens(b"default", &toks).unwrap(),
        b"a.mul(b).add(c)".to_vec()
    );
    assert_eq!(
        lower_tokens(b"algebraic", &toks).unwrap(),
        b"a.mul(b).add(c)".to_vec()
    );
    assert_eq!(
        lower_tokens(b"fast", &toks).unwrap(),
        b"a.mul(b).add(c)".to_vec()
    );
    assert_eq!(
        lower_tokens(b"saturating", &toks).unwrap(),
        b"a.saturating_mul(b).saturating_add(c)".to_vec()
    );
}

#[test]
fn groups_force_order_then_vanish() {
    let toks = vec![
        Token::LParen,
        atom("a"),
        Token::Plus,
        atom("b"),
        Token::RParen,
        Token::Star,
        atom("c"),
    ];
    assert_eq!(lowered(&toks, Mode::Default).unwrap(), "a.add(b).mul(c)");
}

#[test]
fn deref_and_negation_prefixes() {
    // a * *&b + -c: the borrow atom must come back parenthesized, or the
    // emitted deref call would bind to the wrong part of its text.
    let toks = vec![
        atom("a"),
        Token::Star,
        Token::Star,
        atom("&b"),
        Token::Plus,
        Token::Minus,
        atom("c"),
    ];
    assert_eq!(
        lowered(&toks, Mode::Default).unwrap(),
        "a.mul((&b).deref()).add(c.neg())"
    );
    // a * *b + -c: an identifier atom stands bare.
    let toks = vec![
        atom("a"),
        Token::Star,
        Token::Star,
        atom("b"),
        Token::Plus,
        Token::Minus,
        atom("c"),
    ];
    assert_eq!(
        lowered(&toks, Mode::Default).unwrap(),
        "a.mul(b.deref()).add(c.neg())"
    );
}

#[test]
fn non_identifier_atom_receivers_are_parenthesized() {
    // 2 + 3: a literal atom cannot carry a bare method call.
    let toks = vec![atom("2"), Token::Plus, atom("3")];
    assert_eq!(lowered(&toks, Mode::Default).unwrap(), "(2).add(3)");
    // A literal atom that is no receiver passes through bare.
    let toks = vec![atom("x"), Token::Minus, atom("2")];
    assert_eq!(lowered(&toks, Mode::Default).unwrap(), "x.sub(2)");
}

#[test]
fn comparisons_nest_left_without_chaining() {
    let toks = vec![atom("a"), Token::Lt, atom("b"), Token::Lt, atom("c")];
    assert_eq!(lowered(&toks, Mode::Default).unwrap(), "a.lt(b).lt(c)");
}

/// The conventional-semantics check: evaluating the lowered call tree gives
/// the same result as evaluating the operator expression directly.
#[test]
fn default_lowering_preserves_evaluation() {
    trait Conventional {
        fn add(self, other: Self) -> Self;
        fn sub(self, other: Self) -> Self;
        fn mul(self, other: Self) -> Self;
    }
    impl Conventional for i64 {
        fn add(self, other: Self) -> Self {
            self + other
        }
        fn sub(self, other: Self) -> Self {
            self - other
        }
        fn mul(self, other: Self) -> Self {
            self * other
        }
    }
    // a + b * c - d
    let toks = vec![
        atom("a"),
        Token::Plus,
        atom("b"),
        Token::Star,
        atom("c"),
        Token::Minus,
        atom("d"),
    ];
    assert_eq!(
        lowered(&toks, Mode::Default).unwrap(),
        "a.add(b.mul(c)).sub(d)"
    );
    let (a, b, c, d) = (1i64, 2i64, 3i64, 4i64);
    // The emitted call tree, spelled out, against direct evaluation.
    assert_eq!(a.add(b.mul(c)).sub(d), a + b * c - d);
}

#[test]
fn nested_groups_are_transparent() {
    // ((a))
    let toks = vec![
        Token::LParen,
        Token::LParen,
        atom("a"),
        Token::RParen,
        Token::RParen,
    ];
    assert_eq!(lowered(&toks, Mode::Default).unwrap(), "a");
}

#[test]
fn stacked_prefixes_apply_nearest_first() {
    // --a
    let toks = vec![Token::Minus, Token::Minus, atom("a")];
    assert_eq!(lowered(&toks, Mode::Default).unwrap(), "a.neg().neg()");
    // *-a
    let toks = vec![Token::Star, Token::Minus, atom("a")];
    assert_eq!(lowered(&toks, Mode::Default).unwrap(), "a.neg().deref()");
}

#[test]
fn division_and_remainder_share_the_multiplicative_level() {
    // a / b % c
    let toks = vec![atom("a"), Token::Slash, atom("b"), Token::Percent, atom("c")];
    assert_eq!(lowered(&toks, Mode::Default).unwrap(), "a.div(b).rem(c)");
    assert_eq!(
        lowered(&toks, Mode::Wrapping).unwrap(),
        "a.wrapping_div(b).wrapping_rem(c)"
    );
}

#[test]
fn every_comparison_lowers_under_default() {
    let cases = [
        (Token::EqEq, "a.eq(b)"),
        (Token::NotEq, "a.ne(b)"),
        (Token::Lt, "a.lt(b)"),
        (Token::Le, "a.le(b)"),
        (Token::Gt, "a.gt(b)"),
        (Token::Ge, "a.ge(b)"),
    ];
    for (tok, expected) in cases {
        let toks = vec![atom("a"), tok, atom("b")];
        assert_eq!(lowered(&toks, Mode::Default).unwrap(), expected);
    }
}

#[test]
fn comparison_binds_loosest() {
    // a + b < c * d
    let toks = vec![
        atom("a"),
        Token::Plus,
        atom("b"),
        Token::Lt,
        atom("c"),
        Token::Star,
        atom("d"),
    ];
    assert_eq!(
        lowered(&toks, Mode::Default).unwrap(),
        "a.add(b).lt(c.mul(d))"
    );
}

#[test]
fn lone_close_paren_is_a_syntax_error() {
    let toks = vec![Token::RParen];
    assert_eq!(
        parse(&toks).unwrap_err(),
        LowerError::SyntaxError(0, SyntaxReason::UnexpectedToken)
    );
}

#[test]
fn operand_owed_at_end_is_a_syntax_error() {
    let toks = vec![atom("a"), Token::Plus];
    assert_eq!(
        parse(&toks).unwrap_err(),
        LowerError::SyntaxError(2, SyntaxReason::UnexpectedEnd)
    );
}
