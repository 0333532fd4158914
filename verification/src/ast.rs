//! The data model of the engine: tokens, expression trees, call trees, the
//! lowering modes, and the error taxonomy, together with the mathematical
//! views the contracts speak of.

use vstd::prelude::*;

verus! {

/// A lexical unit of an operator expression, as the host tooling hands it in:
/// an opaque atom, a grouping parenthesis, or an operator symbol.
///
/// The same sigil serves two fixities: `Minus` is binary subtraction or unary
/// negation, `Star` is binary multiplication or unary dereference, decided by
/// position during parsing.
#[derive(Debug, PartialEq, Eq)]
pub enum Token {
    /// A subexpression the engine treats as opaque text: an identifier, a
    /// literal, a call, an index or field access. Carried through verbatim.
    Atom(Vec<u8>),
    LParen,
    RParen,
    Plus,
    Minus,
    Star,
    Slash,
    Percent,
    EqEq,
    NotEq,
    Lt,
    Le,
    Gt,
    Ge,
}

/// The mathematical value of a [`Token`]: atom text as a byte sequence.
pub enum TokenV {
    Atom(Seq<u8>),
    LParen,
    RParen,
    Plus,
    Minus,
    Star,
    Slash,
    Percent,
    EqEq,
    NotEq,
    Lt,
    Le,
    Gt,
    Ge,
}

impl View for Token {
    type V = TokenV;

    open spec fn view(&self) -> TokenV {
        match self {
            Token::Atom(t) => TokenV::Atom(t@),
            Token::LParen => TokenV::LParen,
            Token::RParen => TokenV::RParen,
            Token::Plus => TokenV::Plus,
            Token::Minus => TokenV::Minus,
            Token::Star => TokenV::Star,
            Token::Slash => TokenV::Slash,
            Token::Percent => TokenV::Percent,
            Token::EqEq => TokenV::EqEq,
            Token::NotEq => TokenV::NotEq,
            Token::Lt => TokenV::Lt,
            Token::Le => TokenV::Le,
            Token::Gt => TokenV::Gt,
            Token::Ge => TokenV::Ge,
        }
    }
}

/// The views of a token sequence, element by element.
pub open spec fn tok_views(ts: Seq<Token>) -> Seq<TokenV> {
    ts.map_values(|t: Token| t@)
}

/// A binary operator of the expression grammar.
#[derive(Debug, Clone, Copy, PartialEq, Eq, Structural)]
pub enum BinOp {
    Add,
    Sub,
    Mul,
    Div,
    Rem,
    Eq,
    Ne,
    Lt,
    Le,
    Gt,
    Ge,
}

/// A unary (prefix) operator: negation or dereference.
#[derive(Debug, Clone, Copy, PartialEq, Eq, Structural)]
pub enum UnOp {
    Neg,
    Deref,
}

/// A parsed expression. Every operator node holds a typed operator, so the
/// invariant that parsing never builds a node with an unknown operator holds
/// by construction; whether a mode binds the operator is decided at lowering.
#[derive(Debug, PartialEq, Eq)]
pub enum Expr {
    /// Opaque text, carried through verbatim.
    Atom(Vec<u8>),
    Unary(UnOp, Box<Expr>),
    Binary(BinOp, Box<Expr>, Box<Expr>),
    /// Explicit parenthesization. Transparent once lowered: call nesting
    /// already encodes the evaluation order.
    Group(Box<Expr>),
}

/// The output of lowering: a nested method-call tree. An operand count of
/// zero or one covers the whole grammar, so the two call forms are spelled
/// out rather than carrying an argument list.
#[derive(Debug, PartialEq, Eq)]
pub enum Call {
    /// Opaque text, passed through byte for byte.
    Atom(Vec<u8>),
    /// `receiver.method()` — a unary operator's lowering.
    NoArg(Vec<u8>, Box<Call>),
    /// `receiver.method(arg)` — a binary operator's lowering; the left
    /// operand is the receiver, the right operand the sole argument.
    OneArg(Vec<u8>, Box<Call>, Box<Call>),
}

/// The mathematical value of a [`Call`]: the same tree with byte sequences
/// for atom text and method names.
pub enum CallV {
    Atom(Seq<u8>),
    NoArg(Seq<u8>, Box<CallV>),
    OneArg(Seq<u8>, Box<CallV>, Box<CallV>),
}

/// The view of a call tree, node by node.
pub open spec fn call_view(c: Call) -> CallV
    decreases c,
{
    match c {
        Call::Atom(t) => CallV::Atom(t@),
        Call::NoArg(m, recv) => CallV::NoArg(m@, Box::new(call_view(*recv))),
        Call::OneArg(m, recv, arg) => CallV::OneArg(
            m@,
            Box::new(call_view(*recv)),
            Box::new(call_view(*arg)),
        ),
    }
}

impl View for Call {
    type V = CallV;

    open spec fn view(&self) -> CallV {
        call_view(*self)
    }
}

/// The numeric-method-naming discipline selected at the lowering site.
/// Each mode is a peer configuration of the operator table, not a
/// specialization of another.
#[derive(Debug, Clone, Copy, PartialEq, Eq, Structural)]
pub enum Mode {
    Default,
    Algebraic,
    Fast,
    Wrapping,
    Saturating,
}

/// Why a token sequence failed to parse.
#[derive(Debug, Clone, Copy, PartialEq, Eq, Structural)]
pub enum SyntaxReason {
    /// Input ended where an operand was still owed.
    UnexpectedEnd,
    /// A token stands in a position the grammar does not allow, such as a
    /// binary operator where an operand is owed, or a leftover token after a
    /// complete expression.
    UnexpectedToken,
    /// An opening parenthesis without its closing mate.
    UnbalancedDelimiter,
}

/// Everything the engine can fail with. All failures are detected before any
/// output is produced: lowering is all-or-nothing per invocation.
#[derive(Debug, Clone, Copy, PartialEq, Eq, Structural)]
pub enum LowerError {
    /// Malformed token sequence; carries the offending position and why.
    SyntaxError(usize, SyntaxReason),
    /// The symbol is absent from the operator table entirely.
    UnknownOperator,
    /// The symbol is known in general but has no binding under the selected
    /// mode, such as a comparison under `Wrapping`.
    UnsupportedOperatorForMode,
    /// The mode name is not one of the five the table knows.
    UnknownMode,
    /// A fast-mode operand was not finite. The engine itself never raises
    /// this: it is the checked form of the fast-mode precondition that
    /// caller-supplied method implementations report.
    FiniteAssumptionViolated,
}

} // verus!
