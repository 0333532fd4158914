//! The expression parser: precedence-climbing recursive descent from a flat
//! token stream to an expression tree.
//!
//! Binding strengths, high to low: atoms and parenthesized groups, then the
//! unary prefixes (dereference and negation, applied nearest-first), then
//! `* / %`, then `+ -`, then the comparisons `== != < <= > >=`; every binary
//! level is left-associative, and comparisons do not chain specially:
//! `a < b < c` parses as `(a < b) < c` structurally.

use vstd::prelude::*;

use crate::ast::{BinOp, Expr, LowerError, Mode, SyntaxReason, Token, TokenV, UnOp, tok_views};
use crate::lowering::ops_supported;
use crate::table::{bin_method, un_method};

verus! {

/// The binding strength of a binary operator: comparisons bind loosest,
/// additive operators next, multiplicative operators tightest.
pub open spec fn prec_spec(op: BinOp) -> int {
    match op {
        BinOp::Eq | BinOp::Ne | BinOp::Lt | BinOp::Le | BinOp::Gt | BinOp::Ge => 1,
        BinOp::Add | BinOp::Sub => 2,
        BinOp::Mul | BinOp::Div | BinOp::Rem => 3,
    }
}

/// The binding strength of the unary prefixes, above every binary level.
pub open spec fn unary_prec() -> int {
    4
}

/// The binary operator a token stands for at operator position, if any.
pub open spec fn bin_op_of_tok(t: TokenV) -> Option<BinOp> {
    match t {
        TokenV::Plus => Some(BinOp::Add),
        TokenV::Minus => Some(BinOp::Sub),
        TokenV::Star => Some(BinOp::Mul),
        TokenV::Slash => Some(BinOp::Div),
        TokenV::Percent => Some(BinOp::Rem),
        TokenV::EqEq => Some(BinOp::Eq),
        TokenV::NotEq => Some(BinOp::Ne),
        TokenV::Lt => Some(BinOp::Lt),
        TokenV::Le => Some(BinOp::Le),
        TokenV::Gt => Some(BinOp::Gt),
        TokenV::Ge => Some(BinOp::Ge),
        _ => None,
    }
}

/// Whether the token, at operator position, could extend an expression at a
/// level whose operators bind with at least `min_prec`.
pub open spec fn combinable(t: TokenV, min_prec: int) -> bool {
    match bin_op_of_tok(t) {
        Some(op) => prec_spec(op) >= min_prec,
        None => false,
    }
}

/// The token a binary operator prints back to.
pub open spec fn bin_tok(op: BinOp) -> TokenV {
    match op {
        BinOp::Add => TokenV::Plus,
        BinOp::Sub => TokenV::Minus,
        BinOp::Mul => TokenV::Star,
        BinOp::Div => TokenV::Slash,
        BinOp::Rem => TokenV::Percent,
        BinOp::Eq => TokenV::EqEq,
        BinOp::Ne => TokenV::NotEq,
        BinOp::Lt => TokenV::Lt,
        BinOp::Le => TokenV::Le,
        BinOp::Gt => TokenV::Gt,
        BinOp::Ge => TokenV::Ge,
    }
}

/// The token a unary prefix prints back to: the unary-minus and dereference
/// sigils coincide with the subtraction and multiplication symbols.
pub open spec fn un_tok(op: UnOp) -> TokenV {
    match op {
        UnOp::Neg => TokenV::Minus,
        UnOp::Deref => TokenV::Star,
    }
}

/// The token sequence an expression tree prints back to, groups included:
/// an expression parses from exactly the tokens it unparses to.
pub open spec fn unparse(e: Expr) -> Seq<TokenV>
    decreases e,
{
    match e {
        Expr::Atom(t) => seq![TokenV::Atom(t@)],
        Expr::Unary(op, inner) => seq![un_tok(op)] + unparse(*inner),
        Expr::Binary(op, l, r) => unparse(*l) + seq![bin_tok(op)] + unparse(*r),
        Expr::Group(inner) => seq![TokenV::LParen] + unparse(*inner) + seq![TokenV::RParen],
    }
}

/// Precedence-correctness of an expression tree against a minimum binding
/// strength: every binary node binds at least as strongly as its context
/// asks, its left child at least as strongly as the node itself (which is
/// left-associativity), and its right child strictly stronger; a unary node
/// takes an operand of unary strength (nearest prefix first); a group resets
/// the context. Together with [`unparse`] this pins the parse of a token
/// sequence: `a + b * c` can only be the tree `a + (b * c)`, and `a - b - c`
/// only `(a - b) - c`.
pub open spec fn prec_ok(e: Expr, min_prec: int) -> bool
    decreases e,
{
    match e {
        Expr::Atom(_) => true,
        Expr::Unary(_, inner) => unary_prec() >= min_prec && prec_ok(*inner, unary_prec()),
        Expr::Binary(op, l, r) => prec_spec(op) >= min_prec && prec_ok(*l, prec_spec(op))
            && prec_ok(*r, prec_spec(op) + 1),
        Expr::Group(inner) => prec_ok(*inner, 1),
    }
}

/// One deterministic left-to-right walk over the token stream decides
/// whether any expression tree prints to it: the walk expects an operand or
/// an operator, and tracks the parenthesis depth. A token stream is printed
/// by some tree exactly when the walk accepts it (see [`lemma_walk`]), so
/// this is what the parser's completeness is stated against. The minus and
/// multiplication symbols step the same way at either position: as a prefix
/// they still owe an operand, as a binary operator they owe the right one.
pub open spec fn ok_from(tv: Seq<TokenV>, i: int, operand: bool, depth: int) -> bool
    decreases tv.len() - i,
{
    if i < 0 || i >= tv.len() {
        i == tv.len() && !operand && depth == 0
    } else {
        match tv[i] {
            TokenV::Atom(_) => operand && ok_from(tv, i + 1, false, depth),
            TokenV::Minus | TokenV::Star => ok_from(tv, i + 1, true, depth),
            TokenV::LParen => operand && ok_from(tv, i + 1, true, depth + 1),
            TokenV::RParen => !operand && depth > 0 && ok_from(tv, i + 1, false, depth - 1),
            _ => !operand && ok_from(tv, i + 1, true, depth),
        }
    }
}

/// The same walk, deciding whether every operator occurrence in the stream
/// is bound by the table under the mode: a minus at operand position is
/// negation, at operator position subtraction, and likewise star is
/// dereference or multiplication. Any tree that prints to the stream has
/// exactly these operators, so this decides [`ops_supported`] for every
/// parse of the stream at once.
pub open spec fn sup_from(tv: Seq<TokenV>, i: int, operand: bool, mode: Mode) -> bool
    decreases tv.len() - i,
{
    if i < 0 || i >= tv.len() {
        true
    } else {
        match tv[i] {
            TokenV::Atom(_) => sup_from(tv, i + 1, false, mode),
            TokenV::Minus => if operand {
                un_method(mode, UnOp::Neg) is Some && sup_from(tv, i + 1, true, mode)
            } else {
                bin_method(mode, BinOp::Sub) is Some && sup_from(tv, i + 1, true, mode)
            },
            TokenV::Star => if operand {
                un_method(mode, UnOp::Deref) is Some && sup_from(tv, i + 1, true, mode)
            } else {
                bin_method(mode, BinOp::Mul) is Some && sup_from(tv, i + 1, true, mode)
            },
            TokenV::LParen => sup_from(tv, i + 1, true, mode),
            TokenV::RParen => sup_from(tv, i + 1, false, mode),
            _ => match bin_op_of_tok(tv[i]) {
                Some(op) => bin_method(mode, op) is Some && sup_from(tv, i + 1, true, mode),
                None => false,
            },
        }
    }
}

/// Printing any expression into a slot of the stream moves the validity walk
/// from expecting an operand at the slot's start to expecting an operator at
/// its end, and moves the supportedness walk across the slot exactly by the
/// expression's own operators being bound. The two equalities turn facts
/// about trees into facts about the flat stream: a stream some tree prints
/// to is one the walk accepts, and every tree printing to the same stream
/// has the same operators bound or unbound.
/// One walk step over a binary-operator token: both walks move from
/// operator position to operand position, the supportedness walk by exactly
/// the table's binding for the operator.
proof fn lemma_binop_step(tv: Seq<TokenV>, p: int, d: int, mode: Mode, op: BinOp)
    requires
        0 <= p < tv.len(),
        tv[p] == bin_tok(op),
    ensures
        ok_from(tv, p, false, d) == ok_from(tv, p + 1, true, d),
        sup_from(tv, p, false, mode) == (bin_method(mode, op) is Some && sup_from(
            tv,
            p + 1,
            true,
            mode,
        )),
{
    match op {
        BinOp::Add => {},
        BinOp::Sub => {},
        BinOp::Mul => {},
        BinOp::Div => {},
        BinOp::Rem => {},
        BinOp::Eq => {},
        BinOp::Ne => {},
        BinOp::Lt => {},
        BinOp::Le => {},
        BinOp::Gt => {},
        BinOp::Ge => {},
    }
}

/// A token that cannot extend any binary level and is not a closing
/// parenthesis can only be an atom or an opening parenthesis: every binary
/// operator binds with strength at least the loosest level.
proof fn lemma_noncombinable(t: TokenV)
    requires
        !combinable(t, 1),
        !(t is RParen),
    ensures
        t matches TokenV::Atom(_) || t == TokenV::LParen,
{
    match t {
        TokenV::Atom(_) => {},
        TokenV::LParen => {},
        _ => {},
    }
}

pub proof fn lemma_walk(e: Expr, tv: Seq<TokenV>, i: int, j: int, d: int, mode: Mode)
    requires
        0 <= d,
        0 <= i <= j <= tv.len(),
        unparse(e) == tv.subrange(i, j),
    ensures
        ok_from(tv, i, true, d) == ok_from(tv, j, false, d),
        sup_from(tv, i, true, mode) == (ops_supported(e, mode) && sup_from(tv, j, false, mode)),
    decreases e,
{
    match e {
        Expr::Atom(t) => {
            assert(unparse(e) == seq![TokenV::Atom(t@)]);
            assert(j == i + 1);
            assert(tv.subrange(i, j)[0] == TokenV::Atom(t@));
            assert(tv[i] == TokenV::Atom(t@));
            assert(ok_from(tv, i, true, d) == ok_from(tv, i + 1, false, d));
            assert(sup_from(tv, i, true, mode) == sup_from(tv, i + 1, false, mode));
        },
        Expr::Unary(op, inner) => {
            assert(unparse(e) == seq![un_tok(op)] + unparse(*inner));
            assert(j - i == 1 + unparse(*inner).len());
            assert(tv.subrange(i, j)[0] == un_tok(op));
            assert(tv[i] == un_tok(op));
            assert forall|k: int| 0 <= k < unparse(*inner).len() implies unparse(*inner)[k] == tv[i
                + 1 + k] by {
                assert(unparse(e)[1 + k] == unparse(*inner)[k]);
                assert(tv.subrange(i, j)[1 + k] == tv[i + 1 + k]);
            }
            assert(unparse(*inner) =~= tv.subrange(i + 1, j));
            lemma_walk(*inner, tv, i + 1, j, d, mode);
            match op {
                UnOp::Neg => {
                    assert(tv[i] == TokenV::Minus);
                    assert(ok_from(tv, i, true, d) == ok_from(tv, i + 1, true, d));
                    assert(sup_from(tv, i, true, mode) == (un_method(mode, op) is Some
                        && sup_from(tv, i + 1, true, mode)));
                },
                UnOp::Deref => {
                    assert(tv[i] == TokenV::Star);
                    assert(ok_from(tv, i, true, d) == ok_from(tv, i + 1, true, d));
                    assert(sup_from(tv, i, true, mode) == (un_method(mode, op) is Some
                        && sup_from(tv, i + 1, true, mode)));
                },
            }
        },
        Expr::Binary(op, l, r) => {
            let cl = i + unparse(*l).len();
            assert(unparse(e) == unparse(*l) + seq![bin_tok(op)] + unparse(*r));
            assert(j - i == unparse(*l).len() + 1 + unparse(*r).len());
            assert forall|k: int| 0 <= k < unparse(*l).len() implies unparse(*l)[k] == tv[i + k] by {
                assert(unparse(e)[k] == unparse(*l)[k]);
                assert(tv.subrange(i, j)[k] == tv[i + k]);
            }
            assert(unparse(*l) =~= tv.subrange(i, cl));
            assert(unparse(e)[cl - i] == bin_tok(op));
            assert(tv.subrange(i, j)[cl - i] == tv[cl]);
            assert(tv[cl] == bin_tok(op));
            assert forall|k: int| 0 <= k < unparse(*r).len() implies unparse(*r)[k] == tv[cl + 1
                + k] by {
                assert(unparse(e)[(cl - i) + 1 + k] == unparse(*r)[k]);
                assert(tv.subrange(i, j)[(cl - i) + 1 + k] == tv[cl + 1 + k]);
            }
            assert(unparse(*r) =~= tv.subrange(cl + 1, j));
            lemma_walk(*l, tv, i, cl, d, mode);
            lemma_walk(*r, tv, cl + 1, j, d, mode);
            lemma_binop_step(tv, cl, d, mode, op);
        },
        Expr::Group(inner) => {
            assert(unparse(e) == seq![TokenV::LParen] + unparse(*inner) + seq![TokenV::RParen]);
            assert(j - i == 2 + unparse(*inner).len());
            assert(tv.subrange(i, j)[0] == TokenV::LParen);
            assert(tv[i] == TokenV::LParen);
            assert(unparse(e)[j - i - 1] == TokenV::RParen);
            assert(tv.subrange(i, j)[j - i - 1] == tv[j - 1]);
            assert(tv[j - 1] == TokenV::RParen);
            assert forall|k: int| 0 <= k < unparse(*inner).len() implies unparse(*inner)[k] == tv[i
                + 1 + k] by {
                assert(unparse(e)[1 + k] == unparse(*inner)[k]);
                assert(tv.subrange(i, j)[1 + k] == tv[i + 1 + k]);
            }
            assert(unparse(*inner) =~= tv.subrange(i + 1, j - 1));
            lemma_walk(*inner, tv, i + 1, j - 1, d + 1, mode);
            assert(ok_from(tv, i, true, d) == ok_from(tv, i + 1, true, d + 1));
            assert(ok_from(tv, j - 1, false, d + 1) == ok_from(tv, j, false, d));
            assert(sup_from(tv, i, true, mode) == sup_from(tv, i + 1, true, mode));
            assert(sup_from(tv, j - 1, false, mode) == sup_from(tv, j, false, mode));
        },
    }
}

/// The binary operator a token stands for, decided in executable code.
fn bin_op_of_tok_exec(t: &Token) -> (r: Option<BinOp>)
    ensures
        r == bin_op_of_tok(t@),
{
    match t {
        Token::Plus => Some(BinOp::Add),
        Token::Minus => Some(BinOp::Sub),
        Token::Star => Some(BinOp::Mul),
        Token::Slash => Some(BinOp::Div),
        Token::Percent => Some(BinOp::Rem),
        Token::EqEq => Some(BinOp::Eq),
        Token::NotEq => Some(BinOp::Ne),
        Token::Lt => Some(BinOp::Lt),
        Token::Le => Some(BinOp::Le),
        Token::Gt => Some(BinOp::Gt),
        Token::Ge => Some(BinOp::Ge),
        _ => None,
    }
}

/// The binding strength of a binary operator, decided in executable code.
fn prec_exec(op: BinOp) -> (r: u32)
    ensures
        r == prec_spec(op),
        1 <= r <= 3,
{
    match op {
        BinOp::Eq | BinOp::Ne | BinOp::Lt | BinOp::Le | BinOp::Gt | BinOp::Ge => 1,
        BinOp::Add | BinOp::Sub => 2,
        BinOp::Mul | BinOp::Div | BinOp::Rem => 3,
    }
}

/// Parses one operand at unary strength: a chain of unary prefixes ending in
/// an atom or a parenthesized group. On success the result prints back to
/// exactly the consumed tokens and is precedence-correct at unary strength.
fn parse_unary(tokens: &Vec<Token>, pos: usize) -> (r: Result<(Expr, usize), LowerError>)
    requires
        pos <= tokens@.len(),
    ensures
        r matches Ok(ep) ==> {
            &&& pos < ep.1 <= tokens@.len()
            &&& prec_ok(ep.0, unary_prec())
            &&& unparse(ep.0) == tok_views(tokens@).subrange(pos as int, ep.1 as int)
        },
        r matches Err(er) ==> er matches LowerError::SyntaxError(_, _),
        r is Err ==> forall|d: int| 0 <= d ==> !ok_from(tok_views(tokens@), pos as int, true, d),
    decreases tokens@.len() - pos, 0int,
{
    let ghost tv = tok_views(tokens@);
    proof {
        assert(tv.len() == tokens@.len());
        assert(pos < tokens@.len() ==> tv[pos as int] == tokens@[pos as int]@);
    }
    if pos == tokens.len() {
        return Err(LowerError::SyntaxError(pos, SyntaxReason::UnexpectedEnd));
    }
    match &tokens[pos] {
        Token::Atom(t) => {
            let e = Expr::Atom(crate::lowering::clone_bytes(t));
            proof {
                assert(unparse(e) =~= tok_views(tokens@).subrange(pos as int, pos as int + 1));
            }
            Ok((e, pos + 1))
        },
        Token::Minus => {
            let (inner, next) = match parse_unary(tokens, pos + 1) {
                Ok(x) => x,
                Err(er) => {
                    proof {
                        assert forall|d: int| 0 <= d implies !ok_from(tv, pos as int, true, d) by {
                            assert(ok_from(tv, pos as int, true, d) == ok_from(
                                tv,
                                pos as int + 1,
                                true,
                                d,
                            ));
                        }
                    }
                    return Err(er);
                },
            };
            let e = Expr::Unary(UnOp::Neg, Box::new(inner));
            proof {
                assert(unparse(e) =~= tok_views(tokens@).subrange(pos as int, next as int));
            }
            Ok((e, next))
        },
        Token::Star => {
            let (inner, next) = match parse_unary(tokens, pos + 1) {
                Ok(x) => x,
                Err(er) => {
                    proof {
                        assert forall|d: int| 0 <= d implies !ok_from(tv, pos as int, true, d) by {
                            assert(ok_from(tv, pos as int, true, d) == ok_from(
                                tv,
                                pos as int + 1,
                                true,
                                d,
                            ));
                        }
                    }
                    return Err(er);
                },
            };
            let e = Expr::Unary(UnOp::Deref, Box::new(inner));
            proof {
                assert(unparse(e) =~= tok_views(tokens@).subrange(pos as int, next as int));
            }
            Ok((e, next))
        },
        Token::LParen => {
            let (inner, next) = match parse_binary(tokens, pos + 1, 1) {
                Ok(x) => x,
                Err(er) => {
                    proof {
                        assert forall|d: int| 0 <= d implies !ok_from(tv, pos as int, true, d) by {
                            assert(ok_from(tv, pos as int, true, d) == ok_from(
                                tv,
                                pos as int + 1,
                                true,
                                d + 1,
                            ));
                        }
                    }
                    return Err(er);
                },
            };
            if next == tokens.len() {
                proof {
                    assert forall|d: int| 0 <= d implies !ok_from(tv, pos as int, true, d) by {
                        if ok_from(tv, pos as int, true, d) {
                            lemma_walk(inner, tv, pos + 1, next as int, d + 1, Mode::Default);
                            assert(ok_from(tv, next as int, false, d + 1));
                            assert(false);
                        }
                    }
                }
                return Err(LowerError::SyntaxError(next, SyntaxReason::UnbalancedDelimiter));
            }
            let closed = match &tokens[next] {
                Token::RParen => true,
                _ => false,
            };
            if !closed {
                proof {
                    assert forall|d: int| 0 <= d implies !ok_from(tv, pos as int, true, d) by {
                        if ok_from(tv, pos as int, true, d) {
                            lemma_walk(inner, tv, pos + 1, next as int, d + 1, Mode::Default);
                            assert(ok_from(tv, next as int, false, d + 1));
                            lemma_noncombinable(tv[next as int]);
                            assert(false);
                        }
                    }
                }
                return Err(LowerError::SyntaxError(next, SyntaxReason::UnexpectedToken));
            }
            let e = Expr::Group(Box::new(inner));
            proof {
                assert(unparse(e) =~= tok_views(tokens@).subrange(pos as int, next as int + 1));
            }
            Ok((e, next + 1))
        },
        _ => Err(LowerError::SyntaxError(pos, SyntaxReason::UnexpectedToken)),
    }
}

/// Parses an expression whose binary operators all bind with at least
/// `min_prec`, consuming greedily: on success the next unconsumed token, if
/// any, cannot extend the expression at this level.
fn parse_binary(tokens: &Vec<Token>, pos: usize, min_prec: u32) -> (r: Result<
    (Expr, usize),
    LowerError,
>)
    requires
        pos <= tokens@.len(),
        1 <= min_prec <= 4,
    ensures
        r matches Ok(ep) ==> {
            &&& pos < ep.1 <= tokens@.len()
            &&& prec_ok(ep.0, min_prec as int)
            &&& unparse(ep.0) == tok_views(tokens@).subrange(pos as int, ep.1 as int)
            &&& (ep.1 < tokens@.len() ==> !combinable(tokens@[ep.1 as int]@, min_prec as int))
        },
        r matches Err(er) ==> er matches LowerError::SyntaxError(_, _),
        r is Err ==> forall|d: int| 0 <= d ==> !ok_from(tok_views(tokens@), pos as int, true, d),
    decreases tokens@.len() - pos, 1int,
{
    let ghost tv = tok_views(tokens@);
    let (first, first_end) = parse_unary(tokens, pos)?;
    let mut acc = first;
    let mut cur = first_end;
    proof {
        assert(prec_ok(acc, min_prec as int));
    }
    loop
        invariant
            tv == tok_views(tokens@),
            pos < cur <= tokens@.len(),
            1 <= min_prec <= 4,
            prec_ok(acc, min_prec as int),
            unparse(acc) == tok_views(tokens@).subrange(pos as int, cur as int),
            cur < tokens@.len() && combinable(tokens@[cur as int]@, min_prec as int)
                ==> prec_ok(acc, prec_spec(bin_op_of_tok(tokens@[cur as int]@)->Some_0)),
        ensures
            pos < cur <= tokens@.len(),
            prec_ok(acc, min_prec as int),
            unparse(acc) == tok_views(tokens@).subrange(pos as int, cur as int),
            cur < tokens@.len() ==> !combinable(tokens@[cur as int]@, min_prec as int),
        decreases tokens@.len() - cur,
    {
        if cur == tokens.len() {
            break;
        }
        let op = match bin_op_of_tok_exec(&tokens[cur]) {
            Some(op) => op,
            None => { break; },
        };
        let p = prec_exec(op);
        if p < min_prec {
            break;
        }
        let (rhs, rhs_end) = match parse_binary(tokens, cur + 1, p + 1) {
            Ok(x) => x,
            Err(er) => {
                proof {
                    assert(tv.len() == tokens@.len());
                    assert(tv[cur as int] == tokens@[cur as int]@);
                    assert(tokens@[cur as int]@ == bin_tok(op));
                    assert forall|d: int| 0 <= d implies !ok_from(tv, pos as int, true, d) by {
                        if ok_from(tv, pos as int, true, d) {
                            lemma_walk(acc, tv, pos as int, cur as int, d, Mode::Default);
                            lemma_binop_step(tv, cur as int, d, Mode::Default, op);
                            assert(ok_from(tv, cur as int + 1, true, d));
                            assert(false);
                        }
                    }
                }
                return Err(er);
            },
        };
        proof {
            assert(tokens@[cur as int]@ == bin_tok(op));
            assert(unparse(Expr::Binary(op, Box::new(acc), Box::new(rhs))) =~= tok_views(
                tokens@,
            ).subrange(pos as int, rhs_end as int));
        }
        acc = Expr::Binary(op, Box::new(acc), Box::new(rhs));
        cur = rhs_end;
    }
    Ok((acc, cur))
}

/// Parses a whole token stream into one precedence-correct expression tree,
/// or fails with a syntax error. On success the tree prints back, via
/// [`unparse`], to exactly the given tokens — nothing dropped, reordered or
/// invented — and is precedence-correct from the loosest level up, so it can
/// associate no way the grammar forbids. And success is owed: whenever any
/// precedence-correct tree prints to the given tokens, parsing succeeds, so
/// the only rejected streams are the genuinely malformed ones — a leftover
/// token after a complete expression, an operand missing where the grammar
/// owes one, a parenthesis without its mate. The parser never fails on what
/// an atom holds: atoms are opaque.
pub fn parse(tokens: &Vec<Token>) -> (r: Result<Expr, LowerError>)
    ensures
        r matches Ok(e) ==> prec_ok(e, 1) && unparse(e) == tok_views(tokens@),
        r matches Err(er) ==> er matches LowerError::SyntaxError(_, _),
        (exists|e2: Expr| prec_ok(e2, 1) && #[trigger] unparse(e2) == tok_views(tokens@)) ==> r
            is Ok,
{
    let ghost tv = tok_views(tokens@);
    proof {
        assert(tv.len() == tokens@.len());
        assert(tv.subrange(0, tv.len() as int) =~= tv);
    }
    let (e, end) = match parse_binary(tokens, 0, 1) {
        Ok(x) => x,
        Err(er) => {
            proof {
                if exists|e2: Expr| prec_ok(e2, 1) && #[trigger] unparse(e2) == tok_views(
                    tokens@,
                ) {
                    let e2 = choose|e2: Expr| prec_ok(e2, 1) && #[trigger] unparse(e2)
                        == tok_views(tokens@);
                    lemma_walk(e2, tv, 0, tv.len() as int, 0, Mode::Default);
                    assert(ok_from(tv, tv.len() as int, false, 0));
                    assert(false);
                }
            }
            return Err(er);
        },
    };
    if end != tokens.len() {
        proof {
            if exists|e2: Expr| prec_ok(e2, 1) && #[trigger] unparse(e2) == tok_views(tokens@) {
                let e2 = choose|e2: Expr| prec_ok(e2, 1) && #[trigger] unparse(e2) == tok_views(
                    tokens@,
                );
                lemma_walk(e2, tv, 0, tv.len() as int, 0, Mode::Default);
                lemma_walk(e, tv, 0, end as int, 0, Mode::Default);
                assert(ok_from(tv, end as int, false, 0));
                let t = tv[end as int];
                if !(t is RParen) {
                    lemma_noncombinable(t);
                }
                assert(false);
            }
        }
        return Err(LowerError::SyntaxError(end, SyntaxReason::UnexpectedToken));
    }
    proof {
        assert(tok_views(tokens@).subrange(0, end as int) =~= tok_views(tokens@));
    }
    Ok(e)
}

} // verus!
