//! The whole lowering pipeline behind one call: resolve the mode name, parse
//! the token stream, rewrite, emit. Each invocation owns its data; nothing
//! persists across calls.

use vstd::prelude::*;

use crate::ast::{Expr, LowerError, Mode, Token, tok_views};
use crate::emitter::{emit, emit_spec};
use crate::lowering::{lemma_lower_total, lower, lower_spec, ops_supported};
use crate::parser::{lemma_walk, parse, prec_ok, sup_from, unparse};

verus! {

/// The mode a name selects, if it is one of the five the engine knows:
/// `default`, `algebraic`, `fast`, `wrapping`, `saturating`.
pub open spec fn mode_of_name(s: Seq<u8>) -> Option<Mode> {
    if s == seq![('d' as u8), ('e' as u8), ('f' as u8), ('a' as u8), ('u' as u8), ('l' as u8), ('t' as u8)] {
        Some(Mode::Default)
    } else if s == seq![('a' as u8), ('l' as u8), ('g' as u8), ('e' as u8), ('b' as u8), ('r' as u8), ('a' as u8), ('i' as u8), ('c' as u8)] {
        Some(Mode::Algebraic)
    } else if s == seq![('f' as u8), ('a' as u8), ('s' as u8), ('t' as u8)] {
        Some(Mode::Fast)
    } else if s == seq![('w' as u8), ('r' as u8), ('a' as u8), ('p' as u8), ('p' as u8), ('i' as u8), ('n' as u8), ('g' as u8)] {
        Some(Mode::Wrapping)
    } else if s == seq![('s' as u8), ('a' as u8), ('t' as u8), ('u' as u8), ('r' as u8), ('a' as u8), ('t' as u8), ('i' as u8), ('n' as u8), ('g' as u8)] {
        Some(Mode::Saturating)
    } else {
        None
    }
}

/// Whether the bytes equal the keyword.
fn is_kw(name: &[u8], kw: &Vec<u8>) -> (r: bool)
    ensures
        r <==> name@ == kw@,
{
    if name.len() != kw.len() {
        return false;
    }
    let mut i: usize = 0;
    while i < kw.len()
        invariant
            i <= kw@.len(),
            name@.len() == kw@.len(),
            forall|k: int| 0 <= k < i ==> name@[k] == kw@[k],
        decreases kw@.len() - i,
    {
        if name[i] != kw[i] {
            return false;
        }
        i = i + 1;
    }
    proof {
        assert(name@ =~= kw@);
    }
    true
}

/// Resolves a mode name to its mode, or fails with the unknown-mode error
/// for any name that is not one of the five.
pub fn mode_from_name(name: &[u8]) -> (r: Result<Mode, LowerError>)
    ensures
        match mode_of_name(name@) {
            Some(m) => r == Ok::<Mode, LowerError>(m),
            None => r == Err::<Mode, LowerError>(LowerError::UnknownMode),
        },
{
    let default_kw: Vec<u8> = vec![
        ('d' as u8), ('e' as u8), ('f' as u8), ('a' as u8), ('u' as u8), ('l' as u8), ('t' as u8),
    ];
    let algebraic_kw: Vec<u8> = vec![
        ('a' as u8), ('l' as u8), ('g' as u8), ('e' as u8), ('b' as u8), ('r' as u8), ('a' as u8),
        ('i' as u8), ('c' as u8),
    ];
    let fast_kw: Vec<u8> = vec![('f' as u8), ('a' as u8), ('s' as u8), ('t' as u8)];
    let wrapping_kw: Vec<u8> = vec![
        ('w' as u8), ('r' as u8), ('a' as u8), ('p' as u8), ('p' as u8), ('i' as u8), ('n' as u8),
        ('g' as u8),
    ];
    let saturating_kw: Vec<u8> = vec![
        ('s' as u8), ('a' as u8), ('t' as u8), ('u' as u8), ('r' as u8), ('a' as u8), ('t' as u8),
        ('i' as u8), ('n' as u8), ('g' as u8),
    ];
    if is_kw(name, &default_kw) {
        Ok(Mode::Default)
    } else if is_kw(name, &algebraic_kw) {
        Ok(Mode::Algebraic)
    } else if is_kw(name, &fast_kw) {
        Ok(Mode::Fast)
    } else if is_kw(name, &wrapping_kw) {
        Ok(Mode::Wrapping)
    } else if is_kw(name, &saturating_kw) {
        Ok(Mode::Saturating)
    } else {
        Err(LowerError::UnknownMode)
    }
}

/// Runs the full pipeline: an unrecognized mode name fails with the
/// unknown-mode error before any parsing occurs; then the tokens are parsed,
/// the tree rewritten under the mode, and the call tree emitted. On success
/// the output is the emission of the lowering of the precedence-correct
/// parse of exactly the given tokens; on failure the error is a syntax
/// error from the parser or the unsupported-operator error from the table,
/// and nothing is produced. Success is owed: whenever the mode name is
/// known and some precedence-correct tree prints to the tokens with every
/// operator bound under the mode, the pipeline returns output.
pub fn lower_tokens(mode_name: &[u8], tokens: &Vec<Token>) -> (r: Result<Vec<u8>, LowerError>)
    ensures
        mode_of_name(mode_name@) is None ==> r == Err::<Vec<u8>, LowerError>(
            LowerError::UnknownMode,
        ),
        mode_of_name(mode_name@) matches Some(m) ==> match r {
            Ok(out) => exists|e: Expr|
                {
                    &&& prec_ok(e, 1)
                    &&& #[trigger] unparse(e) == tok_views(tokens@)
                    &&& lower_spec(e, m) matches Ok(c) && out@ == emit_spec(c)
                },
            Err(er) => er matches LowerError::SyntaxError(_, _) || er
                == LowerError::UnsupportedOperatorForMode,
        },
        mode_of_name(mode_name@) matches Some(m) ==> ((exists|e2: Expr|
            prec_ok(e2, 1) && #[trigger] unparse(e2) == tok_views(tokens@) && ops_supported(
                e2,
                m,
            )) ==> r is Ok),
{
    let ghost tv = tok_views(tokens@);
    let mode = mode_from_name(mode_name)?;
    let e = match parse(tokens) {
        Ok(e) => e,
        Err(er) => {
            proof {
                if exists|e2: Expr| prec_ok(e2, 1) && #[trigger] unparse(e2) == tok_views(
                    tokens@,
                ) && ops_supported(e2, mode) {
                    let e2 = choose|e2: Expr| prec_ok(e2, 1) && #[trigger] unparse(e2)
                        == tok_views(tokens@) && ops_supported(e2, mode);
                    assert(exists|e3: Expr| prec_ok(e3, 1) && #[trigger] unparse(e3)
                        == tok_views(tokens@));
                    assert(false);
                }
            }
            return Err(er);
        },
    };
    let c = match lower(&e, mode) {
        Ok(c) => c,
        Err(er) => {
            proof {
                lemma_lower_total(e, mode);
                if exists|e2: Expr| prec_ok(e2, 1) && #[trigger] unparse(e2) == tok_views(
                    tokens@,
                ) && ops_supported(e2, mode) {
                    let e2 = choose|e2: Expr| prec_ok(e2, 1) && #[trigger] unparse(e2)
                        == tok_views(tokens@) && ops_supported(e2, mode);
                    assert(tv.subrange(0, tv.len() as int) =~= tv);
                    lemma_walk(e2, tv, 0, tv.len() as int, 0, mode);
                    lemma_walk(e, tv, 0, tv.len() as int, 0, mode);
                    assert(sup_from(tv, tv.len() as int, false, mode));
                    assert(ops_supported(e, mode));
                    assert(false);
                }
            }
            return Err(er);
        },
    };
    let out = emit(&c);
    proof {
        assert(prec_ok(e, 1) && unparse(e) == tok_views(tokens@) && (lower_spec(e, mode) matches
        Ok(cv) && out@ == emit_spec(cv)));
    }
    Ok(out)
}

} // verus!
