//! The lowering rewriter: consumes an expression tree and the operator table
//! and produces a call tree, leaving every atom untouched.

use vstd::prelude::*;

use crate::ast::{Call, CallV, Expr, LowerError, Mode};
use crate::table::{bin_method, bin_method_exec, un_method, un_method_exec};

verus! {

/// What lowering returns for a given expression and mode.
///
/// An atom lowers to itself; a group is transparent, since call nesting
/// already encodes the evaluation order; a unary node becomes
/// `receiver.method()`; a binary node becomes `receiver.method(arg)` with the
/// left operand as receiver and the right operand as the sole argument, so
/// evaluation order stays left before right. Where the table leaves an
/// operator unbound under the mode, the whole lowering fails with that
/// lookup's error, and with the leftmost such operator's error first: the
/// receiver side is rewritten before the argument side, and an operand before
/// its own operator.
pub open spec fn lower_spec(e: Expr, mode: Mode) -> Result<CallV, LowerError>
    decreases e,
{
    match e {
        Expr::Atom(t) => Ok(CallV::Atom(t@)),
        Expr::Group(inner) => lower_spec(*inner, mode),
        Expr::Unary(op, inner) => match lower_spec(*inner, mode) {
            Ok(c) => match un_method(mode, op) {
                Some(m) => Ok(CallV::NoArg(m, Box::new(c))),
                None => Err(LowerError::UnsupportedOperatorForMode),
            },
            Err(er) => Err(er),
        },
        Expr::Binary(op, l, r) => match lower_spec(*l, mode) {
            Ok(cl) => match lower_spec(*r, mode) {
                Ok(cr) => match bin_method(mode, op) {
                    Some(m) => Ok(CallV::OneArg(m, Box::new(cl), Box::new(cr))),
                    None => Err(LowerError::UnsupportedOperatorForMode),
                },
                Err(er) => Err(er),
            },
            Err(er) => Err(er),
        },
    }
}

/// Whether every operator of the expression is bound by the table under the
/// mode; exactly then does lowering succeed.
pub open spec fn ops_supported(e: Expr, mode: Mode) -> bool
    decreases e,
{
    match e {
        Expr::Atom(_) => true,
        Expr::Group(inner) => ops_supported(*inner, mode),
        Expr::Unary(op, inner) => un_method(mode, op) is Some && ops_supported(*inner, mode),
        Expr::Binary(op, l, r) => bin_method(mode, op) is Some && ops_supported(*l, mode)
            && ops_supported(*r, mode),
    }
}

/// Lowering is total on expressions whose operators the mode binds, and on
/// the rest it fails with exactly the unsupported-operator error: the same
/// error the table lookup reports, propagated unchanged.
pub proof fn lemma_lower_total(e: Expr, mode: Mode)
    ensures
        lower_spec(e, mode) is Ok <==> ops_supported(e, mode),
        !ops_supported(e, mode) ==> lower_spec(e, mode) == Err::<CallV, LowerError>(
            LowerError::UnsupportedOperatorForMode,
        ),
    decreases e,
{
    match e {
        Expr::Atom(_) => {},
        Expr::Group(inner) => {
            lemma_lower_total(*inner, mode);
        },
        Expr::Unary(op, inner) => {
            lemma_lower_total(*inner, mode);
        },
        Expr::Binary(op, l, r) => {
            lemma_lower_total(*l, mode);
            lemma_lower_total(*r, mode);
        },
    }
}

/// Rewrites the expression tree into the call tree [`lower_spec`] describes,
/// or fails with exactly the error it describes.
pub fn lower(e: &Expr, mode: Mode) -> (r: Result<Call, LowerError>)
    ensures
        r matches Ok(c) ==> lower_spec(*e, mode) == Ok::<CallV, LowerError>(c@),
        r matches Err(er) ==> lower_spec(*e, mode) == Err::<CallV, LowerError>(er),
    decreases *e,
{
    match e {
        Expr::Atom(t) => Ok(Call::Atom(clone_bytes(t))),
        Expr::Group(inner) => lower(inner, mode),
        Expr::Unary(op, inner) => {
            let c = lower(inner, mode)?;
            let m = un_method_exec(mode, *op)?;
            Ok(Call::NoArg(m, Box::new(c)))
        },
        Expr::Binary(op, l, r) => {
            let cl = lower(l, mode)?;
            let cr = lower(r, mode)?;
            let m = bin_method_exec(mode, *op)?;
            Ok(Call::OneArg(m, Box::new(cl), Box::new(cr)))
        },
    }
}

/// A byte-for-byte copy of the given bytes.
pub(crate) fn clone_bytes(src: &Vec<u8>) -> (r: Vec<u8>)
    ensures
        r@ == src@,
{
    let mut out: Vec<u8> = Vec::new();
    let mut i: usize = 0;
    while i < src.len()
        invariant
            i <= src@.len(),
            out@ == src@.subrange(0, i as int),
        decreases src@.len() - i,
    {
        out.push(src[i]);
        proof {
            assert(src@.subrange(0, i as int).push(src@[i as int]) =~= src@.subrange(
                0,
                i as int + 1,
            ));
        }
        i = i + 1;
    }
    proof {
        assert(out@ =~= src@);
    }
    out
}

} // verus!
