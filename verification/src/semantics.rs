//! The laws of the engine: lowering under the default mode preserves the
//! conventional meaning of an expression, the mode changes only method names
//! and never the tree's structure, and atoms pass through untouched.

use vstd::prelude::*;

use crate::ast::{BinOp, CallV, Expr, LowerError, Mode, UnOp};
use crate::emitter::emit_spec;
use crate::lowering::lower_spec;
use crate::table::{bin_base_name, deref_name, neg_name};

verus! {

/// A value under conventional operator semantics: expressions compute over
/// integers, comparisons yield booleans.
pub enum Val {
    Int(int),
    Bool(bool),
}

/// What a binary operator means conventionally: arithmetic on two integers
/// gives an integer, a comparison of two integers gives a boolean, and
/// anything else (such as arithmetic on a comparison's result) has no value.
/// Division and remainder are the total Euclidean operations on unbounded
/// integers, one fixed reading of "conventional" under which both sides of
/// the preservation law compute the same thing.
pub open spec fn apply_bin(op: BinOp, x: Val, y: Val) -> Option<Val> {
    match (x, y) {
        (Val::Int(a), Val::Int(b)) => match op {
            BinOp::Add => Some(Val::Int(a + b)),
            BinOp::Sub => Some(Val::Int(a - b)),
            BinOp::Mul => Some(Val::Int(a * b)),
            BinOp::Div => Some(Val::Int(a / b)),
            BinOp::Rem => Some(Val::Int(a % b)),
            BinOp::Eq => Some(Val::Bool(a == b)),
            BinOp::Ne => Some(Val::Bool(a != b)),
            BinOp::Lt => Some(Val::Bool(a < b)),
            BinOp::Le => Some(Val::Bool(a <= b)),
            BinOp::Gt => Some(Val::Bool(a > b)),
            BinOp::Ge => Some(Val::Bool(a >= b)),
        },
        _ => None,
    }
}

/// What a unary prefix means conventionally: negation of an integer, and
/// dereference as the identity on the operand's value.
pub open spec fn apply_un(op: UnOp, x: Val) -> Option<Val> {
    match op {
        UnOp::Neg => match x {
            Val::Int(a) => Some(Val::Int(-a)),
            _ => None,
        },
        UnOp::Deref => Some(x),
    }
}

/// Direct evaluation of an expression under conventional operator semantics,
/// with every atom read as the integer the environment assigns to its text.
pub open spec fn eval_expr(e: Expr, env: Map<Seq<u8>, int>) -> Option<Val>
    decreases e,
{
    match e {
        Expr::Atom(t) => Some(Val::Int(env[t@])),
        Expr::Group(inner) => eval_expr(*inner, env),
        Expr::Unary(op, inner) => match eval_expr(*inner, env) {
            Some(v) => apply_un(op, v),
            None => None,
        },
        Expr::Binary(op, l, r) => match (eval_expr(*l, env), eval_expr(*r, env)) {
            (Some(a), Some(b)) => apply_bin(op, a, b),
            _ => None,
        },
    }
}

/// The binary operator a method name denotes under the default naming
/// discipline, recovered from the name alone.
pub open spec fn bin_op_of_name(m: Seq<u8>) -> Option<BinOp> {
    if m == bin_base_name(BinOp::Add) {
        Some(BinOp::Add)
    } else if m == bin_base_name(BinOp::Sub) {
        Some(BinOp::Sub)
    } else if m == bin_base_name(BinOp::Mul) {
        Some(BinOp::Mul)
    } else if m == bin_base_name(BinOp::Div) {
        Some(BinOp::Div)
    } else if m == bin_base_name(BinOp::Rem) {
        Some(BinOp::Rem)
    } else if m == bin_base_name(BinOp::Eq) {
        Some(BinOp::Eq)
    } else if m == bin_base_name(BinOp::Ne) {
        Some(BinOp::Ne)
    } else if m == bin_base_name(BinOp::Lt) {
        Some(BinOp::Lt)
    } else if m == bin_base_name(BinOp::Le) {
        Some(BinOp::Le)
    } else if m == bin_base_name(BinOp::Gt) {
        Some(BinOp::Gt)
    } else if m == bin_base_name(BinOp::Ge) {
        Some(BinOp::Ge)
    } else {
        None
    }
}

/// The unary prefix a method name denotes under the default naming
/// discipline.
pub open spec fn un_op_of_name(m: Seq<u8>) -> Option<UnOp> {
    if m == neg_name() {
        Some(UnOp::Neg)
    } else if m == deref_name() {
        Some(UnOp::Deref)
    } else {
        None
    }
}

/// Evaluation of a call tree: each method name is read as the operator it
/// denotes under the default naming discipline and applied conventionally.
pub open spec fn eval_call(c: CallV, env: Map<Seq<u8>, int>) -> Option<Val>
    decreases c,
{
    match c {
        CallV::Atom(t) => Some(Val::Int(env[t])),
        CallV::NoArg(m, recv) => match (un_op_of_name(m), eval_call(*recv, env)) {
            (Some(op), Some(v)) => apply_un(op, v),
            _ => None,
        },
        CallV::OneArg(m, recv, arg) => match (
            bin_op_of_name(m),
            eval_call(*recv, env),
            eval_call(*arg, env),
        ) {
            (Some(op), Some(a), Some(b)) => apply_bin(op, a, b),
            _ => None,
        },
    }
}

/// Each default method name denotes exactly the operator it was bound to:
/// the names are pairwise distinct.
pub proof fn lemma_name_round_trip(op: BinOp)
    ensures
        bin_op_of_name(bin_base_name(op)) == Some(op),
{
    assert(bin_base_name(BinOp::Add)[0] == ('a' as u8));
    assert(bin_base_name(BinOp::Sub)[0] == ('s' as u8));
    assert(bin_base_name(BinOp::Mul)[0] == ('m' as u8));
    assert(bin_base_name(BinOp::Div)[0] == ('d' as u8));
    assert(bin_base_name(BinOp::Rem)[0] == ('r' as u8));
    assert(bin_base_name(BinOp::Eq)[0] == ('e' as u8));
    assert(bin_base_name(BinOp::Ne)[0] == ('n' as u8));
    assert(bin_base_name(BinOp::Lt)[0] == ('l' as u8));
    assert(bin_base_name(BinOp::Le)[0] == ('l' as u8));
    assert(bin_base_name(BinOp::Gt)[0] == ('g' as u8));
    assert(bin_base_name(BinOp::Ge)[0] == ('g' as u8));
    assert(bin_base_name(BinOp::Lt)[1] != bin_base_name(BinOp::Le)[1]);
    assert(bin_base_name(BinOp::Gt)[1] != bin_base_name(BinOp::Ge)[1]);
    assert(bin_base_name(BinOp::Add).len() == 3);
    assert(bin_base_name(BinOp::Eq).len() == 2);
}

/// Lowering under the default mode always succeeds, and evaluating the call
/// tree it produces gives exactly the direct evaluation of the source
/// expression under conventional operator semantics — on every environment,
/// whether or not the expression has a value there.
pub proof fn lemma_lower_default_preserves_eval(e: Expr, env: Map<Seq<u8>, int>)
    ensures
        lower_spec(e, Mode::Default) matches Ok(c) && eval_call(c, env) == eval_expr(e, env),
    decreases e,
{
    match e {
        Expr::Atom(_) => {},
        Expr::Group(inner) => {
            lemma_lower_default_preserves_eval(*inner, env);
        },
        Expr::Unary(op, inner) => {
            lemma_lower_default_preserves_eval(*inner, env);
            assert(neg_name() != deref_name());
        },
        Expr::Binary(op, l, r) => {
            lemma_lower_default_preserves_eval(*l, env);
            lemma_lower_default_preserves_eval(*r, env);
            lemma_name_round_trip(op);
        },
    }
}

/// The algebraic and fast modes bind the same method names as the default
/// mode, so the three lower every expression to the identical call tree:
/// what distinguishes them is the runtime contract the caller attaches to
/// the bound methods, never the lowering.
pub proof fn lemma_default_names_shared(e: Expr)
    ensures
        lower_spec(e, Mode::Algebraic) == lower_spec(e, Mode::Default),
        lower_spec(e, Mode::Fast) == lower_spec(e, Mode::Default),
    decreases e,
{
    match e {
        Expr::Atom(_) => {},
        Expr::Group(inner) => {
            lemma_default_names_shared(*inner);
        },
        Expr::Unary(op, inner) => {
            lemma_default_names_shared(*inner);
        },
        Expr::Binary(op, l, r) => {
            lemma_default_names_shared(*l);
            lemma_default_names_shared(*r);
        },
    }
}

/// Whether two call trees have the same structure: the same nesting of
/// no-argument and one-argument calls over byte-identical atoms, method
/// names aside.
pub open spec fn same_shape(a: CallV, b: CallV) -> bool
    decreases a,
{
    match (a, b) {
        (CallV::Atom(t1), CallV::Atom(t2)) => t1 == t2,
        (CallV::NoArg(_, r1), CallV::NoArg(_, r2)) => same_shape(*r1, *r2),
        (CallV::OneArg(_, r1, a1), CallV::OneArg(_, r2, a2)) => same_shape(*r1, *r2)
            && same_shape(*a1, *a2),
        _ => false,
    }
}

/// Mode selection changes only method names, never structure: whenever an
/// expression lowers under two modes, the two call trees have the same shape
/// and carry the same atoms.
pub proof fn lemma_mode_preserves_shape(e: Expr, m1: Mode, m2: Mode)
    requires
        lower_spec(e, m1) is Ok,
        lower_spec(e, m2) is Ok,
    ensures
        same_shape(lower_spec(e, m1)->Ok_0, lower_spec(e, m2)->Ok_0),
    decreases e,
{
    match e {
        Expr::Atom(_) => {},
        Expr::Group(inner) => {
            lemma_mode_preserves_shape(*inner, m1, m2);
        },
        Expr::Unary(op, inner) => {
            lemma_mode_preserves_shape(*inner, m1, m2);
        },
        Expr::Binary(op, l, r) => {
            lemma_mode_preserves_shape(*l, m1, m2);
            lemma_mode_preserves_shape(*r, m1, m2);
        },
    }
}

/// Atoms are idempotent under lowering and emission: whatever the mode, an
/// atom — a call, an index expression, any opaque text — lowers to itself and
/// is emitted byte-identical.
pub proof fn lemma_atom_identity(v: Vec<u8>, mode: Mode)
    ensures
        lower_spec(Expr::Atom(v), mode) == Ok::<CallV, LowerError>(CallV::Atom(v@)),
        emit_spec(CallV::Atom(v@)) == v@,
{
}

} // verus!
