//! The operator table: the static mapping, per lowering mode, from operator
//! symbol to bound method name and operand count. Read-only data; no
//! component mutates it.

use vstd::prelude::*;

use crate::ast::{BinOp, LowerError, Mode, UnOp};

verus! {

/// The method name bound to a binary operator under the default naming
/// discipline (shared by `Default`, `Algebraic` and `Fast`).
pub open spec fn bin_base_name(op: BinOp) -> Seq<u8> {
    match op {
        BinOp::Add => seq![('a' as u8), ('d' as u8), ('d' as u8)],
        BinOp::Sub => seq![('s' as u8), ('u' as u8), ('b' as u8)],
        BinOp::Mul => seq![('m' as u8), ('u' as u8), ('l' as u8)],
        BinOp::Div => seq![('d' as u8), ('i' as u8), ('v' as u8)],
        BinOp::Rem => seq![('r' as u8), ('e' as u8), ('m' as u8)],
        BinOp::Eq => seq![('e' as u8), ('q' as u8)],
        BinOp::Ne => seq![('n' as u8), ('e' as u8)],
        BinOp::Lt => seq![('l' as u8), ('t' as u8)],
        BinOp::Le => seq![('l' as u8), ('e' as u8)],
        BinOp::Gt => seq![('g' as u8), ('t' as u8)],
        BinOp::Ge => seq![('g' as u8), ('e' as u8)],
    }
}

/// The `wrapping_` method-name prefix.
pub open spec fn wrapping_prefix() -> Seq<u8> {
    seq![('w' as u8), ('r' as u8), ('a' as u8), ('p' as u8), ('p' as u8), ('i' as u8), ('n' as u8), ('g' as u8), ('_' as u8)]
}

/// The `saturating_` method-name prefix.
pub open spec fn saturating_prefix() -> Seq<u8> {
    seq![('s' as u8), ('a' as u8), ('t' as u8), ('u' as u8), ('r' as u8), ('a' as u8), ('t' as u8), ('i' as u8), ('n' as u8), ('g' as u8), ('_' as u8)]
}

/// Whether the operator is a comparison. Comparisons have no wrapping or
/// saturating variant, so they are unbound under those two modes.
pub open spec fn is_cmp(op: BinOp) -> bool {
    match op {
        BinOp::Eq | BinOp::Ne | BinOp::Lt | BinOp::Le | BinOp::Gt | BinOp::Ge => true,
        _ => false,
    }
}

/// The table's binding for a binary operator under a mode: the bound method
/// name, or nothing where the mode leaves the operator unbound.
pub open spec fn bin_method(mode: Mode, op: BinOp) -> Option<Seq<u8>> {
    if is_cmp(op) {
        match mode {
            Mode::Wrapping | Mode::Saturating => None,
            _ => Some(bin_base_name(op)),
        }
    } else {
        match mode {
            Mode::Wrapping => Some(wrapping_prefix() + bin_base_name(op)),
            Mode::Saturating => Some(saturating_prefix() + bin_base_name(op)),
            _ => Some(bin_base_name(op)),
        }
    }
}

/// The method name bound to negation under the default naming discipline.
pub open spec fn neg_name() -> Seq<u8> {
    seq![('n' as u8), ('e' as u8), ('g' as u8)]
}

/// The method name bound to dereference, the same under every mode.
pub open spec fn deref_name() -> Seq<u8> {
    seq![('d' as u8), ('e' as u8), ('r' as u8), ('e' as u8), ('f' as u8)]
}

/// The table's binding for a unary operator under a mode. Negation is
/// unbound under `Wrapping` and `Saturating`: a wrapping or saturating
/// negation is mode-undefined unless a caller adds it explicitly.
pub open spec fn un_method(mode: Mode, op: UnOp) -> Option<Seq<u8>> {
    match op {
        UnOp::Deref => Some(deref_name()),
        UnOp::Neg => match mode {
            Mode::Wrapping | Mode::Saturating => None,
            _ => Some(neg_name()),
        },
    }
}

/// Builds the bound method name of a binary operator under a mode, or
/// reports the operator as unsupported for that mode.
pub fn bin_method_exec(mode: Mode, op: BinOp) -> (r: Result<Vec<u8>, LowerError>)
    ensures
        match bin_method(mode, op) {
            Some(m) => r matches Ok(v) && v@ == m,
            None => r == Err::<Vec<u8>, LowerError>(LowerError::UnsupportedOperatorForMode),
        },
{
    let base: Vec<u8> = match op {
        BinOp::Add => vec![('a' as u8), ('d' as u8), ('d' as u8)],
        BinOp::Sub => vec![('s' as u8), ('u' as u8), ('b' as u8)],
        BinOp::Mul => vec![('m' as u8), ('u' as u8), ('l' as u8)],
        BinOp::Div => vec![('d' as u8), ('i' as u8), ('v' as u8)],
        BinOp::Rem => vec![('r' as u8), ('e' as u8), ('m' as u8)],
        BinOp::Eq => vec![('e' as u8), ('q' as u8)],
        BinOp::Ne => vec![('n' as u8), ('e' as u8)],
        BinOp::Lt => vec![('l' as u8), ('t' as u8)],
        BinOp::Le => vec![('l' as u8), ('e' as u8)],
        BinOp::Gt => vec![('g' as u8), ('t' as u8)],
        BinOp::Ge => vec![('g' as u8), ('e' as u8)],
    };
    let cmp = match op {
        BinOp::Eq | BinOp::Ne | BinOp::Lt | BinOp::Le | BinOp::Gt | BinOp::Ge => true,
        _ => false,
    };
    match mode {
        Mode::Wrapping | Mode::Saturating => {
            if cmp {
                Err(LowerError::UnsupportedOperatorForMode)
            } else {
                let mut name: Vec<u8> = if matches!(mode, Mode::Wrapping) {
                    vec![('w' as u8), ('r' as u8), ('a' as u8), ('p' as u8), ('p' as u8), ('i' as u8), ('n' as u8), ('g' as u8), ('_' as u8)]
                } else {
                    vec![('s' as u8), ('a' as u8), ('t' as u8), ('u' as u8), ('r' as u8), ('a' as u8), ('t' as u8), ('i' as u8), ('n' as u8), ('g' as u8), ('_' as u8)]
                };
                let mut tail = base;
                name.append(&mut tail);
                Ok(name)
            }
        },
        _ => Ok(base),
    }
}

/// Builds the bound method name of a unary operator under a mode, or reports
/// it as unsupported for that mode.
pub fn un_method_exec(mode: Mode, op: UnOp) -> (r: Result<Vec<u8>, LowerError>)
    ensures
        match un_method(mode, op) {
            Some(m) => r matches Ok(v) && v@ == m,
            None => r == Err::<Vec<u8>, LowerError>(LowerError::UnsupportedOperatorForMode),
        },
{
    match op {
        UnOp::Deref => Ok(vec![('d' as u8), ('e' as u8), ('r' as u8), ('e' as u8), ('f' as u8)]),
        UnOp::Neg => match mode {
            Mode::Wrapping | Mode::Saturating => Err(LowerError::UnsupportedOperatorForMode),
            _ => Ok(vec![('n' as u8), ('e' as u8), ('g' as u8)]),
        },
    }
}

/// The binary operator written with a symbol, if the symbol is in the table:
/// `+ - * / % == != < <= > >=`.
pub open spec fn bin_op_of_sym(s: Seq<u8>) -> Option<BinOp> {
    if s == seq![('+' as u8)] {
        Some(BinOp::Add)
    } else if s == seq![('-' as u8)] {
        Some(BinOp::Sub)
    } else if s == seq![('*' as u8)] {
        Some(BinOp::Mul)
    } else if s == seq![('/' as u8)] {
        Some(BinOp::Div)
    } else if s == seq![('%' as u8)] {
        Some(BinOp::Rem)
    } else if s == seq![('=' as u8), ('=' as u8)] {
        Some(BinOp::Eq)
    } else if s == seq![('!' as u8), ('=' as u8)] {
        Some(BinOp::Ne)
    } else if s == seq![('<' as u8)] {
        Some(BinOp::Lt)
    } else if s == seq![('<' as u8), ('=' as u8)] {
        Some(BinOp::Le)
    } else if s == seq![('>' as u8)] {
        Some(BinOp::Gt)
    } else if s == seq![('>' as u8), ('=' as u8)] {
        Some(BinOp::Ge)
    } else {
        None
    }
}

/// The unary prefix written with a sigil, if the sigil is in the table: the
/// unary-minus sigil `-` and the dereference sigil `*`.
pub open spec fn un_op_of_sym(s: Seq<u8>) -> Option<UnOp> {
    if s == seq![('-' as u8)] {
        Some(UnOp::Neg)
    } else if s == seq![('*' as u8)] {
        Some(UnOp::Deref)
    } else {
        None
    }
}

/// Looks a binary operator symbol up in the table under a mode: the bound
/// method name and the operand count, two for a binary operator. A symbol
/// outside the table entirely is an unknown operator; one the mode leaves
/// unbound, such as a comparison under `Wrapping` or `Saturating`, is
/// unsupported for the mode.
pub fn lookup_binary(mode: Mode, sym: &[u8]) -> (r: Result<(Vec<u8>, usize), LowerError>)
    ensures
        match bin_op_of_sym(sym@) {
            Some(op) => match bin_method(mode, op) {
                Some(m) => r matches Ok(p) && p.0@ == m && p.1 == 2,
                None => r == Err::<(Vec<u8>, usize), LowerError>(
                    LowerError::UnsupportedOperatorForMode,
                ),
            },
            None => r == Err::<(Vec<u8>, usize), LowerError>(LowerError::UnknownOperator),
        },
{
    let op = if sym.len() == 1 {
        let c = sym[0];
        if c == ('+' as u8) {
            Some(BinOp::Add)
        } else if c == ('-' as u8) {
            Some(BinOp::Sub)
        } else if c == ('*' as u8) {
            Some(BinOp::Mul)
        } else if c == ('/' as u8) {
            Some(BinOp::Div)
        } else if c == ('%' as u8) {
            Some(BinOp::Rem)
        } else if c == ('<' as u8) {
            Some(BinOp::Lt)
        } else if c == ('>' as u8) {
            Some(BinOp::Gt)
        } else {
            None
        }
    } else if sym.len() == 2 && sym[1] == ('=' as u8) {
        let c = sym[0];
        if c == ('=' as u8) {
            Some(BinOp::Eq)
        } else if c == ('!' as u8) {
            Some(BinOp::Ne)
        } else if c == ('<' as u8) {
            Some(BinOp::Le)
        } else if c == ('>' as u8) {
            Some(BinOp::Ge)
        } else {
            None
        }
    } else {
        None
    };
    proof {
        if sym@.len() == 1 {
            assert(sym@ =~= seq![sym@[0]]);
        }
        if sym@.len() == 2 {
            assert(sym@ =~= seq![sym@[0], sym@[1]]);
        }
    }
    match op {
        Some(op) => {
            let m = bin_method_exec(mode, op)?;
            Ok((m, 2))
        },
        None => Err(LowerError::UnknownOperator),
    }
}

/// Looks a unary sigil up in the table under a mode: the bound method name
/// and the operand count, one for a prefix. The dereference sigil is bound
/// under every mode; the unary-minus sigil is unbound under `Wrapping` and
/// `Saturating`.
pub fn lookup_unary(mode: Mode, sym: &[u8]) -> (r: Result<(Vec<u8>, usize), LowerError>)
    ensures
        match un_op_of_sym(sym@) {
            Some(op) => match un_method(mode, op) {
                Some(m) => r matches Ok(p) && p.0@ == m && p.1 == 1,
                None => r == Err::<(Vec<u8>, usize), LowerError>(
                    LowerError::UnsupportedOperatorForMode,
                ),
            },
            None => r == Err::<(Vec<u8>, usize), LowerError>(LowerError::UnknownOperator),
        },
{
    let op = if sym.len() == 1 {
        let c = sym[0];
        if c == ('-' as u8) {
            Some(UnOp::Neg)
        } else if c == ('*' as u8) {
            Some(UnOp::Deref)
        } else {
            None
        }
    } else {
        None
    };
    proof {
        if sym@.len() == 1 {
            assert(sym@ =~= seq![sym@[0]]);
        }
    }
    match op {
        Some(op) => {
            let m = un_method_exec(mode, op)?;
            Ok((m, 1))
        },
        None => Err(LowerError::UnknownOperator),
    }
}

} // verus!
