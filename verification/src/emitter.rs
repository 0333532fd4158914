//! The emitter: a pure structural print of a call tree back into method-call
//! source syntax, passing atom text through byte for byte.
//!
//! A call node itself binds postfix-tight, so it stands bare as the receiver
//! of the next call. An atom receiver is bare only when its text begins like
//! an identifier; any other atom — one beginning with a borrow, a literal
//! digit, or any other sigil — is wrapped in parentheses, else the emitted
//! method call would bind to the wrong part of the atom's own text when the
//! output is read back. An atom that is not a receiver passes through
//! unwrapped.

use vstd::prelude::*;

use crate::ast::{Call, CallV};
use crate::lowering::clone_bytes;

verus! {

/// Whether a byte begins an identifier: an ASCII letter or an underscore.
pub open spec fn is_ident_start(b: u8) -> bool {
    (('a' as u8) <= b <= ('z' as u8)) || (('A' as u8) <= b <= ('Z' as u8)) || b == ('_' as u8)
}

/// Whether an atom's text can stand bare as a method-call receiver: it must
/// begin like an identifier, so the appended `.method(...)` binds to the
/// whole atom.
pub open spec fn postfix_safe(t: Seq<u8>) -> bool {
    t.len() > 0 && is_ident_start(t[0])
}

/// The bytes a call tree prints to when it stands as a receiver: a call
/// prints as itself, an atom is parenthesized unless it is postfix-safe.
pub open spec fn emit_recv(c: CallV) -> Seq<u8>
    decreases c, 1int,
{
    match c {
        CallV::Atom(t) => if postfix_safe(t) {
            t
        } else {
            seq![('(' as u8)] + t + seq![(')' as u8)]
        },
        _ => emit_spec(c),
    }
}

/// The bytes a call tree prints to: `receiver.method()` for a no-argument
/// call, `receiver.method(arg)` for a one-argument call, and atom text
/// unchanged.
pub open spec fn emit_spec(c: CallV) -> Seq<u8>
    decreases c, 0int,
{
    match c {
        CallV::Atom(t) => t,
        CallV::NoArg(m, recv) => emit_recv(*recv) + seq![('.' as u8)] + m + seq![
            ('(' as u8),
            (')' as u8),
        ],
        CallV::OneArg(m, recv, arg) => emit_recv(*recv) + seq![('.' as u8)] + m + seq![
            ('(' as u8),
        ] + emit_spec(*arg) + seq![(')' as u8)],
    }
}

/// Appends a copy of `src` to `out`.
fn push_bytes(out: &mut Vec<u8>, src: &Vec<u8>)
    ensures
        final(out)@ == old(out)@ + src@,
{
    let mut i: usize = 0;
    while i < src.len()
        invariant
            i <= src@.len(),
            out@ == old(out)@ + src@.subrange(0, i as int),
        decreases src@.len() - i,
    {
        out.push(src[i]);
        proof {
            assert(old(out)@ + src@.subrange(0, i as int + 1) =~= (old(out)@ + src@.subrange(
                0,
                i as int,
            )).push(src@[i as int]));
        }
        i = i + 1;
    }
    proof {
        assert(old(out)@ + src@.subrange(0, src@.len() as int) =~= old(out)@ + src@);
    }
}

/// Whether the byte begins an identifier, decided in executable code.
fn is_ident_start_exec(b: u8) -> (r: bool)
    ensures
        r == is_ident_start(b),
{
    (b >= ('a' as u8) && b <= ('z' as u8)) || (b >= ('A' as u8) && b <= ('Z' as u8)) || b == (
    '_' as u8)
}

/// Prints a call tree standing as a receiver: [`emit_recv`].
fn emit_receiver(c: &Call) -> (r: Vec<u8>)
    ensures
        r@ == emit_recv(c@),
    decreases *c, 1int,
{
    match c {
        Call::Atom(t) => {
            let safe = t.len() > 0 && is_ident_start_exec(t[0]);
            if safe {
                clone_bytes(t)
            } else {
                let mut out: Vec<u8> = Vec::new();
                out.push('(' as u8);
                push_bytes(&mut out, t);
                out.push(')' as u8);
                proof {
                    assert(out@ =~= emit_recv(c@));
                }
                out
            }
        },
        _ => emit(c),
    }
}

/// Serializes the call tree into the bytes [`emit_spec`] describes.
/// Deterministic and side-effect free.
pub fn emit(c: &Call) -> (r: Vec<u8>)
    ensures
        r@ == emit_spec(c@),
    decreases *c, 0int,
{
    match c {
        Call::Atom(t) => clone_bytes(t),
        Call::NoArg(m, recv) => {
            let mut out = emit_receiver(recv);
            out.push('.' as u8);
            push_bytes(&mut out, m);
            out.push('(' as u8);
            out.push(')' as u8);
            proof {
                assert(out@ =~= emit_spec(c@));
            }
            out
        },
        Call::OneArg(m, recv, arg) => {
            let mut out = emit_receiver(recv);
            out.push('.' as u8);
            push_bytes(&mut out, m);
            out.push('(' as u8);
            let arg_bytes = emit(arg);
            push_bytes(&mut out, &arg_bytes);
            out.push(')' as u8);
            proof {
                assert(out@ =~= emit_spec(c@));
            }
            out
        },
    }
}

} // verus!
