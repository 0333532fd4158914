//! An operator-lowering engine: it turns infix/prefix operator expressions
//! into equivalent trees of explicit method calls, so that types without
//! native operator overloading, or callers wanting a specific numeric
//! discipline (default, algebraic, fast, wrapping, saturating), can be driven
//! through a uniform call convention chosen at the lowering site.
//!
//! Data flow: tokens -> parser -> expression tree -> rewriter (+ operator
//! table) -> call tree -> emitter -> output bytes.

pub mod algebraic;
pub mod ast;
pub mod emitter;
pub mod fast;
pub mod lowering;
pub mod parser;
pub mod pipeline;
pub mod semantics;
pub mod table;
