//! A small Lisp-like expression language: a lexer, a parser that builds
//! tagged value trees, and an evaluator with lexical closures, variadic
//! parameters and unhygienic macros.
//!
//! Every stage is specified against a mathematical model: the lexer against
//! a spec state machine over character sequences, the parser against a spec
//! pushdown run over token sequences, and the evaluator against a spec
//! definitional interpreter over ghost values.

pub mod built_in;
pub mod laws;
pub mod lexer;
pub mod lisp;
pub mod parser;
pub mod semantics;
pub mod views;
