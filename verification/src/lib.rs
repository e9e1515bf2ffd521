//! Compiler core for a small statically-typed imperative language with
//! records, arrays, strings and nested functions: a semantic analyzer,
//! a translator into a three-address intermediate representation, and a
//! maximal-munch instruction tiler targeting x86-64 in pseudo-register form.

pub mod span;
pub mod ast;
pub mod ty;
pub mod error;
pub mod symset;
pub mod check;
pub mod laws;
pub mod operand;
pub mod code;
pub mod ir;
pub mod tile;
pub mod frame;
pub mod translate;
pub mod display;
