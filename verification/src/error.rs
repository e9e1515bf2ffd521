//! Compilation errors.
//!
//! Every error pairs a kind with the span of the offending source text.
//! The analyzer is fail-fast: the first semantic error stops the
//! pipeline. Lexical and syntactic kinds are carried for the upstream
//! lexer and parser, which live outside the core.

use vstd::prelude::*;
use crate::span::Span;

verus! {

/// An error with the source range it points at.
#[derive(Clone, Copy, Debug, PartialEq, Eq, Structural)]
pub struct Error {
    pub span: Span,
    pub kind: Kind,
}

/// Which stage rejected the program.
#[derive(Clone, Copy, Debug, PartialEq, Eq, Structural)]
pub enum Kind {
    Lexical(Lex),
    Syntactic(Parse),
    Semantic(Type),
}

/// Lexical error kinds, reported by the upstream lexer.
#[derive(Clone, Copy, Debug, PartialEq, Eq, Structural)]
pub enum Lex {
    Comment,
    Integer,
    Unknown,
}

/// Syntactic error kinds, reported by the upstream parser.
#[derive(Clone, Copy, Debug, PartialEq, Eq, Structural)]
pub enum Parse {
    Extra,
    Unexpected,
}

/// Semantic error kinds, reported by the analyzer.
#[derive(Clone, Copy, Debug, PartialEq, Eq, Structural)]
pub enum Type {
    /// `break` outside any loop.
    Break,
    /// A name with no declaration in scope — a type, or a variable —
    /// or a type alias that never reaches a concrete type (an undefined
    /// or purely cyclic alias).
    UnboundType,
    /// A field name absent from the record's declaration.
    UnboundField,
    /// A call to a name with no function declaration in scope.
    UnboundFunction,
    /// An array literal whose type name is not in scope.
    UnboundArr,
    /// A record literal whose type name is not in scope.
    UnboundRecord,
    /// Field access or record literal on a non-record type.
    NotRecord,
    /// Indexing or array literal on a non-array type.
    NotArr,
    /// A call to a name bound as a variable, or a variable use of a
    /// name bound as a function.
    NotFunction,
    /// An array index that is not an integer.
    IndexMismatch,
    /// Unary negation of a non-integer.
    Neg,
    /// Operands a binary operator does not accept.
    BinaryMismatch,
    /// Wrong number of arguments, or an argument that does not subtype
    /// its formal parameter.
    CallMismatch,
    /// A record literal whose fields do not match the declaration in
    /// count, names, order, or types.
    FieldMismatch,
    /// An assigned value that does not subtype the assigned place, or a
    /// variable initializer that does not subtype its annotation.
    VarMismatch,
    /// Assignment to a loop induction variable.
    AssignImmutable,
    /// An `if` or `while` guard that is not an integer.
    GuardMismatch,
    /// `if`/`else` branches neither of which subtypes the other.
    BranchMismatch,
    /// An `if` without `else` whose branch produces a value.
    UnusedBranch,
    /// A `while` body that produces a value.
    UnusedWhileBody,
    /// A `for` body that produces a value.
    UnusedForBody,
    /// A discarded intermediate expression that produces a value.
    UnusedExp,
    /// A `for` bound or an array size that is not an integer.
    ForBound,
    /// An array initializer that does not subtype the element type.
    ArrMismatch,
    /// `nil` bound to a variable without a type annotation.
    UnknownNil,
    /// A function body that does not subtype the declared return type.
    ReturnMismatch,
    /// Two functions of one group with the same name.
    FunConflict,
    /// Two types of one group with the same name.
    TypeConflict,
}

impl Error {
    /// An error from the lexer.
    pub fn lexical(start: u32, end: u32, err: Lex) -> (r: Error)
        ensures
            r == (Error { span: Span { start, end }, kind: Kind::Lexical(err) }),
    {
        Error { span: Span { start, end }, kind: Kind::Lexical(err) }
    }

    /// An error from the parser.
    pub fn syntactic(start: u32, end: u32, err: Parse) -> (r: Error)
        ensures
            r == (Error { span: Span { start, end }, kind: Kind::Syntactic(err) }),
    {
        Error { span: Span { start, end }, kind: Kind::Syntactic(err) }
    }

    /// An error from the analyzer.
    pub fn semantic(span: Span, err: Type) -> (r: Error)
        ensures
            r == (Error { span, kind: Kind::Semantic(err) }),
    {
        Error { span, kind: Kind::Semantic(err) }
    }
}

} // verus!
