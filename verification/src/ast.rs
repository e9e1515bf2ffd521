//! Abstract syntax.
//!
//! A sum of declarations, expressions, l-values and type expressions;
//! every node carries the span of the source text it came from. The
//! parser that produces these values lives outside the core.

use vstd::prelude::*;
use crate::span::{Span, Symbol};

verus! {

/// A declaration inside a `let`. Consecutive function declarations are
/// grouped into one `Fun` and consecutive type declarations into one
/// `Type`; each group is checked as a mutually recursive unit.
#[derive(Debug)]
pub enum Dec {
    Fun(Vec<FunDec>, Span),
    Var {
        name: Symbol,
        name_span: Span,
        escape: bool,
        ty: Option<Symbol>,
        ty_span: Option<Span>,
        init: Exp,
        span: Span,
    },
    Type(Vec<TypeDec>, Span),
}

/// One function of a mutually recursive group.
#[derive(Debug)]
pub struct FunDec {
    pub name: Symbol,
    pub name_span: Span,
    pub args: Vec<FieldDec>,
    pub rets: Option<Symbol>,
    pub rets_span: Option<Span>,
    pub body: Exp,
    pub span: Span,
}

/// A formal parameter or a record field declaration: `name : type`.
#[derive(Debug)]
pub struct FieldDec {
    pub name: Symbol,
    pub name_span: Span,
    pub escape: bool,
    pub ty: Symbol,
    pub ty_span: Span,
    pub span: Span,
}

/// One type of a mutually recursive group: `type name = ty`.
#[derive(Debug)]
pub struct TypeDec {
    pub name: Symbol,
    pub name_span: Span,
    pub ty: Type,
    pub span: Span,
}

/// A field of a record literal: `name = exp`.
#[derive(Debug)]
pub struct Field {
    pub name: Symbol,
    pub name_span: Span,
    pub exp: Box<Exp>,
    pub span: Span,
}

/// The right-hand side of a type declaration.
#[derive(Debug)]
pub enum Type {
    Name(Symbol, Span),
    Rec(Vec<FieldDec>, Span),
    Arr(Symbol, Span, Span),
}

/// An l-value.
#[derive(Debug)]
pub enum Var {
    Simple(Symbol, Span),
    Field(Box<Var>, Symbol, Span, Span),
    Index(Box<Var>, Box<Exp>, Span),
}

/// An expression.
#[derive(Debug)]
pub enum Exp {
    Break(Span),
    Nil(Span),
    Var(Var, Span),
    Int(i32, Span),
    Str(String, Span),
    Call {
        name: Symbol,
        name_span: Span,
        args: Vec<Exp>,
        span: Span,
    },
    Neg(Box<Exp>, Span),
    Bin {
        lhs: Box<Exp>,
        op: Binop,
        rhs: Box<Exp>,
        span: Span,
    },
    Rec {
        name: Symbol,
        name_span: Span,
        fields: Vec<Field>,
        span: Span,
    },
    Seqs(Vec<Exp>, Span),
    Ass {
        name: Var,
        exp: Box<Exp>,
        span: Span,
    },
    If {
        guard: Box<Exp>,
        then: Box<Exp>,
        or: Option<Box<Exp>>,
        span: Span,
    },
    While {
        guard: Box<Exp>,
        body: Box<Exp>,
        span: Span,
    },
    For {
        name: Symbol,
        escape: bool,
        lo: Box<Exp>,
        hi: Box<Exp>,
        body: Box<Exp>,
        span: Span,
    },
    Let {
        decs: Vec<Dec>,
        body: Box<Exp>,
        span: Span,
    },
    Arr {
        name: Symbol,
        name_span: Span,
        size: Box<Exp>,
        init: Box<Exp>,
        span: Span,
    },
}

/// A binary operator.
#[derive(Clone, Copy, Debug, PartialEq, Eq, Structural)]
pub enum Binop {
    Add,
    Sub,
    Mul,
    Div,
    Eq,
    Neq,
    Lt,
    Le,
    Gt,
    Ge,
    LAnd,
    LOr,
}

impl Binop {
    /// Whether this operator tests equality (`=` or `<>`).
    pub fn is_equality(&self) -> (r: bool)
        ensures
            r == (*self == Binop::Eq || *self == Binop::Neq),
    {
        match self {
            Binop::Eq | Binop::Neq => true,
            _ => false,
        }
    }

    /// Whether this operator compares its operands (`=`, `<>`, `<`,
    /// `<=`, `>`, `>=`).
    pub fn is_comparison(&self) -> (r: bool)
        ensures
            r == (*self == Binop::Eq || *self == Binop::Neq || *self == Binop::Gt
                || *self == Binop::Ge || *self == Binop::Lt || *self == Binop::Le),
    {
        match self {
            Binop::Eq | Binop::Neq | Binop::Gt | Binop::Ge | Binop::Lt | Binop::Le => true,
            _ => false,
        }
    }
}

} // verus!
