//! x86-64 instructions over pseudo-registers.

use vstd::prelude::*;
use crate::span::Symbol;
use crate::operand::{Imm, Label, Mem, Temp, Value};

verus! {

/// A unary operand: register or memory.
#[derive(Clone, Copy, Debug, PartialEq, Eq, Structural)]
pub enum Unary {
    R(Temp),
    M(Mem),
}

/// A two-operand form: source first, destination second, each an
/// immediate, a register, or memory — never two memory operands and
/// never an immediate destination.
#[derive(Clone, Copy, Debug, PartialEq, Eq, Structural)]
pub enum Binary {
    IR(Imm, Temp),
    IM(Imm, Mem),
    MR(Mem, Temp),
    RM(Temp, Mem),
    RR(Temp, Temp),
}

impl Binary {
    /// The destination operand, as a value.
    pub fn dest(&self) -> (r: Value)
        ensures
            r == spec_dest(*self),
    {
        match self {
            Binary::IR(_, t) => Value::Reg(*t),
            Binary::IM(_, m) => Value::Mem(*m),
            Binary::MR(_, t) => Value::Reg(*t),
            Binary::RM(_, m) => Value::Mem(*m),
            Binary::RR(_, t) => Value::Reg(*t),
        }
    }
}

/// The destination operand of a two-operand form.
pub open spec fn spec_dest(b: Binary) -> Value {
    match b {
        Binary::IR(_, t) => Value::Reg(t),
        Binary::IM(_, m) => Value::Mem(m),
        Binary::MR(_, t) => Value::Reg(t),
        Binary::RM(_, m) => Value::Mem(m),
        Binary::RR(_, t) => Value::Reg(t),
    }
}

/// A strength-reduced unary arithmetic instruction.
#[derive(Clone, Copy, Debug, PartialEq, Eq, Structural)]
pub enum Unop {
    Neg,
    Inc,
    Dec,
}

/// A two-operand arithmetic or bitwise instruction.
#[derive(Clone, Copy, Debug, PartialEq, Eq, Structural)]
pub enum Binop {
    Add,
    Sub,
    And,
    Or,
    XOr,
}

/// A condition code for a conditional jump.
#[derive(Clone, Copy, Debug, PartialEq, Eq, Structural)]
pub enum Cc {
    E,
    Ne,
    L,
    Le,
    G,
    Ge,
}

/// One instruction over pseudo-registers.
#[derive(Clone, Copy, Debug, PartialEq, Eq, Structural)]
pub enum Asm {
    Push(Unary),
    Pop(Unary),
    Mov(Binary),
    Cmp(Binary),
    Bin(Binop, Binary),
    Un(Unop, Unary),
    Mul(Unary),
    Div(Unary),
    Cqo,
    Call(Label),
    Jmp(Label),
    Jcc(Cc, Label),
    Label(Label),
    Comment(Symbol),
    Ret,
}

/// A tiled compilation unit: one function's instructions, prologue and
/// epilogue included.
pub struct Unit {
    pub text: Vec<Asm>,
}

} // verus!
