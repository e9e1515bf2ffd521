//! Pseudo-registers, labels, and x86-64 operand forms.

use vstd::prelude::*;
use crate::span::Symbol;

verus! {

/// The word size of the target, in bytes.
pub const WORD_SIZE: i32 = 8;

/// A physical x86-64 register the core cares about.
#[derive(Clone, Copy, Debug, PartialEq, Eq, Structural)]
pub enum Reg {
    RBP,
    RSP,
    RAX,
    RBX,
    R12,
    R13,
    R14,
    R15,
    RDI,
    RSI,
    RDX,
    RCX,
    R8,
    R9,
}

impl Reg {
    /// The register carrying argument `i` under the System V AMD64
    /// calling convention.
    pub fn get_argument(i: usize) -> (r: Reg)
        requires
            i < 6,
        ensures
            r == spec_argument(i as int),
    {
        match i {
            0 => Reg::RDI,
            1 => Reg::RSI,
            2 => Reg::RDX,
            3 => Reg::RCX,
            4 => Reg::R8,
            _ => Reg::R9,
        }
    }

    /// The register carrying a return value.
    pub fn get_return() -> (r: Reg)
        ensures
            r == Reg::RAX,
    {
        Reg::RAX
    }
}

/// The register carrying argument `i`.
pub open spec fn spec_argument(i: int) -> Reg {
    if i == 0 {
        Reg::RDI
    } else if i == 1 {
        Reg::RSI
    } else if i == 2 {
        Reg::RDX
    } else if i == 3 {
        Reg::RCX
    } else if i == 4 {
        Reg::R8
    } else {
        Reg::R9
    }
}

/// A pseudo-register: a physical register or a fresh virtual temporary,
/// resolved by a later register allocator.
#[derive(Clone, Copy, Debug, PartialEq, Eq, Structural)]
pub enum Temp {
    Reg(Reg),
    Fresh(u64),
}

/// A code location. `Fixed` labels carry the deterministic external
/// name (the entry point, the runtime symbols); `Fresh` labels are
/// drawn from a monotonic counter.
#[derive(Clone, Copy, Debug, PartialEq, Eq, Structural)]
pub enum Label {
    Fixed(Symbol),
    Fresh(u64),
}

/// An immediate operand.
#[derive(Clone, Copy, Debug, PartialEq, Eq, Structural)]
pub struct Imm(pub i32);

/// A memory index scale.
#[derive(Clone, Copy, Debug, PartialEq, Eq, Structural)]
pub enum Scale {
    One,
    Two,
    Four,
    Eight,
}

/// The scale for a constant, if the addressing mode supports it.
pub open spec fn spec_scale(s: i32) -> Option<Scale> {
    if s == 1 {
        Some(Scale::One)
    } else if s == 2 {
        Some(Scale::Two)
    } else if s == 4 {
        Some(Scale::Four)
    } else if s == 8 {
        Some(Scale::Eight)
    } else {
        None
    }
}

impl Scale {
    /// The scale for a constant, if the addressing mode supports it.
    pub fn try_scale(s: i32) -> (r: Option<Scale>)
        ensures
            r == spec_scale(s),
    {
        match s {
            1 => Some(Scale::One),
            2 => Some(Scale::Two),
            4 => Some(Scale::Four),
            8 => Some(Scale::Eight),
            _ => None,
        }
    }
}

/// A memory operand, in decreasing order of specificity.
#[derive(Clone, Copy, Debug, PartialEq, Eq, Structural)]
pub enum Mem {
    /// `[base + index * scale + offset]`
    BRSO(Temp, Temp, Scale, i32),
    /// `[index * scale + offset]`
    RSO(Temp, Scale, i32),
    /// `[register + offset]`
    RO(Temp, i32),
    /// `[register]`
    R(Temp),
}

/// What a tiled expression evaluates to.
#[derive(Clone, Copy, Debug, PartialEq, Eq, Structural)]
pub enum Value {
    Imm(Imm),
    Reg(Temp),
    Mem(Mem),
    Label(Label),
}

/// A generator of fresh labels and temporaries: a monotonic counter,
/// seeded at zero per compilation and saturating rather than wrapping.
pub struct Gen {
    pub next: u64,
}

/// The counter after one draw.
pub open spec fn gen_bump(c: u64) -> u64 {
    if c < u64::MAX {
        (c + 1) as u64
    } else {
        c
    }
}

impl Gen {
    pub fn new(start: u64) -> (g: Gen)
        ensures
            g.next == start,
    {
        Gen { next: start }
    }

    /// A fresh label.
    pub fn label(&mut self) -> (r: Label)
        ensures
            r == Label::Fresh(old(self).next),
            final(self).next == gen_bump(old(self).next),
    {
        let l = Label::Fresh(self.next);
        if self.next < u64::MAX {
            self.next = self.next + 1;
        }
        l
    }

    /// A fresh temporary.
    pub fn temp(&mut self) -> (r: Temp)
        ensures
            r == Temp::Fresh(old(self).next),
            final(self).next == gen_bump(old(self).next),
    {
        let t = Temp::Fresh(self.next);
        if self.next < u64::MAX {
            self.next = self.next + 1;
        }
        t
    }
}

} // verus!
