//! Per-function stack layout.
//!
//! A frame holds the function's label, its formal parameters in order
//! (each with its escape flag), and the accesses of the variables
//! allocated in it. A non-escaping variable lives in a fresh temporary;
//! an escaping one lives in a stack slot reached through the frame
//! pointer, so that nested functions can find it through the static
//! link, which is always the first formal and always escapes.

use vstd::prelude::*;
use crate::span::Symbol;
use crate::operand::{gen_bump, Gen, Label, Reg, Temp, WORD_SIZE};
use crate::ir::{Exp, Stm, Tree, tree_exp};
use crate::ty::ctx_lookup;

verus! {

/// Where a variable lives: a register, or a stack slot at a byte
/// offset below the frame pointer.
#[derive(Clone, Copy, Debug, PartialEq, Eq, Structural)]
pub enum Access {
    Reg(Temp),
    Slot(i32),
}

/// The expression that reads or writes an access, relative to a base
/// pointer expression.
pub open spec fn access_exp(a: Access, base: Exp) -> Exp {
    match a {
        Access::Reg(t) => Exp::Temp(t),
        Access::Slot(k) => Exp::Mem(
            Box::new(Exp::Binop(Box::new(base), crate::ir::Binop::Sub, Box::new(Exp::Const(k)))),
        ),
    }
}

/// The offset counter after one slot is taken; it saturates rather
/// than wrapping, at a depth no real frame reaches.
pub open spec fn bump_off(off: i32) -> i32 {
    if off <= i32::MAX - WORD_SIZE {
        (off + WORD_SIZE) as i32
    } else {
        off
    }
}

/// One function's frame.
pub struct Frame {
    pub label: Label,
    pub formals: Vec<(Symbol, bool)>,
    pub entries: Vec<(Symbol, Access)>,
    pub offset: i32,
    pub body: Option<Stm>,
}

/// The allocation of the formals from position `i` on: escaping
/// formals take successive slots, the rest fresh temporaries.
pub open spec fn alloc_formals_s(
    formals: Seq<(Symbol, bool)>,
    i: int,
    entries: Seq<(Symbol, Access)>,
    off: i32,
    g: u64,
) -> (Seq<(Symbol, Access)>, i32, u64)
    decreases formals.len() - i,
{
    if i < 0 || i >= formals.len() {
        (entries, off, g)
    } else {
        let (name, escape) = formals[i];
        if escape {
            alloc_formals_s(
                formals,
                i + 1,
                entries.push((name, Access::Slot(bump_off(off)))),
                bump_off(off),
                g,
            )
        } else {
            alloc_formals_s(
                formals,
                i + 1,
                entries.push((name, Access::Reg(Temp::Fresh(g)))),
                off,
                gen_bump(g),
            )
        }
    }
}

impl Frame {
    /// A fresh frame for a function: its formals allocated in order.
    pub fn new(label: Label, formals: Vec<(Symbol, bool)>, gen: &mut Gen) -> (r: Frame)
        ensures
            ({
                let (entries, off, g) = alloc_formals_s(formals@, 0, Seq::empty(), 0, old(
                    gen,
                ).next);
                &&& r.label == label
                &&& r.formals@ == formals@
                &&& r.entries@ == entries
                &&& r.offset == off
                &&& r.body is None
                &&& final(gen).next == g
            }),
    {
        let mut entries: Vec<(Symbol, Access)> = Vec::new();
        let mut off: i32 = 0;
        let mut i: usize = 0;
        while i < formals.len()
            invariant
                i <= formals.len(),
                alloc_formals_s(formals@, 0, Seq::empty(), 0, old(gen).next) == alloc_formals_s(
                    formals@,
                    i as int,
                    entries@,
                    off,
                    gen.next,
                ),
            decreases formals.len() - i,
        {
            let (name, escape) = formals[i];
            if escape {
                let noff = if off <= i32::MAX - WORD_SIZE {
                    off + WORD_SIZE
                } else {
                    off
                };
                entries.push((name, Access::Slot(noff)));
                off = noff;
            } else {
                let t = gen.temp();
                entries.push((name, Access::Reg(t)));
            }
            i = i + 1;
        }
        Frame { label, formals, entries, offset: off, body: None }
    }

    /// Whether this frame allocated `x`.
    pub fn contains(&self, x: Symbol) -> (r: bool)
        ensures
            r == (ctx_lookup(self.entries@, x) is Some),
    {
        let mut i: usize = self.entries.len();
        assert(self.entries@.subrange(0, i as int) =~= self.entries@);
        while i > 0
            invariant
                i <= self.entries.len(),
                ctx_lookup(self.entries@, x) == ctx_lookup(
                    self.entries@.subrange(0, i as int),
                    x,
                ),
            decreases i,
        {
            i = i - 1;
            proof {
                let pre = self.entries@.subrange(0, i + 1 as int);
                assert(pre.drop_last() =~= self.entries@.subrange(0, i as int));
                assert(pre.last() == self.entries@[i as int]);
            }
            if self.entries[i].0 == x {
                return true;
            }
        }
        assert(self.entries@.subrange(0, 0) =~= Seq::<(Symbol, Access)>::empty());
        false
    }

    /// The access of `x`, if this frame allocated it.
    pub fn get(&self, x: Symbol) -> (r: Option<Access>)
        ensures
            r == ctx_lookup(self.entries@, x),
    {
        let mut i: usize = self.entries.len();
        assert(self.entries@.subrange(0, i as int) =~= self.entries@);
        while i > 0
            invariant
                i <= self.entries.len(),
                ctx_lookup(self.entries@, x) == ctx_lookup(
                    self.entries@.subrange(0, i as int),
                    x,
                ),
            decreases i,
        {
            i = i - 1;
            proof {
                let pre = self.entries@.subrange(0, i + 1 as int);
                assert(pre.drop_last() =~= self.entries@.subrange(0, i as int));
                assert(pre.last() == self.entries@[i as int]);
            }
            if self.entries[i].0 == x {
                return Some(self.entries[i].1);
            }
        }
        assert(self.entries@.subrange(0, 0) =~= Seq::<(Symbol, Access)>::empty());
        None
    }

    /// Allocate `x` in this frame: a stack slot if it escapes, a fresh
    /// temporary otherwise.
    pub fn allocate(&mut self, x: Symbol, escape: bool, gen: &mut Gen) -> (r: Access)
        ensures
            final(self).label == old(self).label,
            final(self).formals@ == old(self).formals@,
            final(self).body == old(self).body,
            escape ==> {
                &&& r == Access::Slot(bump_off(old(self).offset))
                &&& final(self).offset == bump_off(old(self).offset)
                &&& final(self).entries@ == old(self).entries@.push((x, r))
                &&& final(gen).next == old(gen).next
            },
            !escape ==> {
                &&& r == Access::Reg(Temp::Fresh(old(gen).next))
                &&& final(self).offset == old(self).offset
                &&& final(self).entries@ == old(self).entries@.push((x, r))
                &&& final(gen).next == gen_bump(old(gen).next)
            },
    {
        if escape {
            let noff = if self.offset <= i32::MAX - WORD_SIZE {
                self.offset + WORD_SIZE
            } else {
                self.offset
            };
            self.offset = noff;
            let a = Access::Slot(noff);
            self.entries.push((x, a));
            a
        } else {
            let t = gen.temp();
            let a = Access::Reg(t);
            self.entries.push((x, a));
            a
        }
    }

    /// Record the translated body in the frame: the body's expression
    /// form, exactly as [`tree_exp`] gives it, moved into the return
    /// register.
    pub fn wrap(self, t: Tree, gen: &mut Gen) -> (r: Frame)
        ensures
            r.label == self.label,
            r.formals@ == self.formals@,
            r.entries@ == self.entries@,
            r.offset == self.offset,
            match t {
                Tree::Ex(e) => r.body == Some(
                    Stm::Move(e, Exp::Temp(Temp::Reg(Reg::RAX))),
                ) && final(gen).next == old(gen).next,
                Tree::Nx(s) => r.body == Some(
                    Stm::Move(
                        Exp::ESeq(Box::new(s), Box::new(Exp::Const(0))),
                        Exp::Temp(Temp::Reg(Reg::RAX)),
                    ),
                ) && final(gen).next == old(gen).next,
                Tree::Cx(c) => {
                    let n0 = old(gen).next;
                    let n1 = gen_bump(n0);
                    let n2 = gen_bump(n1);
                    &&& final(gen).next == gen_bump(n2)
                    &&& r.body matches Some(b)
                    &&& b matches Stm::Move(me, dst)
                    &&& dst == Exp::Temp(Temp::Reg(Reg::RAX))
                    &&& me matches Exp::ESeq(body, val)
                    &&& *val == Exp::Temp(Temp::Fresh(n0))
                    &&& *body matches Stm::Seqs(v)
                    &&& v@ == seq![
                        Stm::Move(Exp::Const(1), Exp::Temp(Temp::Fresh(n0))),
                        Stm::CJump(*c.lhs, c.op, *c.rhs, Label::Fresh(n1), Label::Fresh(n2)),
                        Stm::Label(Label::Fresh(n2)),
                        Stm::Move(Exp::Const(0), Exp::Temp(Temp::Fresh(n0))),
                        Stm::Label(Label::Fresh(n1)),
                    ]
                },
            },
            crate::ir::labels_wf_tree(t) ==> (r.body matches Some(b)
                && crate::ir::labels_wf_stm(b)),
    {
        let e = tree_exp(t, gen);
        proof {
            if crate::ir::labels_wf_tree(t) {
                let b = Stm::Move(e, Exp::Temp(Temp::Reg(Reg::RAX)));
                assert(crate::ir::stm_defined(b) =~= crate::ir::exp_defined(e));
                assert(crate::ir::stm_refs(b) =~= crate::ir::exp_refs(e));
            }
        }
        Frame {
            label: self.label,
            formals: self.formals,
            entries: self.entries,
            offset: self.offset,
            body: Some(Stm::Move(e, Exp::Temp(Temp::Reg(Reg::RAX)))),
        }
    }
}

/// The expression that reads or writes an access.
pub fn access_to_exp(a: Access, base: Exp) -> (r: Exp)
    ensures
        r == access_exp(a, base),
        crate::ir::labels_wf_exp(base) ==> crate::ir::labels_wf_exp(r),
{
    proof {
        if crate::ir::labels_wf_exp(base) {
            match a {
                Access::Reg(t) => {
                    assert(crate::ir::exp_defined(Exp::Temp(t)) =~= Set::<Label>::empty());
                },
                Access::Slot(k) => {
                    crate::ir::lemma_binop_wf(base, crate::ir::Binop::Sub, Exp::Const(k));
                    crate::ir::lemma_mem_wf(
                        Exp::Binop(
                            Box::new(base),
                            crate::ir::Binop::Sub,
                            Box::new(Exp::Const(k)),
                        ),
                    );
                },
            }
        }
    }
    match a {
        Access::Reg(t) => Exp::Temp(t),
        Access::Slot(k) => Exp::Mem(
            Box::new(Exp::Binop(Box::new(base), crate::ir::Binop::Sub, Box::new(Exp::Const(k)))),
        ),
    }
}

} // verus!
