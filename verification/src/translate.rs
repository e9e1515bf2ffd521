//! The IR translator.
//!
//! Runs after semantic analysis succeeds, and lowers the typed syntax
//! into three-address trees: one frame per function plus the synthetic
//! entry frame, and the string literals as static data. A semantic
//! violation that the analyzer would have rejected surfaces here as
//! `None`, never as a panic; on analyzed programs it does not happen.
//!
//! Variable access walks the static-link chain: at each enclosing frame
//! that does not hold the variable, the accumulated pointer is wrapped
//! in one load of that frame's static-link slot, so a variable declared
//! `d` frames up costs exactly `d` loads before its own slot is read.

use vstd::prelude::*;
use crate::span::{Symbol, SYM_CHR, SYM_CONCAT, SYM_EXIT, SYM_FLUSH, SYM_GETCHAR, SYM_INIT_ARRAY,
    SYM_MAIN, SYM_MALLOC, SYM_NOT, SYM_ORD, SYM_PRINT, SYM_SIZE, SYM_STATIC_LINK, SYM_SUBSTRING};
use crate::ast::{Binop, Dec, Exp, Field, FunDec, Type, TypeDec, Var};
use crate::operand::{gen_bump, Gen, Label, Reg, Temp, WORD_SIZE};
use crate::ir;
use crate::ir::{jump_to, tree_exp, tree_stm, Cond, Static, Stm, Tree};
use crate::frame::{access_exp, access_to_exp, bump_off, Access, Frame};
use crate::ty::{ctx_lookup, Binding, Ty, TyList, TypeContext, VarContext};
use crate::check::{check_type_s, rec_fields_s, type_bodies_s, type_sentinels_s};

verus! {

/// How a name is called: a nested function of the program, which takes
/// the static link, or a runtime function, which does not.
#[derive(Clone, Copy, Debug, PartialEq, Eq, Structural)]
pub enum Call {
    Function(Label),
    Extern(Label),
}

/// The lexically scoped function context.
pub struct FnContext {
    pub entries: Vec<(Symbol, Call)>,
}

impl View for FnContext {
    type V = Seq<(Symbol, Call)>;

    open spec fn view(&self) -> Seq<(Symbol, Call)> {
        self.entries@
    }
}

impl FnContext {
    pub fn new() -> (r: FnContext)
        ensures
            r@ == Seq::<(Symbol, Call)>::empty(),
    {
        FnContext { entries: Vec::new() }
    }

    pub fn insert(&mut self, x: Symbol, c: Call)
        ensures
            final(self)@ == old(self)@.push((x, c)),
    {
        self.entries.push((x, c));
    }

    pub fn get(&self, x: Symbol) -> (r: Option<Call>)
        ensures
            r == ctx_lookup(self@, x),
    {
        let mut i: usize = self.entries.len();
        assert(self@.subrange(0, i as int) =~= self@);
        while i > 0
            invariant
                i <= self.entries.len(),
                ctx_lookup(self@, x) == ctx_lookup(self@.subrange(0, i as int), x),
            decreases i,
        {
            i = i - 1;
            proof {
                let pre = self@.subrange(0, i + 1 as int);
                assert(pre.drop_last() =~= self@.subrange(0, i as int));
                assert(pre.last() == self@[i as int]);
            }
            if self.entries[i].0 == x {
                return Some(self.entries[i].1);
            }
        }
        assert(self@.subrange(0, 0) =~= Seq::<(Symbol, Call)>::empty());
        None
    }

    /// A copy of this context, for entering a new scope.
    pub fn duplicate(&self) -> (r: FnContext)
        ensures
            r@ == self@,
    {
        let mut entries: Vec<(Symbol, Call)> = Vec::new();
        let mut i: usize = 0;
        while i < self.entries.len()
            invariant
                i <= self.entries.len(),
                entries@ =~= self.entries@.subrange(0, i as int),
            decreases self.entries.len() - i,
        {
            entries.push(self.entries[i]);
            i = i + 1;
            assert(entries@ =~= self.entries@.subrange(0, i as int));
        }
        assert(entries@ =~= self.entries@);
        FnContext { entries }
    }
}

/// The byte offset and type of the record field named `x`, walking the
/// declared fields in order; an offset past the immediate range is an
/// internal failure.
pub open spec fn field_offset_s(l: TyList, x: Symbol) -> Option<(i32, Ty)>
    decreases l,
{
    match l {
        TyList::Nil => None,
        TyList::Cons(name, ty, rest) => if name == x {
            Some((0, ty))
        } else {
            match field_offset_s(*rest, x) {
                None => None,
                Some((o, t)) => if o <= i32::MAX - WORD_SIZE {
                    Some(((o + WORD_SIZE) as i32, t))
                } else {
                    None
                },
            }
        },
    }
}

fn field_offset<'a>(l: &'a TyList, x: Symbol) -> (r: Option<(i32, &'a Ty)>)
    ensures
        match r {
            Some((o, t)) => field_offset_s(*l, x) == Some((o, *t)),
            None => field_offset_s(*l, x) is None,
        },
    decreases l,
{
    match l {
        TyList::Nil => None,
        TyList::Cons(name, ty, rest) => if *name == x {
            Some((0, ty))
        } else {
            match field_offset(rest, x) {
                None => None,
                Some((o, t)) => if o <= i32::MAX - WORD_SIZE {
                    Some((o + WORD_SIZE, t))
                } else {
                    None
                },
            }
        },
    }
}

/// The access expression of `x` through the static links: starting at
/// the innermost frame and the current frame pointer, each frame that
/// does not hold `x` wraps the pointer in one load of its static-link
/// slot; the frame that holds `x` reads its access off the accumulated
/// pointer.
pub open spec fn chain_exp(frames: Seq<Frame>, x: Symbol, base: ir::Exp) -> Option<ir::Exp>
    decreases frames.len(),
{
    if frames.len() == 0 {
        None
    } else {
        let f = frames.last();
        match ctx_lookup(f.entries@, x) {
            Some(a) => Some(access_exp(a, base)),
            None => match ctx_lookup(f.entries@, SYM_STATIC_LINK) {
                None => None,
                Some(sl) => chain_exp(frames.drop_last(), x, access_exp(sl, base)),
            },
        }
    }
}

/// One step of the chain: a frame without the variable costs exactly
/// one memory load, through its static-link slot.
pub proof fn lemma_chain_step(frames: Seq<Frame>, x: Symbol, base: ir::Exp, k: i32)
    requires
        frames.len() > 0,
        ctx_lookup(frames.last().entries@, x) is None,
        ctx_lookup(frames.last().entries@, SYM_STATIC_LINK) == Some(Access::Slot(k)),
    ensures
        chain_exp(frames, x, base) == chain_exp(
            frames.drop_last(),
            x,
            ir::Exp::Mem(
                Box::new(
                    ir::Exp::Binop(Box::new(base), ir::Binop::Sub, Box::new(ir::Exp::Const(k))),
                ),
            ),
        ),
{
}

/// The last step of the chain: the frame holding the variable reads it
/// off the accumulated pointer with no further static-link load.
pub proof fn lemma_chain_found(frames: Seq<Frame>, x: Symbol, base: ir::Exp, a: Access)
    requires
        frames.len() > 0,
        ctx_lookup(frames.last().entries@, x) == Some(a),
    ensures
        chain_exp(frames, x, base) == Some(access_exp(a, base)),
{
}


/// Pairwise sum of two (frame, static) contributions.
pub open spec fn add2(a: (nat, nat), b: (nat, nat)) -> (nat, nat) {
    (a.0 + b.0, a.1 + b.1)
}

/// How many finished frames and static data entries the translation of
/// a phrase contributes: one frame per function declaration inside it,
/// one static per string literal inside it.
pub open spec fn counts_exp(e: Exp) -> (nat, nat)
    decreases e, 0nat,
{
    match e {
        Exp::Break(_) => (0, 0),
        Exp::Nil(_) => (0, 0),
        Exp::Int(_, _) => (0, 0),
        Exp::Str(_, _) => (0nat, 1nat),
        Exp::Var(v, _) => counts_var(v),
        Exp::Call { name: _, name_span: _, args, span: _ } => counts_exps(args@, 0, args@.len() as int),
        Exp::Neg(x, _) => counts_exp(*x),
        Exp::Bin { lhs, op: _, rhs, span: _ } => add2(counts_exp(*lhs), counts_exp(*rhs)),
        Exp::Rec { name: _, name_span: _, fields, span: _ } => counts_fields(fields@, 0),
        Exp::Seqs(v, _) => counts_exps(v@, 0, v@.len() as int),
        Exp::Ass { name, exp, span: _ } => add2(counts_var(name), counts_exp(*exp)),
        Exp::If { guard, then, or, span: _ } => add2(
            add2(counts_exp(*guard), counts_exp(*then)),
            match or {
                Some(o) => counts_exp(*o),
                None => (0nat, 0nat),
            },
        ),
        Exp::While { guard, body, span: _ } => add2(counts_exp(*guard), counts_exp(*body)),
        Exp::For { name: _, escape: _, lo, hi, body, span: _ } => add2(
            add2(counts_exp(*lo), counts_exp(*hi)),
            counts_exp(*body),
        ),
        Exp::Let { decs, body, span: _ } => add2(counts_decs(decs@, 0), counts_exp(*body)),
        Exp::Arr { name: _, name_span: _, size, init, span: _ } => add2(
            counts_exp(*size),
            counts_exp(*init),
        ),
    }
}

pub open spec fn counts_var(v: Var) -> (nat, nat)
    decreases v, 0nat,
{
    match v {
        Var::Simple(_, _) => (0, 0),
        Var::Field(r, _, _, _) => counts_var(*r),
        Var::Index(a, i, _) => add2(counts_var(*a), counts_exp(*i)),
    }
}

/// The contributions of the expressions in positions `[i, stop)`.
pub open spec fn counts_exps(s: Seq<Exp>, i: int, stop: int) -> (nat, nat)
    decreases s, stop - i,
{
    if i < 0 || i >= stop || i >= s.len() {
        (0, 0)
    } else {
        add2(counts_exp(s[i]), counts_exps(s, i + 1, stop))
    }
}

pub open spec fn counts_fields(s: Seq<Field>, i: int) -> (nat, nat)
    decreases s, s.len() - i,
{
    if i < 0 || i >= s.len() {
        (0, 0)
    } else {
        add2(counts_exp(*s[i].exp), counts_fields(s, i + 1))
    }
}

pub open spec fn counts_dec(d: Dec) -> (nat, nat)
    decreases d, 1nat,
{
    match d {
        Dec::Var { name: _, name_span: _, escape: _, ty: _, ty_span: _, init, span: _ } => counts_exp(
            init,
        ),
        Dec::Fun(funs, _) => counts_funs(funs@, 0),
        Dec::Type(_, _) => (0, 0),
    }
}

pub open spec fn counts_decs(s: Seq<Dec>, i: int) -> (nat, nat)
    decreases s, s.len() - i,
{
    if i < 0 || i >= s.len() {
        (0, 0)
    } else {
        add2(counts_dec(s[i]), counts_decs(s, i + 1))
    }
}

/// One frame per group member, plus the contributions of its body.
pub open spec fn counts_funs(s: Seq<FunDec>, i: int) -> (nat, nat)
    decreases s, s.len() - i,
{
    if i < 0 || i >= s.len() {
        (0, 0)
    } else {
        add2(add2((1nat, 0nat), counts_exp(s[i].body)), counts_funs(s, i + 1))
    }
}

/// Splitting the last position off a prefix sum.
pub proof fn lemma_counts_snoc(s: Seq<Exp>, i: int, stop: int)
    requires
        0 <= i < stop <= s.len(),
    ensures
        counts_exps(s, i, stop).0 == counts_exps(s, i, stop - 1).0 + counts_exp(s[stop - 1]).0,
        counts_exps(s, i, stop).1 == counts_exps(s, i, stop - 1).1 + counts_exp(s[stop - 1]).1,
    decreases stop - i,
{
    if i + 1 < stop {
        lemma_counts_snoc(s, i + 1, stop);
        assert(counts_exps(s, i, stop).0 == counts_exp(s[i]).0 + counts_exps(s, i + 1, stop).0);
        assert(counts_exps(s, i, stop - 1).0 == counts_exp(s[i]).0 + counts_exps(
            s,
            i + 1,
            stop - 1,
        ).0);
        assert(counts_exps(s, i, stop).1 == counts_exp(s[i]).1 + counts_exps(s, i + 1, stop).1);
        assert(counts_exps(s, i, stop - 1).1 == counts_exp(s[i]).1 + counts_exps(
            s,
            i + 1,
            stop - 1,
        ).1);
    } else {
        assert(counts_exps(s, i + 1, stop).0 == 0 && counts_exps(s, i + 1, stop).1 == 0);
        assert(counts_exps(s, i, stop - 1).0 == 0 && counts_exps(s, i, stop - 1).1 == 0);
        assert(counts_exps(s, i, stop).0 == counts_exp(s[i]).0 + counts_exps(s, i + 1, stop).0);
        assert(counts_exps(s, i, stop).1 == counts_exp(s[i]).1 + counts_exps(s, i + 1, stop).1);
    }
}

/// The declaration-free, call-free, l-value-free core of the language:
/// on these phrases the translator always succeeds. `in_loop` tracks
/// whether a `break` has an enclosing loop.
pub open spec fn plain_exp(e: Exp, in_loop: bool) -> bool
    decreases e, 0nat,
{
    match e {
        Exp::Nil(_) => true,
        Exp::Int(_, _) => true,
        Exp::Str(_, _) => true,
        Exp::Break(_) => in_loop,
        Exp::Neg(x, _) => plain_exp(*x, in_loop),
        Exp::Bin { lhs, op: _, rhs, span: _ } => plain_exp(*lhs, in_loop) && plain_exp(
            *rhs,
            in_loop,
        ),
        Exp::Seqs(v, _) => plain_exps(v@, 0, in_loop),
        Exp::If { guard, then, or, span: _ } => plain_exp(*guard, in_loop) && plain_exp(
            *then,
            in_loop,
        ) && (match or {
            Some(o) => plain_exp(*o, in_loop),
            None => true,
        }),
        Exp::While { guard, body, span: _ } => plain_exp(*guard, in_loop) && plain_exp(
            *body,
            true,
        ),
        Exp::For { name: _, escape: _, lo, hi, body, span: _ } => plain_exp(*lo, in_loop)
            && plain_exp(*hi, in_loop) && plain_exp(*body, true),
        _ => false,
    }
}

pub open spec fn plain_exps(s: Seq<Exp>, i: int, in_loop: bool) -> bool
    decreases s, s.len() - i,
{
    if i < 0 || i >= s.len() {
        true
    } else {
        plain_exp(s[i], in_loop) && plain_exps(s, i + 1, in_loop)
    }
}

/// The IR operator of an arithmetic or logical source operator.
pub open spec fn binop_ir(op: Binop) -> Option<ir::Binop> {
    match op {
        Binop::Add => Some(ir::Binop::Add),
        Binop::Sub => Some(ir::Binop::Sub),
        Binop::Mul => Some(ir::Binop::Mul),
        Binop::Div => Some(ir::Binop::Div),
        Binop::LAnd => Some(ir::Binop::And),
        Binop::LOr => Some(ir::Binop::Or),
        _ => None,
    }
}

/// The IR relation of a relational source operator.
pub open spec fn relop_ir(op: Binop) -> Option<ir::Relop> {
    match op {
        Binop::Eq => Some(ir::Relop::Eq),
        Binop::Neq => Some(ir::Relop::Ne),
        Binop::Lt => Some(ir::Relop::Lt),
        Binop::Le => Some(ir::Relop::Le),
        Binop::Gt => Some(ir::Relop::Gt),
        Binop::Ge => Some(ir::Relop::Ge),
        _ => None,
    }
}

/// One statement of a record initialization: a store through the
/// record pointer at the field's byte offset.
pub open spec fn field_store_shape(s: Stm, pointer: Temp, idx: int) -> bool {
    s matches Stm::Move(_, m) && m == ir::Exp::Mem(
        Box::new(
            ir::Exp::Binop(
                Box::new(ir::Exp::Temp(pointer)),
                ir::Binop::Add,
                Box::new(ir::Exp::Const(((idx * (WORD_SIZE as int)) as i32))),
            ),
        ),
    )
}

/// What a successful translation of each construct looks like: the
/// layouts of the description, construct by construct. `g0` is the
/// label counter before the construct, `fr_off` the current frame's
/// slot offset before it.
pub open spec fn exp_shape(
    e: Exp,
    t: Tree,
    fc: Seq<(Symbol, Call)>,
    loops: Seq<Label>,
    g0: u64,
    fr_off: i32,
) -> bool {
    match e {
        Exp::Nil(_) => t == Tree::Ex(ir::Exp::Const(0)),
        Exp::Int(n, _) => t == Tree::Ex(ir::Exp::Const(n)),
        Exp::Str(_, _) => t == Tree::Ex(ir::Exp::Name(Label::Fresh(g0))),
        Exp::Break(_) => loops.len() > 0 && (t matches Tree::Nx(s) && (s matches Stm::Jump(je, ts)
            && je == ir::Exp::Name(loops.last()) && ts@ == seq![loops.last()])),
        Exp::Var(_, _) => true,
        Exp::Call { name, name_span: _, ref args, span: _ } => match ctx_lookup(fc, name) {
            Some(Call::Extern(l)) => t matches Tree::Ex(ce) && (ce matches ir::Exp::Call(cf, ia)
                && *cf == ir::Exp::Name(l) && ia@.len() == args@.len()),
            Some(Call::Function(l)) => t matches Tree::Ex(ce) && (ce matches ir::Exp::Call(cf, ia)
                && *cf == ir::Exp::Name(l) && ia@.len() == args@.len() + 1 && ia@[0]
                == ir::Exp::Temp(Temp::Reg(Reg::RBP))),
            None => false,
        },
        Exp::Neg(_, _) => t matches Tree::Ex(x) && (x matches ir::Exp::Binop(zl, op, _) && *zl
            == ir::Exp::Const(0) && op == ir::Binop::Sub),
        Exp::Bin { lhs: _, op, rhs: _, span: _ } => match binop_ir(op) {
            Some(b) => t matches Tree::Ex(x) && (x matches ir::Exp::Binop(_, bb, _) && bb == b),
            None => match relop_ir(op) {
                Some(ro) => t matches Tree::Cx(c) && c.op == ro,
                None => false,
            },
        },
        Exp::Rec { name: _, name_span: _, ref fields, span: _ } => t matches Tree::Ex(x) && (x
            matches ir::Exp::ESeq(s, ptr) && (*ptr matches ir::Exp::Temp(p) && (*s
            matches Stm::Seqs(v) && v@.len() == fields@.len() + 1 && (v@[0] matches Stm::Move(
            csrc,
            cdst,
        ) && cdst == ir::Exp::Temp(p) && (csrc matches ir::Exp::Call(cf, cargs) && (*cf
            matches ir::Exp::Name(_) && cargs@.len() == 1))) && forall|k: int|
            1 <= k < v@.len() ==> field_store_shape(#[trigger] v@[k], p, k - 1)))),
        Exp::Seqs(ref v, _) => if v@.len() == 0 {
            t == Tree::Ex(ir::Exp::Const(0))
        } else {
            t matches Tree::Ex(x) && (x matches ir::Exp::ESeq(s, _) && (*s matches Stm::Seqs(w)
                && w@.len() == v@.len() - 1))
        },
        Exp::Ass { name: _, exp: _, span: _ } => t matches Tree::Nx(s) && s matches Stm::Move(
            _,
            _,
        ),
        Exp::If { guard: _, then: _, ref or, span: _ } => match or {
            Some(_) => t matches Tree::Ex(x) && (x matches ir::Exp::ESeq(s, res) && (*s
                matches Stm::Seqs(v) && v@.len() == 8 && (v@[0] matches Stm::CJump(
                _,
                ro,
                cz,
                fl,
                tl,
            ) && ro == ir::Relop::Eq && cz == ir::Exp::Const(0) && v@[1] == Stm::Label(tl) && (
            v@[2] matches Stm::Move(_, d2) && (d2 matches ir::Exp::Temp(rt) && *res
                == ir::Exp::Temp(rt) && (v@[3] matches Stm::Jump(j3, ts3) && (j3
                matches ir::Exp::Name(el) && ts3@ == seq![el] && v@[4] == Stm::Label(fl) && (
            v@[5] matches Stm::Move(_, d5) && d5 == ir::Exp::Temp(rt)) && (v@[6]
                matches Stm::Jump(j6, ts6) && j6 == ir::Exp::Name(el) && ts6@ == seq![el]) && v@[7]
                == Stm::Label(el)))))))),
            None => t matches Tree::Nx(s) && (s matches Stm::Seqs(v) && v@.len() == 5 && (v@[0]
                matches Stm::CJump(_, ro, cz, el, tl) && ro == ir::Relop::Eq && cz
                == ir::Exp::Const(0) && v@[1] == Stm::Label(tl) && (v@[3] matches Stm::Jump(
                j3,
                ts3,
            ) && j3 == ir::Exp::Name(el) && ts3@ == seq![el]) && v@[4] == Stm::Label(el))),
        },
        Exp::While { guard: _, body: _, span: _ } => {
            let sl = Label::Fresh(g0);
            let tl = Label::Fresh(gen_bump(g0));
            let el = Label::Fresh(gen_bump(gen_bump(g0)));
            t matches Tree::Nx(s) && (s matches Stm::Seqs(v) && v@.len() == 7 && (v@[0]
                matches Stm::Jump(j0, ts0) && j0 == ir::Exp::Name(sl) && ts0@ == seq![sl]) && v@[1]
                == Stm::Label(sl) && (v@[2] matches Stm::CJump(_, ro, cz, xl, yl) && ro
                == ir::Relop::Eq && cz == ir::Exp::Const(0) && xl == el && yl == tl) && v@[3]
                == Stm::Label(tl) && (v@[5] matches Stm::Jump(j5, ts5) && j5 == ir::Exp::Name(sl)
                && ts5@ == seq![sl]) && v@[6] == Stm::Label(el))
        },
        Exp::For { name: _, escape, lo: _, hi: _, body: _, span: _ } => {
            let acc = if escape {
                Access::Slot(bump_off(fr_off))
            } else {
                Access::Reg(Temp::Fresh(g0))
            };
            let a0 = if escape {
                g0
            } else {
                gen_bump(g0)
            };
            let sl = Label::Fresh(a0);
            let tl = Label::Fresh(gen_bump(a0));
            let el = Label::Fresh(gen_bump(gen_bump(a0)));
            let iv = access_exp(acc, ir::Exp::Temp(Temp::Reg(Reg::RBP)));
            t matches Tree::Nx(s) && (s matches Stm::Seqs(v) && v@.len() == 10 && (v@[0]
                matches Stm::Move(_, d0) && d0 == iv) && (v@[1] matches Stm::Move(_, d1) && (d1
                matches ir::Exp::Temp(ht) && (v@[4] matches Stm::CJump(c4, ro, cr, xl, yl) && c4
                == iv && ro == ir::Relop::Gt && cr == ir::Exp::Temp(ht) && xl == el && yl == tl)))
                && (v@[2] matches Stm::Jump(j2, ts2) && j2 == ir::Exp::Name(sl) && ts2@ == seq![sl])
                && v@[3] == Stm::Label(sl) && v@[5] == Stm::Label(tl) && (v@[7] matches Stm::Move(
                m7,
                d7,
            ) && d7 == iv && m7 == ir::Exp::Binop(
                Box::new(iv),
                ir::Binop::Add,
                Box::new(ir::Exp::Const(1)),
            )) && (v@[8] matches Stm::Jump(j8, ts8) && j8 == ir::Exp::Name(sl) && ts8@ == seq![sl])
                && v@[9] == Stm::Label(el))
        },
        Exp::Let { decs: _, body: _, span: _ } => t matches Tree::Ex(x) && (x
            matches ir::Exp::ESeq(s, _) && *s matches Stm::Seqs(_)),
        Exp::Arr { name: _, name_span: _, size: _, init: _, span: _ } => match ctx_lookup(
            fc,
            SYM_INIT_ARRAY,
        ) {
            Some(Call::Extern(l)) => t matches Tree::Ex(x) && (x matches ir::Exp::Call(cf, aa)
                && *cf == ir::Exp::Name(l) && aa@.len() == 2),
            _ => false,
        },
    }
}

/// A position of a plain tail is itself plain.
proof fn lemma_plain_exps_index(s: Seq<Exp>, i: int, k: int, in_loop: bool)
    requires
        plain_exps(s, i, in_loop),
        0 <= i <= k < s.len(),
    ensures
        plain_exp(s[k], in_loop),
    decreases k - i,
{
    if i < k {
        lemma_plain_exps_index(s, i + 1, k, in_loop);
    }
}

/// Installing a function group's headers adds one binding per member.
proof fn lemma_fun_headers_len(
    vc: Seq<(Symbol, Binding)>,
    tc: Seq<(Symbol, Ty)>,
    funs: Seq<FunDec>,
    i: int,
)
    requires
        0 <= i <= funs.len(),
    ensures
        crate::check::fun_headers_s(vc, tc, funs, i) matches Ok(v2) ==> v2.len() == vc.len() + (
        funs.len() - i),
    decreases funs.len() - i,
{
    if i < funs.len() {
        match crate::check::arg_tys_s(tc, funs[i].args@, 0) {
            Err(_) => {},
            Ok(args) => match crate::check::ret_ty_s(tc, funs[i].rets, funs[i].rets_span, funs[i].span) {
                Err(_) => {},
                Ok(ret) => {
                    lemma_fun_headers_len(
                        vc.push((funs[i].name, Binding::Fun(args, ret))),
                        tc,
                        funs,
                        i + 1,
                    );
                },
            },
        }
    }
}

/// The translator's growing output: translation only appends finished
/// frames and static data, never rewrites them.
pub open spec fn grows(a: Translator, b: Translator) -> bool {
    &&& b.done@.len() >= a.done@.len()
    &&& forall|k: int| 0 <= k < a.done@.len() ==> #[trigger] b.done@[k] == a.done@[k]
    &&& b.data@.len() >= a.data@.len()
    &&& forall|k: int| 0 <= k < a.data@.len() ==> #[trigger] b.data@[k] == a.data@[k]
}

/// The IR translator: static data and finished frames so far, the
/// stack of frames being translated (the entry frame at the bottom),
/// and the counter for fresh labels, temporaries and type identities.
pub struct Translator {
    pub data: Vec<Static>,
    pub done: Vec<Frame>,
    pub frames: Vec<Frame>,
    pub gen: Gen,
}

impl Translator {
    /// Lower an analyzed program: its static data, and one frame per
    /// function with the synthetic entry frame last. `None` reports a
    /// violated analyzer invariant and does not happen on programs the
    /// analyzer accepts.
    pub fn translate(ast: &Exp) -> (r: Option<(Vec<Static>, Vec<Frame>)>)
        ensures
            r matches Some(p) ==> {
                &&& p.1@.len() == counts_exp(*ast).0 + 1
                &&& p.0@.len() == counts_exp(*ast).1
                &&& p.1@.last().label == Label::Fixed(SYM_MAIN)
                &&& p.1@.last().body matches Some(b) && (b matches Stm::Move(_, dst) && dst
                    == ir::Exp::Temp(Temp::Reg(Reg::RAX)))
            },
            plain_exp(*ast, false) ==> r is Some,
    {
        let mut gen = Gen::new(0);
        let main = Frame::new(Label::Fixed(SYM_MAIN), Vec::new(), &mut gen);
        let mut t = Translator { data: Vec::new(), done: Vec::new(), frames: vec![main], gen };
        let mut fc = FnContext::new();
        fc.insert(SYM_PRINT, Call::Extern(Label::Fixed(SYM_PRINT)));
        fc.insert(SYM_FLUSH, Call::Extern(Label::Fixed(SYM_FLUSH)));
        fc.insert(SYM_GETCHAR, Call::Extern(Label::Fixed(SYM_GETCHAR)));
        fc.insert(SYM_ORD, Call::Extern(Label::Fixed(SYM_ORD)));
        fc.insert(SYM_CHR, Call::Extern(Label::Fixed(SYM_CHR)));
        fc.insert(SYM_SIZE, Call::Extern(Label::Fixed(SYM_SIZE)));
        fc.insert(SYM_SUBSTRING, Call::Extern(Label::Fixed(SYM_SUBSTRING)));
        fc.insert(SYM_CONCAT, Call::Extern(Label::Fixed(SYM_CONCAT)));
        fc.insert(SYM_NOT, Call::Extern(Label::Fixed(SYM_NOT)));
        fc.insert(SYM_EXIT, Call::Extern(Label::Fixed(SYM_EXIT)));
        fc.insert(SYM_MALLOC, Call::Extern(Label::Fixed(SYM_MALLOC)));
        fc.insert(SYM_INIT_ARRAY, Call::Extern(Label::Fixed(SYM_INIT_ARRAY)));
        let (vc, tc) = crate::check::base_contexts();
        let loops: Vec<Label> = Vec::new();
        let main_exp = match t.translate_exp(&vc, &fc, &tc, &loops, ast) {
            None => {
                return None;
            },
            Some(tr) => tr,
        };
        let main_frame = match t.frames.pop() {
            None => {
                return None;
            },
            Some(f) => f,
        };
        if !matches!(main_frame.label, Label::Fixed(SYM_MAIN)) {
            return None;
        }
        let wrapped = main_frame.wrap(main_exp, &mut t.gen);
        t.done.push(wrapped);
        Some((t.data, t.done))
    }

    /// The access expression and type of an l-value.
    pub fn translate_var(
        &mut self,
        vc: &VarContext,
        fc: &FnContext,
        tc: &TypeContext,
        loops: &Vec<Label>,
        v: &Var,
    ) -> (r: Option<(Tree, Ty)>)
        requires
            old(self).frames@.len() >= 1,
        ensures
            grows(*old(self), *final(self)),
            final(self).frames@.len() == old(self).frames@.len(),
            forall|k: int|
                0 <= k < old(self).frames@.len() ==> (#[trigger] final(self).frames@[k]).label
                    == old(self).frames@[k].label,
            r is Some ==> final(self).done@.len() == old(self).done@.len() + counts_var(*v).0
                && final(self).data@.len() == old(self).data@.len() + counts_var(*v).1,
            v matches Var::Field(_, _, _, _) ==> (r matches Some(p) ==> p.0 matches Tree::Ex(x)
                && (x matches ir::Exp::Mem(b) && (*b matches ir::Exp::Binop(_, add, off) && add
                == ir::Binop::Add && *off matches ir::Exp::Const(_)))),
            v matches Var::Index(_, _, _) ==> (r matches Some(p) ==> p.0 matches Tree::Ex(x) && (x
                matches ir::Exp::Mem(b) && (*b matches ir::Exp::Binop(_, add, sc) && add
                == ir::Binop::Add && (*sc matches ir::Exp::Binop(_, mul, w) && mul
                == ir::Binop::Mul && *w == ir::Exp::Const(WORD_SIZE))))),
            v matches Var::Simple(name, _) ==> r == (match ctx_lookup(vc@, *name) {
                Some(Binding::Var(ty, _)) => match chain_exp(
                    old(self).frames@,
                    *name,
                    ir::Exp::Temp(Temp::Reg(Reg::RBP)),
                ) {
                    None => None::<(Tree, Ty)>,
                    Some(ce) => Some((Tree::Ex(ce), ty)),
                },
                _ => None::<(Tree, Ty)>,
            }),
        decreases *v, 0nat,
    {
        match v {
            Var::Simple(name, _span) => {
                let ty = match vc.get(*name) {
                    Some(Binding::Var(t, _)) => t.clone(),
                    _ => {
                        return None;
                    },
                };
                let n = self.frames.len();
                match self.chain(*name, n, ir::Exp::Temp(Temp::Reg(Reg::RBP))) {
                    None => {
                        proof {
                            assert(self.frames@.subrange(0, n as int) =~= self.frames@);
                        }
                        None
                    },
                    Some(ce) => {
                        proof {
                            assert(self.frames@.subrange(0, n as int) =~= self.frames@);
                        }
                        Some((Tree::Ex(ce), ty))
                    },
                }
            },
            Var::Field(rec, field, _field_span, _span) => {
                let (rec_tree, rec_ty) = match self.translate_var(vc, fc, tc, loops, rec) {
                    None => {
                        return None;
                    },
                    Some(p) => p,
                };
                let fields = match rec_ty {
                    Ty::Rec(fields, _) => fields,
                    _ => {
                        return None;
                    },
                };
                let (off, fty_raw) = match field_offset(&fields, *field) {
                    None => {
                        return None;
                    },
                    Some(p) => p,
                };
                let fty = match tc.trace_full(fty_raw) {
                    None => {
                        return None;
                    },
                    Some(t) => t,
                };
                let rec_exp = tree_exp(rec_tree, &mut self.gen);
                let addr = ir::Exp::Mem(
                    Box::new(
                        ir::Exp::Binop(
                            Box::new(rec_exp),
                            ir::Binop::Add,
                            Box::new(ir::Exp::Const(off)),
                        ),
                    ),
                );
                Some((Tree::Ex(addr), fty))
            },
            Var::Index(arr, index, _span) => {
                let (arr_tree, arr_ty) = match self.translate_var(vc, fc, tc, loops, arr) {
                    None => {
                        return None;
                    },
                    Some(p) => p,
                };
                let elem_raw = match arr_ty {
                    Ty::Arr(elem, _) => elem,
                    _ => {
                        return None;
                    },
                };
                let elem_ty = match tc.trace_full(&elem_raw) {
                    None => {
                        return None;
                    },
                    Some(t) => t,
                };
                let index_tree = match self.translate_exp(vc, fc, tc, loops, index) {
                    None => {
                        return None;
                    },
                    Some(t) => t,
                };
                let arr_exp = tree_exp(arr_tree, &mut self.gen);
                let index_exp = tree_exp(index_tree, &mut self.gen);
                let offset = ir::Exp::Binop(
                    Box::new(index_exp),
                    ir::Binop::Mul,
                    Box::new(ir::Exp::Const(WORD_SIZE)),
                );
                let addr = ir::Exp::Mem(
                    Box::new(ir::Exp::Binop(Box::new(arr_exp), ir::Binop::Add, Box::new(offset))),
                );
                Some((Tree::Ex(addr), elem_ty))
            },
        }
    }

    /// The static-link walk over the innermost `j` frames.
    fn chain(&self, x: Symbol, j: usize, base: ir::Exp) -> (r: Option<ir::Exp>)
        requires
            j <= self.frames@.len(),
        ensures
            r == chain_exp(self.frames@.subrange(0, j as int), x, base),
        decreases j,
    {
        if j == 0 {
            assert(self.frames@.subrange(0, 0) =~= Seq::<Frame>::empty());
            None
        } else {
            proof {
                let pre = self.frames@.subrange(0, j as int);
                assert(pre.drop_last() =~= self.frames@.subrange(0, j - 1 as int));
                assert(pre.last() == self.frames@[j - 1 as int]);
            }
            let f = &self.frames[j - 1];
            match f.get(x) {
                Some(a) => Some(access_to_exp(a, base)),
                None => match f.get(SYM_STATIC_LINK) {
                    None => None,
                    Some(sl) => self.chain(x, j - 1, access_to_exp(sl, base)),
                },
            }
        }
    }

    /// The translated form of one expression.
    #[verifier::rlimit(100)]
    #[verifier::spinoff_prover]
    pub fn translate_exp(
        &mut self,
        vc: &VarContext,
        fc: &FnContext,
        tc: &TypeContext,
        loops: &Vec<Label>,
        e: &Exp,
    ) -> (r: Option<Tree>)
        requires
            old(self).frames@.len() >= 1,
        ensures
            grows(*old(self), *final(self)),
            final(self).frames@.len() == old(self).frames@.len(),
            forall|k: int|
                0 <= k < old(self).frames@.len() ==> (#[trigger] final(self).frames@[k]).label
                    == old(self).frames@[k].label,
            r is Some ==> final(self).done@.len() == old(self).done@.len() + counts_exp(*e).0
                && final(self).data@.len() == old(self).data@.len() + counts_exp(*e).1,
            r matches Some(t) ==> exp_shape(
                *e,
                t,
                fc@,
                loops@,
                old(self).gen.next,
                old(self).frames@.last().offset,
            ),
            (match *e {
                Exp::Str(ref s, _) => r is Some ==> final(self).data@ == old(self).data@.push(
                    Static { label: Label::Fresh(old(self).gen.next), data: *s },
                ),
                _ => true,
            }),
            plain_exp(*e, loops@.len() > 0) ==> r is Some,
        decreases *e, 1nat,
    {
        match e {
            Exp::Break(_span) => {
                if loops.len() == 0 {
                    return None;
                }
                let l = loops[loops.len() - 1];
                Some(Tree::Nx(jump_to(l)))
            },
            Exp::Nil(_) => Some(Tree::Ex(ir::Exp::Const(0))),
            Exp::Int(n, _) => Some(Tree::Ex(ir::Exp::Const(*n))),
            Exp::Str(s, _) => {
                let label = self.gen.label();
                self.data.push(Static { label, data: s.clone() });
                Some(Tree::Ex(ir::Exp::Name(label)))
            },
            Exp::Var(v, _) => match self.translate_var(vc, fc, tc, loops, v) {
                None => None,
                Some((t, _)) => Some(t),
            },
            Exp::Call { name, name_span: _, args, span: _ } => self.translate_call_exp(vc, fc, tc, loops, e),
            Exp::Neg(exp, _span) => {
                let sub = match self.translate_exp(vc, fc, tc, loops, exp) {
                    None => {
                        return None;
                    },
                    Some(t) => t,
                };
                let sub_exp = tree_exp(sub, &mut self.gen);
                Some(
                    Tree::Ex(
                        ir::Exp::Binop(
                            Box::new(ir::Exp::Const(0)),
                            ir::Binop::Sub,
                            Box::new(sub_exp),
                        ),
                    ),
                )
            },
            Exp::Bin { lhs, op, rhs, span: _ } => {
                let lt = match self.translate_exp(vc, fc, tc, loops, lhs) {
                    None => {
                        return None;
                    },
                    Some(t) => t,
                };
                let lhs_exp = tree_exp(lt, &mut self.gen);
                let rt = match self.translate_exp(vc, fc, tc, loops, rhs) {
                    None => {
                        return None;
                    },
                    Some(t) => t,
                };
                let rhs_exp = tree_exp(rt, &mut self.gen);
                match Self::translate_binop(op) {
                    Some(bop) => Some(
                        Tree::Ex(ir::Exp::Binop(Box::new(lhs_exp), bop, Box::new(rhs_exp))),
                    ),
                    None => match Self::translate_relop(op) {
                        Some(rop) => Some(
                            Tree::Cx(
                                Cond { lhs: Box::new(lhs_exp), op: rop, rhs: Box::new(rhs_exp) },
                            ),
                        ),
                        None => {
                            proof {
                                match *op {
                                    Binop::Add => {},
                                    Binop::Sub => {},
                                    Binop::Mul => {},
                                    Binop::Div => {},
                                    Binop::Eq => {},
                                    Binop::Neq => {},
                                    Binop::Lt => {},
                                    Binop::Le => {},
                                    Binop::Gt => {},
                                    Binop::Ge => {},
                                    Binop::LAnd => {},
                                    Binop::LOr => {},
                                }
                            }
                            vstd::pervasive::unreached()
                        },
                    },
                }
            },
            Exp::Rec { name: _, name_span: _, fields, span: _ } => self.translate_rec_exp(vc, fc, tc, loops, e),
            Exp::Seqs(exps, _span) => self.translate_seqs_exp(vc, fc, tc, loops, e),
            Exp::Ass { name, exp, span: _ } => {
                let (lhs_tree, _) = match self.translate_var(vc, fc, tc, loops, name) {
                    None => {
                        return None;
                    },
                    Some(p) => p,
                };
                let rhs = match self.translate_exp(vc, fc, tc, loops, exp) {
                    None => {
                        return None;
                    },
                    Some(t) => t,
                };
                let rhs_exp = tree_exp(rhs, &mut self.gen);
                let lhs_exp = tree_exp(lhs_tree, &mut self.gen);
                Some(Tree::Nx(Stm::Move(rhs_exp, lhs_exp)))
            },
            Exp::If { guard, then, or, span: _ } => self.translate_if_exp(vc, fc, tc, loops, e),
            Exp::While { guard, body, span: _ } => self.translate_while_exp(vc, fc, tc, loops, e),
            Exp::For { name, escape, lo, hi, body, span: _ } => self.translate_for_exp(vc, fc, tc, loops, e),
            Exp::Let { decs, body, span: _ } => self.translate_let_exp(vc, fc, tc, loops, e),
            Exp::Arr { name: _, name_span: _, size, init, span: _ } => self.translate_arr_exp(vc, fc, tc, loops, e),
        }
    }

    /// One construct of [`Self::translate_exp`], split out so each
    /// proof stands alone.
    #[verifier::rlimit(100)]
    #[verifier::spinoff_prover]
    fn translate_call_exp(
        &mut self,
        vc: &VarContext,
        fc: &FnContext,
        tc: &TypeContext,
        loops: &Vec<Label>,
        e: &Exp,
    ) -> (r: Option<Tree>)
        requires
            old(self).frames@.len() >= 1,
            *e matches Exp::Call { .. },
        ensures
            grows(*old(self), *final(self)),
            final(self).frames@.len() == old(self).frames@.len(),
            forall|k: int|
                0 <= k < old(self).frames@.len() ==> (#[trigger] final(self).frames@[k]).label
                    == old(self).frames@[k].label,
            r is Some ==> final(self).done@.len() == old(self).done@.len() + counts_exp(*e).0
                && final(self).data@.len() == old(self).data@.len() + counts_exp(*e).1,
            r matches Some(t) ==> exp_shape(
                *e,
                t,
                fc@,
                loops@,
                old(self).gen.next,
                old(self).frames@.last().offset,
            ),
            plain_exp(*e, loops@.len() > 0) ==> r is Some,
        decreases *e, 0nat,
    {
        match e {
            Exp::Call { name, name_span: _, args, span: _ } => {
                let (mut arg_exps, label): (Vec<ir::Exp>, Label) = match fc.get(*name) {
                    None => {
                        return None;
                    },
                    Some(Call::Extern(l)) => (Vec::new(), l),
                    Some(Call::Function(l)) => (vec![ir::Exp::Temp(Temp::Reg(Reg::RBP))], l),
                };
                let arg_exps = match self.translate_args(vc, fc, tc, loops, args, 0, arg_exps) {
                    None => {
                        return None;
                    },
                    Some(v) => v,
                };
                Some(Tree::Ex(ir::Exp::Call(Box::new(ir::Exp::Name(label)), arg_exps)))
            },
            _ => vstd::pervasive::unreached(),
        }
    }

    /// One construct of [`Self::translate_exp`], split out so each
    /// proof stands alone.
    #[verifier::rlimit(100)]
    #[verifier::spinoff_prover]
    fn translate_rec_exp(
        &mut self,
        vc: &VarContext,
        fc: &FnContext,
        tc: &TypeContext,
        loops: &Vec<Label>,
        e: &Exp,
    ) -> (r: Option<Tree>)
        requires
            old(self).frames@.len() >= 1,
            *e matches Exp::Rec { .. },
        ensures
            grows(*old(self), *final(self)),
            final(self).frames@.len() == old(self).frames@.len(),
            forall|k: int|
                0 <= k < old(self).frames@.len() ==> (#[trigger] final(self).frames@[k]).label
                    == old(self).frames@[k].label,
            r is Some ==> final(self).done@.len() == old(self).done@.len() + counts_exp(*e).0
                && final(self).data@.len() == old(self).data@.len() + counts_exp(*e).1,
            r matches Some(t) ==> exp_shape(
                *e,
                t,
                fc@,
                loops@,
                old(self).gen.next,
                old(self).frames@.last().offset,
            ),
            plain_exp(*e, loops@.len() > 0) ==> r is Some,
        decreases *e, 0nat,
    {
        match e {
            Exp::Rec { name: _, name_span: _, fields, span: _ } => {
                if fields.len() > 0x0FFF_FFFFusize {
                    return None;
                }
                let malloc = match fc.get(SYM_MALLOC) {
                    Some(Call::Extern(l)) => l,
                    _ => {
                        return None;
                    },
                };
                let size = (fields.len() as i32) * WORD_SIZE;
                let pointer = self.gen.temp();
                let alloc_stm = Stm::Move(
                    ir::Exp::Call(
                        Box::new(ir::Exp::Name(malloc)),
                        vec![ir::Exp::Const(size)],
                    ),
                    ir::Exp::Temp(pointer),
                );
                let stms = match self.translate_fields(vc, fc, tc, loops, fields, 0, pointer, vec![
                    alloc_stm,
                ]) {
                    None => {
                        return None;
                    },
                    Some(v) => v,
                };
                Some(
                    Tree::Ex(
                        ir::Exp::ESeq(
                            Box::new(Stm::Seqs(stms)),
                            Box::new(ir::Exp::Temp(pointer)),
                        ),
                    ),
                )
            },
            _ => vstd::pervasive::unreached(),
        }
    }

    /// One construct of [`Self::translate_exp`], split out so each
    /// proof stands alone.
    #[verifier::rlimit(100)]
    #[verifier::spinoff_prover]
    fn translate_seqs_exp(
        &mut self,
        vc: &VarContext,
        fc: &FnContext,
        tc: &TypeContext,
        loops: &Vec<Label>,
        e: &Exp,
    ) -> (r: Option<Tree>)
        requires
            old(self).frames@.len() >= 1,
            *e matches Exp::Seqs(_, _),
        ensures
            grows(*old(self), *final(self)),
            final(self).frames@.len() == old(self).frames@.len(),
            forall|k: int|
                0 <= k < old(self).frames@.len() ==> (#[trigger] final(self).frames@[k]).label
                    == old(self).frames@[k].label,
            r is Some ==> final(self).done@.len() == old(self).done@.len() + counts_exp(*e).0
                && final(self).data@.len() == old(self).data@.len() + counts_exp(*e).1,
            r matches Some(t) ==> exp_shape(
                *e,
                t,
                fc@,
                loops@,
                old(self).gen.next,
                old(self).frames@.last().offset,
            ),
            plain_exp(*e, loops@.len() > 0) ==> r is Some,
        decreases *e, 0nat,
    {
        match e {
            Exp::Seqs(exps, _span) => {
                if exps.len() == 0 {
                    proof {
                        assert(counts_exps(exps@, 0, 0).0 == 0 && counts_exps(exps@, 0, 0).1 == 0);
                        assert(plain_exps(exps@, 0, loops@.len() > 0) ==> true);
                    }
                    return Some(Tree::Ex(ir::Exp::Const(0)));
                }
                let stms = match self.translate_seq_stms(vc, fc, tc, loops, exps, 0, Vec::new()) {
                    None => {
                        return None;
                    },
                    Some(v) => v,
                };
                proof {
                    if plain_exps(exps@, 0, loops@.len() > 0) {
                        lemma_plain_exps_index(exps@, 0, exps@.len() - 1, loops@.len() > 0);
                    }
                }
                let last = match self.translate_exp(vc, fc, tc, loops, &exps[exps.len() - 1]) {
                    None => {
                        return None;
                    },
                    Some(t) => t,
                };
                proof {
                    lemma_counts_snoc(exps@, 0, exps@.len() as int);
                }
                let last_exp = tree_exp(last, &mut self.gen);
                Some(Tree::Ex(ir::Exp::ESeq(Box::new(Stm::Seqs(stms)), Box::new(last_exp))))
            },
            _ => vstd::pervasive::unreached(),
        }
    }

    /// One construct of [`Self::translate_exp`], split out so each
    /// proof stands alone.
    #[verifier::rlimit(100)]
    #[verifier::spinoff_prover]
    fn translate_if_exp(
        &mut self,
        vc: &VarContext,
        fc: &FnContext,
        tc: &TypeContext,
        loops: &Vec<Label>,
        e: &Exp,
    ) -> (r: Option<Tree>)
        requires
            old(self).frames@.len() >= 1,
            *e matches Exp::If { .. },
        ensures
            grows(*old(self), *final(self)),
            final(self).frames@.len() == old(self).frames@.len(),
            forall|k: int|
                0 <= k < old(self).frames@.len() ==> (#[trigger] final(self).frames@[k]).label
                    == old(self).frames@[k].label,
            r is Some ==> final(self).done@.len() == old(self).done@.len() + counts_exp(*e).0
                && final(self).data@.len() == old(self).data@.len() + counts_exp(*e).1,
            r matches Some(t) ==> exp_shape(
                *e,
                t,
                fc@,
                loops@,
                old(self).gen.next,
                old(self).frames@.last().offset,
            ),
            plain_exp(*e, loops@.len() > 0) ==> r is Some,
        decreases *e, 0nat,
    {
        match e {
            Exp::If { guard, then, or, span: _ } => {
                let guard_tree = match self.translate_exp(vc, fc, tc, loops, guard) {
                    None => {
                        return None;
                    },
                    Some(t) => t,
                };
                let guard_exp = tree_exp(guard_tree, &mut self.gen);
                match or {
                    Some(or_exp) => {
                        let t_label = self.gen.label();
                        let f_label = self.gen.label();
                        let e_label = self.gen.label();
                        let result = self.gen.temp();
                        let then_tree = match self.translate_exp(vc, fc, tc, loops, then) {
                            None => {
                                return None;
                            },
                            Some(t) => t,
                        };
                        let then_e = tree_exp(then_tree, &mut self.gen);
                        let or_tree = match self.translate_exp(vc, fc, tc, loops, or_exp) {
                            None => {
                                return None;
                            },
                            Some(t) => t,
                        };
                        let or_e = tree_exp(or_tree, &mut self.gen);
                        let stms: Vec<Stm> = vec![
                            Stm::CJump(
                                guard_exp,
                                ir::Relop::Eq,
                                ir::Exp::Const(0),
                                f_label,
                                t_label,
                            ),
                            Stm::Label(t_label),
                            Stm::Move(then_e, ir::Exp::Temp(result)),
                            jump_to(e_label),
                            Stm::Label(f_label),
                            Stm::Move(or_e, ir::Exp::Temp(result)),
                            jump_to(e_label),
                            Stm::Label(e_label),
                        ];
                        Some(
                            Tree::Ex(
                                ir::Exp::ESeq(
                                    Box::new(Stm::Seqs(stms)),
                                    Box::new(ir::Exp::Temp(result)),
                                ),
                            ),
                        )
                    },
                    None => {
                        let t_label = self.gen.label();
                        let e_label = self.gen.label();
                        let then_tree = match self.translate_exp(vc, fc, tc, loops, then) {
                            None => {
                                return None;
                            },
                            Some(t) => t,
                        };
                        let then_s = tree_stm(then_tree, &mut self.gen);
                        let stms: Vec<Stm> = vec![
                            Stm::CJump(
                                guard_exp,
                                ir::Relop::Eq,
                                ir::Exp::Const(0),
                                e_label,
                                t_label,
                            ),
                            Stm::Label(t_label),
                            then_s,
                            jump_to(e_label),
                            Stm::Label(e_label),
                        ];
                        Some(Tree::Nx(Stm::Seqs(stms)))
                    },
                }
            },
            _ => vstd::pervasive::unreached(),
        }
    }

    /// One construct of [`Self::translate_exp`], split out so each
    /// proof stands alone.
    #[verifier::rlimit(100)]
    #[verifier::spinoff_prover]
    fn translate_while_exp(
        &mut self,
        vc: &VarContext,
        fc: &FnContext,
        tc: &TypeContext,
        loops: &Vec<Label>,
        e: &Exp,
    ) -> (r: Option<Tree>)
        requires
            old(self).frames@.len() >= 1,
            *e matches Exp::While { .. },
        ensures
            grows(*old(self), *final(self)),
            final(self).frames@.len() == old(self).frames@.len(),
            forall|k: int|
                0 <= k < old(self).frames@.len() ==> (#[trigger] final(self).frames@[k]).label
                    == old(self).frames@[k].label,
            r is Some ==> final(self).done@.len() == old(self).done@.len() + counts_exp(*e).0
                && final(self).data@.len() == old(self).data@.len() + counts_exp(*e).1,
            r matches Some(t) ==> exp_shape(
                *e,
                t,
                fc@,
                loops@,
                old(self).gen.next,
                old(self).frames@.last().offset,
            ),
            plain_exp(*e, loops@.len() > 0) ==> r is Some,
        decreases *e, 0nat,
    {
        match e {
            Exp::While { guard, body, span: _ } => {
                let s_label = self.gen.label();
                let t_label = self.gen.label();
                let e_label = self.gen.label();
                let guard_tree = match self.translate_exp(vc, fc, tc, loops, guard) {
                    None => {
                        return None;
                    },
                    Some(t) => t,
                };
                let guard_exp = tree_exp(guard_tree, &mut self.gen);
                let mut body_loops = duplicate_labels(loops);
                body_loops.push(e_label);
                let body_tree = match self.translate_exp(vc, fc, tc, &body_loops, body) {
                    None => {
                        return None;
                    },
                    Some(t) => t,
                };
                let body_stm = tree_stm(body_tree, &mut self.gen);
                let stms: Vec<Stm> = vec![
                    jump_to(s_label),
                    Stm::Label(s_label),
                    Stm::CJump(guard_exp, ir::Relop::Eq, ir::Exp::Const(0), e_label, t_label),
                    Stm::Label(t_label),
                    body_stm,
                    jump_to(s_label),
                    Stm::Label(e_label),
                ];
                Some(Tree::Nx(Stm::Seqs(stms)))
            },
            _ => vstd::pervasive::unreached(),
        }
    }

    /// One construct of [`Self::translate_exp`], split out so each
    /// proof stands alone.
    #[verifier::rlimit(100)]
    #[verifier::spinoff_prover]
    fn translate_for_exp(
        &mut self,
        vc: &VarContext,
        fc: &FnContext,
        tc: &TypeContext,
        loops: &Vec<Label>,
        e: &Exp,
    ) -> (r: Option<Tree>)
        requires
            old(self).frames@.len() >= 1,
            *e matches Exp::For { .. },
        ensures
            grows(*old(self), *final(self)),
            final(self).frames@.len() == old(self).frames@.len(),
            forall|k: int|
                0 <= k < old(self).frames@.len() ==> (#[trigger] final(self).frames@[k]).label
                    == old(self).frames@[k].label,
            r is Some ==> final(self).done@.len() == old(self).done@.len() + counts_exp(*e).0
                && final(self).data@.len() == old(self).data@.len() + counts_exp(*e).1,
            r matches Some(t) ==> exp_shape(
                *e,
                t,
                fc@,
                loops@,
                old(self).gen.next,
                old(self).frames@.last().offset,
            ),
            plain_exp(*e, loops@.len() > 0) ==> r is Some,
        decreases *e, 0nat,
    {
        match e {
            Exp::For { name, escape, lo, hi, body, span: _ } => {
                let n = self.frames.len();
                let access = self.frames[n - 1].allocate(*name, *escape, &mut self.gen);
                let s_label = self.gen.label();
                let t_label = self.gen.label();
                let e_label = self.gen.label();
                let lo_tree = match self.translate_exp(vc, fc, tc, loops, lo) {
                    None => {
                        return None;
                    },
                    Some(t) => t,
                };
                let lo_exp = tree_exp(lo_tree, &mut self.gen);
                let hi_tree = match self.translate_exp(vc, fc, tc, loops, hi) {
                    None => {
                        return None;
                    },
                    Some(t) => t,
                };
                let hi_exp = tree_exp(hi_tree, &mut self.gen);
                let hi_temp = self.gen.temp();
                let mut body_loops = duplicate_labels(loops);
                body_loops.push(e_label);
                let mut vcb = vc.duplicate();
                vcb.insert(*name, Binding::Var(Ty::Int, false));
                let body_tree = match self.translate_exp(&vcb, fc, tc, &body_loops, body) {
                    None => {
                        return None;
                    },
                    Some(t) => t,
                };
                let body_stm = tree_stm(body_tree, &mut self.gen);
                let rbp = ir::Exp::Temp(Temp::Reg(Reg::RBP));
                let stms: Vec<Stm> = vec![
                    Stm::Move(lo_exp, access_to_exp(access, ir::Exp::Temp(Temp::Reg(Reg::RBP)))),
                    Stm::Move(hi_exp, ir::Exp::Temp(hi_temp)),
                    jump_to(s_label),
                    Stm::Label(s_label),
                    Stm::CJump(
                        access_to_exp(access, ir::Exp::Temp(Temp::Reg(Reg::RBP))),
                        ir::Relop::Gt,
                        ir::Exp::Temp(hi_temp),
                        e_label,
                        t_label,
                    ),
                    Stm::Label(t_label),
                    body_stm,
                    Stm::Move(
                        ir::Exp::Binop(
                            Box::new(access_to_exp(access, rbp)),
                            ir::Binop::Add,
                            Box::new(ir::Exp::Const(1)),
                        ),
                        access_to_exp(access, ir::Exp::Temp(Temp::Reg(Reg::RBP))),
                    ),
                    jump_to(s_label),
                    Stm::Label(e_label),
                ];
                Some(Tree::Nx(Stm::Seqs(stms)))
            },
            _ => vstd::pervasive::unreached(),
        }
    }

    /// One construct of [`Self::translate_exp`], split out so each
    /// proof stands alone.
    #[verifier::rlimit(100)]
    #[verifier::spinoff_prover]
    fn translate_let_exp(
        &mut self,
        vc: &VarContext,
        fc: &FnContext,
        tc: &TypeContext,
        loops: &Vec<Label>,
        e: &Exp,
    ) -> (r: Option<Tree>)
        requires
            old(self).frames@.len() >= 1,
            *e matches Exp::Let { .. },
        ensures
            grows(*old(self), *final(self)),
            final(self).frames@.len() == old(self).frames@.len(),
            forall|k: int|
                0 <= k < old(self).frames@.len() ==> (#[trigger] final(self).frames@[k]).label
                    == old(self).frames@[k].label,
            r is Some ==> final(self).done@.len() == old(self).done@.len() + counts_exp(*e).0
                && final(self).data@.len() == old(self).data@.len() + counts_exp(*e).1,
            r matches Some(t) ==> exp_shape(
                *e,
                t,
                fc@,
                loops@,
                old(self).gen.next,
                old(self).frames@.last().offset,
            ),
            plain_exp(*e, loops@.len() > 0) ==> r is Some,
        decreases *e, 0nat,
    {
        match e {
            Exp::Let { decs, body, span: _ } => {
                let vcd = vc.duplicate();
                let fcd = fc.duplicate();
                let tcd = tc.duplicate();
                let (vc2, fc2, tc2, stms) = match self.translate_decs(vcd, fcd, tcd, loops, decs, 0,
                    Vec::new()) {
                    None => {
                        return None;
                    },
                    Some(p) => p,
                };
                let body_tree = match self.translate_exp(&vc2, &fc2, &tc2, loops, body) {
                    None => {
                        return None;
                    },
                    Some(t) => t,
                };
                let body_exp = tree_exp(body_tree, &mut self.gen);
                Some(Tree::Ex(ir::Exp::ESeq(Box::new(Stm::Seqs(stms)), Box::new(body_exp))))
            },
            _ => vstd::pervasive::unreached(),
        }
    }

    /// One construct of [`Self::translate_exp`], split out so each
    /// proof stands alone.
    #[verifier::rlimit(100)]
    #[verifier::spinoff_prover]
    fn translate_arr_exp(
        &mut self,
        vc: &VarContext,
        fc: &FnContext,
        tc: &TypeContext,
        loops: &Vec<Label>,
        e: &Exp,
    ) -> (r: Option<Tree>)
        requires
            old(self).frames@.len() >= 1,
            *e matches Exp::Arr { .. },
        ensures
            grows(*old(self), *final(self)),
            final(self).frames@.len() == old(self).frames@.len(),
            forall|k: int|
                0 <= k < old(self).frames@.len() ==> (#[trigger] final(self).frames@[k]).label
                    == old(self).frames@[k].label,
            r is Some ==> final(self).done@.len() == old(self).done@.len() + counts_exp(*e).0
                && final(self).data@.len() == old(self).data@.len() + counts_exp(*e).1,
            r matches Some(t) ==> exp_shape(
                *e,
                t,
                fc@,
                loops@,
                old(self).gen.next,
                old(self).frames@.last().offset,
            ),
            plain_exp(*e, loops@.len() > 0) ==> r is Some,
        decreases *e, 0nat,
    {
        match e {
            Exp::Arr { name: _, name_span: _, size, init, span: _ } => {
                let init_array = match fc.get(SYM_INIT_ARRAY) {
                    Some(Call::Extern(l)) => l,
                    _ => {
                        return None;
                    },
                };
                let size_tree = match self.translate_exp(vc, fc, tc, loops, size) {
                    None => {
                        return None;
                    },
                    Some(t) => t,
                };
                let size_exp = tree_exp(size_tree, &mut self.gen);
                let init_tree = match self.translate_exp(vc, fc, tc, loops, init) {
                    None => {
                        return None;
                    },
                    Some(t) => t,
                };
                let init_exp = tree_exp(init_tree, &mut self.gen);
                Some(
                    Tree::Ex(
                        ir::Exp::Call(
                            Box::new(ir::Exp::Name(init_array)),
                            vec![size_exp, init_exp],
                        ),
                    ),
                )
            },
            _ => vstd::pervasive::unreached(),
        }
    }

    /// The translated actual arguments appended to `acc`, in order.
    fn translate_args(
        &mut self,
        vc: &VarContext,
        fc: &FnContext,
        tc: &TypeContext,
        loops: &Vec<Label>,
        args: &Vec<Exp>,
        i: usize,
        acc: Vec<ir::Exp>,
    ) -> (r: Option<Vec<ir::Exp>>)
        requires
            i <= args@.len(),
            old(self).frames@.len() >= 1,
        ensures
            grows(*old(self), *final(self)),
            final(self).frames@.len() == old(self).frames@.len(),
            forall|k: int|
                0 <= k < old(self).frames@.len() ==> (#[trigger] final(self).frames@[k]).label
                    == old(self).frames@[k].label,
            r is Some ==> final(self).done@.len() == old(self).done@.len() + counts_exps(
                args@,
                i as int,
                args@.len() as int,
            ).0 && final(self).data@.len() == old(self).data@.len() + counts_exps(
                args@,
                i as int,
                args@.len() as int,
            ).1,
            r matches Some(v) ==> {
                &&& v@.len() == acc@.len() + (args@.len() - i)
                &&& forall|k: int| 0 <= k < acc@.len() ==> #[trigger] v@[k] == acc@[k]
            },
        decreases args@, args@.len() - i,
    {
        if i >= args.len() {
            Some(acc)
        } else {
            let t = match self.translate_exp(vc, fc, tc, loops, &args[i]) {
                None => {
                    return None;
                },
                Some(t) => t,
            };
            let e = tree_exp(t, &mut self.gen);
            let mut acc2 = acc;
            acc2.push(e);
            self.translate_args(vc, fc, tc, loops, args, i + 1, acc2)
        }
    }

    /// The moves initializing a record's fields from position `i` on,
    /// appended to `acc`: each field's value is stored at its offset
    /// from the record pointer.
    fn translate_fields(
        &mut self,
        vc: &VarContext,
        fc: &FnContext,
        tc: &TypeContext,
        loops: &Vec<Label>,
        fields: &Vec<Field>,
        i: usize,
        pointer: Temp,
        acc: Vec<Stm>,
    ) -> (r: Option<Vec<Stm>>)
        requires
            fields@.len() <= 0x0FFF_FFFF,
            i <= fields@.len(),
            old(self).frames@.len() >= 1,
        ensures
            grows(*old(self), *final(self)),
            final(self).frames@.len() == old(self).frames@.len(),
            forall|k: int|
                0 <= k < old(self).frames@.len() ==> (#[trigger] final(self).frames@[k]).label
                    == old(self).frames@[k].label,
            r is Some ==> final(self).done@.len() == old(self).done@.len() + counts_fields(
                fields@,
                i as int,
            ).0 && final(self).data@.len() == old(self).data@.len() + counts_fields(
                fields@,
                i as int,
            ).1,
            r matches Some(v) ==> {
                &&& v@.len() == acc@.len() + (fields@.len() - i)
                &&& forall|k: int| 0 <= k < acc@.len() ==> #[trigger] v@[k] == acc@[k]
                &&& forall|k: int|
                    acc@.len() <= k < v@.len() ==> field_store_shape(
                        #[trigger] v@[k],
                        pointer,
                        i + k - acc@.len(),
                    )
            },
        decreases fields@, fields@.len() - i,
    {
        if i >= fields.len() {
            Some(acc)
        } else {
            let t = match self.translate_exp(vc, fc, tc, loops, &fields[i].exp) {
                None => {
                    return None;
                },
                Some(t) => t,
            };
            let e = tree_exp(t, &mut self.gen);
            let off = (i as i32) * WORD_SIZE;
            let mut acc2 = acc;
            acc2.push(
                Stm::Move(
                    e,
                    ir::Exp::Mem(
                        Box::new(
                            ir::Exp::Binop(
                                Box::new(ir::Exp::Temp(pointer)),
                                ir::Binop::Add,
                                Box::new(ir::Exp::Const(off)),
                            ),
                        ),
                    ),
                ),
            );
            self.translate_fields(vc, fc, tc, loops, fields, i + 1, pointer, acc2)
        }
    }

    /// The statement forms of all but the last expression of a
    /// sequence, appended to `acc`.
    fn translate_seq_stms(
        &mut self,
        vc: &VarContext,
        fc: &FnContext,
        tc: &TypeContext,
        loops: &Vec<Label>,
        exps: &Vec<Exp>,
        i: usize,
        acc: Vec<Stm>,
    ) -> (r: Option<Vec<Stm>>)
        requires
            old(self).frames@.len() >= 1,
        ensures
            grows(*old(self), *final(self)),
            final(self).frames@.len() == old(self).frames@.len(),
            forall|k: int|
                0 <= k < old(self).frames@.len() ==> (#[trigger] final(self).frames@[k]).label
                    == old(self).frames@[k].label,
            r is Some ==> final(self).done@.len() == old(self).done@.len() + counts_exps(
                exps@,
                i as int,
                exps@.len() - 1,
            ).0 && final(self).data@.len() == old(self).data@.len() + counts_exps(
                exps@,
                i as int,
                exps@.len() - 1,
            ).1,
            r matches Some(v) ==> v@.len() == acc@.len() + (if (i as int) < exps@.len() - 1 {
                exps@.len() - 1 - i
            } else {
                0
            }),
            plain_exps(exps@, i as int, loops@.len() > 0) ==> r is Some,
        decreases exps@, exps@.len() - i,
    {
        if exps.len() == 0 || i >= exps.len() - 1 {
            Some(acc)
        } else {
            let t = match self.translate_exp(vc, fc, tc, loops, &exps[i]) {
                None => {
                    return None;
                },
                Some(t) => t,
            };
            let s = tree_stm(t, &mut self.gen);
            let mut acc2 = acc;
            acc2.push(s);
            self.translate_seq_stms(vc, fc, tc, loops, exps, i + 1, acc2)
        }
    }

    /// The declarations of a `let` from position `i` on: each extends
    /// the contexts for the rest, and a variable declaration appends
    /// its initializing move to `acc`.
    fn translate_decs(
        &mut self,
        vc: VarContext,
        fc: FnContext,
        tc: TypeContext,
        loops: &Vec<Label>,
        decs: &Vec<Dec>,
        i: usize,
        acc: Vec<Stm>,
    ) -> (r: Option<(VarContext, FnContext, TypeContext, Vec<Stm>)>)
        requires
            old(self).frames@.len() >= 1,
        ensures
            grows(*old(self), *final(self)),
            final(self).frames@.len() == old(self).frames@.len(),
            forall|k: int|
                0 <= k < old(self).frames@.len() ==> (#[trigger] final(self).frames@[k]).label
                    == old(self).frames@[k].label,
            r is Some ==> final(self).done@.len() == old(self).done@.len() + counts_decs(
                decs@,
                i as int,
            ).0 && final(self).data@.len() == old(self).data@.len() + counts_decs(
                decs@,
                i as int,
            ).1,
            r matches Some(p) ==> {
                &&& p.3@.len() >= acc@.len()
                &&& forall|k: int| 0 <= k < acc@.len() ==> #[trigger] p.3@[k] == acc@[k]
            },
        decreases decs@, decs@.len() - i,
    {
        if i >= decs.len() {
            Some((vc, fc, tc, acc))
        } else {
            let (vc2, fc2, tc2, acc2) = match self.translate_dec(vc, fc, tc, loops, &decs[i], acc) {
                None => {
                    return None;
                },
                Some(p) => p,
            };
            self.translate_decs(vc2, fc2, tc2, loops, decs, i + 1, acc2)
        }
    }

    /// One declaration: the extended contexts, with the initializing
    /// move of a variable declaration appended to `acc`. A function
    /// group contributes no statement: its frames go to the done pile.
    #[verifier::rlimit(100)]
    #[verifier::spinoff_prover]
    fn translate_dec(
        &mut self,
        vc: VarContext,
        fc: FnContext,
        tc: TypeContext,
        loops: &Vec<Label>,
        d: &Dec,
        acc: Vec<Stm>,
    ) -> (r: Option<(VarContext, FnContext, TypeContext, Vec<Stm>)>)
        requires
            old(self).frames@.len() >= 1,
        ensures
            grows(*old(self), *final(self)),
            final(self).frames@.len() == old(self).frames@.len(),
            forall|k: int|
                0 <= k < old(self).frames@.len() ==> (#[trigger] final(self).frames@[k]).label
                    == old(self).frames@[k].label,
            r is Some ==> final(self).done@.len() == old(self).done@.len() + counts_dec(*d).0
                && final(self).data@.len() == old(self).data@.len() + counts_dec(*d).1,
            r matches Some(p) ==> match *d {
                Dec::Var { name, name_span: _, escape, ty: _, ty_span: _, init: _, span: _ } => {
                    &&& p.3@.len() == acc@.len() + 1
                    &&& forall|k: int| 0 <= k < acc@.len() ==> #[trigger] p.3@[k] == acc@[k]
                    &&& p.3@.last() matches Stm::Move(_, dst) && (escape ==> dst
                        matches ir::Exp::Mem(_)) && (!escape ==> dst matches ir::Exp::Temp(
                        Temp::Fresh(_),
                    ))
                    &&& p.0@.len() == vc@.len() + 1 && p.0@.last().0 == name
                    &&& p.1@ == fc@
                    &&& p.2@ == tc@
                },
                Dec::Fun(funs, _) => {
                    &&& p.3@ == acc@
                    &&& p.0@.len() == vc@.len() + funs@.len()
                    &&& p.1@.len() == fc@.len() + funs@.len()
                    &&& p.2@ == tc@
                },
                Dec::Type(decs, _) => {
                    &&& p.3@ == acc@
                    &&& p.0@ == vc@
                    &&& p.1@ == fc@
                    &&& match type_bodies_s(
                        type_sentinels_s(tc@, decs@, 0),
                        decs@,
                        0,
                        old(self).gen.next,
                    ) {
                        Ok(out) => p.2@ == out.0 && final(self).gen.next == out.1,
                        Err(_) => false,
                    }
                },
            },
        decreases *d, 1nat,
    {
        match d {
            Dec::Var { name, name_span: _, escape, ty, ty_span: _, init, span: _ } => {
                let init_tree = match self.translate_exp(&vc, &fc, &tc, loops, init) {
                    None => {
                        return None;
                    },
                    Some(t) => t,
                };
                // The declared variable's type: the annotation, or the
                // initializer's type under the verified analyzer.
                let var_ty: Ty = match ty {
                    Some(id) => match tc.get_full(*id) {
                        None => {
                            return None;
                        },
                        Some(t) => t,
                    },
                    None => {
                        let c0 = self.gen.next;
                        match crate::check::check_exp(&vc, &tc, loops.len() > 0, c0, init) {
                            Err(_) => {
                                return None;
                            },
                            Ok((typed, c1)) => {
                                self.gen.next = c1;
                                typed.ty
                            },
                        }
                    },
                };
                let init_exp = tree_exp(init_tree, &mut self.gen);
                let n = self.frames.len();
                let access = self.frames[n - 1].allocate(*name, *escape, &mut self.gen);
                let mut acc2 = acc;
                acc2.push(
                    Stm::Move(init_exp, access_to_exp(access, ir::Exp::Temp(Temp::Reg(Reg::RBP)))),
                );
                let mut vc2 = vc;
                vc2.insert(*name, Binding::Var(var_ty, true));
                Some((vc2, fc, tc, acc2))
            },
            Dec::Fun(funs, _span) => {
                let fc2 = match self.fun_labels(fc, funs, 0) {
                    None => {
                        return None;
                    },
                    Some(c) => c,
                };
                proof {
                    lemma_fun_headers_len(vc@, tc@, funs@, 0);
                }
                let vc2 = match crate::check::fun_headers(vc, &tc, funs, 0) {
                    Err(_) => {
                        return None;
                    },
                    Ok(c) => c,
                };
                match self.fun_frames(&vc2, &fc2, &tc, funs, 0) {
                    None => {
                        return None;
                    },
                    Some(()) => Some((vc2, fc2, tc, acc)),
                }
            },
            Dec::Type(decs, _span) => {
                let tc1 = self.type_sentinels(tc, decs, 0);
                let tc2 = match self.type_bodies(tc1, decs, 0) {
                    None => {
                        return None;
                    },
                    Some(c) => c,
                };
                Some((vc, fc, tc2, acc))
            },
        }
    }

    /// First pass of a function group: a fresh label for each member,
    /// so that every body sees the whole group.
    fn fun_labels(&mut self, fc: FnContext, funs: &Vec<FunDec>, i: usize) -> (r: Option<FnContext>)
        requires
            i <= funs@.len(),
        ensures
            final(self).done@ == old(self).done@,
            final(self).data@ == old(self).data@,
            final(self).frames@ == old(self).frames@,
            r matches Some(fc2) && fc2@.len() == fc@.len() + (funs@.len() - i),
        decreases funs@.len() - i,
    {
        if i >= funs.len() {
            Some(fc)
        } else {
            let label = self.gen.label();
            let mut fc2 = fc;
            fc2.insert(funs[i].name, Call::Function(label));
            self.fun_labels(fc2, funs, i + 1)
        }
    }

    /// Second pass of a function group: each body translated in a
    /// fresh frame whose first formal is the static link, and the
    /// wrapped frame pushed to the done pile.
    fn fun_frames(
        &mut self,
        vc: &VarContext,
        fc: &FnContext,
        tc: &TypeContext,
        funs: &Vec<FunDec>,
        i: usize,
    ) -> (r: Option<()>)
        requires
            old(self).frames@.len() >= 1,
        ensures
            grows(*old(self), *final(self)),
            final(self).frames@.len() == old(self).frames@.len(),
            forall|k: int|
                0 <= k < old(self).frames@.len() ==> (#[trigger] final(self).frames@[k]).label
                    == old(self).frames@[k].label,
            r is Some ==> final(self).done@.len() == old(self).done@.len() + counts_funs(
                funs@,
                i as int,
            ).0 && final(self).data@.len() == old(self).data@.len() + counts_funs(
                funs@,
                i as int,
            ).1,
        decreases funs@, funs@.len() - i,
    {
        if i >= funs.len() {
            Some(())
        } else {
            let fun = &funs[i];
            let label = match fc.get(fun.name) {
                Some(Call::Function(l)) => l,
                _ => {
                    return None;
                },
            };
            let mut formals: Vec<(Symbol, bool)> = vec![(SYM_STATIC_LINK, true)];
            let mut k: usize = 0;
            while k < fun.args.len()
                invariant
                    k <= fun.args.len(),
                decreases fun.args.len() - k,
            {
                formals.push((fun.args[k].name, fun.args[k].escape));
                k = k + 1;
            }
            let vcd = vc.duplicate();
            let vcb = match crate::check::bind_args(vcd, tc, &fun.args, 0) {
                Err(_) => {
                    return None;
                },
                Ok(c) => c,
            };
            let frame = Frame::new(label, formals, &mut self.gen);
            self.frames.push(frame);
            let empty_loops: Vec<Label> = Vec::new();
            let body_tree = match self.translate_exp(&vcb, fc, tc, &empty_loops, &fun.body) {
                None => {
                    let _ = self.frames.pop();
                    return None;
                },
                Some(t) => t,
            };
            let finished = match self.frames.pop() {
                None => {
                    return None;
                },
                Some(f) => f,
            };
            let wrapped = finished.wrap(body_tree, &mut self.gen);
            self.done.push(wrapped);
            self.fun_frames(vc, fc, tc, funs, i + 1)
        }
    }

    /// First pass of a type group: a sentinel alias for every name.
    fn type_sentinels(&mut self, tc: TypeContext, decs: &Vec<TypeDec>, i: usize) -> (r: TypeContext)
        ensures
            *final(self) == *old(self),
            r@ == type_sentinels_s(tc@, decs@, i as int),
        decreases decs@.len() - i,
    {
        if i >= decs.len() {
            tc
        } else {
            let mut tc2 = tc;
            tc2.insert(decs[i].name, Ty::Name(decs[i].name, None));
            self.type_sentinels(tc2, decs, i + 1)
        }
    }

    /// Second pass of a type group: each body resolved under the
    /// evolving context, drawing fresh identities from the counter.
    fn type_bodies(&mut self, tc: TypeContext, decs: &Vec<TypeDec>, i: usize) -> (r: Option<
        TypeContext,
    >)
        ensures
            final(self).done@ == old(self).done@,
            final(self).data@ == old(self).data@,
            final(self).frames@ == old(self).frames@,
            match type_bodies_s(tc@, decs@, i as int, old(self).gen.next) {
                Ok(out) => r matches Some(tc2) && tc2@ == out.0 && final(self).gen.next == out.1,
                Err(_) => r is None,
            },
        decreases decs@, decs@.len() - i,
    {
        if i >= decs.len() {
            Some(tc)
        } else {
            let ty = match self.translate_type(&tc, &decs[i].ty) {
                None => {
                    return None;
                },
                Some(t) => t,
            };
            let mut tc2 = tc;
            tc2.insert(decs[i].name, Ty::Name(decs[i].name, Some(Box::new(ty))));
            self.type_bodies(tc2, decs, i + 1)
        }
    }

    /// A type expression under partial lookups, as in the analyzer,
    /// with identities drawn from the translator's counter.
    fn translate_type(&mut self, tc: &TypeContext, t: &Type) -> (r: Option<Ty>)
        ensures
            final(self).data@ == old(self).data@,
            final(self).done@ == old(self).done@,
            final(self).frames@ == old(self).frames@,
            match check_type_s(tc@, *t, old(self).gen.next) {
                Ok(out) => r == Some(out.0) && final(self).gen.next == out.1,
                Err(_) => r is None,
            },
        decreases *t, 1nat,
    {
        match t {
            Type::Name(name, _span) => match tc.get(*name) {
                None => None,
                Some(u) => Some(u.clone()),
            },
            Type::Arr(name, _name_span, _span) => match tc.get(*name) {
                None => None,
                Some(elem) => {
                    let elem2 = elem.clone();
                    let id = self.fresh_id();
                    Some(Ty::Arr(Box::new(elem2), id))
                },
            },
            Type::Rec(decs, _span) => match self.rec_field_tys(tc, decs, 0) {
                None => None,
                Some(list) => {
                    let id = self.fresh_id();
                    Some(Ty::Rec(Box::new(list), id))
                },
            },
        }
    }

    /// The declared fields of a record type from position `i` on.
    fn rec_field_tys(&mut self, tc: &TypeContext, decs: &Vec<crate::ast::FieldDec>, i: usize) -> (r:
        Option<TyList>)
        ensures
            *final(self) == *old(self),
            r == (match rec_fields_s(tc@, decs@, i as int) {
                Ok(l) => Some(l),
                Err(_) => None::<TyList>,
            }),
        decreases decs@.len() - i,
    {
        if i >= decs.len() {
            Some(TyList::Nil)
        } else {
            let ty = match tc.get(decs[i].ty) {
                None => {
                    return None;
                },
                Some(t) => t.clone(),
            };
            match self.rec_field_tys(tc, decs, i + 1) {
                None => None,
                Some(rest) => Some(TyList::Cons(decs[i].name, ty, Box::new(rest))),
            }
        }
    }

    /// A fresh record or array identity.
    fn fresh_id(&mut self) -> (r: u64)
        ensures
            final(self).data@ == old(self).data@,
            final(self).done@ == old(self).done@,
            final(self).frames@ == old(self).frames@,
            r == old(self).gen.next,
            final(self).gen.next == gen_bump(old(self).gen.next),
    {
        let id = self.gen.next;
        let _ = self.gen.temp();
        id
    }

    /// The IR operator of an arithmetic or logical source operator.
    fn translate_binop(op: &Binop) -> (r: Option<ir::Binop>)
        ensures
            r == binop_ir(*op),
    {
        match op {
            Binop::Add => Some(ir::Binop::Add),
            Binop::Sub => Some(ir::Binop::Sub),
            Binop::Mul => Some(ir::Binop::Mul),
            Binop::Div => Some(ir::Binop::Div),
            Binop::LAnd => Some(ir::Binop::And),
            Binop::LOr => Some(ir::Binop::Or),
            _ => None,
        }
    }

    /// The IR relation of a relational source operator.
    fn translate_relop(op: &Binop) -> (r: Option<ir::Relop>)
        ensures
            r == relop_ir(*op),
    {
        match op {
            Binop::Eq => Some(ir::Relop::Eq),
            Binop::Neq => Some(ir::Relop::Ne),
            Binop::Lt => Some(ir::Relop::Lt),
            Binop::Le => Some(ir::Relop::Le),
            Binop::Gt => Some(ir::Relop::Gt),
            Binop::Ge => Some(ir::Relop::Ge),
            _ => None,
        }
    }
}

/// A copy of the loop-exit label stack, for entering a loop body.
fn duplicate_labels(loops: &Vec<Label>) -> (r: Vec<Label>)
    ensures
        r@ == loops@,
{
    let mut out: Vec<Label> = Vec::new();
    let mut i: usize = 0;
    while i < loops.len()
        invariant
            i <= loops.len(),
            out@ =~= loops@.subrange(0, i as int),
        decreases loops.len() - i,
    {
        out.push(loops[i]);
        i = i + 1;
        assert(out@ =~= loops@.subrange(0, i as int));
    }
    assert(out@ =~= loops@);
    out
}

} // verus!
