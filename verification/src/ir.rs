//! The three-address intermediate representation.
//!
//! Expressions and statements form trees; a `Tree` is the tri-modal
//! value of translation — an expression, a statement, or a conditional
//! that becomes a conditional jump once given its true and false
//! targets. The conditional holds its captured operand expressions as
//! data, so each materialization clones nothing and commits to nothing
//! beforehand.

use vstd::prelude::*;
use crate::span::Symbol;
use crate::operand::{gen_bump, Gen, Label, Temp};

verus! {

/// A binary operator over words.
#[derive(Clone, Copy, Debug, PartialEq, Eq, Structural)]
pub enum Binop {
    Add,
    Sub,
    Mul,
    Div,
    And,
    Or,
    XOr,
}

impl Binop {
    /// Whether the operator has a two-operand instruction form; `Mul`
    /// and `Div` need the dedicated accumulator sequence instead.
    pub fn is_code_binop(&self) -> (r: bool)
        ensures
            r == !(*self == Binop::Mul || *self == Binop::Div),
    {
        match self {
            Binop::Mul | Binop::Div => false,
            _ => true,
        }
    }

    /// The two-operand instruction for this operator.
    pub fn into_code_binop(&self) -> (r: crate::code::Binop)
        requires
            *self != Binop::Mul && *self != Binop::Div,
        ensures
            r == spec_code_binop(*self),
    {
        match self {
            Binop::Add => crate::code::Binop::Add,
            Binop::Sub => crate::code::Binop::Sub,
            Binop::And => crate::code::Binop::And,
            Binop::Or => crate::code::Binop::Or,
            _ => crate::code::Binop::XOr,
        }
    }
}

/// The two-operand instruction for an operator that has one.
pub open spec fn spec_code_binop(op: Binop) -> crate::code::Binop {
    match op {
        Binop::Add => crate::code::Binop::Add,
        Binop::Sub => crate::code::Binop::Sub,
        Binop::And => crate::code::Binop::And,
        Binop::Or => crate::code::Binop::Or,
        _ => crate::code::Binop::XOr,
    }
}

/// A relational operator for conditional jumps.
#[derive(Clone, Copy, Debug, PartialEq, Eq, Structural)]
pub enum Relop {
    Eq,
    Ne,
    Lt,
    Gt,
    Le,
    Ge,
}

/// The condition code of a relational operator.
pub open spec fn spec_cc(r: Relop) -> crate::code::Cc {
    match r {
        Relop::Eq => crate::code::Cc::E,
        Relop::Ne => crate::code::Cc::Ne,
        Relop::Lt => crate::code::Cc::L,
        Relop::Gt => crate::code::Cc::G,
        Relop::Le => crate::code::Cc::Le,
        Relop::Ge => crate::code::Cc::Ge,
    }
}

impl Relop {
    /// The condition code of this operator.
    pub fn into_cc(&self) -> (r: crate::code::Cc)
        ensures
            r == spec_cc(*self),
    {
        match self {
            Relop::Eq => crate::code::Cc::E,
            Relop::Ne => crate::code::Cc::Ne,
            Relop::Lt => crate::code::Cc::L,
            Relop::Gt => crate::code::Cc::G,
            Relop::Le => crate::code::Cc::Le,
            Relop::Ge => crate::code::Cc::Ge,
        }
    }
}

/// An expression tree.
#[derive(Debug)]
pub enum Exp {
    Const(i32),
    Name(Label),
    Temp(Temp),
    Binop(Box<Exp>, Binop, Box<Exp>),
    Mem(Box<Exp>),
    Call(Box<Exp>, Vec<Exp>),
    ESeq(Box<Stm>, Box<Exp>),
}

/// A statement tree.
#[derive(Debug)]
pub enum Stm {
    /// `Move(src, dst)`.
    Move(Exp, Exp),
    /// An expression evaluated for its effect.
    Exp(Exp),
    /// A jump to the expression, with its possible targets.
    Jump(Exp, Vec<Label>),
    /// `CJump(lhs, op, rhs, true-target, false-target)`.
    CJump(Exp, Relop, Exp, Label, Label),
    Seqs(Vec<Stm>),
    Label(Label),
    Comment(Symbol),
}

/// The captured operands of a conditional: applied to a true and a
/// false label, they become one conditional jump.
#[derive(Debug)]
pub struct Cond {
    pub lhs: Box<Exp>,
    pub op: Relop,
    pub rhs: Box<Exp>,
}

/// A tri-modal translated phrase.
#[derive(Debug)]
pub enum Tree {
    Ex(Exp),
    Nx(Stm),
    Cx(Cond),
}

/// A string literal hoisted into static data.
#[derive(Debug)]
pub struct Static {
    pub label: Label,
    pub data: String,
}

/// A canonicalized function body handed to the tiler, with the first
/// counter value that is fresh for its labels and temporaries.
#[derive(Debug)]
pub struct Unit {
    pub body: Vec<Stm>,
    pub fresh: u64,
}

/// The labels that label statements inside an expression define.
pub open spec fn exp_defined(e: Exp) -> Set<Label>
    decreases e, 0nat,
{
    match e {
        Exp::Const(_) => Set::empty(),
        Exp::Name(_) => Set::empty(),
        Exp::Temp(_) => Set::empty(),
        Exp::Binop(l, _, r) => exp_defined(*l).union(exp_defined(*r)),
        Exp::Mem(m) => exp_defined(*m),
        Exp::Call(f, args) => exp_defined(*f).union(exps_defined(args@, 0)),
        Exp::ESeq(s, e2) => stm_defined(*s).union(exp_defined(*e2)),
    }
}

pub open spec fn exps_defined(s: Seq<Exp>, i: int) -> Set<Label>
    decreases s, s.len() - i,
{
    if i < 0 || i >= s.len() {
        Set::empty()
    } else {
        exp_defined(s[i]).union(exps_defined(s, i + 1))
    }
}

/// The labels a statement defines.
pub open spec fn stm_defined(s: Stm) -> Set<Label>
    decreases s, 0nat,
{
    match s {
        Stm::Move(a, b) => exp_defined(a).union(exp_defined(b)),
        Stm::Exp(e) => exp_defined(e),
        Stm::Jump(e, _) => exp_defined(e),
        Stm::CJump(l, _, r, _, _) => exp_defined(l).union(exp_defined(r)),
        Stm::Seqs(v) => stms_defined(v@, 0),
        Stm::Label(l) => Set::empty().insert(l),
        Stm::Comment(_) => Set::empty(),
    }
}

pub open spec fn stms_defined(s: Seq<Stm>, i: int) -> Set<Label>
    decreases s, s.len() - i,
{
    if i < 0 || i >= s.len() {
        Set::empty()
    } else {
        stm_defined(s[i]).union(stms_defined(s, i + 1))
    }
}

/// The labels jumps inside an expression refer to.
pub open spec fn exp_refs(e: Exp) -> Set<Label>
    decreases e, 0nat,
{
    match e {
        Exp::Const(_) => Set::empty(),
        Exp::Name(_) => Set::empty(),
        Exp::Temp(_) => Set::empty(),
        Exp::Binop(l, _, r) => exp_refs(*l).union(exp_refs(*r)),
        Exp::Mem(m) => exp_refs(*m),
        Exp::Call(f, args) => exp_refs(*f).union(exps_refs(args@, 0)),
        Exp::ESeq(s, e2) => stm_refs(*s).union(exp_refs(*e2)),
    }
}

pub open spec fn exps_refs(s: Seq<Exp>, i: int) -> Set<Label>
    decreases s, s.len() - i,
{
    if i < 0 || i >= s.len() {
        Set::empty()
    } else {
        exp_refs(s[i]).union(exps_refs(s, i + 1))
    }
}

/// The labels a statement's jumps refer to.
pub open spec fn stm_refs(s: Stm) -> Set<Label>
    decreases s, 0nat,
{
    match s {
        Stm::Move(a, b) => exp_refs(a).union(exp_refs(b)),
        Stm::Exp(e) => exp_refs(e),
        Stm::Jump(e, targets) => exp_refs(e).union(targets@.to_set()),
        Stm::CJump(l, _, r, t, f) => exp_refs(l).union(exp_refs(r)).insert(t).insert(f),
        Stm::Seqs(v) => stms_refs(v@, 0),
        Stm::Label(_) => Set::empty(),
        Stm::Comment(_) => Set::empty(),
    }
}

pub open spec fn stms_refs(s: Seq<Stm>, i: int) -> Set<Label>
    decreases s, s.len() - i,
{
    if i < 0 || i >= s.len() {
        Set::empty()
    } else {
        stm_refs(s[i]).union(stms_refs(s, i + 1))
    }
}

/// Every label defined inside the phrase is referred to inside it.
pub open spec fn labels_wf_exp(e: Exp) -> bool {
    exp_defined(e).subset_of(exp_refs(e))
}

/// Every label defined inside the statement is referred to inside it.
pub open spec fn labels_wf_stm(s: Stm) -> bool {
    stm_defined(s).subset_of(stm_refs(s))
}

/// Every label a translated phrase defines is referred to inside it.
pub open spec fn labels_wf_tree(t: Tree) -> bool {
    match t {
        Tree::Ex(e) => labels_wf_exp(e),
        Tree::Nx(s) => labels_wf_stm(s),
        Tree::Cx(c) => labels_wf_exp(*c.lhs) && labels_wf_exp(*c.rhs),
    }
}

/// A well-formed binary expression from well-formed operands.
pub proof fn lemma_binop_wf(x: Exp, op: Binop, y: Exp)
    requires
        labels_wf_exp(x),
        labels_wf_exp(y),
    ensures
        labels_wf_exp(Exp::Binop(Box::new(x), op, Box::new(y))),
{
    let r = Exp::Binop(Box::new(x), op, Box::new(y));
    assert(exp_defined(r) =~= exp_defined(x).union(exp_defined(y)));
    assert(exp_refs(r) =~= exp_refs(x).union(exp_refs(y)));
}

/// A well-formed memory access from a well-formed address.
pub proof fn lemma_mem_wf(x: Exp)
    requires
        labels_wf_exp(x),
    ensures
        labels_wf_exp(Exp::Mem(Box::new(x))),
{
    let r = Exp::Mem(Box::new(x));
    assert(exp_defined(r) =~= exp_defined(x));
    assert(exp_refs(r) =~= exp_refs(x));
}

/// A jump to one label, that label its only target.
pub fn jump_to(l: Label) -> (s: Stm)
    ensures
        s matches Stm::Jump(je, ts) && je == Exp::Name(l) && ts@ == seq![l],
{
    let ts: Vec<Label> = vec![l];
    proof {
        assert(ts@ =~= seq![l]);
    }
    Stm::Jump(Exp::Name(l), ts)
}

/// The expression form of a phrase: an expression is itself; a
/// statement is sequenced before zero; a conditional stores one or zero
/// into a fresh temporary through two fresh labels.
pub fn tree_exp(t: Tree, gen: &mut Gen) -> (r: Exp)
    ensures
        labels_wf_tree(t) ==> labels_wf_exp(r),
        match t {
            Tree::Ex(e) => r == e && final(gen).next == old(gen).next,
            Tree::Nx(s) => r == Exp::ESeq(Box::new(s), Box::new(Exp::Const(0)))
                && final(gen).next == old(gen).next,
            Tree::Cx(c) => {
                let n0 = old(gen).next;
                let n1 = gen_bump(n0);
                let n2 = gen_bump(n1);
                &&& final(gen).next == gen_bump(n2)
                &&& r matches Exp::ESeq(body, val)
                &&& *val == Exp::Temp(Temp::Fresh(n0))
                &&& *body matches Stm::Seqs(v)
                &&& v@ == seq![
                    Stm::Move(Exp::Const(1), Exp::Temp(Temp::Fresh(n0))),
                    Stm::CJump(*c.lhs, c.op, *c.rhs, Label::Fresh(n1), Label::Fresh(n2)),
                    Stm::Label(Label::Fresh(n2)),
                    Stm::Move(Exp::Const(0), Exp::Temp(Temp::Fresh(n0))),
                    Stm::Label(Label::Fresh(n1)),
                ]
            },
        },
{
    match t {
        Tree::Ex(e) => e,
        Tree::Nx(s) => {
            let ghost sv = s;
            let r = Exp::ESeq(Box::new(s), Box::new(Exp::Const(0)));
            proof {
                assert(exp_defined(Exp::Const(0)) =~= Set::<Label>::empty());
                assert(exp_refs(Exp::Const(0)) =~= Set::<Label>::empty());
                assert(exp_defined(r) =~= stm_defined(sv));
                assert(exp_refs(r) =~= stm_refs(sv));
            }
            r
        },
        Tree::Cx(c) => {
            let ghost lv = *c.lhs;
            let ghost rv = *c.rhs;
            let result = gen.temp();
            let t_label = gen.label();
            let f_label = gen.label();
            let stms: Vec<Stm> = vec![
                Stm::Move(Exp::Const(1), Exp::Temp(result)),
                Stm::CJump(*c.lhs, c.op, *c.rhs, t_label, f_label),
                Stm::Label(f_label),
                Stm::Move(Exp::Const(0), Exp::Temp(result)),
                Stm::Label(t_label),
            ];
            proof {
                let v = stms@;
                assert(stms_defined(v, 5) =~= Set::<Label>::empty());
                assert(stms_refs(v, 5) =~= Set::<Label>::empty());
                assert forall|k: int| 0 <= k < 5 implies #[trigger] stms_defined(v, k)
                    == stm_defined(v[k]).union(stms_defined(v, k + 1)) && stms_refs(v, k)
                    == stm_refs(v[k]).union(stms_refs(v, k + 1)) by {}
                if labels_wf_exp(lv) && labels_wf_exp(rv) {
                    assert forall|l: Label| stms_defined(v, 0).contains(l) implies stms_refs(
                        v,
                        0,
                    ).contains(l) by {
                        if exp_defined(lv).contains(l) {
                            assert(exp_refs(lv).contains(l));
                        }
                        if exp_defined(rv).contains(l) {
                            assert(exp_refs(rv).contains(l));
                        }
                    }
                }
            }
            let ghost vv = stms@;
            let inner = Stm::Seqs(stms);
            let ghost iv = inner;
            let r = Exp::ESeq(Box::new(inner), Box::new(Exp::Temp(result)));
            proof {
                assert(stm_defined(iv) =~= stms_defined(vv, 0));
                assert(stm_refs(iv) =~= stms_refs(vv, 0));
                assert(exp_defined(Exp::Temp(result)) =~= Set::<Label>::empty());
                assert(exp_refs(Exp::Temp(result)) =~= Set::<Label>::empty());
                assert(exp_defined(r) =~= stms_defined(vv, 0));
                assert(exp_refs(r) =~= stms_refs(vv, 0));
            }
            r
        },
    }
}

/// The statement form of a phrase: a statement is itself; an expression
/// is evaluated for its effect; a conditional jumps to one fresh label
/// either way and defines it.
pub fn tree_stm(t: Tree, gen: &mut Gen) -> (r: Stm)
    ensures
        labels_wf_tree(t) ==> labels_wf_stm(r),
        match t {
            Tree::Ex(e) => r == Stm::Exp(e) && final(gen).next == old(gen).next,
            Tree::Nx(s) => r == s && final(gen).next == old(gen).next,
            Tree::Cx(c) => {
                let n0 = old(gen).next;
                &&& final(gen).next == gen_bump(n0)
                &&& r matches Stm::Seqs(v)
                &&& v@ == seq![
                    Stm::CJump(*c.lhs, c.op, *c.rhs, Label::Fresh(n0), Label::Fresh(n0)),
                    Stm::Label(Label::Fresh(n0)),
                ]
            },
        },
{
    match t {
        Tree::Ex(e) => Stm::Exp(e),
        Tree::Nx(s) => s,
        Tree::Cx(c) => {
            let ghost lv = *c.lhs;
            let ghost rv = *c.rhs;
            let join = gen.label();
            let stms: Vec<Stm> = vec![
                Stm::CJump(*c.lhs, c.op, *c.rhs, join, join),
                Stm::Label(join),
            ];
            proof {
                let v = stms@;
                assert(stms_defined(v, 2) =~= Set::<Label>::empty());
                assert(stms_refs(v, 2) =~= Set::<Label>::empty());
                assert forall|k: int| 0 <= k < 2 implies #[trigger] stms_defined(v, k)
                    == stm_defined(v[k]).union(stms_defined(v, k + 1)) && stms_refs(v, k)
                    == stm_refs(v[k]).union(stms_refs(v, k + 1)) by {}
                if labels_wf_exp(lv) && labels_wf_exp(rv) {
                    assert forall|l: Label| stms_defined(v, 0).contains(l) implies stms_refs(
                        v,
                        0,
                    ).contains(l) by {
                        if exp_defined(lv).contains(l) {
                            assert(exp_refs(lv).contains(l));
                        }
                        if exp_defined(rv).contains(l) {
                            assert(exp_refs(rv).contains(l));
                        }
                    }
                }
            }
            Stm::Seqs(stms)
        },
    }
}

} // verus!
