//! The instruction tiler: maximal-munch selection of x86-64
//! instructions over pseudo-registers from canonical IR.
//!
//! The tiler consumes one canonicalized function body: a flat statement
//! list with no `ESeq`, no nested `Seqs` and no bare-expression
//! statement, in which jumps go to labels, calls call labels, and a
//! label appears as an operand nowhere else. Address computations of
//! the shape `base + index * scale + offset` — the offset optional,
//! added on either side or subtracted — with a scale the machine
//! supports become one memory operand; other scales fall back to
//! explicit multiplication. `0 - e`, `e + 1`, `1 + e` and `e - 1`
//! become `neg`, `inc` and `dec`. Multiplication and division go
//! through the accumulator; calls follow the System V AMD64 convention
//! with arguments beyond the sixth spilled below the stack pointer.

use vstd::prelude::*;
use crate::span::{SYM_FRAME_ADD, SYM_FRAME_SUB};
use crate::operand::{gen_bump, spec_argument, spec_scale, Imm, Label, Mem, Reg, Scale, Temp,
    Value, WORD_SIZE};
use crate::code::{spec_dest, Asm, Binary, Unary, Unop};
use crate::code;
use crate::ir::{spec_cc, spec_code_binop, Binop, Exp, Stm, Unit};

verus! {

/// The longest argument list a call may carry, so that every spill
/// offset fits an immediate.
pub const MAX_CALL_ARGS: usize = 0x0FFF_FFFF;

/// A canonical expression: no `ESeq`, calls call labels with bounded
/// argument lists, and a label stands nowhere else. Constants keep away
/// from the one value whose negation overflows, so that subtracted
/// offsets can be folded into address modes.
pub open spec fn canon_exp(e: Exp) -> bool
    decreases e, 0nat,
{
    match e {
        Exp::Const(n) => n != i32::MIN,
        Exp::Name(_) => false,
        Exp::Temp(_) => true,
        Exp::Binop(l, _, r) => canon_exp(*l) && canon_exp(*r),
        Exp::Mem(m) => canon_exp(*m),
        Exp::Call(f, args) => (*f matches Exp::Name(_)) && args@.len() <= MAX_CALL_ARGS
            && canon_exps(args@, 0),
        Exp::ESeq(_, _) => false,
    }
}

pub open spec fn canon_exps(s: Seq<Exp>, i: int) -> bool
    decreases s, s.len() - i,
{
    if i < 0 || i >= s.len() {
        true
    } else {
        canon_exp(s[i]) && canon_exps(s, i + 1)
    }
}

/// A canonical statement: no `Seqs`, no bare expression, jumps go to
/// labels.
pub open spec fn canon_stm(s: Stm) -> bool {
    match s {
        Stm::Move(a, b) => canon_exp(a) && canon_exp(b),
        Stm::Exp(_) => false,
        Stm::Jump(e, _) => e matches Exp::Name(_),
        Stm::CJump(l, _, r, _, _) => canon_exp(l) && canon_exp(r),
        Stm::Seqs(_) => false,
        Stm::Label(_) => true,
        Stm::Comment(_) => true,
    }
}

pub open spec fn canon_stms(s: Seq<Stm>, i: int) -> bool
    decreases s, s.len() - i,
{
    if i < 0 || i >= s.len() {
        true
    } else {
        canon_stm(s[i]) && canon_stms(s, i + 1)
    }
}

/// A canonical unit, fit for tiling.
pub open spec fn canonical(u: Unit) -> bool {
    canon_stms(u.body@, 0)
}

fn is_canon_exp(e: &Exp) -> (r: bool)
    ensures
        r == canon_exp(*e),
    decreases *e, 0nat,
{
    match e {
        Exp::Const(n) => *n != i32::MIN,
        Exp::Name(_) => false,
        Exp::Temp(_) => true,
        Exp::Binop(l, _, r) => is_canon_exp(l) && is_canon_exp(r),
        Exp::Mem(m) => is_canon_exp(m),
        Exp::Call(f, args) => matches!(&**f, Exp::Name(_)) && args.len() <= MAX_CALL_ARGS
            && is_canon_exps(args, 0),
        Exp::ESeq(_, _) => false,
    }
}

fn is_canon_exps(s: &Vec<Exp>, i: usize) -> (r: bool)
    ensures
        r == canon_exps(s@, i as int),
    decreases s@, s@.len() - i,
{
    if i >= s.len() {
        true
    } else {
        is_canon_exp(&s[i]) && is_canon_exps(s, i + 1)
    }
}

fn is_canon_stm(s: &Stm) -> (r: bool)
    ensures
        r == canon_stm(*s),
{
    match s {
        Stm::Move(a, b) => is_canon_exp(a) && is_canon_exp(b),
        Stm::Exp(_) => false,
        Stm::Jump(e, _) => matches!(e, Exp::Name(_)),
        Stm::CJump(l, _, r, _, _) => is_canon_exp(l) && is_canon_exp(r),
        Stm::Seqs(_) => false,
        Stm::Label(_) => true,
        Stm::Comment(_) => true,
    }
}

fn is_canon_stms(s: &Vec<Stm>, i: usize) -> (r: bool)
    ensures
        r == canon_stms(s@, i as int),
    decreases s@.len() - i,
{
    if i >= s.len() {
        true
    } else {
        is_canon_stm(&s[i]) && is_canon_stms(s, i + 1)
    }
}

/// Whether a unit is canonical, for callers outside the core that must
/// establish [`tile`]'s precondition.
pub fn is_canonical(u: &Unit) -> (r: bool)
    ensures
        r == canonical(*u),
{
    is_canon_stms(&u.body, 0)
}

/// `index * scale` in either order, with a constant scale.
pub open spec fn mul_parts(e: Exp) -> Option<(Exp, i32)> {
    match e {
        Exp::Binop(a, Binop::Mul, b) => match *b {
            Exp::Const(s) => Some((*a, s)),
            _ => match *a {
                Exp::Const(s) => Some((*b, s)),
                _ => None,
            },
        },
        _ => None,
    }
}

/// `base + index * scale` in any ordering, with a constant scale.
pub open spec fn base_index(e: Exp) -> Option<(Exp, Exp, i32)> {
    match e {
        Exp::Binop(a, Binop::Add, b) => match mul_parts(*b) {
            Some((r, s)) => Some((*a, r, s)),
            None => match mul_parts(*a) {
                Some((r, s)) => Some((*b, r, s)),
                None => None,
            },
        },
        _ => None,
    }
}

/// `base + index * scale + offset` in any of its orderings, offset
/// added on the right or the left or subtracted, with a machine scale.
pub open spec fn brso_parts(e: Exp) -> Option<(Exp, Exp, Scale, i32)> {
    match e {
        Exp::Binop(a, Binop::Add, b) => match *b {
            Exp::Const(o) => match base_index(*a) {
                Some((bb, r, s)) => match spec_scale(s) {
                    Some(sc) => Some((bb, r, sc, o)),
                    None => None,
                },
                None => brso_left(e),
            },
            _ => brso_left(e),
        },
        Exp::Binop(a, Binop::Sub, b) => match *b {
            Exp::Const(o) => match base_index(*a) {
                Some((bb, r, s)) => match spec_scale(s) {
                    Some(sc) => Some((bb, r, sc, (0 - o as int) as i32)),
                    None => None,
                },
                None => None,
            },
            _ => None,
        },
        _ => None,
    }
}

/// The offset-on-the-left orderings of the same shape.
pub open spec fn brso_left(e: Exp) -> Option<(Exp, Exp, Scale, i32)> {
    match e {
        Exp::Binop(a, Binop::Add, b) => match *a {
            Exp::Const(o) => match base_index(*b) {
                Some((bb, r, s)) => match spec_scale(s) {
                    Some(sc) => Some((bb, r, sc, o)),
                    None => None,
                },
                None => None,
            },
            _ => None,
        },
        _ => None,
    }
}

/// `index * scale + offset`, offset on either side or subtracted.
pub open spec fn rso_parts(e: Exp) -> Option<(Exp, Scale, i32)> {
    match e {
        Exp::Binop(a, Binop::Add, b) => match *b {
            Exp::Const(o) => match mul_parts(*a) {
                Some((r, s)) => match spec_scale(s) {
                    Some(sc) => Some((r, sc, o)),
                    None => None,
                },
                None => rso_left(e),
            },
            _ => rso_left(e),
        },
        Exp::Binop(a, Binop::Sub, b) => match *b {
            Exp::Const(o) => match mul_parts(*a) {
                Some((r, s)) => match spec_scale(s) {
                    Some(sc) => Some((r, sc, (0 - o as int) as i32)),
                    None => None,
                },
                None => None,
            },
            _ => None,
        },
        _ => None,
    }
}

/// The offset-on-the-left orderings of the same shape.
pub open spec fn rso_left(e: Exp) -> Option<(Exp, Scale, i32)> {
    match e {
        Exp::Binop(a, Binop::Add, b) => match *a {
            Exp::Const(o) => match mul_parts(*b) {
                Some((r, s)) => match spec_scale(s) {
                    Some(sc) => Some((r, sc, o)),
                    None => None,
                },
                None => None,
            },
            _ => None,
        },
        _ => None,
    }
}

/// `base + index * scale` with no constant offset term.
pub open spec fn brso_noff(e: Exp) -> Option<(Exp, Exp, Scale)> {
    match base_index(e) {
        Some((b, r, s)) => match spec_scale(s) {
            Some(sc) => Some((b, r, sc)),
            None => None,
        },
        None => None,
    }
}

/// `index * scale` alone, with no base and no offset term.
pub open spec fn rso_noff(e: Exp) -> Option<(Exp, Scale)> {
    match mul_parts(e) {
        Some((r, s)) => match spec_scale(s) {
            Some(sc) => Some((r, sc)),
            None => None,
        },
        None => None,
    }
}

/// `register + offset`, offset on either side or subtracted.
pub open spec fn ro_parts(e: Exp) -> Option<(Exp, i32)> {
    match e {
        Exp::Binop(a, Binop::Add, b) => match *b {
            Exp::Const(o) => Some((*a, o)),
            _ => match *a {
                Exp::Const(o) => Some((*b, o)),
                _ => None,
            },
        },
        Exp::Binop(a, Binop::Sub, b) => match *b {
            Exp::Const(o) => Some((*a, (0 - o as int) as i32)),
            _ => None,
        },
        _ => None,
    }
}

fn match_mul<'a>(e: &'a Exp) -> (r: Option<(&'a Exp, i32)>)
    ensures
        match r {
            Some((x, s)) => mul_parts(*e) == Some((*x, s)),
            None => mul_parts(*e) is None,
        },
{
    match e {
        Exp::Binop(a, Binop::Mul, b) => match &**b {
            Exp::Const(s) => Some((&**a, *s)),
            _ => match &**a {
                Exp::Const(s) => Some((&**b, *s)),
                _ => None,
            },
        },
        _ => None,
    }
}

fn match_base_index<'a>(e: &'a Exp) -> (r: Option<(&'a Exp, &'a Exp, i32)>)
    ensures
        match r {
            Some((b, x, s)) => base_index(*e) == Some((*b, *x, s)),
            None => base_index(*e) is None,
        },
{
    match e {
        Exp::Binop(a, Binop::Add, b) => match match_mul(b) {
            Some((r0, s)) => Some((&**a, r0, s)),
            None => match match_mul(a) {
                Some((r0, s)) => Some((&**b, r0, s)),
                None => None,
            },
        },
        _ => None,
    }
}

fn match_brso<'a>(e: &'a Exp) -> (r: Option<(&'a Exp, &'a Exp, Scale, i32)>)
    requires
        canon_exp(*e),
    ensures
        match r {
            Some((b, x, sc, o)) => brso_parts(*e) == Some((*b, *x, sc, o)),
            None => brso_parts(*e) is None,
        },
{
    match e {
        Exp::Binop(a, Binop::Add, b) => match &**b {
            Exp::Const(o) => match match_base_index(a) {
                Some((bb, x, s)) => match Scale::try_scale(s) {
                    Some(sc) => Some((bb, x, sc, *o)),
                    None => None,
                },
                None => match_brso_left(e),
            },
            _ => match_brso_left(e),
        },
        Exp::Binop(a, Binop::Sub, b) => match &**b {
            Exp::Const(o) => match match_base_index(a) {
                Some((bb, x, s)) => match Scale::try_scale(s) {
                    Some(sc) => {
                        proof {
                            assert(canon_exp(**b));
                        }
                        Some((bb, x, sc, -*o))
                    },
                    None => None,
                },
                None => None,
            },
            _ => None,
        },
        _ => None,
    }
}

fn match_brso_left<'a>(e: &'a Exp) -> (r: Option<(&'a Exp, &'a Exp, Scale, i32)>)
    ensures
        match r {
            Some((b, x, sc, o)) => brso_left(*e) == Some((*b, *x, sc, o)),
            None => brso_left(*e) is None,
        },
{
    match e {
        Exp::Binop(a, Binop::Add, b) => match &**a {
            Exp::Const(o) => match match_base_index(b) {
                Some((bb, x, s)) => match Scale::try_scale(s) {
                    Some(sc) => Some((bb, x, sc, *o)),
                    None => None,
                },
                None => None,
            },
            _ => None,
        },
        _ => None,
    }
}

fn match_rso<'a>(e: &'a Exp) -> (r: Option<(&'a Exp, Scale, i32)>)
    requires
        canon_exp(*e),
    ensures
        match r {
            Some((x, sc, o)) => rso_parts(*e) == Some((*x, sc, o)),
            None => rso_parts(*e) is None,
        },
{
    match e {
        Exp::Binop(a, Binop::Add, b) => match &**b {
            Exp::Const(o) => match match_mul(a) {
                Some((x, s)) => match Scale::try_scale(s) {
                    Some(sc) => Some((x, sc, *o)),
                    None => None,
                },
                None => match_rso_left(e),
            },
            _ => match_rso_left(e),
        },
        Exp::Binop(a, Binop::Sub, b) => match &**b {
            Exp::Const(o) => match match_mul(a) {
                Some((x, s)) => match Scale::try_scale(s) {
                    Some(sc) => {
                        proof {
                            assert(canon_exp(**b));
                        }
                        Some((x, sc, -*o))
                    },
                    None => None,
                },
                None => None,
            },
            _ => None,
        },
        _ => None,
    }
}

fn match_rso_left<'a>(e: &'a Exp) -> (r: Option<(&'a Exp, Scale, i32)>)
    ensures
        match r {
            Some((x, sc, o)) => rso_left(*e) == Some((*x, sc, o)),
            None => rso_left(*e) is None,
        },
{
    match e {
        Exp::Binop(a, Binop::Add, b) => match &**a {
            Exp::Const(o) => match match_mul(b) {
                Some((x, s)) => match Scale::try_scale(s) {
                    Some(sc) => Some((x, sc, *o)),
                    None => None,
                },
                None => None,
            },
            _ => None,
        },
        _ => None,
    }
}

fn match_brso_noff<'a>(e: &'a Exp) -> (r: Option<(&'a Exp, &'a Exp, Scale)>)
    ensures
        match r {
            Some((b, x, sc)) => brso_noff(*e) == Some((*b, *x, sc)),
            None => brso_noff(*e) is None,
        },
{
    match match_base_index(e) {
        Some((b, x, s)) => match Scale::try_scale(s) {
            Some(sc) => Some((b, x, sc)),
            None => None,
        },
        None => None,
    }
}

fn match_rso_noff<'a>(e: &'a Exp) -> (r: Option<(&'a Exp, Scale)>)
    ensures
        match r {
            Some((x, sc)) => rso_noff(*e) == Some((*x, sc)),
            None => rso_noff(*e) is None,
        },
{
    match match_mul(e) {
        Some((x, s)) => match Scale::try_scale(s) {
            Some(sc) => Some((x, sc)),
            None => None,
        },
        None => None,
    }
}

fn match_ro<'a>(e: &'a Exp) -> (r: Option<(&'a Exp, i32)>)
    requires
        canon_exp(*e),
    ensures
        match r {
            Some((x, o)) => ro_parts(*e) == Some((*x, o)),
            None => ro_parts(*e) is None,
        },
{
    match e {
        Exp::Binop(a, Binop::Add, b) => match &**b {
            Exp::Const(o) => Some((&**a, *o)),
            _ => match &**a {
                Exp::Const(o) => Some((&**b, *o)),
                _ => None,
            },
        },
        Exp::Binop(a, Binop::Sub, b) => match &**b {
            Exp::Const(o) => {
                proof {
                    assert(canon_exp(**b));
                }
                Some((&**a, -*o))
            },
            _ => None,
        },
        _ => None,
    }
}

/// The node count of an expression, the measure of tiling recursion.
pub open spec fn exp_size(e: Exp) -> nat
    decreases e, 0nat,
{
    match e {
        Exp::Const(_) => 1,
        Exp::Name(_) => 1,
        Exp::Temp(_) => 1,
        Exp::Binop(l, _, r) => 1 + exp_size(*l) + exp_size(*r),
        Exp::Mem(m) => 1 + exp_size(*m),
        Exp::Call(f, args) => 1 + exp_size(*f) + exps_size(args@, 0),
        Exp::ESeq(_, _) => 1,
    }
}

pub open spec fn exps_size(s: Seq<Exp>, i: int) -> nat
    decreases s, s.len() - i,
{
    if i < 0 || i >= s.len() {
        0
    } else {
        1 + exp_size(s[i]) + exps_size(s, i + 1)
    }
}

proof fn lemma_mul_size(e: Exp)
    ensures
        mul_parts(e) matches Some(p) ==> exp_size(p.0) < exp_size(e),
{
    match e {
        Exp::Binop(a, op, b) => {},
        _ => {},
    }
}

proof fn lemma_base_index_size(e: Exp)
    ensures
        base_index(e) matches Some(p) ==> exp_size(p.0) < exp_size(e) && exp_size(p.1)
            < exp_size(e),
{
    match e {
        Exp::Binop(a, op, b) => {
            lemma_mul_size(*a);
            lemma_mul_size(*b);
        },
        _ => {},
    }
}

proof fn lemma_brso_size(e: Exp)
    ensures
        brso_parts(e) matches Some(p) ==> exp_size(p.0) < exp_size(e) && exp_size(p.1)
            < exp_size(e),
        brso_left(e) matches Some(p) ==> exp_size(p.0) < exp_size(e) && exp_size(p.1)
            < exp_size(e),
        brso_noff(e) matches Some(p) ==> exp_size(p.0) < exp_size(e) && exp_size(p.1)
            < exp_size(e),
{
    match e {
        Exp::Binop(a, op, b) => {
            lemma_base_index_size(*a);
            lemma_base_index_size(*b);
        },
        _ => {},
    }
    lemma_base_index_size(e);
}

proof fn lemma_rso_size(e: Exp)
    ensures
        rso_parts(e) matches Some(p) ==> exp_size(p.0) < exp_size(e),
        rso_left(e) matches Some(p) ==> exp_size(p.0) < exp_size(e),
        rso_noff(e) matches Some(p) ==> exp_size(p.0) < exp_size(e),
{
    match e {
        Exp::Binop(a, op, b) => {
            lemma_mul_size(*a);
            lemma_mul_size(*b);
        },
        _ => {},
    }
    lemma_mul_size(e);
}

proof fn lemma_ro_size(e: Exp)
    ensures
        ro_parts(e) matches Some(p) ==> exp_size(p.0) < exp_size(e),
{
    match e {
        Exp::Binop(a, op, b) => {},
        _ => {},
    }
}

proof fn lemma_mul_canon(e: Exp)
    ensures
        canon_exp(e) ==> (mul_parts(e) matches Some(p) ==> canon_exp(p.0)),
{
    match e {
        Exp::Binop(a, op, b) => {},
        _ => {},
    }
}

proof fn lemma_base_index_canon(e: Exp)
    ensures
        canon_exp(e) ==> (base_index(e) matches Some(p) ==> canon_exp(p.0) && canon_exp(p.1)),
{
    match e {
        Exp::Binop(a, op, b) => {
            lemma_mul_canon(*a);
            lemma_mul_canon(*b);
        },
        _ => {},
    }
}

proof fn lemma_brso_canon(e: Exp)
    ensures
        canon_exp(e) ==> (brso_parts(e) matches Some(p) ==> canon_exp(p.0) && canon_exp(p.1)),
        canon_exp(e) ==> (brso_left(e) matches Some(p) ==> canon_exp(p.0) && canon_exp(p.1)),
        canon_exp(e) ==> (brso_noff(e) matches Some(p) ==> canon_exp(p.0) && canon_exp(p.1)),
{
    match e {
        Exp::Binop(a, op, b) => {
            lemma_base_index_canon(*a);
            lemma_base_index_canon(*b);
        },
        _ => {},
    }
    lemma_base_index_canon(e);
}

proof fn lemma_rso_canon(e: Exp)
    ensures
        canon_exp(e) ==> (rso_parts(e) matches Some(p) ==> canon_exp(p.0)),
        canon_exp(e) ==> (rso_left(e) matches Some(p) ==> canon_exp(p.0)),
        canon_exp(e) ==> (rso_noff(e) matches Some(p) ==> canon_exp(p.0)),
{
    match e {
        Exp::Binop(a, op, b) => {
            lemma_mul_canon(*a);
            lemma_mul_canon(*b);
        },
        _ => {},
    }
    lemma_mul_canon(e);
}

proof fn lemma_ro_canon(e: Exp)
    ensures
        canon_exp(e) ==> (ro_parts(e) matches Some(p) ==> canon_exp(p.0)),
{
    match e {
        Exp::Binop(a, op, b) => {},
        _ => {},
    }
}

/// Materialization of a value into a register: a register stands as it
/// is; memory and immediates move into a fresh temporary. A label never
/// reaches here on canonical input.
pub open spec fn into_temp_s(v: Value, fresh: u64) -> (Seq<Asm>, Temp, u64) {
    match v {
        Value::Reg(t) => (Seq::empty(), t, fresh),
        Value::Mem(m) => (
            seq![Asm::Mov(Binary::MR(m, Temp::Fresh(fresh)))],
            Temp::Fresh(fresh),
            gen_bump(fresh),
        ),
        Value::Imm(i) => (
            seq![Asm::Mov(Binary::IR(i, Temp::Fresh(fresh)))],
            Temp::Fresh(fresh),
            gen_bump(fresh),
        ),
        Value::Label(_) => (Seq::empty(), Temp::Fresh(fresh), fresh),
    }
}

/// The most specific two-operand pairing of two tiled values, with the
/// moves that legalize it.
pub open spec fn combine_binary_s(lv: Value, rv: Value, fresh: u64) -> (Seq<Asm>, Binary, u64) {
    match (lv, rv) {
        (Value::Imm(i), Value::Reg(t)) => (Seq::empty(), Binary::IR(i, t), fresh),
        (Value::Imm(i), Value::Mem(m)) => (Seq::empty(), Binary::IM(i, m), fresh),
        (Value::Mem(m), Value::Reg(t)) => (Seq::empty(), Binary::MR(m, t), fresh),
        (a, Value::Mem(m)) => {
            let (pre, t, f1) = into_temp_s(a, fresh);
            (pre, Binary::RM(t, m), f1)
        },
        (a, b) => {
            let (p1, ta, f1) = into_temp_s(a, fresh);
            let (p2, tb, f2) = into_temp_s(b, f1);
            (p1 + p2, Binary::RR(ta, tb), f2)
        },
    }
}

/// A strength-reduced unary instruction on a tiled value: in place for
/// memory, in a register otherwise.
pub open spec fn combine_unop_s(v: Value, u: Unop, fresh: u64) -> (Seq<Asm>, Value, u64) {
    match v {
        Value::Mem(m) => (seq![Asm::Un(u, Unary::M(m))], Value::Mem(m), fresh),
        a => {
            let (pre, t, f1) = into_temp_s(a, fresh);
            (pre + seq![Asm::Un(u, Unary::R(t))], Value::Reg(t), f1)
        },
    }
}

/// The accumulator sequence for multiplication and division: the left
/// operand moves into `RAX`, division sign-extends with `cqo`, the
/// unary instruction takes the right operand, and `RAX` moves into a
/// fresh result temporary.
pub open spec fn combine_muldiv_s(lv: Value, rv: Value, op: Binop, fresh: u64) -> (
    Seq<Asm>,
    Value,
    u64,
) {
    let res = Temp::Fresh(fresh);
    let f0 = gen_bump(fresh);
    let rax = Temp::Reg(Reg::RAX);
    let (lpre, movl, f1) = match lv {
        Value::Imm(i) => (Seq::<Asm>::empty(), Binary::IR(i, rax), f0),
        Value::Mem(m) => (Seq::<Asm>::empty(), Binary::MR(m, rax), f0),
        a => {
            let (pre, t, f) = into_temp_s(a, f0);
            (pre, Binary::RR(t, rax), f)
        },
    };
    let (rpre, user, f2) = match rv {
        Value::Mem(m) => (Seq::<Asm>::empty(), Unary::M(m), f1),
        a => {
            let (pre, t, f) = into_temp_s(a, f1);
            (pre, Unary::R(t), f)
        },
    };
    let mid = if op == Binop::Div {
        seq![Asm::Mov(movl), Asm::Cqo, Asm::Div(user)]
    } else {
        seq![Asm::Mov(movl), Asm::Mul(user)]
    };
    (lpre + rpre + mid + seq![Asm::Mov(Binary::RR(rax, res))], Value::Reg(res), f2)
}

/// Maximal-munch tiling of one expression: the instructions it emits,
/// its value, and the counters after it.
pub open spec fn tile_exp_s(e: Exp, fresh: u64, spill: nat) -> (Seq<Asm>, Value, u64, nat)
    decreases exp_size(e), 0nat,
    via tile_exp_s_dec
{
    match e {
        Exp::Const(n) => (Seq::empty(), Value::Imm(Imm(n)), fresh, spill),
        Exp::Name(l) => (Seq::empty(), Value::Label(l), fresh, spill),
        Exp::Temp(t) => (Seq::empty(), Value::Reg(t), fresh, spill),
        Exp::ESeq(_, _) => (Seq::empty(), Value::Imm(Imm(0)), fresh, spill),
        Exp::Mem(inner) => match brso_parts(*inner) {
            Some((b, x, sc, o)) => {
                let (ab, vb, f1, s1) = tile_exp_s(b, fresh, spill);
                let (ax, vx, f2, s2) = tile_exp_s(x, f1, s1);
                let (pb, tb, f3) = into_temp_s(vb, f2);
                let (px, tx, f4) = into_temp_s(vx, f3);
                (ab + ax + pb + px, Value::Mem(Mem::BRSO(tb, tx, sc, o)), f4, s2)
            },
            None => match rso_parts(*inner) {
                Some((x, sc, o)) => {
                    let (ax, vx, f1, s1) = tile_exp_s(x, fresh, spill);
                    let (px, tx, f2) = into_temp_s(vx, f1);
                    (ax + px, Value::Mem(Mem::RSO(tx, sc, o)), f2, s1)
                },
                None => match brso_noff(*inner) {
                    Some((b, x, sc)) => {
                        let (ab, vb, f1, s1) = tile_exp_s(b, fresh, spill);
                        let (ax, vx, f2, s2) = tile_exp_s(x, f1, s1);
                        let (pb, tb, f3) = into_temp_s(vb, f2);
                        let (px, tx, f4) = into_temp_s(vx, f3);
                        (ab + ax + pb + px, Value::Mem(Mem::BRSO(tb, tx, sc, 0)), f4, s2)
                    },
                    None => match rso_noff(*inner) {
                        Some((x, sc)) => {
                            let (ax, vx, f1, s1) = tile_exp_s(x, fresh, spill);
                            let (px, tx, f2) = into_temp_s(vx, f1);
                            (ax + px, Value::Mem(Mem::RSO(tx, sc, 0)), f2, s1)
                        },
                        None => match ro_parts(*inner) {
                            Some((x, o)) => {
                                let (ax, vx, f1, s1) = tile_exp_s(x, fresh, spill);
                                let (px, tx, f2) = into_temp_s(vx, f1);
                                (ax + px, Value::Mem(Mem::RO(tx, o)), f2, s1)
                            },
                            None => {
                                let (ax, vx, f1, s1) = tile_exp_s(*inner, fresh, spill);
                                let (px, tx, f2) = into_temp_s(vx, f1);
                                (ax + px, Value::Mem(Mem::R(tx)), f2, s1)
                            },
                        },
                    },
                },
            },
        },
        Exp::Binop(l, op, r) => {
            if op == Binop::Sub && *l == Exp::Const(0) {
                let (ar, vr, f1, s1) = tile_exp_s(*r, fresh, spill);
                let (pre, v, f2) = combine_unop_s(vr, Unop::Neg, f1);
                (ar + pre, v, f2, s1)
            } else if op == Binop::Add && *r == Exp::Const(1) {
                let (al, vl, f1, s1) = tile_exp_s(*l, fresh, spill);
                let (pre, v, f2) = combine_unop_s(vl, Unop::Inc, f1);
                (al + pre, v, f2, s1)
            } else if op == Binop::Add && *l == Exp::Const(1) {
                let (ar, vr, f1, s1) = tile_exp_s(*r, fresh, spill);
                let (pre, v, f2) = combine_unop_s(vr, Unop::Inc, f1);
                (ar + pre, v, f2, s1)
            } else if op == Binop::Sub && *r == Exp::Const(1) {
                let (al, vl, f1, s1) = tile_exp_s(*l, fresh, spill);
                let (pre, v, f2) = combine_unop_s(vl, Unop::Dec, f1);
                (al + pre, v, f2, s1)
            } else if op != Binop::Mul && op != Binop::Div {
                let (al, vl, f1, s1) = tile_exp_s(*l, fresh, spill);
                let (ar, vr, f2, s2) = tile_exp_s(*r, f1, s1);
                let (pre, bin, f3) = combine_binary_s(vl, vr, f2);
                (al + ar + pre + seq![Asm::Bin(spec_code_binop(op), bin)], spec_dest(bin), f3, s2)
            } else {
                let (al, vl, f1, s1) = tile_exp_s(*l, fresh, spill);
                let (ar, vr, f2, s2) = tile_exp_s(*r, f1, s1);
                let (emit, v, f3) = combine_muldiv_s(vl, vr, op, f2);
                (al + ar + emit, v, f3, s2)
            }
        },
        Exp::Call(f, args) => {
            let ret = Temp::Fresh(fresh);
            let f0 = gen_bump(fresh);
            let (aargs, f1, s1, off) = tile_args_s(args@, 0, f0, spill, 0);
            let label = match *f {
                Exp::Name(l) => l,
                _ => Label::Fresh(0),
            };
            let s2 = if s1 >= off {
                s1
            } else {
                off
            };
            (
                aargs + seq![
                    Asm::Call(label),
                    Asm::Mov(Binary::RR(Temp::Reg(Reg::RAX), ret)),
                ],
                Value::Reg(ret),
                f1,
                s2,
            )
        },
    }
}

/// Tiling of call arguments from position `i` on: the first six into
/// the argument registers, the rest onto the stack above `RSP`.
pub open spec fn tile_args_s(args: Seq<Exp>, i: int, fresh: u64, spill: nat, off: nat) -> (
    Seq<Asm>,
    u64,
    nat,
    nat,
)
    decreases exps_size(args, i), 1nat,
    via tile_args_s_dec
{
    if i < 0 || i >= args.len() {
        (Seq::empty(), fresh, spill, off)
    } else {
        let (ae, v, f1, s1) = tile_exp_s(args[i], fresh, spill);
        let (pre, mov, f2, off2): (Seq<Asm>, Binary, u64, nat) = if i < 6 {
            match v {
                Value::Mem(m) => (
                    Seq::empty(),
                    Binary::MR(m, Temp::Reg(spec_argument(i))),
                    f1,
                    off,
                ),
                a => {
                    let (p, t, f) = into_temp_s(a, f1);
                    (p, Binary::RR(t, Temp::Reg(spec_argument(i))), f, off)
                },
            }
        } else {
            let (p, t, f) = into_temp_s(v, f1);
            (
                p,
                Binary::RM(
                    t,
                    Mem::RO(Temp::Reg(Reg::RSP), (((off + 1) * (WORD_SIZE as nat)) as i32)),
                ),
                f,
                off + 1,
            )
        };
        let (rest, f3, s3, off3) = tile_args_s(args, i + 1, f2, s1, off2);
        (ae + pre + seq![Asm::Mov(mov)] + rest, f3, s3, off3)
    }
}

#[via_fn]
proof fn tile_exp_s_dec(e: Exp, fresh: u64, spill: nat) {
    match e {
        Exp::Mem(inner) => {
            lemma_brso_size(*inner);
            lemma_rso_size(*inner);
            lemma_ro_size(*inner);
        },
        _ => {},
    }
}

#[via_fn]
proof fn tile_args_s_dec(args: Seq<Exp>, i: int, fresh: u64, spill: nat, off: nat) {
}

/// Tiling of one canonical statement.
pub open spec fn tile_stm_s(s: Stm, fresh: u64, spill: nat) -> (Seq<Asm>, u64, nat) {
    match s {
        Stm::Label(l) => (seq![Asm::Label(l)], fresh, spill),
        Stm::Comment(c) => (seq![Asm::Comment(c)], fresh, spill),
        Stm::Jump(e, _) => match e {
            Exp::Name(l) => (seq![Asm::Jmp(l)], fresh, spill),
            _ => (Seq::empty(), fresh, spill),
        },
        Stm::Move(l, r) => {
            let (al, vl, f1, s1) = tile_exp_s(l, fresh, spill);
            let (ar, vr, f2, s2) = tile_exp_s(r, f1, s1);
            let (pre, bin, f3) = combine_binary_s(vl, vr, f2);
            (al + ar + pre + seq![Asm::Mov(bin)], f3, s2)
        },
        Stm::CJump(l, op, r, t, _f) => {
            let (al, vl, f1, s1) = tile_exp_s(l, fresh, spill);
            let (ar, vr, f2, s2) = tile_exp_s(r, f1, s1);
            let (pre, bin, f3) = combine_binary_s(vl, vr, f2);
            (al + ar + pre + seq![Asm::Cmp(bin), Asm::Jcc(spec_cc(op), t)], f3, s2)
        },
        Stm::Exp(_) => (Seq::empty(), fresh, spill),
        Stm::Seqs(_) => (Seq::empty(), fresh, spill),
    }
}

/// Tiling of a statement list from position `i` on.
pub open spec fn tile_stms_s(body: Seq<Stm>, i: int, fresh: u64, spill: nat) -> (Seq<Asm>, u64, nat)
    decreases body.len() - i,
{
    if i < 0 || i >= body.len() {
        (Seq::empty(), fresh, spill)
    } else {
        let (a1, f1, s1) = tile_stm_s(body[i], fresh, spill);
        let (rest, f2, s2) = tile_stms_s(body, i + 1, f1, s1);
        (a1 + rest, f2, s2)
    }
}

/// The fixed prologue: save the frame pointer, take the stack frame
/// (a placeholder until the frame size is known), save the callee-saved
/// registers into fresh temporaries.
pub open spec fn prologue_s(f: u64) -> Seq<Asm> {
    seq![
        Asm::Push(Unary::R(Temp::Reg(Reg::RBP))),
        Asm::Mov(Binary::RR(Temp::Reg(Reg::RSP), Temp::Reg(Reg::RBP))),
        Asm::Comment(SYM_FRAME_SUB),
        Asm::Mov(Binary::RR(Temp::Reg(Reg::RBX), Temp::Fresh(f))),
        Asm::Mov(Binary::RR(Temp::Reg(Reg::R12), Temp::Fresh(gen_bump(f)))),
        Asm::Mov(Binary::RR(Temp::Reg(Reg::R13), Temp::Fresh(gen_bump(gen_bump(f))))),
        Asm::Mov(Binary::RR(Temp::Reg(Reg::R14), Temp::Fresh(gen_bump(gen_bump(gen_bump(f)))))),
        Asm::Mov(
            Binary::RR(
                Temp::Reg(Reg::R15),
                Temp::Fresh(gen_bump(gen_bump(gen_bump(gen_bump(f))))),
            ),
        ),
    ]
}

/// The fixed epilogue, the prologue in reverse: restore the
/// callee-saved registers, release the frame, restore the stack and
/// frame pointers, return.
pub open spec fn epilogue_s(f: u64) -> Seq<Asm> {
    seq![
        Asm::Mov(Binary::RR(Temp::Fresh(f), Temp::Reg(Reg::RBX))),
        Asm::Mov(Binary::RR(Temp::Fresh(gen_bump(f)), Temp::Reg(Reg::R12))),
        Asm::Mov(Binary::RR(Temp::Fresh(gen_bump(gen_bump(f))), Temp::Reg(Reg::R13))),
        Asm::Mov(Binary::RR(Temp::Fresh(gen_bump(gen_bump(gen_bump(f)))), Temp::Reg(Reg::R14))),
        Asm::Mov(
            Binary::RR(
                Temp::Fresh(gen_bump(gen_bump(gen_bump(gen_bump(f))))),
                Temp::Reg(Reg::R15),
            ),
        ),
        Asm::Comment(SYM_FRAME_ADD),
        Asm::Mov(Binary::RR(Temp::Reg(Reg::RBP), Temp::Reg(Reg::RSP))),
        Asm::Pop(Unary::R(Temp::Reg(Reg::RBP))),
        Asm::Ret,
    ]
}

/// Tiling of a whole unit: the body between the fixed prologue and
/// epilogue, whose callee-saved temporaries are drawn after the body's.
pub open spec fn tile_s(u: Unit) -> Seq<Asm> {
    let (body, f1, _s1) = tile_stms_s(u.body@, 0, u.fresh, 0);
    prologue_s(f1) + body + epilogue_s(f1)
}

struct Tiler {
    text: Vec<Asm>,
    spilled_args: usize,
    fresh: u64,
}

impl Tiler {
    fn fresh_temp(&mut self) -> (r: Temp)
        ensures
            r == Temp::Fresh(old(self).fresh),
            final(self).fresh == gen_bump(old(self).fresh),
            final(self).text@ == old(self).text@,
            final(self).spilled_args == old(self).spilled_args,
    {
        let t = Temp::Fresh(self.fresh);
        if self.fresh < u64::MAX {
            self.fresh = self.fresh + 1;
        }
        t
    }

    fn into_temp(&mut self, v: Value) -> (r: Temp)
        requires
            !(v matches Value::Label(_)),
        ensures
            ({
                let (emit, t, f) = into_temp_s(v, old(self).fresh);
                &&& final(self).text@ == old(self).text@ + emit
                &&& r == t
                &&& final(self).fresh == f
                &&& final(self).spilled_args == old(self).spilled_args
            }),
    {
        match v {
            Value::Reg(t) => {
                assert(final(self).text@ =~= old(self).text@ + Seq::<Asm>::empty());
                t
            },
            Value::Mem(m) => {
                let t = self.fresh_temp();
                self.text.push(Asm::Mov(Binary::MR(m, t)));
                assert(self.text@ =~= old(self).text@ + into_temp_s(v, old(self).fresh).0);
                t
            },
            Value::Imm(i) => {
                let t = self.fresh_temp();
                self.text.push(Asm::Mov(Binary::IR(i, t)));
                assert(self.text@ =~= old(self).text@ + into_temp_s(v, old(self).fresh).0);
                t
            },
            Value::Label(_) => vstd::pervasive::unreached(),
        }
    }

    fn combine_binary(&mut self, lv: Value, rv: Value) -> (r: Binary)
        requires
            !(lv matches Value::Label(_)),
            !(rv matches Value::Label(_)),
        ensures
            ({
                let (emit, bin, f) = combine_binary_s(lv, rv, old(self).fresh);
                &&& final(self).text@ == old(self).text@ + emit
                &&& r == bin
                &&& final(self).fresh == f
                &&& final(self).spilled_args == old(self).spilled_args
            }),
    {
        match (lv, rv) {
            (Value::Imm(i), Value::Reg(t)) => {
                assert(final(self).text@ =~= old(self).text@ + Seq::<Asm>::empty());
                Binary::IR(i, t)
            },
            (Value::Imm(i), Value::Mem(m)) => {
                assert(final(self).text@ =~= old(self).text@ + Seq::<Asm>::empty());
                Binary::IM(i, m)
            },
            (Value::Mem(m), Value::Reg(t)) => {
                assert(final(self).text@ =~= old(self).text@ + Seq::<Asm>::empty());
                Binary::MR(m, t)
            },
            (a, Value::Mem(m)) => {
                let t = self.into_temp(a);
                Binary::RM(t, m)
            },
            (a, b) => {
                let ta = self.into_temp(a);
                let tb = self.into_temp(b);
                proof {
                    let (p1, _ta, f1) = into_temp_s(a, old(self).fresh);
                    let (p2, _tb, _f2) = into_temp_s(b, f1);
                    assert(self.text@ =~= old(self).text@ + (p1 + p2));
                }
                Binary::RR(ta, tb)
            },
        }
    }

    fn combine_unop(&mut self, v: Value, u: Unop) -> (r: Value)
        requires
            !(v matches Value::Label(_)),
        ensures
            ({
                let (emit, val, f) = combine_unop_s(v, u, old(self).fresh);
                &&& final(self).text@ == old(self).text@ + emit
                &&& r == val
                &&& final(self).fresh == f
                &&& final(self).spilled_args == old(self).spilled_args
                &&& !(r matches Value::Label(_))
            }),
    {
        match v {
            Value::Mem(m) => {
                self.text.push(Asm::Un(u, Unary::M(m)));
                assert(self.text@ =~= old(self).text@ + seq![Asm::Un(u, Unary::M(m))]);
                Value::Mem(m)
            },
            a => {
                let t = self.into_temp(a);
                self.text.push(Asm::Un(u, Unary::R(t)));
                proof {
                    let (pre, _t, _f) = into_temp_s(a, old(self).fresh);
                    assert(self.text@ =~= old(self).text@ + (pre + seq![Asm::Un(u, Unary::R(t))]));
                }
                Value::Reg(t)
            },
        }
    }

    fn combine_muldiv(&mut self, lv: Value, rv: Value, op: Binop) -> (r: Value)
        requires
            !(lv matches Value::Label(_)),
            !(rv matches Value::Label(_)),
        ensures
            ({
                let (emit, val, f) = combine_muldiv_s(lv, rv, op, old(self).fresh);
                &&& final(self).text@ == old(self).text@ + emit
                &&& r == val
                &&& final(self).fresh == f
                &&& final(self).spilled_args == old(self).spilled_args
                &&& !(r matches Value::Label(_))
            }),
    {
        let rax = Temp::Reg(Reg::RAX);
        let res = self.fresh_temp();
        let movl: Binary = match lv {
            Value::Imm(i) => Binary::IR(i, rax),
            Value::Mem(m) => Binary::MR(m, rax),
            a => {
                let t = self.into_temp(a);
                Binary::RR(t, rax)
            },
        };
        let user: Unary = match rv {
            Value::Mem(m) => Unary::M(m),
            a => {
                let t = self.into_temp(a);
                Unary::R(t)
            },
        };
        self.text.push(Asm::Mov(movl));
        if matches!(op, Binop::Div) {
            self.text.push(Asm::Cqo);
            self.text.push(Asm::Div(user));
        } else {
            self.text.push(Asm::Mul(user));
        }
        self.text.push(Asm::Mov(Binary::RR(rax, res)));
        proof {
            let (emit, _val, _f) = combine_muldiv_s(lv, rv, op, old(self).fresh);
            assert(self.text@ =~= old(self).text@ + emit);
        }
        Value::Reg(res)
    }

    #[verifier::rlimit(100)]
    fn tile_exp(&mut self, e: &Exp) -> (r: Value)
        requires
            canon_exp(*e),
        ensures
            ({
                let (emit, val, f, sp) = tile_exp_s(*e, old(self).fresh, old(
                    self,
                ).spilled_args as nat);
                &&& final(self).text@ == old(self).text@ + emit
                &&& r == val
                &&& final(self).fresh == f
                &&& final(self).spilled_args as nat == sp
                &&& !(r matches Value::Label(_))
            }),
        decreases exp_size(*e), 0nat,
    {
        match e {
            Exp::Const(n) => {
                assert(final(self).text@ =~= old(self).text@ + Seq::<Asm>::empty());
                Value::Imm(Imm(*n))
            },
            Exp::Temp(t) => {
                assert(final(self).text@ =~= old(self).text@ + Seq::<Asm>::empty());
                Value::Reg(*t)
            },
            Exp::Name(_) => vstd::pervasive::unreached(),
            Exp::ESeq(_, _) => vstd::pervasive::unreached(),
            Exp::Mem(inner) => {
                proof {
                    lemma_brso_size(**inner);
                    lemma_rso_size(**inner);
                    lemma_ro_size(**inner);
                    lemma_brso_canon(**inner);
                    lemma_rso_canon(**inner);
                    lemma_ro_canon(**inner);
                }
                match match_brso(inner) {
                    Some((b, x, sc, o)) => {
                        let vb = self.tile_exp(b);
                        let vx = self.tile_exp(x);
                        let tb = self.into_temp(vb);
                        let tx = self.into_temp(vx);
                        proof {
                            let s0 = old(self).spilled_args as nat;
                            let (ab, _vb, f1, s1) = tile_exp_s(*b, old(self).fresh, s0);
                            let (ax, _vx, f2, _s2) = tile_exp_s(*x, f1, s1);
                            let (pb, _tb, f3) = into_temp_s(_vb, f2);
                            let (px, _tx, _f4) = into_temp_s(_vx, f3);
                            assert(self.text@ =~= old(self).text@ + (ab + ax + pb + px));
                        }
                        Value::Mem(Mem::BRSO(tb, tx, sc, o))
                    },
                    None => match match_rso(inner) {
                        Some((x, sc, o)) => {
                            let vx = self.tile_exp(x);
                            let tx = self.into_temp(vx);
                            proof {
                                let s0 = old(self).spilled_args as nat;
                                let (ax, _vx, f1, _s1) = tile_exp_s(*x, old(self).fresh, s0);
                                let (px, _tx, _f2) = into_temp_s(_vx, f1);
                                assert(self.text@ =~= old(self).text@ + (ax + px));
                            }
                            Value::Mem(Mem::RSO(tx, sc, o))
                        },
                        None => match match_brso_noff(inner) {
                            Some((b, x, sc)) => {
                                let vb = self.tile_exp(b);
                                let vx = self.tile_exp(x);
                                let tb = self.into_temp(vb);
                                let tx = self.into_temp(vx);
                                proof {
                                    let s0 = old(self).spilled_args as nat;
                                    let (ab, _vb, f1, s1) = tile_exp_s(*b, old(self).fresh, s0);
                                    let (ax, _vx, f2, _s2) = tile_exp_s(*x, f1, s1);
                                    let (pb, _tb, f3) = into_temp_s(_vb, f2);
                                    let (px, _tx, _f4) = into_temp_s(_vx, f3);
                                    assert(self.text@ =~= old(self).text@ + (ab + ax + pb + px));
                                }
                                Value::Mem(Mem::BRSO(tb, tx, sc, 0))
                            },
                            None => match match_rso_noff(inner) {
                                Some((x, sc)) => {
                                    let vx = self.tile_exp(x);
                                    let tx = self.into_temp(vx);
                                    proof {
                                        let s0 = old(self).spilled_args as nat;
                                        let (ax, _vx, f1, _s1) = tile_exp_s(
                                            *x,
                                            old(self).fresh,
                                            s0,
                                        );
                                        let (px, _tx, _f2) = into_temp_s(_vx, f1);
                                        assert(self.text@ =~= old(self).text@ + (ax + px));
                                    }
                                    Value::Mem(Mem::RSO(tx, sc, 0))
                                },
                                None => match match_ro(inner) {
                                    Some((x, o)) => {
                                        let vx = self.tile_exp(x);
                                        let tx = self.into_temp(vx);
                                        proof {
                                            let s0 = old(self).spilled_args as nat;
                                            let (ax, _vx, f1, _s1) = tile_exp_s(
                                                *x,
                                                old(self).fresh,
                                                s0,
                                            );
                                            let (px, _tx, _f2) = into_temp_s(_vx, f1);
                                            assert(self.text@ =~= old(self).text@ + (ax + px));
                                        }
                                        Value::Mem(Mem::RO(tx, o))
                                    },
                                    None => {
                                        let vx = self.tile_exp(inner);
                                        let tx = self.into_temp(vx);
                                        proof {
                                            let s0 = old(self).spilled_args as nat;
                                            let (ax, _vx, f1, _s1) = tile_exp_s(
                                                **inner,
                                                old(self).fresh,
                                                s0,
                                            );
                                            let (px, _tx, _f2) = into_temp_s(_vx, f1);
                                            assert(self.text@ =~= old(self).text@ + (ax + px));
                                        }
                                        Value::Mem(Mem::R(tx))
                                    },
                                },
                            },
                        },
                    },
                }
            },
            Exp::Binop(l, op, r) => {
                let neg = matches!(op, Binop::Sub) && matches!(&**l, Exp::Const(0));
                let inc_l = matches!(op, Binop::Add) && matches!(&**r, Exp::Const(1));
                let inc_r = !inc_l && matches!(op, Binop::Add) && matches!(&**l, Exp::Const(1));
                let dec_l = matches!(op, Binop::Sub) && matches!(&**r, Exp::Const(1));
                if neg {
                    let vr = self.tile_exp(r);
                    let v = self.combine_unop(vr, Unop::Neg);
                    proof {
                        let s0 = old(self).spilled_args as nat;
                        let (ar, _vr, f1, _s1) = tile_exp_s(**r, old(self).fresh, s0);
                        let (pre, _v, _f2) = combine_unop_s(_vr, Unop::Neg, f1);
                        assert(self.text@ =~= old(self).text@ + (ar + pre));
                    }
                    v
                } else if inc_l {
                    let vl = self.tile_exp(l);
                    let v = self.combine_unop(vl, Unop::Inc);
                    proof {
                        let s0 = old(self).spilled_args as nat;
                        let (al, _vl, f1, _s1) = tile_exp_s(**l, old(self).fresh, s0);
                        let (pre, _v, _f2) = combine_unop_s(_vl, Unop::Inc, f1);
                        assert(self.text@ =~= old(self).text@ + (al + pre));
                    }
                    v
                } else if inc_r {
                    let vr = self.tile_exp(r);
                    let v = self.combine_unop(vr, Unop::Inc);
                    proof {
                        let s0 = old(self).spilled_args as nat;
                        let (ar, _vr, f1, _s1) = tile_exp_s(**r, old(self).fresh, s0);
                        let (pre, _v, _f2) = combine_unop_s(_vr, Unop::Inc, f1);
                        assert(self.text@ =~= old(self).text@ + (ar + pre));
                    }
                    v
                } else if dec_l {
                    let vl = self.tile_exp(l);
                    let v = self.combine_unop(vl, Unop::Dec);
                    proof {
                        let s0 = old(self).spilled_args as nat;
                        let (al, _vl, f1, _s1) = tile_exp_s(**l, old(self).fresh, s0);
                        let (pre, _v, _f2) = combine_unop_s(_vl, Unop::Dec, f1);
                        assert(self.text@ =~= old(self).text@ + (al + pre));
                    }
                    v
                } else if !matches!(op, Binop::Mul) && !matches!(op, Binop::Div) {
                    let vl = self.tile_exp(l);
                    let vr = self.tile_exp(r);
                    let bin = self.combine_binary(vl, vr);
                    self.text.push(Asm::Bin(op.into_code_binop(), bin));
                    proof {
                        let s0 = old(self).spilled_args as nat;
                        let (al, _vl, f1, s1) = tile_exp_s(**l, old(self).fresh, s0);
                        let (ar, _vr, f2, _s2) = tile_exp_s(**r, f1, s1);
                        let (pre, _bin, _f3) = combine_binary_s(_vl, _vr, f2);
                        assert(self.text@ =~= old(self).text@ + (al + ar + pre + seq![
                            Asm::Bin(spec_code_binop(*op), _bin),
                        ]));
                    }
                    bin.dest()
                } else {
                    let vl = self.tile_exp(l);
                    let vr = self.tile_exp(r);
                    let v = self.combine_muldiv(vl, vr, *op);
                    proof {
                        let s0 = old(self).spilled_args as nat;
                        let (al, _vl, f1, s1) = tile_exp_s(**l, old(self).fresh, s0);
                        let (ar, _vr, f2, _s2) = tile_exp_s(**r, f1, s1);
                        let (emit, _v, _f3) = combine_muldiv_s(_vl, _vr, *op, f2);
                        assert(self.text@ =~= old(self).text@ + (al + ar + emit));
                    }
                    v
                }
            },
            Exp::Call(f, args) => {
                let ret = self.fresh_temp();
                let off = self.tile_args(args, 0, 0);
                let label = match &**f {
                    Exp::Name(l) => *l,
                    _ => vstd::pervasive::unreached(),
                };
                if self.spilled_args < off {
                    self.spilled_args = off;
                }
                self.text.push(Asm::Call(label));
                self.text.push(Asm::Mov(Binary::RR(Temp::Reg(Reg::RAX), ret)));
                proof {
                    let s0 = old(self).spilled_args as nat;
                    let f0 = gen_bump(old(self).fresh);
                    let (aargs, _f1, _s1, _off) = tile_args_s(args@, 0, f0, s0, 0);
                    assert(self.text@ =~= old(self).text@ + (aargs + seq![
                        Asm::Call(label),
                        Asm::Mov(Binary::RR(Temp::Reg(Reg::RAX), ret)),
                    ]));
                }
                Value::Reg(ret)
            },
        }
    }

    #[verifier::rlimit(100)]
    fn tile_args(&mut self, args: &Vec<Exp>, i: usize, off: usize) -> (r: usize)
        requires
            canon_exps(args@, i as int),
            args@.len() <= MAX_CALL_ARGS,
            off <= i,
            i <= args@.len(),
        ensures
            ({
                let (emit, f, sp, off2) = tile_args_s(args@, i as int, old(self).fresh, old(
                    self,
                ).spilled_args as nat, off as nat);
                &&& final(self).text@ == old(self).text@ + emit
                &&& final(self).fresh == f
                &&& final(self).spilled_args as nat == sp
                &&& r as nat == off2
                &&& r <= args@.len()
            }),
        decreases exps_size(args@, i as int), 1nat,
    {
        if i >= args.len() {
            assert(final(self).text@ =~= old(self).text@ + Seq::<Asm>::empty());
            off
        } else {
            let v = self.tile_exp(&args[i]);
            let ghost s0 = old(self).spilled_args as nat;
            let ghost lo = tile_exp_s(args@[i as int], old(self).fresh, s0);
            let (mov, off2): (Binary, usize) = if i < 6 {
                match v {
                    Value::Mem(m) => (Binary::MR(m, Temp::Reg(Reg::get_argument(i))), off),
                    a => {
                        let t = self.into_temp(a);
                        (Binary::RR(t, Temp::Reg(Reg::get_argument(i))), off)
                    },
                }
            } else {
                let t = self.into_temp(v);
                assert(off + 1 <= args@.len());
                (
                    Binary::RM(
                        t,
                        Mem::RO(Temp::Reg(Reg::RSP), ((off + 1) as i32) * WORD_SIZE),
                    ),
                    off + 1,
                )
            };
            self.text.push(Asm::Mov(mov));
            let r = self.tile_args(args, i + 1, off2);
            proof {
                let (ae, _v, f1, s1) = lo;
                let (pre, _mov, f2, _o2) = if i < 6 {
                    match _v {
                        Value::Mem(m) => (
                            Seq::<Asm>::empty(),
                            Binary::MR(m, Temp::Reg(spec_argument(i as int))),
                            f1,
                            off as nat,
                        ),
                        a => {
                            let (p, t, f) = into_temp_s(a, f1);
                            (p, Binary::RR(t, Temp::Reg(spec_argument(i as int))), f, off as nat)
                        },
                    }
                } else {
                    let (p, t, f) = into_temp_s(_v, f1);
                    (
                        p,
                        Binary::RM(
                            t,
                            Mem::RO(
                                Temp::Reg(Reg::RSP),
                                ((((off as nat) + 1) * (WORD_SIZE as nat)) as i32),
                            ),
                        ),
                        f,
                        off as nat + 1,
                    )
                };
                let (rest, _f3, _s3, _o3) = tile_args_s(args@, i as int + 1, f2, s1, _o2);
                assert(self.text@ =~= old(self).text@ + (ae + pre + seq![Asm::Mov(_mov)] + rest));
            }
            r
        }
    }

    fn tile_stm(&mut self, s: &Stm)
        requires
            canon_stm(*s),
        ensures
            ({
                let (emit, f, sp) = tile_stm_s(*s, old(self).fresh, old(self).spilled_args as nat);
                &&& final(self).text@ == old(self).text@ + emit
                &&& final(self).fresh == f
                &&& final(self).spilled_args as nat == sp
            }),
    {
        match s {
            Stm::Label(l) => {
                self.text.push(Asm::Label(*l));
                assert(self.text@ =~= old(self).text@ + seq![Asm::Label(*l)]);
            },
            Stm::Comment(c) => {
                self.text.push(Asm::Comment(*c));
                assert(self.text@ =~= old(self).text@ + seq![Asm::Comment(*c)]);
            },
            Stm::Jump(e, _) => match e {
                Exp::Name(l) => {
                    self.text.push(Asm::Jmp(*l));
                    assert(self.text@ =~= old(self).text@ + seq![Asm::Jmp(*l)]);
                },
                _ => vstd::pervasive::unreached(),
            },
            Stm::Move(l, r) => {
                let vl = self.tile_exp(l);
                let vr = self.tile_exp(r);
                let bin = self.combine_binary(vl, vr);
                self.text.push(Asm::Mov(bin));
                proof {
                    let s0 = old(self).spilled_args as nat;
                    let (al, _vl, f1, s1) = tile_exp_s(*l, old(self).fresh, s0);
                    let (ar, _vr, f2, _s2) = tile_exp_s(*r, f1, s1);
                    let (pre, _bin, _f3) = combine_binary_s(_vl, _vr, f2);
                    assert(self.text@ =~= old(self).text@ + (al + ar + pre + seq![
                        Asm::Mov(_bin),
                    ]));
                }
            },
            Stm::CJump(l, op, r, t, _f) => {
                let vl = self.tile_exp(l);
                let vr = self.tile_exp(r);
                let bin = self.combine_binary(vl, vr);
                self.text.push(Asm::Cmp(bin));
                self.text.push(Asm::Jcc(op.into_cc(), *t));
                proof {
                    let s0 = old(self).spilled_args as nat;
                    let (al, _vl, f1, s1) = tile_exp_s(*l, old(self).fresh, s0);
                    let (ar, _vr, f2, _s2) = tile_exp_s(*r, f1, s1);
                    let (pre, _bin, _f3) = combine_binary_s(_vl, _vr, f2);
                    assert(self.text@ =~= old(self).text@ + (al + ar + pre + seq![
                        Asm::Cmp(_bin),
                        Asm::Jcc(spec_cc(*op), *t),
                    ]));
                }
            },
            Stm::Exp(_) => vstd::pervasive::unreached(),
            Stm::Seqs(_) => vstd::pervasive::unreached(),
        }
    }

    fn tile_stms(&mut self, body: &Vec<Stm>, i: usize)
        requires
            canon_stms(body@, i as int),
        ensures
            ({
                let (emit, f, sp) = tile_stms_s(body@, i as int, old(self).fresh, old(
                    self,
                ).spilled_args as nat);
                &&& final(self).text@ == old(self).text@ + emit
                &&& final(self).fresh == f
                &&& final(self).spilled_args as nat == sp
            }),
        decreases body@.len() - i,
    {
        if i >= body.len() {
            assert(final(self).text@ =~= old(self).text@ + Seq::<Asm>::empty());
        } else {
            self.tile_stm(&body[i]);
            let ghost s0 = old(self).spilled_args as nat;
            self.tile_stms(body, i + 1);
            proof {
                let (a1, f1, s1) = tile_stm_s(body@[i as int], old(self).fresh, s0);
                let (rest, _f2, _s2) = tile_stms_s(body@, i as int + 1, f1, s1);
                assert(self.text@ =~= old(self).text@ + (a1 + rest));
            }
        }
    }
}

/// Tile one canonical unit into instructions between the fixed
/// prologue and epilogue.
#[verifier::rlimit(100)]
pub fn tile(u: Unit) -> (r: code::Unit)
    requires
        canonical(u),
    ensures
        r.text@ == tile_s(u),
{
    let mut tiler = Tiler { text: Vec::new(), spilled_args: 0, fresh: u.fresh };
    tiler.tile_stms(&u.body, 0);
    let rbx = tiler.fresh_temp();
    let r12 = tiler.fresh_temp();
    let r13 = tiler.fresh_temp();
    let r14 = tiler.fresh_temp();
    let r15 = tiler.fresh_temp();
    let mut out: Vec<Asm> = Vec::new();
    out.push(Asm::Push(Unary::R(Temp::Reg(Reg::RBP))));
    out.push(Asm::Mov(Binary::RR(Temp::Reg(Reg::RSP), Temp::Reg(Reg::RBP))));
    out.push(Asm::Comment(SYM_FRAME_SUB));
    out.push(Asm::Mov(Binary::RR(Temp::Reg(Reg::RBX), rbx)));
    out.push(Asm::Mov(Binary::RR(Temp::Reg(Reg::R12), r12)));
    out.push(Asm::Mov(Binary::RR(Temp::Reg(Reg::R13), r13)));
    out.push(Asm::Mov(Binary::RR(Temp::Reg(Reg::R14), r14)));
    out.push(Asm::Mov(Binary::RR(Temp::Reg(Reg::R15), r15)));
    let Tiler { text: mut body, spilled_args: _, fresh: _ } = tiler;
    out.append(&mut body);
    out.push(Asm::Mov(Binary::RR(rbx, Temp::Reg(Reg::RBX))));
    out.push(Asm::Mov(Binary::RR(r12, Temp::Reg(Reg::R12))));
    out.push(Asm::Mov(Binary::RR(r13, Temp::Reg(Reg::R13))));
    out.push(Asm::Mov(Binary::RR(r14, Temp::Reg(Reg::R14))));
    out.push(Asm::Mov(Binary::RR(r15, Temp::Reg(Reg::R15))));
    out.push(Asm::Comment(SYM_FRAME_ADD));
    out.push(Asm::Mov(Binary::RR(Temp::Reg(Reg::RBP), Temp::Reg(Reg::RSP))));
    out.push(Asm::Pop(Unary::R(Temp::Reg(Reg::RBP))));
    out.push(Asm::Ret);
    assert(out@ =~= tile_s(u));
    code::Unit { text: out }
}

} // verus!
