//! Laws of the type system, stated over the analyzer's specification.

use vstd::prelude::*;
use crate::span::Span;
use crate::ast::Binop;
use crate::error::Type as TypeError;
use crate::ty::{Ty, TyList};
use crate::check::{bin_result, sem};
use crate::operand::{spec_scale, Mem, Reg, Temp, Value};
use crate::code::{spec_dest, Asm, Binary, Unop};
use crate::ir::Exp;
use crate::ir::{exp_defined, exp_refs, labels_wf_exp, labels_wf_stm, stm_defined, stm_refs,
    stms_defined, stms_refs, Relop, Stm};
use crate::operand::Label;
use crate::ir;
use crate::tile::{combine_muldiv_s, combine_unop_s, into_temp_s, tile_exp_s};

verus! {

/// Equality between two record types is well-typed exactly when the two
/// share their declaration identity. The hypothesis is the global
/// freshness of identities: two record types with one identity are one
/// declaration, so their fields agree.
pub proof fn lemma_record_equality_by_identity(
    lf: TyList,
    li: u64,
    rf: TyList,
    ri: u64,
    op: Binop,
    span: Span,
    ctr: u64,
)
    requires
        op == Binop::Eq || op == Binop::Neq,
        li == ri ==> lf == rf,
    ensures
        bin_result(Ty::Rec(Box::new(lf), li), Ty::Rec(Box::new(rf), ri), op, span, ctr) is Ok
            <==> li == ri,
{
}

/// Equality between `nil` and a record type is well-typed, on either
/// side, and the result is `Int`.
pub proof fn lemma_nil_record_equality(f: TyList, id: u64, op: Binop, span: Span, ctr: u64)
    requires
        op == Binop::Eq || op == Binop::Neq,
    ensures
        bin_result(Ty::Nil, Ty::Rec(Box::new(f), id), op, span, ctr) matches Ok((t, _))
            && t.ty == Ty::Int,
        bin_result(Ty::Rec(Box::new(f), id), Ty::Nil, op, span, ctr) matches Ok((t, _))
            && t.ty == Ty::Int,
{
}

/// `nil` compared with `nil` is rejected, whatever the operator.
pub proof fn lemma_nil_nil_rejected(op: Binop, span: Span, ctr: u64)
    ensures
        bin_result(Ty::Nil, Ty::Nil, op, span, ctr) == Err::<(crate::ty::Typed, u64), _>(
            sem(span, TypeError::BinaryMismatch),
        ),
{
}

/// An ordered comparison is well-typed exactly when both operands are
/// `Int` or both are `Str`.
pub proof fn lemma_ordered_comparison(l: Ty, r: Ty, op: Binop, span: Span, ctr: u64)
    requires
        op == Binop::Lt || op == Binop::Le || op == Binop::Gt || op == Binop::Ge,
    ensures
        bin_result(l, r, op, span, ctr) is Ok <==> ((l == Ty::Int && r == Ty::Int) || (l == Ty::Str
            && r == Ty::Str)),
{
}

/// A memory access of the shape `base + index * scale + offset` with a
/// scale the machine supports tiles to one `BRSO` operand, emitting
/// nothing, whatever the counters.
pub proof fn lemma_brso_single_operand(tb: Temp, ti: Temp, s: i32, o: i32, fresh: u64, spill: nat)
    requires
        spec_scale(s) is Some,
    ensures
        ({
            let e = Exp::Mem(
                Box::new(
                    Exp::Binop(
                        Box::new(
                            Exp::Binop(
                                Box::new(Exp::Temp(tb)),
                                ir::Binop::Add,
                                Box::new(
                                    Exp::Binop(
                                        Box::new(Exp::Temp(ti)),
                                        ir::Binop::Mul,
                                        Box::new(Exp::Const(s)),
                                    ),
                                ),
                            ),
                        ),
                        ir::Binop::Add,
                        Box::new(Exp::Const(o)),
                    ),
                ),
            );
            tile_exp_s(e, fresh, spill) == (
                Seq::<Asm>::empty(),
                Value::Mem(Mem::BRSO(tb, ti, spec_scale(s)->Some_0, o)),
                fresh,
                spill,
            )
        }),
{
    let sc = spec_scale(s)->Some_0;
    let mul = Exp::Binop(Box::new(Exp::Temp(ti)), ir::Binop::Mul, Box::new(Exp::Const(s)));
    let bi = Exp::Binop(Box::new(Exp::Temp(tb)), ir::Binop::Add, Box::new(mul));
    let inner = Exp::Binop(Box::new(bi), ir::Binop::Add, Box::new(Exp::Const(o)));
    let e = Exp::Mem(Box::new(inner));
    assert(crate::tile::mul_parts(mul) == Some((Exp::Temp(ti), s)));
    assert(crate::tile::base_index(bi) == Some((Exp::Temp(tb), Exp::Temp(ti), s)));
    assert(crate::tile::brso_parts(inner) == Some((Exp::Temp(tb), Exp::Temp(ti), sc, o)));
    assert(tile_exp_s(Exp::Temp(tb), fresh, spill) == (
        Seq::<Asm>::empty(),
        Value::Reg(tb),
        fresh,
        spill,
    ));
    assert(tile_exp_s(Exp::Temp(ti), fresh, spill) == (
        Seq::<Asm>::empty(),
        Value::Reg(ti),
        fresh,
        spill,
    ));
    assert(into_temp_s(Value::Reg(tb), fresh) == (Seq::<Asm>::empty(), tb, fresh));
    assert(into_temp_s(Value::Reg(ti), fresh) == (Seq::<Asm>::empty(), ti, fresh));
    assert(tile_exp_s(e, fresh, spill).0 =~= Seq::<Asm>::empty());
    assert(tile_exp_s(e, fresh, spill) == (
        Seq::<Asm>::empty(),
        Value::Mem(Mem::BRSO(tb, ti, sc, o)),
        fresh,
        spill,
    ));
}

/// The offsetless shape `base + index * scale` — an array element read,
/// for one — also tiles to one `BRSO` operand with offset zero,
/// emitting nothing.
pub proof fn lemma_brso_offsetless(tb: Temp, ti: Temp, s: i32, fresh: u64, spill: nat)
    requires
        spec_scale(s) is Some,
    ensures
        ({
            let e = Exp::Mem(
                Box::new(
                    Exp::Binop(
                        Box::new(Exp::Temp(tb)),
                        ir::Binop::Add,
                        Box::new(
                            Exp::Binop(
                                Box::new(Exp::Temp(ti)),
                                ir::Binop::Mul,
                                Box::new(Exp::Const(s)),
                            ),
                        ),
                    ),
                ),
            );
            tile_exp_s(e, fresh, spill) == (
                Seq::<Asm>::empty(),
                Value::Mem(Mem::BRSO(tb, ti, spec_scale(s)->Some_0, 0)),
                fresh,
                spill,
            )
        }),
{
    let sc = spec_scale(s)->Some_0;
    let mul = Exp::Binop(Box::new(Exp::Temp(ti)), ir::Binop::Mul, Box::new(Exp::Const(s)));
    let inner = Exp::Binop(Box::new(Exp::Temp(tb)), ir::Binop::Add, Box::new(mul));
    let e = Exp::Mem(Box::new(inner));
    assert(crate::tile::mul_parts(mul) == Some((Exp::Temp(ti), s)));
    assert(crate::tile::mul_parts(inner) is None);
    assert(crate::tile::brso_left(inner) is None);
    assert(crate::tile::brso_parts(inner) is None);
    assert(crate::tile::rso_left(inner) is None);
    assert(crate::tile::rso_parts(inner) is None);
    assert(crate::tile::base_index(inner) == Some((Exp::Temp(tb), Exp::Temp(ti), s)));
    assert(crate::tile::brso_noff(inner) == Some((Exp::Temp(tb), Exp::Temp(ti), sc)));
    assert(tile_exp_s(Exp::Temp(tb), fresh, spill) == (
        Seq::<Asm>::empty(),
        Value::Reg(tb),
        fresh,
        spill,
    ));
    assert(tile_exp_s(Exp::Temp(ti), fresh, spill) == (
        Seq::<Asm>::empty(),
        Value::Reg(ti),
        fresh,
        spill,
    ));
    assert(into_temp_s(Value::Reg(tb), fresh) == (Seq::<Asm>::empty(), tb, fresh));
    assert(into_temp_s(Value::Reg(ti), fresh) == (Seq::<Asm>::empty(), ti, fresh));
    assert(tile_exp_s(e, fresh, spill).0 =~= Seq::<Asm>::empty());
    assert(tile_exp_s(e, fresh, spill) == (
        Seq::<Asm>::empty(),
        Value::Mem(Mem::BRSO(tb, ti, sc, 0)),
        fresh,
        spill,
    ));
}

/// The same shape with a scale the machine does not support falls back
/// to explicit multiplication: the offset still folds into a
/// register-offset operand, and a `mul` is emitted for the index.
pub proof fn lemma_bad_scale_multiplies(tb: Temp, ti: Temp, s: i32, o: i32, fresh: u64, spill: nat)
    requires
        spec_scale(s) is None,
        o != 1,
    ensures
        ({
            let e = Exp::Mem(
                Box::new(
                    Exp::Binop(
                        Box::new(
                            Exp::Binop(
                                Box::new(Exp::Temp(tb)),
                                ir::Binop::Add,
                                Box::new(
                                    Exp::Binop(
                                        Box::new(Exp::Temp(ti)),
                                        ir::Binop::Mul,
                                        Box::new(Exp::Const(s)),
                                    ),
                                ),
                            ),
                        ),
                        ir::Binop::Add,
                        Box::new(Exp::Const(o)),
                    ),
                ),
            );
            let out = tile_exp_s(e, fresh, spill);
            &&& out.1 matches Value::Mem(m) && m matches Mem::RO(_, oo) && oo == o
            &&& exists|k: int| 0 <= k < out.0.len() && (#[trigger] out.0[k]) matches Asm::Mul(_)
        }),
{
    let mul = Exp::Binop(Box::new(Exp::Temp(ti)), ir::Binop::Mul, Box::new(Exp::Const(s)));
    let bi = Exp::Binop(Box::new(Exp::Temp(tb)), ir::Binop::Add, Box::new(mul));
    let inner = Exp::Binop(Box::new(bi), ir::Binop::Add, Box::new(Exp::Const(o)));
    let e = Exp::Mem(Box::new(inner));
    assert(crate::tile::mul_parts(mul) == Some((Exp::Temp(ti), s)));
    assert(crate::tile::mul_parts(bi) is None);
    assert(crate::tile::base_index(bi) == Some((Exp::Temp(tb), Exp::Temp(ti), s)));
    assert(crate::tile::brso_left(inner) is None);
    assert(crate::tile::brso_parts(inner) is None);
    assert(crate::tile::rso_left(inner) is None);
    assert(crate::tile::rso_parts(inner) is None);
    assert(crate::tile::base_index(inner) is None);
    assert(crate::tile::brso_noff(inner) is None);
    assert(crate::tile::rso_noff(inner) is None);
    assert(crate::tile::ro_parts(inner) == Some((bi, o)));
    assert(tile_exp_s(Exp::Temp(tb), fresh, spill) == (
        Seq::<Asm>::empty(),
        Value::Reg(tb),
        fresh,
        spill,
    ));
    assert(tile_exp_s(Exp::Temp(ti), fresh, spill) == (
        Seq::<Asm>::empty(),
        Value::Reg(ti),
        fresh,
        spill,
    ));
    assert(tile_exp_s(Exp::Const(s), fresh, spill) == (
        Seq::<Asm>::empty(),
        Value::Imm(crate::operand::Imm(s)),
        fresh,
        spill,
    ));
    let mo = tile_exp_s(mul, fresh, spill);
    assert(mo.0.len() == 4 && (mo.0[2] matches Asm::Mul(_)) && (mo.1 matches Value::Reg(_)));
    let bo = tile_exp_s(bi, fresh, spill);
    assert(bo.0 =~= Seq::<Asm>::empty() + mo.0 + Seq::<Asm>::empty() + seq![bo.0.last()]);
    assert(bo.0.len() == 5 && (bo.0[2] matches Asm::Mul(_)) && (bo.1 matches Value::Reg(_)));
    let out = tile_exp_s(e, fresh, spill);
    assert(out.0 =~= bo.0 + Seq::<Asm>::empty());
    assert(out.0[2] matches Asm::Mul(_));
    assert(out.1 matches Value::Mem(m) && m matches Mem::RO(_, oo) && oo == o);
}

/// `0 - e` tiles to `neg`, never to a two-operand subtraction: the
/// emitted instructions are those of `e` followed by the `neg` form,
/// whose last instruction is the `neg` itself.
pub proof fn lemma_neg_idiom(e: Exp, fresh: u64, spill: nat)
    ensures
        ({
            let sub = tile_exp_s(e, fresh, spill);
            let un = combine_unop_s(sub.1, Unop::Neg, sub.2);
            let out = tile_exp_s(
                Exp::Binop(Box::new(Exp::Const(0)), ir::Binop::Sub, Box::new(e)),
                fresh,
                spill,
            );
            &&& out.0 == sub.0 + un.0
            &&& out.1 == un.1
            &&& out.0.len() > sub.0.len()
            &&& out.0.last() matches Asm::Un(u, _) && u == Unop::Neg
        }),
{

    let sub = tile_exp_s(e, fresh, spill);
    let un = combine_unop_s(sub.1, Unop::Neg, sub.2);
    assert(un.0.len() >= 1 && (un.0.last() matches Asm::Un(u, _) && u == Unop::Neg));
    assert((sub.0 + un.0).last() == un.0.last());
}

/// `e + 1` and `1 + e` tile to `inc`, never to a two-operand addition.
pub proof fn lemma_inc_idiom(e: Exp, fresh: u64, spill: nat)
    ensures
        ({
            let sub = tile_exp_s(e, fresh, spill);
            let un = combine_unop_s(sub.1, Unop::Inc, sub.2);
            let out = tile_exp_s(
                Exp::Binop(Box::new(e), ir::Binop::Add, Box::new(Exp::Const(1))),
                fresh,
                spill,
            );
            &&& out.0 == sub.0 + un.0
            &&& out.1 == un.1
            &&& out.0.last() matches Asm::Un(u, _) && u == Unop::Inc
        }),
        ({
            let sub = tile_exp_s(e, fresh, spill);
            let un = combine_unop_s(sub.1, Unop::Inc, sub.2);
            let out = tile_exp_s(
                Exp::Binop(Box::new(Exp::Const(1)), ir::Binop::Add, Box::new(e)),
                fresh,
                spill,
            );
            &&& out.0 == sub.0 + un.0
            &&& out.1 == un.1
            &&& out.0.last() matches Asm::Un(u, _) && u == Unop::Inc
        }),
{

    let sub = tile_exp_s(e, fresh, spill);
    let un = combine_unop_s(sub.1, Unop::Inc, sub.2);
    assert(un.0.len() >= 1 && (un.0.last() matches Asm::Un(u, _) && u == Unop::Inc));
    assert((sub.0 + un.0).last() == un.0.last());
    if e == Exp::Const(1) {
        assert(tile_exp_s(e, fresh, spill).0 =~= Seq::<Asm>::empty());
    }
}

/// `e - 1` tiles to `dec` whenever the subtraction is not the negation
/// idiom, never to a two-operand subtraction.
pub proof fn lemma_dec_idiom(e: Exp, fresh: u64, spill: nat)
    requires
        e != Exp::Const(0),
    ensures
        ({
            let sub = tile_exp_s(e, fresh, spill);
            let un = combine_unop_s(sub.1, Unop::Dec, sub.2);
            let out = tile_exp_s(
                Exp::Binop(Box::new(e), ir::Binop::Sub, Box::new(Exp::Const(1))),
                fresh,
                spill,
            );
            &&& out.0 == sub.0 + un.0
            &&& out.1 == un.1
            &&& out.0.last() matches Asm::Un(u, _) && u == Unop::Dec
        }),
{

    let sub = tile_exp_s(e, fresh, spill);
    let un = combine_unop_s(sub.1, Unop::Dec, sub.2);
    assert(un.0.len() >= 1 && (un.0.last() matches Asm::Un(u, _) && u == Unop::Dec));
    assert((sub.0 + un.0).last() == un.0.last());
}

/// Division emits exactly the accumulator sequence: a move of the left
/// operand into `RAX`, the sign extension `cqo`, the unary `div`, and a
/// move of `RAX` into a fresh result temporary, which is the value.
pub proof fn lemma_div_accumulator(l: Exp, r: Exp, fresh: u64, spill: nat)
    ensures
        ({
            let lo = tile_exp_s(l, fresh, spill);
            let ro = tile_exp_s(r, lo.2, lo.3);
            let md = combine_muldiv_s(lo.1, ro.1, ir::Binop::Div, ro.2);
            let out = tile_exp_s(
                Exp::Binop(Box::new(l), ir::Binop::Div, Box::new(r)),
                fresh,
                spill,
            );
            let n = out.0.len();
            &&& out.0 == lo.0 + ro.0 + md.0
            &&& out.1 == md.1
            &&& n >= 4
            &&& out.0[n - 4] matches Asm::Mov(b) && spec_dest(b) == Value::Reg(Temp::Reg(Reg::RAX))
            &&& out.0[n - 3] == Asm::Cqo
            &&& out.0[n - 2] matches Asm::Div(_)
            &&& out.0[n - 1] matches Asm::Mov(b2) && b2 matches Binary::RR(src, dst) && src
                == Temp::Reg(Reg::RAX) && out.1 == Value::Reg(dst)
        }),
{

    let lo = tile_exp_s(l, fresh, spill);
    let ro = tile_exp_s(r, lo.2, lo.3);
    let md = combine_muldiv_s(lo.1, ro.1, ir::Binop::Div, ro.2);
    assert(md.0.len() >= 4);
    let whole = lo.0 + ro.0 + md.0;
    let n = whole.len();
    assert(whole[n - 4] == md.0[md.0.len() - 4]);
    assert(whole[n - 3] == md.0[md.0.len() - 3]);
    assert(whole[n - 2] == md.0[md.0.len() - 2]);
    assert(whole[n - 1] == md.0[md.0.len() - 1]);
}


/// One-element target lists contain their label as a set.
proof fn lemma_single_target(j: Stm, l: Label)
    requires
        j matches Stm::Jump(_, ts) && ts@ == seq![l],
    ensures
        j matches Stm::Jump(_, ts2) && ts2@.to_set().contains(l),
{
    match j {
        Stm::Jump(_, ts) => {
            assert(ts@[0] == l);
            assert(ts@.contains(l));
        },
        _ => {},
    }
}

/// The label discipline of a translated `while`: every label the loop
/// defines — its header, its body, and its exit — is referred to by a
/// jump or a conditional jump of the loop itself, so a loop whose guard
/// and body respect the discipline respects it as a whole.
pub proof fn lemma_while_labels(
    guard_exp: Exp,
    body_stm: Stm,
    j1: Stm,
    j2: Stm,
    s: Label,
    t: Label,
    e: Label,
)
    requires
        labels_wf_exp(guard_exp),
        labels_wf_stm(body_stm),
        j1 matches Stm::Jump(je1, ts1) && je1 == Exp::Name(s) && ts1@ == seq![s],
        j2 matches Stm::Jump(je2, ts2) && je2 == Exp::Name(s) && ts2@ == seq![s],
    ensures
        ({
            let v = seq![
                j1,
                Stm::Label(s),
                Stm::CJump(guard_exp, Relop::Eq, Exp::Const(0), e, t),
                Stm::Label(t),
                body_stm,
                j2,
                Stm::Label(e),
            ];
            stms_defined(v, 0).subset_of(stms_refs(v, 0))
        }),
{
    let v = seq![
        j1,
        Stm::Label(s),
        Stm::CJump(guard_exp, Relop::Eq, Exp::Const(0), e, t),
        Stm::Label(t),
        body_stm,
        j2,
        Stm::Label(e),
    ];
    lemma_single_target(j1, s);
    lemma_single_target(j2, s);
    assert(stms_defined(v, 7) =~= Set::<Label>::empty());
    assert(stms_refs(v, 7) =~= Set::<Label>::empty());
    assert forall|k: int| 0 <= k < 7 implies #[trigger] stms_defined(v, k) == stm_defined(
        v[k],
    ).union(stms_defined(v, k + 1)) && stms_refs(v, k) == stm_refs(v[k]).union(
        stms_refs(v, k + 1),
    ) by {}
    assert forall|l: Label| stms_defined(v, 0).contains(l) implies stms_refs(v, 0).contains(
        l,
    ) by {
        if exp_defined(guard_exp).contains(l) {
            assert(exp_refs(guard_exp).contains(l));
        }
        if stm_defined(body_stm).contains(l) {
            assert(stm_refs(body_stm).contains(l));
        }
    }
}

/// The label discipline of a translated `for`: the loop header, body
/// and exit labels are each the target of the loop's own jumps or
/// conditional jump.
pub proof fn lemma_for_labels(
    lo_exp: Exp,
    idx_a: Exp,
    hi_exp: Exp,
    ht: Temp,
    idx_b: Exp,
    idx_c: Exp,
    idx_d: Exp,
    body_stm: Stm,
    j1: Stm,
    j2: Stm,
    s: Label,
    t: Label,
    e: Label,
)
    requires
        labels_wf_exp(lo_exp),
        labels_wf_exp(hi_exp),
        labels_wf_exp(idx_a),
        labels_wf_exp(idx_b),
        labels_wf_exp(idx_c),
        labels_wf_exp(idx_d),
        labels_wf_stm(body_stm),
        j1 matches Stm::Jump(je1, ts1) && je1 == Exp::Name(s) && ts1@ == seq![s],
        j2 matches Stm::Jump(je2, ts2) && je2 == Exp::Name(s) && ts2@ == seq![s],
    ensures
        ({
            let v = seq![
                Stm::Move(lo_exp, idx_a),
                Stm::Move(hi_exp, Exp::Temp(ht)),
                j1,
                Stm::Label(s),
                Stm::CJump(idx_b, Relop::Gt, Exp::Temp(ht), e, t),
                Stm::Label(t),
                body_stm,
                Stm::Move(
                    Exp::Binop(Box::new(idx_c), ir::Binop::Add, Box::new(Exp::Const(1))),
                    idx_d,
                ),
                j2,
                Stm::Label(e),
            ];
            stms_defined(v, 0).subset_of(stms_refs(v, 0))
        }),
{
    let v = seq![
        Stm::Move(lo_exp, idx_a),
        Stm::Move(hi_exp, Exp::Temp(ht)),
        j1,
        Stm::Label(s),
        Stm::CJump(idx_b, Relop::Gt, Exp::Temp(ht), e, t),
        Stm::Label(t),
        body_stm,
        Stm::Move(
            Exp::Binop(Box::new(idx_c), ir::Binop::Add, Box::new(Exp::Const(1))),
            idx_d,
        ),
        j2,
        Stm::Label(e),
    ];
    lemma_single_target(j1, s);
    lemma_single_target(j2, s);
    assert(stms_defined(v, 10) =~= Set::<Label>::empty());
    assert(stms_refs(v, 10) =~= Set::<Label>::empty());
    assert forall|k: int| 0 <= k < 10 implies #[trigger] stms_defined(v, k) == stm_defined(
        v[k],
    ).union(stms_defined(v, k + 1)) && stms_refs(v, k) == stm_refs(v[k]).union(
        stms_refs(v, k + 1),
    ) by {}
    let inc = Exp::Binop(Box::new(idx_c), ir::Binop::Add, Box::new(Exp::Const(1)));
    assert(exp_defined(inc) == exp_defined(idx_c).union(exp_defined(Exp::Const(1))));
    assert(exp_refs(inc) == exp_refs(idx_c).union(exp_refs(Exp::Const(1))));
    assert(exp_defined(Exp::Const(1)) =~= Set::<Label>::empty());
    assert forall|l: Label| stms_defined(v, 0).contains(l) implies stms_refs(v, 0).contains(
        l,
    ) by {
        if exp_defined(lo_exp).contains(l) {
            assert(exp_refs(lo_exp).contains(l));
        }
        if exp_defined(hi_exp).contains(l) {
            assert(exp_refs(hi_exp).contains(l));
        }
        if exp_defined(idx_a).contains(l) {
            assert(exp_refs(idx_a).contains(l));
        }
        if exp_defined(idx_b).contains(l) {
            assert(exp_refs(idx_b).contains(l));
        }
        if exp_defined(idx_c).contains(l) {
            assert(exp_refs(idx_c).contains(l));
        }
        if exp_defined(idx_d).contains(l) {
            assert(exp_refs(idx_d).contains(l));
        }
        if stm_defined(body_stm).contains(l) {
            assert(stm_refs(body_stm).contains(l));
        }
    }
}

/// The label discipline of a translated `if` with an `else`: the true,
/// false and exit labels are each targeted by the conditional jump or
/// by the branch-ending jumps.
pub proof fn lemma_if_labels(
    guard_exp: Exp,
    then_e: Exp,
    or_e: Exp,
    result: Temp,
    j1: Stm,
    j2: Stm,
    t: Label,
    f: Label,
    e: Label,
)
    requires
        labels_wf_exp(guard_exp),
        labels_wf_exp(then_e),
        labels_wf_exp(or_e),
        j1 matches Stm::Jump(je1, ts1) && je1 == Exp::Name(e) && ts1@ == seq![e],
        j2 matches Stm::Jump(je2, ts2) && je2 == Exp::Name(e) && ts2@ == seq![e],
    ensures
        ({
            let v = seq![
                Stm::CJump(guard_exp, Relop::Eq, Exp::Const(0), f, t),
                Stm::Label(t),
                Stm::Move(then_e, Exp::Temp(result)),
                j1,
                Stm::Label(f),
                Stm::Move(or_e, Exp::Temp(result)),
                j2,
                Stm::Label(e),
            ];
            stms_defined(v, 0).subset_of(stms_refs(v, 0))
        }),
{
    let v = seq![
        Stm::CJump(guard_exp, Relop::Eq, Exp::Const(0), f, t),
        Stm::Label(t),
        Stm::Move(then_e, Exp::Temp(result)),
        j1,
        Stm::Label(f),
        Stm::Move(or_e, Exp::Temp(result)),
        j2,
        Stm::Label(e),
    ];
    lemma_single_target(j1, e);
    lemma_single_target(j2, e);
    assert(stms_defined(v, 8) =~= Set::<Label>::empty());
    assert(stms_refs(v, 8) =~= Set::<Label>::empty());
    assert forall|k: int| 0 <= k < 8 implies #[trigger] stms_defined(v, k) == stm_defined(
        v[k],
    ).union(stms_defined(v, k + 1)) && stms_refs(v, k) == stm_refs(v[k]).union(
        stms_refs(v, k + 1),
    ) by {}
    assert forall|l: Label| stms_defined(v, 0).contains(l) implies stms_refs(v, 0).contains(
        l,
    ) by {
        if exp_defined(guard_exp).contains(l) {
            assert(exp_refs(guard_exp).contains(l));
        }
        if exp_defined(then_e).contains(l) {
            assert(exp_refs(then_e).contains(l));
        }
        if exp_defined(or_e).contains(l) {
            assert(exp_refs(or_e).contains(l));
        }
    }
}

/// The label discipline of a translated `if` without an `else`: the
/// branch and exit labels are each targeted by the conditional jump or
/// by the branch-ending jump.
pub proof fn lemma_if_unit_labels(guard_exp: Exp, body_stm: Stm, j1: Stm, t: Label, e: Label)
    requires
        labels_wf_exp(guard_exp),
        labels_wf_stm(body_stm),
        j1 matches Stm::Jump(je1, ts1) && je1 == Exp::Name(e) && ts1@ == seq![e],
    ensures
        ({
            let v = seq![
                Stm::CJump(guard_exp, Relop::Eq, Exp::Const(0), e, t),
                Stm::Label(t),
                body_stm,
                j1,
                Stm::Label(e),
            ];
            stms_defined(v, 0).subset_of(stms_refs(v, 0))
        }),
{
    let v = seq![
        Stm::CJump(guard_exp, Relop::Eq, Exp::Const(0), e, t),
        Stm::Label(t),
        body_stm,
        j1,
        Stm::Label(e),
    ];
    lemma_single_target(j1, e);
    assert(stms_defined(v, 5) =~= Set::<Label>::empty());
    assert(stms_refs(v, 5) =~= Set::<Label>::empty());
    assert forall|k: int| 0 <= k < 5 implies #[trigger] stms_defined(v, k) == stm_defined(
        v[k],
    ).union(stms_defined(v, k + 1)) && stms_refs(v, k) == stm_refs(v[k]).union(
        stms_refs(v, k + 1),
    ) by {}
    assert forall|l: Label| stms_defined(v, 0).contains(l) implies stms_refs(v, 0).contains(
        l,
    ) by {
        if exp_defined(guard_exp).contains(l) {
            assert(exp_refs(guard_exp).contains(l));
        }
        if stm_defined(body_stm).contains(l) {
            assert(stm_refs(body_stm).contains(l));
        }
    }
}

} // verus!
