//! The semantic analyzer.
//!
//! `Checker::check` types a whole program against the initial context of
//! runtime bindings and primitive types, and returns the first error
//! with its span, or nothing. The executable analyzer is verified
//! against the specification functions below, which define the typing
//! judgment: each one mirrors one syntactic class, threading the
//! lexically scoped contexts and the identity counter for record and
//! array declarations.

use vstd::prelude::*;
use crate::span::{Span, Symbol};
use crate::span::{SYM_INT, SYM_STRING, SYM_PRINT, SYM_FLUSH, SYM_GETCHAR, SYM_ORD, SYM_CHR,
    SYM_SIZE, SYM_SUBSTRING, SYM_CONCAT, SYM_NOT, SYM_EXIT};
use crate::ast::{Binop, Dec, Exp, Field, FieldDec, FunDec, Type, TypeDec, Var};
use crate::error::{Error, Kind, Type as TypeError};
use crate::ty::{Binding, Ty, TyList, Typed, Tys};
use crate::ty::{ctx_lookup, get_full_s, resolve_s, spec_fuel, subtypes, subtypes_s, ty_eq,
    tylist_get, tylist_get_ref, tylist_len, tylist_len_matches, tys_len, tys_len_matches,
    TypeContext, VarContext};
use crate::symset::{SymSet, sym_set_contents};

verus! {

/// A semantic error at `span`.
pub open spec fn sem(span: Span, kind: TypeError) -> Error {
    Error { span, kind: Kind::Semantic(kind) }
}

/// The identity counter after one fresh identity is drawn.
pub open spec fn bump(c: u64) -> u64 {
    if c < u64::MAX {
        (c + 1) as u64
    } else {
        c
    }
}

/// Whether the symbols are pairwise distinct.
pub open spec fn unique_s(s: Seq<Symbol>) -> bool {
    forall|j: int, k: int| 0 <= j < k < s.len() ==> s[j] != s[k]
}

/// The initial variable context: the runtime bindings.
pub open spec fn base_vc() -> Seq<(Symbol, Binding)> {
    seq![
        (SYM_PRINT, Binding::Fun(Tys::Cons(Ty::Str, Box::new(Tys::Nil)), Ty::Unit)),
        (SYM_FLUSH, Binding::Fun(Tys::Nil, Ty::Unit)),
        (SYM_GETCHAR, Binding::Fun(Tys::Nil, Ty::Str)),
        (SYM_ORD, Binding::Fun(Tys::Cons(Ty::Str, Box::new(Tys::Nil)), Ty::Int)),
        (SYM_CHR, Binding::Fun(Tys::Cons(Ty::Int, Box::new(Tys::Nil)), Ty::Str)),
        (SYM_SIZE, Binding::Fun(Tys::Cons(Ty::Str, Box::new(Tys::Nil)), Ty::Int)),
        (SYM_SUBSTRING, Binding::Fun(
            Tys::Cons(Ty::Str, Box::new(Tys::Cons(Ty::Int, Box::new(Tys::Cons(Ty::Int, Box::new(Tys::Nil)))))),
            Ty::Str,
        )),
        (SYM_CONCAT, Binding::Fun(
            Tys::Cons(Ty::Str, Box::new(Tys::Cons(Ty::Str, Box::new(Tys::Nil)))),
            Ty::Str,
        )),
        (SYM_NOT, Binding::Fun(Tys::Cons(Ty::Int, Box::new(Tys::Nil)), Ty::Int)),
        (SYM_EXIT, Binding::Fun(Tys::Cons(Ty::Int, Box::new(Tys::Nil)), Ty::Unit)),
    ]
}

/// The initial type context: the primitive types.
pub open spec fn base_tc() -> Seq<(Symbol, Ty)> {
    seq![(SYM_INT, Ty::Int), (SYM_STRING, Ty::Str)]
}

/// The binary operator rule, on the operand types alone. No operator
/// accepts a unit operand or `nil` on both sides; equality accepts
/// operands of which one subtypes the other; ordered comparison accepts
/// two integers or two strings; arithmetic and the logical connectives
/// accept two integers. The result is always `Int`.
pub open spec fn bin_result(l: Ty, r: Ty, op: Binop, span: Span, ctr: u64) -> Result<
    (Typed, u64),
    Error,
> {
    if l == Ty::Unit || r == Ty::Unit || (l == Ty::Nil && r == Ty::Nil) {
        Err(sem(span, TypeError::BinaryMismatch))
    } else if (op == Binop::Eq || op == Binop::Neq) && (subtypes_s(l, r) || subtypes_s(r, l)) {
        Ok((Typed { ty: Ty::Int, mutable: true }, ctr))
    } else if (op == Binop::Eq || op == Binop::Neq || op == Binop::Lt || op == Binop::Le
        || op == Binop::Gt || op == Binop::Ge) && (l == Ty::Int || l == Ty::Str) && l == r {
        Ok((Typed { ty: Ty::Int, mutable: true }, ctr))
    } else if l == Ty::Int && r == Ty::Int {
        Ok((Typed { ty: Ty::Int, mutable: true }, ctr))
    } else {
        Err(sem(span, TypeError::BinaryMismatch))
    }
}

/// Typing of an l-value: its type and whether it may be assigned to.
pub open spec fn check_var_s(
    vc: Seq<(Symbol, Binding)>,
    tc: Seq<(Symbol, Ty)>,
    in_loop: bool,
    ctr: u64,
    v: Var,
) -> Result<(Typed, u64), Error>
    decreases v, 0nat,
{
    match v {
        Var::Simple(name, span) => match ctx_lookup(vc, name) {
            Some(Binding::Var(ty, mutable)) => Ok((Typed { ty, mutable }, ctr)),
            Some(Binding::Fun(_, _)) => Err(sem(span, TypeError::NotFunction)),
            None => Err(sem(span, TypeError::UnboundType)),
        },
        Var::Field(rec, field, _field_span, span) => match check_var_s(vc, tc, in_loop, ctr, *rec) {
            Err(e) => Err(e),
            Ok((tr, c1)) => match tr.ty {
                Ty::Rec(fields, _) => match tylist_get(*fields, field) {
                    None => Err(sem(span, TypeError::UnboundField)),
                    Some(fty) => match resolve_s(tc, fty, spec_fuel(tc.len())) {
                        None => Err(sem(span, TypeError::UnboundType)),
                        Some(t) => Ok((Typed { ty: t, mutable: true }, c1)),
                    },
                },
                _ => Err(sem(span, TypeError::NotRecord)),
            },
        },
        Var::Index(arr, index, span) => match check_exp_s(vc, tc, in_loop, ctr, *index) {
            Err(e) => Err(e),
            Ok((ti, c1)) => if ti.ty != Ty::Int {
                Err(sem(span, TypeError::IndexMismatch))
            } else {
                match check_var_s(vc, tc, in_loop, c1, *arr) {
                    Err(e) => Err(e),
                    Ok((ta, c2)) => match ta.ty {
                        Ty::Arr(elem, _) => Ok((Typed { ty: *elem, mutable: true }, c2)),
                        _ => Err(sem(span, TypeError::NotArr)),
                    },
                }
            },
        },
    }
}

/// Typing of an expression.
pub open spec fn check_exp_s(
    vc: Seq<(Symbol, Binding)>,
    tc: Seq<(Symbol, Ty)>,
    in_loop: bool,
    ctr: u64,
    e: Exp,
) -> Result<(Typed, u64), Error>
    decreases e, 0nat,
{
    match e {
        Exp::Break(span) => if !in_loop {
            Err(sem(span, TypeError::Break))
        } else {
            Ok((Typed { ty: Ty::Unit, mutable: true }, ctr))
        },
        Exp::Nil(_) => Ok((Typed { ty: Ty::Nil, mutable: true }, ctr)),
        Exp::Int(_, _) => Ok((Typed { ty: Ty::Int, mutable: true }, ctr)),
        Exp::Str(_, _) => Ok((Typed { ty: Ty::Str, mutable: true }, ctr)),
        Exp::Var(v, _) => check_var_s(vc, tc, in_loop, ctr, v),
        Exp::Call { name, name_span: _, args, span } => match ctx_lookup(vc, name) {
            None => Err(sem(span, TypeError::UnboundFunction)),
            Some(Binding::Var(_, _)) => Err(sem(span, TypeError::NotFunction)),
            Some(Binding::Fun(formals, ret)) => if args@.len() != tys_len(formals) {
                Err(sem(span, TypeError::CallMismatch))
            } else {
                match check_args_s(vc, tc, in_loop, ctr, args@, 0, formals, span) {
                    Err(e) => Err(e),
                    Ok(c1) => Ok((Typed { ty: ret, mutable: true }, c1)),
                }
            },
        },
        Exp::Neg(exp, span) => match check_exp_s(vc, tc, in_loop, ctr, *exp) {
            Err(e) => Err(e),
            Ok((t, c1)) => if t.ty != Ty::Int {
                Err(sem(span, TypeError::Neg))
            } else {
                Ok((Typed { ty: Ty::Int, mutable: true }, c1))
            },
        },
        Exp::Bin { lhs, op, rhs, span } => match check_exp_s(vc, tc, in_loop, ctr, *lhs) {
            Err(e) => Err(e),
            Ok((lt, c1)) => match check_exp_s(vc, tc, in_loop, c1, *rhs) {
                Err(e) => Err(e),
                Ok((rt, c2)) => bin_result(lt.ty, rt.ty, op, span, c2),
            },
        },
        Exp::Rec { name, name_span, fields, span } => match ctx_lookup(tc, name) {
            None => Err(sem(name_span, TypeError::UnboundRecord)),
            Some(u) => match resolve_s(tc, u, spec_fuel(tc.len())) {
                None => Err(sem(name_span, TypeError::UnboundType)),
                Some(rty) => match rty {
                    Ty::Rec(decl, _) => if fields@.len() != tylist_len(*decl) {
                        Err(sem(span, TypeError::FieldMismatch))
                    } else {
                        match check_fields_s(vc, tc, in_loop, ctr, fields@, 0, *decl, span) {
                            Err(e) => Err(e),
                            Ok(c1) => Ok((Typed { ty: rty, mutable: true }, c1)),
                        }
                    },
                    _ => Err(sem(span, TypeError::NotRecord)),
                },
            },
        },
        Exp::Seqs(exps, _span) => if exps@.len() == 0 {
            Ok((Typed { ty: Ty::Unit, mutable: true }, ctr))
        } else {
            check_seq_s(vc, tc, in_loop, ctr, exps@, 0)
        },
        Exp::Ass { name, exp, span } => match check_var_s(vc, tc, in_loop, ctr, name) {
            Err(e) => Err(e),
            Ok((tv, c1)) => if !tv.mutable {
                Err(sem(span, TypeError::AssignImmutable))
            } else {
                match check_exp_s(vc, tc, in_loop, c1, *exp) {
                    Err(e) => Err(e),
                    Ok((te, c2)) => if !subtypes_s(te.ty, tv.ty) {
                        Err(sem(span, TypeError::VarMismatch))
                    } else {
                        Ok((Typed { ty: Ty::Unit, mutable: true }, c2))
                    },
                }
            },
        },
        Exp::If { guard, then, or, span } => match check_exp_s(vc, tc, in_loop, ctr, *guard) {
            Err(e) => Err(e),
            Ok((tg, c1)) => if tg.ty != Ty::Int {
                Err(sem(span, TypeError::GuardMismatch))
            } else {
                match check_exp_s(vc, tc, in_loop, c1, *then) {
                    Err(e) => Err(e),
                    Ok((tt, c2)) => match or {
                        Some(oe) => match check_exp_s(vc, tc, in_loop, c2, *oe) {
                            Err(e) => Err(e),
                            Ok((to, c3)) => if !subtypes_s(tt.ty, to.ty)
                                && !subtypes_s(to.ty, tt.ty) {
                                Err(sem(span, TypeError::BranchMismatch))
                            } else {
                                Ok((Typed { ty: tt.ty, mutable: true }, c3))
                            },
                        },
                        None => if tt.ty != Ty::Unit {
                            Err(sem(span, TypeError::UnusedBranch))
                        } else {
                            Ok((Typed { ty: Ty::Unit, mutable: true }, c2))
                        },
                    },
                }
            },
        },
        Exp::While { guard, body, span } => match check_exp_s(vc, tc, in_loop, ctr, *guard) {
            Err(e) => Err(e),
            Ok((tg, c1)) => if tg.ty != Ty::Int {
                Err(sem(span, TypeError::GuardMismatch))
            } else {
                match check_exp_s(vc, tc, true, c1, *body) {
                    Err(e) => Err(e),
                    Ok((tb, c2)) => if tb.ty != Ty::Unit {
                        Err(sem(span, TypeError::UnusedWhileBody))
                    } else {
                        Ok((Typed { ty: Ty::Unit, mutable: true }, c2))
                    },
                }
            },
        },
        Exp::For { name, escape: _, lo, hi, body, span } => match check_exp_s(
            vc, tc, in_loop, ctr, *lo,
        ) {
            Err(e) => Err(e),
            Ok((tl, c1)) => if tl.ty != Ty::Int {
                Err(sem(span, TypeError::ForBound))
            } else {
                match check_exp_s(vc, tc, in_loop, c1, *hi) {
                    Err(e) => Err(e),
                    Ok((th, c2)) => if th.ty != Ty::Int {
                        Err(sem(span, TypeError::ForBound))
                    } else {
                        match check_exp_s(
                            vc.push((name, Binding::Var(Ty::Int, false))), tc, true, c2, *body,
                        ) {
                            Err(e) => Err(e),
                            Ok((tb, c3)) => if tb.ty != Ty::Unit {
                                Err(sem(span, TypeError::UnusedForBody))
                            } else {
                                Ok((Typed { ty: Ty::Unit, mutable: true }, c3))
                            },
                        }
                    },
                }
            },
        },
        Exp::Let { decs, body, span: _ } => match check_decs_s(vc, tc, in_loop, ctr, decs@, 0) {
            Err(e) => Err(e),
            Ok((vc2, tc2, c1)) => check_exp_s(vc2, tc2, in_loop, c1, *body),
        },
        Exp::Arr { name, name_span, size, init, span } => match ctx_lookup(tc, name) {
            None => Err(sem(name_span, TypeError::UnboundArr)),
            Some(u) => match resolve_s(tc, u, spec_fuel(tc.len())) {
                None => Err(sem(name_span, TypeError::UnboundType)),
                Some(aty) => match aty {
                    Ty::Arr(elem, _) => match resolve_s(tc, *elem, spec_fuel(tc.len())) {
                        None => Err(sem(span, TypeError::UnboundType)),
                        Some(elem_full) => match check_exp_s(vc, tc, in_loop, ctr, *size) {
                            Err(e) => Err(e),
                            Ok((ts, c1)) => if ts.ty != Ty::Int {
                                Err(sem(span, TypeError::ForBound))
                            } else {
                                match check_exp_s(vc, tc, in_loop, c1, *init) {
                                    Err(e) => Err(e),
                                    Ok((ti, c2)) => if !subtypes_s(ti.ty, elem_full) {
                                        Err(sem(span, TypeError::ArrMismatch))
                                    } else {
                                        Ok((Typed { ty: aty, mutable: true }, c2))
                                    },
                                }
                            },
                        },
                    },
                    _ => Err(sem(span, TypeError::NotArr)),
                },
            },
        },
    }
}

/// Typing of call arguments from position `i` on, against the remaining
/// formal parameter types.
pub open spec fn check_args_s(
    vc: Seq<(Symbol, Binding)>,
    tc: Seq<(Symbol, Ty)>,
    in_loop: bool,
    ctr: u64,
    args: Seq<Exp>,
    i: int,
    formals: Tys,
    span: Span,
) -> Result<u64, Error>
    decreases args, args.len() - i,
{
    if i < 0 || i >= args.len() {
        Ok(ctr)
    } else {
        match formals {
            Tys::Nil => Ok(ctr),
            Tys::Cons(f, rest) => match check_exp_s(vc, tc, in_loop, ctr, args[i]) {
                Err(e) => Err(e),
                Ok((t, c1)) => if !subtypes_s(t.ty, f) {
                    Err(sem(span, TypeError::CallMismatch))
                } else {
                    check_args_s(vc, tc, in_loop, c1, args, i + 1, *rest, span)
                },
            },
        }
    }
}

/// Typing of record literal fields from position `i` on, against the
/// remaining declared fields: names must match in order, and each value
/// must subtype its declared field type, resolved against the context.
pub open spec fn check_fields_s(
    vc: Seq<(Symbol, Binding)>,
    tc: Seq<(Symbol, Ty)>,
    in_loop: bool,
    ctr: u64,
    fields: Seq<Field>,
    i: int,
    decl: TyList,
    span: Span,
) -> Result<u64, Error>
    decreases fields, fields.len() - i,
{
    if i < 0 || i >= fields.len() {
        Ok(ctr)
    } else {
        match decl {
            TyList::Nil => Ok(ctr),
            TyList::Cons(dname, dty, rest) => match resolve_s(tc, dty, spec_fuel(tc.len())) {
                None => Err(sem(span, TypeError::UnboundType)),
                Some(dty_full) => match check_exp_s(vc, tc, in_loop, ctr, *fields[i].exp) {
                    Err(e) => Err(e),
                    Ok((t, c1)) => if fields[i].name != dname || !subtypes_s(t.ty, dty_full) {
                        Err(sem(span, TypeError::FieldMismatch))
                    } else {
                        check_fields_s(vc, tc, in_loop, c1, fields, i + 1, *rest, span)
                    },
                },
            },
        }
    }
}

/// Typing of a non-empty expression sequence from position `i` on:
/// intermediate expressions are typed but unconstrained, the last gives
/// the type of the whole.
pub open spec fn check_seq_s(
    vc: Seq<(Symbol, Binding)>,
    tc: Seq<(Symbol, Ty)>,
    in_loop: bool,
    ctr: u64,
    exps: Seq<Exp>,
    i: int,
) -> Result<(Typed, u64), Error>
    decreases exps, exps.len() - i,
{
    if i < 0 || i >= exps.len() {
        Ok((Typed { ty: Ty::Unit, mutable: true }, ctr))
    } else if i + 1 == exps.len() {
        check_exp_s(vc, tc, in_loop, ctr, exps[i])
    } else {
        match check_exp_s(vc, tc, in_loop, ctr, exps[i]) {
            Err(e) => Err(e),
            Ok((_, c1)) => check_seq_s(vc, tc, in_loop, c1, exps, i + 1),
        }
    }
}

/// Typing of a declaration sequence from position `i` on; each one
/// extends the contexts for the rest.
pub open spec fn check_decs_s(
    vc: Seq<(Symbol, Binding)>,
    tc: Seq<(Symbol, Ty)>,
    in_loop: bool,
    ctr: u64,
    decs: Seq<Dec>,
    i: int,
) -> Result<(Seq<(Symbol, Binding)>, Seq<(Symbol, Ty)>, u64), Error>
    decreases decs, decs.len() - i,
{
    if i < 0 || i >= decs.len() {
        Ok((vc, tc, ctr))
    } else {
        match check_dec_s(vc, tc, in_loop, ctr, decs[i]) {
            Err(e) => Err(e),
            Ok((vc2, tc2, c1)) => check_decs_s(vc2, tc2, in_loop, c1, decs, i + 1),
        }
    }
}

/// Typing of one declaration: the extended contexts.
pub open spec fn check_dec_s(
    vc: Seq<(Symbol, Binding)>,
    tc: Seq<(Symbol, Ty)>,
    in_loop: bool,
    ctr: u64,
    d: Dec,
) -> Result<(Seq<(Symbol, Binding)>, Seq<(Symbol, Ty)>, u64), Error>
    decreases d, 1nat,
{
    match d {
        Dec::Fun(funs, span) => if !unique_s(funs@.map(|i: int, f: FunDec| f.name)) {
            Err(sem(span, TypeError::FunConflict))
        } else {
            match fun_headers_s(vc, tc, funs@, 0) {
                Err(e) => Err(e),
                Ok(vc2) => match fun_bodies_s(vc2, tc, ctr, funs@, 0) {
                    Err(e) => Err(e),
                    Ok(c1) => Ok((vc2, tc, c1)),
                },
            }
        },
        Dec::Var { name, name_span: _, escape: _, ty, ty_span, init, span } => match check_exp_s(
            vc, tc, in_loop, ctr, init,
        ) {
            Err(e) => Err(e),
            Ok((ti, c1)) => if ti.ty == Ty::Nil && ty is None {
                Err(sem(span, TypeError::UnknownNil))
            } else {
                match ty {
                    None => Ok((vc.push((name, Binding::Var(ti.ty, true))), tc, c1)),
                    Some(id) => {
                        let at = match ty_span {
                            Some(s) => s,
                            None => span,
                        };
                        match get_full_s(tc, id) {
                            None => Err(sem(at, TypeError::UnboundType)),
                            Some(name_ty) => if !subtypes_s(ti.ty, name_ty) {
                                Err(sem(span, TypeError::VarMismatch))
                            } else {
                                Ok((vc.push((name, Binding::Var(name_ty, true))), tc, c1))
                            },
                        }
                    },
                }
            },
        },
        Dec::Type(decs, span) => if !unique_s(decs@.map(|i: int, td: TypeDec| td.name)) {
            Err(sem(span, TypeError::TypeConflict))
        } else {
            let tc1 = type_sentinels_s(tc, decs@, 0);
            match type_bodies_s(tc1, decs@, 0, ctr) {
                Err(e) => Err(e),
                Ok((tc2, c1)) => match type_validate_s(tc2, decs@, 0) {
                    Err(e) => Err(e),
                    Ok(()) => Ok((vc, tc2, c1)),
                },
            }
        },
    }
}

/// First pass of a function group: resolve every header and install the
/// function bindings, in order.
pub open spec fn fun_headers_s(
    vc: Seq<(Symbol, Binding)>,
    tc: Seq<(Symbol, Ty)>,
    funs: Seq<FunDec>,
    i: int,
) -> Result<Seq<(Symbol, Binding)>, Error>
    decreases funs, funs.len() - i,
{
    if i < 0 || i >= funs.len() {
        Ok(vc)
    } else {
        match arg_tys_s(tc, funs[i].args@, 0) {
            Err(e) => Err(e),
            Ok(args) => match ret_ty_s(tc, funs[i].rets, funs[i].rets_span, funs[i].span) {
                Err(e) => Err(e),
                Ok(ret) => fun_headers_s(
                    vc.push((funs[i].name, Binding::Fun(args, ret))), tc, funs, i + 1,
                ),
            },
        }
    }
}

/// The resolved types of the formal parameters from position `i` on.
pub open spec fn arg_tys_s(tc: Seq<(Symbol, Ty)>, args: Seq<FieldDec>, i: int) -> Result<Tys, Error>
    decreases args, args.len() - i,
{
    if i < 0 || i >= args.len() {
        Ok(Tys::Nil)
    } else {
        match get_full_s(tc, args[i].ty) {
            None => Err(sem(args[i].name_span, TypeError::UnboundType)),
            Some(t) => match arg_tys_s(tc, args, i + 1) {
                Err(e) => Err(e),
                Ok(rest) => Ok(Tys::Cons(t, Box::new(rest))),
            },
        }
    }
}

/// The resolved declared return type; `Unit` if none is declared.
pub open spec fn ret_ty_s(
    tc: Seq<(Symbol, Ty)>,
    rets: Option<Symbol>,
    rets_span: Option<Span>,
    span: Span,
) -> Result<Ty, Error> {
    match rets {
        None => Ok(Ty::Unit),
        Some(name) => {
            let at = match rets_span {
                Some(s) => s,
                None => span,
            };
            match get_full_s(tc, name) {
                None => Err(sem(at, TypeError::UnboundType)),
                Some(t) => Ok(t),
            }
        },
    }
}

/// Second pass of a function group: each body, typed under the headers
/// and its own formals, must subtype its declared return type. A body
/// starts outside any loop: a `break` cannot escape its function.
pub open spec fn fun_bodies_s(
    vc: Seq<(Symbol, Binding)>,
    tc: Seq<(Symbol, Ty)>,
    ctr: u64,
    funs: Seq<FunDec>,
    i: int,
) -> Result<u64, Error>
    decreases funs, funs.len() - i,
{
    if i < 0 || i >= funs.len() {
        Ok(ctr)
    } else {
        match bind_args_s(vc, tc, funs[i].args@, 0) {
            Err(e) => Err(e),
            Ok(vcb) => match check_exp_s(vcb, tc, false, ctr, funs[i].body) {
                Err(e) => Err(e),
                Ok((tb, c1)) => match ret_ty_s(tc, funs[i].rets, funs[i].rets_span, funs[i].span) {
                    Err(e) => Err(e),
                    Ok(ret) => if !subtypes_s(tb.ty, ret) {
                        Err(sem(funs[i].span, TypeError::ReturnMismatch))
                    } else {
                        fun_bodies_s(vc, tc, c1, funs, i + 1)
                    },
                },
            },
        }
    }
}

/// The formals from position `i` on, bound as mutable variables.
pub open spec fn bind_args_s(
    vc: Seq<(Symbol, Binding)>,
    tc: Seq<(Symbol, Ty)>,
    args: Seq<FieldDec>,
    i: int,
) -> Result<Seq<(Symbol, Binding)>, Error>
    decreases args, args.len() - i,
{
    if i < 0 || i >= args.len() {
        Ok(vc)
    } else {
        match get_full_s(tc, args[i].ty) {
            None => Err(sem(args[i].name_span, TypeError::UnboundType)),
            Some(t) => bind_args_s(vc.push((args[i].name, Binding::Var(t, true))), tc, args, i + 1),
        }
    }
}

/// First pass of a type group: a sentinel alias for every name.
pub open spec fn type_sentinels_s(
    tc: Seq<(Symbol, Ty)>,
    decs: Seq<TypeDec>,
    i: int,
) -> Seq<(Symbol, Ty)>
    decreases decs, decs.len() - i,
{
    if i < 0 || i >= decs.len() {
        tc
    } else {
        type_sentinels_s(tc.push((decs[i].name, Ty::Name(decs[i].name, None))), decs, i + 1)
    }
}

/// Second pass of a type group: resolve each body under the evolving
/// context and rebind the name to the filled alias.
pub open spec fn type_bodies_s(
    tc: Seq<(Symbol, Ty)>,
    decs: Seq<TypeDec>,
    i: int,
    ctr: u64,
) -> Result<(Seq<(Symbol, Ty)>, u64), Error>
    decreases decs, decs.len() - i,
{
    if i < 0 || i >= decs.len() {
        Ok((tc, ctr))
    } else {
        match check_type_s(tc, decs[i].ty, ctr) {
            Err(e) => Err(e),
            Ok((t, c1)) => type_bodies_s(
                tc.push((decs[i].name, Ty::Name(decs[i].name, Some(Box::new(t))))), decs, i + 1, c1,
            ),
        }
    }
}

/// Third pass of a type group: every member must reach a concrete type
/// through the alias chains; a group cyclic without passing a record or
/// array constructor fails here.
pub open spec fn type_validate_s(
    tc: Seq<(Symbol, Ty)>,
    decs: Seq<TypeDec>,
    i: int,
) -> Result<(), Error>
    decreases decs, decs.len() - i,
{
    if i < 0 || i >= decs.len() {
        Ok(())
    } else {
        match get_full_s(tc, decs[i].name) {
            None => Err(sem(decs[i].span, TypeError::UnboundType)),
            Some(_) => type_validate_s(tc, decs, i + 1),
        }
    }
}

/// A type expression, resolved with partial lookups so that a mutually
/// recursive group may mention its own members; a record or array
/// constructor draws a fresh identity.
pub open spec fn check_type_s(tc: Seq<(Symbol, Ty)>, t: Type, ctr: u64) -> Result<(Ty, u64), Error>
    decreases t, 1nat,
{
    match t {
        Type::Name(name, span) => match ctx_lookup(tc, name) {
            None => Err(sem(span, TypeError::UnboundType)),
            Some(u) => Ok((u, ctr)),
        },
        Type::Arr(name, name_span, _span) => match ctx_lookup(tc, name) {
            None => Err(sem(name_span, TypeError::UnboundType)),
            Some(elem) => Ok((Ty::Arr(Box::new(elem), ctr), bump(ctr))),
        },
        Type::Rec(decs, _span) => match rec_fields_s(tc, decs@, 0) {
            Err(e) => Err(e),
            Ok(list) => Ok((Ty::Rec(Box::new(list), ctr), bump(ctr))),
        },
    }
}

/// The declared fields of a record type from position `i` on, each
/// field type found by partial lookup.
pub open spec fn rec_fields_s(
    tc: Seq<(Symbol, Ty)>,
    decs: Seq<FieldDec>,
    i: int,
) -> Result<TyList, Error>
    decreases decs, decs.len() - i,
{
    if i < 0 || i >= decs.len() {
        Ok(TyList::Nil)
    } else {
        match ctx_lookup(tc, decs[i].ty) {
            None => Err(sem(decs[i].name_span, TypeError::UnboundType)),
            Some(t) => match rec_fields_s(tc, decs, i + 1) {
                Err(e) => Err(e),
                Ok(rest) => Ok(TyList::Cons(decs[i].name, t, Box::new(rest))),
            },
        }
    }
}

/// Whole-program typing: the expression under the initial contexts; the
/// resulting type is discarded.
pub open spec fn check_s(e: Exp) -> Result<(), Error> {
    match check_exp_s(base_vc(), base_tc(), false, 0, e) {
        Ok(_) => Ok(()),
        Err(er) => Err(er),
    }
}

fn bump_c(c: u64) -> (r: u64)
    ensures
        r == bump(c),
{
    if c < u64::MAX {
        c + 1
    } else {
        c
    }
}

/// Whether the symbols are pairwise distinct, by filling a hash set.
fn unique_syms(names: &Vec<Symbol>) -> (r: bool)
    ensures
        r == unique_s(names@),
{
    let mut set = SymSet::new();
    let mut i: usize = 0;
    while i < names.len()
        invariant
            i <= names.len(),
            forall|x: Symbol| sym_set_contents(set).contains(x)
                <==> exists|k: int| 0 <= k < i && names@[k] == x,
            forall|j: int, k: int| 0 <= j < k < i ==> names@[j] != names@[k],
        decreases names.len() - i,
    {
        let name = names[i];
        if set.contains(name) {
            proof {
                let k = choose|k: int| 0 <= k < i && names@[k] == name;
                assert(names@[k] == names@[i as int]);
                assert(!unique_s(names@));
            }
            return false;
        }
        set.insert(name);
        i = i + 1;
    }
    true
}

fn fun_names(funs: &Vec<FunDec>) -> (r: Vec<Symbol>)
    ensures
        r@ == funs@.map(|i: int, f: FunDec| f.name),
{
    let mut names: Vec<Symbol> = Vec::new();
    let mut i: usize = 0;
    while i < funs.len()
        invariant
            i <= funs.len(),
            names@.len() == i,
            forall|k: int| 0 <= k < i ==> names@[k] == funs@[k].name,
        decreases funs.len() - i,
    {
        names.push(funs[i].name);
        i = i + 1;
    }
    assert(names@ =~= funs@.map(|i: int, f: FunDec| f.name));
    names
}

fn type_names(decs: &Vec<TypeDec>) -> (r: Vec<Symbol>)
    ensures
        r@ == decs@.map(|i: int, td: TypeDec| td.name),
{
    let mut names: Vec<Symbol> = Vec::new();
    let mut i: usize = 0;
    while i < decs.len()
        invariant
            i <= decs.len(),
            names@.len() == i,
            forall|k: int| 0 <= k < i ==> names@[k] == decs@[k].name,
        decreases decs.len() - i,
    {
        names.push(decs[i].name);
        i = i + 1;
    }
    assert(names@ =~= decs@.map(|i: int, td: TypeDec| td.name));
    names
}

fn check_var(vc: &VarContext, tc: &TypeContext, in_loop: bool, ctr: u64, v: &Var) -> (r: Result<
    (Typed, u64),
    Error,
>)
    ensures
        r == check_var_s(vc@, tc@, in_loop, ctr, *v),
    decreases *v, 0nat,
{
    match v {
        Var::Simple(name, span) => match vc.get(*name) {
            Some(b) => match b {
                Binding::Var(ty, mutable) => Ok((Typed { ty: ty.clone(), mutable: *mutable }, ctr)),
                Binding::Fun(_, _) => Err(Error::semantic(*span, TypeError::NotFunction)),
            },
            None => Err(Error::semantic(*span, TypeError::UnboundType)),
        },
        Var::Field(rec, field, _field_span, span) => match check_var(vc, tc, in_loop, ctr, rec) {
            Err(e) => Err(e),
            Ok((tr, c1)) => match tr.ty {
                Ty::Rec(fields, _) => match tylist_get_ref(&fields, *field) {
                    None => Err(Error::semantic(*span, TypeError::UnboundField)),
                    Some(fty) => match tc.trace_full(fty) {
                        None => Err(Error::semantic(*span, TypeError::UnboundType)),
                        Some(t) => Ok((Typed { ty: t, mutable: true }, c1)),
                    },
                },
                _ => Err(Error::semantic(*span, TypeError::NotRecord)),
            },
        },
        Var::Index(arr, index, span) => match check_exp(vc, tc, in_loop, ctr, index) {
            Err(e) => Err(e),
            Ok((ti, c1)) => if !matches!(ti.ty, Ty::Int) {
                Err(Error::semantic(*span, TypeError::IndexMismatch))
            } else {
                match check_var(vc, tc, in_loop, c1, arr) {
                    Err(e) => Err(e),
                    Ok((ta, c2)) => match ta.ty {
                        Ty::Arr(elem, _) => Ok((Typed { ty: *elem, mutable: true }, c2)),
                        _ => Err(Error::semantic(*span, TypeError::NotArr)),
                    },
                }
            },
        },
    }
}

#[verifier::rlimit(100)]
pub(crate) fn check_exp(vc: &VarContext, tc: &TypeContext, in_loop: bool, ctr: u64, e: &Exp) -> (r: Result<
    (Typed, u64),
    Error,
>)
    ensures
        r == check_exp_s(vc@, tc@, in_loop, ctr, *e),
    decreases *e, 0nat,
{
    match e {
        Exp::Break(span) => if !in_loop {
            Err(Error::semantic(*span, TypeError::Break))
        } else {
            Ok((Typed { ty: Ty::Unit, mutable: true }, ctr))
        },
        Exp::Nil(_) => Ok((Typed { ty: Ty::Nil, mutable: true }, ctr)),
        Exp::Int(_, _) => Ok((Typed { ty: Ty::Int, mutable: true }, ctr)),
        Exp::Str(_, _) => Ok((Typed { ty: Ty::Str, mutable: true }, ctr)),
        Exp::Var(v, _) => check_var(vc, tc, in_loop, ctr, v),
        Exp::Call { name, name_span: _, args, span } => match vc.get(*name) {
            None => Err(Error::semantic(*span, TypeError::UnboundFunction)),
            Some(b) => match b {
                Binding::Var(_, _) => Err(Error::semantic(*span, TypeError::NotFunction)),
                Binding::Fun(formals, ret) => if !tys_len_matches(formals, args.len()) {
                    Err(Error::semantic(*span, TypeError::CallMismatch))
                } else {
                    match check_args(vc, tc, in_loop, ctr, args, 0, formals, *span) {
                        Err(e) => Err(e),
                        Ok(c1) => Ok((Typed { ty: ret.clone(), mutable: true }, c1)),
                    }
                },
            },
        },
        Exp::Neg(exp, span) => match check_exp(vc, tc, in_loop, ctr, exp) {
            Err(e) => Err(e),
            Ok((t, c1)) => if !matches!(t.ty, Ty::Int) {
                Err(Error::semantic(*span, TypeError::Neg))
            } else {
                Ok((Typed { ty: Ty::Int, mutable: true }, c1))
            },
        },
        Exp::Bin { lhs, op, rhs, span } => match check_exp(vc, tc, in_loop, ctr, lhs) {
            Err(e) => Err(e),
            Ok((lt, c1)) => match check_exp(vc, tc, in_loop, c1, rhs) {
                Err(e) => Err(e),
                Ok((rt, c2)) => {
                    let l = lt.ty;
                    let r = rt.ty;
                    if matches!(l, Ty::Unit) || matches!(r, Ty::Unit)
                        || (matches!(l, Ty::Nil) && matches!(r, Ty::Nil)) {
                        Err(Error::semantic(*span, TypeError::BinaryMismatch))
                    } else if op.is_equality() && (subtypes(&l, &r) || subtypes(&r, &l)) {
                        Ok((Typed { ty: Ty::Int, mutable: true }, c2))
                    } else if op.is_comparison() && (matches!(l, Ty::Int) || matches!(l, Ty::Str))
                        && ty_eq(&l, &r) {
                        Ok((Typed { ty: Ty::Int, mutable: true }, c2))
                    } else if matches!(l, Ty::Int) && matches!(r, Ty::Int) {
                        Ok((Typed { ty: Ty::Int, mutable: true }, c2))
                    } else {
                        Err(Error::semantic(*span, TypeError::BinaryMismatch))
                    }
                },
            },
        },
        Exp::Rec { name, name_span, fields, span } => match tc.get(*name) {
            None => Err(Error::semantic(*name_span, TypeError::UnboundRecord)),
            Some(u) => match tc.trace_full(u) {
                None => Err(Error::semantic(*name_span, TypeError::UnboundType)),
                Some(rty) => match rty {
                    Ty::Rec(decl, id) => if !tylist_len_matches(&decl, fields.len()) {
                        Err(Error::semantic(*span, TypeError::FieldMismatch))
                    } else {
                        match check_fields(vc, tc, in_loop, ctr, fields, 0, &decl, *span) {
                            Err(e) => Err(e),
                            Ok(c1) => Ok((Typed { ty: Ty::Rec(decl, id), mutable: true }, c1)),
                        }
                    },
                    _ => Err(Error::semantic(*span, TypeError::NotRecord)),
                },
            },
        },
        Exp::Seqs(exps, _span) => if exps.len() == 0 {
            Ok((Typed { ty: Ty::Unit, mutable: true }, ctr))
        } else {
            check_seq(vc, tc, in_loop, ctr, exps, 0)
        },
        Exp::Ass { name, exp, span } => match check_var(vc, tc, in_loop, ctr, name) {
            Err(e) => Err(e),
            Ok((tv, c1)) => if !tv.mutable {
                Err(Error::semantic(*span, TypeError::AssignImmutable))
            } else {
                match check_exp(vc, tc, in_loop, c1, exp) {
                    Err(e) => Err(e),
                    Ok((te, c2)) => if !subtypes(&te.ty, &tv.ty) {
                        Err(Error::semantic(*span, TypeError::VarMismatch))
                    } else {
                        Ok((Typed { ty: Ty::Unit, mutable: true }, c2))
                    },
                }
            },
        },
        Exp::If { guard, then, or, span } => match check_exp(vc, tc, in_loop, ctr, guard) {
            Err(e) => Err(e),
            Ok((tg, c1)) => if !matches!(tg.ty, Ty::Int) {
                Err(Error::semantic(*span, TypeError::GuardMismatch))
            } else {
                match check_exp(vc, tc, in_loop, c1, then) {
                    Err(e) => Err(e),
                    Ok((tt, c2)) => match or {
                        Some(oe) => match check_exp(vc, tc, in_loop, c2, oe) {
                            Err(e) => Err(e),
                            Ok((to, c3)) => if !subtypes(&tt.ty, &to.ty)
                                && !subtypes(&to.ty, &tt.ty) {
                                Err(Error::semantic(*span, TypeError::BranchMismatch))
                            } else {
                                Ok((Typed { ty: tt.ty, mutable: true }, c3))
                            },
                        },
                        None => if !matches!(tt.ty, Ty::Unit) {
                            Err(Error::semantic(*span, TypeError::UnusedBranch))
                        } else {
                            Ok((Typed { ty: Ty::Unit, mutable: true }, c2))
                        },
                    },
                }
            },
        },
        Exp::While { guard, body, span } => match check_exp(vc, tc, in_loop, ctr, guard) {
            Err(e) => Err(e),
            Ok((tg, c1)) => if !matches!(tg.ty, Ty::Int) {
                Err(Error::semantic(*span, TypeError::GuardMismatch))
            } else {
                match check_exp(vc, tc, true, c1, body) {
                    Err(e) => Err(e),
                    Ok((tb, c2)) => if !matches!(tb.ty, Ty::Unit) {
                        Err(Error::semantic(*span, TypeError::UnusedWhileBody))
                    } else {
                        Ok((Typed { ty: Ty::Unit, mutable: true }, c2))
                    },
                }
            },
        },
        Exp::For { name, escape: _, lo, hi, body, span } => match check_exp(
            vc, tc, in_loop, ctr, lo,
        ) {
            Err(e) => Err(e),
            Ok((tl, c1)) => if !matches!(tl.ty, Ty::Int) {
                Err(Error::semantic(*span, TypeError::ForBound))
            } else {
                match check_exp(vc, tc, in_loop, c1, hi) {
                    Err(e) => Err(e),
                    Ok((th, c2)) => if !matches!(th.ty, Ty::Int) {
                        Err(Error::semantic(*span, TypeError::ForBound))
                    } else {
                        let mut vc2 = vc.duplicate();
                        vc2.insert(*name, Binding::Var(Ty::Int, false));
                        match check_exp(&vc2, tc, true, c2, body) {
                            Err(e) => Err(e),
                            Ok((tb, c3)) => if !matches!(tb.ty, Ty::Unit) {
                                Err(Error::semantic(*span, TypeError::UnusedForBody))
                            } else {
                                Ok((Typed { ty: Ty::Unit, mutable: true }, c3))
                            },
                        }
                    },
                }
            },
        },
        Exp::Let { decs, body, span: _ } => {
            let vc2 = vc.duplicate();
            let tc2 = tc.duplicate();
            match check_decs(vc2, tc2, in_loop, ctr, decs, 0) {
                Err(e) => Err(e),
                Ok((vc3, tc3, c1)) => check_exp(&vc3, &tc3, in_loop, c1, body),
            }
        },
        Exp::Arr { name, name_span, size, init, span } => match tc.get(*name) {
            None => Err(Error::semantic(*name_span, TypeError::UnboundArr)),
            Some(u) => match tc.trace_full(u) {
                None => Err(Error::semantic(*name_span, TypeError::UnboundType)),
                Some(aty) => match aty {
                    Ty::Arr(elem, id) => match tc.trace_full(&elem) {
                        None => Err(Error::semantic(*span, TypeError::UnboundType)),
                        Some(elem_full) => match check_exp(vc, tc, in_loop, ctr, size) {
                            Err(e) => Err(e),
                            Ok((ts, c1)) => if !matches!(ts.ty, Ty::Int) {
                                Err(Error::semantic(*span, TypeError::ForBound))
                            } else {
                                match check_exp(vc, tc, in_loop, c1, init) {
                                    Err(e) => Err(e),
                                    Ok((ti, c2)) => if !subtypes(&ti.ty, &elem_full) {
                                        Err(Error::semantic(*span, TypeError::ArrMismatch))
                                    } else {
                                        Ok((Typed { ty: Ty::Arr(elem, id), mutable: true }, c2))
                                    },
                                }
                            },
                        },
                    },
                    _ => Err(Error::semantic(*span, TypeError::NotArr)),
                },
            },
        },
    }
}

fn check_args(
    vc: &VarContext,
    tc: &TypeContext,
    in_loop: bool,
    ctr: u64,
    args: &Vec<Exp>,
    i: usize,
    formals: &Tys,
    span: Span,
) -> (r: Result<u64, Error>)
    ensures
        r == check_args_s(vc@, tc@, in_loop, ctr, args@, i as int, *formals, span),
    decreases args@, args@.len() - i,
{
    if i >= args.len() {
        Ok(ctr)
    } else {
        match formals {
            Tys::Nil => Ok(ctr),
            Tys::Cons(f, rest) => match check_exp(vc, tc, in_loop, ctr, &args[i]) {
                Err(e) => Err(e),
                Ok((t, c1)) => if !subtypes(&t.ty, f) {
                    Err(Error::semantic(span, TypeError::CallMismatch))
                } else {
                    check_args(vc, tc, in_loop, c1, args, i + 1, rest, span)
                },
            },
        }
    }
}

fn check_fields(
    vc: &VarContext,
    tc: &TypeContext,
    in_loop: bool,
    ctr: u64,
    fields: &Vec<Field>,
    i: usize,
    decl: &TyList,
    span: Span,
) -> (r: Result<u64, Error>)
    ensures
        r == check_fields_s(vc@, tc@, in_loop, ctr, fields@, i as int, *decl, span),
    decreases fields@, fields@.len() - i,
{
    if i >= fields.len() {
        Ok(ctr)
    } else {
        match decl {
            TyList::Nil => Ok(ctr),
            TyList::Cons(dname, dty, rest) => match tc.trace_full(dty) {
                None => Err(Error::semantic(span, TypeError::UnboundType)),
                Some(dty_full) => match check_exp(vc, tc, in_loop, ctr, &fields[i].exp) {
                    Err(e) => Err(e),
                    Ok((t, c1)) => if fields[i].name != *dname || !subtypes(&t.ty, &dty_full) {
                        Err(Error::semantic(span, TypeError::FieldMismatch))
                    } else {
                        check_fields(vc, tc, in_loop, c1, fields, i + 1, rest, span)
                    },
                },
            },
        }
    }
}

fn check_seq(
    vc: &VarContext,
    tc: &TypeContext,
    in_loop: bool,
    ctr: u64,
    exps: &Vec<Exp>,
    i: usize,
) -> (r: Result<(Typed, u64), Error>)
    ensures
        r == check_seq_s(vc@, tc@, in_loop, ctr, exps@, i as int),
    decreases exps@, exps@.len() - i,
{
    if i >= exps.len() {
        Ok((Typed { ty: Ty::Unit, mutable: true }, ctr))
    } else if i + 1 == exps.len() {
        check_exp(vc, tc, in_loop, ctr, &exps[i])
    } else {
        match check_exp(vc, tc, in_loop, ctr, &exps[i]) {
            Err(e) => Err(e),
            Ok((_, c1)) => check_seq(vc, tc, in_loop, c1, exps, i + 1),
        }
    }
}

fn check_decs(
    vc: VarContext,
    tc: TypeContext,
    in_loop: bool,
    ctr: u64,
    decs: &Vec<Dec>,
    i: usize,
) -> (r: Result<(VarContext, TypeContext, u64), Error>)
    ensures
        match r {
            Ok((vc2, tc2, c1)) => check_decs_s(vc@, tc@, in_loop, ctr, decs@, i as int)
                == Ok::<_, Error>((vc2@, tc2@, c1)),
            Err(e) => check_decs_s(vc@, tc@, in_loop, ctr, decs@, i as int) == Err::<
                (Seq<(Symbol, Binding)>, Seq<(Symbol, Ty)>, u64),
                Error,
            >(e),
        },
    decreases decs@, decs@.len() - i,
{
    if i >= decs.len() {
        Ok((vc, tc, ctr))
    } else {
        match check_dec(vc, tc, in_loop, ctr, &decs[i]) {
            Err(e) => Err(e),
            Ok((vc2, tc2, c1)) => check_decs(vc2, tc2, in_loop, c1, decs, i + 1),
        }
    }
}

fn check_dec(vc: VarContext, tc: TypeContext, in_loop: bool, ctr: u64, d: &Dec) -> (r: Result<
    (VarContext, TypeContext, u64),
    Error,
>)
    ensures
        match r {
            Ok((vc2, tc2, c1)) => check_dec_s(vc@, tc@, in_loop, ctr, *d)
                == Ok::<_, Error>((vc2@, tc2@, c1)),
            Err(e) => check_dec_s(vc@, tc@, in_loop, ctr, *d) == Err::<
                (Seq<(Symbol, Binding)>, Seq<(Symbol, Ty)>, u64),
                Error,
            >(e),
        },
    decreases *d, 1nat,
{
    match d {
        Dec::Fun(funs, span) => {
            let names = fun_names(funs);
            if !unique_syms(&names) {
                Err(Error::semantic(*span, TypeError::FunConflict))
            } else {
                match fun_headers(vc, &tc, funs, 0) {
                    Err(e) => Err(e),
                    Ok(vc2) => match fun_bodies(&vc2, &tc, ctr, funs, 0) {
                        Err(e) => Err(e),
                        Ok(c1) => Ok((vc2, tc, c1)),
                    },
                }
            }
        },
        Dec::Var { name, name_span: _, escape: _, ty, ty_span, init, span } => match check_exp(
            &vc, &tc, in_loop, ctr, init,
        ) {
            Err(e) => Err(e),
            Ok((ti, c1)) => if matches!(ti.ty, Ty::Nil) && ty.is_none() {
                Err(Error::semantic(*span, TypeError::UnknownNil))
            } else {
                match ty {
                    None => {
                        let mut vc2 = vc;
                        vc2.insert(*name, Binding::Var(ti.ty, true));
                        Ok((vc2, tc, c1))
                    },
                    Some(id) => {
                        let at = match ty_span {
                            Some(s) => *s,
                            None => *span,
                        };
                        match tc.get_full(*id) {
                            None => Err(Error::semantic(at, TypeError::UnboundType)),
                            Some(name_ty) => if !subtypes(&ti.ty, &name_ty) {
                                Err(Error::semantic(*span, TypeError::VarMismatch))
                            } else {
                                let mut vc2 = vc;
                                vc2.insert(*name, Binding::Var(name_ty, true));
                                Ok((vc2, tc, c1))
                            },
                        }
                    },
                }
            },
        },
        Dec::Type(decs, span) => {
            let names = type_names(decs);
            if !unique_syms(&names) {
                Err(Error::semantic(*span, TypeError::TypeConflict))
            } else {
                let tc1 = type_sentinels(tc, decs, 0);
                match type_bodies(tc1, decs, 0, ctr) {
                    Err(e) => Err(e),
                    Ok((tc2, c1)) => match type_validate(&tc2, decs, 0) {
                        Err(e) => Err(e),
                        Ok(()) => Ok((vc, tc2, c1)),
                    },
                }
            }
        },
    }
}

pub(crate) fn fun_headers(vc: VarContext, tc: &TypeContext, funs: &Vec<FunDec>, i: usize) -> (r: Result<
    VarContext,
    Error,
>)
    ensures
        match r {
            Ok(vc2) => fun_headers_s(vc@, tc@, funs@, i as int) == Ok::<_, Error>(vc2@),
            Err(e) => fun_headers_s(vc@, tc@, funs@, i as int) == Err::<
                Seq<(Symbol, Binding)>,
                Error,
            >(e),
        },
    decreases funs@, funs@.len() - i,
{
    if i >= funs.len() {
        Ok(vc)
    } else {
        let fun = &funs[i];
        match arg_tys(tc, &fun.args, 0) {
            Err(e) => Err(e),
            Ok(args) => match ret_ty(tc, &fun.rets, &fun.rets_span, fun.span) {
                Err(e) => Err(e),
                Ok(ret) => {
                    let mut vc2 = vc;
                    vc2.insert(fun.name, Binding::Fun(args, ret));
                    fun_headers(vc2, tc, funs, i + 1)
                },
            },
        }
    }
}

fn arg_tys(tc: &TypeContext, args: &Vec<FieldDec>, i: usize) -> (r: Result<Tys, Error>)
    ensures
        r == arg_tys_s(tc@, args@, i as int),
    decreases args@, args@.len() - i,
{
    if i >= args.len() {
        Ok(Tys::Nil)
    } else {
        match tc.get_full(args[i].ty) {
            None => Err(Error::semantic(args[i].name_span, TypeError::UnboundType)),
            Some(t) => match arg_tys(tc, args, i + 1) {
                Err(e) => Err(e),
                Ok(rest) => Ok(Tys::Cons(t, Box::new(rest))),
            },
        }
    }
}

fn ret_ty(tc: &TypeContext, rets: &Option<Symbol>, rets_span: &Option<Span>, span: Span) -> (r:
    Result<Ty, Error>)
    ensures
        r == ret_ty_s(tc@, *rets, *rets_span, span),
{
    match rets {
        None => Ok(Ty::Unit),
        Some(name) => {
            let at = match rets_span {
                Some(s) => *s,
                None => span,
            };
            match tc.get_full(*name) {
                None => Err(Error::semantic(at, TypeError::UnboundType)),
                Some(t) => Ok(t),
            }
        },
    }
}

fn fun_bodies(
    vc: &VarContext,
    tc: &TypeContext,
    ctr: u64,
    funs: &Vec<FunDec>,
    i: usize,
) -> (r: Result<u64, Error>)
    ensures
        r == fun_bodies_s(vc@, tc@, ctr, funs@, i as int),
    decreases funs@, funs@.len() - i,
{
    if i >= funs.len() {
        Ok(ctr)
    } else {
        let fun = &funs[i];
        let vcd = vc.duplicate();
        match bind_args(vcd, tc, &fun.args, 0) {
            Err(e) => Err(e),
            Ok(vcb) => match check_exp(&vcb, tc, false, ctr, &fun.body) {
                Err(e) => Err(e),
                Ok((tb, c1)) => match ret_ty(tc, &fun.rets, &fun.rets_span, fun.span) {
                    Err(e) => Err(e),
                    Ok(ret) => if !subtypes(&tb.ty, &ret) {
                        Err(Error::semantic(fun.span, TypeError::ReturnMismatch))
                    } else {
                        fun_bodies(vc, tc, c1, funs, i + 1)
                    },
                },
            },
        }
    }
}

pub(crate) fn bind_args(vc: VarContext, tc: &TypeContext, args: &Vec<FieldDec>, i: usize) -> (r: Result<
    VarContext,
    Error,
>)
    ensures
        match r {
            Ok(vc2) => bind_args_s(vc@, tc@, args@, i as int) == Ok::<_, Error>(vc2@),
            Err(e) => bind_args_s(vc@, tc@, args@, i as int) == Err::<
                Seq<(Symbol, Binding)>,
                Error,
            >(e),
        },
    decreases args@, args@.len() - i,
{
    if i >= args.len() {
        Ok(vc)
    } else {
        match tc.get_full(args[i].ty) {
            None => Err(Error::semantic(args[i].name_span, TypeError::UnboundType)),
            Some(t) => {
                let mut vc2 = vc;
                vc2.insert(args[i].name, Binding::Var(t, true));
                bind_args(vc2, tc, args, i + 1)
            },
        }
    }
}

fn type_sentinels(tc: TypeContext, decs: &Vec<TypeDec>, i: usize) -> (r: TypeContext)
    ensures
        r@ == type_sentinels_s(tc@, decs@, i as int),
    decreases decs@, decs@.len() - i,
{
    if i >= decs.len() {
        tc
    } else {
        let mut tc2 = tc;
        tc2.insert(decs[i].name, Ty::Name(decs[i].name, None));
        type_sentinels(tc2, decs, i + 1)
    }
}

fn type_bodies(tc: TypeContext, decs: &Vec<TypeDec>, i: usize, ctr: u64) -> (r: Result<
    (TypeContext, u64),
    Error,
>)
    ensures
        match r {
            Ok((tc2, c1)) => type_bodies_s(tc@, decs@, i as int, ctr) == Ok::<_, Error>((tc2@, c1)),
            Err(e) => type_bodies_s(tc@, decs@, i as int, ctr) == Err::<
                (Seq<(Symbol, Ty)>, u64),
                Error,
            >(e),
        },
    decreases decs@, decs@.len() - i,
{
    if i >= decs.len() {
        Ok((tc, ctr))
    } else {
        match check_type(&tc, &decs[i].ty, ctr) {
            Err(e) => Err(e),
            Ok((t, c1)) => {
                let mut tc2 = tc;
                tc2.insert(decs[i].name, Ty::Name(decs[i].name, Some(Box::new(t))));
                type_bodies(tc2, decs, i + 1, c1)
            },
        }
    }
}

fn type_validate(tc: &TypeContext, decs: &Vec<TypeDec>, i: usize) -> (r: Result<(), Error>)
    ensures
        r == type_validate_s(tc@, decs@, i as int),
    decreases decs@, decs@.len() - i,
{
    if i >= decs.len() {
        Ok(())
    } else {
        match tc.get_full(decs[i].name) {
            None => Err(Error::semantic(decs[i].span, TypeError::UnboundType)),
            Some(_) => type_validate(tc, decs, i + 1),
        }
    }
}

fn check_type(tc: &TypeContext, t: &Type, ctr: u64) -> (r: Result<(Ty, u64), Error>)
    ensures
        r == check_type_s(tc@, *t, ctr),
    decreases *t, 1nat,
{
    match t {
        Type::Name(name, span) => match tc.get(*name) {
            None => Err(Error::semantic(*span, TypeError::UnboundType)),
            Some(u) => Ok((u.clone(), ctr)),
        },
        Type::Arr(name, name_span, _span) => match tc.get(*name) {
            None => Err(Error::semantic(*name_span, TypeError::UnboundType)),
            Some(elem) => Ok((Ty::Arr(Box::new(elem.clone()), ctr), bump_c(ctr))),
        },
        Type::Rec(decs, _span) => match rec_fields(tc, decs, 0) {
            Err(e) => Err(e),
            Ok(list) => Ok((Ty::Rec(Box::new(list), ctr), bump_c(ctr))),
        },
    }
}

fn rec_fields(tc: &TypeContext, decs: &Vec<FieldDec>, i: usize) -> (r: Result<TyList, Error>)
    ensures
        r == rec_fields_s(tc@, decs@, i as int),
    decreases decs@, decs@.len() - i,
{
    if i >= decs.len() {
        Ok(TyList::Nil)
    } else {
        match tc.get(decs[i].ty) {
            None => Err(Error::semantic(decs[i].name_span, TypeError::UnboundType)),
            Some(t) => match rec_fields(tc, decs, i + 1) {
                Err(e) => Err(e),
                Ok(rest) => Ok(TyList::Cons(decs[i].name, t.clone(), Box::new(rest))),
            },
        }
    }
}

/// The initial contexts: runtime bindings and primitive types.
pub fn base_contexts() -> (r: (VarContext, TypeContext))
    ensures
        r.0@ == base_vc(),
        r.1@ == base_tc(),
{
    let mut vc = VarContext::new();
    vc.insert(SYM_PRINT, Binding::Fun(Tys::Cons(Ty::Str, Box::new(Tys::Nil)), Ty::Unit));
    vc.insert(SYM_FLUSH, Binding::Fun(Tys::Nil, Ty::Unit));
    vc.insert(SYM_GETCHAR, Binding::Fun(Tys::Nil, Ty::Str));
    vc.insert(SYM_ORD, Binding::Fun(Tys::Cons(Ty::Str, Box::new(Tys::Nil)), Ty::Int));
    vc.insert(SYM_CHR, Binding::Fun(Tys::Cons(Ty::Int, Box::new(Tys::Nil)), Ty::Str));
    vc.insert(SYM_SIZE, Binding::Fun(Tys::Cons(Ty::Str, Box::new(Tys::Nil)), Ty::Int));
    vc.insert(
        SYM_SUBSTRING,
        Binding::Fun(
            Tys::Cons(
                Ty::Str,
                Box::new(Tys::Cons(Ty::Int, Box::new(Tys::Cons(Ty::Int, Box::new(Tys::Nil))))),
            ),
            Ty::Str,
        ),
    );
    vc.insert(
        SYM_CONCAT,
        Binding::Fun(Tys::Cons(Ty::Str, Box::new(Tys::Cons(Ty::Str, Box::new(Tys::Nil)))), Ty::Str),
    );
    vc.insert(SYM_NOT, Binding::Fun(Tys::Cons(Ty::Int, Box::new(Tys::Nil)), Ty::Int));
    vc.insert(SYM_EXIT, Binding::Fun(Tys::Cons(Ty::Int, Box::new(Tys::Nil)), Ty::Unit));
    let mut tc = TypeContext::new();
    tc.insert(SYM_INT, Ty::Int);
    tc.insert(SYM_STRING, Ty::Str);
    assert(vc@ =~= base_vc());
    assert(tc@ =~= base_tc());
    (vc, tc)
}

/// The semantic analyzer.
pub struct Checker {}

impl Checker {
    /// Type a whole program: the first semantic error, or nothing.
    pub fn check(ast: &Exp) -> (r: Result<(), Error>)
        ensures
            r == check_s(*ast),
    {
        let (vc, tc) = base_contexts();
        match check_exp(&vc, &tc, false, 0, ast) {
            Ok(_) => Ok(()),
            Err(e) => Err(e),
        }
    }
}

} // verus!
