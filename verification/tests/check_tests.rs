//! Tests of the semantic analyzer.

use tigerc::ast::{Binop, Dec, Exp, Field, FieldDec, FunDec, Type as AstType, TypeDec, Var};
use tigerc::check::Checker;
use tigerc::error::{Kind, Type as TypeError};
use tigerc::span::{Span, SYM_FIRST_USER, SYM_INT, SYM_PRINT, SYM_STRING};
use tigerc::ty::{Ty, TyList};

fn sp() -> Span {
    Span::new(0, 0)
}

fn sp_at(n: u32) -> Span {
    Span::new(n, n + 1)
}

fn num(n: i32) -> Exp {
    Exp::Int(n, sp())
}

fn var(name: u64) -> Exp {
    Exp::Var(Var::Simple(name, sp()), sp())
}

fn bin(lhs: Exp, op: Binop, rhs: Exp) -> Exp {
    Exp::Bin { lhs: Box::new(lhs), op, rhs: Box::new(rhs), span: sp() }
}

fn let_in(decs: Vec<Dec>, body: Exp) -> Exp {
    Exp::Let { decs, body: Box::new(body), span: sp() }
}

fn var_dec(name: u64, ty: Option<u64>, init: Exp) -> Dec {
    Dec::Var {
        name,
        name_span: sp(),
        escape: true,
        ty,
        ty_span: ty.map(|_| sp()),
        init,
        span: sp(),
    }
}

fn type_group(decs: Vec<(u64, AstType)>) -> Dec {
    Dec::Type(
        decs.into_iter()
            .map(|(name, ty)| TypeDec { name, name_span: sp(), ty, span: sp() })
            .collect(),
        sp(),
    )
}

fn rec_type(fields: Vec<(u64, u64)>) -> AstType {
    AstType::Rec(
        fields
            .into_iter()
            .map(|(name, ty)| FieldDec {
                name,
                name_span: sp(),
                escape: true,
                ty,
                ty_span: sp(),
                span: sp(),
            })
            .collect(),
        sp(),
    )
}

fn semantic_kind(r: Result<(), tigerc::error::Error>) -> TypeError {
    match r {
        Err(e) => match e.kind {
            Kind::Semantic(t) => t,
            _ => panic!("expected a semantic error"),
        },
        Ok(()) => panic!("expected an error"),
    }
}

#[test]
fn accepts_arithmetic_let() {
    // let var x := 1 + 2 in x end
    let x = SYM_FIRST_USER;
    let ast = let_in(vec![var_dec(x, None, bin(num(1), Binop::Add, num(2)))], var(x));
    assert_eq!(Checker::check(&ast), Ok(()));
}

#[test]
fn nil_without_annotation_is_unknown_nil() {
    let x = SYM_FIRST_USER;
    let ast = let_in(vec![var_dec(x, None, Exp::Nil(sp()))], num(0));
    assert_eq!(semantic_kind(Checker::check(&ast)), TypeError::UnknownNil);
}

#[test]
fn nil_with_record_annotation_is_accepted() {
    let r = SYM_FIRST_USER;
    let x = SYM_FIRST_USER + 1;
    let f = SYM_FIRST_USER + 2;
    let ast = let_in(
        vec![
            type_group(vec![(r, rec_type(vec![(f, SYM_INT)]))]),
            var_dec(x, Some(r), Exp::Nil(sp())),
        ],
        num(0),
    );
    assert_eq!(Checker::check(&ast), Ok(()));
}

#[test]
fn record_literal_field_order_must_match() {
    let r = SYM_FIRST_USER;
    let x = SYM_FIRST_USER + 1;
    let fa = SYM_FIRST_USER + 2;
    let fb = SYM_FIRST_USER + 3;
    let lit = Exp::Rec {
        name: r,
        name_span: sp(),
        fields: vec![
            Field { name: fb, name_span: sp(), exp: Box::new(num(2)), span: sp() },
            Field { name: fa, name_span: sp(), exp: Box::new(num(1)), span: sp() },
        ],
        span: sp(),
    };
    let ast = let_in(
        vec![
            type_group(vec![(r, rec_type(vec![(fa, SYM_INT), (fb, SYM_INT)]))]),
            var_dec(x, None, lit),
        ],
        num(0),
    );
    assert_eq!(semantic_kind(Checker::check(&ast)), TypeError::FieldMismatch);
}

#[test]
fn record_literal_in_order_is_accepted() {
    let r = SYM_FIRST_USER;
    let x = SYM_FIRST_USER + 1;
    let fa = SYM_FIRST_USER + 2;
    let fb = SYM_FIRST_USER + 3;
    let lit = Exp::Rec {
        name: r,
        name_span: sp(),
        fields: vec![
            Field { name: fa, name_span: sp(), exp: Box::new(num(1)), span: sp() },
            Field { name: fb, name_span: sp(), exp: Box::new(num(2)), span: sp() },
        ],
        span: sp(),
    };
    let ast = let_in(
        vec![
            type_group(vec![(r, rec_type(vec![(fa, SYM_INT), (fb, SYM_INT)]))]),
            var_dec(x, None, lit),
        ],
        num(0),
    );
    assert_eq!(Checker::check(&ast), Ok(()));
}

#[test]
fn assignment_to_induction_variable_is_immutable() {
    let i = SYM_FIRST_USER;
    let body = Exp::Ass { name: Var::Simple(i, sp()), exp: Box::new(num(5)), span: sp_at(7) };
    let ast = Exp::For {
        name: i,
        escape: false,
        lo: Box::new(num(1)),
        hi: Box::new(num(10)),
        body: Box::new(body),
        span: sp(),
    };
    let r = Checker::check(&ast);
    assert_eq!(semantic_kind(r), TypeError::AssignImmutable);
}

#[test]
fn assignment_to_ordinary_variable_is_accepted() {
    let x = SYM_FIRST_USER;
    let ast = let_in(
        vec![var_dec(x, None, num(1))],
        Exp::Ass { name: Var::Simple(x, sp()), exp: Box::new(num(2)), span: sp() },
    );
    assert_eq!(Checker::check(&ast), Ok(()));
}

#[test]
fn pure_alias_cycle_is_rejected() {
    // type a = b; type b = a
    let a = SYM_FIRST_USER;
    let b = SYM_FIRST_USER + 1;
    let ast = let_in(
        vec![type_group(vec![(a, AstType::Name(b, sp())), (b, AstType::Name(a, sp()))])],
        num(0),
    );
    assert_eq!(semantic_kind(Checker::check(&ast)), TypeError::UnboundType);
}

#[test]
fn alias_cycle_through_record_is_accepted() {
    // type list = {head: int, tail: list}
    let list = SYM_FIRST_USER;
    let head = SYM_FIRST_USER + 1;
    let tail = SYM_FIRST_USER + 2;
    let ast = let_in(
        vec![type_group(vec![(list, rec_type(vec![(head, SYM_INT), (tail, list)]))])],
        num(0),
    );
    assert_eq!(Checker::check(&ast), Ok(()));
}

#[test]
fn nil_equals_nil_is_rejected() {
    let ast = bin(Exp::Nil(sp()), Binop::Eq, Exp::Nil(sp()));
    // The whole program must also be well-formed: embed as a guard.
    let guarded = Exp::If {
        guard: Box::new(ast),
        then: Box::new(num(1)),
        or: Some(Box::new(num(2))),
        span: sp(),
    };
    assert_eq!(semantic_kind(Checker::check(&guarded)), TypeError::BinaryMismatch);
}

#[test]
fn nil_equals_record_is_int() {
    let r = SYM_FIRST_USER;
    let x = SYM_FIRST_USER + 1;
    let f = SYM_FIRST_USER + 2;
    // the comparison types as Int, witnessed by standing as an if guard
    let guard = bin(Exp::Nil(sp()), Binop::Eq, var(x));
    let ast = let_in(
        vec![
            type_group(vec![(r, rec_type(vec![(f, SYM_INT)]))]),
            var_dec(x, Some(r), Exp::Nil(sp())),
        ],
        Exp::If { guard: Box::new(guard), then: Box::new(num(1)), or: Some(Box::new(num(2))), span: sp() },
    );
    assert_eq!(Checker::check(&ast), Ok(()));
}

#[test]
fn records_of_different_declarations_do_not_compare() {
    let r1 = SYM_FIRST_USER;
    let r2 = SYM_FIRST_USER + 1;
    let a = SYM_FIRST_USER + 2;
    let b = SYM_FIRST_USER + 3;
    let f = SYM_FIRST_USER + 4;
    let ast = let_in(
        vec![
            type_group(vec![
                (r1, rec_type(vec![(f, SYM_INT)])),
                (r2, rec_type(vec![(f, SYM_INT)])),
            ]),
            var_dec(a, Some(r1), Exp::Nil(sp())),
            var_dec(b, Some(r2), Exp::Nil(sp())),
        ],
        Exp::If {
            guard: Box::new(bin(var(a), Binop::Eq, var(b))),
            then: Box::new(num(1)),
            or: Some(Box::new(num(2))),
            span: sp(),
        },
    );
    assert_eq!(semantic_kind(Checker::check(&ast)), TypeError::BinaryMismatch);
}

#[test]
fn records_of_one_declaration_compare() {
    let r1 = SYM_FIRST_USER;
    let a = SYM_FIRST_USER + 2;
    let b = SYM_FIRST_USER + 3;
    let f = SYM_FIRST_USER + 4;
    let ast = let_in(
        vec![
            type_group(vec![(r1, rec_type(vec![(f, SYM_INT)]))]),
            var_dec(a, Some(r1), Exp::Nil(sp())),
            var_dec(b, Some(r1), Exp::Nil(sp())),
        ],
        Exp::If {
            guard: Box::new(bin(var(a), Binop::Eq, var(b))),
            then: Box::new(num(1)),
            or: Some(Box::new(num(2))),
            span: sp(),
        },
    );
    assert_eq!(Checker::check(&ast), Ok(()));
}

#[test]
fn ordered_comparison_takes_ints_and_strings_only() {
    let ok_int = Exp::If {
        guard: Box::new(bin(num(1), Binop::Lt, num(2))),
        then: Box::new(num(1)),
        or: Some(Box::new(num(2))),
        span: sp(),
    };
    assert_eq!(Checker::check(&ok_int), Ok(()));
    let ok_str = Exp::If {
        guard: Box::new(bin(
            Exp::Str(String::from("a"), sp()),
            Binop::Lt,
            Exp::Str(String::from("b"), sp()),
        )),
        then: Box::new(num(1)),
        or: Some(Box::new(num(2))),
        span: sp(),
    };
    assert_eq!(Checker::check(&ok_str), Ok(()));
    let mixed = Exp::If {
        guard: Box::new(bin(Exp::Str(String::from("a"), sp()), Binop::Lt, num(2))),
        then: Box::new(num(1)),
        or: Some(Box::new(num(2))),
        span: sp(),
    };
    assert_eq!(semantic_kind(Checker::check(&mixed)), TypeError::BinaryMismatch);
}

#[test]
fn break_outside_loop_is_rejected() {
    assert_eq!(semantic_kind(Checker::check(&Exp::Break(sp()))), TypeError::Break);
}

#[test]
fn break_inside_while_is_accepted() {
    let ast = Exp::While { guard: Box::new(num(1)), body: Box::new(Exp::Break(sp())), span: sp() };
    assert_eq!(Checker::check(&ast), Ok(()));
}

#[test]
fn unbound_variable_is_rejected() {
    assert_eq!(semantic_kind(Checker::check(&var(SYM_FIRST_USER))), TypeError::UnboundType);
}

#[test]
fn unbound_function_is_rejected() {
    let ast = Exp::Call { name: SYM_FIRST_USER, name_span: sp(), args: vec![], span: sp() };
    assert_eq!(semantic_kind(Checker::check(&ast)), TypeError::UnboundFunction);
}

#[test]
fn calling_a_variable_is_not_function() {
    let x = SYM_FIRST_USER;
    let ast = let_in(
        vec![var_dec(x, None, num(1))],
        Exp::Call { name: x, name_span: sp(), args: vec![], span: sp() },
    );
    assert_eq!(semantic_kind(Checker::check(&ast)), TypeError::NotFunction);
}

#[test]
fn call_arity_is_checked() {
    let ast = Exp::Call { name: SYM_PRINT, name_span: sp(), args: vec![], span: sp() };
    assert_eq!(semantic_kind(Checker::check(&ast)), TypeError::CallMismatch);
}

#[test]
fn call_argument_type_is_checked() {
    let ast = Exp::Call { name: SYM_PRINT, name_span: sp(), args: vec![num(1)], span: sp() };
    assert_eq!(semantic_kind(Checker::check(&ast)), TypeError::CallMismatch);
}

#[test]
fn runtime_call_is_accepted() {
    let ast = Exp::Call {
        name: SYM_PRINT,
        name_span: sp(),
        args: vec![Exp::Str(String::from("hi"), sp())],
        span: sp(),
    };
    assert_eq!(Checker::check(&ast), Ok(()));
}

#[test]
fn negation_needs_int() {
    let ast = Exp::Neg(Box::new(Exp::Str(String::from("a"), sp())), sp());
    assert_eq!(semantic_kind(Checker::check(&ast)), TypeError::Neg);
}

#[test]
fn field_access_on_int_is_not_record() {
    let x = SYM_FIRST_USER;
    let f = SYM_FIRST_USER + 1;
    let ast = let_in(
        vec![var_dec(x, None, num(1))],
        Exp::Var(Var::Field(Box::new(Var::Simple(x, sp())), f, sp(), sp()), sp()),
    );
    assert_eq!(semantic_kind(Checker::check(&ast)), TypeError::NotRecord);
}

#[test]
fn missing_field_is_unbound() {
    let r = SYM_FIRST_USER;
    let x = SYM_FIRST_USER + 1;
    let fa = SYM_FIRST_USER + 2;
    let fb = SYM_FIRST_USER + 3;
    let ast = let_in(
        vec![
            type_group(vec![(r, rec_type(vec![(fa, SYM_INT)]))]),
            var_dec(x, Some(r), Exp::Nil(sp())),
        ],
        Exp::Var(Var::Field(Box::new(Var::Simple(x, sp())), fb, sp(), sp()), sp()),
    );
    assert_eq!(semantic_kind(Checker::check(&ast)), TypeError::UnboundField);
}

#[test]
fn indexing_an_int_is_not_array() {
    let x = SYM_FIRST_USER;
    let ast = let_in(
        vec![var_dec(x, None, num(1))],
        Exp::Var(
            Var::Index(Box::new(Var::Simple(x, sp())), Box::new(num(0)), sp()),
            sp(),
        ),
    );
    assert_eq!(semantic_kind(Checker::check(&ast)), TypeError::NotArr);
}

#[test]
fn index_must_be_int() {
    let a = SYM_FIRST_USER;
    let x = SYM_FIRST_USER + 1;
    let arr = Exp::Arr {
        name: a,
        name_span: sp(),
        size: Box::new(num(10)),
        init: Box::new(num(0)),
        span: sp(),
    };
    let ast = let_in(
        vec![type_group(vec![(a, AstType::Arr(SYM_INT, sp(), sp()))]), var_dec(x, None, arr)],
        Exp::Var(
            Var::Index(
                Box::new(Var::Simple(x, sp())),
                Box::new(Exp::Str(String::from("i"), sp())),
                sp(),
            ),
            sp(),
        ),
    );
    assert_eq!(semantic_kind(Checker::check(&ast)), TypeError::IndexMismatch);
}

#[test]
fn record_literal_of_unbound_name() {
    let ast = Exp::Rec { name: SYM_FIRST_USER, name_span: sp(), fields: vec![], span: sp() };
    assert_eq!(semantic_kind(Checker::check(&ast)), TypeError::UnboundRecord);
}

#[test]
fn array_literal_of_unbound_name() {
    let ast = Exp::Arr {
        name: SYM_FIRST_USER,
        name_span: sp(),
        size: Box::new(num(1)),
        init: Box::new(num(0)),
        span: sp(),
    };
    assert_eq!(semantic_kind(Checker::check(&ast)), TypeError::UnboundArr);
}

#[test]
fn assigned_value_must_subtype_variable() {
    let x = SYM_FIRST_USER;
    let ast = let_in(
        vec![var_dec(x, None, num(1))],
        Exp::Ass {
            name: Var::Simple(x, sp()),
            exp: Box::new(Exp::Str(String::from("s"), sp())),
            span: sp(),
        },
    );
    assert_eq!(semantic_kind(Checker::check(&ast)), TypeError::VarMismatch);
}

#[test]
fn guard_must_be_int() {
    let ast = Exp::If {
        guard: Box::new(Exp::Str(String::from("s"), sp())),
        then: Box::new(num(1)),
        or: Some(Box::new(num(2))),
        span: sp(),
    };
    assert_eq!(semantic_kind(Checker::check(&ast)), TypeError::GuardMismatch);
}

#[test]
fn branches_must_agree() {
    let ast = Exp::If {
        guard: Box::new(num(1)),
        then: Box::new(num(1)),
        or: Some(Box::new(Exp::Str(String::from("s"), sp()))),
        span: sp(),
    };
    assert_eq!(semantic_kind(Checker::check(&ast)), TypeError::BranchMismatch);
}

#[test]
fn if_without_else_must_be_unit() {
    let ast = Exp::If { guard: Box::new(num(1)), then: Box::new(num(1)), or: None, span: sp() };
    assert_eq!(semantic_kind(Checker::check(&ast)), TypeError::UnusedBranch);
}

#[test]
fn while_body_must_be_unit() {
    let ast = Exp::While { guard: Box::new(num(1)), body: Box::new(num(2)), span: sp() };
    assert_eq!(semantic_kind(Checker::check(&ast)), TypeError::UnusedWhileBody);
}

#[test]
fn for_body_must_be_unit() {
    let ast = Exp::For {
        name: SYM_FIRST_USER,
        escape: false,
        lo: Box::new(num(1)),
        hi: Box::new(num(2)),
        body: Box::new(num(3)),
        span: sp(),
    };
    assert_eq!(semantic_kind(Checker::check(&ast)), TypeError::UnusedForBody);
}

#[test]
fn for_bounds_must_be_int() {
    let ast = Exp::For {
        name: SYM_FIRST_USER,
        escape: false,
        lo: Box::new(Exp::Str(String::from("s"), sp())),
        hi: Box::new(num(2)),
        body: Box::new(Exp::Seqs(vec![], sp())),
        span: sp(),
    };
    assert_eq!(semantic_kind(Checker::check(&ast)), TypeError::ForBound);
}

#[test]
fn array_initializer_must_subtype_element() {
    let a = SYM_FIRST_USER;
    let ast = let_in(
        vec![type_group(vec![(a, AstType::Arr(SYM_INT, sp(), sp()))])],
        Exp::Arr {
            name: a,
            name_span: sp(),
            size: Box::new(num(3)),
            init: Box::new(Exp::Str(String::from("s"), sp())),
            span: sp(),
        },
    );
    assert_eq!(semantic_kind(Checker::check(&ast)), TypeError::ArrMismatch);
}

#[test]
fn function_body_must_subtype_return() {
    let f = SYM_FIRST_USER;
    let fun = FunDec {
        name: f,
        name_span: sp(),
        args: vec![],
        rets: Some(SYM_INT),
        rets_span: Some(sp()),
        body: Exp::Str(String::from("s"), sp()),
        span: sp(),
    };
    let ast = let_in(vec![Dec::Fun(vec![fun], sp())], num(0));
    assert_eq!(semantic_kind(Checker::check(&ast)), TypeError::ReturnMismatch);
}

#[test]
fn duplicate_function_names_conflict() {
    let f = SYM_FIRST_USER;
    let mk = || FunDec {
        name: f,
        name_span: sp(),
        args: vec![],
        rets: None,
        rets_span: None,
        body: Exp::Seqs(vec![], sp()),
        span: sp(),
    };
    let ast = let_in(vec![Dec::Fun(vec![mk(), mk()], sp())], num(0));
    assert_eq!(semantic_kind(Checker::check(&ast)), TypeError::FunConflict);
}

#[test]
fn duplicate_type_names_conflict() {
    let a = SYM_FIRST_USER;
    let ast = let_in(
        vec![type_group(vec![
            (a, AstType::Name(SYM_INT, sp())),
            (a, AstType::Name(SYM_STRING, sp())),
        ])],
        num(0),
    );
    assert_eq!(semantic_kind(Checker::check(&ast)), TypeError::TypeConflict);
}

#[test]
fn mutually_recursive_functions_are_accepted() {
    let f = SYM_FIRST_USER;
    let g = SYM_FIRST_USER + 1;
    let x = SYM_FIRST_USER + 2;
    let call = |callee: u64| Exp::Call { name: callee, name_span: sp(), args: vec![num(1)], span: sp() };
    let arg = || FieldDec {
        name: x,
        name_span: sp(),
        escape: false,
        ty: SYM_INT,
        ty_span: sp(),
        span: sp(),
    };
    let fun_f = FunDec {
        name: f,
        name_span: sp(),
        args: vec![arg()],
        rets: Some(SYM_INT),
        rets_span: Some(sp()),
        body: call(g),
        span: sp(),
    };
    let fun_g = FunDec {
        name: g,
        name_span: sp(),
        args: vec![arg()],
        rets: Some(SYM_INT),
        rets_span: Some(sp()),
        body: call(f),
        span: sp(),
    };
    let ast = let_in(vec![Dec::Fun(vec![fun_f, fun_g], sp())], call(f));
    assert_eq!(Checker::check(&ast), Ok(()));
}

#[test]
fn error_carries_its_span() {
    let ast = Exp::Break(sp_at(3));
    match Checker::check(&ast) {
        Err(e) => assert_eq!(e.span, sp_at(3)),
        Ok(()) => panic!("expected an error"),
    }
}

#[test]
fn binop_classes() {
    assert!(Binop::Eq.is_equality());
    assert!(Binop::Neq.is_equality());
    assert!(!Binop::Lt.is_equality());
    assert!(Binop::Le.is_comparison());
    assert!(Binop::Gt.is_comparison());
    assert!(!Binop::Add.is_comparison());
}

#[test]
fn type_class_predicates() {
    let arr = Ty::Arr(Box::new(Ty::Int), 0);
    let rec = Ty::Rec(Box::new(TyList::Nil), 1);
    assert!(arr.is_arr());
    assert!(!arr.is_rec());
    assert!(rec.is_rec());
    assert!(!rec.is_arr());
    assert!(!Ty::Int.is_arr());
}

#[test]
fn break_cannot_escape_a_nested_function() {
    // while 1 do let function f() = break in f() end
    let f = SYM_FIRST_USER;
    let fun = FunDec {
        name: f,
        name_span: sp(),
        args: vec![],
        rets: None,
        rets_span: None,
        body: Exp::Break(sp()),
        span: sp(),
    };
    let body = let_in(
        vec![Dec::Fun(vec![fun], sp())],
        Exp::Call { name: f, name_span: sp(), args: vec![], span: sp() },
    );
    let ast = Exp::While { guard: Box::new(num(1)), body: Box::new(body), span: sp() };
    assert_eq!(semantic_kind(Checker::check(&ast)), TypeError::Break);
}
