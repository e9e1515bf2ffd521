//! Tests of the printer and the error renderer.

use tigerc::ast::{Binop, Dec, Exp, FieldDec, FunDec, Type, TypeDec, Var};
use tigerc::display::DisplayIndent;
use tigerc::error::{Error, Lex, Parse, Type as TypeError};
use tigerc::span::Span;

fn sp() -> Span {
    Span::new(0, 0)
}

#[test]
fn prints_integers() {
    assert_eq!(Exp::Int(42, sp()).display_indent(0), "42\n");
    assert_eq!(Exp::Int(-7, sp()).display_indent(1), "  -7\n");
    assert_eq!(Exp::Int(i32::MIN, sp()).display_indent(0), "-2147483648\n");
    assert_eq!(Exp::Int(0, sp()).display_indent(0), "0\n");
}

#[test]
fn prints_leaves() {
    assert_eq!(Exp::Nil(sp()).display_indent(0), "nil\n");
    assert_eq!(Exp::Break(sp()).display_indent(2), "    break\n");
    assert_eq!(Exp::Str(String::from("hi"), sp()).display_indent(0), "\"hi\"\n");
    assert_eq!(Exp::Var(Var::Simple(23, sp()), sp()).display_indent(0), "#23\n");
}

#[test]
fn prints_binary_expressions_indented() {
    let e = Exp::Bin {
        lhs: Box::new(Exp::Int(1, sp())),
        op: Binop::Add,
        rhs: Box::new(Exp::Int(2, sp())),
        span: sp(),
    };
    assert_eq!(e.display_indent(0), "(\n  1\n  +\n  2\n)\n");
}

#[test]
fn prints_assignment() {
    let e = Exp::Ass {
        name: Var::Simple(20, sp()),
        exp: Box::new(Exp::Int(3, sp())),
        span: sp(),
    };
    assert_eq!(e.display_indent(0), "(\n  #20\n  :=\n  3\n)\n");
}

#[test]
fn prints_operators() {
    assert_eq!(Binop::Neq.display_indent(0), "<>\n");
    assert_eq!(Binop::Le.display_indent(0), "<=\n");
    assert_eq!(Binop::LAnd.display_indent(0), "&\n");
}

#[test]
fn renders_error_lines() {
    let e = Error::lexical(0, 1, Lex::Unknown);
    assert_eq!(e.to_debug(1, 2), "1:2 lexical error: Unknown token.");
    let p = Error::syntactic(0, 1, Parse::Extra);
    assert_eq!(p.to_debug(10, 20), "10:20 syntactic error: Extra tokens encountered.");
    let s = Error::semantic(sp(), TypeError::Break);
    assert_eq!(s.to_debug(3, 4), "3:4 semantic error: ");
}

#[test]
fn prints_a_let_with_a_declaration() {
    let e = Exp::Let {
        decs: vec![Dec::Var {
            name: 18,
            name_span: sp(),
            escape: false,
            ty: None,
            ty_span: None,
            init: Exp::Int(1, sp()),
            span: sp(),
        }],
        body: Box::new(Exp::Var(Var::Simple(18, sp()), sp())),
        span: sp(),
    };
    assert_eq!(
        e.display_indent(0),
        "(\n  let\n  (\n    (\n      var #18 :=\n      1\n    )\n  )\n  in\n  #18\n)\n"
    );
}

#[test]
fn prints_a_type_declaration() {
    let d = Dec::Type(
        vec![TypeDec {
            name: 18,
            name_span: sp(),
            ty: Type::Arr(0, sp(), sp()),
            span: sp(),
        }],
        sp(),
    );
    assert_eq!(d.display_indent(0), "(\n  (\n    type #18 =\n    array of #0\n  )\n)\n");
}

#[test]
fn prints_a_function_declaration() {
    let d = Dec::Fun(
        vec![FunDec {
            name: 18,
            name_span: sp(),
            args: vec![FieldDec {
                name: 19,
                name_span: sp(),
                escape: false,
                ty: 0,
                ty_span: sp(),
                span: sp(),
            }],
            rets: Some(0),
            rets_span: Some(sp()),
            body: Exp::Int(1, sp()),
            span: sp(),
        }],
        sp(),
    );
    assert_eq!(
        d.display_indent(0),
        "(\n  (\n    function #18 : #0\n    (\n      #19 : #0\n    )\n    =\n    1\n  )\n)\n"
    );
}
