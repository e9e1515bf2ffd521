//! Tests of the IR translator.

use tigerc::ast::{Binop, Dec, Exp, FieldDec, FunDec, Var};
use tigerc::frame::Frame;
use tigerc::ir;
use tigerc::operand::{Label, Reg, Temp};
use tigerc::span::{Span, SYM_FIRST_USER, SYM_INIT_ARRAY, SYM_INT, SYM_MAIN};
use tigerc::translate::Translator;

fn sp() -> Span {
    Span::new(0, 0)
}

fn num(n: i32) -> Exp {
    Exp::Int(n, sp())
}

fn letexp(decs: Vec<Dec>, body: Exp) -> Exp {
    Exp::Let { decs, body: Box::new(body), span: sp() }
}

fn vardec(name: u64, escape: bool, init: Exp) -> Dec {
    Dec::Var { name, name_span: sp(), escape, ty: None, ty_span: None, init, span: sp() }
}

// --- helpers walking the emitted IR ---

fn exp_count_add_1_2(e: &ir::Exp) -> usize {
    match e {
        ir::Exp::Binop(l, ir::Binop::Add, r) => {
            let own = match (&**l, &**r) {
                (ir::Exp::Const(1), ir::Exp::Const(2)) => 1,
                _ => 0,
            };
            own + exp_count_add_1_2(l) + exp_count_add_1_2(r)
        }
        ir::Exp::Binop(l, _, r) => exp_count_add_1_2(l) + exp_count_add_1_2(r),
        ir::Exp::Mem(m) => exp_count_add_1_2(m),
        ir::Exp::Call(f, args) => {
            exp_count_add_1_2(f) + args.iter().map(exp_count_add_1_2).sum::<usize>()
        }
        ir::Exp::ESeq(s, e2) => stm_count_add_1_2(s) + exp_count_add_1_2(e2),
        _ => 0,
    }
}

fn stm_count_add_1_2(s: &ir::Stm) -> usize {
    match s {
        ir::Stm::Move(a, b) => exp_count_add_1_2(a) + exp_count_add_1_2(b),
        ir::Stm::Exp(e) => exp_count_add_1_2(e),
        ir::Stm::Jump(e, _) => exp_count_add_1_2(e),
        ir::Stm::CJump(l, _, r, _, _) => exp_count_add_1_2(l) + exp_count_add_1_2(r),
        ir::Stm::Seqs(v) => v.iter().map(stm_count_add_1_2).sum(),
        _ => 0,
    }
}

struct Calls<'a> {
    found: Vec<(&'a ir::Exp, &'a Vec<ir::Exp>)>,
}

fn collect_calls_exp<'a>(e: &'a ir::Exp, out: &mut Calls<'a>) {
    match e {
        ir::Exp::Binop(l, _, r) => {
            collect_calls_exp(l, out);
            collect_calls_exp(r, out);
        }
        ir::Exp::Mem(m) => collect_calls_exp(m, out),
        ir::Exp::Call(f, args) => {
            out.found.push((&**f, args));
            collect_calls_exp(f, out);
            for a in args {
                collect_calls_exp(a, out);
            }
        }
        ir::Exp::ESeq(s, e2) => {
            collect_calls_stm(s, out);
            collect_calls_exp(e2, out);
        }
        _ => {}
    }
}

fn collect_calls_stm<'a>(s: &'a ir::Stm, out: &mut Calls<'a>) {
    match s {
        ir::Stm::Move(a, b) => {
            collect_calls_exp(a, out);
            collect_calls_exp(b, out);
        }
        ir::Stm::Exp(e) => collect_calls_exp(e, out),
        ir::Stm::Jump(e, _) => collect_calls_exp(e, out),
        ir::Stm::CJump(l, _, r, _, _) => {
            collect_calls_exp(l, out);
            collect_calls_exp(r, out);
        }
        ir::Stm::Seqs(v) => {
            for s2 in v {
                collect_calls_stm(s2, out);
            }
        }
        _ => {}
    }
}

fn labels_defined(s: &ir::Stm, out: &mut Vec<Label>) {
    match s {
        ir::Stm::Label(l) => out.push(*l),
        ir::Stm::Seqs(v) => {
            for s2 in v {
                labels_defined(s2, out);
            }
        }
        ir::Stm::Move(a, b) => {
            labels_defined_exp(a, out);
            labels_defined_exp(b, out);
        }
        ir::Stm::Exp(e) => labels_defined_exp(e, out),
        ir::Stm::Jump(e, _) => labels_defined_exp(e, out),
        ir::Stm::CJump(l, _, r, _, _) => {
            labels_defined_exp(l, out);
            labels_defined_exp(r, out);
        }
        _ => {}
    }
}

fn labels_defined_exp(e: &ir::Exp, out: &mut Vec<Label>) {
    match e {
        ir::Exp::Binop(l, _, r) => {
            labels_defined_exp(l, out);
            labels_defined_exp(r, out);
        }
        ir::Exp::Mem(m) => labels_defined_exp(m, out),
        ir::Exp::Call(f, args) => {
            labels_defined_exp(f, out);
            for a in args {
                labels_defined_exp(a, out);
            }
        }
        ir::Exp::ESeq(s, e2) => {
            labels_defined(s, out);
            labels_defined_exp(e2, out);
        }
        _ => {}
    }
}

fn labels_referenced(s: &ir::Stm, out: &mut Vec<Label>) {
    match s {
        ir::Stm::Jump(e, targets) => {
            out.extend(targets.iter().copied());
            labels_referenced_exp(e, out);
        }
        ir::Stm::CJump(l, _, r, t, f) => {
            out.push(*t);
            out.push(*f);
            labels_referenced_exp(l, out);
            labels_referenced_exp(r, out);
        }
        ir::Stm::Seqs(v) => {
            for s2 in v {
                labels_referenced(s2, out);
            }
        }
        ir::Stm::Move(a, b) => {
            labels_referenced_exp(a, out);
            labels_referenced_exp(b, out);
        }
        ir::Stm::Exp(e) => labels_referenced_exp(e, out),
        _ => {}
    }
}

fn labels_referenced_exp(e: &ir::Exp, out: &mut Vec<Label>) {
    match e {
        ir::Exp::Binop(l, _, r) => {
            labels_referenced_exp(l, out);
            labels_referenced_exp(r, out);
        }
        ir::Exp::Mem(m) => labels_referenced_exp(m, out),
        ir::Exp::Call(f, args) => {
            labels_referenced_exp(f, out);
            for a in args {
                labels_referenced_exp(a, out);
            }
        }
        ir::Exp::ESeq(s, e2) => {
            labels_referenced(s, out);
            labels_referenced_exp(e2, out);
        }
        _ => {}
    }
}

fn frames_labels_wf(frames: &[Frame]) {
    let mut defined: Vec<Label> = Vec::new();
    let mut referenced: Vec<Label> = Vec::new();
    for f in frames {
        if let Some(b) = &f.body {
            labels_defined(b, &mut defined);
            labels_referenced(b, &mut referenced);
        }
    }
    for l in &defined {
        assert!(referenced.contains(l), "label defined but never referenced");
    }
}

#[test]
fn arithmetic_let_keeps_the_addition() {
    // let var x := 1 + 2 in x end
    let x = SYM_FIRST_USER;
    let ast = letexp(
        vec![vardec(
            x,
            false,
            Exp::Bin { lhs: Box::new(num(1)), op: Binop::Add, rhs: Box::new(num(2)), span: sp() },
        )],
        Exp::Var(Var::Simple(x, sp()), sp()),
    );
    let (statics, frames) = Translator::translate(&ast).expect("translates");
    assert!(statics.is_empty());
    assert_eq!(frames.len(), 1);
    assert_eq!(frames[0].label, Label::Fixed(SYM_MAIN));
    let body = frames[0].body.as_ref().expect("wrapped body");
    assert_eq!(stm_count_add_1_2(body), 1);
    let mut calls = Calls { found: Vec::new() };
    collect_calls_stm(body, &mut calls);
    assert!(calls.found.is_empty(), "no call in a pure arithmetic program");
}

#[test]
fn array_literal_calls_init_array_once() {
    // let type a = array of int var x := a[10] of 0 in x[3] end
    let a = SYM_FIRST_USER;
    let x = SYM_FIRST_USER + 1;
    let ast = letexp(
        vec![
            Dec::Type(
                vec![tigerc::ast::TypeDec {
                    name: a,
                    name_span: sp(),
                    ty: tigerc::ast::Type::Arr(SYM_INT, sp(), sp()),
                    span: sp(),
                }],
                sp(),
            ),
            vardec(
                x,
                false,
                Exp::Arr {
                    name: a,
                    name_span: sp(),
                    size: Box::new(num(10)),
                    init: Box::new(num(0)),
                    span: sp(),
                },
            ),
        ],
        Exp::Var(
            Var::Index(Box::new(Var::Simple(x, sp())), Box::new(num(3)), sp()),
            sp(),
        ),
    );
    let (_, frames) = Translator::translate(&ast).expect("translates");
    let body = frames[0].body.as_ref().unwrap();
    let mut calls = Calls { found: Vec::new() };
    collect_calls_stm(body, &mut calls);
    let inits: Vec<_> = calls
        .found
        .iter()
        .filter(|(f, _)| matches!(f, ir::Exp::Name(Label::Fixed(SYM_INIT_ARRAY))))
        .collect();
    assert_eq!(inits.len(), 1);
    let (_, args) = inits[0];
    assert_eq!(args.len(), 2);
    assert!(matches!(args[0], ir::Exp::Const(10)));
    assert!(matches!(args[1], ir::Exp::Const(0)));
}

#[test]
fn nested_call_passes_the_static_link_first() {
    // let function f(x: int): int = x + 1 in f(41) end
    let f = SYM_FIRST_USER;
    let x = SYM_FIRST_USER + 1;
    let fun = FunDec {
        name: f,
        name_span: sp(),
        args: vec![FieldDec {
            name: x,
            name_span: sp(),
            escape: false,
            ty: SYM_INT,
            ty_span: sp(),
            span: sp(),
        }],
        rets: Some(SYM_INT),
        rets_span: Some(sp()),
        body: Exp::Bin {
            lhs: Box::new(Exp::Var(Var::Simple(x, sp()), sp())),
            op: Binop::Add,
            rhs: Box::new(num(1)),
            span: sp(),
        },
        span: sp(),
    };
    let call = Exp::Call { name: f, name_span: sp(), args: vec![num(41)], span: sp() };
    let ast = letexp(vec![Dec::Fun(vec![fun], sp())], call);
    let (_, frames) = Translator::translate(&ast).expect("translates");
    // one frame for f, then the entry frame
    assert_eq!(frames.len(), 2);
    let main_body = frames[1].body.as_ref().unwrap();
    let mut calls = Calls { found: Vec::new() };
    collect_calls_stm(main_body, &mut calls);
    assert_eq!(calls.found.len(), 1);
    let (callee, args) = &calls.found[0];
    assert!(matches!(**callee, ir::Exp::Name(Label::Fresh(_))));
    assert_eq!(args.len(), 2, "static link plus one actual");
    assert!(matches!(args[0], ir::Exp::Temp(Temp::Reg(Reg::RBP))));
    assert!(matches!(args[1], ir::Exp::Const(41)));
}

#[test]
fn escaping_upvalue_needs_one_static_link_load() {
    // let function outer(): int =
    //   let var n := 10 function inner(): int = n in inner() end
    // in outer() end
    let outer = SYM_FIRST_USER;
    let inner = SYM_FIRST_USER + 1;
    let n = SYM_FIRST_USER + 2;
    let inner_fun = FunDec {
        name: inner,
        name_span: sp(),
        args: vec![],
        rets: Some(SYM_INT),
        rets_span: Some(sp()),
        body: Exp::Var(Var::Simple(n, sp()), sp()),
        span: sp(),
    };
    let outer_body = letexp(
        vec![vardec(n, true, num(10)), Dec::Fun(vec![inner_fun], sp())],
        Exp::Call { name: inner, name_span: sp(), args: vec![], span: sp() },
    );
    let outer_fun = FunDec {
        name: outer,
        name_span: sp(),
        args: vec![],
        rets: Some(SYM_INT),
        rets_span: Some(sp()),
        body: outer_body,
        span: sp(),
    };
    let ast = letexp(
        vec![Dec::Fun(vec![outer_fun], sp())],
        Exp::Call { name: outer, name_span: sp(), args: vec![], span: sp() },
    );
    let (_, frames) = Translator::translate(&ast).expect("translates");
    // frames: inner, outer, main
    assert_eq!(frames.len(), 3);
    let inner_body = frames[0].body.as_ref().unwrap();
    // inner's body reads n as Mem(Mem(RBP - link) - off): exactly one
    // static-link dereference around the variable's own slot.
    fn depth_of_mem_chain(e: &ir::Exp) -> Option<usize> {
        match e {
            ir::Exp::Mem(m) => match &**m {
                ir::Exp::Binop(base, ir::Binop::Sub, off) => {
                    assert!(matches!(**off, ir::Exp::Const(_)));
                    match &**base {
                        ir::Exp::Temp(Temp::Reg(Reg::RBP)) => Some(1),
                        other => depth_of_mem_chain(other).map(|d| d + 1),
                    }
                }
                _ => None,
            },
            _ => None,
        }
    }
    match inner_body {
        ir::Stm::Move(src, dst) => {
            assert!(matches!(dst, ir::Exp::Temp(Temp::Reg(Reg::RAX))));
            let depth = depth_of_mem_chain(src).expect("a frame-pointer chain");
            assert_eq!(depth, 2, "one static-link load, then the variable's slot");
        }
        _ => panic!("inner body should be one move"),
    }
}

#[test]
fn every_defined_label_is_referenced() {
    // A program exercising if/else, while, for and break.
    let i = SYM_FIRST_USER;
    let body = Exp::If {
        guard: Box::new(Exp::Bin {
            lhs: Box::new(Exp::Var(Var::Simple(i, sp()), sp())),
            op: Binop::Eq,
            rhs: Box::new(num(5)),
            span: sp(),
        }),
        then: Box::new(Exp::Break(sp())),
        or: None,
        span: sp(),
    };
    let for_loop = Exp::For {
        name: i,
        escape: false,
        lo: Box::new(num(1)),
        hi: Box::new(num(10)),
        body: Box::new(body),
        span: sp(),
    };
    let while_loop = Exp::While {
        guard: Box::new(num(1)),
        body: Box::new(Exp::Break(sp())),
        span: sp(),
    };
    let ast = Exp::Seqs(vec![for_loop, while_loop, num(0)], sp());
    let (_, frames) = Translator::translate(&ast).expect("translates");
    frames_labels_wf(&frames);
}

#[test]
fn break_inside_for_jumps_to_the_exit_label() {
    let i = SYM_FIRST_USER;
    let for_loop = Exp::For {
        name: i,
        escape: false,
        lo: Box::new(num(1)),
        hi: Box::new(num(10)),
        body: Box::new(Exp::Break(sp())),
        span: sp(),
    };
    let (_, frames) = Translator::translate(&for_loop).expect("translates");
    let body = frames[0].body.as_ref().unwrap();
    // The loop's statement list ends with its exit label; the break's
    // jump targets that same label.
    fn find_for_stms(s: &ir::Stm) -> Option<&Vec<ir::Stm>> {
        match s {
            ir::Stm::Seqs(v) if v.len() == 10 => Some(v),
            ir::Stm::Seqs(v) => v.iter().find_map(find_for_stms),
            ir::Stm::Move(a, _) => match a {
                ir::Exp::ESeq(inner, _) => find_for_stms(inner),
                _ => None,
            },
            _ => None,
        }
    }
    let stms = find_for_stms(body).expect("the for loop's statements");
    let exit = match &stms[9] {
        ir::Stm::Label(l) => *l,
        _ => panic!("exit label last"),
    };
    let break_jump = match &stms[6] {
        ir::Stm::Jump(ir::Exp::Name(l), _) => *l,
        other => panic!("break should be a jump, got {:?}", other),
    };
    assert_eq!(break_jump, exit);
}

#[test]
fn string_literal_becomes_static_data() {
    let ast = Exp::Call {
        name: tigerc::span::SYM_PRINT,
        name_span: sp(),
        args: vec![Exp::Str(String::from("hello"), sp())],
        span: sp(),
    };
    let (statics, _) = Translator::translate(&ast).expect("translates");
    assert_eq!(statics.len(), 1);
    assert_eq!(statics[0].data, "hello");
}

#[test]
fn array_index_read_has_the_scaled_address_shape() {
    // let type a = array of int var x := a[10] of 0 in x[3] end:
    // the element read is mem[x + 3*8], the shape the tiler folds
    // into one memory operand
    let a = SYM_FIRST_USER;
    let x = SYM_FIRST_USER + 1;
    let ast = letexp(
        vec![
            Dec::Type(
                vec![tigerc::ast::TypeDec {
                    name: a,
                    name_span: sp(),
                    ty: tigerc::ast::Type::Arr(SYM_INT, sp(), sp()),
                    span: sp(),
                }],
                sp(),
            ),
            vardec(
                x,
                false,
                Exp::Arr {
                    name: a,
                    name_span: sp(),
                    size: Box::new(num(10)),
                    init: Box::new(num(0)),
                    span: sp(),
                },
            ),
        ],
        Exp::Var(
            Var::Index(Box::new(Var::Simple(x, sp())), Box::new(num(3)), sp()),
            sp(),
        ),
    );
    let (_, frames) = Translator::translate(&ast).expect("translates");
    let body = frames[0].body.as_ref().unwrap();
    fn has_scaled_read(e: &ir::Exp) -> bool {
        match e {
            ir::Exp::Mem(m) => {
                (match &**m {
                    ir::Exp::Binop(_, ir::Binop::Add, rhs) => matches!(
                        &**rhs,
                        ir::Exp::Binop(i3, ir::Binop::Mul, s8)
                            if matches!(&**i3, ir::Exp::Const(3))
                                && matches!(&**s8, ir::Exp::Const(8))
                    ),
                    _ => false,
                }) || has_scaled_read(m)
            }
            ir::Exp::Binop(l, _, r) => has_scaled_read(l) || has_scaled_read(r),
            ir::Exp::Call(f, args) => {
                has_scaled_read(f) || args.iter().any(has_scaled_read)
            }
            ir::Exp::ESeq(s, e2) => has_scaled_read_stm(s) || has_scaled_read(e2),
            _ => false,
        }
    }
    fn has_scaled_read_stm(s: &ir::Stm) -> bool {
        match s {
            ir::Stm::Move(a, b) => has_scaled_read(a) || has_scaled_read(b),
            ir::Stm::Exp(e) => has_scaled_read(e),
            ir::Stm::Jump(e, _) => has_scaled_read(e),
            ir::Stm::CJump(l, _, r, _, _) => has_scaled_read(l) || has_scaled_read(r),
            ir::Stm::Seqs(v) => v.iter().any(has_scaled_read_stm),
            _ => false,
        }
    }
    assert!(has_scaled_read_stm(body));
}
