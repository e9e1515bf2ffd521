//! Tests of the instruction tiler.

use tigerc::code::{Asm, Binary, Cc, Unary, Unop};
use tigerc::ir::{Binop, Exp, Relop, Stm, Unit};
use tigerc::operand::{Label, Mem, Reg, Scale, Temp, Value};
use tigerc::tile::{is_canonical, tile};

fn t(n: u64) -> Temp {
    Temp::Fresh(n)
}

fn te(n: u64) -> Exp {
    Exp::Temp(Temp::Fresh(n))
}

fn unit(body: Vec<Stm>) -> Unit {
    Unit { body, fresh: 100 }
}

fn tile_checked(u: Unit) -> Vec<Asm> {
    assert!(is_canonical(&u));
    tile(u).text
}

/// The instructions of the body, prologue and epilogue stripped.
fn body_of(text: &[Asm]) -> &[Asm] {
    &text[8..text.len() - 9]
}

#[test]
fn prologue_and_epilogue_frame_the_body() {
    let text = tile_checked(unit(vec![]));
    assert_eq!(text.len(), 17);
    assert!(matches!(text[0], Asm::Push(Unary::R(Temp::Reg(Reg::RBP)))));
    assert!(matches!(
        text[1],
        Asm::Mov(Binary::RR(Temp::Reg(Reg::RSP), Temp::Reg(Reg::RBP)))
    ));
    assert!(matches!(text[2], Asm::Comment(_)));
    assert!(matches!(text[16], Asm::Ret));
    assert!(matches!(text[15], Asm::Pop(Unary::R(Temp::Reg(Reg::RBP)))));
}

#[test]
fn brso_tiles_to_one_operand() {
    // mem[t0 + t1*8 + 16] -> t2
    let addr = Exp::Mem(Box::new(Exp::Binop(
        Box::new(Exp::Binop(
            Box::new(te(0)),
            Binop::Add,
            Box::new(Exp::Binop(Box::new(te(1)), Binop::Mul, Box::new(Exp::Const(8)))),
        )),
        Binop::Add,
        Box::new(Exp::Const(16)),
    )));
    let text = tile_checked(unit(vec![Stm::Move(addr, te(2))]));
    let body = body_of(&text);
    assert_eq!(body.len(), 1);
    assert!(matches!(
        body[0],
        Asm::Mov(Binary::MR(Mem::BRSO(Temp::Fresh(0), Temp::Fresh(1), Scale::Eight, 16), Temp::Fresh(2)))
    ));
}

#[test]
fn brso_orderings_commute() {
    // mem[16 + (8*t1 + t0)] is the same operand
    let addr = Exp::Mem(Box::new(Exp::Binop(
        Box::new(Exp::Const(16)),
        Binop::Add,
        Box::new(Exp::Binop(
            Box::new(Exp::Binop(Box::new(Exp::Const(8)), Binop::Mul, Box::new(te(1)))),
            Binop::Add,
            Box::new(te(0)),
        )),
    )));
    let text = tile_checked(unit(vec![Stm::Move(addr, te(2))]));
    let body = body_of(&text);
    assert_eq!(body.len(), 1);
    assert!(matches!(
        body[0],
        Asm::Mov(Binary::MR(Mem::BRSO(Temp::Fresh(0), Temp::Fresh(1), Scale::Eight, 16), Temp::Fresh(2)))
    ));
}

#[test]
fn subtracted_offset_negates() {
    // mem[t0 + t1*4 - 8]
    let addr = Exp::Mem(Box::new(Exp::Binop(
        Box::new(Exp::Binop(
            Box::new(te(0)),
            Binop::Add,
            Box::new(Exp::Binop(Box::new(te(1)), Binop::Mul, Box::new(Exp::Const(4)))),
        )),
        Binop::Sub,
        Box::new(Exp::Const(8)),
    )));
    let text = tile_checked(unit(vec![Stm::Move(addr, te(2))]));
    let body = body_of(&text);
    assert!(matches!(
        body[0],
        Asm::Mov(Binary::MR(Mem::BRSO(_, _, Scale::Four, -8), _))
    ));
}

#[test]
fn unsupported_scale_multiplies_explicitly() {
    // mem[t0 + t1*3 + 16]: no BRSO; a real multiplication appears
    let addr = Exp::Mem(Box::new(Exp::Binop(
        Box::new(Exp::Binop(
            Box::new(te(0)),
            Binop::Add,
            Box::new(Exp::Binop(Box::new(te(1)), Binop::Mul, Box::new(Exp::Const(3)))),
        )),
        Binop::Add,
        Box::new(Exp::Const(16)),
    )));
    let text = tile_checked(unit(vec![Stm::Move(addr, te(2))]));
    let body = body_of(&text);
    assert!(body.iter().any(|a| matches!(a, Asm::Mul(_))));
    assert!(!body.iter().any(|a| matches!(
        a,
        Asm::Mov(Binary::MR(Mem::BRSO(_, _, _, _), _))
    )));
}

#[test]
fn register_offset_form() {
    // mem[t0 + 24]
    let addr = Exp::Mem(Box::new(Exp::Binop(
        Box::new(te(0)),
        Binop::Add,
        Box::new(Exp::Const(24)),
    )));
    let text = tile_checked(unit(vec![Stm::Move(addr, te(2))]));
    let body = body_of(&text);
    assert_eq!(body.len(), 1);
    assert!(matches!(
        body[0],
        Asm::Mov(Binary::MR(Mem::RO(Temp::Fresh(0), 24), Temp::Fresh(2)))
    ));
}

#[test]
fn neg_idiom() {
    let e = Exp::Binop(Box::new(Exp::Const(0)), Binop::Sub, Box::new(te(0)));
    let text = tile_checked(unit(vec![Stm::Move(e, te(1))]));
    let body = body_of(&text);
    assert!(body.iter().any(|a| matches!(a, Asm::Un(Unop::Neg, _))));
    assert!(!body.iter().any(|a| matches!(a, Asm::Bin(_, _))));
}

#[test]
fn inc_idiom_both_orders() {
    for e in [
        Exp::Binop(Box::new(te(0)), Binop::Add, Box::new(Exp::Const(1))),
        Exp::Binop(Box::new(Exp::Const(1)), Binop::Add, Box::new(te(0))),
    ] {
        let text = tile_checked(unit(vec![Stm::Move(e, te(1))]));
        let body = body_of(&text);
        assert!(body.iter().any(|a| matches!(a, Asm::Un(Unop::Inc, _))));
        assert!(!body.iter().any(|a| matches!(a, Asm::Bin(_, _))));
    }
}

#[test]
fn dec_idiom() {
    let e = Exp::Binop(Box::new(te(0)), Binop::Sub, Box::new(Exp::Const(1)));
    let text = tile_checked(unit(vec![Stm::Move(e, te(1))]));
    let body = body_of(&text);
    assert!(body.iter().any(|a| matches!(a, Asm::Un(Unop::Dec, _))));
    assert!(!body.iter().any(|a| matches!(a, Asm::Bin(_, _))));
}

#[test]
fn division_goes_through_the_accumulator() {
    let e = Exp::Binop(Box::new(te(0)), Binop::Div, Box::new(te(1)));
    let text = tile_checked(unit(vec![Stm::Move(e, te(2))]));
    let body = body_of(&text);
    // mov t0 -> RAX; cqo; div t1; mov RAX -> fresh; mov fresh -> t2
    assert!(matches!(
        body[0],
        Asm::Mov(Binary::RR(Temp::Fresh(0), Temp::Reg(Reg::RAX)))
    ));
    assert!(matches!(body[1], Asm::Cqo));
    assert!(matches!(body[2], Asm::Div(Unary::R(Temp::Fresh(1)))));
    assert!(matches!(
        body[3],
        Asm::Mov(Binary::RR(Temp::Reg(Reg::RAX), Temp::Fresh(_)))
    ));
}

#[test]
fn multiplication_has_no_cqo() {
    let e = Exp::Binop(Box::new(te(0)), Binop::Mul, Box::new(te(1)));
    let text = tile_checked(unit(vec![Stm::Move(e, te(2))]));
    let body = body_of(&text);
    assert!(body.iter().any(|a| matches!(a, Asm::Mul(_))));
    assert!(!body.iter().any(|a| matches!(a, Asm::Cqo)));
}

#[test]
fn call_places_arguments_per_convention() {
    // call f(c0..c7): six registers, two spilled above RSP
    let args: Vec<Exp> = (0..8).map(Exp::Const).collect();
    let call = Exp::Call(Box::new(Exp::Name(Label::Fresh(7))), args);
    let text = tile_checked(unit(vec![Stm::Move(call, te(0))]));
    let body = body_of(&text);
    let arg_regs: Vec<Reg> = body
        .iter()
        .filter_map(|a| match a {
            Asm::Mov(Binary::RR(_, Temp::Reg(r))) => Some(*r),
            _ => None,
        })
        .collect();
    assert!(arg_regs.starts_with(&[Reg::RDI, Reg::RSI, Reg::RDX, Reg::RCX, Reg::R8, Reg::R9]));
    let spills: Vec<i32> = body
        .iter()
        .filter_map(|a| match a {
            Asm::Mov(Binary::RM(_, Mem::RO(Temp::Reg(Reg::RSP), o))) => Some(*o),
            _ => None,
        })
        .collect();
    assert_eq!(spills, vec![8, 16]);
    assert!(body.iter().any(|a| matches!(a, Asm::Call(Label::Fresh(7)))));
}

#[test]
fn call_result_comes_from_rax() {
    let call = Exp::Call(Box::new(Exp::Name(Label::Fresh(7))), vec![]);
    let text = tile_checked(unit(vec![Stm::Move(call, te(0))]));
    let body = body_of(&text);
    let call_at = body.iter().position(|a| matches!(a, Asm::Call(_))).unwrap();
    assert!(matches!(
        body[call_at + 1],
        Asm::Mov(Binary::RR(Temp::Reg(Reg::RAX), Temp::Fresh(_)))
    ));
}

#[test]
fn cjump_is_cmp_then_jcc() {
    let s = Stm::CJump(te(0), Relop::Lt, Exp::Const(5), Label::Fresh(1), Label::Fresh(2));
    let text = tile_checked(unit(vec![
        s,
        Stm::Label(Label::Fresh(1)),
        Stm::Jump(Exp::Name(Label::Fresh(2)), vec![Label::Fresh(2)]),
        Stm::Label(Label::Fresh(2)),
    ]));
    let body = body_of(&text);
    let cmp_at = body.iter().position(|a| matches!(a, Asm::Cmp(_))).unwrap();
    assert!(matches!(body[cmp_at + 1], Asm::Jcc(Cc::L, Label::Fresh(1))));
}

#[test]
fn break_tiling_matches_the_branch_layout() {
    // the canonical form of `if i = 5 then break` inside a for loop:
    // cmp; je true; (fall through false); true: jmp exit_for
    let i = te(1);
    let tl = Label::Fresh(10);
    let fl = Label::Fresh(11);
    let exit_for = Label::Fresh(12);
    let body = vec![
        Stm::CJump(i, Relop::Eq, Exp::Const(5), tl, fl),
        Stm::Label(tl),
        Stm::Jump(Exp::Name(exit_for), vec![exit_for]),
        Stm::Label(fl),
    ];
    let text = tile_checked(unit(body));
    let code = body_of(&text);
    // mov 5 -> tmp; cmp; je true; label true; jmp exit; label false
    let cmp_at = code.iter().position(|a| matches!(a, Asm::Cmp(_))).unwrap();
    assert!(matches!(code[cmp_at + 1], Asm::Jcc(Cc::E, Label::Fresh(10))));
    assert!(matches!(code[cmp_at + 2], Asm::Label(Label::Fresh(10))));
    assert!(matches!(code[cmp_at + 3], Asm::Jmp(Label::Fresh(12))));
    assert!(matches!(code[cmp_at + 4], Asm::Label(Label::Fresh(11))));
}

#[test]
fn non_canonical_bodies_are_refused() {
    let eseq = Exp::ESeq(Box::new(Stm::Comment(0)), Box::new(Exp::Const(1)));
    let u = Unit { body: vec![Stm::Move(eseq, te(0))], fresh: 100 };
    assert!(!is_canonical(&u));
    let nested = Unit { body: vec![Stm::Seqs(vec![])], fresh: 100 };
    assert!(!is_canonical(&nested));
    let bare = Unit { body: vec![Stm::Exp(Exp::Const(1))], fresh: 100 };
    assert!(!is_canonical(&bare));
}

#[test]
fn scale_recognition() {
    assert_eq!(Scale::try_scale(1), Some(Scale::One));
    assert_eq!(Scale::try_scale(2), Some(Scale::Two));
    assert_eq!(Scale::try_scale(4), Some(Scale::Four));
    assert_eq!(Scale::try_scale(8), Some(Scale::Eight));
    assert_eq!(Scale::try_scale(3), None);
    assert_eq!(Scale::try_scale(0), None);
}

#[test]
fn binary_dest_is_the_second_operand() {
    let b = Binary::IR(tigerc::operand::Imm(5), t(3));
    assert_eq!(b.dest(), Value::Reg(t(3)));
    let m = Mem::R(t(4));
    let b2 = Binary::RM(t(5), m);
    assert_eq!(b2.dest(), Value::Mem(m));
}

#[test]
fn two_argument_call_uses_rdi_and_rsi() {
    // the tiled call of a one-argument nested function: the static
    // link in the first register, the actual in the second
    let call = Exp::Call(
        Box::new(Exp::Name(Label::Fresh(7))),
        vec![Exp::Temp(Temp::Reg(Reg::RBP)), Exp::Const(41)],
    );
    let text = tile_checked(unit(vec![Stm::Move(call, te(0))]));
    let body = body_of(&text);
    assert!(matches!(
        body[0],
        Asm::Mov(Binary::RR(Temp::Reg(Reg::RBP), Temp::Reg(Reg::RDI)))
    ));
    assert!(body
        .iter()
        .any(|a| matches!(a, Asm::Mov(Binary::RR(_, Temp::Reg(Reg::RSI))))));
}

#[test]
fn pure_arithmetic_tiles_without_calls() {
    // the canonical body of `let var x := 1 + 2 in x end`
    let e = Exp::Binop(Box::new(Exp::Const(1)), Binop::Add, Box::new(Exp::Const(2)));
    let text = tile_checked(unit(vec![Stm::Move(e, te(0))]));
    let body = body_of(&text);
    assert!(body.iter().any(|a| matches!(a, Asm::Mov(_))));
    assert!(!body.iter().any(|a| matches!(a, Asm::Call(_))));
}

#[test]
fn offsetless_brso_tiles_to_one_operand() {
    // mem[t0 + t1*8], no constant offset term
    let addr = Exp::Mem(Box::new(Exp::Binop(
        Box::new(te(0)),
        Binop::Add,
        Box::new(Exp::Binop(Box::new(te(1)), Binop::Mul, Box::new(Exp::Const(8)))),
    )));
    let text = tile_checked(unit(vec![Stm::Move(addr, te(2))]));
    let body = body_of(&text);
    assert_eq!(body.len(), 1);
    assert!(matches!(
        body[0],
        Asm::Mov(Binary::MR(Mem::BRSO(Temp::Fresh(0), Temp::Fresh(1), Scale::Eight, 0), Temp::Fresh(2)))
    ));
}

#[test]
fn constant_index_read_is_one_memory_operand() {
    // the canonical form of an array element read x[3]:
    // mem[base + 3*8], as the translator emits it
    let addr = Exp::Mem(Box::new(Exp::Binop(
        Box::new(te(0)),
        Binop::Add,
        Box::new(Exp::Binop(Box::new(Exp::Const(3)), Binop::Mul, Box::new(Exp::Const(8)))),
    )));
    let text = tile_checked(unit(vec![Stm::Move(addr, te(2))]));
    let body = body_of(&text);
    // one mov materializing the index, then the single memory operand;
    // no address arithmetic
    assert_eq!(body.len(), 2);
    assert!(matches!(body[0], Asm::Mov(Binary::IR(tigerc::operand::Imm(3), _))));
    assert!(matches!(
        body[1],
        Asm::Mov(Binary::MR(Mem::BRSO(Temp::Fresh(0), _, Scale::Eight, 0), Temp::Fresh(2)))
    ));
    assert!(!body.iter().any(|a| matches!(a, Asm::Mul(_) | Asm::Bin(_, _))));
}

#[test]
fn offsetless_scaled_index_alone_is_rso() {
    // mem[t1*4]
    let addr = Exp::Mem(Box::new(Exp::Binop(
        Box::new(te(1)),
        Binop::Mul,
        Box::new(Exp::Const(4)),
    )));
    let text = tile_checked(unit(vec![Stm::Move(addr, te(2))]));
    let body = body_of(&text);
    assert_eq!(body.len(), 1);
    assert!(matches!(
        body[0],
        Asm::Mov(Binary::MR(Mem::RSO(Temp::Fresh(1), Scale::Four, 0), Temp::Fresh(2)))
    ));
}
