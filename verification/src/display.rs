//! Rendering of syntax trees and errors as text.
//!
//! The printer writes one node per line, nested nodes two spaces
//! deeper and grouped in parentheses. Symbol names live in the interner
//! outside the core, so a symbol prints as `#` and its number; the
//! driver may substitute names afterwards. Every printing function's
//! output is specified exactly, as a character sequence.

use vstd::prelude::*;
use crate::span::Symbol;
use crate::ast::{Binop, Dec, Exp, Field, FieldDec, FunDec, Type, TypeDec, Var};
use crate::error::{Error, Kind, Lex, Parse};

verus! {

/// The decimal digits of `n`, most significant first.
pub open spec fn dec_digits(n: nat) -> Seq<char>
    decreases n,
{
    if n < 10 {
        digit_seq(n)
    } else {
        dec_digits(n / 10) + digit_seq(n % 10)
    }
}

/// One decimal digit.
pub open spec fn digit_seq(d: nat) -> Seq<char> {
    if d == 0 {
        "0"@
    } else if d == 1 {
        "1"@
    } else if d == 2 {
        "2"@
    } else if d == 3 {
        "3"@
    } else if d == 4 {
        "4"@
    } else if d == 5 {
        "5"@
    } else if d == 6 {
        "6"@
    } else if d == 7 {
        "7"@
    } else if d == 8 {
        "8"@
    } else {
        "9"@
    }
}

/// A signed integer in decimal.
pub open spec fn int_str(n: int) -> Seq<char> {
    if n < 0 {
        "-"@ + dec_digits((0 - n) as nat)
    } else {
        dec_digits(n as nat)
    }
}

/// A symbol: its interner number.
pub open spec fn sym_str(x: Symbol) -> Seq<char> {
    "#"@ + dec_digits(x as nat)
}

/// Two spaces of indentation per level.
pub open spec fn spaces(level: int) -> Seq<char>
    decreases level,
{
    if level <= 0 {
        Seq::empty()
    } else {
        spaces(level - 1) + "  "@
    }
}

/// One printed line: indentation, content, newline.
pub open spec fn line(level: int, s: Seq<char>) -> Seq<char> {
    spaces(level) + s + "\n"@
}

/// The next indentation level; it saturates with the machine word.
pub open spec fn bump_level(level: int) -> int {
    if level < usize::MAX {
        level + 1
    } else {
        level
    }
}

fn digit_str(d: u64) -> (r: &'static str)
    requires
        d < 10,
    ensures
        r@ == digit_seq(d as nat),
{
    match d {
        0 => "0",
        1 => "1",
        2 => "2",
        3 => "3",
        4 => "4",
        5 => "5",
        6 => "6",
        7 => "7",
        8 => "8",
        _ => "9",
    }
}

fn push_digits(out: &mut String, v: u64)
    ensures
        final(out)@ == old(out)@ + dec_digits(v as nat),
    decreases v,
{
    if v < 10 {
        out.append(digit_str(v));
    } else {
        push_digits(out, v / 10);
        out.append(digit_str(v % 10));
        assert(final(out)@ =~= old(out)@ + dec_digits(v as nat));
    }
}

fn push_int(out: &mut String, n: i32)
    ensures
        final(out)@ == old(out)@ + int_str(n as int),
{
    let wide: i64 = n as i64;
    if wide < 0 {
        out.append("-");
        push_digits(out, (-wide) as u64);
        assert(final(out)@ =~= old(out)@ + int_str(n as int));
    } else {
        push_digits(out, wide as u64);
    }
}

fn push_sym(out: &mut String, x: Symbol)
    ensures
        final(out)@ == old(out)@ + sym_str(x),
{
    out.append("#");
    push_digits(out, x);
    assert(final(out)@ =~= old(out)@ + sym_str(x));
}

fn push_spaces(out: &mut String, level: usize)
    ensures
        final(out)@ == old(out)@ + spaces(level as int),
{
    let mut k: usize = 0;
    while k < level
        invariant
            k <= level,
            out@ == old(out)@ + spaces(k as int),
        decreases level - k,
    {
        out.append("  ");
        k = k + 1;
        assert(out@ =~= old(out)@ + spaces(k as int));
    }
}

fn push_newline(out: &mut String)
    ensures
        final(out)@ == old(out)@ + "\n"@,
{
    out.append("\n");
}

fn push_line(out: &mut String, level: usize, s: &str)
    ensures
        final(out)@ == old(out)@ + line(level as int, s@),
{
    push_spaces(out, level);
    out.append(s);
    out.append("\n");
    assert(final(out)@ =~= old(out)@ + line(level as int, s@));
}

fn next_level(level: usize) -> (r: usize)
    ensures
        r as int == bump_level(level as int),
{
    if level < usize::MAX {
        level + 1
    } else {
        level
    }
}

/// A binary operator's line.
pub open spec fn print_binop(op: Binop, level: int) -> Seq<char> {
    match op {
        Binop::Add => line(level, "+"@),
        Binop::Sub => line(level, "-"@),
        Binop::Mul => line(level, "*"@),
        Binop::Div => line(level, "/"@),
        Binop::Eq => line(level, "="@),
        Binop::Neq => line(level, "<>"@),
        Binop::Lt => line(level, "<"@),
        Binop::Le => line(level, "<="@),
        Binop::Gt => line(level, ">"@),
        Binop::Ge => line(level, ">="@),
        Binop::LAnd => line(level, "&"@),
        Binop::LOr => line(level, "|"@),
    }
}

/// An l-value's lines.
pub open spec fn print_var(v: Var, level: int) -> Seq<char>
    decreases v, 0nat,
{
    match v {
        Var::Simple(x, _) => line(level, sym_str(x)),
        Var::Field(var, f, _, _) => line(level, "("@) + print_var(*var, bump_level(level)) + line(
            bump_level(level),
            "."@,
        ) + line(bump_level(level), sym_str(f)) + line(level, ")"@),
        Var::Index(var, idx, _) => line(level, "("@) + print_var(*var, bump_level(level)) + line(
            bump_level(level),
            "[]"@,
        ) + print_exp(*idx, bump_level(level)) + line(level, ")"@),
    }
}

/// An expression's lines.
pub open spec fn print_exp(e: Exp, level: int) -> Seq<char>
    decreases e, 0nat,
{
    match e {
        Exp::Break(_) => line(level, "break"@),
        Exp::Nil(_) => line(level, "nil"@),
        Exp::Var(v, _) => print_var(v, level),
        Exp::Int(n, _) => line(level, int_str(n as int)),
        Exp::Str(s, _) => line(level, "\""@ + s@ + "\""@),
        Exp::Call { name, name_span: _, args, span: _ } => line(level, "("@) + line(
            bump_level(level),
            "call "@ + sym_str(name),
        ) + line(bump_level(level), "("@) + print_exps(
            args@,
            0,
            bump_level(bump_level(level)),
        ) + line(bump_level(level), ")"@) + line(level, ")"@),
        Exp::Neg(sub, _) => line(level, "("@) + line(bump_level(level), "-"@) + print_exp(
            *sub,
            bump_level(level),
        ) + line(level, ")"@),
        Exp::Bin { lhs, op, rhs, span: _ } => line(level, "("@) + print_exp(
            *lhs,
            bump_level(level),
        ) + print_binop(op, bump_level(level)) + print_exp(*rhs, bump_level(level)) + line(
            level,
            ")"@,
        ),
        Exp::Rec { name, name_span: _, fields, span: _ } => line(level, "("@) + line(
            bump_level(level),
            sym_str(name),
        ) + line(bump_level(level), "("@) + print_fields(
            fields@,
            0,
            bump_level(bump_level(level)),
        ) + line(bump_level(level), ")"@) + line(level, ")"@),
        Exp::Seqs(exps, _) => line(level, "("@) + print_exps(exps@, 0, bump_level(level)) + line(
            level,
            ")"@,
        ),
        Exp::Ass { name, exp, span: _ } => line(level, "("@) + print_var(name, bump_level(level))
            + line(bump_level(level), ":="@) + print_exp(*exp, bump_level(level)) + line(
            level,
            ")"@,
        ),
        Exp::If { guard, then, or, span: _ } => line(level, "("@) + line(bump_level(level), "if"@)
            + print_exp(*guard, bump_level(level)) + line(bump_level(level), "then"@) + print_exp(
            *then,
            bump_level(level),
        ) + (match or {
            Some(oe) => line(bump_level(level), "else"@) + print_exp(*oe, bump_level(level)),
            None => Seq::empty(),
        }) + line(level, ")"@),
        Exp::While { guard, body, span: _ } => line(level, "("@) + line(
            bump_level(level),
            "while"@,
        ) + print_exp(*guard, bump_level(level)) + line(bump_level(level), "do"@) + print_exp(
            *body,
            bump_level(level),
        ) + line(level, ")"@),
        Exp::For { name, escape: _, lo, hi, body, span: _ } => line(level, "("@) + line(
            bump_level(level),
            "for "@ + sym_str(name) + " :="@,
        ) + print_exp(*lo, bump_level(level)) + line(bump_level(level), "to"@) + print_exp(
            *hi,
            bump_level(level),
        ) + line(bump_level(level), "do"@) + print_exp(*body, bump_level(level)) + line(
            level,
            ")"@,
        ),
        Exp::Let { decs, body, span: _ } => line(level, "("@) + line(bump_level(level), "let"@)
            + line(bump_level(level), "("@) + print_decs(
            decs@,
            0,
            bump_level(bump_level(level)),
        ) + line(bump_level(level), ")"@) + line(bump_level(level), "in"@) + print_exp(
            *body,
            bump_level(level),
        ) + line(level, ")"@),
        Exp::Arr { name, name_span: _, size, init, span: _ } => line(level, "("@) + line(
            bump_level(level),
            sym_str(name),
        ) + line(bump_level(level), "size"@) + print_exp(*size, bump_level(level)) + line(
            bump_level(level),
            "of"@,
        ) + print_exp(*init, bump_level(level)) + line(level, ")"@),
    }
}

pub open spec fn print_exps(s: Seq<Exp>, i: int, level: int) -> Seq<char>
    decreases s, s.len() - i,
{
    if i < 0 || i >= s.len() {
        Seq::empty()
    } else {
        print_exp(s[i], level) + print_exps(s, i + 1, level)
    }
}

/// A record literal field's lines: name, `=`, value.
pub open spec fn print_field(f: Field, level: int) -> Seq<char>
    decreases f, 0nat,
{
    line(level, sym_str(f.name) + " ="@) + print_exp(*f.exp, level)
}

pub open spec fn print_fields(s: Seq<Field>, i: int, level: int) -> Seq<char>
    decreases s, s.len() - i,
{
    if i < 0 || i >= s.len() {
        Seq::empty()
    } else {
        print_field(s[i], level) + print_fields(s, i + 1, level)
    }
}

/// A declaration's lines.
pub open spec fn print_dec(d: Dec, level: int) -> Seq<char>
    decreases d, 1nat,
{
    match d {
        Dec::Var { name, name_span: _, escape: _, ty, ty_span: _, init, span: _ } => line(
            level,
            "("@,
        ) + (match ty {
            None => line(bump_level(level), "var "@ + sym_str(name) + " :="@),
            Some(t) => line(
                bump_level(level),
                "var "@ + sym_str(name) + " : "@ + sym_str(t) + " :="@,
            ),
        }) + print_exp(init, bump_level(level)) + line(level, ")"@),
        Dec::Type(decs, _) => line(level, "("@) + print_typedecs(decs@, 0, bump_level(level))
            + line(level, ")"@),
        Dec::Fun(funs, _) => line(level, "("@) + print_fundecs(funs@, 0, bump_level(level)) + line(
            level,
            ")"@,
        ),
    }
}

pub open spec fn print_decs(s: Seq<Dec>, i: int, level: int) -> Seq<char>
    decreases s, s.len() - i,
{
    if i < 0 || i >= s.len() {
        Seq::empty()
    } else {
        print_dec(s[i], level) + print_decs(s, i + 1, level)
    }
}

/// One function declaration's lines.
pub open spec fn print_fundec(f: FunDec, level: int) -> Seq<char>
    decreases f, 1nat,
{
    line(level, "("@) + (match f.rets {
        None => line(bump_level(level), "function "@ + sym_str(f.name)),
        Some(ret) => line(bump_level(level), "function "@ + sym_str(f.name) + " : "@ + sym_str(
            ret,
        )),
    }) + line(bump_level(level), "("@) + print_fielddecs(
        f.args@,
        0,
        bump_level(bump_level(level)),
    ) + line(bump_level(level), ")"@) + line(bump_level(level), "="@) + print_exp(
        f.body,
        bump_level(level),
    ) + line(level, ")"@)
}

pub open spec fn print_fundecs(s: Seq<FunDec>, i: int, level: int) -> Seq<char>
    decreases s, s.len() - i,
{
    if i < 0 || i >= s.len() {
        Seq::empty()
    } else {
        print_fundec(s[i], level) + print_fundecs(s, i + 1, level)
    }
}

/// A field or formal declaration's line: `name : type`.
pub open spec fn print_fielddec(f: FieldDec, level: int) -> Seq<char> {
    line(level, sym_str(f.name) + " : "@ + sym_str(f.ty))
}

pub open spec fn print_fielddecs(s: Seq<FieldDec>, i: int, level: int) -> Seq<char>
    decreases s.len() - i,
{
    if i < 0 || i >= s.len() {
        Seq::empty()
    } else {
        print_fielddec(s[i], level) + print_fielddecs(s, i + 1, level)
    }
}

/// One type declaration's lines.
pub open spec fn print_typedec(t: TypeDec, level: int) -> Seq<char>
    decreases t, 1nat,
{
    line(level, "("@) + line(bump_level(level), "type "@ + sym_str(t.name) + " ="@) + print_type(
        t.ty,
        bump_level(level),
    ) + line(level, ")"@)
}

pub open spec fn print_typedecs(s: Seq<TypeDec>, i: int, level: int) -> Seq<char>
    decreases s, s.len() - i,
{
    if i < 0 || i >= s.len() {
        Seq::empty()
    } else {
        print_typedec(s[i], level) + print_typedecs(s, i + 1, level)
    }
}

/// A type expression's lines.
pub open spec fn print_type(t: Type, level: int) -> Seq<char>
    decreases t, 0nat,
{
    match t {
        Type::Arr(name, _, _) => line(level, "array of "@ + sym_str(name)),
        Type::Name(name, _) => line(level, sym_str(name)),
        Type::Rec(decs, _) => line(level, "("@) + print_fielddecs(decs@, 0, bump_level(level))
            + line(level, ")"@),
    }
}

/// The indented printer.
pub trait DisplayIndent {
    /// The lines this node prints at the given indentation level.
    spec fn display_spec(&self, level: int) -> Seq<char>;

    /// Print this node, one line per node, nested nodes two spaces
    /// deeper.
    fn display_indent(&self, level: usize) -> (r: String)
        ensures
            r@ == self.display_spec(level as int),
    ;
}

fn binop_lines(out: &mut String, op: &Binop, level: usize)
    ensures
        final(out)@ == old(out)@ + print_binop(*op, level as int),
{
    match op {
        Binop::Add => push_line(out, level, "+"),
        Binop::Sub => push_line(out, level, "-"),
        Binop::Mul => push_line(out, level, "*"),
        Binop::Div => push_line(out, level, "/"),
        Binop::Eq => push_line(out, level, "="),
        Binop::Neq => push_line(out, level, "<>"),
        Binop::Lt => push_line(out, level, "<"),
        Binop::Le => push_line(out, level, "<="),
        Binop::Gt => push_line(out, level, ">"),
        Binop::Ge => push_line(out, level, ">="),
        Binop::LAnd => push_line(out, level, "&"),
        Binop::LOr => push_line(out, level, "|"),
    }
}

fn var_lines(out: &mut String, v: &Var, level: usize)
    ensures
        final(out)@ == old(out)@ + print_var(*v, level as int),
    decreases *v, 0nat,
{
    match v {
        Var::Simple(x, _) => {
            push_spaces(out, level);
            push_sym(out, *x);
            push_newline(out);
            assert(out@ =~= old(out)@ + print_var(*v, level as int));
        },
        Var::Field(var, f, _, _) => {
            let inner = next_level(level);
            push_line(out, level, "(");
            var_lines(out, var, inner);
            push_line(out, inner, ".");
            push_spaces(out, inner);
            push_sym(out, *f);
            push_newline(out);
            push_line(out, level, ")");
            assert(out@ =~= old(out)@ + print_var(*v, level as int));
        },
        Var::Index(var, idx, _) => {
            let inner = next_level(level);
            push_line(out, level, "(");
            var_lines(out, var, inner);
            push_line(out, inner, "[]");
            exp_lines(out, idx, inner);
            push_line(out, level, ")");
            assert(out@ =~= old(out)@ + print_var(*v, level as int));
        },
    }
}

#[verifier::rlimit(100)]
#[verifier::spinoff_prover]
fn exp_lines(out: &mut String, e: &Exp, level: usize)
    ensures
        final(out)@ == old(out)@ + print_exp(*e, level as int),
    decreases *e, 1nat,
{
    match e {
        Exp::Break(_) => {
            push_line(out, level, "break");
        },
        Exp::Nil(_) => {
            push_line(out, level, "nil");
        },
        Exp::Var(v, _) => {
            var_lines(out, v, level);
        },
        Exp::Int(n, _) => {
            push_spaces(out, level);
            push_int(out, *n);
            push_newline(out);
            assert(out@ =~= old(out)@ + print_exp(*e, level as int));
        },
        Exp::Str(s, _) => {
            push_spaces(out, level);
            out.append("\"");
            out.append(s.as_str());
            out.append("\"");
            push_newline(out);
            assert(out@ =~= old(out)@ + print_exp(*e, level as int));
        },
        Exp::Call { name: _, name_span: _, args: _, span: _ } => {
            call_lines(out, e, level);
        },
        Exp::Neg(sub, _) => {
            let inner = next_level(level);
            push_line(out, level, "(");
            push_line(out, inner, "-");
            exp_lines(out, sub, inner);
            push_line(out, level, ")");
            assert(out@ =~= old(out)@ + print_exp(*e, level as int));
        },
        Exp::Bin { lhs, op, rhs, span: _ } => {
            let inner = next_level(level);
            push_line(out, level, "(");
            exp_lines(out, lhs, inner);
            binop_lines(out, op, inner);
            exp_lines(out, rhs, inner);
            push_line(out, level, ")");
            assert(out@ =~= old(out)@ + print_exp(*e, level as int));
        },
        Exp::Rec { name: _, name_span: _, fields: _, span: _ } => {
            rec_lines(out, e, level);
        },
        Exp::Seqs(exps, _) => {
            let inner = next_level(level);
            push_line(out, level, "(");
            exps_lines(out, exps, 0, inner);
            push_line(out, level, ")");
            assert(out@ =~= old(out)@ + print_exp(*e, level as int));
        },
        Exp::Ass { name, exp, span: _ } => {
            let inner = next_level(level);
            push_line(out, level, "(");
            var_lines(out, name, inner);
            push_line(out, inner, ":=");
            exp_lines(out, exp, inner);
            push_line(out, level, ")");
            assert(out@ =~= old(out)@ + print_exp(*e, level as int));
        },
        Exp::If { guard: _, then: _, or: _, span: _ } => {
            if_lines(out, e, level);
        },
        Exp::While { guard, body, span: _ } => {
            let inner = next_level(level);
            push_line(out, level, "(");
            push_line(out, inner, "while");
            exp_lines(out, guard, inner);
            push_line(out, inner, "do");
            exp_lines(out, body, inner);
            push_line(out, level, ")");
            assert(out@ =~= old(out)@ + print_exp(*e, level as int));
        },
        Exp::For { name: _, escape: _, lo: _, hi: _, body: _, span: _ } => {
            for_lines(out, e, level);
        },
        Exp::Let { decs: _, body: _, span: _ } => {
            let_lines(out, e, level);
        },
        Exp::Arr { name: _, name_span: _, size: _, init: _, span: _ } => {
            arr_lines(out, e, level);
        },
    }
}


#[verifier::rlimit(100)]
#[verifier::spinoff_prover]
fn call_lines(out: &mut String, e: &Exp, level: usize)
    requires
        *e matches Exp::Call { .. },
    ensures
        final(out)@ == old(out)@ + print_exp(*e, level as int),
    decreases *e, 0nat,
{
    match e {
        Exp::Call { name, name_span: _, args, span: _ } => {
            let inner = next_level(level);
            let inner2 = next_level(inner);
            push_line(out, level, "(");
            push_spaces(out, inner);
            out.append("call ");
            push_sym(out, *name);
            push_newline(out);
            assert(out@ =~= old(out)@ + (line(level as int, "("@) + line(
                bump_level(level as int),
                "call "@ + sym_str(*name),
            )));
            push_line(out, inner, "(");
            exps_lines(out, args, 0, inner2);
            push_line(out, inner, ")");
            push_line(out, level, ")");
            assert(out@ =~= old(out)@ + print_exp(*e, level as int));
        },
        _ => vstd::pervasive::unreached(),
    }
}

#[verifier::rlimit(100)]
#[verifier::spinoff_prover]
fn rec_lines(out: &mut String, e: &Exp, level: usize)
    requires
        *e matches Exp::Rec { .. },
    ensures
        final(out)@ == old(out)@ + print_exp(*e, level as int),
    decreases *e, 0nat,
{
    match e {
        Exp::Rec { name, name_span: _, fields, span: _ } => {
            let inner = next_level(level);
            let inner2 = next_level(inner);
            push_line(out, level, "(");
            push_spaces(out, inner);
            push_sym(out, *name);
            push_newline(out);
            assert(out@ =~= old(out)@ + (line(level as int, "("@) + line(
                bump_level(level as int),
                sym_str(*name),
            )));
            push_line(out, inner, "(");
            fields_lines(out, fields, 0, inner2);
            push_line(out, inner, ")");
            push_line(out, level, ")");
            assert(out@ =~= old(out)@ + print_exp(*e, level as int));
        },
        _ => vstd::pervasive::unreached(),
    }
}

#[verifier::rlimit(100)]
#[verifier::spinoff_prover]
fn if_lines(out: &mut String, e: &Exp, level: usize)
    requires
        *e matches Exp::If { .. },
    ensures
        final(out)@ == old(out)@ + print_exp(*e, level as int),
    decreases *e, 0nat,
{
    match e {
        Exp::If { guard, then, or, span: _ } => {
            let inner = next_level(level);
            push_line(out, level, "(");
            push_line(out, inner, "if");
            exp_lines(out, guard, inner);
            push_line(out, inner, "then");
            exp_lines(out, then, inner);
            let ghost li = bump_level(level as int);
            assert(out@ =~= old(out)@ + (line(level as int, "("@) + line(li, "if"@) + print_exp(
                **guard,
                li,
            ) + line(li, "then"@) + print_exp(**then, li)));
            match or {
                Some(oe) => {
                    push_line(out, inner, "else");
                    exp_lines(out, oe, inner);
                },
                None => {},
            }
            push_line(out, level, ")");
            assert(out@ =~= old(out)@ + print_exp(*e, level as int));
        },
        _ => vstd::pervasive::unreached(),
    }
}

#[verifier::rlimit(100)]
#[verifier::spinoff_prover]
fn for_lines(out: &mut String, e: &Exp, level: usize)
    requires
        *e matches Exp::For { .. },
    ensures
        final(out)@ == old(out)@ + print_exp(*e, level as int),
    decreases *e, 0nat,
{
    match e {
        Exp::For { name, escape: _, lo, hi, body, span: _ } => {
            let inner = next_level(level);
            let ghost li = bump_level(level as int);
            push_line(out, level, "(");
            push_spaces(out, inner);
            out.append("for ");
            push_sym(out, *name);
            out.append(" :=");
            push_newline(out);
            exp_lines(out, lo, inner);
            assert(out@ =~= old(out)@ + (line(level as int, "("@) + line(
                li,
                "for "@ + sym_str(*name) + " :="@,
            ) + print_exp(**lo, li)));
            push_line(out, inner, "to");
            exp_lines(out, hi, inner);
            push_line(out, inner, "do");
            assert(out@ =~= old(out)@ + (line(level as int, "("@) + line(
                li,
                "for "@ + sym_str(*name) + " :="@,
            ) + print_exp(**lo, li) + line(li, "to"@) + print_exp(**hi, li) + line(li, "do"@)));
            exp_lines(out, body, inner);
            push_line(out, level, ")");
            assert(out@ =~= old(out)@ + print_exp(*e, level as int));
        },
        _ => vstd::pervasive::unreached(),
    }
}

#[verifier::rlimit(100)]
#[verifier::spinoff_prover]
fn let_lines(out: &mut String, e: &Exp, level: usize)
    requires
        *e matches Exp::Let { .. },
    ensures
        final(out)@ == old(out)@ + print_exp(*e, level as int),
    decreases *e, 0nat,
{
    match e {
        Exp::Let { decs, body, span: _ } => {
            let inner = next_level(level);
            let inner2 = next_level(inner);
            let ghost li = bump_level(level as int);
            let ghost l2 = bump_level(li);
            push_line(out, level, "(");
            push_line(out, inner, "let");
            push_line(out, inner, "(");
            decs_lines(out, decs, 0, inner2);
            assert(out@ =~= old(out)@ + (line(level as int, "("@) + line(li, "let"@) + line(
                li,
                "("@,
            ) + print_decs(decs@, 0, l2)));
            push_line(out, inner, ")");
            push_line(out, inner, "in");
            exp_lines(out, body, inner);
            push_line(out, level, ")");
            assert(out@ =~= old(out)@ + print_exp(*e, level as int));
        },
        _ => vstd::pervasive::unreached(),
    }
}

#[verifier::rlimit(100)]
#[verifier::spinoff_prover]
fn arr_lines(out: &mut String, e: &Exp, level: usize)
    requires
        *e matches Exp::Arr { .. },
    ensures
        final(out)@ == old(out)@ + print_exp(*e, level as int),
    decreases *e, 0nat,
{
    match e {
        Exp::Arr { name, name_span: _, size, init, span: _ } => {
            let inner = next_level(level);
            let ghost li = bump_level(level as int);
            push_line(out, level, "(");
            push_spaces(out, inner);
            push_sym(out, *name);
            push_newline(out);
            push_line(out, inner, "size");
            exp_lines(out, size, inner);
            assert(out@ =~= old(out)@ + (line(level as int, "("@) + line(li, sym_str(*name))
                + line(li, "size"@) + print_exp(**size, li)));
            push_line(out, inner, "of");
            exp_lines(out, init, inner);
            push_line(out, level, ")");
            assert(out@ =~= old(out)@ + print_exp(*e, level as int));
        },
        _ => vstd::pervasive::unreached(),
    }
}

fn exps_lines(out: &mut String, s: &Vec<Exp>, i: usize, level: usize)
    ensures
        final(out)@ == old(out)@ + print_exps(s@, i as int, level as int),
    decreases s@, s@.len() - i,
{
    if i >= s.len() {
        assert(final(out)@ =~= old(out)@ + print_exps(s@, i as int, level as int));
    } else {
        exp_lines(out, &s[i], level);
        exps_lines(out, s, i + 1, level);
        assert(out@ =~= old(out)@ + print_exps(s@, i as int, level as int));
    }
}

fn field_lines(out: &mut String, f: &Field, level: usize)
    ensures
        final(out)@ == old(out)@ + print_field(*f, level as int),
    decreases *f, 0nat,
{
    push_spaces(out, level);
    push_sym(out, f.name);
    out.append(" =");
    push_newline(out);
    exp_lines(out, &f.exp, level);
    assert(out@ =~= old(out)@ + print_field(*f, level as int));
}

fn fields_lines(out: &mut String, s: &Vec<Field>, i: usize, level: usize)
    ensures
        final(out)@ == old(out)@ + print_fields(s@, i as int, level as int),
    decreases s@, s@.len() - i,
{
    if i >= s.len() {
        assert(final(out)@ =~= old(out)@ + print_fields(s@, i as int, level as int));
    } else {
        field_lines(out, &s[i], level);
        fields_lines(out, s, i + 1, level);
        assert(out@ =~= old(out)@ + print_fields(s@, i as int, level as int));
    }
}

#[verifier::rlimit(100)]
#[verifier::spinoff_prover]
fn dec_lines(out: &mut String, d: &Dec, level: usize)
    ensures
        final(out)@ == old(out)@ + print_dec(*d, level as int),
    decreases *d, 1nat,
{
    match d {
        Dec::Var { name, name_span: _, escape: _, ty, ty_span: _, init, span: _ } => {
            let inner = next_level(level);
            push_line(out, level, "(");
            match ty {
                None => {
                    push_spaces(out, inner);
                    out.append("var ");
                    push_sym(out, *name);
                    out.append(" :=");
                    push_newline(out);
                },
                Some(t) => {
                    push_spaces(out, inner);
                    out.append("var ");
                    push_sym(out, *name);
                    out.append(" : ");
                    push_sym(out, *t);
                    out.append(" :=");
                    push_newline(out);
                },
            }
            exp_lines(out, init, inner);
            push_line(out, level, ")");
            assert(out@ =~= old(out)@ + print_dec(*d, level as int));
        },
        Dec::Type(decs, _) => {
            let inner = next_level(level);
            push_line(out, level, "(");
            typedecs_lines(out, decs, 0, inner);
            push_line(out, level, ")");
            assert(out@ =~= old(out)@ + print_dec(*d, level as int));
        },
        Dec::Fun(funs, _) => {
            let inner = next_level(level);
            push_line(out, level, "(");
            fundecs_lines(out, funs, 0, inner);
            push_line(out, level, ")");
            assert(out@ =~= old(out)@ + print_dec(*d, level as int));
        },
    }
}

fn decs_lines(out: &mut String, s: &Vec<Dec>, i: usize, level: usize)
    ensures
        final(out)@ == old(out)@ + print_decs(s@, i as int, level as int),
    decreases s@, s@.len() - i,
{
    if i >= s.len() {
        assert(final(out)@ =~= old(out)@ + print_decs(s@, i as int, level as int));
    } else {
        dec_lines(out, &s[i], level);
        decs_lines(out, s, i + 1, level);
        assert(out@ =~= old(out)@ + print_decs(s@, i as int, level as int));
    }
}

#[verifier::rlimit(100)]
#[verifier::spinoff_prover]
fn fundec_lines(out: &mut String, f: &FunDec, level: usize)
    ensures
        final(out)@ == old(out)@ + print_fundec(*f, level as int),
    decreases *f, 1nat,
{
    let inner = next_level(level);
    let inner2 = next_level(inner);
    push_line(out, level, "(");
    match &f.rets {
        None => {
            push_spaces(out, inner);
            out.append("function ");
            push_sym(out, f.name);
            push_newline(out);
        },
        Some(ret) => {
            push_spaces(out, inner);
            out.append("function ");
            push_sym(out, f.name);
            out.append(" : ");
            push_sym(out, *ret);
            push_newline(out);
        },
    }
    proof {
        let l0 = level as int;
        let li = bump_level(l0);
        let hdr = match f.rets {
            None => line(li, "function "@ + sym_str(f.name)),
            Some(ret) => line(li, "function "@ + sym_str(f.name) + " : "@ + sym_str(ret)),
        };
        assert(out@ =~= old(out)@ + (line(l0, "("@) + hdr));
    }
    push_line(out, inner, "(");
    fielddecs_lines(out, &f.args, 0, inner2);
    proof {
        let l0 = level as int;
        let li = bump_level(l0);
        let l2 = bump_level(li);
        let hdr = match f.rets {
            None => line(li, "function "@ + sym_str(f.name)),
            Some(ret) => line(li, "function "@ + sym_str(f.name) + " : "@ + sym_str(ret)),
        };
        assert(out@ =~= old(out)@ + (line(l0, "("@) + hdr + line(li, "("@) + print_fielddecs(
            f.args@,
            0,
            l2,
        )));
    }
    push_line(out, inner, ")");
    push_line(out, inner, "=");
    exp_lines(out, &f.body, inner);
    push_line(out, level, ")");
    assert(out@ =~= old(out)@ + print_fundec(*f, level as int));
}

fn fundecs_lines(out: &mut String, s: &Vec<FunDec>, i: usize, level: usize)
    ensures
        final(out)@ == old(out)@ + print_fundecs(s@, i as int, level as int),
    decreases s@, s@.len() - i,
{
    if i >= s.len() {
        assert(final(out)@ =~= old(out)@ + print_fundecs(s@, i as int, level as int));
    } else {
        fundec_lines(out, &s[i], level);
        fundecs_lines(out, s, i + 1, level);
        assert(out@ =~= old(out)@ + print_fundecs(s@, i as int, level as int));
    }
}

fn fielddec_lines(out: &mut String, f: &FieldDec, level: usize)
    ensures
        final(out)@ == old(out)@ + print_fielddec(*f, level as int),
{
    push_spaces(out, level);
    push_sym(out, f.name);
    out.append(" : ");
    push_sym(out, f.ty);
    push_newline(out);
    assert(out@ =~= old(out)@ + print_fielddec(*f, level as int));
}

fn fielddecs_lines(out: &mut String, s: &Vec<FieldDec>, i: usize, level: usize)
    ensures
        final(out)@ == old(out)@ + print_fielddecs(s@, i as int, level as int),
    decreases s@.len() - i,
{
    if i >= s.len() {
        assert(final(out)@ =~= old(out)@ + print_fielddecs(s@, i as int, level as int));
    } else {
        fielddec_lines(out, &s[i], level);
        fielddecs_lines(out, s, i + 1, level);
        assert(out@ =~= old(out)@ + print_fielddecs(s@, i as int, level as int));
    }
}

fn typedec_lines(out: &mut String, t: &TypeDec, level: usize)
    ensures
        final(out)@ == old(out)@ + print_typedec(*t, level as int),
    decreases *t, 1nat,
{
    let inner = next_level(level);
    push_line(out, level, "(");
    push_spaces(out, inner);
    out.append("type ");
    push_sym(out, t.name);
    out.append(" =");
    push_newline(out);
    type_lines(out, &t.ty, inner);
    push_line(out, level, ")");
    assert(out@ =~= old(out)@ + print_typedec(*t, level as int));
}

fn typedecs_lines(out: &mut String, s: &Vec<TypeDec>, i: usize, level: usize)
    ensures
        final(out)@ == old(out)@ + print_typedecs(s@, i as int, level as int),
    decreases s@, s@.len() - i,
{
    if i >= s.len() {
        assert(final(out)@ =~= old(out)@ + print_typedecs(s@, i as int, level as int));
    } else {
        typedec_lines(out, &s[i], level);
        typedecs_lines(out, s, i + 1, level);
        assert(out@ =~= old(out)@ + print_typedecs(s@, i as int, level as int));
    }
}

fn type_lines(out: &mut String, t: &Type, level: usize)
    ensures
        final(out)@ == old(out)@ + print_type(*t, level as int),
    decreases *t, 0nat,
{
    match t {
        Type::Arr(name, _, _) => {
            push_spaces(out, level);
            out.append("array of ");
            push_sym(out, *name);
            push_newline(out);
            assert(out@ =~= old(out)@ + print_type(*t, level as int));
        },
        Type::Name(name, _) => {
            push_spaces(out, level);
            push_sym(out, *name);
            push_newline(out);
            assert(out@ =~= old(out)@ + print_type(*t, level as int));
        },
        Type::Rec(decs, _) => {
            let inner = next_level(level);
            push_line(out, level, "(");
            fielddecs_lines(out, decs, 0, inner);
            push_line(out, level, ")");
            assert(out@ =~= old(out)@ + print_type(*t, level as int));
        },
    }
}

impl DisplayIndent for Exp {
    open spec fn display_spec(&self, level: int) -> Seq<char> {
        print_exp(*self, level)
    }

    fn display_indent(&self, level: usize) -> (r: String) {
        let mut out = String::new();
        exp_lines(&mut out, self, level);
        assert(out@ =~= print_exp(*self, level as int));
        out
    }
}

impl DisplayIndent for Var {
    open spec fn display_spec(&self, level: int) -> Seq<char> {
        print_var(*self, level)
    }

    fn display_indent(&self, level: usize) -> (r: String) {
        let mut out = String::new();
        var_lines(&mut out, self, level);
        assert(out@ =~= print_var(*self, level as int));
        out
    }
}

impl DisplayIndent for Dec {
    open spec fn display_spec(&self, level: int) -> Seq<char> {
        print_dec(*self, level)
    }

    fn display_indent(&self, level: usize) -> (r: String) {
        let mut out = String::new();
        dec_lines(&mut out, self, level);
        assert(out@ =~= print_dec(*self, level as int));
        out
    }
}

impl DisplayIndent for FunDec {
    open spec fn display_spec(&self, level: int) -> Seq<char> {
        print_fundec(*self, level)
    }

    fn display_indent(&self, level: usize) -> (r: String) {
        let mut out = String::new();
        fundec_lines(&mut out, self, level);
        assert(out@ =~= print_fundec(*self, level as int));
        out
    }
}

impl DisplayIndent for FieldDec {
    open spec fn display_spec(&self, level: int) -> Seq<char> {
        print_fielddec(*self, level)
    }

    fn display_indent(&self, level: usize) -> (r: String) {
        let mut out = String::new();
        fielddec_lines(&mut out, self, level);
        assert(out@ =~= print_fielddec(*self, level as int));
        out
    }
}

impl DisplayIndent for TypeDec {
    open spec fn display_spec(&self, level: int) -> Seq<char> {
        print_typedec(*self, level)
    }

    fn display_indent(&self, level: usize) -> (r: String) {
        let mut out = String::new();
        typedec_lines(&mut out, self, level);
        assert(out@ =~= print_typedec(*self, level as int));
        out
    }
}

impl DisplayIndent for Field {
    open spec fn display_spec(&self, level: int) -> Seq<char> {
        print_field(*self, level)
    }

    fn display_indent(&self, level: usize) -> (r: String) {
        let mut out = String::new();
        field_lines(&mut out, self, level);
        assert(out@ =~= print_field(*self, level as int));
        out
    }
}

impl DisplayIndent for Type {
    open spec fn display_spec(&self, level: int) -> Seq<char> {
        print_type(*self, level)
    }

    fn display_indent(&self, level: usize) -> (r: String) {
        let mut out = String::new();
        type_lines(&mut out, self, level);
        assert(out@ =~= print_type(*self, level as int));
        out
    }
}

impl DisplayIndent for Binop {
    open spec fn display_spec(&self, level: int) -> Seq<char> {
        print_binop(*self, level)
    }

    fn display_indent(&self, level: usize) -> (r: String) {
        let mut out = String::new();
        binop_lines(&mut out, self, level);
        assert(out@ =~= print_binop(*self, level as int));
        out
    }
}

/// The message of a lexical error kind.
pub open spec fn msg_lex(l: Lex) -> Seq<char> {
    match l {
        Lex::Comment => "Comments must begin with [/*]."@,
        Lex::Integer => "Integers must be between -2,147,483,648 and 2,147,483,647."@,
        Lex::Unknown => "Unknown token."@,
    }
}

/// The message of a syntactic error kind.
pub open spec fn msg_parse(p: Parse) -> Seq<char> {
    match p {
        Parse::Extra => "Extra tokens encountered."@,
        Parse::Unexpected => "Unexpected token encountered."@,
    }
}

/// The message of an error kind; a semantic kind is identified by its
/// category and span alone.
pub open spec fn msg_kind(k: Kind) -> Seq<char> {
    match k {
        Kind::Lexical(l) => msg_lex(l),
        Kind::Syntactic(p) => msg_parse(p),
        Kind::Semantic(_) => Seq::empty(),
    }
}

/// The stage name of an error kind.
pub open spec fn category_str(k: Kind) -> Seq<char> {
    match k {
        Kind::Lexical(_) => "lexical"@,
        Kind::Syntactic(_) => "syntactic"@,
        Kind::Semantic(_) => "semantic"@,
    }
}

/// One diagnostic line: `row:col category error: message`.
pub open spec fn debug_str(e: Error, row: u64, col: u64) -> Seq<char> {
    dec_digits(row as nat) + ":"@ + dec_digits(col as nat) + " "@ + category_str(e.kind)
        + " error: "@ + msg_kind(e.kind)
}

impl Kind {
    /// This kind's message.
    pub fn message(&self) -> (r: String)
        ensures
            r@ == msg_kind(*self),
    {
        match self {
            Kind::Lexical(l) => match l {
                Lex::Comment => String::from_str("Comments must begin with [/*]."),
                Lex::Integer => String::from_str(
                    "Integers must be between -2,147,483,648 and 2,147,483,647.",
                ),
                Lex::Unknown => String::from_str("Unknown token."),
            },
            Kind::Syntactic(p) => match p {
                Parse::Extra => String::from_str("Extra tokens encountered."),
                Parse::Unexpected => String::from_str("Unexpected token encountered."),
            },
            Kind::Semantic(_) => String::new(),
        }
    }
}

impl Error {
    /// Render this error as one line, given the row and column its
    /// span starts at. Mapping the span to a row and column takes the
    /// source text, which the driver holds.
    pub fn to_debug(&self, row: u64, col: u64) -> (r: String)
        ensures
            r@ == debug_str(*self, row, col),
    {
        let mut out = String::new();
        push_digits(&mut out, row);
        out.append(":");
        push_digits(&mut out, col);
        out.append(" ");
        match self.kind {
            Kind::Lexical(_) => out.append("lexical"),
            Kind::Syntactic(_) => out.append("syntactic"),
            Kind::Semantic(_) => out.append("semantic"),
        }
        out.append(" error: ");
        let msg = self.kind.message();
        out.append(msg.as_str());
        assert(out@ =~= debug_str(*self, row, col));
        out
    }
}

} // verus!
