//! Semantic types and the lexically scoped contexts of the analyzer.
//!
//! Records and arrays carry a unique identity, generated freshly at each
//! declaration; equality between two record or two array types is by
//! that identity together with structure, never by structure alone.
//! `Name` is a deferred alias: its body is `None` while a mutually
//! recursive type group is still being resolved, and full lookups trace
//! aliases through the context until a concrete type appears.

use vstd::prelude::*;
use crate::span::Symbol;

verus! {

/// A semantic type.
pub enum Ty {
    /// The type of `nil`; subtypes every record type.
    Nil,
    Int,
    Str,
    /// The type of statements and of procedures.
    Unit,
    /// An array type: element type and declaration identity.
    Arr(Box<Ty>, u64),
    /// A record type: ordered fields and declaration identity.
    Rec(Box<TyList>, u64),
    /// A deferred alias; `None` means declared but not yet defined.
    Name(Symbol, Option<Box<Ty>>),
}

/// The ordered fields of a record type.
pub enum TyList {
    Nil,
    Cons(Symbol, Ty, Box<TyList>),
}

/// The ordered formal parameter types of a function binding.
pub enum Tys {
    Nil,
    Cons(Ty, Box<Tys>),
}

/// What a name stands for in the variable context.
pub enum Binding {
    /// A variable: its type, and whether assignment to it is allowed.
    Var(Ty, bool),
    /// A function: formal parameter types and result type.
    Fun(Tys, Ty),
}

/// The result of typing an expression or an l-value.
pub struct Typed {
    pub ty: Ty,
    /// Whether the typed phrase may stand on the left of an assignment.
    /// Only loop induction variables are immutable.
    pub mutable: bool,
}

impl Ty {
    /// Whether this is an array type.
    pub fn is_arr(&self) -> (r: bool)
        ensures
            r == (self matches Ty::Arr(_, _)),
    {
        match self {
            Ty::Arr(_, _) => true,
            _ => false,
        }
    }

    /// Whether this is a record type.
    pub fn is_rec(&self) -> (r: bool)
        ensures
            r == (self matches Ty::Rec(_, _)),
    {
        match self {
            Ty::Rec(_, _) => true,
            _ => false,
        }
    }
}

/// The subtype relation: reflexive, and `Nil` subtypes every record
/// type. There is no other subtyping.
pub open spec fn subtypes_s(a: Ty, b: Ty) -> bool {
    a == b || (a == Ty::Nil && b matches Ty::Rec(_, _))
}

pub open spec fn tylist_len(l: TyList) -> nat
    decreases l,
{
    match l {
        TyList::Nil => 0,
        TyList::Cons(_, _, rest) => 1 + tylist_len(*rest),
    }
}

/// The type of the first field named `x`, if any.
pub open spec fn tylist_get(l: TyList, x: Symbol) -> Option<Ty>
    decreases l,
{
    match l {
        TyList::Nil => None,
        TyList::Cons(name, ty, rest) => if name == x {
            Some(ty)
        } else {
            tylist_get(*rest, x)
        },
    }
}

pub open spec fn tys_len(l: Tys) -> nat
    decreases l,
{
    match l {
        Tys::Nil => 0,
        Tys::Cons(_, rest) => 1 + tys_len(*rest),
    }
}

impl Clone for Ty {
    fn clone(&self) -> (res: Ty)
        ensures
            res == *self,
        decreases self,
    {
        match self {
            Ty::Nil => Ty::Nil,
            Ty::Int => Ty::Int,
            Ty::Str => Ty::Str,
            Ty::Unit => Ty::Unit,
            Ty::Arr(elem, id) => Ty::Arr(Box::new((**elem).clone()), *id),
            Ty::Rec(fields, id) => Ty::Rec(Box::new((**fields).clone()), *id),
            Ty::Name(sym, body) => Ty::Name(
                *sym,
                match body {
                    None => None,
                    Some(b) => Some(Box::new((**b).clone())),
                },
            ),
        }
    }
}

impl Clone for TyList {
    fn clone(&self) -> (res: TyList)
        ensures
            res == *self,
        decreases self,
    {
        match self {
            TyList::Nil => TyList::Nil,
            TyList::Cons(name, ty, rest) => TyList::Cons(
                *name,
                ty.clone(),
                Box::new((**rest).clone()),
            ),
        }
    }
}

impl Clone for Tys {
    fn clone(&self) -> (res: Tys)
        ensures
            res == *self,
        decreases self,
    {
        match self {
            Tys::Nil => Tys::Nil,
            Tys::Cons(ty, rest) => Tys::Cons(ty.clone(), Box::new((**rest).clone())),
        }
    }
}

impl Clone for Binding {
    fn clone(&self) -> (res: Binding)
        ensures
            res == *self,
    {
        match self {
            Binding::Var(ty, mutable) => Binding::Var(ty.clone(), *mutable),
            Binding::Fun(args, ret) => Binding::Fun(args.clone(), ret.clone()),
        }
    }
}

/// Deep equality on types, mirroring spec equality.
pub fn ty_eq(a: &Ty, b: &Ty) -> (r: bool)
    ensures
        r == (*a == *b),
    decreases a,
{
    match (a, b) {
        (Ty::Nil, Ty::Nil) => true,
        (Ty::Int, Ty::Int) => true,
        (Ty::Str, Ty::Str) => true,
        (Ty::Unit, Ty::Unit) => true,
        (Ty::Arr(e1, i1), Ty::Arr(e2, i2)) => *i1 == *i2 && ty_eq(e1, e2),
        (Ty::Rec(f1, i1), Ty::Rec(f2, i2)) => *i1 == *i2 && tylist_eq(f1, f2),
        (Ty::Name(s1, b1), Ty::Name(s2, b2)) => *s1 == *s2 && match (b1, b2) {
            (None, None) => true,
            (Some(x1), Some(x2)) => ty_eq(x1, x2),
            _ => false,
        },
        _ => false,
    }
}

pub fn tylist_eq(a: &TyList, b: &TyList) -> (r: bool)
    ensures
        r == (*a == *b),
    decreases a,
{
    match (a, b) {
        (TyList::Nil, TyList::Nil) => true,
        (TyList::Cons(n1, t1, r1), TyList::Cons(n2, t2, r2)) => {
            *n1 == *n2 && ty_eq(t1, t2) && tylist_eq(r1, r2)
        },
        _ => false,
    }
}

/// Whether `a` subtypes `b`.
pub fn subtypes(a: &Ty, b: &Ty) -> (r: bool)
    ensures
        r == subtypes_s(*a, *b),
{
    ty_eq(a, b) || (matches!(a, Ty::Nil) && matches!(b, Ty::Rec(_, _)))
}

/// The binding of `x`, innermost declaration first.
pub open spec fn ctx_lookup<T>(s: Seq<(Symbol, T)>, x: Symbol) -> Option<T>
    decreases s.len(),
{
    if s.len() == 0 {
        None
    } else if s.last().0 == x {
        Some(s.last().1)
    } else {
        ctx_lookup(s.drop_last(), x)
    }
}

/// The lexically scoped variable context: a stack of bindings in which
/// the innermost declaration of a name shadows the rest.
pub struct VarContext {
    pub entries: Vec<(Symbol, Binding)>,
}

impl View for VarContext {
    type V = Seq<(Symbol, Binding)>;

    open spec fn view(&self) -> Seq<(Symbol, Binding)> {
        self.entries@
    }
}

impl VarContext {
    pub fn new() -> (r: VarContext)
        ensures
            r@ == Seq::<(Symbol, Binding)>::empty(),
    {
        VarContext { entries: Vec::new() }
    }

    pub fn insert(&mut self, x: Symbol, b: Binding)
        ensures
            final(self)@ == old(self)@.push((x, b)),
    {
        self.entries.push((x, b));
    }

    pub fn get(&self, x: Symbol) -> (r: Option<&Binding>)
        ensures
            match r {
                Some(b) => ctx_lookup(self@, x) == Some(*b),
                None => ctx_lookup(self@, x) is None,
            },
    {
        let mut i: usize = self.entries.len();
        assert(self@.subrange(0, i as int) =~= self@);
        while i > 0
            invariant
                i <= self.entries.len(),
                ctx_lookup(self@, x) == ctx_lookup(self@.subrange(0, i as int), x),
            decreases i,
        {
            i = i - 1;
            proof {
                let pre = self@.subrange(0, i + 1 as int);
                assert(pre.drop_last() =~= self@.subrange(0, i as int));
                assert(pre.last() == self@[i as int]);
            }
            if self.entries[i].0 == x {
                return Some(&self.entries[i].1);
            }
        }
        assert(self@.subrange(0, 0) =~= Seq::<(Symbol, Binding)>::empty());
        None
    }

    /// A copy of this context, for entering a new scope.
    pub fn duplicate(&self) -> (r: VarContext)
        ensures
            r@ == self@,
    {
        let mut entries: Vec<(Symbol, Binding)> = Vec::new();
        let mut i: usize = 0;
        while i < self.entries.len()
            invariant
                i <= self.entries.len(),
                entries@ =~= self.entries@.subrange(0, i as int),
            decreases self.entries.len() - i,
        {
            let pair = &self.entries[i];
            entries.push((pair.0, pair.1.clone()));
            i = i + 1;
            assert(entries@ =~= self.entries@.subrange(0, i as int));
        }
        assert(entries@ =~= self.entries@);
        VarContext { entries }
    }
}

/// Fuel for full type resolution: long enough that running out can only
/// mean the alias chain revisited a declaration, that is, a cycle. An
/// acyclic chain steps through each context entry's alias spine at most
/// once, and every spine is shorter than the context was when the entry
/// was made, so `(len + 4) * (len + 4)` steps always suffice.
pub open spec fn spec_fuel(len: nat) -> nat {
    let capped: nat = if len > 0x1_0000_0000 {
        0x1_0000_0000
    } else {
        len
    };
    (capped + 4) * (capped + 4)
}

/// Full resolution of a type against a context: aliases are unwrapped,
/// first structurally through recorded bodies, then by looking a still
/// unresolved alias up in the context; a concrete type ends the walk.
/// `None` is an undefined or cyclic alias, or exhausted fuel.
pub open spec fn resolve_s(tc: Seq<(Symbol, Ty)>, t: Ty, fuel: nat) -> Option<Ty>
    decreases fuel,
{
    match t {
        Ty::Name(m, body) => {
            if fuel == 0 {
                None
            } else {
                match body {
                    Some(b) => resolve_s(tc, *b, (fuel - 1) as nat),
                    None => match ctx_lookup(tc, m) {
                        None => None,
                        Some(u) => if u matches Ty::Name(_, Option::<Box<Ty>>::None) {
                            None
                        } else {
                            resolve_s(tc, u, (fuel - 1) as nat)
                        },
                    },
                }
            }
        },
        _ => Some(t),
    }
}

/// The full lookup as one step: find `x`, then resolve aliases.
pub open spec fn get_full_s(tc: Seq<(Symbol, Ty)>, x: Symbol) -> Option<Ty> {
    match ctx_lookup(tc, x) {
        None => None,
        Some(u) => resolve_s(tc, u, spec_fuel(tc.len())),
    }
}

/// Whether the field list has exactly `n` entries.
pub fn tylist_len_matches(l: &TyList, n: usize) -> (r: bool)
    ensures
        r == (tylist_len(*l) == n as nat),
    decreases l,
{
    match l {
        TyList::Nil => n == 0,
        TyList::Cons(_, _, rest) => n > 0 && tylist_len_matches(rest, n - 1),
    }
}

/// Whether the formal parameter list has exactly `n` entries.
pub fn tys_len_matches(l: &Tys, n: usize) -> (r: bool)
    ensures
        r == (tys_len(*l) == n as nat),
    decreases l,
{
    match l {
        Tys::Nil => n == 0,
        Tys::Cons(_, rest) => n > 0 && tys_len_matches(rest, n - 1),
    }
}

/// The type of the first field named `x`, if any.
pub fn tylist_get_ref<'a>(l: &'a TyList, x: Symbol) -> (r: Option<&'a Ty>)
    ensures
        match r {
            Some(t) => tylist_get(*l, x) == Some(*t),
            None => tylist_get(*l, x) is None,
        },
    decreases l,
{
    match l {
        TyList::Nil => None,
        TyList::Cons(name, ty, rest) => if *name == x {
            Some(ty)
        } else {
            tylist_get_ref(rest, x)
        },
    }
}

/// The lexically scoped type context.
pub struct TypeContext {
    pub entries: Vec<(Symbol, Ty)>,
}

impl View for TypeContext {
    type V = Seq<(Symbol, Ty)>;

    open spec fn view(&self) -> Seq<(Symbol, Ty)> {
        self.entries@
    }
}

impl TypeContext {
    pub fn new() -> (r: TypeContext)
        ensures
            r@ == Seq::<(Symbol, Ty)>::empty(),
    {
        TypeContext { entries: Vec::new() }
    }

    pub fn insert(&mut self, x: Symbol, t: Ty)
        ensures
            final(self)@ == old(self)@.push((x, t)),
    {
        self.entries.push((x, t));
    }

    /// The partial lookup: an alias is handed back as it stands.
    pub fn get(&self, x: Symbol) -> (r: Option<&Ty>)
        ensures
            match r {
                Some(t) => ctx_lookup(self@, x) == Some(*t),
                None => ctx_lookup(self@, x) is None,
            },
    {
        let mut i: usize = self.entries.len();
        assert(self@.subrange(0, i as int) =~= self@);
        while i > 0
            invariant
                i <= self.entries.len(),
                ctx_lookup(self@, x) == ctx_lookup(self@.subrange(0, i as int), x),
            decreases i,
        {
            i = i - 1;
            proof {
                let pre = self@.subrange(0, i + 1 as int);
                assert(pre.drop_last() =~= self@.subrange(0, i as int));
                assert(pre.last() == self@[i as int]);
            }
            if self.entries[i].0 == x {
                return Some(&self.entries[i].1);
            }
        }
        assert(self@.subrange(0, 0) =~= Seq::<(Symbol, Ty)>::empty());
        None
    }

    fn resolve_fuel(&self, t: &Ty, fuel: u128) -> (r: Option<Ty>)
        ensures
            r == resolve_s(self@, *t, fuel as nat),
        decreases fuel,
    {
        match t {
            Ty::Name(m, body) => {
                if fuel == 0 {
                    None
                } else {
                    match body {
                        Some(b) => self.resolve_fuel(b, fuel - 1),
                        None => match self.get(*m) {
                            None => None,
                            Some(u) => {
                                if matches!(u, Ty::Name(_, Option::None)) {
                                    None
                                } else {
                                    self.resolve_fuel(u, fuel - 1)
                                }
                            },
                        },
                    }
                }
            },
            _ => Some(t.clone()),
        }
    }

    fn fuel(&self) -> (r: u128)
        ensures
            r as nat == spec_fuel(self@.len()),
    {
        let len: u128 = self.entries.len() as u128;
        let capped: u128 = if len > 0x1_0000_0000u128 {
            0x1_0000_0000u128
        } else {
            len
        };
        proof {
            assert((capped + 4) * (capped + 4) <= 0x1_0000_0004u128 * 0x1_0000_0004u128)
                by (nonlinear_arith)
                requires
                    capped <= 0x1_0000_0000u128,
            ;
        }
        (capped + 4) * (capped + 4)
    }

    /// Fully resolve a type already in hand (a record field's type, a
    /// stored alias body) against this context.
    pub fn trace_full(&self, t: &Ty) -> (r: Option<Ty>)
        ensures
            r == resolve_s(self@, *t, spec_fuel(self@.len())),
    {
        let fuel = self.fuel();
        self.resolve_fuel(t, fuel)
    }

    /// The full lookup: find `x`, then resolve aliases transitively.
    pub fn get_full(&self, x: Symbol) -> (r: Option<Ty>)
        ensures
            r == get_full_s(self@, x),
    {
        let fuel = self.fuel();
        match self.get(x) {
            None => None,
            Some(u) => self.resolve_fuel(u, fuel),
        }
    }

    /// A copy of this context, for entering a new scope.
    pub fn duplicate(&self) -> (r: TypeContext)
        ensures
            r@ == self@,
    {
        let mut entries: Vec<(Symbol, Ty)> = Vec::new();
        let mut i: usize = 0;
        while i < self.entries.len()
            invariant
                i <= self.entries.len(),
                entries@ =~= self.entries@.subrange(0, i as int),
            decreases self.entries.len() - i,
        {
            let pair = &self.entries[i];
            entries.push((pair.0, pair.1.clone()));
            i = i + 1;
            assert(entries@ =~= self.entries@.subrange(0, i as int));
        }
        assert(entries@ =~= self.entries@);
        TypeContext { entries }
    }
}

} // verus!
