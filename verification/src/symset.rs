//! A set of symbols over fnv's `FnvHashSet`.
//!
//! The analyzer checks that the names of a declaration group are
//! pairwise distinct by filling one of these sets. `FnvHashSet` is
//! `std::collections::HashSet` with the FNV hasher, so the methods
//! relied on here are std's own.

use vstd::prelude::*;
use crate::span::Symbol;

verus! {

/// A hash set of symbols. The collection itself comes from the fnv
/// crate and is opaque here; `sym_set_contents` names what it holds.
#[verifier::external_body]
pub struct SymSet {
    inner: fnv::FnvHashSet<u64>,
}

/// The mathematical set of symbols a [`SymSet`] holds.
pub uninterp spec fn sym_set_contents(s: SymSet) -> Set<Symbol>;

impl SymSet {
    /// Relies on `FnvHashSet::default` (std `HashSet::default`): a new
    /// set holds nothing.
    #[verifier::external_body]
    pub fn new() -> (s: SymSet)
        ensures
            sym_set_contents(s) == Set::<Symbol>::empty(),
    {
        SymSet { inner: fnv::FnvHashSet::default() }
    }

    /// Relies on std `HashSet::insert`: adds the key and reports
    /// whether it was absent.
    #[verifier::external_body]
    pub fn insert(&mut self, x: Symbol) -> (r: bool)
        ensures
            sym_set_contents(*final(self)) == sym_set_contents(*old(self)).insert(x),
            r == !sym_set_contents(*old(self)).contains(x),
    {
        self.inner.insert(x)
    }

    /// Relies on std `HashSet::contains`.
    #[verifier::external_body]
    pub fn contains(&self, x: Symbol) -> (r: bool)
        ensures
            r == sym_set_contents(*self).contains(x),
    {
        self.inner.contains(&x)
    }
}

} // verus!
