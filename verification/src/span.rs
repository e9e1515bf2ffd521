//! Source positions.
//!
//! A span is a byte range `[start, end)` into the source text. The core
//! only decorates errors with spans; mapping them back to rows and
//! columns is the driver's business.

use vstd::prelude::*;

verus! {

/// Interned identifier. The interner itself lives outside the core; the
/// core sees each distinct source name as a distinct number. Identifiers
/// below [`SYM_FIRST_USER`] are reserved for the names the core itself
/// must recognize (primitive types and the runtime bindings).
pub type Symbol = u64;

/// The primitive type `int`.
pub const SYM_INT: Symbol = 0;
/// The primitive type `string`.
pub const SYM_STRING: Symbol = 1;
/// Runtime binding `print(str)`.
pub const SYM_PRINT: Symbol = 2;
/// Runtime binding `flush()`.
pub const SYM_FLUSH: Symbol = 3;
/// Runtime binding `getchar() -> str`.
pub const SYM_GETCHAR: Symbol = 4;
/// Runtime binding `ord(str) -> int`.
pub const SYM_ORD: Symbol = 5;
/// Runtime binding `chr(int) -> str`.
pub const SYM_CHR: Symbol = 6;
/// Runtime binding `size(str) -> int`.
pub const SYM_SIZE: Symbol = 7;
/// Runtime binding `substring(str, int, int) -> str`.
pub const SYM_SUBSTRING: Symbol = 8;
/// Runtime binding `concat(str, str) -> str`.
pub const SYM_CONCAT: Symbol = 9;
/// Runtime binding `not(int) -> int`.
pub const SYM_NOT: Symbol = 10;
/// Runtime binding `exit(int)`.
pub const SYM_EXIT: Symbol = 11;
/// Runtime allocator `malloc(size) -> ptr`.
pub const SYM_MALLOC: Symbol = 12;
/// Runtime array allocator `init_array(size, init) -> ptr`.
pub const SYM_INIT_ARRAY: Symbol = 13;
/// The hidden first formal of every nested function.
pub const SYM_STATIC_LINK: Symbol = 14;
/// The entry function.
pub const SYM_MAIN: Symbol = 15;
/// Placeholder comment: the stack-frame allocation, rewritten once the
/// frame size is known after register allocation.
pub const SYM_FRAME_SUB: Symbol = 16;
/// Placeholder comment: the stack-frame release, rewritten likewise.
pub const SYM_FRAME_ADD: Symbol = 17;
/// First identifier available to the interner for source names.
pub const SYM_FIRST_USER: Symbol = 18;

/// A byte range into the source text.
#[derive(Clone, Copy, Debug, PartialEq, Eq, Structural)]
pub struct Span {
    pub start: u32,
    pub end: u32,
}

impl Span {
    /// A span covering nothing, for synthesized nodes.
    pub fn zero() -> (s: Span)
        ensures
            s == (Span { start: 0, end: 0 }),
    {
        Span { start: 0, end: 0 }
    }

    pub fn new(start: u32, end: u32) -> (s: Span)
        ensures
            s == (Span { start, end }),
    {
        Span { start, end }
    }
}

} // verus!
