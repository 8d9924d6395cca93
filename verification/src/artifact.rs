//! Built artifacts: loadable binary objects addressed by fingerprint.

use vstd::prelude::*;

verus! {

/// Marker at the head of every artifact an engine toolchain emits. An
/// object without it is treated as corrupt or foreign and refused by the
/// loader.
pub const ARTIFACT_MAGIC: u8 = 0xA7;

/// The single entry symbol every artifact is expected to expose. The
/// materializer always wraps routine bodies behind this one entry, so the
/// loader resolves exactly this symbol and nothing else.
pub const ENTRY_SYMBOL: u64 = 0x706c5f656e747279;

/// The entry routine of a built artifact, as a closed variant over the one
/// supported native calling convention: the entry receives the marshaled
/// call arguments and produces one value, raises a fault, or yields null.
#[derive(Clone, Copy, PartialEq, Eq, Structural, Debug)]
pub enum EntryExpr {
    /// Yield the null value.
    ConstNull,
    /// Yield a fixed integer.
    ConstInt(i64),
    /// Yield argument `i` unchanged.
    Arg(u8),
    /// Yield the sum of the integer-sequence argument `i`.
    FoldSum(u8),
    /// Yield the product of the integer-sequence argument `i`.
    FoldProduct(u8),
    /// Deliberately raise an unrecoverable execution fault.
    Trap,
}

/// A built, loadable binary object. Artifacts live in the content-addressed
/// cache, are never mutated after a successful build, and are replaced
/// wholesale (under a new fingerprint) on any source change.
#[derive(Clone, Copy, PartialEq, Eq, Structural, Debug)]
pub struct Artifact {
    /// Object-format marker; must equal [`ARTIFACT_MAGIC`].
    pub magic: u8,
    /// Version tag of the engine convention the artifact was built for.
    pub abi_tag: u8,
    /// The symbol the artifact exposes; must equal [`ENTRY_SYMBOL`].
    pub entry_symbol: u64,
    /// Number of arguments the entry was compiled to accept.
    pub arity: usize,
    /// The entry routine bound to `entry_symbol`.
    pub entry: EntryExpr,
}

} // verus!
