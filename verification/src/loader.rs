//! The dynamic loader: activates a built artifact into a process-local
//! callable handle.

use vstd::prelude::*;

use crate::artifact::{Artifact, EntryExpr, ARTIFACT_MAGIC, ENTRY_SYMBOL};
use crate::errors::LoadError;

verus! {

/// A process-local callable bound to one loaded artifact. Owned exclusively
/// by the function-table entry that created it; never shared across
/// processes (each process performs its own load) and dropped only on
/// eviction or process teardown.
#[derive(Clone, Copy, PartialEq, Eq, Structural, Debug)]
pub struct LoadedHandle {
    /// The resolved entry routine.
    pub entry: EntryExpr,
    /// Number of arguments the entry accepts.
    pub arity: usize,
    /// The function-table generation this handle was created for. A fresh
    /// generation is assigned on every install, so a handle is never reused
    /// across redefinitions of its identifier.
    pub generation: u64,
    /// How many times the trampoline has entered the native entry through
    /// this handle. Saturates at the counter's maximum.
    pub calls: u64,
}

/// What loading an artifact yields: checks run in the order the underlying
/// mechanism would hit them. An object that is not an engine artifact at
/// all fails to open ([`LoadError::OsFailure`]); one that opens but lacks
/// the expected entry symbol fails its lookup
/// ([`LoadError::SymbolNotFound`]); one whose embedded version tag differs
/// from the engine's expected tag is refused as stale or foreign
/// ([`LoadError::IncompatibleArtifact`]).
pub open spec fn load_result(a: Artifact, expected_abi: u8, generation: u64) -> Result<
    LoadedHandle,
    LoadError,
> {
    if a.magic != ARTIFACT_MAGIC {
        Err(LoadError::OsFailure)
    } else if a.entry_symbol != ENTRY_SYMBOL {
        Err(LoadError::SymbolNotFound)
    } else if a.abi_tag != expected_abi {
        Err(LoadError::IncompatibleArtifact)
    } else {
        Ok(LoadedHandle { entry: a.entry, arity: a.arity, generation, calls: 0 })
    }
}

/// Opens an artifact, resolves its single expected entry symbol, and
/// returns an opaque callable bound to that symbol, stamped with the
/// function-table generation it is being created for.
pub fn load(a: &Artifact, expected_abi: u8, generation: u64) -> (r: Result<
    LoadedHandle,
    LoadError,
>)
    ensures
        r == load_result(*a, expected_abi, generation),
{
    if a.magic != ARTIFACT_MAGIC {
        Err(LoadError::OsFailure)
    } else if a.entry_symbol != ENTRY_SYMBOL {
        Err(LoadError::SymbolNotFound)
    } else if a.abi_tag != expected_abi {
        Err(LoadError::IncompatibleArtifact)
    } else {
        Ok(LoadedHandle { entry: a.entry, arity: a.arity, generation, calls: 0 })
    }
}

} // verus!
