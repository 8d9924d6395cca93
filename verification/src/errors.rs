//! The error taxonomy of the engine.

use vstd::prelude::*;

verus! {

/// Why materialization refused a definition. Both cases are reported to the
/// definer at validation time; routine creation fails.
#[derive(Clone, Copy, PartialEq, Eq, Structural, Debug)]
pub enum MaterializeError {
    /// The body text cannot be split into valid sections.
    MalformedDefinition,
    /// Sandboxed mode rejected a declared dependency.
    DependencyNotAllowed,
}

/// Why an artifact could not be activated. Always fatal to that resolution
/// attempt; never silently retried with different behavior.
#[derive(Clone, Copy, PartialEq, Eq, Structural, Debug)]
pub enum LoadError {
    /// The artifact does not expose the expected entry symbol.
    SymbolNotFound,
    /// The version tag embedded in the artifact does not match the engine's
    /// expected tag; guards against stale or foreign binaries.
    IncompatibleArtifact,
    /// The underlying load mechanism failed on the object itself.
    OsFailure,
}

/// The kind of unrecoverable fault a routine body raised during execution.
#[derive(Clone, Copy, PartialEq, Eq, Structural, Debug)]
pub enum FaultKind {
    /// The body deliberately trapped.
    ExplicitTrap,
    /// Integer overflow inside the body.
    Overflow,
    /// The body referenced an argument position that was never supplied.
    ArgOutOfRange,
    /// The body read an argument at a shape other than the one supplied.
    TypeMismatch,
}

/// Why an invocation failed at the trampoline boundary.
#[derive(Clone, Copy, PartialEq, Eq, Structural, Debug)]
pub enum InvocationError {
    /// The native call faulted during execution; caught at the trampoline
    /// boundary and reported as a routine-execution error.
    UserCodeFault(FaultKind),
    /// The generic call arguments cannot be marshaled into the natively
    /// typed arguments the loaded entry expects.
    MarshalMismatch,
    /// No loaded handle is installed for the requested identifier.
    RoutineNotLoaded,
}

/// A resolution failure, covering every stage from materialization to load.
#[derive(PartialEq, Eq, Debug)]
pub enum EngineError {
    /// The body text cannot be split into valid sections.
    MalformedDefinition,
    /// Sandboxed mode rejected a declared dependency.
    DependencyNotAllowed,
    /// External compilation failed; carries the full diagnostic text,
    /// verbatim, never swallowed.
    BuildFailed(Vec<u8>),
    /// The built artifact could not be activated.
    Load(LoadError),
    /// Engine-internal exhaustion or corrupt state; surfaced, not swallowed.
    Internal,
}

/// The mathematical shape of an [`EngineError`].
pub enum EngineErrorView {
    MalformedDefinition,
    DependencyNotAllowed,
    BuildFailed(Seq<u8>),
    Load(LoadError),
    Internal,
}

impl View for EngineError {
    type V = EngineErrorView;

    open spec fn view(&self) -> EngineErrorView {
        match self {
            EngineError::MalformedDefinition => EngineErrorView::MalformedDefinition,
            EngineError::DependencyNotAllowed => EngineErrorView::DependencyNotAllowed,
            EngineError::BuildFailed(d) => EngineErrorView::BuildFailed(d@),
            EngineError::Load(e) => EngineErrorView::Load(*e),
            EngineError::Internal => EngineErrorView::Internal,
        }
    }
}

/// The engine error that reports a given materialization failure.
pub open spec fn engine_error_of_materialize(e: MaterializeError) -> EngineErrorView {
    match e {
        MaterializeError::MalformedDefinition => EngineErrorView::MalformedDefinition,
        MaterializeError::DependencyNotAllowed => EngineErrorView::DependencyNotAllowed,
    }
}

} // verus!
