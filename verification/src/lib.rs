//! A compilation and execution engine for database-defined routines.
//!
//! A host database hands this engine routine definitions: a declared
//! signature together with raw body text that names the dependencies the
//! body may use. The engine turns a definition into a deterministic build
//! unit and a content fingerprint, keeps built artifacts in a
//! content-addressed cache shared between processes, activates an artifact
//! into a process-local callable handle, maps stable routine identifiers to
//! handles with invalidation on redefinition, and adapts generic call
//! arguments to the one supported native entry convention while containing
//! faults raised inside routine bodies.

pub mod artifact;
pub mod bytes;
pub mod cache;
pub mod definition;
pub mod engine;
pub mod errors;
pub mod fingerprint;
pub mod laws;
pub mod loader;
pub mod materialize;
pub mod toolchain;
pub mod trampoline;
pub mod values;
