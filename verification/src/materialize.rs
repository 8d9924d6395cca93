//! The materializer: turns a routine definition into a deterministic build
//! unit and a content fingerprint.

use vstd::prelude::*;

use crate::bytes::bytes_eq;
use crate::definition::{
    split_sections, split_sections_exec, Dependency, DependencyView, FunctionDefinition,
    FunctionDefinitionView,
};
use crate::errors::MaterializeError;
use crate::fingerprint::{fingerprint_exec, fingerprint_of};
use crate::values::ValueType;

verus! {

/// The engine's configuration, read once at initialization and treated as
/// opaque external input thereafter.
pub struct EngineConfig {
    /// When set, a definition may declare only dependencies from
    /// `allowed_deps`.
    pub sandboxed: bool,
    /// The administrator-approved dependency names.
    pub allowed_deps: Vec<Vec<u8>>,
    /// The convention tag artifacts must carry to be loadable.
    pub abi_tag: u8,
    /// Identity of the external toolchain and environment, folded into
    /// every fingerprint.
    pub toolchain_id: u64,
    /// Whether validation loads the artifact into the defining process
    /// eagerly, besides building it.
    pub eager_load: bool,
}

/// The mathematical shape of an [`EngineConfig`].
#[verifier::ext_equal]
pub struct ConfigView {
    pub sandboxed: bool,
    pub allowed_deps: Seq<Seq<u8>>,
    pub abi_tag: u8,
    pub toolchain_id: u64,
    pub eager_load: bool,
}

impl View for EngineConfig {
    type V = ConfigView;

    open spec fn view(&self) -> ConfigView {
        ConfigView {
            sandboxed: self.sandboxed,
            allowed_deps: self.allowed_deps.deep_view(),
            abi_tag: self.abi_tag,
            toolchain_id: self.toolchain_id,
            eager_load: self.eager_load,
        }
    }
}

/// A derived, disposable build unit: the dependency manifest and the code
/// text, paired with the fixed entry signature the body is wrapped behind,
/// so a toolchain always compiles a complete, self-consistent unit. Owned
/// by one build; discarded afterwards.
#[derive(PartialEq, Eq, Debug)]
pub struct BuildUnit {
    /// The declared dependencies.
    pub manifest: Vec<Dependency>,
    /// Parameter types of the generated entry signature.
    pub params: Vec<ValueType>,
    /// Result type of the generated entry signature.
    pub ret: ValueType,
    /// The code section of the body text.
    pub code: Vec<u8>,
    /// The convention tag the produced artifact must carry.
    pub abi_tag: u8,
}

/// The mathematical shape of a [`BuildUnit`].
#[verifier::ext_equal]
pub struct BuildUnitView {
    pub manifest: Seq<DependencyView>,
    pub params: Seq<ValueType>,
    pub ret: ValueType,
    pub code: Seq<u8>,
    pub abi_tag: u8,
}

impl View for BuildUnit {
    type V = BuildUnitView;

    open spec fn view(&self) -> BuildUnitView {
        BuildUnitView {
            manifest: self.manifest.deep_view(),
            params: self.params@,
            ret: self.ret,
            code: self.code@,
            abi_tag: self.abi_tag,
        }
    }
}

/// Whether a declared dependency name is in the approved set.
pub open spec fn dep_allowed(name: Seq<u8>, allowed: Seq<Seq<u8>>) -> bool {
    exists|k: int| 0 <= k < allowed.len() && #[trigger] allowed[k] == name
}

/// Whether every declared dependency is in the approved set.
pub open spec fn deps_allowed(deps: Seq<DependencyView>, allowed: Seq<Seq<u8>>) -> bool {
    forall|i: int| 0 <= i < deps.len() ==> dep_allowed(#[trigger] deps[i].name, allowed)
}

/// What materialization yields: the malformed-definition failure when the
/// body cannot be split into valid sections, the dependency rejection when
/// sandboxing is on and some declared dependency is outside the approved
/// set, and otherwise the build unit with the definition's fingerprint.
pub open spec fn materialize_result(config: ConfigView, defv: FunctionDefinitionView) -> Result<
    (BuildUnitView, u64),
    MaterializeError,
> {
    match split_sections(defv.source) {
        None => Err(MaterializeError::MalformedDefinition),
        Some(p) => {
            if config.sandboxed && !deps_allowed(p.0, config.allowed_deps) {
                Err(MaterializeError::DependencyNotAllowed)
            } else {
                Ok(
                    (
                        BuildUnitView {
                            manifest: p.0,
                            params: defv.params,
                            ret: defv.ret,
                            code: p.1,
                            abi_tag: config.abi_tag,
                        },
                        fingerprint_of(defv, p.0, p.1, config.toolchain_id),
                    ),
                )
            }
        },
    }
}

/// Whether a dependency name is in the approved set.
fn name_allowed(name: &Vec<u8>, allowed: &Vec<Vec<u8>>) -> (r: bool)
    ensures
        r == dep_allowed(name@, allowed.deep_view()),
{
    let mut k: usize = 0;
    while k < allowed.len()
        invariant
            k <= allowed@.len(),
            allowed.deep_view().len() == allowed@.len(),
            forall|j: int| 0 <= j < k ==> #[trigger] allowed.deep_view()[j] != name@,
        decreases allowed@.len() - k,
    {
        let hit = bytes_eq(name, &allowed[k]);
        proof {
            assert(allowed.deep_view()[k as int] == allowed@[k as int].deep_view());
            assert(allowed@[k as int].deep_view() =~= allowed@[k as int]@);
        }
        if hit {
            proof {
                assert(allowed.deep_view()[k as int] == name@);
            }
            return true;
        }
        k = k + 1;
    }
    false
}

/// Whether every declared dependency is in the approved set.
fn all_deps_allowed(deps: &Vec<Dependency>, allowed: &Vec<Vec<u8>>) -> (r: bool)
    ensures
        r == deps_allowed(deps.deep_view(), allowed.deep_view()),
{
    let mut i: usize = 0;
    while i < deps.len()
        invariant
            i <= deps@.len(),
            deps.deep_view().len() == deps@.len(),
            forall|j: int|
                0 <= j < i ==> dep_allowed(#[trigger] deps.deep_view()[j].name, allowed.deep_view()),
        decreases deps@.len() - i,
    {
        if !name_allowed(&deps[i].name, allowed) {
            proof {
                assert(deps.deep_view()[i as int].name == deps[i as int]@.name);
            }
            return false;
        }
        i = i + 1;
    }
    true
}

/// Materializes a definition: splits the body text into its sections,
/// enforces the sandbox on the declared dependencies, wraps the code behind
/// the fixed entry signature, and computes the content fingerprint. No
/// shared state is touched.
pub fn materialize(config: &EngineConfig, def: &FunctionDefinition) -> (r: Result<
    (BuildUnit, u64),
    MaterializeError,
>)
    ensures
        match (r, materialize_result(config@, def@)) {
            (Ok(p), Ok(q)) => p.0@ == q.0 && p.1 == q.1,
            (Err(e1), Err(e2)) => e1 == e2,
            _ => false,
        },
{
    let sections = split_sections_exec(&def.source);
    match sections {
        None => Err(MaterializeError::MalformedDefinition),
        Some((deps, code)) => {
            if config.sandboxed && !all_deps_allowed(&deps, &config.allowed_deps) {
                return Err(MaterializeError::DependencyNotAllowed);
            }
            let fp = fingerprint_exec(def, &deps, &code, config.toolchain_id);
            let mut params: Vec<ValueType> = Vec::new();
            let mut i: usize = 0;
            while i < def.params.len()
                invariant
                    i <= def.params@.len(),
                    params@ == def.params@.take(i as int),
                decreases def.params@.len() - i,
            {
                params.push(def.params[i]);
                proof {
                    assert(params@ =~= def.params@.take(i + 1 as int));
                }
                i = i + 1;
            }
            proof {
                assert(params@ =~= def.params@);
            }
            let unit = BuildUnit {
                manifest: deps,
                params,
                ret: def.ret,
                code,
                abi_tag: config.abi_tag,
            };
            Ok((unit, fp))
        },
    }
}

} // verus!
