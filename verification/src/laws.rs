//! The engine's laws: what holds of resolution, eviction, the shared
//! cache, and invocation across calls, proved from the specifications the
//! public functions carry.

use vstd::prelude::*;

use crate::artifact::{Artifact, ARTIFACT_MAGIC, ENTRY_SYMBOL};
use crate::cache::{cache_find, CacheSlot};
use crate::definition::{split_sections, FunctionDefinitionView};
use crate::engine::{
    engine_invoke_spec, engine_wf, evict_spec, find_entry, lemma_evict_wf, lemma_find_entry,
    lemma_find_entry_at, lemma_find_entry_none, lemma_install_wf, resolve_spec, stored_cache,
    EngineView, ResolveOutcomeView,
};
use crate::errors::{EngineErrorView, FaultKind, InvocationError, LoadError};
use crate::loader::{load_result, LoadedHandle};
use crate::materialize::{deps_allowed, materialize_result};
use crate::trampoline::{has_null_arg, invoke_enters, invoke_result};
use crate::values::ValueView;

verus! {

/// Idempotence: once a resolution has answered ready, resolving the same
/// identifier with the same definition again — against any cache — does no
/// further work: no build is requested, nothing is loaded or installed,
/// the engine is unchanged, and the installed handle is exactly the one
/// already installed.
pub proof fn law_resolve_idempotent(
    v: EngineView,
    c: Seq<CacheSlot>,
    c2: Seq<CacheSlot>,
    id: u64,
    defv: FunctionDefinitionView,
)
    requires
        engine_wf(v),
        resolve_spec(v, c, id, defv).1 is Ready,
    ensures
        resolve_spec(resolve_spec(v, c, id, defv).0, c2, id, defv) == (
            resolve_spec(v, c, id, defv).0,
            ResolveOutcomeView::Ready,
        ),
{
    let v1 = resolve_spec(v, c, id, defv).0;
    match materialize_result(v.config, defv) {
        Err(_) => {
            assert(false);
        },
        Ok(p) => {
            let fp = p.1;
            lemma_find_entry(v.entries, id);
            let hit = match find_entry(v.entries, id) {
                Some(i) => v.entries[i].fingerprint == fp,
                None => false,
            };
            if !hit {
                match cache_find(c, fp) {
                    None => {
                        assert(false);
                    },
                    Some(art) => {
                        if v.next_generation == u64::MAX {
                            assert(false);
                        } else {
                            match load_result(art, v.config.abi_tag, v.next_generation) {
                                Err(_) => {
                                    assert(false);
                                },
                                Ok(h) => {
                                    lemma_install_wf(v, id, fp, defv.strict, h);
                                },
                            }
                        }
                    },
                }
            }
        },
    }
}

/// Invalidation: after an eviction, the next resolution of that identifier
/// runs the fresh cycle. It is never answered from the table: it either
/// asks for a build, fails, or installs a handle under a generation that
/// no handle installed before the eviction ever had — reusing the cached
/// artifact is fine, reusing a handle across generations is not.
pub proof fn law_evict_invalidates(
    v: EngineView,
    c: Seq<CacheSlot>,
    id: u64,
    defv: FunctionDefinitionView,
)
    requires
        engine_wf(v),
    ensures
        ({
            let ve = evict_spec(v, id);
            let step = resolve_spec(ve, c, id, defv);
            match step.1 {
                ResolveOutcomeView::Ready => match find_entry(step.0.entries, id) {
                    Some(i) => step.0.entries[i].handle.generation == v.next_generation
                        && forall|j: int|
                        0 <= j < v.entries.len() ==> (#[trigger] v.entries[j]).handle.generation
                            != step.0.entries[i].handle.generation,
                    None => false,
                },
                ResolveOutcomeView::NeedsBuild(_, _) => step.0 == ve,
                ResolveOutcomeView::Rejected(_) => step.0 == ve,
            }
        }),
{
    let ve = evict_spec(v, id);
    lemma_evict_wf(v, id);
    match materialize_result(ve.config, defv) {
        Err(_) => {
        },
        Ok(p) => {
            let fp = p.1;
            match cache_find(c, fp) {
                None => {
                },
                Some(art) => {
                    if ve.next_generation != u64::MAX {
                        match load_result(art, ve.config.abi_tag, ve.next_generation) {
                            Err(_) => {
                            },
                            Ok(h) => {
                                lemma_install_wf(ve, id, fp, defv.strict, h);
                            },
                        }
                    }
                },
            }
        },
    }
}

/// Cache correctness: an artifact stored under its fingerprint is exactly
/// what any later lookup under that fingerprint answers — also in another
/// process sharing the durable store — and a well-formed artifact then
/// loads into a handle without any rebuild.
pub proof fn law_cache_round_trip(
    c: Seq<CacheSlot>,
    fp: u64,
    art: Artifact,
    expected_abi: u8,
    generation: u64,
)
    requires
        cache_find(c, fp) is None,
        art.magic == ARTIFACT_MAGIC,
        art.entry_symbol == ENTRY_SYMBOL,
        art.abi_tag == expected_abi,
    ensures
        cache_find(stored_cache(c, fp, art), fp) == Some(art),
        load_result(art, expected_abi, generation) == Ok::<LoadedHandle, LoadError>(
            LoadedHandle { entry: art.entry, arity: art.arity, generation, calls: 0 },
        ),
{
    crate::cache::lemma_cache_find_push(c, CacheSlot { fingerprint: fp, artifact: art }, fp);
}

/// Strict-null short circuit: a strict routine invoked with any null
/// argument yields null, and the native entry is not entered, so the
/// handle's call counter stands still.
pub proof fn law_strict_null(h: LoadedHandle, args: Seq<ValueView>)
    requires
        has_null_arg(args),
    ensures
        invoke_result(h, true, args) == Ok::<ValueView, InvocationError>(ValueView::Null),
        !invoke_enters(h, true, args),
{
}

/// A deliberate trap inside an entered routine body comes back as a
/// routine-execution fault, never as anything rawer.
pub proof fn law_trap_reported(h: LoadedHandle, strict: bool, args: Seq<ValueView>)
    requires
        invoke_enters(h, strict, args),
        h.entry is Trap,
    ensures
        invoke_result(h, strict, args) == Err::<ValueView, InvocationError>(
            InvocationError::UserCodeFault(FaultKind::ExplicitTrap),
        ),
{
}

/// Fault containment across routines: whatever invoking one identifier
/// does or reports — a fault included — every other installed routine's
/// entry stands exactly as it stood, so a subsequent call to a healthy
/// routine answers as it would have before.
pub proof fn law_fault_containment(v: EngineView, id: u64, other: u64, args: Seq<ValueView>)
    requires
        engine_wf(v),
        other != id,
    ensures
        ({
            let v2 = engine_invoke_spec(v, id, args).0;
            &&& v2.next_generation == v.next_generation
            &&& v2.config == v.config
            &&& match (find_entry(v2.entries, other), find_entry(v.entries, other)) {
                (Some(a), Some(b)) => v2.entries[a] == v.entries[b],
                (None, None) => true,
                _ => false,
            }
        }),
{
    lemma_find_entry(v.entries, id);
    match find_entry(v.entries, id) {
        None => {
        },
        Some(i) => {
            let v2 = engine_invoke_spec(v, id, args).0;
            lemma_find_entry(v.entries, other);
            match find_entry(v.entries, other) {
                Some(b) => {
                    assert(v.entries[b].id == other);
                    assert(b != i);
                    assert(v2.entries[b] == v.entries[b]);
                    assert forall|j: int| 0 <= j < b implies (#[trigger] v2.entries[j]).id
                        != other by {
                        if j != i {
                            assert(v2.entries[j] == v.entries[j]);
                        }
                    }
                    lemma_find_entry_at(v2.entries, other, b);
                },
                None => {
                    assert forall|j: int| 0 <= j < v2.entries.len() implies (
                    #[trigger] v2.entries[j]).id != other by {
                        if j != i {
                            assert(v2.entries[j] == v.entries[j]);
                        }
                    }
                    lemma_find_entry_none(v2.entries, other);
                },
            }
        },
    }
}

/// Sandboxing: under a sandboxed configuration, a definition declaring a
/// dependency outside the approved set fails its resolution with the
/// dependency rejection before anything else happens: the engine is
/// untouched and no build is ever requested, so the build invoker is
/// never reached.
pub proof fn law_sandbox_blocks(
    v: EngineView,
    c: Seq<CacheSlot>,
    id: u64,
    defv: FunctionDefinitionView,
)
    requires
        v.config.sandboxed,
        split_sections(defv.source) matches Some(p) && !deps_allowed(p.0, v.config.allowed_deps),
    ensures
        resolve_spec(v, c, id, defv) == (
            v,
            ResolveOutcomeView::Rejected(EngineErrorView::DependencyNotAllowed),
        ),
{
}

} // verus!
