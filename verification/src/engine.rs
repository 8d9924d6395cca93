//! The function table and the orchestrating resolution paths.
//!
//! The engine is the process-lifetime context object: it owns the
//! in-process mapping from routine identifier to loaded handle and drives
//! materialize, cache lookup, build hand-off, load and install. The only
//! cross-process state it touches is the artifact cache, which is passed
//! in, never owned.

use vstd::prelude::*;

use crate::artifact::Artifact;
use crate::cache::{cache_find, ArtifactCache, CacheSlot};
use crate::definition::{FunctionDefinition, FunctionDefinitionView};
use crate::errors::{
    engine_error_of_materialize, EngineError, EngineErrorView, InvocationError, MaterializeError,
};
use crate::loader::{load, load_result, LoadedHandle};
use crate::materialize::{
    materialize, materialize_result, BuildUnit, BuildUnitView, ConfigView, EngineConfig,
};
use crate::trampoline::{bumped, invoke_enters, invoke_result};
use crate::values::{Value, ValueView};

verus! {

/// One function-table entry: a stable routine identifier mapped to its
/// loaded handle, with the fingerprint the handle was built from for
/// staleness checks and the declared strictness for the trampoline.
#[derive(Clone, Copy, PartialEq, Eq, Structural, Debug)]
pub struct TableEntry {
    pub id: u64,
    pub fingerprint: u64,
    pub strict: bool,
    pub handle: LoadedHandle,
}

/// The engine: the function table, the configuration read at
/// initialization, and the generation counter that stamps every installed
/// handle.
pub struct Engine {
    entries: Vec<TableEntry>,
    config: EngineConfig,
    next_generation: u64,
}

/// The mathematical shape of an [`Engine`].
#[verifier::ext_equal]
pub struct EngineView {
    pub entries: Seq<TableEntry>,
    pub config: ConfigView,
    pub next_generation: u64,
}

impl View for Engine {
    type V = EngineView;

    closed spec fn view(&self) -> EngineView {
        EngineView {
            entries: self.entries@,
            config: self.config@,
            next_generation: self.next_generation,
        }
    }
}

/// Index of the entry for `id`, if one is installed. A well-formed table
/// has at most one.
pub open spec fn find_entry(s: Seq<TableEntry>, id: u64) -> Option<int>
    decreases s.len(),
{
    if s.len() == 0 {
        None
    } else if s[0].id == id {
        Some(0)
    } else {
        match find_entry(s.skip(1), id) {
            None => None,
            Some(j) => Some(j + 1),
        }
    }
}

/// What [`find_entry`] answers: the first index holding `id`, or nothing
/// when no index holds it.
pub proof fn lemma_find_entry(s: Seq<TableEntry>, id: u64)
    ensures
        match find_entry(s, id) {
            Some(i) => 0 <= i < s.len() && s[i].id == id && forall|j: int|
                0 <= j < i ==> (#[trigger] s[j]).id != id,
            None => forall|j: int| 0 <= j < s.len() ==> (#[trigger] s[j]).id != id,
        },
    decreases s.len(),
{
    if s.len() > 0 && s[0].id != id {
        lemma_find_entry(s.skip(1), id);
        assert forall|j: int| 1 <= j < s.len() implies #[trigger] s[j] == s.skip(1)[j - 1] by {}
    }
}

/// A sequence whose first occurrence of `id` stands at `i` answers `i`.
pub proof fn lemma_find_entry_at(s: Seq<TableEntry>, id: u64, i: int)
    requires
        0 <= i < s.len(),
        s[i].id == id,
        forall|j: int| 0 <= j < i ==> (#[trigger] s[j]).id != id,
    ensures
        find_entry(s, id) == Some(i),
    decreases i,
{
    if i > 0 {
        lemma_find_entry_at(s.skip(1), id, i - 1);
    }
}

/// A sequence without `id` answers nothing.
pub proof fn lemma_find_entry_none(s: Seq<TableEntry>, id: u64)
    requires
        forall|j: int| 0 <= j < s.len() ==> (#[trigger] s[j]).id != id,
    ensures
        find_entry(s, id) is None,
    decreases s.len(),
{
    if s.len() > 0 {
        lemma_find_entry_none(s.skip(1), id);
    }
}

/// Well-formedness of the engine: the table maps each identifier at most
/// once, and every installed handle carries a generation below the
/// counter, so a fresh generation never repeats an installed one.
pub open spec fn engine_wf(v: EngineView) -> bool {
    &&& forall|i: int, j: int|
        0 <= i < j < v.entries.len() ==> (#[trigger] v.entries[i]).id != (
        #[trigger] v.entries[j]).id
    &&& forall|i: int|
        0 <= i < v.entries.len() ==> (#[trigger] v.entries[i]).handle.generation
            < v.next_generation
}

/// The engine after installing a freshly loaded handle for `id`: the
/// existing entry is replaced atomically, or a new entry is appended, and
/// the generation counter advances.
pub open spec fn install_entry(
    v: EngineView,
    id: u64,
    fp: u64,
    strict: bool,
    h: LoadedHandle,
) -> EngineView {
    let entry = TableEntry { id, fingerprint: fp, strict, handle: h };
    let entries = match find_entry(v.entries, id) {
        Some(i) => v.entries.update(i, entry),
        None => v.entries.push(entry),
    };
    EngineView { entries, config: v.config, next_generation: (v.next_generation + 1) as u64 }
}

/// Installing a fresh handle preserves well-formedness and leaves the new
/// entry as the one the table answers for `id`.
pub proof fn lemma_install_wf(v: EngineView, id: u64, fp: u64, strict: bool, h: LoadedHandle)
    requires
        engine_wf(v),
        h.generation == v.next_generation,
        v.next_generation < u64::MAX,
    ensures
        engine_wf(install_entry(v, id, fp, strict, h)),
        ({
            let v2 = install_entry(v, id, fp, strict, h);
            match find_entry(v2.entries, id) {
                Some(i) => v2.entries[i] == TableEntry { id, fingerprint: fp, strict, handle: h },
                None => false,
            }
        }),
{
    lemma_find_entry(v.entries, id);
    let entry = TableEntry { id, fingerprint: fp, strict, handle: h };
    let v2 = install_entry(v, id, fp, strict, h);
    match find_entry(v.entries, id) {
        Some(i) => {
            lemma_find_entry_at(v2.entries, id, i);
        },
        None => {
            lemma_find_entry_at(v2.entries, id, v.entries.len() as int);
        },
    }
}

/// The engine after an eviction: the entry for `id`, if any, is removed;
/// nothing else changes.
pub open spec fn evict_spec(v: EngineView, id: u64) -> EngineView {
    match find_entry(v.entries, id) {
        Some(i) => EngineView {
            entries: v.entries.remove(i),
            config: v.config,
            next_generation: v.next_generation,
        },
        None => v,
    }
}

/// Eviction preserves well-formedness and leaves no entry for `id`.
pub proof fn lemma_evict_wf(v: EngineView, id: u64)
    requires
        engine_wf(v),
    ensures
        engine_wf(evict_spec(v, id)),
        find_entry(evict_spec(v, id).entries, id) is None,
        forall|other: u64|
            other != id ==> match (
                #[trigger] find_entry(evict_spec(v, id).entries, other),
                find_entry(v.entries, other),
            ) {
                (Some(a), Some(b)) => evict_spec(v, id).entries[a] == v.entries[b],
                (None, None) => true,
                _ => false,
            },
{
    lemma_find_entry(v.entries, id);
    match find_entry(v.entries, id) {
        Some(i) => {
            let s2 = evict_spec(v, id).entries;
            assert forall|j: int| 0 <= j < s2.len() implies (#[trigger] s2[j]).id != id by {
                if j < i {
                    assert(s2[j] == v.entries[j]);
                } else {
                    assert(s2[j] == v.entries[j + 1]);
                }
            }
            lemma_find_entry_none(s2, id);
            assert forall|other: u64| other != id implies match (
                #[trigger] find_entry(s2, other),
                find_entry(v.entries, other),
            ) {
                (Some(a), Some(b)) => s2[a] == v.entries[b],
                (None, None) => true,
                _ => false,
            } by {
                lemma_find_entry(v.entries, other);
                match find_entry(v.entries, other) {
                    Some(b) => {
                        if b < i {
                            assert forall|j: int| 0 <= j < b implies (#[trigger] s2[j]).id
                                != other by {
                                assert(s2[j] == v.entries[j]);
                            }
                            assert(s2[b] == v.entries[b]);
                            lemma_find_entry_at(s2, other, b);
                        } else {
                            // `other` stands past the removed index.
                            assert(s2[b - 1] == v.entries[b]);
                            assert forall|j: int| 0 <= j < b - 1 implies (#[trigger] s2[j]).id
                                != other by {
                                if j < i {
                                    assert(s2[j] == v.entries[j]);
                                } else {
                                    assert(s2[j] == v.entries[j + 1]);
                                }
                            }
                            lemma_find_entry_at(s2, other, b - 1);
                        }
                    },
                    None => {
                        assert forall|j: int| 0 <= j < s2.len() implies (#[trigger] s2[j]).id
                            != other by {
                            if j < i {
                                assert(s2[j] == v.entries[j]);
                            } else {
                                assert(s2[j] == v.entries[j + 1]);
                            }
                        }
                        lemma_find_entry_none(s2, other);
                    },
                }
            }
        },
        None => {
        },
    }
}

/// What resolution decides, besides the handle it may install.
#[derive(PartialEq, Eq, Debug)]
pub enum ResolveOutcome {
    /// A handle for the identifier is installed and current; invoke may
    /// proceed.
    Ready,
    /// No artifact for the fingerprint exists yet: the caller must run a
    /// toolchain on this unit and hand the outcome to `install_build`
    /// under this fingerprint. The engine state is untouched.
    NeedsBuild(BuildUnit, u64),
    /// The resolution failed; the engine state is untouched.
    Rejected(EngineError),
}

/// The mathematical shape of a [`ResolveOutcome`].
pub enum ResolveOutcomeView {
    Ready,
    NeedsBuild(BuildUnitView, u64),
    Rejected(EngineErrorView),
}

impl View for ResolveOutcome {
    type V = ResolveOutcomeView;

    open spec fn view(&self) -> ResolveOutcomeView {
        match self {
            ResolveOutcome::Ready => ResolveOutcomeView::Ready,
            ResolveOutcome::NeedsBuild(u, fp) => ResolveOutcomeView::NeedsBuild(u@, *fp),
            ResolveOutcome::Rejected(e) => ResolveOutcomeView::Rejected(e@),
        }
    }
}

/// What `resolve` does, in full: materialize and fingerprint the
/// definition; answer from the table when the installed entry matches the
/// fingerprint; otherwise consult the cache, and either load and install
/// the cached artifact under a fresh generation or ask the caller for a
/// build. Failures leave the engine untouched.
pub open spec fn resolve_spec(
    v: EngineView,
    cache: Seq<CacheSlot>,
    id: u64,
    defv: FunctionDefinitionView,
) -> (EngineView, ResolveOutcomeView) {
    match materialize_result(v.config, defv) {
        Err(e) => (v, ResolveOutcomeView::Rejected(engine_error_of_materialize(e))),
        Ok(p) => {
            let fp = p.1;
            let hit = match find_entry(v.entries, id) {
                Some(i) => v.entries[i].fingerprint == fp,
                None => false,
            };
            if hit {
                (v, ResolveOutcomeView::Ready)
            } else {
                match cache_find(cache, fp) {
                    None => (v, ResolveOutcomeView::NeedsBuild(p.0, fp)),
                    Some(art) => {
                        if v.next_generation == u64::MAX {
                            (v, ResolveOutcomeView::Rejected(EngineErrorView::Internal))
                        } else {
                            match load_result(art, v.config.abi_tag, v.next_generation) {
                                Err(le) => (
                                    v,
                                    ResolveOutcomeView::Rejected(EngineErrorView::Load(le)),
                                ),
                                Ok(h) => (install_entry(v, id, fp, defv.strict, h),
                                ResolveOutcomeView::Ready),
                            }
                        }
                    },
                }
            }
        },
    }
}

/// A table entry after one invocation through it: the call counter has
/// advanced exactly if the native entry was entered.
pub open spec fn invoked_entry(e: TableEntry, args: Seq<ValueView>) -> TableEntry {
    TableEntry {
        handle: LoadedHandle {
            calls: if invoke_enters(e.handle, e.strict, args) {
                bumped(e.handle.calls)
            } else {
                e.handle.calls
            },
            ..e.handle
        },
        ..e
    }
}

/// What invoking an identifier does to the engine and yields: nothing and
/// a not-loaded error when no handle is installed; otherwise the
/// trampoline's result, with exactly that entry's call counter advanced.
pub open spec fn engine_invoke_spec(v: EngineView, id: u64, args: Seq<ValueView>) -> (
    EngineView,
    Result<ValueView, InvocationError>,
) {
    match find_entry(v.entries, id) {
        None => (v, Err(InvocationError::RoutineNotLoaded)),
        Some(i) => (
            EngineView {
                entries: v.entries.update(i, invoked_entry(v.entries[i], args)),
                config: v.config,
                next_generation: v.next_generation,
            },
            invoke_result(v.entries[i].handle, v.entries[i].strict, args),
        ),
    }
}

/// The artifact that addresses `fp` after an offer of `art`: the one
/// already stored, if any — the first completed writer wins — else the
/// offered one.
pub open spec fn stored_artifact(c: Seq<CacheSlot>, fp: u64, art: Artifact) -> Artifact {
    match cache_find(c, fp) {
        Some(a) => a,
        None => art,
    }
}

/// The cache after an offer of `art` under `fp`: unchanged when the
/// fingerprint is already present, else extended by the offered artifact.
pub open spec fn stored_cache(c: Seq<CacheSlot>, fp: u64, art: Artifact) -> Seq<CacheSlot> {
    match cache_find(c, fp) {
        Some(_) => c,
        None => c.push(CacheSlot { fingerprint: fp, artifact: art }),
    }
}

/// What completing a build that produced an artifact does: the artifact is
/// published to the shared cache unless an earlier writer won, the winning
/// artifact is loaded, and on success the handle is installed under a
/// fresh generation.
pub open spec fn install_built_spec(
    v: EngineView,
    c: Seq<CacheSlot>,
    id: u64,
    fp: u64,
    strict: bool,
    art: Artifact,
) -> (EngineView, Seq<CacheSlot>, Result<(), EngineErrorView>) {
    let stored = stored_artifact(c, fp, art);
    let c2 = stored_cache(c, fp, art);
    if v.next_generation == u64::MAX {
        (v, c2, Err(EngineErrorView::Internal))
    } else {
        match load_result(stored, v.config.abi_tag, v.next_generation) {
            Err(le) => (v, c2, Err(EngineErrorView::Load(le))),
            Ok(h) => (install_entry(v, id, fp, strict, h), c2, Ok(())),
        }
    }
}

/// What completing a build does: a failed build — an unclean toolchain
/// exit, or a clean one without an artifact — is reported with its full
/// diagnostics verbatim and changes nothing; a successful one publishes,
/// loads and installs.
pub open spec fn install_build_spec(
    v: EngineView,
    c: Seq<CacheSlot>,
    id: u64,
    fp: u64,
    strict: bool,
    outcome: crate::toolchain::BuildOutcomeView,
) -> (EngineView, Seq<CacheSlot>, Result<(), EngineErrorView>) {
    if crate::toolchain::build_failed(outcome) {
        (v, c, Err(EngineErrorView::BuildFailed(outcome.diagnostics)))
    } else {
        install_built_spec(v, c, id, fp, strict, outcome.artifact.unwrap())
    }
}

/// The view of a completion result.
pub open spec fn unit_result_view(r: Result<(), EngineError>) -> Result<(), EngineErrorView> {
    match r {
        Ok(u) => Ok(u),
        Err(e) => Err(e@),
    }
}

/// The fingerprint a definition resolves to under a configuration, where
/// materialization succeeds.
pub open spec fn resolved_fp(config: ConfigView, defv: FunctionDefinitionView) -> u64 {
    match materialize_result(config, defv) {
        Ok(p) => p.1,
        Err(_) => 0,
    }
}

/// What driving a resolution to completion with the bundled toolchain
/// does: a table or cache hit finishes as `resolve` alone would; a needed
/// build runs the bundled toolchain, and its outcome is published, loaded
/// and installed, or reported.
pub open spec fn resolve_and_build_post(
    v: EngineView,
    c: Seq<CacheSlot>,
    id: u64,
    defv: FunctionDefinitionView,
    v2: EngineView,
    c2: Seq<CacheSlot>,
    r: Result<(), EngineErrorView>,
) -> bool {
    let step = resolve_spec(v, c, id, defv);
    match step.1 {
        ResolveOutcomeView::Ready => v2 == step.0 && c2 == c && r is Ok,
        ResolveOutcomeView::Rejected(e) => v2 == step.0 && c2 == c && r == Err::<
            (),
            EngineErrorView,
        >(e),
        ResolveOutcomeView::NeedsBuild(unit, fp) => match crate::toolchain::compile_artifact(
            unit,
        ) {
            None => v2 == step.0 && c2 == c && (r matches Err(EngineErrorView::BuildFailed(d))
                && d.len() > 0),
            Some(art) => {
                let done = install_built_spec(step.0, c, id, fp, defv.strict, art);
                v2 == done.0 && c2 == done.1 && r == done.2
            },
        },
    }
}

/// What the validator path does and reports, starting from the eviction it
/// performs: `out` carries, on success, the fingerprint that addresses the
/// artifact, the captured diagnostics, and whether they warn.
pub open spec fn validate_post(
    v: EngineView,
    c: Seq<CacheSlot>,
    id: u64,
    defv: FunctionDefinitionView,
    v2: EngineView,
    c2: Seq<CacheSlot>,
    out: Result<(u64, Seq<u8>, bool), EngineErrorView>,
) -> bool {
    let ve = evict_spec(v, id);
    let step = resolve_spec(ve, c, id, defv);
    match step.1 {
        ResolveOutcomeView::Ready => v2 == step.0 && c2 == c && (out matches Ok(t) && t.0
            == resolved_fp(ve.config, defv) && t.1.len() == 0 && t.2 == false),
        ResolveOutcomeView::Rejected(e) => v2 == step.0 && c2 == c && out == Err::<
            (u64, Seq<u8>, bool),
            EngineErrorView,
        >(e),
        ResolveOutcomeView::NeedsBuild(unit, fp) => match crate::toolchain::compile_artifact(
            unit,
        ) {
            None => v2 == step.0 && c2 == c && (out matches Err(EngineErrorView::BuildFailed(d))
                && d.len() > 0),
            Some(art) => {
                if ve.config.eager_load {
                    let done = install_built_spec(step.0, c, id, fp, defv.strict, art);
                    match done.2 {
                        Ok(_) => v2 == done.0 && c2 == done.1 && (out matches Ok(t) && t.0 == fp
                            && t.2 == crate::toolchain::has_warnings(t.1) && (t.2 <==> unit.manifest.len() > 0)),
                        Err(e) => v2 == done.0 && c2 == done.1 && out == Err::<
                            (u64, Seq<u8>, bool),
                            EngineErrorView,
                        >(e),
                    }
                } else {
                    v2 == step.0 && c2 == stored_cache(c, fp, art) && (out matches Ok(t) && t.0
                        == fp && t.2 == crate::toolchain::has_warnings(t.1) && (t.2
                        <==> unit.manifest.len() > 0))
                }
            },
        },
    }
}

/// The report a definition-time validation hands the definer.
#[derive(PartialEq, Eq, Debug)]
pub struct ValidationReport {
    /// The content address the artifact is stored under.
    pub fingerprint: u64,
    /// The full captured build diagnostics, verbatim; empty when a cached
    /// artifact made a build unnecessary.
    pub diagnostics: Vec<u8>,
    /// Whether the diagnostics carry compiler warnings.
    pub warned: bool,
}

impl Engine {
    /// A fresh engine for one process: an empty table under the given
    /// configuration.
    pub fn init(config: EngineConfig) -> (r: Engine)
        ensures
            r@.entries == Seq::<TableEntry>::empty(),
            r@.config == config@,
            r@.next_generation == 1u64,
            engine_wf(r@),
    {
        let e = Engine { entries: Vec::new(), config, next_generation: 1 };
        proof {
            assert(e@.entries =~= Seq::<TableEntry>::empty());
        }
        e
    }

    /// Drops every installed handle at process end. The underlying loaded
    /// code may stay mapped until the process itself goes away; no unload
    /// is promised.
    pub fn teardown(&mut self)
        ensures
            final(self)@.entries == Seq::<TableEntry>::empty(),
            final(self)@.config == old(self)@.config,
            final(self)@.next_generation == old(self)@.next_generation,
            engine_wf(final(self)@),
    {
        self.entries = Vec::new();
        proof {
            assert(self@.entries =~= Seq::<TableEntry>::empty());
        }
    }

    /// Index of the installed entry for `id`.
    fn find_index(&self, id: u64) -> (r: Option<usize>)
        ensures
            match (r, find_entry(self@.entries, id)) {
                (Some(a), Some(b)) => a as int == b,
                (None, None) => true,
                _ => false,
            },
    {
        let mut i: usize = 0;
        while i < self.entries.len()
            invariant
                i <= self.entries@.len(),
                forall|j: int| 0 <= j < i ==> (#[trigger] self.entries@[j]).id != id,
            decreases self.entries@.len() - i,
        {
            if self.entries[i].id == id {
                proof {
                    lemma_find_entry_at(self.entries@, id, i as int);
                }
                return Some(i);
            }
            i = i + 1;
        }
        proof {
            lemma_find_entry_none(self.entries@, id);
        }
        None
    }

    /// Unconditionally removes the entry for `id`: the validator path calls
    /// this on redefinition before recompiling, and it forces an eager
    /// rebuild on the next resolution. The dropped handle's underlying code
    /// may stay mapped for the life of the process; safety is preferred
    /// over reclamation.
    pub fn evict(&mut self, id: u64)
        requires
            engine_wf(old(self)@),
        ensures
            final(self)@ == evict_spec(old(self)@, id),
            engine_wf(final(self)@),
            find_entry(final(self)@.entries, id) is None,
    {
        proof {
            lemma_evict_wf(self@, id);
            lemma_find_entry(self@.entries, id);
        }
        match self.find_index(id) {
            Some(i) => {
                self.entries.remove(i);
            },
            None => {
            },
        }
    }

    /// Resolves an identifier against its current definition: the
    /// orchestrating entry point. On a table hit whose fingerprint matches
    /// the definition, answers with no further work; on a miss, runs
    /// materialize, consults the cache, and either installs a loaded
    /// handle under a fresh generation or asks the caller to build. The
    /// previous handle, if any, is replaced only together with the install
    /// of the new one.
    pub fn resolve(&mut self, cache: &ArtifactCache, id: u64, def: &FunctionDefinition) -> (r:
        ResolveOutcome)
        requires
            engine_wf(old(self)@),
        ensures
            final(self)@ == resolve_spec(old(self)@, cache@, id, def@).0,
            r@ == resolve_spec(old(self)@, cache@, id, def@).1,
            engine_wf(final(self)@),
    {
        let m = materialize(&self.config, def);
        match m {
            Err(MaterializeError::MalformedDefinition) => ResolveOutcome::Rejected(
                EngineError::MalformedDefinition,
            ),
            Err(MaterializeError::DependencyNotAllowed) => ResolveOutcome::Rejected(
                EngineError::DependencyNotAllowed,
            ),
            Ok((unit, fp)) => {
                let idx = self.find_index(id);
                proof {
                    lemma_find_entry(self@.entries, id);
                }
                let hit = match idx {
                    Some(i) => self.entries[i].fingerprint == fp,
                    None => false,
                };
                if hit {
                    return ResolveOutcome::Ready;
                }
                match cache.lookup(fp) {
                    None => ResolveOutcome::NeedsBuild(unit, fp),
                    Some(art) => {
                        if self.next_generation == u64::MAX {
                            return ResolveOutcome::Rejected(EngineError::Internal);
                        }
                        match load(&art, self.config.abi_tag, self.next_generation) {
                            Err(le) => ResolveOutcome::Rejected(EngineError::Load(le)),
                            Ok(h) => {
                                proof {
                                    lemma_install_wf(self@, id, fp, def@.strict, h);
                                }
                                self.install(id, fp, def.strict, h);
                                ResolveOutcome::Ready
                            },
                        }
                    },
                }
            },
        }
    }

    /// Replaces or appends the entry for `id` and advances the generation
    /// counter.
    fn install(&mut self, id: u64, fp: u64, strict: bool, h: LoadedHandle)
        requires
            old(self)@.next_generation < u64::MAX,
        ensures
            final(self)@ == install_entry(old(self)@, id, fp, strict, h),
    {
        let entry = TableEntry { id, fingerprint: fp, strict, handle: h };
        let idx = self.find_index(id);
        proof {
            lemma_find_entry(self@.entries, id);
        }
        match idx {
            Some(i) => {
                self.entries[i] = entry;
            },
            None => {
                self.entries.push(entry);
            },
        }
        self.next_generation = self.next_generation + 1;
    }

    /// Invokes the installed routine `id` on the given call arguments,
    /// through the trampoline. Only that routine's call counter can
    /// change; every other entry, and the table shape, stays as it was,
    /// whatever the call's outcome.
    pub fn invoke(&mut self, id: u64, args: &Vec<Value>) -> (r: Result<Value, InvocationError>)
        requires
            engine_wf(old(self)@),
        ensures
            final(self)@ == engine_invoke_spec(old(self)@, id, args.deep_view()).0,
            engine_wf(final(self)@),
            match (r, engine_invoke_spec(old(self)@, id, args.deep_view()).1) {
                (Ok(v), Ok(w)) => v@ == w,
                (Err(a), Err(b)) => a == b,
                _ => false,
            },
    {
        match self.find_index(id) {
            None => Err(InvocationError::RoutineNotLoaded),
            Some(i) => {
                proof {
                    lemma_find_entry(self@.entries, id);
                }
                let entry = self.entries[i];
                let mut handle = entry.handle;
                let r = crate::trampoline::invoke(&mut handle, entry.strict, args);
                self.entries[i] = TableEntry {
                    id: entry.id,
                    fingerprint: entry.fingerprint,
                    strict: entry.strict,
                    handle,
                };
                proof {
                    let old_v = old(self)@;
                    assert(self@.entries =~= old_v.entries.update(
                        i as int,
                        invoked_entry(old_v.entries[i as int], args.deep_view()),
                    ));
                    assert(self@ =~= engine_invoke_spec(old_v, id, args.deep_view()).0);
                    lemma_find_entry(old_v.entries, id);
                    assert forall|a: int, b: int|
                        0 <= a < b < self@.entries.len() implies (#[trigger] self@.entries[a]).id
                        != (#[trigger] self@.entries[b]).id by {
                        assert(old_v.entries[a].id != old_v.entries[b].id);
                    }
                }
                r
            },
        }
    }

    /// How many times the native entry of the installed routine `id` has
    /// been entered, where one is installed.
    pub fn call_count(&self, id: u64) -> (r: Option<u64>)
        ensures
            r == match find_entry(self@.entries, id) {
                Some(i) => Some(self@.entries[i].handle.calls),
                None => None::<u64>,
            },
    {
        let idx = self.find_index(id);
        proof {
            lemma_find_entry(self@.entries, id);
        }
        match idx {
            Some(i) => Some(self.entries[i].handle.calls),
            None => None,
        }
    }

    /// The generation of the installed handle for `id`, where one is
    /// installed. Generations never repeat within one engine, so two equal
    /// answers across time mean the very same handle.
    pub fn generation_of(&self, id: u64) -> (r: Option<u64>)
        ensures
            r == match find_entry(self@.entries, id) {
                Some(i) => Some(self@.entries[i].handle.generation),
                None => None::<u64>,
            },
    {
        let idx = self.find_index(id);
        proof {
            lemma_find_entry(self@.entries, id);
        }
        match idx {
            Some(i) => Some(self.entries[i].handle.generation),
            None => None,
        }
    }

    /// Completes a resolution that needed a build: classifies the
    /// toolchain's outcome, publishes a produced artifact to the shared
    /// cache — the first completed writer wins and the loser reuses the
    /// winner's artifact — loads the winning artifact, and installs the
    /// handle. A failed build surfaces its full diagnostics verbatim and
    /// leaves the engine and the cache untouched.
    pub fn install_build(
        &mut self,
        cache: &mut ArtifactCache,
        id: u64,
        fp: u64,
        strict: bool,
        outcome: crate::toolchain::BuildOutcome,
    ) -> (r: Result<(), EngineError>)
        requires
            engine_wf(old(self)@),
        ensures
            final(self)@ == install_build_spec(
                old(self)@,
                old(cache)@,
                id,
                fp,
                strict,
                outcome@,
            ).0,
            final(cache)@ == install_build_spec(
                old(self)@,
                old(cache)@,
                id,
                fp,
                strict,
                outcome@,
            ).1,
            unit_result_view(r) == install_build_spec(
                old(self)@,
                old(cache)@,
                id,
                fp,
                strict,
                outcome@,
            ).2,
            engine_wf(final(self)@),
    {
        match outcome.artifact {
            None => Err(EngineError::BuildFailed(outcome.diagnostics)),
            Some(art) => {
                if !outcome.exit_ok {
                    return Err(EngineError::BuildFailed(outcome.diagnostics));
                }
                let stored = cache.store(fp, art);
                if self.next_generation == u64::MAX {
                    return Err(EngineError::Internal);
                }
                match load(&stored, self.config.abi_tag, self.next_generation) {
                    Err(le) => Err(EngineError::Load(le)),
                    Ok(h) => {
                        proof {
                            lemma_install_wf(self@, id, fp, strict, h);
                        }
                        self.install(id, fp, strict, h);
                        Ok(())
                    },
                }
            },
        }
    }

    /// Resolves an identifier, running the bundled toolchain when no
    /// cached artifact exists yet: the in-process path behind a first
    /// call.
    pub fn resolve_and_build(
        &mut self,
        cache: &mut ArtifactCache,
        id: u64,
        def: &FunctionDefinition,
    ) -> (r: Result<(), EngineError>)
        requires
            engine_wf(old(self)@),
        ensures
            engine_wf(final(self)@),
            resolve_and_build_post(
                old(self)@,
                old(cache)@,
                id,
                def@,
                final(self)@,
                final(cache)@,
                unit_result_view(r),
            ),
    {
        match self.resolve(cache, id, def) {
            ResolveOutcome::Ready => Ok(()),
            ResolveOutcome::Rejected(e) => Err(e),
            ResolveOutcome::NeedsBuild(unit, fp) => {
                let outcome = crate::toolchain::compile(&unit);
                let strict = def.strict;
                self.install_build(cache, id, fp, strict, outcome)
            },
        }
    }

    /// The validator path, run at definition time: evicts any installed
    /// handle for the identifier, then forces an eager resolution so that
    /// build failures surface to the definer rather than at first call.
    /// The build is always eager; loading the artifact into the defining
    /// process besides is the configuration's choice. The report carries
    /// the artifact's address and the full build diagnostics, with their
    /// warnings surfaced, never treated as failure.
    pub fn validate(&mut self, cache: &mut ArtifactCache, id: u64, def: &FunctionDefinition) -> (r:
        Result<ValidationReport, EngineError>)
        requires
            engine_wf(old(self)@),
        ensures
            engine_wf(final(self)@),
            validate_post(
                old(self)@,
                old(cache)@,
                id,
                def@,
                final(self)@,
                final(cache)@,
                match r {
                    Ok(rep) => Ok((rep.fingerprint, rep.diagnostics@, rep.warned)),
                    Err(e) => Err(e@),
                },
            ),
    {
        self.evict(id);
        match self.resolve(cache, id, def) {
            ResolveOutcome::Ready => {
                let diagnostics: Vec<u8> = Vec::new();
                let fp = match materialize(&self.config, def) {
                    Ok((_, fp)) => fp,
                    Err(_) => 0,
                };
                Ok(ValidationReport { fingerprint: fp, diagnostics, warned: false })
            },
            ResolveOutcome::Rejected(e) => Err(e),
            ResolveOutcome::NeedsBuild(unit, fp) => {
                let outcome = crate::toolchain::compile(&unit);
                let warned = crate::toolchain::has_warnings_exec(&outcome.diagnostics);
                match outcome.artifact {
                    None => Err(EngineError::BuildFailed(outcome.diagnostics)),
                    Some(art) => {
                        let stored = cache.store(fp, art);
                        if self.config.eager_load {
                            if self.next_generation == u64::MAX {
                                return Err(EngineError::Internal);
                            }
                            match load(&stored, self.config.abi_tag, self.next_generation) {
                                Err(le) => Err(EngineError::Load(le)),
                                Ok(h) => {
                                    proof {
                                        lemma_install_wf(self@, id, fp, def@.strict, h);
                                    }
                                    self.install(id, fp, def.strict, h);
                                    Ok(
                                        ValidationReport {
                                            fingerprint: fp,
                                            diagnostics: outcome.diagnostics,
                                            warned,
                                        },
                                    )
                                },
                            }
                        } else {
                            Ok(
                                ValidationReport {
                                    fingerprint: fp,
                                    diagnostics: outcome.diagnostics,
                                    warned,
                                },
                            )
                        }
                    },
                }
            },
        }
    }

    /// Forces a rebuild of one routine: evicts its handle and drives the
    /// validator path, answering with the artifact's content address and
    /// the full captured build output on success, or the failure.
    pub fn recompile(&mut self, cache: &mut ArtifactCache, id: u64, def: &FunctionDefinition) -> (r:
        Result<(u64, Vec<u8>), EngineError>)
        requires
            engine_wf(old(self)@),
        ensures
            engine_wf(final(self)@),
            validate_post(
                old(self)@,
                old(cache)@,
                id,
                def@,
                final(self)@,
                final(cache)@,
                match r {
                    Ok(p) => Ok(
                        (p.0, p.1@, crate::toolchain::has_warnings(p.1@)),
                    ),
                    Err(e) => Err(e@),
                },
            ),
    {
        match self.validate(cache, id, def) {
            Ok(rep) => Ok((rep.fingerprint, rep.diagnostics)),
            Err(e) => Err(e),
        }
    }
}

} // verus!
