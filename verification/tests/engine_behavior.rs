//! End-to-end behavior of the engine: resolution, caching, eviction,
//! invocation and fault handling.

use routine_engine::cache::ArtifactCache;
use routine_engine::definition::FunctionDefinition;
use routine_engine::engine::{Engine, ResolveOutcome};
use routine_engine::errors::{EngineError, FaultKind, InvocationError};
use routine_engine::materialize::EngineConfig;
use routine_engine::toolchain;
use routine_engine::values::{Value, ValueType};

fn config() -> EngineConfig {
    EngineConfig {
        sandboxed: false,
        allowed_deps: Vec::new(),
        abi_tag: 7,
        toolchain_id: 1,
        eager_load: true,
    }
}

fn definition(params: Vec<ValueType>, ret: ValueType, strict: bool, source: &[u8]) -> FunctionDefinition {
    FunctionDefinition { params, ret, strict, immutable: true, source: source.to_vec() }
}

fn sum_def(strict: bool) -> FunctionDefinition {
    definition(vec![ValueType::IntSeq], ValueType::Int, strict, b"sum 0")
}

fn product_def() -> FunctionDefinition {
    definition(vec![ValueType::IntSeq], ValueType::Int, true, b"product 0")
}

fn int_seq(values: &[i64]) -> Vec<Value> {
    vec![Value::IntSeq(values.to_vec())]
}

/// Drives a resolution to a ready handle, building when asked to.
fn resolve_fully(engine: &mut Engine, cache: &mut ArtifactCache, id: u64, def: &FunctionDefinition) {
    engine.resolve_and_build(cache, id, def).expect("resolution failed");
}

#[test]
fn sum_array_scenario() {
    let mut engine = Engine::init(config());
    let mut cache = ArtifactCache::new();
    let id = 42;

    resolve_fully(&mut engine, &mut cache, id, &sum_def(true));
    assert_eq!(engine.invoke(id, &int_seq(&[1, 2, 3])), Ok(Value::Int(6)));

    // Redefinition without invalidation is a bug this must expose: the
    // stale handle still answers with the old semantics.
    assert_eq!(engine.invoke(id, &int_seq(&[2, 3, 4])), Ok(Value::Int(9)));

    // The validator path evicts and rebuilds; the product semantics take
    // over.
    engine.validate(&mut cache, id, &product_def()).expect("redefinition failed");
    assert_eq!(engine.invoke(id, &int_seq(&[2, 3, 4])), Ok(Value::Int(24)));
}

#[test]
fn resolve_is_idempotent() {
    let mut engine = Engine::init(config());
    let mut cache = ArtifactCache::new();
    let def = sum_def(true);

    // First resolution asks for exactly one build.
    match engine.resolve(&cache, 5, &def) {
        ResolveOutcome::NeedsBuild(unit, fp) => {
            let outcome = toolchain::compile(&unit);
            engine.install_build(&mut cache, 5, fp, def.strict, outcome).expect("install failed");
        }
        other => panic!("expected a build request, got {:?}", other),
    }
    let generation = engine.generation_of(5).unwrap();

    // The second resolution performs no build and keeps the same handle.
    assert!(matches!(engine.resolve(&cache, 5, &def), ResolveOutcome::Ready));
    assert_eq!(engine.generation_of(5), Some(generation));
    assert!(matches!(engine.resolve(&cache, 5, &def), ResolveOutcome::Ready));
    assert_eq!(engine.generation_of(5), Some(generation));
}

#[test]
fn evict_forces_a_fresh_cycle() {
    let mut engine = Engine::init(config());
    let mut cache = ArtifactCache::new();
    let def = sum_def(true);

    resolve_fully(&mut engine, &mut cache, 5, &def);
    let first_generation = engine.generation_of(5).unwrap();

    engine.evict(5);
    assert_eq!(engine.generation_of(5), None);

    // The artifact is reused from the cache — no build — but the handle is
    // a fresh one, under a new generation.
    assert!(matches!(engine.resolve(&cache, 5, &def), ResolveOutcome::Ready));
    let second_generation = engine.generation_of(5).unwrap();
    assert!(second_generation > first_generation);
    assert_eq!(engine.invoke(5, &int_seq(&[1, 2, 3])), Ok(Value::Int(6)));
}

#[test]
fn cache_is_shared_across_processes() {
    let mut cache = ArtifactCache::new();
    let def = sum_def(true);

    // One process builds and publishes.
    let mut first = Engine::init(config());
    resolve_fully(&mut first, &mut cache, 9, &def);

    // A second process sharing the store resolves without any build.
    let mut second = Engine::init(config());
    assert!(matches!(second.resolve(&cache, 9, &def), ResolveOutcome::Ready));
    assert_eq!(second.invoke(9, &int_seq(&[4, 5])), Ok(Value::Int(9)));
}

#[test]
fn strict_null_short_circuits() {
    let mut engine = Engine::init(config());
    let mut cache = ArtifactCache::new();
    resolve_fully(&mut engine, &mut cache, 3, &sum_def(true));

    assert_eq!(engine.invoke(3, &vec![Value::Null]), Ok(Value::Null));
    assert_eq!(engine.call_count(3), Some(0));

    assert_eq!(engine.invoke(3, &int_seq(&[10])), Ok(Value::Int(10)));
    assert_eq!(engine.call_count(3), Some(1));
}

#[test]
fn non_strict_routine_sees_the_null() {
    let mut engine = Engine::init(config());
    let mut cache = ArtifactCache::new();
    resolve_fully(&mut engine, &mut cache, 3, &sum_def(false));

    assert_eq!(
        engine.invoke(3, &vec![Value::Null]),
        Err(InvocationError::UserCodeFault(FaultKind::TypeMismatch))
    );
    assert_eq!(engine.call_count(3), Some(1));
}

#[test]
fn faults_are_contained() {
    let mut engine = Engine::init(config());
    let mut cache = ArtifactCache::new();
    let trap = definition(vec![ValueType::IntSeq], ValueType::Int, false, b"trap");

    resolve_fully(&mut engine, &mut cache, 7, &trap);
    resolve_fully(&mut engine, &mut cache, 8, &sum_def(true));

    assert_eq!(
        engine.invoke(7, &int_seq(&[1])),
        Err(InvocationError::UserCodeFault(FaultKind::ExplicitTrap))
    );

    // A subsequent call to a healthy routine in the same process succeeds.
    assert_eq!(engine.invoke(8, &int_seq(&[1, 2, 3])), Ok(Value::Int(6)));
}

#[test]
fn overflow_is_a_contained_fault() {
    let mut engine = Engine::init(config());
    let mut cache = ArtifactCache::new();
    resolve_fully(&mut engine, &mut cache, 2, &sum_def(true));

    assert_eq!(
        engine.invoke(2, &int_seq(&[i64::MAX, 1])),
        Err(InvocationError::UserCodeFault(FaultKind::Overflow))
    );
    assert_eq!(engine.invoke(2, &int_seq(&[i64::MAX, 0])), Ok(Value::Int(i64::MAX)));
}

#[test]
fn arity_mismatch_is_a_marshal_error() {
    let mut engine = Engine::init(config());
    let mut cache = ArtifactCache::new();
    resolve_fully(&mut engine, &mut cache, 2, &sum_def(false));

    let two_args = vec![Value::Int(1), Value::Int(2)];
    assert_eq!(engine.invoke(2, &two_args), Err(InvocationError::MarshalMismatch));
}

#[test]
fn an_argument_echo_returns_the_sequence_unchanged() {
    let mut engine = Engine::init(config());
    let mut cache = ArtifactCache::new();
    let echo = definition(vec![ValueType::IntSeq], ValueType::IntSeq, true, b"arg 0");
    resolve_fully(&mut engine, &mut cache, 13, &echo);
    assert_eq!(engine.invoke(13, &int_seq(&[3, 1, 4])), Ok(Value::IntSeq(vec![3, 1, 4])));
}

#[test]
fn a_constant_routine_takes_no_arguments() {
    let mut engine = Engine::init(config());
    let mut cache = ArtifactCache::new();
    let five = definition(Vec::new(), ValueType::Int, true, b"5");
    resolve_fully(&mut engine, &mut cache, 14, &five);
    assert_eq!(engine.invoke(14, &Vec::new()), Ok(Value::Int(5)));

    let nothing = definition(Vec::new(), ValueType::Int, true, b"null");
    engine.validate(&mut cache, 15, &nothing).expect("redefinition failed");
    assert_eq!(engine.invoke(15, &Vec::new()), Ok(Value::Null));
}

#[test]
fn product_overflow_is_a_contained_fault() {
    let mut engine = Engine::init(config());
    let mut cache = ArtifactCache::new();
    resolve_fully(&mut engine, &mut cache, 16, &product_def());
    assert_eq!(
        engine.invoke(16, &int_seq(&[i64::MAX, 2])),
        Err(InvocationError::UserCodeFault(FaultKind::Overflow))
    );
    assert_eq!(engine.invoke(16, &int_seq(&[6, 7])), Ok(Value::Int(42)));
}

#[test]
fn unknown_routine_is_reported() {
    let mut engine = Engine::init(config());
    assert_eq!(engine.invoke(77, &vec![Value::Null]), Err(InvocationError::RoutineNotLoaded));
}

#[test]
fn teardown_drops_every_handle() {
    let mut engine = Engine::init(config());
    let mut cache = ArtifactCache::new();
    resolve_fully(&mut engine, &mut cache, 1, &sum_def(true));
    resolve_fully(&mut engine, &mut cache, 2, &product_def());

    engine.teardown();
    assert_eq!(engine.generation_of(1), None);
    assert_eq!(engine.generation_of(2), None);
    assert_eq!(engine.invoke(1, &int_seq(&[1])), Err(InvocationError::RoutineNotLoaded));
}

#[test]
fn sandbox_rejects_undeclared_dependency_before_any_build() {
    let mut config = config();
    config.sandboxed = true;
    config.allowed_deps = vec![b"alpha".to_vec()];
    let mut engine = Engine::init(config);
    let cache = ArtifactCache::new();

    let def = definition(
        vec![ValueType::IntSeq],
        ValueType::Int,
        true,
        b"[dependencies]\nzlib=1.0\n[code]\nsum 0",
    );

    // The rejection comes from materialization: no build is ever requested.
    match engine.resolve(&cache, 1, &def) {
        ResolveOutcome::Rejected(EngineError::DependencyNotAllowed) => {}
        other => panic!("expected the dependency rejection, got {:?}", other),
    }
}

#[test]
fn sandbox_admits_approved_dependencies() {
    let mut config = config();
    config.sandboxed = true;
    config.allowed_deps = vec![b"alpha".to_vec()];
    let mut engine = Engine::init(config);
    let mut cache = ArtifactCache::new();

    let def = definition(
        vec![ValueType::IntSeq],
        ValueType::Int,
        true,
        b"[dependencies]\nalpha=1.0\n[code]\nsum 0",
    );
    resolve_fully(&mut engine, &mut cache, 1, &def);
    assert_eq!(engine.invoke(1, &int_seq(&[2, 2])), Ok(Value::Int(4)));
}

#[test]
fn validation_surfaces_warnings() {
    let mut engine = Engine::init(config());
    let mut cache = ArtifactCache::new();

    // A unit that declares dependencies the entry grammar cannot use
    // builds with a warning; the warning is surfaced, not a failure.
    let def = definition(
        vec![ValueType::IntSeq],
        ValueType::Int,
        true,
        b"[dependencies]\nalpha=1.0\n[code]\nsum 0",
    );
    let report = engine.validate(&mut cache, 11, &def).expect("validation failed");
    assert!(report.warned);
    let text = String::from_utf8(report.diagnostics.clone()).unwrap();
    assert!(text.contains("warning: "));

    // A dependency-free definition builds silently.
    let clean = engine.validate(&mut cache, 12, &sum_def(true)).expect("validation failed");
    assert!(!clean.warned);
    assert!(clean.diagnostics.is_empty());
}

#[test]
fn build_failure_surfaces_diagnostics_verbatim() {
    let mut engine = Engine::init(config());
    let mut cache = ArtifactCache::new();
    let outcome = toolchain::BuildOutcome {
        exit_ok: false,
        artifact: None,
        diagnostics: b"boom: line 3".to_vec(),
    };
    match engine.install_build(&mut cache, 4, 999, true, outcome) {
        Err(EngineError::BuildFailed(d)) => assert_eq!(d, b"boom: line 3".to_vec()),
        other => panic!("expected the build failure, got {:?}", other),
    }
}

#[test]
fn unclean_exit_fails_the_build_even_with_an_artifact() {
    let mut engine = Engine::init(config());
    let mut cache = ArtifactCache::new();
    let unit = match engine.resolve(&cache, 4, &sum_def(true)) {
        ResolveOutcome::NeedsBuild(unit, _) => unit,
        other => panic!("expected a build request, got {:?}", other),
    };
    let mut outcome = toolchain::compile(&unit);
    outcome.exit_ok = false;
    outcome.diagnostics = b"toolchain crashed".to_vec();
    match engine.install_build(&mut cache, 4, 999, true, outcome) {
        Err(EngineError::BuildFailed(d)) => assert_eq!(d, b"toolchain crashed".to_vec()),
        other => panic!("expected the build failure, got {:?}", other),
    }
}

#[test]
fn unparsable_body_fails_the_build_with_diagnostics() {
    let mut engine = Engine::init(config());
    let mut cache = ArtifactCache::new();
    let def = definition(vec![ValueType::IntSeq], ValueType::Int, true, b"frobnicate 0");
    match engine.validate(&mut cache, 6, &def) {
        Err(EngineError::BuildFailed(d)) => assert!(!d.is_empty()),
        other => panic!("expected a build failure, got {:?}", other),
    }
}

#[test]
fn ill_typed_body_fails_the_build() {
    let mut engine = Engine::init(config());
    let mut cache = ArtifactCache::new();
    // `sum` needs an integer-sequence parameter; an integer one does not fit.
    let def = definition(vec![ValueType::Int], ValueType::Int, true, b"sum 0");
    match engine.validate(&mut cache, 6, &def) {
        Err(EngineError::BuildFailed(d)) => assert!(!d.is_empty()),
        other => panic!("expected a build failure, got {:?}", other),
    }
}

#[test]
fn recompile_reports_location_and_output() {
    let mut engine = Engine::init(config());
    let mut cache = ArtifactCache::new();
    let (location, output) =
        engine.recompile(&mut cache, 30, &sum_def(true)).expect("recompilation failed");
    assert!(output.is_empty());

    // Recompiling the same definition converges on the same content
    // address.
    let (again, _) = engine.recompile(&mut cache, 30, &sum_def(true)).expect("recompilation failed");
    assert_eq!(location, again);
}

#[test]
fn lazy_validation_builds_without_loading() {
    let mut config = config();
    config.eager_load = false;
    let mut engine = Engine::init(config);
    let mut cache = ArtifactCache::new();

    engine.validate(&mut cache, 21, &sum_def(true)).expect("validation failed");
    // The artifact was built and published, but nothing was loaded into
    // the table.
    assert_eq!(engine.generation_of(21), None);
    // The first call then resolves from the cache without a build.
    assert!(matches!(engine.resolve(&cache, 21, &sum_def(true)), ResolveOutcome::Ready));
    assert_eq!(engine.invoke(21, &int_seq(&[1, 1, 1])), Ok(Value::Int(3)));
}
