//! The delimited-section definition format, fingerprints, the loader's
//! checks, and the entry grammar.

use routine_engine::artifact::{Artifact, EntryExpr, ARTIFACT_MAGIC, ENTRY_SYMBOL};
use routine_engine::cache::ArtifactCache;
use routine_engine::definition::{split_sections_exec, FunctionDefinition};
use routine_engine::errors::LoadError;
use routine_engine::loader::load;
use routine_engine::materialize::{materialize, BuildUnit, EngineConfig};
use routine_engine::toolchain;
use routine_engine::values::ValueType;

fn config() -> EngineConfig {
    EngineConfig {
        sandboxed: false,
        allowed_deps: Vec::new(),
        abi_tag: 7,
        toolchain_id: 1,
        eager_load: true,
    }
}

fn definition(source: &[u8]) -> FunctionDefinition {
    FunctionDefinition {
        params: vec![ValueType::IntSeq],
        ret: ValueType::Int,
        strict: true,
        immutable: true,
        source: source.to_vec(),
    }
}

fn unit(params: Vec<ValueType>, ret: ValueType, code: &[u8]) -> BuildUnit {
    BuildUnit { manifest: Vec::new(), params, ret, code: code.to_vec(), abi_tag: 7 }
}

#[test]
fn body_without_header_is_all_code() {
    let (deps, code) = split_sections_exec(&b"sum 0".to_vec()).unwrap();
    assert!(deps.is_empty());
    assert_eq!(code, b"sum 0".to_vec());
}

#[test]
fn dependency_section_is_split_off() {
    let source = b"[dependencies]\nfoo=1.0\nbar=2\n[code]\nsum 0".to_vec();
    let (deps, code) = split_sections_exec(&source).unwrap();
    assert_eq!(deps.len(), 2);
    assert_eq!(deps[0].name, b"foo".to_vec());
    assert_eq!(deps[0].version, b"1.0".to_vec());
    assert_eq!(deps[1].name, b"bar".to_vec());
    assert_eq!(deps[1].version, b"2".to_vec());
    assert_eq!(code, b"sum 0".to_vec());
}

#[test]
fn empty_dependency_section_is_fine() {
    let source = b"[dependencies]\n[code]\nnull".to_vec();
    let (deps, code) = split_sections_exec(&source).unwrap();
    assert!(deps.is_empty());
    assert_eq!(code, b"null".to_vec());
}

#[test]
fn blank_dependency_lines_are_skipped() {
    let source = b"[dependencies]\n\nfoo=1\n\n[code]\nnull".to_vec();
    let (deps, _) = split_sections_exec(&source).unwrap();
    assert_eq!(deps.len(), 1);
    assert_eq!(deps[0].name, b"foo".to_vec());
}

#[test]
fn version_may_carry_further_equals_signs() {
    let source = b"[dependencies]\nfoo=1=beta\n[code]\nnull".to_vec();
    let (deps, _) = split_sections_exec(&source).unwrap();
    assert_eq!(deps[0].name, b"foo".to_vec());
    assert_eq!(deps[0].version, b"1=beta".to_vec());
}

#[test]
fn header_without_code_line_is_malformed() {
    assert!(split_sections_exec(&b"[dependencies]\nfoo=1\n".to_vec()).is_none());
}

#[test]
fn dependency_line_without_equals_is_malformed() {
    assert!(split_sections_exec(&b"[dependencies]\nfoo\n[code]\nnull".to_vec()).is_none());
}

#[test]
fn dependency_line_with_empty_name_is_malformed() {
    assert!(split_sections_exec(&b"[dependencies]\n=1.0\n[code]\nnull".to_vec()).is_none());
}

#[test]
fn fingerprints_are_deterministic_and_content_sensitive() {
    let cfg = config();
    let (_, fp_a) = materialize(&cfg, &definition(b"sum 0")).unwrap();
    let (_, fp_b) = materialize(&cfg, &definition(b"sum 0")).unwrap();
    assert_eq!(fp_a, fp_b);

    let (_, fp_c) = materialize(&cfg, &definition(b"product 0")).unwrap();
    assert_ne!(fp_a, fp_c);

    // The toolchain identity is part of the fingerprint.
    let mut other = config();
    other.toolchain_id = 2;
    let (_, fp_d) = materialize(&other, &definition(b"sum 0")).unwrap();
    assert_ne!(fp_a, fp_d);
}

#[test]
fn loader_checks_run_in_order() {
    let good = Artifact {
        magic: ARTIFACT_MAGIC,
        abi_tag: 7,
        entry_symbol: ENTRY_SYMBOL,
        arity: 1,
        entry: EntryExpr::FoldSum(0),
    };
    let handle = load(&good, 7, 10).unwrap();
    assert_eq!(handle.arity, 1);
    assert_eq!(handle.generation, 10);
    assert_eq!(handle.calls, 0);

    let corrupt = Artifact { magic: 0, ..good };
    assert_eq!(load(&corrupt, 7, 10), Err(LoadError::OsFailure));

    let foreign = Artifact { entry_symbol: 1, ..good };
    assert_eq!(load(&foreign, 7, 10), Err(LoadError::SymbolNotFound));

    let stale = Artifact { abi_tag: 6, ..good };
    assert_eq!(load(&stale, 7, 10), Err(LoadError::IncompatibleArtifact));
}

#[test]
fn the_first_completed_store_wins() {
    let mut cache = ArtifactCache::new();
    let first = Artifact {
        magic: ARTIFACT_MAGIC,
        abi_tag: 7,
        entry_symbol: ENTRY_SYMBOL,
        arity: 1,
        entry: EntryExpr::FoldSum(0),
    };
    let second = Artifact { entry: EntryExpr::FoldProduct(0), ..first };

    assert_eq!(cache.store(1000, first), first);
    // A racing writer under the same fingerprint reuses the published
    // artifact; its own redundant output is discarded.
    assert_eq!(cache.store(1000, second), first);
    assert_eq!(cache.lookup(1000), Some(first));
    assert_eq!(cache.lookup(1001), None);
}

#[test]
fn entry_grammar_accepts_each_form() {
    let cases: Vec<(&[u8], EntryExpr)> = vec![
        (b"null", EntryExpr::ConstNull),
        (b"trap", EntryExpr::Trap),
        (b"  42\n", EntryExpr::ConstInt(42)),
        (b"-7", EntryExpr::ConstInt(-7)),
        (b"sum 0", EntryExpr::FoldSum(0)),
        (b"product 0", EntryExpr::FoldProduct(0)),
    ];
    for (code, expected) in cases {
        let u = unit(vec![ValueType::IntSeq], ValueType::Int, code);
        let outcome = toolchain::compile(&u);
        let artifact = outcome.artifact.unwrap_or_else(|| panic!("{:?} did not compile", code));
        assert_eq!(artifact.entry, expected);
        assert_eq!(artifact.magic, ARTIFACT_MAGIC);
        assert_eq!(artifact.entry_symbol, ENTRY_SYMBOL);
        assert_eq!(artifact.abi_tag, 7);
        assert_eq!(artifact.arity, 1);
    }
}

#[test]
fn entry_grammar_echoes_an_argument() {
    let u = unit(vec![ValueType::Int], ValueType::Int, b"arg 0");
    let artifact = toolchain::compile(&u).artifact.unwrap();
    assert_eq!(artifact.entry, EntryExpr::Arg(0));
}

#[test]
fn entry_grammar_rejects_what_it_cannot_parse() {
    for code in [&b"sum"[..], b"sum x", b"arg 300", b"99999999999999999999", b""] {
        let u = unit(vec![ValueType::IntSeq], ValueType::Int, code);
        let outcome = toolchain::compile(&u);
        assert!(outcome.artifact.is_none(), "{:?} should not compile", code);
        assert!(!outcome.diagnostics.is_empty());
    }
}

#[test]
fn entry_grammar_enforces_the_signature() {
    // An argument echo must agree with the declared result type.
    let u = unit(vec![ValueType::IntSeq], ValueType::Int, b"arg 0");
    assert!(toolchain::compile(&u).artifact.is_none());

    // A fold needs its argument position to exist.
    let u = unit(vec![ValueType::IntSeq], ValueType::Int, b"sum 1");
    assert!(toolchain::compile(&u).artifact.is_none());
}
