//! Content fingerprints of routine definitions.
//!
//! A fingerprint is a deterministic digest of everything that decides what
//! a build produces: the declared signature with its flags, the declared
//! dependencies, the code text, and the toolchain identity. Identical
//! definitions under an identical environment always digest alike; the
//! digest addresses the artifact cache and is never used as the function
//! table key.

use vstd::prelude::*;

use crate::definition::{Dependency, DependencyView, FunctionDefinition, FunctionDefinitionView};
use crate::values::ValueType;

verus! {

/// Offset basis of the 64-bit digest.
pub const DIGEST_OFFSET: u64 = 0xcbf29ce484222325;

/// Multiplier of the 64-bit digest.
pub const DIGEST_PRIME: u64 = 0x100000001b3;

/// Separator folded in after a dependency name.
pub const DEP_NAME_SEP: u8 = 0xFF;

/// Separator folded in after a dependency version.
pub const DEP_VERSION_SEP: u8 = 0xFE;

/// Separator folded in between the dependency part and the code part.
pub const SECTION_SEP: u8 = 0xFD;

/// One digest step: fold one byte into the running state.
pub open spec fn digest_step(h: u64, b: u8) -> u64 {
    (h ^ (b as u64)).wrapping_mul(DIGEST_PRIME)
}

/// The digest state after folding in every byte of `s`, left to right.
pub open spec fn digest_bytes(h: u64, s: Seq<u8>) -> u64
    decreases s.len(),
{
    if s.len() == 0 {
        h
    } else {
        digest_step(digest_bytes(h, s.drop_last()), s.last())
    }
}

/// Folds every byte of `s` into the running state.
pub fn digest_bytes_exec(h: u64, s: &Vec<u8>) -> (r: u64)
    ensures
        r == digest_bytes(h, s@),
{
    let mut acc: u64 = h;
    let mut i: usize = 0;
    while i < s.len()
        invariant
            i <= s@.len(),
            acc == digest_bytes(h, s@.take(i as int)),
        decreases s@.len() - i,
    {
        proof {
            assert(s@.take(i + 1 as int).drop_last() =~= s@.take(i as int));
            assert(s@.take(i + 1 as int).last() == s@[i as int]);
        }
        acc = (acc ^ (s[i] as u64)).wrapping_mul(DIGEST_PRIME);
        i = i + 1;
    }
    proof {
        assert(s@.take(i as int) =~= s@);
    }
    acc
}

/// Folds a 64-bit word into the running state, low byte first.
pub open spec fn digest_word(h: u64, v: u64) -> u64 {
    let h0 = digest_step(h, (v % 256) as u8);
    let v0 = v / 256;
    let h1 = digest_step(h0, (v0 % 256) as u8);
    let v1 = v0 / 256;
    let h2 = digest_step(h1, (v1 % 256) as u8);
    let v2 = v1 / 256;
    let h3 = digest_step(h2, (v2 % 256) as u8);
    let v3 = v2 / 256;
    let h4 = digest_step(h3, (v3 % 256) as u8);
    let v4 = v3 / 256;
    let h5 = digest_step(h4, (v4 % 256) as u8);
    let v5 = v4 / 256;
    let h6 = digest_step(h5, (v5 % 256) as u8);
    let v6 = v5 / 256;
    digest_step(h6, (v6 % 256) as u8)
}

/// Folds a 64-bit word into the running state, low byte first.
pub fn digest_word_exec(h: u64, v: u64) -> (r: u64)
    ensures
        r == digest_word(h, v),
{
    let h0 = (h ^ (((v % 256) as u8) as u64)).wrapping_mul(DIGEST_PRIME);
    let v0 = v / 256;
    let h1 = (h0 ^ (((v0 % 256) as u8) as u64)).wrapping_mul(DIGEST_PRIME);
    let v1 = v0 / 256;
    let h2 = (h1 ^ (((v1 % 256) as u8) as u64)).wrapping_mul(DIGEST_PRIME);
    let v2 = v1 / 256;
    let h3 = (h2 ^ (((v2 % 256) as u8) as u64)).wrapping_mul(DIGEST_PRIME);
    let v3 = v2 / 256;
    let h4 = (h3 ^ (((v3 % 256) as u8) as u64)).wrapping_mul(DIGEST_PRIME);
    let v4 = v3 / 256;
    let h5 = (h4 ^ (((v4 % 256) as u8) as u64)).wrapping_mul(DIGEST_PRIME);
    let v5 = v4 / 256;
    let h6 = (h5 ^ (((v5 % 256) as u8) as u64)).wrapping_mul(DIGEST_PRIME);
    let v6 = v5 / 256;
    (h6 ^ (((v6 % 256) as u8) as u64)).wrapping_mul(DIGEST_PRIME)
}

/// The byte that stands for a declared type in the digest.
pub open spec fn type_tag(t: ValueType) -> u8 {
    match t {
        ValueType::Int => 1,
        ValueType::IntSeq => 2,
    }
}

/// The byte that stands for a flag in the digest.
pub open spec fn flag_byte(b: bool) -> u8 {
    if b {
        1
    } else {
        0
    }
}

/// The digest state after folding in the tags of every declared type.
pub open spec fn digest_types(h: u64, ts: Seq<ValueType>) -> u64
    decreases ts.len(),
{
    if ts.len() == 0 {
        h
    } else {
        digest_step(digest_types(h, ts.drop_last()), type_tag(ts.last()))
    }
}

/// The digest state after folding in one dependency with its separators.
pub open spec fn digest_dep(h: u64, d: DependencyView) -> u64 {
    digest_step(digest_bytes(digest_step(digest_bytes(h, d.name), DEP_NAME_SEP), d.version), DEP_VERSION_SEP)
}

/// The digest state after folding in every dependency, left to right.
pub open spec fn digest_deps(h: u64, ds: Seq<DependencyView>) -> u64
    decreases ds.len(),
{
    if ds.len() == 0 {
        h
    } else {
        digest_dep(digest_deps(h, ds.drop_last()), ds.last())
    }
}

/// The fingerprint of a definition under a toolchain identity: signature,
/// flags, dependencies, code and environment, folded in that order.
pub open spec fn fingerprint_of(
    defv: FunctionDefinitionView,
    deps: Seq<DependencyView>,
    code: Seq<u8>,
    toolchain_id: u64,
) -> u64 {
    let h0 = digest_types(DIGEST_OFFSET, defv.params);
    let h1 = digest_step(h0, type_tag(defv.ret));
    let h2 = digest_step(h1, flag_byte(defv.strict));
    let h3 = digest_step(h2, flag_byte(defv.immutable));
    let h4 = digest_deps(h3, deps);
    let h5 = digest_step(h4, SECTION_SEP);
    let h6 = digest_bytes(h5, code);
    digest_word(h6, toolchain_id)
}

/// The byte that stands for a declared type in the digest.
fn type_tag_exec(t: ValueType) -> (r: u8)
    ensures
        r == type_tag(t),
{
    match t {
        ValueType::Int => 1,
        ValueType::IntSeq => 2,
    }
}

/// Folds one dependency into the running state.
fn digest_dep_exec(h: u64, d: &Dependency) -> (r: u64)
    ensures
        r == digest_dep(h, d@),
{
    let h1 = digest_bytes_exec(h, &d.name);
    let h2 = (h1 ^ (DEP_NAME_SEP as u64)).wrapping_mul(DIGEST_PRIME);
    let h3 = digest_bytes_exec(h2, &d.version);
    (h3 ^ (DEP_VERSION_SEP as u64)).wrapping_mul(DIGEST_PRIME)
}

/// Computes the fingerprint of a definition whose sections have been
/// split into `deps` and `code`, under the given toolchain identity.
pub fn fingerprint_exec(
    def: &FunctionDefinition,
    deps: &Vec<Dependency>,
    code: &Vec<u8>,
    toolchain_id: u64,
) -> (r: u64)
    ensures
        r == fingerprint_of(def@, deps.deep_view(), code@, toolchain_id),
{
    let mut acc: u64 = DIGEST_OFFSET;
    let mut i: usize = 0;
    while i < def.params.len()
        invariant
            i <= def.params@.len(),
            acc == digest_types(DIGEST_OFFSET, def.params@.take(i as int)),
        decreases def.params@.len() - i,
    {
        proof {
            assert(def.params@.take(i + 1 as int).drop_last() =~= def.params@.take(i as int));
            assert(def.params@.take(i + 1 as int).last() == def.params@[i as int]);
        }
        let tag = type_tag_exec(def.params[i]);
        acc = (acc ^ (tag as u64)).wrapping_mul(DIGEST_PRIME);
        i = i + 1;
    }
    proof {
        assert(def.params@.take(i as int) =~= def.params@);
    }
    let rt = type_tag_exec(def.ret);
    acc = (acc ^ (rt as u64)).wrapping_mul(DIGEST_PRIME);
    let sb: u8 = if def.strict {
        1
    } else {
        0
    };
    acc = (acc ^ (sb as u64)).wrapping_mul(DIGEST_PRIME);
    let ib: u8 = if def.immutable {
        1
    } else {
        0
    };
    acc = (acc ^ (ib as u64)).wrapping_mul(DIGEST_PRIME);
    let ghost h3 = acc;
    let mut k: usize = 0;
    while k < deps.len()
        invariant
            k <= deps.deep_view().len(),
            deps.deep_view().len() == deps@.len(),
            acc == digest_deps(h3, deps.deep_view().take(k as int)),
        decreases deps@.len() - k,
    {
        proof {
            assert(deps.deep_view().take(k + 1 as int).drop_last() =~= deps.deep_view().take(
                k as int,
            ));
            assert(deps.deep_view().take(k + 1 as int).last() == deps[k as int].deep_view());
        }
        acc = digest_dep_exec(acc, &deps[k]);
        k = k + 1;
    }
    proof {
        assert(deps.deep_view().take(k as int) =~= deps.deep_view());
    }
    acc = (acc ^ (SECTION_SEP as u64)).wrapping_mul(DIGEST_PRIME);
    acc = digest_bytes_exec(acc, code);
    digest_word_exec(acc, toolchain_id)
}

} // verus!
