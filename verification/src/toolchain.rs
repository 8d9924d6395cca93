//! The build side: what an external build attempt yields, the warning scan
//! over captured diagnostics, and a bundled reference toolchain for the
//! engine's own entry convention.
//!
//! Building is external work: `resolve` stops at `NeedsBuild` and the
//! caller runs a toolchain on the unit and hands the outcome back. The
//! bundled toolchain here compiles the code section of a unit — one entry
//! expression in a small fixed grammar — into an artifact, so resolutions
//! can be driven end to end without leaving the process.

use vstd::prelude::*;

use crate::artifact::{Artifact, EntryExpr, ARTIFACT_MAGIC, ENTRY_SYMBOL};
use crate::bytes::{bytes_eq, contains_seq, contains_seq_exec, copy_range, starts_with};
use crate::materialize::{BuildUnit, BuildUnitView};
use crate::values::ValueType;

verus! {

/// What one build attempt produced: the artifact on success, nothing on
/// failure, and the full captured diagnostics either way, verbatim, never
/// swallowed. Warnings inside the diagnostics of a successful build are
/// surfaced to the caller, not treated as failure.
#[derive(PartialEq, Eq, Debug)]
pub struct BuildOutcome {
    /// Whether the toolchain exited cleanly.
    pub exit_ok: bool,
    /// The artifact the toolchain produced, if any.
    pub artifact: Option<Artifact>,
    /// The combined captured toolchain output.
    pub diagnostics: Vec<u8>,
}

/// The mathematical shape of a [`BuildOutcome`].
#[verifier::ext_equal]
pub struct BuildOutcomeView {
    pub exit_ok: bool,
    pub artifact: Option<Artifact>,
    pub diagnostics: Seq<u8>,
}

impl View for BuildOutcome {
    type V = BuildOutcomeView;

    open spec fn view(&self) -> BuildOutcomeView {
        BuildOutcomeView {
            exit_ok: self.exit_ok,
            artifact: self.artifact,
            diagnostics: self.diagnostics@,
        }
    }
}

/// Whether an outcome counts as a failed build: a toolchain that exited
/// uncleanly, or one that exited cleanly without producing an artifact.
pub open spec fn build_failed(outcome: BuildOutcomeView) -> bool {
    !outcome.exit_ok || outcome.artifact is None
}

/// The ASCII text `warning: `, whose occurrence anywhere in captured
/// diagnostics marks them as carrying compiler warnings.
pub open spec fn warning_pattern() -> Seq<u8> {
    seq![119u8, 97, 114, 110, 105, 110, 103, 58, 32]
}

/// Whether captured build diagnostics carry a compiler warning.
pub open spec fn has_warnings(diag: Seq<u8>) -> bool {
    contains_seq(diag, warning_pattern())
}

/// The bytes of [`warning_pattern`], for scanning.
fn warning_pattern_vec() -> (v: Vec<u8>)
    ensures
        v@ == warning_pattern(),
{
    let mut v: Vec<u8> = Vec::new();
    v.push(119);
    v.push(97);
    v.push(114);
    v.push(110);
    v.push(105);
    v.push(110);
    v.push(103);
    v.push(58);
    v.push(32);
    proof {
        assert(v@ =~= warning_pattern());
    }
    v
}

/// Scans captured diagnostics for a compiler warning.
pub fn has_warnings_exec(diag: &Vec<u8>) -> (r: bool)
    ensures
        r == has_warnings(diag@),
{
    let pat = warning_pattern_vec();
    contains_seq_exec(diag, &pat)
}

/// Whether a byte is blank space for the entry grammar.
pub open spec fn is_space(b: u8) -> bool {
    b == 32 || b == 9 || b == 10 || b == 13
}

/// First position at or after `i` holding a non-space byte, or the length.
pub open spec fn first_non_space(s: Seq<u8>, i: nat) -> nat
    decreases s.len() - i,
{
    if i >= s.len() {
        s.len()
    } else if is_space(s[i as int]) {
        first_non_space(s, i + 1)
    } else {
        i
    }
}

/// Position one past the last non-space byte strictly before `j`, or zero.
pub open spec fn end_non_space(s: Seq<u8>, j: nat) -> nat
    decreases j,
{
    if j == 0 {
        0
    } else if j > s.len() {
        end_non_space(s, s.len())
    } else if is_space(s[j - 1]) {
        end_non_space(s, (j - 1) as nat)
    } else {
        j
    }
}

/// The body with leading and trailing blank space removed.
pub open spec fn trimmed(s: Seq<u8>) -> Seq<u8> {
    let a = first_non_space(s, 0);
    let b = end_non_space(s, s.len());
    if a <= b {
        s.subrange(a as int, b as int)
    } else {
        Seq::empty()
    }
}

/// Removes leading and trailing blank space.
fn trim(s: &Vec<u8>) -> (out: Vec<u8>)
    ensures
        out@ == trimmed(s@),
{
    let mut a: usize = 0;
    while a < s.len() && (s[a] == 32 || s[a] == 9 || s[a] == 10 || s[a] == 13)
        invariant
            a <= s@.len(),
            first_non_space(s@, 0) == first_non_space(s@, a as nat),
        decreases s@.len() - a,
    {
        a = a + 1;
    }
    let mut b: usize = s.len();
    while b > 0 && (s[b - 1] == 32 || s[b - 1] == 9 || s[b - 1] == 10 || s[b - 1] == 13)
        invariant
            b <= s@.len(),
            end_non_space(s@, s@.len()) == end_non_space(s@, b as nat),
        decreases b,
    {
        b = b - 1;
    }
    if a <= b {
        copy_range(s, a, b)
    } else {
        let out: Vec<u8> = Vec::new();
        proof {
            assert(out@ =~= trimmed(s@));
        }
        out
    }
}

/// Whether a byte is an ASCII decimal digit.
pub open spec fn is_digit(b: u8) -> bool {
    48 <= b <= 57
}

/// Whether every byte of `s` is a decimal digit.
pub open spec fn all_digits(s: Seq<u8>) -> bool {
    forall|k: int| 0 <= k < s.len() ==> is_digit(#[trigger] s[k])
}

/// The decimal value of a digit string.
pub open spec fn dec_val(s: Seq<u8>) -> int
    decreases s.len(),
{
    if s.len() == 0 {
        0
    } else {
        dec_val(s.drop_last()) * 10 + (s.last() - 48)
    }
}

/// Ten to the `n`th.
pub open spec fn pow10(n: nat) -> int
    decreases n,
{
    if n == 0 {
        1
    } else {
        pow10((n - 1) as nat) * 10
    }
}

/// A digit string's value is nonnegative and below ten to its length.
pub proof fn lemma_dec_val_bound(s: Seq<u8>)
    requires
        all_digits(s),
    ensures
        0 <= dec_val(s) < pow10(s.len()),
    decreases s.len(),
{
    if s.len() > 0 {
        assert(all_digits(s.drop_last())) by {
            assert(forall|k: int| 0 <= k < s.len() - 1 ==> s.drop_last()[k] == s[k]);
        }
        lemma_dec_val_bound(s.drop_last());
    }
}

/// An argument position: one to three digits valued below 256.
pub open spec fn parse_index(s: Seq<u8>) -> Option<u8> {
    if 1 <= s.len() <= 3 && all_digits(s) {
        if dec_val(s) <= 255 {
            Some(dec_val(s) as u8)
        } else {
            None
        }
    } else {
        None
    }
}

/// An integer literal: an optional leading minus and one to eighteen
/// digits, which always fits the 64-bit signed range.
pub open spec fn parse_int_lit(s: Seq<u8>) -> Option<i64> {
    if s.len() >= 1 && s[0] == 45 {
        let mag = s.subrange(1, s.len() as int);
        if 1 <= mag.len() <= 18 && all_digits(mag) {
            Some((0 - dec_val(mag)) as i64)
        } else {
            None
        }
    } else if 1 <= s.len() <= 18 && all_digits(s) {
        Some(dec_val(s) as i64)
    } else {
        None
    }
}

/// The ASCII text `null`.
pub open spec fn kw_null() -> Seq<u8> {
    seq![110u8, 117, 108, 108]
}

/// The ASCII text `trap`.
pub open spec fn kw_trap() -> Seq<u8> {
    seq![116u8, 114, 97, 112]
}

/// The ASCII text `arg ` with its trailing space.
pub open spec fn kw_arg() -> Seq<u8> {
    seq![97u8, 114, 103, 32]
}

/// The ASCII text `sum ` with its trailing space.
pub open spec fn kw_sum() -> Seq<u8> {
    seq![115u8, 117, 109, 32]
}

/// The ASCII text `product ` with its trailing space.
pub open spec fn kw_product() -> Seq<u8> {
    seq![112u8, 114, 111, 100, 117, 99, 116, 32]
}

/// The entry expression a trimmed code section denotes: `null`, `trap`,
/// `arg N`, `sum N`, `product N`, or an integer literal.
pub open spec fn parse_body(t: Seq<u8>) -> Option<EntryExpr> {
    if t == kw_null() {
        Some(EntryExpr::ConstNull)
    } else if t == kw_trap() {
        Some(EntryExpr::Trap)
    } else if t.len() > 4 && t.subrange(0, 4) == kw_arg() {
        match parse_index(t.subrange(4, t.len() as int)) {
            Some(i) => Some(EntryExpr::Arg(i)),
            None => None,
        }
    } else if t.len() > 4 && t.subrange(0, 4) == kw_sum() {
        match parse_index(t.subrange(4, t.len() as int)) {
            Some(i) => Some(EntryExpr::FoldSum(i)),
            None => None,
        }
    } else if t.len() > 8 && t.subrange(0, 8) == kw_product() {
        match parse_index(t.subrange(8, t.len() as int)) {
            Some(i) => Some(EntryExpr::FoldProduct(i)),
            None => None,
        }
    } else {
        match parse_int_lit(t) {
            Some(n) => Some(EntryExpr::ConstInt(n)),
            None => None,
        }
    }
}

/// Whether an entry expression fits the declared signature it was wrapped
/// behind.
pub open spec fn entry_well_typed(e: EntryExpr, params: Seq<ValueType>, ret: ValueType) -> bool {
    match e {
        EntryExpr::ConstNull => true,
        EntryExpr::ConstInt(_) => ret == ValueType::Int,
        EntryExpr::Arg(i) => (i as int) < params.len() && params[i as int] == ret,
        EntryExpr::FoldSum(i) => (i as int) < params.len() && params[i as int]
            == ValueType::IntSeq && ret == ValueType::Int,
        EntryExpr::FoldProduct(i) => (i as int) < params.len() && params[i as int]
            == ValueType::IntSeq && ret == ValueType::Int,
        EntryExpr::Trap => true,
    }
}

/// What the bundled toolchain produces for a unit: an artifact under the
/// unit's convention tag exactly when the trimmed code section parses and
/// fits the declared signature.
pub open spec fn compile_artifact(u: BuildUnitView) -> Option<Artifact> {
    match parse_body(trimmed(u.code)) {
        None => None,
        Some(e) => if entry_well_typed(e, u.params, u.ret) {
            Some(
                Artifact {
                    magic: ARTIFACT_MAGIC,
                    abi_tag: u.abi_tag,
                    entry_symbol: ENTRY_SYMBOL,
                    arity: u.params.len() as usize,
                    entry: e,
                },
            )
        } else {
            None
        },
    }
}

/// Checks that every byte of `s` is a digit.
fn all_digits_exec(s: &Vec<u8>) -> (r: bool)
    ensures
        r == all_digits(s@),
{
    let mut k: usize = 0;
    while k < s.len()
        invariant
            k <= s@.len(),
            forall|t: int| 0 <= t < k ==> is_digit(#[trigger] s@[t]),
        decreases s@.len() - k,
    {
        if s[k] < 48 || s[k] > 57 {
            return false;
        }
        k = k + 1;
    }
    true
}

/// Computes the decimal value of a digit string of at most eighteen
/// digits.
fn dec_val_exec(s: &Vec<u8>) -> (r: u64)
    requires
        all_digits(s@),
        1 <= s@.len() <= 18,
    ensures
        r == dec_val(s@),
{
    proof {
        reveal_with_fuel(pow10, 19);
    }
    let mut acc: u64 = 0;
    let mut k: usize = 0;
    while k < s.len()
        invariant
            k <= s@.len() <= 18,
            all_digits(s@),
            acc == dec_val(s@.take(k as int)),
            acc < pow10(k as nat),
            pow10(18) == 1000000000000000000,
        decreases s@.len() - k,
    {
        proof {
            assert(all_digits(s@.take(k + 1 as int)));
            assert(s@.take(k + 1 as int).drop_last() =~= s@.take(k as int));
            assert(s@.take(k + 1 as int).last() == s@[k as int]);
            lemma_pow10_mono(k as nat, 17);
        }
        acc = acc * 10 + ((s[k] - 48) as u64);
        k = k + 1;
    }
    proof {
        assert(s@.take(k as int) =~= s@);
    }
    acc
}

/// Ten to a smaller power is at most ten to a larger one.
proof fn lemma_pow10_mono(a: nat, b: nat)
    requires
        a <= b,
    ensures
        pow10(a) <= pow10(b),
        pow10(a) >= 1,
    decreases b,
{
    if a < b {
        lemma_pow10_mono(a, (b - 1) as nat);
    } else if b > 0 {
        lemma_pow10_mono((a - 1) as nat, (b - 1) as nat);
    }
}

/// Parses an argument position.
fn parse_index_exec(s: &Vec<u8>) -> (r: Option<u8>)
    ensures
        r == parse_index(s@),
{
    if s.len() < 1 || s.len() > 3 {
        return None;
    }
    if !all_digits_exec(s) {
        return None;
    }
    proof {
        lemma_dec_val_bound(s@);
        reveal_with_fuel(pow10, 4);
    }
    let v = dec_val_exec(s);
    if v <= 255 {
        Some(v as u8)
    } else {
        None
    }
}

/// Parses an integer literal.
fn parse_int_exec(s: &Vec<u8>) -> (r: Option<i64>)
    ensures
        r == parse_int_lit(s@),
{
    proof {
        reveal_with_fuel(pow10, 19);
    }
    if s.len() >= 1 && s[0] == 45 {
        let mag = copy_range(s, 1, s.len());
        if mag.len() < 1 || mag.len() > 18 {
            return None;
        }
        if !all_digits_exec(&mag) {
            return None;
        }
        proof {
            lemma_dec_val_bound(mag@);
        }
        let v = dec_val_exec(&mag);
        Some(0 - (v as i64))
    } else {
        if s.len() < 1 || s.len() > 18 {
            return None;
        }
        if !all_digits_exec(s) {
            return None;
        }
        proof {
            lemma_dec_val_bound(s@);
        }
        let v = dec_val_exec(s);
        Some(v as i64)
    }
}

/// The bytes of [`kw_null`].
fn kw_null_vec() -> (v: Vec<u8>)
    ensures
        v@ == kw_null(),
{
    let mut v: Vec<u8> = Vec::new();
    v.push(110);
    v.push(117);
    v.push(108);
    v.push(108);
    proof {
        assert(v@ =~= kw_null());
    }
    v
}

/// The bytes of [`kw_trap`].
fn kw_trap_vec() -> (v: Vec<u8>)
    ensures
        v@ == kw_trap(),
{
    let mut v: Vec<u8> = Vec::new();
    v.push(116);
    v.push(114);
    v.push(97);
    v.push(112);
    proof {
        assert(v@ =~= kw_trap());
    }
    v
}

/// The bytes of [`kw_arg`].
fn kw_arg_vec() -> (v: Vec<u8>)
    ensures
        v@ == kw_arg(),
{
    let mut v: Vec<u8> = Vec::new();
    v.push(97);
    v.push(114);
    v.push(103);
    v.push(32);
    proof {
        assert(v@ =~= kw_arg());
    }
    v
}

/// The bytes of [`kw_sum`].
fn kw_sum_vec() -> (v: Vec<u8>)
    ensures
        v@ == kw_sum(),
{
    let mut v: Vec<u8> = Vec::new();
    v.push(115);
    v.push(117);
    v.push(109);
    v.push(32);
    proof {
        assert(v@ =~= kw_sum());
    }
    v
}

/// The bytes of [`kw_product`].
fn kw_product_vec() -> (v: Vec<u8>)
    ensures
        v@ == kw_product(),
{
    let mut v: Vec<u8> = Vec::new();
    v.push(112);
    v.push(114);
    v.push(111);
    v.push(100);
    v.push(117);
    v.push(99);
    v.push(116);
    v.push(32);
    proof {
        assert(v@ =~= kw_product());
    }
    v
}

/// Parses a trimmed code section into an entry expression.
fn parse_body_exec(t: &Vec<u8>) -> (r: Option<EntryExpr>)
    ensures
        r == parse_body(t@),
{
    let null_kw = kw_null_vec();
    if bytes_eq(t, &null_kw) {
        return Some(EntryExpr::ConstNull);
    }
    let trap_kw = kw_trap_vec();
    if bytes_eq(t, &trap_kw) {
        return Some(EntryExpr::Trap);
    }
    let arg_kw = kw_arg_vec();
    if t.len() > 4 && starts_with(t, &arg_kw) {
        let suffix = copy_range(t, 4, t.len());
        return match parse_index_exec(&suffix) {
            Some(i) => Some(EntryExpr::Arg(i)),
            None => None,
        };
    }
    let sum_kw = kw_sum_vec();
    if t.len() > 4 && starts_with(t, &sum_kw) {
        let suffix = copy_range(t, 4, t.len());
        return match parse_index_exec(&suffix) {
            Some(i) => Some(EntryExpr::FoldSum(i)),
            None => None,
        };
    }
    let product_kw = kw_product_vec();
    if t.len() > 8 && starts_with(t, &product_kw) {
        let suffix = copy_range(t, 8, t.len());
        return match parse_index_exec(&suffix) {
            Some(i) => Some(EntryExpr::FoldProduct(i)),
            None => None,
        };
    }
    match parse_int_exec(t) {
        Some(n) => Some(EntryExpr::ConstInt(n)),
        None => None,
    }
}

/// Checks an entry expression against the declared signature.
fn entry_well_typed_exec(e: EntryExpr, params: &Vec<ValueType>, ret: ValueType) -> (r: bool)
    ensures
        r == entry_well_typed(e, params@, ret),
{
    match e {
        EntryExpr::ConstNull => true,
        EntryExpr::ConstInt(_) => ret == ValueType::Int,
        EntryExpr::Arg(i) => (i as usize) < params.len() && params[i as usize] == ret,
        EntryExpr::FoldSum(i) => (i as usize) < params.len() && params[i as usize]
            == ValueType::IntSeq && ret == ValueType::Int,
        EntryExpr::FoldProduct(i) => (i as usize) < params.len() && params[i as usize]
            == ValueType::IntSeq && ret == ValueType::Int,
        EntryExpr::Trap => true,
    }
}

/// The note emitted beside a successful build whose unit declares
/// dependencies, which the entry grammar cannot reference: the ASCII text
/// `warning: declared dependencies are unused`.
fn warning_note() -> (v: Vec<u8>)
    ensures
        has_warnings(v@),
        v@.len() > 0,
{
    let mut v = warning_pattern_vec();
    v.push(100);
    v.push(101);
    v.push(99);
    v.push(108);
    v.push(97);
    v.push(114);
    v.push(101);
    v.push(100);
    v.push(32);
    v.push(100);
    v.push(101);
    v.push(112);
    v.push(101);
    v.push(110);
    v.push(100);
    v.push(101);
    v.push(110);
    v.push(99);
    v.push(105);
    v.push(101);
    v.push(115);
    v.push(32);
    v.push(97);
    v.push(114);
    v.push(101);
    v.push(32);
    v.push(117);
    v.push(110);
    v.push(117);
    v.push(115);
    v.push(101);
    v.push(100);
    proof {
        assert(v@.subrange(0, 0 + warning_pattern().len() as int) =~= warning_pattern());
    }
    v
}

/// The ASCII text `bad form`: the unit's code section does not parse as an
/// entry expression.
fn parse_error_note() -> (v: Vec<u8>)
    ensures
        v@.len() > 0,
        !has_warnings(v@),
{
    let mut v: Vec<u8> = Vec::new();
    v.push(98);
    v.push(97);
    v.push(100);
    v.push(32);
    v.push(102);
    v.push(111);
    v.push(114);
    v.push(109);
    v
}

/// The ASCII text `bad type`: the entry expression does not fit the
/// declared signature.
fn type_error_note() -> (v: Vec<u8>)
    ensures
        v@.len() > 0,
        !has_warnings(v@),
{
    let mut v: Vec<u8> = Vec::new();
    v.push(98);
    v.push(97);
    v.push(100);
    v.push(32);
    v.push(116);
    v.push(121);
    v.push(112);
    v.push(101);
    v
}

/// Runs the bundled toolchain on a build unit. Success produces the
/// artifact [`compile_artifact`] describes; failure produces no artifact
/// and nonempty diagnostics; a successful build of a unit that declares
/// dependencies carries a warning in its diagnostics, and one without
/// declarations carries none.
pub fn compile(unit: &BuildUnit) -> (r: BuildOutcome)
    ensures
        r@.artifact == compile_artifact(unit@),
        r@.exit_ok == r@.artifact is Some,
        r@.artifact is None ==> r@.diagnostics.len() > 0,
        r@.artifact is Some ==> (has_warnings(r@.diagnostics) <==> unit@.manifest.len() > 0),
{
    let t = trim(&unit.code);
    match parse_body_exec(&t) {
        None => BuildOutcome { exit_ok: false, artifact: None, diagnostics: parse_error_note() },
        Some(e) => {
            if entry_well_typed_exec(e, &unit.params, unit.ret) {
                let art = Artifact {
                    magic: ARTIFACT_MAGIC,
                    abi_tag: unit.abi_tag,
                    entry_symbol: ENTRY_SYMBOL,
                    arity: unit.params.len(),
                    entry: e,
                };
                let diagnostics = if unit.manifest.len() > 0 {
                    warning_note()
                } else {
                    let empty: Vec<u8> = Vec::new();
                    proof {
                        assert(!has_warnings(empty@));
                    }
                    empty
                };
                BuildOutcome { exit_ok: true, artifact: Some(art), diagnostics }
            } else {
                BuildOutcome { exit_ok: false, artifact: None, diagnostics: type_error_note() }
            }
        },
    }
}

} // verus!
