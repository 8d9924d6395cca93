//! Routine definitions and the delimited-section format of their body text.
//!
//! The body text of a routine holds up to two sections. A body that starts
//! with the line `[dependencies]` declares dependencies, one per line in the
//! form `name=version`, up to a line `[code]`; everything after that line is
//! the code section. A body without the leading `[dependencies]` line is all
//! code and declares nothing. A `[dependencies]` header without a later
//! `[code]` line, or a nonblank dependency line without `=` or with an empty
//! name, is a malformed definition.

use vstd::prelude::*;

use crate::bytes::{copy_range, find_byte, find_byte_exec};
use crate::values::ValueType;

verus! {

/// Line feed, the line separator of the definition text format.
pub const LINE_FEED: u8 = 10;

/// The byte `=`, separating a dependency name from its version.
pub const EQUALS_SIGN: u8 = 61;

/// The line `[dependencies]` with its line feed, as the bytes of the ASCII
/// text, which a body must start with to declare dependencies.
pub open spec fn dep_header_line() -> Seq<u8> {
    seq![91u8, 100, 101, 112, 101, 110, 100, 101, 110, 99, 105, 101, 115, 93, 10]
}

/// A line feed, the ASCII text `[code]`, and a line feed: the delimiter
/// that ends the dependency section and starts the code section.
pub open spec fn code_marker() -> Seq<u8> {
    seq![10u8, 91, 99, 111, 100, 101, 93, 10]
}

/// The bytes of [`dep_header_line`], for scanning.
pub fn dep_header_vec() -> (v: Vec<u8>)
    ensures
        v@ == dep_header_line(),
{
    let mut v: Vec<u8> = Vec::new();
    v.push(91);
    v.push(100);
    v.push(101);
    v.push(112);
    v.push(101);
    v.push(110);
    v.push(100);
    v.push(101);
    v.push(110);
    v.push(99);
    v.push(105);
    v.push(101);
    v.push(115);
    v.push(93);
    v.push(10);
    proof {
        assert(v@ =~= dep_header_line());
    }
    v
}

/// The bytes of [`code_marker`], for scanning.
pub fn code_marker_vec() -> (v: Vec<u8>)
    ensures
        v@ == code_marker(),
{
    let mut v: Vec<u8> = Vec::new();
    v.push(10);
    v.push(91);
    v.push(99);
    v.push(111);
    v.push(100);
    v.push(101);
    v.push(93);
    v.push(10);
    proof {
        assert(v@ =~= code_marker());
    }
    v
}

/// One declared dependency: an external library name and its version.
#[derive(PartialEq, Eq, Debug)]
pub struct Dependency {
    pub name: Vec<u8>,
    pub version: Vec<u8>,
}

/// The mathematical shape of a [`Dependency`].
#[verifier::ext_equal]
pub struct DependencyView {
    pub name: Seq<u8>,
    pub version: Seq<u8>,
}

impl View for Dependency {
    type V = DependencyView;

    open spec fn view(&self) -> DependencyView {
        DependencyView { name: self.name@, version: self.version@ }
    }
}

impl DeepView for Dependency {
    type V = DependencyView;

    open spec fn deep_view(&self) -> DependencyView {
        self.view()
    }
}

/// A routine definition as the host database supplies it on a definition
/// event: the declared signature with its strictness and purity flags, and
/// the raw body text. Immutable once read for a given build; a redefinition
/// under the same identifier is a distinct value.
#[derive(PartialEq, Eq, Debug)]
pub struct FunctionDefinition {
    /// Ordered parameter types of the declared signature.
    pub params: Vec<ValueType>,
    /// Declared result type.
    pub ret: ValueType,
    /// Strict routines yield null without being entered when any argument
    /// is null.
    pub strict: bool,
    /// Declared purity flag; part of the definition's identity.
    pub immutable: bool,
    /// The raw body text in the delimited-section format.
    pub source: Vec<u8>,
}

/// The mathematical shape of a [`FunctionDefinition`].
#[verifier::ext_equal]
pub struct FunctionDefinitionView {
    pub params: Seq<ValueType>,
    pub ret: ValueType,
    pub strict: bool,
    pub immutable: bool,
    pub source: Seq<u8>,
}

impl View for FunctionDefinition {
    type V = FunctionDefinitionView;

    open spec fn view(&self) -> FunctionDefinitionView {
        FunctionDefinitionView {
            params: self.params@,
            ret: self.ret,
            strict: self.strict,
            immutable: self.immutable,
            source: self.source@,
        }
    }
}

/// What one dependency line means: `None` for a malformed line, `Some(None)`
/// for a blank line, and `Some(Some(dep))` for `name=version` with a
/// nonempty name. The version is everything after the first `=` and may be
/// empty.
pub open spec fn parse_dep_line(line: Seq<u8>) -> Option<Option<DependencyView>> {
    if line.len() == 0 {
        Some(None)
    } else {
        let e = find_byte(line, EQUALS_SIGN, 0);
        if e == 0 || e >= line.len() {
            None
        } else {
            Some(
                Some(
                    DependencyView {
                        name: line.subrange(0, e as int),
                        version: line.subrange(e as int + 1, line.len() as int),
                    },
                ),
            )
        }
    }
}

/// The dependencies declared from position `i` of a dependency region to
/// its end, line by line, or `None` if some line is malformed.
pub open spec fn parse_deps_from(s: Seq<u8>, i: nat) -> Option<Seq<DependencyView>>
    decreases s.len() - i,
{
    if i >= s.len() {
        Some(Seq::empty())
    } else {
        let j0 = find_byte(s, LINE_FEED, i);
        let j = if j0 < i || j0 > s.len() {
            s.len()
        } else {
            j0
        };
        let line = parse_dep_line(s.subrange(i as int, j as int));
        if line is None {
            None
        } else if j >= s.len() {
            match line {
                Some(Some(dep)) => Some(seq![dep]),
                _ => Some(Seq::empty()),
            }
        } else {
            match (line, parse_deps_from(s, j + 1)) {
                (_, None) => None,
                (Some(Some(dep)), Some(rest)) => Some(seq![dep] + rest),
                (_, Some(rest)) => Some(rest),
            }
        }
    }
}

/// First position at or after `i` where the code-section delimiter starts,
/// or the length of `s` if it never occurs.
pub open spec fn find_code_marker(s: Seq<u8>, i: nat) -> nat
    decreases s.len() - i,
{
    if i + code_marker().len() > s.len() {
        s.len()
    } else if s.subrange(i as int, i as int + code_marker().len()) == code_marker() {
        i
    } else {
        find_code_marker(s, i + 1)
    }
}

/// Whether the body declares dependencies: it starts with the
/// `[dependencies]` line.
pub open spec fn has_dep_header(src: Seq<u8>) -> bool {
    src.len() >= dep_header_line().len() && src.subrange(0, dep_header_line().len() as int)
        == dep_header_line()
}

/// The two sections of a routine body: the declared dependencies and the
/// code text. `None` when the body is malformed: a `[dependencies]` header
/// without a later `[code]` delimiter line, or a bad dependency line.
pub open spec fn split_sections(src: Seq<u8>) -> Option<(Seq<DependencyView>, Seq<u8>)> {
    if !has_dep_header(src) {
        Some((Seq::empty(), src))
    } else {
        let m = find_code_marker(src, (dep_header_line().len() - 1) as nat);
        if m >= src.len() {
            None
        } else {
            let region = if m > dep_header_line().len() {
                src.subrange(dep_header_line().len() as int, m as int)
            } else {
                Seq::empty()
            };
            match parse_deps_from(region, 0) {
                None => None,
                Some(deps) => Some(
                    (deps, src.subrange(m as int + code_marker().len(), src.len() as int)),
                ),
            }
        }
    }
}

/// Parses a dependency region, line by line.
fn parse_deps(region: &Vec<u8>) -> (r: Option<Vec<Dependency>>)
    ensures
        match (r, parse_deps_from(region@, 0)) {
            (Some(v), Some(dv)) => v.deep_view() == dv,
            (None, None) => true,
            _ => false,
        },
{
    let mut out: Vec<Dependency> = Vec::new();
    let mut i: usize = 0;
    loop
        invariant
            i <= region@.len(),
            match parse_deps_from(region@, i as nat) {
                Some(rest) => parse_deps_from(region@, 0) == Some(out.deep_view() + rest),
                None => parse_deps_from(region@, 0) is None,
            },
        decreases region@.len() - i,
    {
        if i >= region.len() {
            proof {
                assert(parse_deps_from(region@, i as nat) == Some(Seq::<DependencyView>::empty()));
                assert(out.deep_view() + Seq::<DependencyView>::empty() =~= out.deep_view());
            }
            return Some(out);
        }
        let j = find_byte_exec(region, LINE_FEED, i);
        // Parse the line `region[i .. j]`.
        if j == i {
            // Blank line.
            proof {
                assert(region@.subrange(i as int, i as int) =~= Seq::<u8>::empty());
            }
            i = j + 1;
            continue;
        }
        let e = find_byte_exec(region, EQUALS_SIGN, i);
        proof {
            crate::bytes::lemma_find_byte(region@, LINE_FEED, i as nat);
            crate::bytes::lemma_find_byte(region@, EQUALS_SIGN, i as nat);
            lemma_find_byte_subrange(region@, EQUALS_SIGN, i as nat, j as nat);
        }
        if e >= j {
            // Nonblank line without `=`: malformed.
            proof {
                assert(parse_deps_from(region@, i as nat) is None);
            }
            return None;
        }
        if e == i {
            // Empty dependency name: malformed.
            proof {
                assert(parse_deps_from(region@, i as nat) is None);
            }
            return None;
        }
        let name = copy_range(region, i, e);
        let version = copy_range(region, e + 1, j);
        let dep = Dependency { name, version };
        proof {
            let line = region@.subrange(i as int, j as int);
            assert(line.subrange(0, (e - i) as int) =~= region@.subrange(i as int, e as int));
            assert(line.subrange((e - i) as int + 1, line.len() as int) =~= region@.subrange(
                e as int + 1,
                j as int,
            ));
        }
        let ghost prev = out.deep_view();
        out.push(dep);
        proof {
            assert(out.deep_view() =~= prev.push(dep@));
        }
        if j >= region.len() {
            proof {
                let rest = Seq::<DependencyView>::empty();
                assert(parse_deps_from(region@, i as nat) == Some(seq![dep@]));
                assert(prev + seq![dep@] =~= out.deep_view());
                assert(out.deep_view() + rest =~= out.deep_view());
            }
            return Some(out);
        }
        proof {
            match parse_deps_from(region@, (j + 1) as nat) {
                Some(rest) => {
                    assert(parse_deps_from(region@, i as nat) == Some(seq![dep@] + rest));
                    assert(prev + (seq![dep@] + rest) =~= out.deep_view() + rest);
                },
                None => {},
            }
        }
        i = j + 1;
    }
}

/// Finds the first position at or after `start` where the code-section
/// delimiter starts.
fn find_code_marker_exec(src: &Vec<u8>, start: usize) -> (r: usize)
    requires
        start <= src@.len(),
    ensures
        r == find_code_marker(src@, start as nat),
        start <= r <= src@.len(),
        r < src@.len() ==> r + code_marker().len() <= src@.len(),
{
    let marker = code_marker_vec();
    let mut j: usize = start;
    loop
        invariant
            start <= j <= src@.len(),
            marker@ == code_marker(),
            find_code_marker(src@, start as nat) == find_code_marker(src@, j as nat),
        decreases src@.len() - j,
    {
        if src.len() - j < marker.len() {
            return src.len();
        }
        if crate::bytes::match_at(src, j, &marker) {
            return j;
        }
        j = j + 1;
    }
}

/// Splits a routine body into its declared dependencies and its code text,
/// or reports a malformed body.
pub fn split_sections_exec(src: &Vec<u8>) -> (r: Option<(Vec<Dependency>, Vec<u8>)>)
    ensures
        match (r, split_sections(src@)) {
            (Some(p), Some(q)) => p.0.deep_view() == q.0 && p.1@ == q.1,
            (None, None) => true,
            _ => false,
        },
{
    let header = dep_header_vec();
    if !crate::bytes::starts_with(src, &header) {
        let code = copy_range(src, 0, src.len());
        proof {
            assert(code@ =~= src@);
        }
        return Some((Vec::new(), code));
    }
    let m = find_code_marker_exec(src, header.len() - 1);
    if m >= src.len() {
        return None;
    }
    let region = if m > header.len() {
        copy_range(src, header.len(), m)
    } else {
        Vec::new()
    };
    proof {
        if m > dep_header_line().len() {
            assert(region@ == src@.subrange(dep_header_line().len() as int, m as int));
        } else {
            assert(region@ =~= Seq::<u8>::empty());
        }
    }
    match parse_deps(&region) {
        None => None,
        Some(deps) => {
            let code = copy_range(src, m + 8, src.len());
            Some((deps, code))
        },
    }
}

/// Restricting the search for a byte to a line that ends where the byte
/// search would stop anyway gives the same relative position.
proof fn lemma_find_byte_subrange(s: Seq<u8>, b: u8, i: nat, j: nat)
    requires
        i <= j <= s.len(),
        forall|k: int| i <= k < j ==> s[k] != LINE_FEED,
        j < s.len() ==> s[j as int] == LINE_FEED,
        b != LINE_FEED,
    ensures
        find_byte(s.subrange(i as int, j as int), b, 0) == if find_byte(s, b, i) <= j {
            (find_byte(s, b, i) - i) as nat
        } else {
            (j - i) as nat
        },
{
    lemma_find_byte_subrange_rec(s, b, i, j, i);
}

proof fn lemma_find_byte_subrange_rec(s: Seq<u8>, b: u8, i: nat, j: nat, p: nat)
    requires
        i <= p <= j <= s.len(),
        forall|k: int| i <= k < j ==> s[k] != LINE_FEED,
        j < s.len() ==> s[j as int] == LINE_FEED,
        b != LINE_FEED,
    ensures
        find_byte(s.subrange(i as int, j as int), b, (p - i) as nat) == if find_byte(s, b, p) <= j {
            (find_byte(s, b, p) - i) as nat
        } else {
            (j - i) as nat
        },
    decreases j - p,
{
    let line = s.subrange(i as int, j as int);
    if p == j {
        if p < s.len() {
            // `s[j]` is a line feed, not `b`, so the outer search goes past `j`.
            crate::bytes::lemma_find_byte(s, b, p);
            if find_byte(s, b, p) == p {
                assert(false);
            }
        } else {
            crate::bytes::lemma_find_byte(s, b, p);
        }
    } else {
        if s[p as int] == b {
            assert(line[(p - i) as int] == s[p as int]);
        } else {
            assert(line[(p - i) as int] == s[p as int]);
            lemma_find_byte_subrange_rec(s, b, i, j, p + 1);
        }
    }
}

} // verus!
