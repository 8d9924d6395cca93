//! Small verified helpers over byte vectors, shared by the text-handling
//! parts of the engine.

use vstd::prelude::*;

verus! {

/// First position at or after `i` holding the byte `b`, or the length of
/// `s` if no later position holds it.
pub open spec fn find_byte(s: Seq<u8>, b: u8, i: nat) -> nat
    decreases s.len() - i,
{
    if i >= s.len() {
        s.len()
    } else if s[i as int] == b {
        i
    } else {
        find_byte(s, b, i + 1)
    }
}

/// What [`find_byte`] answers: a position in range, holding `b` unless it
/// is the length, with no occurrence of `b` before it.
pub proof fn lemma_find_byte(s: Seq<u8>, b: u8, i: nat)
    requires
        i <= s.len(),
    ensures
        i <= find_byte(s, b, i) <= s.len(),
        find_byte(s, b, i) < s.len() ==> s[find_byte(s, b, i) as int] == b,
        forall|k: int| i <= k < find_byte(s, b, i) ==> s[k] != b,
    decreases s.len() - i,
{
    if i < s.len() && s[i as int] != b {
        lemma_find_byte(s, b, i + 1);
    }
}

/// Finds the first occurrence of `b` at or after `start`.
pub fn find_byte_exec(s: &Vec<u8>, b: u8, start: usize) -> (r: usize)
    requires
        start <= s@.len(),
    ensures
        r == find_byte(s@, b, start as nat),
        start <= r <= s@.len(),
        r < s@.len() ==> s@[r as int] == b,
{
    let mut i: usize = start;
    while i < s.len()
        invariant
            start <= i <= s@.len(),
            find_byte(s@, b, start as nat) == find_byte(s@, b, i as nat),
        decreases s@.len() - i,
    {
        if s[i] == b {
            return i;
        }
        i = i + 1;
    }
    i
}

/// Copies the byte range `[i, j)` out of `s`.
pub fn copy_range(s: &Vec<u8>, i: usize, j: usize) -> (out: Vec<u8>)
    requires
        i <= j <= s@.len(),
    ensures
        out@ == s@.subrange(i as int, j as int),
{
    let mut out: Vec<u8> = Vec::new();
    let mut k: usize = i;
    while k < j
        invariant
            i <= k <= j <= s@.len(),
            out@ == s@.subrange(i as int, k as int),
        decreases j - k,
    {
        out.push(s[k]);
        proof {
            assert(out@ =~= s@.subrange(i as int, k + 1 as int));
        }
        k = k + 1;
    }
    out
}

/// Whether `s` begins with `pat`.
pub fn starts_with(s: &Vec<u8>, pat: &Vec<u8>) -> (r: bool)
    ensures
        r == (s@.len() >= pat@.len() && s@.subrange(0, pat@.len() as int) == pat@),
{
    if s.len() < pat.len() {
        return false;
    }
    let mut k: usize = 0;
    while k < pat.len()
        invariant
            k <= pat@.len() <= s@.len(),
            forall|t: int| 0 <= t < k ==> s@[t] == pat@[t],
        decreases pat@.len() - k,
    {
        if s[k] != pat[k] {
            proof {
                assert(s@.subrange(0, pat@.len() as int)[k as int] == s@[k as int]);
            }
            return false;
        }
        k = k + 1;
    }
    proof {
        assert(s@.subrange(0, pat@.len() as int) =~= pat@);
    }
    true
}

/// Whether `s` holds `pat` starting at position `i`.
pub fn match_at(s: &Vec<u8>, i: usize, pat: &Vec<u8>) -> (r: bool)
    requires
        i + pat@.len() <= s@.len(),
    ensures
        r == (s@.subrange(i as int, i as int + pat@.len()) == pat@),
{
    let n = s.len();
    let mut k: usize = 0;
    while k < pat.len()
        invariant
            i + pat@.len() <= s@.len() <= usize::MAX,
            k <= pat@.len(),
            forall|t: int| 0 <= t < k ==> s@[i as int + t] == pat@[t],
        decreases pat@.len() - k,
    {
        if s[i + k] != pat[k] {
            proof {
                assert(s@.subrange(i as int, i as int + pat@.len())[k as int] == s@[
                    (i + k) as int
                ]);
            }
            return false;
        }
        k = k + 1;
    }
    proof {
        assert(s@.subrange(i as int, i as int + pat@.len()) =~= pat@);
    }
    true
}

/// Whether the two byte vectors hold the same bytes.
pub fn bytes_eq(a: &Vec<u8>, b: &Vec<u8>) -> (r: bool)
    ensures
        r == (a@ == b@),
{
    if a.len() != b.len() {
        return false;
    }
    let mut k: usize = 0;
    while k < a.len()
        invariant
            k <= a@.len(),
            a@.len() == b@.len(),
            forall|t: int| 0 <= t < k ==> a@[t] == b@[t],
        decreases a@.len() - k,
    {
        if a[k] != b[k] {
            return false;
        }
        k = k + 1;
    }
    proof {
        assert(a@ =~= b@);
    }
    true
}

/// Whether `pat` occurs as a contiguous run anywhere in `s`.
pub open spec fn contains_seq(s: Seq<u8>, pat: Seq<u8>) -> bool {
    exists|j: int|
        0 <= j && j + pat.len() <= s.len() && #[trigger] s.subrange(j, j + pat.len() as int)
            == pat
}

/// Scans `s` for a contiguous occurrence of `pat`.
pub fn contains_seq_exec(s: &Vec<u8>, pat: &Vec<u8>) -> (r: bool)
    ensures
        r == contains_seq(s@, pat@),
{
    if pat.len() > s.len() {
        proof {
            assert(!contains_seq(s@, pat@));
        }
        return false;
    }
    if pat.len() == 0 {
        proof {
            assert(s@.subrange(0, 0 + pat@.len() as int) =~= pat@);
        }
        return true;
    }
    let mut j: usize = 0;
    while j <= s.len() - pat.len()
        invariant
            1 <= pat@.len() <= s@.len(),
            j <= s@.len() - pat@.len() + 1,
            forall|t: int|
                0 <= t < j ==> #[trigger] s@.subrange(t, t + pat@.len() as int) != pat@,
        decreases s@.len() - j,
    {
        let mut k: usize = 0;
        let mut hit: bool = true;
        while k < pat.len()
            invariant
                j + pat@.len() <= s@.len() <= usize::MAX,
                k <= pat@.len(),
                hit ==> forall|t: int| 0 <= t < k ==> s@[j as int + t] == pat@[t],
                !hit ==> s@.subrange(j as int, j + pat@.len() as int) != pat@,
            decreases pat@.len() - k,
        {
            if s[j + k] != pat[k] {
                proof {
                    assert(s@.subrange(j as int, j as int + pat@.len())[k as int] == s@[
                        (j + k) as int
                    ]);
                }
                hit = false;
            }
            k = k + 1;
        }
        if hit {
            proof {
                assert(s@.subrange(j as int, j + pat@.len() as int) =~= pat@);
            }
            return true;
        }
        j = j + 1;
    }
    proof {
        assert forall|t: int| 0 <= t && t + pat@.len() <= s@.len() implies #[trigger] s@.subrange(
            t,
            t + pat@.len() as int,
        ) != pat@ by {
            assert(t < j);
        }
    }
    false
}

} // verus!
