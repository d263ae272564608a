//! Character-level text matching: case folding and verbatim substring
//! containment, the predicate at the heart of the search engine.

use vstd::prelude::*;

verus! {

/// Lower-case image of one character: the twenty-six upper-case ASCII letters
/// map to their lower-case forms, every other character stays itself.
pub open spec fn lower(c: char) -> char {
    if 65 <= c as u32 && c as u32 <= 90 {
        (((c as u32) + 32) as u32) as char
    } else {
        c
    }
}

/// A character under the active case mode: itself when the search is case
/// sensitive, its lower-case image otherwise.
pub open spec fn fold_case(c: char, case_sensitive: bool) -> char {
    if case_sensitive {
        c
    } else {
        lower(c)
    }
}

/// A whole character sequence under the active case mode.
pub open spec fn fold_seq(s: Seq<char>, case_sensitive: bool) -> Seq<char> {
    Seq::new(s.len(), |i: int| fold_case(s[i], case_sensitive))
}

/// `needle` stands verbatim in `hay` starting at position `i`.
pub open spec fn contains_at(hay: Seq<char>, needle: Seq<char>, i: int) -> bool {
    &&& 0 <= i
    &&& i + needle.len() <= hay.len()
    &&& hay.subrange(i, i + needle.len() as int) == needle
}

/// `needle` stands verbatim somewhere in `hay`.
pub open spec fn contains_seq(hay: Seq<char>, needle: Seq<char>) -> bool {
    exists|i: int| contains_at(hay, needle, i)
}

/// A line qualifies when, after case folding, it contains the folded query
/// as a contiguous substring.
pub open spec fn line_matches(line: Seq<char>, query: Seq<char>, case_sensitive: bool) -> bool {
    contains_seq(fold_seq(line, case_sensitive), fold_seq(query, case_sensitive))
}

/// An empty query is contained in every line, whatever the case mode.
pub proof fn lemma_empty_query_matches(line: Seq<char>, case_sensitive: bool)
    ensures
        line_matches(line, Seq::empty(), case_sensitive),
{
    let hay = fold_seq(line, case_sensitive);
    let needle = fold_seq(Seq::empty(), case_sensitive);
    assert(needle.len() == 0);
    assert(hay.subrange(0, 0) =~= needle);
    assert(contains_at(hay, needle, 0));
}

/// Lower-case image of one character.
pub fn lower_char(c: char) -> (r: char)
    ensures
        r == lower(c),
{
    let u = c as u32;
    if 65 <= u && u <= 90 {
        ((u + 32) as u8) as char
    } else {
        c
    }
}

/// One character under the active case mode.
pub fn fold_char(c: char, case_sensitive: bool) -> (r: char)
    ensures
        r == fold_case(c, case_sensitive),
{
    if case_sensitive {
        c
    } else {
        lower_char(c)
    }
}

/// True exactly when the two strings hold the same characters.
pub fn str_eq(a: &str, b: &str) -> (r: bool)
    ensures
        r == (a@ == b@),
{
    let na = a.unicode_len();
    let nb = b.unicode_len();
    if na != nb {
        return false;
    }
    let mut i: usize = 0;
    while i < na
        invariant
            i <= na,
            na as nat == a@.len(),
            na as nat == b@.len(),
            forall|k: int| 0 <= k < i ==> a@[k] == b@[k],
        decreases na - i,
    {
        if a.get_char(i) != b.get_char(i) {
            return false;
        }
        i = i + 1;
    }
    proof {
        assert(a@ =~= b@);
    }
    true
}

/// True exactly when the folded line holds the folded query at position `i`.
fn matches_at(line: &str, query: &str, case_sensitive: bool, i: usize) -> (r: bool)
    requires
        i + query@.len() <= line@.len(),
    ensures
        r == contains_at(
            fold_seq(line@, case_sensitive),
            fold_seq(query@, case_sensitive),
            i as int,
        ),
{
    let ghost hay = fold_seq(line@, case_sensitive);
    let ghost needle = fold_seq(query@, case_sensitive);
    let n = line.unicode_len();
    let m = query.unicode_len();
    let mut j: usize = 0;
    while j < m
        invariant
            j <= m,
            m as nat == query@.len(),
            n as nat == line@.len(),
            i + m <= n,
            hay == fold_seq(line@, case_sensitive),
            needle == fold_seq(query@, case_sensitive),
            forall|k: int| 0 <= k < j ==> hay[i + k] == needle[k],
        decreases m - j,
    {
        let lc = fold_char(line.get_char(i + j), case_sensitive);
        let qc = fold_char(query.get_char(j), case_sensitive);
        if lc != qc {
            proof {
                assert(hay[i + j as int] != needle[j as int]);
                assert(!contains_at(hay, needle, i as int)) by {
                    if hay.subrange(i as int, i + needle.len() as int) == needle {
                        assert(hay.subrange(i as int, i + needle.len() as int)[j as int]
                            == hay[i + j as int]);
                    }
                }
            }
            return false;
        }
        j = j + 1;
    }
    proof {
        assert(hay.subrange(i as int, i + needle.len() as int) =~= needle);
    }
    true
}

/// True exactly when `line` contains `query` under the case mode.
pub fn line_contains(line: &str, query: &str, case_sensitive: bool) -> (r: bool)
    ensures
        r == line_matches(line@, query@, case_sensitive),
{
    let ghost hay = fold_seq(line@, case_sensitive);
    let ghost needle = fold_seq(query@, case_sensitive);
    let n = line.unicode_len();
    let m = query.unicode_len();
    if m > n {
        proof {
            assert forall|k: int| !contains_at(hay, needle, k) by {
                if 0 <= k && k + needle.len() <= hay.len() {
                    assert(needle.len() <= hay.len());
                }
            }
        }
        return false;
    }
    let last = n - m;
    let mut i: usize = 0;
    while i < last
        invariant
            i <= last,
            last == n - m,
            m <= n,
            n as nat == line@.len(),
            m as nat == query@.len(),
            hay == fold_seq(line@, case_sensitive),
            needle == fold_seq(query@, case_sensitive),
            forall|k: int| 0 <= k < i ==> !contains_at(hay, needle, k),
        decreases last - i,
    {
        if matches_at(line, query, case_sensitive, i) {
            return true;
        }
        i = i + 1;
    }
    if matches_at(line, query, case_sensitive, last) {
        return true;
    }
    proof {
        assert forall|k: int| !contains_at(hay, needle, k) by {
            if 0 <= k < last {
            } else if k > last {
                assert(k + needle.len() > hay.len());
            }
        }
    }
    false
}

} // verus!
