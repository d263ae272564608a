//! The search engine: scans the loaded lines in order and reports every line
//! that contains the query under the active case mode.

use vstd::prelude::*;
use crate::config::SearchConfig;
use crate::content::Content;
use crate::text::{line_contains, line_matches, lemma_empty_query_matches};

verus! {

/// One reported line: its one-based number and its text, verbatim.
pub struct Match {
    pub line_number: usize,
    pub text: String,
}

impl View for Match {
    type V = (int, Seq<char>);

    open spec fn view(&self) -> (int, Seq<char>) {
        (self.line_number as int, self.text@)
    }
}

impl DeepView for Match {
    type V = (int, Seq<char>);

    open spec fn deep_view(&self) -> (int, Seq<char>) {
        self.view()
    }
}

/// The matches among the first `n` lines, in scan order: one entry per
/// matching line, carrying the one-based line number and the line verbatim.
pub open spec fn search_prefix(
    lines: Seq<Seq<char>>,
    query: Seq<char>,
    case_sensitive: bool,
    n: int,
) -> Seq<(int, Seq<char>)>
    decreases n,
{
    if n <= 0 {
        Seq::empty()
    } else {
        let before = search_prefix(lines, query, case_sensitive, n - 1);
        if line_matches(lines[n - 1], query, case_sensitive) {
            before.push((n, lines[n - 1]))
        } else {
            before
        }
    }
}

/// The full search result over all lines.
pub open spec fn search_spec(
    lines: Seq<Seq<char>>,
    query: Seq<char>,
    case_sensitive: bool,
) -> Seq<(int, Seq<char>)> {
    search_prefix(lines, query, case_sensitive, lines.len() as int)
}

/// Scans the lines in order and returns every line containing the query
/// under the case mode, each with its one-based line number.
pub fn search(content: &Content, config: &SearchConfig) -> (matches: Vec<Match>)
    ensures
        matches.deep_view() == search_spec(content@, config.query@, config.case_sensitive),
{
    let ghost lines = content@;
    let ghost query = config.query@;
    let ghost cs = config.case_sensitive;
    let n = content.line_count();
    let mut matches: Vec<Match> = Vec::new();
    let mut i: usize = 0;
    proof {
        assert(matches.deep_view() =~= search_prefix(lines, query, cs, 0));
    }
    while i < n
        invariant
            i <= n,
            n as nat == lines.len(),
            lines == content@,
            query == config.query@,
            cs == config.case_sensitive,
            matches.deep_view() == search_prefix(lines, query, cs, i as int),
        decreases n - i,
    {
        let line = content.line(i);
        if line_contains(line.as_str(), config.query.as_str(), config.case_sensitive) {
            let ghost pre = matches.deep_view();
            let m = Match { line_number: i + 1, text: line.clone() };
            matches.push(m);
            proof {
                assert(matches.deep_view() =~= pre.push((i + 1 as int, lines[i as int])));
            }
        }
        i = i + 1;
    }
    matches
}

/// Soundness and completeness of the search result over a line prefix:
/// every entry points back, in ascending order, to a matching line it quotes
/// verbatim, and every matching line of the prefix is reported.
pub proof fn lemma_search_prefix_props(
    lines: Seq<Seq<char>>,
    query: Seq<char>,
    case_sensitive: bool,
    n: int,
)
    requires
        n <= lines.len(),
    ensures
        ({
            let found = search_prefix(lines, query, case_sensitive, n);
            &&& forall|k: int| #![auto] 0 <= k < found.len() ==> {
                &&& 1 <= found[k].0 <= n
                &&& found[k].1 == lines[found[k].0 - 1]
                &&& line_matches(found[k].1, query, case_sensitive)
            }
            &&& forall|k1: int, k2: int| 0 <= k1 < k2 < found.len() ==> found[k1].0 < found[k2].0
            &&& forall|i: int|
                0 <= i < n && line_matches(lines[i], query, case_sensitive) ==> exists|k: int|
                    #![auto]
                    0 <= k < found.len() && found[k] == (i + 1, lines[i])
        }),
    decreases n,
{
    if n > 0 {
        lemma_search_prefix_props(lines, query, case_sensitive, n - 1);
        let before = search_prefix(lines, query, case_sensitive, n - 1);
        let found = search_prefix(lines, query, case_sensitive, n);
        if line_matches(lines[n - 1], query, case_sensitive) {
            assert(found == before.push((n, lines[n - 1])));
            assert(found[found.len() - 1] == (n, lines[n - 1]));
            assert forall|i: int|
                0 <= i < n && line_matches(lines[i], query, case_sensitive) implies exists|k: int|
                #![auto]
                0 <= k < found.len() && found[k] == (i + 1, lines[i]) by {
                if i < n - 1 {
                    let k = choose|k: int|
                        0 <= k < before.len() && before[k] == (i + 1, lines[i]);
                    assert(found[k] == (i + 1, lines[i]));
                } else {
                    assert(found[found.len() - 1] == (i + 1, lines[i]));
                }
            }
        }
    }
}

/// When some line of the content contains the query under the case mode, the
/// search result is non-empty — and every reported text contains the query
/// under that same mode.
pub proof fn lemma_search_finds_match(
    lines: Seq<Seq<char>>,
    query: Seq<char>,
    case_sensitive: bool,
)
    requires
        exists|i: int| 0 <= i < lines.len() && line_matches(lines[i], query, case_sensitive),
    ensures
        search_spec(lines, query, case_sensitive).len() > 0,
        forall|k: int| #![auto]
            0 <= k < search_spec(lines, query, case_sensitive).len() ==> line_matches(
                search_spec(lines, query, case_sensitive)[k].1,
                query,
                case_sensitive,
            ),
{
    lemma_search_prefix_props(lines, query, case_sensitive, lines.len() as int);
    let i = choose|i: int| 0 <= i < lines.len() && line_matches(lines[i], query, case_sensitive);
    let found = search_spec(lines, query, case_sensitive);
    assert(exists|k: int| #![auto] 0 <= k < found.len() && found[k] == (i + 1, lines[i]));
}

/// With an empty query every line matches: the result holds one entry per
/// line of content, in order, entry `k` quoting line `k + 1` verbatim.
pub proof fn lemma_search_empty_query(lines: Seq<Seq<char>>, case_sensitive: bool)
    ensures
        search_spec(lines, Seq::empty(), case_sensitive).len() == lines.len(),
        forall|k: int| #![auto]
            0 <= k < lines.len() ==> search_spec(lines, Seq::empty(), case_sensitive)[k] == (
            k + 1,
            lines[k],
            ),
{
    lemma_search_empty_prefix(lines, case_sensitive, lines.len() as int);
}

proof fn lemma_search_empty_prefix(lines: Seq<Seq<char>>, case_sensitive: bool, n: int)
    requires
        n <= lines.len(),
    ensures
        search_prefix(lines, Seq::empty(), case_sensitive, n).len() == (if n <= 0 {
            0int
        } else {
            n
        }),
        forall|k: int| #![auto]
            0 <= k < n ==> search_prefix(lines, Seq::empty(), case_sensitive, n)[k] == (
            k + 1,
            lines[k],
            ),
    decreases n,
{
    if n > 0 {
        lemma_search_empty_prefix(lines, case_sensitive, n - 1);
        lemma_empty_query_matches(lines[n - 1], case_sensitive);
    }
}

/// Searching is deterministic: two results of the same content and
/// configuration are the same, entry for entry.
pub proof fn lemma_search_idempotent(
    first: Seq<(int, Seq<char>)>,
    second: Seq<(int, Seq<char>)>,
    lines: Seq<Seq<char>>,
    query: Seq<char>,
    case_sensitive: bool,
)
    requires
        first == search_spec(lines, query, case_sensitive),
        second == search_spec(lines, query, case_sensitive),
    ensures
        first == second,
{
}

} // verus!
