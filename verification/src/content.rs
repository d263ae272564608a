//! Loaded text as an ordered sequence of lines, and the errors a loader can
//! surface. Splitting text into lines is pure and verified here; reading the
//! bytes from a file or a stream is the caller's business.

use vstd::prelude::*;

verus! {

/// Why text could not be loaded: the path does not exist, it may not be read,
/// or its bytes are not valid text.
pub enum LoadError {
    NotFound,
    PermissionDenied,
    InvalidEncoding,
}

impl LoadError {
    /// Human-readable description of the load failure.
    pub fn message(&self) -> (s: String)
        ensures
            (*self matches LoadError::NotFound ==> s@ == "file not found"@),
            (*self matches LoadError::PermissionDenied ==> s@ == "permission denied"@),
            (*self matches LoadError::InvalidEncoding ==> s@ == "invalid encoding"@),
    {
        match self {
            LoadError::NotFound => String::from_str("file not found"),
            LoadError::PermissionDenied => String::from_str("permission denied"),
            LoadError::InvalidEncoding => String::from_str("invalid encoding"),
        }
    }
}

/// Index of the first newline in `s`, or `s.len()` when there is none.
pub open spec fn find_newline(s: Seq<char>) -> nat
    decreases s.len(),
{
    if s.len() == 0 {
        0
    } else if s[0] == '\n' {
        0
    } else {
        1 + find_newline(s.drop_first())
    }
}

/// A line body with one trailing carriage return removed, so that text with
/// carriage-return-newline endings splits into the same lines as text with
/// bare newlines.
pub open spec fn strip_cr(line: Seq<char>) -> Seq<char> {
    if line.len() > 0 && line[line.len() - 1] == '\r' {
        line.drop_last()
    } else {
        line
    }
}

/// The lines of `s`: line bodies are separated by newlines, a carriage return
/// directly before a newline belongs to the terminator, and a final line
/// without a terminator is kept verbatim. Empty text has no lines.
pub open spec fn split_lines(s: Seq<char>) -> Seq<Seq<char>>
    decreases s.len(),
{
    if s.len() == 0 {
        Seq::empty()
    } else {
        let i = find_newline(s) as int;
        if i >= s.len() {
            seq![s]
        } else {
            seq![strip_cr(s.subrange(0, i))] + split_lines(s.subrange(i + 1, s.len() as int))
        }
    }
}

/// `find_newline` points at the first newline: nothing before it is a
/// newline, and it is one itself unless the text holds none.
pub proof fn lemma_find_newline(s: Seq<char>)
    ensures
        find_newline(s) <= s.len(),
        forall|k: int| 0 <= k < find_newline(s) ==> s[k] != '\n',
        find_newline(s) < s.len() ==> s[find_newline(s) as int] == '\n',
    decreases s.len(),
{
    if s.len() > 0 && s[0] != '\n' {
        lemma_find_newline(s.drop_first());
        assert forall|k: int| 0 <= k < find_newline(s) implies s[k] != '\n' by {
            if k > 0 {
                assert(s.drop_first()[k - 1] != '\n');
            }
        }
    }
}

/// When position `j` is the first newline of `s`, `find_newline` returns `j`.
proof fn lemma_find_newline_at(s: Seq<char>, j: int)
    requires
        0 <= j < s.len(),
        forall|k: int| 0 <= k < j ==> s[k] != '\n',
        s[j] == '\n',
    ensures
        find_newline(s) == j,
{
    lemma_find_newline(s);
    let i = find_newline(s) as int;
    if i < j {
        assert(s[i] == '\n');
        assert(false);
    }
    if i > j {
        assert(s[j] != '\n');
        assert(false);
    }
}

/// Appending one newline-terminated line body to text that is empty or ends
/// with a newline appends exactly one line, the body with its carriage
/// return stripped.
pub proof fn lemma_split_lines_append_line(prefix: Seq<char>, line: Seq<char>)
    requires
        prefix.len() == 0 || prefix[prefix.len() - 1] == '\n',
        forall|k: int| 0 <= k < line.len() ==> line[k] != '\n',
    ensures
        split_lines(prefix + line + seq!['\n']) == split_lines(prefix).push(strip_cr(line)),
    decreases prefix.len(),
{
    let s = prefix + line + seq!['\n'];
    if prefix.len() == 0 {
        assert forall|k: int| 0 <= k < line.len() implies s[k] != '\n' by {
            assert(s[k] == line[k]);
        }
        assert(s[line.len() as int] == '\n');
        lemma_find_newline_at(s, line.len() as int);
        let i = line.len() as int;
        assert(s.subrange(0, i) =~= line);
        assert(s.subrange(i + 1, s.len() as int) =~= Seq::<char>::empty());
        assert(split_lines(Seq::<char>::empty()) =~= Seq::<Seq<char>>::empty());
        assert(split_lines(s) =~= seq![strip_cr(line)]);
        assert(split_lines(prefix) =~= Seq::<Seq<char>>::empty());
        assert(split_lines(s) =~= split_lines(prefix).push(strip_cr(line)));
    } else {
        lemma_find_newline(prefix);
        let j = find_newline(prefix) as int;
        assert(j < prefix.len()) by {
            if j == prefix.len() {
                assert(prefix[prefix.len() - 1] != '\n');
            }
        }
        assert forall|k: int| 0 <= k < j implies s[k] != '\n' by {
            assert(s[k] == prefix[k]);
        }
        assert(s[j] == prefix[j]);
        lemma_find_newline_at(s, j);
        let prefix2 = prefix.subrange(j + 1, prefix.len() as int);
        assert(s.subrange(0, j) =~= prefix.subrange(0, j));
        assert(s.subrange(j + 1, s.len() as int) =~= prefix2 + line + seq!['\n']);
        if prefix2.len() > 0 {
            assert(prefix2[prefix2.len() - 1] == prefix[prefix.len() - 1]);
        }
        lemma_split_lines_append_line(prefix2, line);
        assert(split_lines(s) =~= split_lines(prefix).push(strip_cr(line)));
    }
}

/// Appending a final line body without a terminator to text that is empty or
/// ends with a newline appends exactly one line, kept verbatim.
pub proof fn lemma_split_lines_append_tail(prefix: Seq<char>, line: Seq<char>)
    requires
        prefix.len() == 0 || prefix[prefix.len() - 1] == '\n',
        line.len() > 0,
        forall|k: int| 0 <= k < line.len() ==> line[k] != '\n',
    ensures
        split_lines(prefix + line) == split_lines(prefix).push(line),
    decreases prefix.len(),
{
    let s = prefix + line;
    if prefix.len() == 0 {
        assert forall|k: int| 0 <= k < s.len() implies s[k] != '\n' by {
            assert(s[k] == line[k]);
        }
        lemma_find_newline(s);
        assert(find_newline(s) == s.len()) by {
            if find_newline(s) < s.len() {
                assert(s[find_newline(s) as int] == '\n');
            }
        }
        assert(s =~= line);
        assert(split_lines(s) =~= split_lines(prefix).push(line));
    } else {
        lemma_find_newline(prefix);
        let j = find_newline(prefix) as int;
        assert(j < prefix.len()) by {
            if j == prefix.len() {
                assert(prefix[prefix.len() - 1] != '\n');
            }
        }
        assert forall|k: int| 0 <= k < j implies s[k] != '\n' by {
            assert(s[k] == prefix[k]);
        }
        assert(s[j] == prefix[j]);
        lemma_find_newline_at(s, j);
        let prefix2 = prefix.subrange(j + 1, prefix.len() as int);
        assert(s.subrange(0, j) =~= prefix.subrange(0, j));
        assert(s.subrange(j + 1, s.len() as int) =~= prefix2 + line);
        if prefix2.len() > 0 {
            assert(prefix2[prefix2.len() - 1] == prefix[prefix.len() - 1]);
        }
        lemma_split_lines_append_tail(prefix2, line);
        assert(split_lines(s) =~= split_lines(prefix).push(line));
    }
}

/// The fully loaded text of a search source, as an ordered sequence of lines.
pub struct Content {
    lines: Vec<String>,
}

impl View for Content {
    type V = Seq<Seq<char>>;

    closed spec fn view(&self) -> Seq<Seq<char>> {
        self.lines.deep_view()
    }
}

impl Content {
    /// Splits `text` into its lines. Empty text gives zero lines; a final
    /// line without a newline is kept; a carriage return directly before a
    /// newline is stripped with it.
    pub fn from_text(text: &str) -> (c: Content)
        ensures
            c@ == split_lines(text@),
    {
        let n = text.unicode_len();
        let mut lines: Vec<String> = Vec::new();
        let mut start: usize = 0;
        let mut i: usize = 0;
        proof {
            assert(lines.deep_view() =~= split_lines(text@.subrange(0, 0)));
        }
        while i < n
            invariant
                start <= i <= n,
                n as nat == text@.len(),
                start == 0 || text@[start - 1] == '\n',
                forall|k: int| start <= k < i ==> text@[k] != '\n',
                lines.deep_view() == split_lines(text@.subrange(0, start as int)),
            decreases n - i,
        {
            if text.get_char(i) == '\n' {
                let end = if i > start && text.get_char(i - 1) == '\r' {
                    i - 1
                } else {
                    i
                };
                let line = text.substring_char(start, end).to_owned();
                let ghost pre = lines.deep_view();
                lines.push(line);
                proof {
                    let body = text@.subrange(start as int, i as int);
                    assert(strip_cr(body) =~= text@.subrange(start as int, end as int));
                    lemma_split_lines_append_line(text@.subrange(0, start as int), body);
                    assert(text@.subrange(0, start as int) + body + seq!['\n'] =~= text@.subrange(
                        0,
                        i + 1,
                    ));
                    assert(lines.deep_view() =~= pre.push(line@));
                    assert(lines.deep_view() == split_lines(text@.subrange(0, i + 1)));
                }
                start = i + 1;
            }
            i = i + 1;
        }
        if start < n {
            let line = text.substring_char(start, n).to_owned();
            let ghost pre = lines.deep_view();
            lines.push(line);
            proof {
                let body = text@.subrange(start as int, n as int);
                lemma_split_lines_append_tail(text@.subrange(0, start as int), body);
                assert(text@.subrange(0, start as int) + body =~= text@.subrange(0, n as int));
                assert(lines.deep_view() =~= pre.push(line@));
            }
        }
        proof {
            assert(text@.subrange(0, n as int) =~= text@);
            if start == n {
                assert(text@.subrange(0, start as int) =~= text@);
            }
        }
        Content { lines }
    }

    /// Number of lines.
    pub fn line_count(&self) -> (n: usize)
        ensures
            n as nat == self@.len(),
    {
        self.lines.len()
    }

    /// The line at `index`, counting from zero.
    pub fn line(&self, index: usize) -> (l: &String)
        requires
            index < self@.len(),
        ensures
            l@ == self@[index as int],
    {
        &self.lines[index]
    }
}

} // verus!
