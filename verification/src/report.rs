//! Formatting the search result and fixing the process exit code. Writing
//! the formatted lines to a sink is the caller's business; a sink failure is
//! surfaced as [`ReportError`].

use vstd::prelude::*;
use crate::search::Match;

verus! {

/// Why reporting failed: the output sink closed before all matches were
/// written.
pub enum ReportError {
    SinkClosed,
}

impl ReportError {
    /// Human-readable description of the report failure.
    pub fn message(&self) -> (s: String)
        ensures
            (*self matches ReportError::SinkClosed ==> s@ == "output sink closed"@),
    {
        match self {
            ReportError::SinkClosed => String::from_str("output sink closed"),
        }
    }
}

/// How one whole run ended: both match outcomes are successful terminations,
/// the three failures are not.
#[derive(Clone, Copy, Debug, PartialEq, Eq, Structural)]
pub enum RunOutcome {
    MatchesFound,
    NoMatches,
    BadConfig,
    LoadFailed,
    ReportFailed,
}

/// Process exit code for an outcome: 0 when matches were found and printed,
/// 1 for a run with nothing to report, 2 for a configuration error, 3 for a
/// load error, 4 for a report error.
pub open spec fn exit_code_spec(outcome: RunOutcome) -> u8 {
    match outcome {
        RunOutcome::MatchesFound => 0,
        RunOutcome::NoMatches => 1,
        RunOutcome::BadConfig => 2,
        RunOutcome::LoadFailed => 3,
        RunOutcome::ReportFailed => 4,
    }
}

/// Returns the process exit code for the outcome.
pub fn exit_code(outcome: &RunOutcome) -> (code: u8)
    ensures
        code == exit_code_spec(*outcome),
{
    match outcome {
        RunOutcome::MatchesFound => 0,
        RunOutcome::NoMatches => 1,
        RunOutcome::BadConfig => 2,
        RunOutcome::LoadFailed => 3,
        RunOutcome::ReportFailed => 4,
    }
}

/// The outcome of a run that searched successfully: finding at least one
/// match and finding none are distinguished.
pub fn search_outcome(match_count: usize) -> (outcome: RunOutcome)
    ensures
        match_count > 0 ==> outcome == RunOutcome::MatchesFound,
        match_count == 0 ==> outcome == RunOutcome::NoMatches,
{
    if match_count > 0 {
        RunOutcome::MatchesFound
    } else {
        RunOutcome::NoMatches
    }
}

/// Decimal digit character for `d`, which must lie between 0 and 9.
pub open spec fn digit_char(d: int) -> char {
    if d == 0 {
        '0'
    } else if d == 1 {
        '1'
    } else if d == 2 {
        '2'
    } else if d == 3 {
        '3'
    } else if d == 4 {
        '4'
    } else if d == 5 {
        '5'
    } else if d == 6 {
        '6'
    } else if d == 7 {
        '7'
    } else if d == 8 {
        '8'
    } else {
        '9'
    }
}

/// Decimal representation of `n`, most significant digit first, without sign
/// or leading zeros; zero is the single digit `0`.
pub open spec fn dec_digits(n: int) -> Seq<char>
    decreases n,
{
    if n < 10 {
        seq![digit_char(n)]
    } else {
        dec_digits(n / 10).push(digit_char(n % 10))
    }
}

/// The decimal digit `d` as a one-character string.
fn digit_str(d: u8) -> (s: &'static str)
    requires
        d < 10,
    ensures
        s@ == seq![digit_char(d as int)],
{
    proof {
        reveal_strlit("0");
        reveal_strlit("1");
        reveal_strlit("2");
        reveal_strlit("3");
        reveal_strlit("4");
        reveal_strlit("5");
        reveal_strlit("6");
        reveal_strlit("7");
        reveal_strlit("8");
        reveal_strlit("9");
    }
    let s = match d {
        0 => "0",
        1 => "1",
        2 => "2",
        3 => "3",
        4 => "4",
        5 => "5",
        6 => "6",
        7 => "7",
        8 => "8",
        _ => "9",
    };
    proof {
        assert(s@ =~= seq![digit_char(d as int)]);
    }
    s
}

/// The decimal string for `n`.
pub fn usize_to_string(n: usize) -> (s: String)
    ensures
        s@ == dec_digits(n as int),
    decreases n,
{
    if n < 10 {
        digit_str(n as u8).to_owned()
    } else {
        let rest = usize_to_string(n / 10);
        let s = rest.concat(digit_str((n % 10) as u8));
        proof {
            assert(s@ =~= dec_digits(n as int));
        }
        s
    }
}

/// The report line for one match: the one-based line number in decimal, a
/// colon and a space, then the matched line verbatim.
pub open spec fn rendered_match(line_number: int, text: Seq<char>) -> Seq<char> {
    dec_digits(line_number) + seq![':', ' '] + text
}

/// Formats one match as its report line.
pub fn format_match(m: &Match) -> (s: String)
    ensures
        s@ == rendered_match(m.line_number as int, m.text@),
{
    let number = usize_to_string(m.line_number);
    proof {
        reveal_strlit(": ");
        assert(": "@ =~= seq![':', ' ']);
    }
    let s = number.concat(": ").concat(m.text.as_str());
    proof {
        assert(s@ =~= rendered_match(m.line_number as int, m.text@));
    }
    s
}

/// Formats every match, in the order received: entry `k` of the result is
/// the report line for entry `k` of the input.
pub fn render_matches(matches: &Vec<Match>) -> (lines: Vec<String>)
    ensures
        lines@.len() == matches@.len(),
        forall|k: int| #![auto]
            0 <= k < matches@.len() ==> lines@[k]@ == rendered_match(
                matches@[k].line_number as int,
                matches@[k].text@,
            ),
{
    let n = matches.len();
    let mut lines: Vec<String> = Vec::new();
    let mut i: usize = 0;
    while i < n
        invariant
            i <= n,
            n == matches@.len(),
            lines@.len() == i,
            forall|k: int| #![auto]
                0 <= k < i ==> lines@[k]@ == rendered_match(
                    matches@[k].line_number as int,
                    matches@[k].text@,
                ),
        decreases n - i,
    {
        let line = format_match(&matches[i]);
        lines.push(line);
        i = i + 1;
    }
    lines
}

} // verus!
