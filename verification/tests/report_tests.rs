use minigrep::report::{
    exit_code, format_match, render_matches, search_outcome, usize_to_string, ReportError,
    RunOutcome,
};
use minigrep::search::Match;

#[test]
fn exit_codes_by_outcome() {
    assert_eq!(exit_code(&RunOutcome::MatchesFound), 0);
    assert_eq!(exit_code(&RunOutcome::NoMatches), 1);
    assert_eq!(exit_code(&RunOutcome::BadConfig), 2);
    assert_eq!(exit_code(&RunOutcome::LoadFailed), 3);
    assert_eq!(exit_code(&RunOutcome::ReportFailed), 4);
}

#[test]
fn outcome_distinguishes_found_from_none() {
    assert_eq!(search_outcome(3), RunOutcome::MatchesFound);
    assert_eq!(search_outcome(0), RunOutcome::NoMatches);
}

#[test]
fn decimal_rendering() {
    assert_eq!(usize_to_string(0), "0");
    assert_eq!(usize_to_string(7), "7");
    assert_eq!(usize_to_string(10), "10");
    assert_eq!(usize_to_string(907), "907");
    assert_eq!(usize_to_string(120034), "120034");
}

#[test]
fn match_lines_carry_number_colon_space_text() {
    let m = Match {
        line_number: 12,
        text: String::from("needle in line twelve"),
    };
    assert_eq!(format_match(&m), "12: needle in line twelve");
}

#[test]
fn rendering_keeps_order() {
    let matches = vec![
        Match {
            line_number: 1,
            text: String::from("first"),
        },
        Match {
            line_number: 3,
            text: String::from("third"),
        },
    ];
    let lines = render_matches(&matches);
    assert_eq!(lines, vec![String::from("1: first"), String::from("3: third")]);
}

#[test]
fn report_error_message() {
    assert_eq!(ReportError::SinkClosed.message(), "output sink closed");
}
