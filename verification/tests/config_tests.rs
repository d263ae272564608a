use minigrep::config::{resolve, ConfigError, Source};

#[test]
fn missing_query_is_reported() {
    let args: Vec<String> = vec![];
    match resolve(&args) {
        Err(ConfigError::MissingArgument(name)) => assert_eq!(name, "query"),
        _ => panic!("expected a missing-argument failure"),
    }
}

#[test]
fn missing_path_is_reported() {
    let args = vec![String::from("needle")];
    match resolve(&args) {
        Err(ConfigError::MissingArgument(name)) => assert_eq!(name, "path"),
        _ => panic!("expected a missing-argument failure"),
    }
}

#[test]
fn unknown_flag_is_reported_by_name() {
    let args = vec![
        String::from("needle"),
        String::from("hay.txt"),
        String::from("--frobnicate"),
    ];
    match resolve(&args) {
        Err(ConfigError::UnknownFlag(flag)) => assert_eq!(flag, "--frobnicate"),
        _ => panic!("expected an unknown-flag failure"),
    }
}

#[test]
fn unknown_flag_wins_over_missing_arguments() {
    let args = vec![String::from("--frobnicate")];
    assert!(matches!(
        resolve(&args),
        Err(ConfigError::UnknownFlag(_))
    ));
}

#[test]
fn flag_may_stand_anywhere() {
    let args = vec![
        String::from("--ignore-case"),
        String::from("needle"),
        String::from("hay.txt"),
    ];
    let cfg = resolve(&args).ok().expect("arguments should resolve");
    assert!(!cfg.case_sensitive);
    assert_eq!(cfg.query, "needle");
    assert!(matches!(cfg.source, Source::FilePath(ref p) if p == "hay.txt"));
}

#[test]
fn dash_selects_standard_input() {
    let args = vec![String::from("needle"), String::from("-")];
    let cfg = resolve(&args).ok().expect("arguments should resolve");
    assert!(cfg.case_sensitive);
    assert!(matches!(cfg.source, Source::Stdin));
}

#[test]
fn error_messages_name_the_offender() {
    let args = vec![String::from("needle")];
    match resolve(&args) {
        Err(e) => assert_eq!(e.message(), "missing argument: path"),
        Ok(_) => panic!("expected a failure"),
    }
    let args = vec![
        String::from("needle"),
        String::from("hay.txt"),
        String::from("--loud"),
    ];
    match resolve(&args) {
        Err(e) => assert_eq!(e.message(), "unknown flag: --loud"),
        Ok(_) => panic!("expected a failure"),
    }
}
