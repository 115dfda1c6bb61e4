use preamble::cli::{parse_args, parse_command, Cli, Command};

fn parse(args: &[&str]) -> Result<Option<Cli>, String> {
    let owned: Vec<String> = args.iter().map(|a| a.to_string()).collect();
    parse_args(&owned)
}

#[test]
fn no_args_leaves_path_unset() {
    let cli = parse(&[]).unwrap().unwrap();
    assert!(cli.path.is_none());
}

#[test]
fn path_flag_accepts_both_forms() {
    for args in [vec!["--path", "/music"], vec!["-p", "/music"], vec!["--path=/music"]] {
        let cli = parse(&args).unwrap().unwrap();
        assert_eq!(cli.path, Some("/music".to_string()), "{args:?}");
    }
}

#[test]
fn help_and_version_stop_before_startup() {
    for flag in ["-h", "--help", "-v", "--version"] {
        assert!(parse(&[flag]).unwrap().is_none(), "{flag}");
    }
}

#[test]
fn path_without_value_is_an_error() {
    assert!(parse(&["--path"]).is_err());
    assert!(parse(&["--path="]).is_err());
}

#[test]
fn bare_path_is_rejected_with_a_hint() {
    let err = parse(&["/music"]).unwrap_err();
    assert!(err.contains("--path /music"), "{err}");
}

#[test]
fn unknown_option_is_an_error() {
    assert!(parse(&["--nope"]).is_err());
}

#[test]
fn last_path_wins_and_messages_are_exact() {
    let cli = parse(&["--path", "/a", "-p", "/b"]).unwrap().unwrap();
    assert_eq!(cli.path, Some("/b".to_string()));
    assert_eq!(parse(&["-p"]).unwrap_err(), "'-p' requires a directory argument");
    assert_eq!(parse(&["--path="]).unwrap_err(), "'--path' requires a directory argument");
    assert_eq!(parse(&["--nope"]).unwrap_err(), "unknown option '--nope'");
    assert_eq!(
        parse(&["/music"]).unwrap_err(),
        "unexpected argument '/music'; pass a library with '--path /music'"
    );
}

#[test]
fn help_stops_before_a_later_error() {
    assert!(parse(&["--help", "--nope"]).unwrap().is_none());
    let owned: Vec<String> = vec!["-v".to_string()];
    assert!(matches!(parse_command(&owned), Ok(Command::Version)));
    let owned: Vec<String> = vec!["-h".to_string()];
    assert!(matches!(parse_command(&owned), Ok(Command::Help)));
}

#[test]
fn repeated_path_prefix_is_stripped_like_trim_start_matches() {
    let cli = parse(&["--path=--path=/m"]).unwrap().unwrap();
    assert_eq!(cli.path, Some("/m".to_string()));
    assert!(parse(&["--path=--path="]).is_err());
}
