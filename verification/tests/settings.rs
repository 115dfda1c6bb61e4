use preamble::config::{default_formats, normalize_format, parse_env_line, Config};

#[test]
fn defaults_list_the_audio_extensions() {
    assert_eq!(
        default_formats(),
        vec!["flac", "mp3", "m4a", "mp4", "ogg", "opus", "aiff", "wav", "wv", "ape", "mpc", "aac"]
    );
    let c = Config::default();
    assert_eq!(c.formats, default_formats());
    assert!(!c.has_acoustid_key());
}

#[test]
fn extensions_are_normalised() {
    assert_eq!(normalize_format(" .FLAC "), "flac");
    assert_eq!(normalize_format("..Mp3"), "mp3");
    assert_eq!(normalize_format("   "), "");
}

#[test]
fn loading_normalises_and_resolves_the_key() {
    let mut c = Config::default();
    c.formats = vec![" .FLAC".to_string(), "".to_string(), ".".to_string(), "Ogg".to_string()];
    c.scan_concurrency = 0;
    c.acoustid_api_key = Some("from-config".to_string());
    c.finish_load(Some("from-env".to_string()));
    assert_eq!(c.formats, vec!["flac", "ogg"]);
    assert_eq!(c.scan_concurrency, 1);
    assert_eq!(c.resolved_acoustid_key, Some("from-env".to_string()));
    assert!(c.has_acoustid_key());

    let mut c = Config::default();
    c.formats = vec!["  ".to_string()];
    c.acoustid_api_key = Some("from-config".to_string());
    c.finish_load(Some("   ".to_string()));
    assert_eq!(c.formats, default_formats());
    assert_eq!(c.resolved_acoustid_key, Some("from-config".to_string()));

    let mut c = Config::default();
    c.acoustid_api_key = Some(" ".to_string());
    c.finish_load(None);
    assert!(!c.has_acoustid_key());
}

#[test]
fn env_lines_are_key_value_pairs() {
    assert_eq!(parse_env_line("ACOUSTID_API_KEY=abc"), Some(("ACOUSTID_API_KEY".to_string(), "abc".to_string())));
    assert_eq!(parse_env_line("  KEY = \"quoted value\"  "), Some(("KEY".to_string(), "quoted value".to_string())));
    assert_eq!(parse_env_line("KEY='x'"), Some(("KEY".to_string(), "x".to_string())));
    assert_eq!(parse_env_line("KEY=a=b"), Some(("KEY".to_string(), "a=b".to_string())));
    assert_eq!(parse_env_line("KEY="), Some(("KEY".to_string(), "".to_string())));
    assert_eq!(parse_env_line("# comment"), None);
    assert_eq!(parse_env_line(""), None);
    assert_eq!(parse_env_line("no equals sign"), None);
    assert_eq!(parse_env_line(" = value"), None);
}
