use preamble::reader::{
    check_duplicate, classify_health, hash_contents, is_new_audio, needs_rescan, scanned_status,
    FileObservation, HealthIssue, TextSet,
};

fn set(items: &[&str]) -> TextSet {
    let mut s = TextSet::new();
    for i in items {
        s.insert(i);
    }
    s
}

fn healthy() -> FileObservation {
    FileObservation { exists: true, size: Some(10), decodes: true, current_hash: Some("aa".to_string()) }
}

#[test]
fn duplicates_are_found_by_isrc_or_hash() {
    let existing_isrcs = set(&["US1"]);
    let existing_hashes = set(&["h1"]);
    let mut seen_i = TextSet::new();
    let mut seen_h = TextSet::new();
    let dup = check_duplicate(&Some("US1".to_string()), &None, &existing_isrcs, &existing_hashes, &mut seen_i, &mut seen_h);
    assert!(dup);
    assert!(seen_i.contains("US1"));
    let dup = check_duplicate(&Some("US2".to_string()), &Some("h2".to_string()), &existing_isrcs, &existing_hashes, &mut seen_i, &mut seen_h);
    assert!(!dup);
    assert!(seen_i.contains("US2") && seen_h.contains("h2"));
    let dup = check_duplicate(&None, &Some("h2".to_string()), &existing_isrcs, &existing_hashes, &mut seen_i, &mut seen_h);
    assert!(dup);
    let dup = check_duplicate(&None, &None, &existing_isrcs, &existing_hashes, &mut seen_i, &mut seen_h);
    assert!(!dup);
    // A file that is a duplicate by hash still records its ISRC, so a later
    // file with that ISRC and a new hash is caught within the batch.
    let dup = check_duplicate(&Some("US9".to_string()), &Some("h1".to_string()), &existing_isrcs, &existing_hashes, &mut seen_i, &mut seen_h);
    assert!(dup);
    let dup = check_duplicate(&Some("US9".to_string()), &Some("h9".to_string()), &existing_isrcs, &existing_hashes, &mut seen_i, &mut seen_h);
    assert!(dup);
    assert_eq!(scanned_status(true), "duplicate");
    assert_eq!(scanned_status(false), "pending");
}

#[test]
fn new_audio_files_match_a_format_and_are_not_stored() {
    let existing = set(&["/m/a.flac"]);
    let formats = set(&["flac", "mp3"]);
    assert!(is_new_audio(Some("FLAC"), Some("/m/b.FLAC"), &existing, &formats));
    assert!(!is_new_audio(Some("flac"), Some("/m/a.flac"), &existing, &formats));
    assert!(!is_new_audio(Some("txt"), Some("/m/c.txt"), &existing, &formats));
    assert!(!is_new_audio(None, Some("/m/noext"), &existing, &formats));
}

#[test]
fn rescan_only_changed_files() {
    assert!(needs_rescan(Some(101), 100));
    assert!(!needs_rescan(Some(100), 100));
    assert!(!needs_rescan(None, 100));
}

#[test]
fn blake3_hex_of_known_inputs() {
    assert_eq!(hash_contents(b""), "af1349b9f5f9a1a6a0404dea36dcc9499bcb25c9adc112b7cc9a93cae41f3262");
    let h = hash_contents(b"abc");
    assert_eq!(h.len(), 64);
    assert_ne!(h, hash_contents(b""));
    assert_eq!(h, "6437b3ac38465133ffb63b75273a8db548c558465d79db03fd359c6cd5bd9d85");
}

#[test]
fn health_issues_in_order() {
    let mut o = healthy();
    assert_eq!(classify_health(&o, &Some("aa".to_string()), Some(320), 128), None);
    assert_eq!(classify_health(&o, &Some("bb".to_string()), Some(320), 128), Some(HealthIssue::HashMismatch));
    assert_eq!(classify_health(&o, &None, Some(96), 128), Some(HealthIssue::LowBitrate));
    assert_eq!(classify_health(&o, &None, Some(0), 128), None);
    o.decodes = false;
    assert_eq!(classify_health(&o, &Some("bb".to_string()), Some(96), 128), Some(HealthIssue::DecodeError));
    o.size = Some(0);
    assert_eq!(classify_health(&o, &None, None, 128), Some(HealthIssue::ZeroByte));
    o.size = None;
    assert_eq!(classify_health(&o, &None, None, 128), Some(HealthIssue::MissingFile));
    o.exists = false;
    assert_eq!(classify_health(&o, &None, None, 128), Some(HealthIssue::MissingFile));
    assert_eq!(HealthIssue::LowBitrate.label(), "low_bitrate");
    assert_eq!(HealthIssue::MissingFile.label(), "missing_file");
}
