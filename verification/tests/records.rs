use preamble::api::{default_export_format, default_limit, export_format, limit_rows, parse_port, ExportFormat};
use preamble::enrich::{check_reply, fold_match, status_after, FingerprintMatch, LookupOutcome, MatchArtist, MatchRecording};
use preamble::export::{export_file_name, export_path, m3u_text, push_report_rows, DuplicateReportRow};
use preamble::track::{DuplicateGroupSummary, DuplicateKind, TrackSummary};
use preamble::undo::{flag_plan, keep_undo, quarantine_name, restore_plan, retry_plan, UndoAction};

fn row(id: i64, title: &str, status: &str) -> TrackSummary {
    TrackSummary {
        is_selected: false,
        id: Some(id),
        isrc: None,
        file_path: format!("/m/{title}.flac"),
        title: Some(title.to_string()),
        artist: Some("Art".to_string()),
        album: None,
        album_artist: None,
        genre: None,
        file_format: None,
        file_size: Some(-3),
        duration: Some(185_999),
        bitrate: Some(320),
        status: status.to_string(),
        file_hash: None,
        marked_for_deletion: false,
        health_issue: None,
    }
}

#[test]
fn flagging_is_undone_by_clearing_the_flags() {
    let plan = flag_plan(&vec![3, 4]);
    assert_eq!(plan.updates, vec![(3, true), (4, true)]);
    assert_eq!(plan.undo.mark_updates(), vec![(3, false), (4, false)]);
    assert!(matches!(plan.undo, UndoAction::SetMarked { value: false, .. }));
    let plan = restore_plan(&vec![7]);
    assert_eq!(plan.updates, vec![(7, false)]);
    assert_eq!(plan.undo.mark_updates(), vec![(7, true)]);
    assert_eq!(keep_undo(&vec![1, 2]).mark_updates(), vec![(1, false), (2, false)]);
}

#[test]
fn retry_records_the_previous_statuses() {
    let rows = vec![row(1, "a", "failed"), row(2, "b", "not_found"), row(3, "c", "failed")];
    let plan = retry_plan(&rows, &vec![3, 1]);
    assert_eq!(plan.updates, vec![(3, "pending".to_string()), (1, "pending".to_string())]);
    assert_eq!(plan.undo.status_updates(), vec![(1, "failed".to_string()), (3, "failed".to_string())]);
    assert!(plan.undo.mark_updates().is_empty());
}

#[test]
fn export_names_are_sanitised_and_stamped() {
    assert_eq!(export_file_name("My Tab!", "csv", 42), "preamble-mytab-42.csv");
    assert_eq!(export_file_name("Trash", "m3u", 0), "preamble-trash-0.m3u");
    let p = export_path("Library", "json");
    assert!(p.starts_with("preamble-library-") && p.ends_with(".json"));
}

#[test]
fn m3u_playlist_lines() {
    let text = m3u_text(&[row(1, "Song", "pending")]);
    assert_eq!(text, "#EXTM3U\n#EXTINF:185,Art - Song\n/m/Song.flac\n");
    assert_eq!(m3u_text(&[]), "#EXTM3U\n");
}

#[test]
fn duplicate_report_has_a_row_per_member() {
    let group = DuplicateGroupSummary {
        kind: DuplicateKind::Hash,
        key: "abc".to_string(),
        count: 2,
        title: None,
        artist: None,
        album: None,
    };
    let mut rows: Vec<DuplicateReportRow> = Vec::new();
    push_report_rows(&mut rows, &group, &vec![row(1, "x", "pending"), row(2, "y", "pending")]);
    assert_eq!(rows.len(), 2);
    assert_eq!(rows[0].group_kind, "hash");
    assert_eq!(rows[0].group_key, "abc");
    assert_eq!(rows[1].title, "y");
    assert_eq!(rows[1].album, "");
    assert_eq!(rows[1].bitrate, "320");
    assert_eq!(rows[1].size_bytes, "-3");
    assert_eq!(DuplicateKind::Isrc.label(), "isrc");
}

#[test]
fn best_match_is_folded_into_the_result() {
    let m = FingerprintMatch {
        id: "acid".to_string(),
        recordings: vec![MatchRecording {
            id: "rec".to_string(),
            title: Some("T".to_string()),
            artists: vec![
                MatchArtist { id: "a1".to_string(), name: "One".to_string() },
                MatchArtist { id: "a2".to_string(), name: "Two".to_string() },
            ],
            release_group_titles: vec![None, Some("Album".to_string())],
        }],
    };
    let r = fold_match(&m);
    assert_eq!(r.acoustid, Some("acid".to_string()));
    assert_eq!(r.mb_recording_id, Some("rec".to_string()));
    assert_eq!(r.artist, Some("One; Two".to_string()));
    assert_eq!(r.mb_artist_id, Some("a1".to_string()));
    assert_eq!(r.album, Some("Album".to_string()));
    assert_eq!(r.mb_release_group_id, None);
    let empty = fold_match(&FingerprintMatch { id: "x".to_string(), recordings: vec![] });
    assert_eq!(empty.acoustid, Some("x".to_string()));
    assert!(empty.title.is_none() && empty.artist.is_none());
}

#[test]
fn service_status_and_outcomes() {
    assert_eq!(check_reply("ok", None), None);
    assert_eq!(check_reply("error", Some("invalid key".to_string())), Some("AcoustID error: invalid key".to_string()));
    assert_eq!(check_reply("error", None), Some("AcoustID error: unknown error".to_string()));
    assert_eq!(status_after(&LookupOutcome::Matched), None);
    assert_eq!(status_after(&LookupOutcome::NoMatch), Some("not_found".to_string()));
    assert_eq!(status_after(&LookupOutcome::Failed), Some("failed".to_string()));
}

#[test]
fn api_defaults_and_parameters() {
    assert_eq!(default_limit(), 100);
    assert_eq!(default_export_format(), "json");
    assert_eq!(export_format("csv"), ExportFormat::Csv);
    assert_eq!(export_format("m3u").extension(), "m3u");
    assert_eq!(export_format("xml"), ExportFormat::Json);
    assert_eq!(export_format("CSV").extension(), "json");
    let rows = vec![row(1, "a", "p"), row(2, "b", "p"), row(3, "c", "p")];
    let kept = limit_rows(rows, 2);
    assert_eq!(kept.iter().map(|t| t.id.unwrap()).collect::<Vec<_>>(), vec![1, 2]);
    assert_eq!(limit_rows(vec![row(1, "a", "p")], 5).len(), 1);
    assert_eq!(parse_port("8080"), Some(8080));
    assert_eq!(parse_port("+80"), Some(80));
    assert_eq!(parse_port("65536"), None);
    assert_eq!(parse_port("x"), None);
}

#[test]
fn applied_undo_reports_what_it_put_back() {
    assert_eq!(flag_plan(&vec![3, 4]).undo.applied_message(), "restored 2 flag(s)");
    let rows = vec![row(1, "a", "failed")];
    assert_eq!(retry_plan(&rows, &vec![1]).undo.applied_message(), "reverted 1 status change(s)");
    assert_eq!(UndoAction::RestoreRows { tracks: Vec::new() }.applied_message(), "restored 0 purged track(s)");
}

#[test]
fn quarantined_files_are_named_by_id() {
    assert_eq!(quarantine_name(12, Some("song.flac")), "12_song.flac");
    assert_eq!(quarantine_name(7, None), "7_7");
    assert_eq!(quarantine_name(-1, Some("x")), "-1_x");
}

#[test]
fn ascii_alphanumerics_are_letters_and_digits() {
    for u in 0..128u8 {
        let c = u as char;
        assert_eq!(preamble::text::is_alphanumeric(c), c.is_ascii_alphanumeric(), "{u}");
    }
}
