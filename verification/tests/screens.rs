use preamble::app::{Filter, GroupMode, GroupRow, LibraryStats, StatusLevel, TabData, TabKind, TagField};
use preamble::screen::{
    artist_line, clamped_count_thou, count_thou, decade_line, duplicate_group_cells, duplicate_groups_title,
    empty_tab_text, format_line, group_row_cells, group_title, member_cells, member_header, members_title,
    runtime_text, shown_member_index, sort_footer, start_stat_lines, status_line, table_title, track_row_cells,
    edit_line, export_heading, filter_lines, notice_text, progress_label, search_bar_text, shortcuts_text, status_badge,
};
use preamble::keys::Notice;
use preamble::sort::SortKey;
use preamble::track::{DuplicateGroupSummary, DuplicateKind, TrackSummary};

fn summary(title: Option<&str>, checked: bool) -> TrackSummary {
    TrackSummary {
        is_selected: checked,
        id: Some(1),
        isrc: None,
        file_path: "/music/a/song.flac".to_string(),
        title: title.map(|t| t.to_string()),
        artist: None,
        album: Some("LP".to_string()),
        album_artist: None,
        genre: None,
        file_format: Some("FLAC".to_string()),
        file_size: Some(512),
        duration: Some(185_000),
        bitrate: Some(320),
        status: "ok".to_string(),
        file_hash: None,
        marked_for_deletion: false,
        health_issue: None,
    }
}

#[test]
fn track_row_shows_unknown_and_placeholders() {
    let t = summary(Some("Song"), true);
    assert_eq!(
        track_row_cells(&t),
        vec!["[X]", "Song", "Unknown", "LP", "FLAC", "512 B", "3:05", "320", "ok"]
    );
    let mut u = summary(None, false);
    u.file_size = None;
    u.duration = None;
    u.bitrate = None;
    u.health_issue = Some("unreadable".to_string());
    assert_eq!(
        track_row_cells(&u),
        vec!["[ ]", "Unknown", "Unknown", "LP", "FLAC", "-", "-", "-", "⚠ unreadable"]
    );
}

#[test]
fn table_title_counts_checked_rows() {
    let mut tab = TabData::new(
        TabKind::Library,
        vec![summary(Some("a"), true), summary(Some("b"), false), summary(Some("c"), true)],
    );
    assert_eq!(table_title(&tab), "Library: [1/3] - Selected: [2/3]");
    tab.selected = Some(2);
    assert_eq!(table_title(&tab), "Library: [3/3] - Selected: [2/3]");
}

#[test]
fn sort_footer_names_sort_and_filter() {
    let mut tab = TabData::new(TabKind::Library, Vec::new());
    tab.sort = SortKey::Title;
    assert_eq!(sort_footer(&tab), " sort: Title ↑ ");
    tab.sort_desc = true;
    tab.filter.format = Some("FLAC".to_string());
    tab.filter.unhealthy = true;
    assert_eq!(sort_footer(&tab), " sort: Title ↓ | filter: fmt=FLAC unhealthy ");
}

#[test]
fn empty_table_text_names_the_tab() {
    assert_eq!(empty_tab_text(TabKind::Failed), "No Failed Tracks Found");
}

#[test]
fn group_rows_clamp_and_truncate_totals() {
    let g = GroupRow { name: "Abba".to_string(), count: 12, total_size: -5, total_duration: 3_723_000 };
    assert_eq!(group_row_cells(&g), vec!["Abba", "12", "0 B", "62:03"]);
    let h = GroupRow { name: "x".to_string(), count: -1, total_size: 999, total_duration: 4_294_967_296 + 61_000 };
    assert_eq!(group_row_cells(&h), vec!["x", "-1", "999 B", "1:01"]);
    assert_eq!(group_title(GroupMode::Artist, Some(0), 40), "Library grouped by artist [1/40]");
    assert_eq!(group_title(GroupMode::Album, None, 0), "Library grouped by album [1/0]");
}

#[test]
fn duplicate_views_label_groups_and_members() {
    let g = DuplicateGroupSummary {
        kind: DuplicateKind::Isrc,
        key: "USABC".to_string(),
        count: 3,
        title: Some("Song".to_string()),
        artist: None,
        album: None,
    };
    assert_eq!(duplicate_group_cells(&g), vec!["×3", "isrc", "Song", "Unknown", "Unknown"]);
    assert_eq!(duplicate_groups_title(Some(1), 7), "Duplicate Groups: [2/7]");
    assert_eq!(shown_member_index(5, 3), 2);
    assert_eq!(shown_member_index(1, 3), 1);
    assert_eq!(members_title(0, 3), "Members [1/3] - ★ kept, rest → Trash ([k] to apply)");
    assert_eq!(member_header(1, 1, Some("a.flac")), "★ [2] a.flac");
    assert_eq!(member_header(0, 1, None), "[1] ?");
    let mut m = summary(None, false);
    m.bitrate = None;
    assert_eq!(member_cells(&m), vec!["-", "-", "LP", "FLAC", "-", "512 B"]);
}

#[test]
fn statistics_lines_are_padded_columns() {
    assert_eq!(format_line("FLAC", 12, 512), format!("{:<8} {:>6}  {:>10}", "FLAC", 12, "512 B"));
    assert_eq!(format_line("WAVPACKED", -2, -7), format!("{:<8} {:>6}  {:>10}", "WAVPACKED", -2, "0 B"));
    assert_eq!(artist_line("Abba", 7), "   7  Abba");
    assert_eq!(decade_line("1990s", 41), format!("{:<8} {:>6}", "1990s", 41));
    assert_eq!(status_line("ok", -3), format!("{:<14} {:>6}", "ok", -3));
}

#[test]
fn runtime_is_whole_hours_and_minutes() {
    assert_eq!(runtime_text(3_723_000), "1h 2m");
    assert_eq!(runtime_text(0), "0h 0m");
    let secs: i64 = -3_723_000 / 1000;
    assert_eq!(runtime_text(-3_723_000), format!("{}h {}m", secs / 3600, (secs % 3600) / 60));
    assert_eq!(runtime_text(-500), "0h 0m");
    assert_eq!(runtime_text(i64::MIN), format!("{}h {}m", (i64::MIN / 1000) / 3600, ((i64::MIN / 1000) % 3600) / 60));
}

#[test]
fn start_screen_counters_use_thousands_separators() {
    let s = LibraryStats { total_tracks: 1234, total_pending: 5, total_duplicates: 0, total_missing: 1_000_000, total_marked: 7 };
    let lines: Vec<(&str, String)> = start_stat_lines(&s).into_iter().map(|l| (l.label, l.value)).collect();
    assert_eq!(
        lines,
        vec![
            ("Total Tracks: ", "1,234".to_string()),
            ("Pending Enrichment: ", "5".to_string()),
            ("Duplicate Tracks: ", "0".to_string()),
            ("Missing Tracks: ", "1,000,000".to_string()),
            ("Flagged for Deletion: ", "7".to_string()),
        ]
    );
    assert_eq!(count_thou(5_000_000_000), "705,032,704");
    assert_eq!(clamped_count_thou(-4), "0");
    assert_eq!(clamped_count_thou(12_345), "12,345");
}

#[test]
fn main_screen_hints_follow_the_tab_and_search_state() {
    assert_eq!(
        shortcuts_text(TabKind::Trash),
        "[TAB] tabs · [SPACE]lect · [R]estore · [D] purge · [Z] undo · [?] help"
    );
    assert_eq!(shortcuts_text(TabKind::Missing), shortcuts_text(TabKind::Library));
    assert_eq!(search_bar_text("abba", true), "abba█");
    assert_eq!(search_bar_text("abba", false), "search: abba    ([/] edit · [esc] clear)");
    assert_eq!(search_bar_text("", false), "press [/] to search · [f]ilter · [?] help");
    assert_eq!(status_badge(StatusLevel::Success), " ✓ ");
    assert_eq!(status_badge(StatusLevel::Error), " ✗ ");
}

#[test]
fn popups_show_facets_counts_and_fields() {
    let mut f = Filter::new();
    assert_eq!(
        filter_lines(&f),
        vec!["Format         any", "Min bitrate    any", "Missing ISRC   off", "Unhealthy only off"]
    );
    f.format = Some("MP3".to_string());
    f.min_bitrate = Some(256);
    f.no_isrc = true;
    assert_eq!(
        filter_lines(&f),
        vec!["Format         MP3", "Min bitrate    ≥ 256 kbps", "Missing ISRC   ON", "Unhealthy only off"]
    );
    assert_eq!(export_heading(12), "  Export 12 row(s) from this view:");
    assert_eq!(edit_line(TagField::AlbumArtist, "Queen", true), (format!("  {:<14}", "Album Artist"), "Queen█".to_string()));
    assert_eq!(edit_line(TagField::Year, "1977", false), (format!("  {:<14}", "Year"), "1977".to_string()));
    assert_eq!(progress_label(3, 10), "[3/10]");
}

#[test]
fn notices_read_as_status_messages() {
    assert_eq!(notice_text(&Notice::EditCancelled), "Edit cancelled.");
    assert_eq!(notice_text(&Notice::GroupBy(GroupMode::Album)), "Group by: album");
    assert_eq!(notice_text(&Notice::FilteredTo("Abba".to_string())), "Filtered to: Abba");
    assert_eq!(notice_text(&Notice::Sorted(SortKey::Bitrate, true)), "Sort: Bitrate ↓");
    assert_eq!(notice_text(&Notice::NoApiKey), "No AcoustID API key set (ACOUSTID_API_KEY in .env).");
    assert_eq!(notice_text(&Notice::NoTrackToEdit), "No track selected to edit.");
}
