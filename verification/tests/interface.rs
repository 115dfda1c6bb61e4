use preamble::app::{DuplicatePane, DuplicatesView, GroupMode, GroupRow, Screens, StatusLevel, TabData, TabKind};
use preamble::events::{WatchState, WatchStep};
use preamble::input::{Area, MouseEvent};
use preamble::keys::{Action, ExportKind, Key, Notice, UiState};
use preamble::sort::SortKey;
use preamble::track::{DuplicateGroupSummary, DuplicateKind, TrackInfo, TrackSummary};
use preamble::undo::{flag_plan, restore_plan};

fn row(id: i64, title: &str) -> TrackSummary {
    TrackSummary {
        is_selected: false,
        id: Some(id),
        isrc: None,
        file_path: format!("/x/{title}.flac"),
        title: Some(title.to_string()),
        artist: None,
        album: None,
        album_artist: None,
        genre: None,
        file_format: Some("flac".to_string()),
        file_size: None,
        duration: None,
        bitrate: None,
        status: "pending".to_string(),
        file_hash: None,
        marked_for_deletion: false,
        health_issue: None,
    }
}

fn tab(kind: TabKind, rows: Vec<TrackSummary>) -> TabData {
    let mut t = TabData::new(kind, rows);
    if !t.tracks.is_empty() {
        t.selected = Some(0);
    }
    t
}

/// Library (two rows), Enrichment (one row), Duplicates, Failed (one row),
/// Missing, Trash (one row).
fn state(api_key: bool, path: bool) -> UiState {
    let tabs = vec![
        tab(TabKind::Library, vec![row(1, "Zebra"), row(2, "Apple")]),
        tab(TabKind::Enrichment, vec![row(3, "Mango")]),
        tab(TabKind::Duplicates, Vec::new()),
        tab(TabKind::Failed, vec![row(4, "Lost")]),
        tab(TabKind::Missing, Vec::new()),
        tab(TabKind::Trash, vec![row(5, "Gone")]),
    ];
    UiState::new(tabs, DuplicatesView::empty(), vec!["flac".to_string(), "mp3".to_string()], api_key, path)
}

fn main_state() -> UiState {
    let mut s = state(true, true);
    s.handle_key(Key::Enter);
    assert_eq!(s.screen, Screens::Main);
    s
}

fn press(s: &mut UiState, keys: &str) -> Vec<Action> {
    let mut all = Vec::new();
    for c in keys.chars() {
        all.extend(s.handle_key(Key::Char(c)));
    }
    all
}

fn info(id: Option<i64>) -> TrackInfo {
    TrackInfo {
        id,
        file_path: "/x/a.flac".to_string(),
        title: Some("Title".to_string()),
        artist: Some("Artist".to_string()),
        album: None,
        album_artist: None,
        album_artists: None,
        composer: None,
        label: None,
        genre: None,
        comment: None,
        lyrics: None,
        track: Some(3),
        track_total: None,
        disc: None,
        disc_total: None,
        release_year: Some(1999),
        recording_date: None,
        original_release_date: None,
        release_type: None,
        compilation: None,
        isrc: None,
        barcode: None,
        catalog_number: None,
        bpm: None,
        language: None,
        script: None,
        mood: None,
        replay_gain_track_gain: None,
        replay_gain_track_peak: None,
        replay_gain_album_gain: None,
        replay_gain_album_peak: None,
        file_format: None,
        file_size: None,
        duration: None,
        bitrate: None,
        sample_rate: None,
        bit_depth: None,
        channels: None,
        acoustid: None,
        musicbrainz_recording_id: None,
        musicbrainz_track_id: None,
        musicbrainz_release_id: None,
        musicbrainz_release_group_id: None,
        musicbrainz_artist_id: None,
        musicbrainz_release_artist_id: None,
        musicbrainz_work_id: None,
        status: "pending".to_string(),
        file_hash: None,
    }
}

#[test]
fn quitting_takes_two_presses() {
    let mut s = state(true, true);
    assert!(press(&mut s, "q").is_empty());
    assert!(s.should_quit && !s.quit_confirmed);
    press(&mut s, "q");
    assert!(s.quit_confirmed);
}

#[test]
fn esc_withdraws_a_quit_request() {
    let mut s = main_state();
    press(&mut s, "q");
    assert!(s.should_quit);
    s.handle_key(Key::Esc);
    assert!(!s.should_quit && !s.quit_confirmed);
    assert_eq!(s.screen, Screens::Main);
}

#[test]
fn start_screen_commands() {
    let mut s = state(true, false);
    let acts = press(&mut s, "s");
    assert!(matches!(acts.as_slice(), [Action::Notify(StatusLevel::Warning, Notice::PathNotProvided)]));
    assert_eq!(s.screen, Screens::Start);
    let mut s = state(true, true);
    let acts = press(&mut s, "r");
    assert!(matches!(acts.as_slice(), [Action::StartScan(true)]));
    assert_eq!(s.screen, Screens::Scanning);
    let acts = s.handle_key(Key::Esc);
    assert!(matches!(acts.as_slice(), [Action::RequestCancel]));
    let mut s = state(true, true);
    let acts = press(&mut s, "v");
    assert!(matches!(acts.as_slice(), [Action::StartValidation]));
    assert!(s.is_validating);
}

#[test]
fn d_on_library_flags_the_highlighted_track() {
    let mut s = main_state();
    let acts = press(&mut s, "d");
    match acts.as_slice() {
        [Action::Flag(ids)] => assert_eq!(ids, &vec![1]),
        _ => panic!("expected one flag action"),
    }
}

#[test]
fn checked_rows_take_precedence_over_the_highlight() {
    let mut s = main_state();
    press(&mut s, "i");
    assert!(s.tabs[0].tracks.iter().all(|t| t.is_selected));
    match press(&mut s, "d").as_slice() {
        [Action::Flag(ids)] => assert_eq!(ids, &vec![1, 2]),
        _ => panic!("expected one flag action"),
    }
    press(&mut s, "u");
    assert!(s.tabs[0].tracks.iter().all(|t| !t.is_selected));
    s.handle_key(Key::Down);
    press(&mut s, " ");
    assert!(!s.tabs[0].tracks[0].is_selected && s.tabs[0].tracks[1].is_selected);
    press(&mut s, "o");
    assert!(s.tabs[0].tracks.iter().all(|t| !t.is_selected));
}

#[test]
fn purge_needs_a_second_press_on_trash() {
    let mut s = main_state();
    for _ in 0..5 {
        s.handle_key(Key::Tab);
    }
    assert_eq!(s.tabs[s.current_tab].kind, TabKind::Trash);
    assert!(press(&mut s, "d").is_empty());
    assert!(s.pending_purge);
    let acts = press(&mut s, "d");
    assert!(matches!(acts.as_slice(), [Action::Purge]));
    assert!(!s.pending_purge);
    press(&mut s, "d");
    s.handle_key(Key::Tab);
    assert!(!s.pending_purge);
    assert_eq!(s.current_tab, 0);
}

#[test]
fn restore_and_retry_target_the_highlight() {
    let mut s = main_state();
    for _ in 0..3 {
        s.handle_key(Key::Tab);
    }
    match press(&mut s, "r").as_slice() {
        [Action::Retry(ids)] => assert_eq!(ids, &vec![4]),
        _ => panic!("expected a retry"),
    }
    s.handle_key(Key::Tab);
    s.handle_key(Key::Tab);
    match press(&mut s, "r").as_slice() {
        [Action::Restore(ids)] => assert_eq!(ids, &vec![5]),
        _ => panic!("expected a restore"),
    }
}

#[test]
fn highlight_moves_within_the_rows() {
    let mut s = main_state();
    s.handle_key(Key::Up);
    assert_eq!(s.tabs[0].selected, Some(0));
    s.handle_key(Key::Down);
    s.handle_key(Key::Down);
    assert_eq!(s.tabs[0].selected, Some(1));
    press(&mut s, "p");
    assert!(s.properties_panel_open);
    let acts = s.handle_key(Key::Up);
    assert!(matches!(acts.as_slice(), [Action::LoadSelectedTrack]));
    s.handle_key(Key::PageDown);
    s.handle_key(Key::PageDown);
    assert_eq!(s.properties_scroll, 10);
    s.handle_key(Key::PageUp);
    s.handle_key(Key::PageUp);
    s.handle_key(Key::PageUp);
    assert_eq!(s.properties_scroll, 0);
    s.handle_key(Key::Esc);
    assert!(!s.properties_panel_open);
    s.handle_key(Key::Esc);
    assert_eq!(s.screen, Screens::Start);
}

#[test]
fn search_typing_and_deleting() {
    let mut s = main_state();
    press(&mut s, "/");
    assert!(s.search_mode);
    let acts = press(&mut s, "ab");
    assert_eq!(acts.len(), 2);
    assert!(matches!(acts[0], Action::SearchEdited));
    assert_eq!(s.tabs[0].search_query, "ab");
    assert!(s.search_dirty);
    s.handle_key(Key::Backspace);
    assert_eq!(s.tabs[0].search_query, "a");
    assert!(s.search_due(500));
    assert!(!s.search_dirty);
    let acts = s.handle_key(Key::Enter);
    assert!(matches!(acts.as_slice(), [Action::ReloadCurrentTab]));
    assert!(!s.search_mode);
    assert_eq!(s.tabs[0].search_query, "a");
    let acts = s.handle_key(Key::Esc);
    assert!(matches!(acts.as_slice(), [Action::ReloadCurrentTab]));
    assert_eq!(s.tabs[0].search_query, "");
}

#[test]
fn search_runs_only_after_a_pause() {
    let mut s = main_state();
    press(&mut s, "/x");
    assert!(!s.search_due(180));
    assert!(s.search_dirty);
    assert!(s.search_due(181));
    assert!(!s.search_due(10_000));
}

#[test]
fn filter_popup_cycles_facets() {
    let mut s = main_state();
    press(&mut s, "f");
    assert!(s.filter_mode);
    let acts = press(&mut s, "b");
    assert!(matches!(acts.as_slice(), [Action::ReloadCurrentTab]));
    assert_eq!(s.tabs[0].filter.min_bitrate, Some(128));
    press(&mut s, "bbb");
    assert_eq!(s.tabs[0].filter.min_bitrate, None);
    press(&mut s, "t");
    assert_eq!(s.tabs[0].filter.format, Some("flac".to_string()));
    press(&mut s, "t");
    assert_eq!(s.tabs[0].filter.format, Some("mp3".to_string()));
    press(&mut s, "t");
    assert_eq!(s.tabs[0].filter.format, None);
    press(&mut s, "ih");
    assert!(s.tabs[0].filter.no_isrc && s.tabs[0].filter.unhealthy);
    press(&mut s, "c");
    assert!(!s.tabs[0].filter.is_active());
    s.handle_key(Key::Esc);
    assert!(!s.filter_mode);
}

#[test]
fn esc_clears_search_and_facets_first() {
    let mut s = main_state();
    press(&mut s, "f");
    press(&mut s, "i");
    s.handle_key(Key::Esc);
    assert!(s.tabs[0].filter.is_active());
    let acts = s.handle_key(Key::Esc);
    assert!(matches!(acts.as_slice(), [Action::ReloadCurrentTab]));
    assert!(!s.tabs[0].filter.is_active());
    assert_eq!(s.screen, Screens::Main);
}

#[test]
fn help_overlay_swallows_keys() {
    let mut s = main_state();
    press(&mut s, "?");
    assert!(s.help_open);
    assert!(press(&mut s, "x").is_empty());
    assert!(!s.export_mode);
    s.handle_key(Key::Esc);
    assert!(!s.help_open);
}

#[test]
fn export_picker_chooses_a_format() {
    let mut s = main_state();
    press(&mut s, "x");
    assert!(s.export_mode);
    assert!(press(&mut s, "q").is_empty());
    let acts = press(&mut s, "m");
    assert!(matches!(acts.as_slice(), [Action::Export(ExportKind::M3u)]));
    assert!(!s.export_mode);
}

#[test]
fn sort_keys_announce_the_order() {
    let mut s = main_state();
    let acts = press(&mut s, "s");
    assert!(matches!(acts.as_slice(), [Action::Notify(StatusLevel::Info, Notice::Sorted(SortKey::Title, false))]));
    assert_eq!(s.tabs[0].tracks[0].title.as_deref(), Some("Apple"));
    let acts = press(&mut s, "S");
    assert!(matches!(acts.as_slice(), [Action::Notify(StatusLevel::Info, Notice::Sorted(SortKey::Title, true))]));
    assert_eq!(s.tabs[0].tracks[0].title.as_deref(), Some("Zebra"));
}

#[test]
fn enrichment_needs_a_key_and_targets() {
    let mut s = state(false, true);
    s.handle_key(Key::Enter);
    s.handle_key(Key::Tab);
    let acts = press(&mut s, "e");
    assert!(matches!(acts.as_slice(), [Action::Notify(StatusLevel::Error, Notice::NoApiKey)]));
    let mut s = main_state();
    s.handle_key(Key::Tab);
    match press(&mut s, "e").as_slice() {
        [Action::StartEnrichment(ids)] => assert_eq!(ids, &vec![3]),
        _ => panic!("expected an enrichment"),
    }
    assert!(s.is_enriching);
    assert!(press(&mut s, "e").is_empty());
    let acts = s.handle_key(Key::Esc);
    assert!(matches!(acts.as_slice(), [Action::RequestCancel]));
    s.enrichment_finished();
    assert!(!s.is_enriching);
}

#[test]
fn grouping_drills_into_a_group() {
    let mut s = main_state();
    let acts = press(&mut s, "g");
    assert!(matches!(acts.as_slice(), [Action::RefreshGroups, Action::Notify(StatusLevel::Info, Notice::GroupBy(GroupMode::Artist))]));
    s.install_groups(vec![
        GroupRow { name: "Abba".to_string(), count: 2, total_size: 0, total_duration: 0 },
        GroupRow { name: "Beck".to_string(), count: 1, total_size: 0, total_duration: 0 },
    ]);
    assert_eq!(s.groups_selected, Some(0));
    s.handle_key(Key::Down);
    s.handle_key(Key::Down);
    assert_eq!(s.groups_selected, Some(1));
    let acts = s.handle_key(Key::Enter);
    match acts.as_slice() {
        [Action::ReloadCurrentTab, Action::Notify(StatusLevel::Info, Notice::FilteredTo(name))] => assert_eq!(name, "Beck"),
        _ => panic!("expected a reload and a notice"),
    }
    assert_eq!(s.group_mode, GroupMode::Off);
    assert_eq!(s.tabs[0].search_query, "Beck");
}

#[test]
fn duplicates_tab_keys() {
    let mut s = main_state();
    s.handle_key(Key::Tab);
    s.handle_key(Key::Tab);
    assert_eq!(s.tabs[s.current_tab].kind, TabKind::Duplicates);
    assert!(press(&mut s, "/").is_empty());
    assert!(!s.search_mode);
    press(&mut s, "p");
    assert_eq!(s.duplicates.focus, DuplicatePane::Members);
    let acts = press(&mut s, "k");
    assert!(matches!(acts.as_slice(), [Action::KeepSelected]));
    assert!(press(&mut s, "d").is_empty());
}

#[test]
fn tag_editor_round_trip() {
    let mut s = main_state();
    let acts = s.open_editor(None);
    assert!(matches!(acts.as_slice(), [Action::Notify(StatusLevel::Warning, Notice::NoTrackToEdit)]));
    assert!(s.edit.is_none());
    assert!(s.open_editor(Some(info(Some(9)))).is_empty());
    press(&mut s, "X");
    assert_eq!(s.edit.as_ref().unwrap().fields[0].1, "TitleX");
    s.handle_key(Key::Backspace);
    assert_eq!(s.edit.as_ref().unwrap().fields[0].1, "Title");
    s.handle_key(Key::Down);
    assert_eq!(s.edit.as_ref().unwrap().focus, 1);
    let acts = s.handle_key(Key::Enter);
    match acts.as_slice() {
        [Action::SaveEdits(e)] => {
            assert_eq!(e.track_id, 9);
            assert_eq!(e.to_tag_edits().artist, "Artist");
        },
        _ => panic!("expected a save"),
    }
    assert!(s.edit.is_none());
}

#[test]
fn mouse_selects_rows_and_cycles_tabs() {
    let mut s = main_state();
    let bar = Area { x: 0, y: 0, width: 80, height: 1 };
    let table = Area { x: 0, y: 2, width: 80, height: 20 };
    s.handle_mouse(MouseEvent::LeftClick { column: 3, row: 6 }, bar, table, 0);
    assert_eq!(s.tabs[0].selected, Some(1));
    s.handle_mouse(MouseEvent::LeftClick { column: 3, row: 9 }, bar, table, 0);
    assert_eq!(s.tabs[0].selected, Some(1));
    s.handle_mouse(MouseEvent::ScrollUp, bar, table, 0);
    assert_eq!(s.tabs[0].selected, Some(0));
    s.handle_mouse(MouseEvent::LeftClick { column: 3, row: 0 }, bar, table, 0);
    assert_eq!(s.current_tab, 1);
}

#[test]
fn stats_screen_returns_to_main() {
    let mut s = main_state();
    let acts = press(&mut s, "c");
    assert!(matches!(acts.as_slice(), [Action::ShowStats]));
    s.stats_ready();
    assert_eq!(s.screen, Screens::Stats);
    press(&mut s, "q");
    assert_eq!(s.screen, Screens::Main);
    assert!(!s.should_quit);
}

#[test]
fn watch_imports_once_the_directory_settles() {
    let mut w = WatchState::new();
    let step = w.tick(true, 0, false, false, true);
    assert_eq!(step, WatchStep { library_updated: false, start_import: false });
    assert!(w.pending);
    let step = w.tick(false, 1000, false, false, true);
    assert!(!step.start_import);
    let step = w.tick(false, 1501, false, false, true);
    assert!(step.start_import && w.importing && !w.pending);
    let step = w.tick(false, 5000, true, false, true);
    assert!(step.library_updated && !w.importing);
    w.tick(true, 0, false, false, true);
    let step = w.tick(false, 2000, false, true, true);
    assert!(!step.start_import && w.pending);
    w.stop();
    assert!(!w.pending);
}

/// Applies `(id, flagged)` updates to a table of deletion flags and counts the flagged rows.
fn apply_flags(flags: &mut std::collections::BTreeMap<i64, bool>, updates: &[(i64, bool)]) -> usize {
    for (id, v) in updates {
        flags.insert(*id, *v);
    }
    flags.values().filter(|v| **v).count()
}

#[test]
fn d_flags_highlighted_track_into_trash() {
    let mut s = main_state();
    let mut flags = std::collections::BTreeMap::from([(1, false), (2, false)]);
    let ids = match press(&mut s, "d").as_slice() {
        [Action::Flag(ids)] => ids.clone(),
        _ => panic!("expected one flag action"),
    };
    assert_eq!(apply_flags(&mut flags, &flag_plan(&ids).updates), 1);
    assert_eq!(flags[&1], true);
}

#[test]
fn keep_flags_other_duplicate_group_members() {
    let group = DuplicateGroupSummary {
        kind: DuplicateKind::Hash,
        key: "deadbeef".to_string(),
        count: 2,
        title: Some("A".to_string()),
        artist: None,
        album: None,
    };
    let mut a = row(1, "A");
    a.file_path = "/x/a.flac".to_string();
    let mut b = row(2, "A");
    b.file_path = "/x/b.flac".to_string();
    let mut s = state(true, true);
    s.duplicates = DuplicatesView::install(vec![group], vec![a, b]);
    s.handle_key(Key::Enter);
    s.handle_key(Key::Tab);
    s.handle_key(Key::Tab);
    assert_eq!(s.tabs[s.current_tab].kind, TabKind::Duplicates);
    assert_eq!(s.duplicates.groups.len(), 1);
    assert_eq!(s.duplicates.selected_members.len(), 2);
    assert!(matches!(press(&mut s, "k").as_slice(), [Action::KeepSelected]));
    let plan = s.duplicates.keep_selected().expect("a keeper is highlighted");
    let mut flags = std::collections::BTreeMap::from([(1, false), (2, false)]);
    assert_eq!(apply_flags(&mut flags, &plan.updates), 1);
    assert_eq!(flags[&plan.keeper_id], false);
}

#[test]
fn restore_unflags_track_in_trash() {
    let mut s = main_state();
    for _ in 0..5 {
        s.handle_key(Key::Tab);
    }
    assert_eq!(s.tabs[s.current_tab].kind, TabKind::Trash);
    let mut flags = std::collections::BTreeMap::from([(5, true)]);
    assert_eq!(flags.values().filter(|v| **v).count(), 1);
    let ids = match press(&mut s, "r").as_slice() {
        [Action::Restore(ids)] => ids.clone(),
        _ => panic!("expected a restore"),
    };
    assert_eq!(apply_flags(&mut flags, &restore_plan(&ids).updates), 0);
}

#[test]
fn undo_reverts_a_flag() {
    let mut s = main_state();
    let mut flags = std::collections::BTreeMap::from([(1, false), (2, false)]);
    let ids = match press(&mut s, "d").as_slice() {
        [Action::Flag(ids)] => ids.clone(),
        _ => panic!("expected one flag action"),
    };
    let plan = flag_plan(&ids);
    assert_eq!(apply_flags(&mut flags, &plan.updates), 1);
    assert!(matches!(press(&mut s, "z").as_slice(), [Action::Undo]));
    assert_eq!(apply_flags(&mut flags, &plan.undo.mark_updates()), 0);
}
