use preamble::app::{matches_query, TabData, TabKind};
use preamble::sort::{sort_tracks, SortKey};
use preamble::track::TrackSummary;

fn row(id: i64, title: Option<&str>) -> TrackSummary {
    TrackSummary {
        is_selected: false,
        id: Some(id),
        isrc: None,
        file_path: format!("/x/{id}.flac"),
        title: title.map(|t| t.to_string()),
        artist: None,
        album: None,
        album_artist: None,
        genre: None,
        file_format: None,
        file_size: None,
        duration: None,
        bitrate: None,
        status: "pending".to_string(),
        file_hash: None,
        marked_for_deletion: false,
        health_issue: None,
    }
}

fn titles(rows: &[TrackSummary]) -> Vec<String> {
    rows.iter().map(|t| t.title.clone().unwrap_or_default()).collect()
}

fn ids(rows: &[TrackSummary]) -> Vec<i64> {
    rows.iter().map(|t| t.id.unwrap()).collect()
}

#[test]
fn sort_orders_tracks_by_title() {
    let mut rows: Vec<TrackSummary> = ["Zebra", "Apple", "Mango"]
        .iter()
        .enumerate()
        .map(|(i, t)| row(i as i64 + 1, Some(*t)))
        .collect();
    sort_tracks(&mut rows, SortKey::Title, false);
    assert_eq!(titles(&rows), vec!["Apple", "Mango", "Zebra"]);
}

#[test]
fn title_order_ignores_case_and_puts_missing_last() {
    let mut rows = vec![row(1, None), row(2, Some("b")), row(3, Some("A"))];
    sort_tracks(&mut rows, SortKey::Title, false);
    assert_eq!(ids(&rows), vec![3, 2, 1]);
}

#[test]
fn equal_keys_keep_their_order_and_descending_reverses() {
    let mut rows = vec![row(1, Some("x")), row(2, Some("a")), row(3, Some("x")), row(4, Some("a"))];
    sort_tracks(&mut rows, SortKey::Title, false);
    assert_eq!(ids(&rows), vec![2, 4, 1, 3]);
    let mut rows = vec![row(1, Some("x")), row(2, Some("a")), row(3, Some("x")), row(4, Some("a"))];
    sort_tracks(&mut rows, SortKey::Title, true);
    assert_eq!(ids(&rows), vec![3, 1, 4, 2]);
}

#[test]
fn numeric_keys_treat_unknown_values_as_documented() {
    let mut rows = vec![row(1, None), row(2, None), row(3, None)];
    rows[0].file_size = Some(10);
    rows[1].file_size = None;
    rows[2].file_size = Some(0);
    sort_tracks(&mut rows, SortKey::Size, false);
    assert_eq!(ids(&rows), vec![2, 3, 1]);
    let mut rows = vec![row(5, None), row(2, None), row(9, None)];
    rows[1].id = None;
    sort_tracks(&mut rows, SortKey::Added, false);
    assert_eq!(rows.iter().map(|t| t.id).collect::<Vec<_>>(), vec![Some(5), Some(9), None]);
}

#[test]
fn cycling_the_sort_key_wraps() {
    let mut k = SortKey::Added;
    let mut seen = Vec::new();
    for _ in 0..9 {
        seen.push(k.label());
        k = k.next();
    }
    assert_eq!(k, SortKey::Added);
    assert_eq!(seen, vec!["Added", "Title", "Artist", "Album", "Format", "Size", "Duration", "Bitrate", "Status"]);
}

#[test]
fn tab_cycle_sort_reorders_rows() {
    let mut tab = TabData::new(TabKind::Library, vec![row(1, Some("b")), row(2, Some("a"))]);
    tab.cycle_sort();
    assert_eq!(tab.sort, SortKey::Title);
    assert_eq!(ids(&tab.tracks), vec![2, 1]);
    tab.toggle_sort_dir();
    assert!(tab.sort_desc);
    assert_eq!(ids(&tab.tracks), vec![1, 2]);
}

#[test]
fn search_covers_album_artist_and_genre() {
    let mut t = row(1, Some("Song"));
    assert!(matches_query(&t, "son"));
    assert!(!matches_query(&t, "queen"));
    t.album_artist = Some("Queen".to_string());
    assert!(matches_query(&t, "queen"));
    t.genre = Some("Progressive Rock".to_string());
    assert!(matches_query(&t, "rock"));
    assert!(!matches_query(&t, "jazz"));
}
