use preamble::panel::{panel_lines_of, panel_scroll};
use preamble::tags::{track_info_from, AudioKind, RawTags};

fn raw() -> RawTags {
    RawTags {
        title: Some(" Song ".to_string()),
        artist: Some("Artist".to_string()),
        album: None,
        genre: None,
        comment: None,
        track: Some(4),
        track_total: None,
        disc: None,
        disc_total: None,
        year: Some(2001),
        album_artist: Some("  ".to_string()),
        album_artists: vec!["A".to_string(), "B".to_string()],
        composer: Some(" Bach ".to_string()),
        label: None,
        lyrics: None,
        recording_date: None,
        original_release_date: None,
        compilation: Some("True".to_string()),
        isrc: Some("US123".to_string()),
        barcode: None,
        catalog_number: None,
        bpm: Some("120".to_string()),
        language: None,
        script: None,
        mood: None,
        replay_gain_track_gain: None,
        replay_gain_track_peak: None,
        replay_gain_album_gain: None,
        replay_gain_album_peak: None,
        musicbrainz_recording_id: None,
        musicbrainz_track_id: None,
        musicbrainz_release_id: None,
        musicbrainz_release_group_id: None,
        musicbrainz_artist_id: None,
        musicbrainz_release_artist_id: None,
        musicbrainz_work_id: None,
        kind: AudioKind::Flac,
        file_size: Some(999),
        duration_millis: 185_000,
        bitrate: Some(1411),
        sample_rate: Some(44_100),
        bit_depth: Some(16),
        channels: Some(2),
    }
}

#[test]
fn read_tags_are_normalised_into_a_record() {
    let t = track_info_from("/m/a.flac".to_string(), &raw());
    assert_eq!(t.id, None);
    assert_eq!(t.title, Some(" Song ".to_string()));
    assert_eq!(t.album_artist, None);
    assert_eq!(t.album_artists, Some("A; B".to_string()));
    assert_eq!(t.composer, Some("Bach".to_string()));
    assert_eq!(t.compilation, Some(true));
    assert_eq!(t.bpm, Some(120));
    assert_eq!(t.file_format, Some("FLAC".to_string()));
    assert_eq!(t.file_size, Some(999));
    assert_eq!(t.duration, Some(185_000));
    assert_eq!(t.bit_depth, Some(16));
    assert_eq!(t.status, "pending");
    assert_eq!(t.file_hash, None);
}

#[test]
fn properties_panel_lines() {
    let t = track_info_from("/m/a.flac".to_string(), &raw());
    let lines = panel_lines_of(&t);
    assert_eq!(lines.len(), 48);
    assert_eq!((lines[0].label, lines[0].value.as_str()), ("Title", " Song "));
    assert_eq!((lines[2].label, lines[2].value.as_str()), ("Album", ""));
    assert_eq!((lines[10].label, lines[10].value.as_str()), ("Track", "4"));
    assert_eq!((lines[18].label, lines[18].value.as_str()), ("Compilation", "Yes"));
    assert_eq!((lines[31].label, lines[31].value.as_str()), ("File Size", "999 B"));
    assert_eq!((lines[32].label, lines[32].value.as_str()), ("Duration", "3:05"));
    assert_eq!((lines[47].label, lines[47].value.as_str()), ("File Path", "/m/a.flac"));
}

#[test]
fn panel_scroll_stops_at_the_last_line() {
    assert_eq!(panel_scroll(0, 48, 10), 0);
    assert_eq!(panel_scroll(5, 48, 10), 5);
    assert_eq!(panel_scroll(100, 48, 10), 38);
    assert_eq!(panel_scroll(3, 5, 10), 0);
}
