use preamble::tags::{
    file_format_name, is_compilation, join_values, parse_u32, plan_tag_writes, tag_edit_columns,
    tag_text, AudioKind, NumberColumn, TagKey, TagWrite,
};
use preamble::track::TagEdits;

fn edits() -> TagEdits {
    TagEdits {
        title: "  Song ".to_string(),
        artist: "".to_string(),
        album: "Album".to_string(),
        album_artist: "   ".to_string(),
        genre: "Jazz".to_string(),
        comment: "".to_string(),
        track: " 007 ".to_string(),
        disc: "x".to_string(),
        year: "".to_string(),
    }
}

fn describe(w: &TagWrite) -> String {
    match w {
        TagWrite::Store(k, v) => format!("store {k:?}={v}"),
        TagWrite::Remove(k) => format!("remove {k:?}"),
    }
}

#[test]
fn numbers_parse_like_std() {
    for s in ["0", "+12", "4294967295", "4294967296", "-1", "", "1a", " 1", "+"] {
        assert_eq!(parse_u32(s), s.parse::<u32>().ok(), "{s}");
    }
}

#[test]
fn blank_tags_are_absent() {
    assert_eq!(tag_text("  Hello "), Some("Hello".to_string()));
    assert_eq!(tag_text(" \t "), None);
    assert_eq!(TagEdits::opt(""), None);
}

#[test]
fn compilation_flag_texts() {
    assert!(is_compilation("1"));
    assert!(is_compilation("TRUE"));
    assert!(is_compilation("true"));
    assert!(!is_compilation("yes"));
    assert!(!is_compilation("0"));
}

#[test]
fn several_values_are_joined() {
    assert_eq!(join_values(&vec![]), None);
    assert_eq!(join_values(&vec!["A".to_string()]), Some("A".to_string()));
    assert_eq!(join_values(&vec!["A".to_string(), "B".to_string(), "C".to_string()]), Some("A; B; C".to_string()));
}

#[test]
fn format_names() {
    assert_eq!(file_format_name(AudioKind::Mpeg), "MP3");
    assert_eq!(file_format_name(AudioKind::Vorbis), "OGG");
    assert_eq!(file_format_name(AudioKind::Other), "UNKNOWN");
}

#[test]
fn saving_edits_plans_the_tag_writes() {
    let plan: Vec<String> = plan_tag_writes(&edits()).iter().map(describe).collect();
    assert_eq!(
        plan,
        vec![
            "store Title=Song",
            "remove Artist",
            "store Album=Album",
            "remove AlbumArtist",
            "store Genre=Jazz",
            "remove Comment",
            "store TrackNumber=7",
            "remove Year",
        ]
    );
    assert!(matches!(plan_tag_writes(&edits())[6], TagWrite::Store(TagKey::TrackNumber, _)));
}

#[test]
fn saving_edits_sets_the_columns() {
    let c = tag_edit_columns(&edits());
    assert_eq!(c.title, Some("Song".to_string()));
    assert_eq!(c.artist, None);
    assert_eq!(c.album_artist, None);
    assert_eq!(c.track, NumberColumn::Store(7));
    assert_eq!(c.disc, NumberColumn::Keep);
    assert_eq!(c.year, NumberColumn::Clear);
    let mut e = edits();
    e.track = "-3".to_string();
    e.disc = " 2 ".to_string();
    e.year = "abc".to_string();
    let c = tag_edit_columns(&e);
    assert_eq!(c.track, NumberColumn::Keep);
    assert_eq!(c.disc, NumberColumn::Store(2));
    assert_eq!(c.year, NumberColumn::Keep);
}

#[test]
fn whitespace_is_the_unicode_white_space_set() {
    for u in 0..=0x10ffffu32 {
        if let Some(c) = char::from_u32(u) {
            assert_eq!(preamble::text::is_whitespace(c), c.is_whitespace(), "{u:#x}");
        }
    }
}
