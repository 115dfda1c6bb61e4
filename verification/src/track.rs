//! Track records: the full tag/technical record of a file, the summary row
//! shown in track lists, duplicate groups, and editable tag fields.
use vstd::prelude::*;
use crate::text::{chars_of, string_of, trim, trim_chars};

verus! {

/// Everything stored about one audio file. Paths are held as text.
pub struct TrackInfo {
    pub id: Option<i64>,
    pub file_path: String,

    pub title: Option<String>,
    pub artist: Option<String>,
    pub album: Option<String>,
    pub album_artist: Option<String>,
    pub album_artists: Option<String>,
    pub composer: Option<String>,
    pub label: Option<String>,
    pub genre: Option<String>,
    pub comment: Option<String>,
    pub lyrics: Option<String>,

    pub track: Option<u32>,
    pub track_total: Option<u32>,
    pub disc: Option<u32>,
    pub disc_total: Option<u32>,

    pub release_year: Option<u32>,
    pub recording_date: Option<String>,
    pub original_release_date: Option<String>,

    pub release_type: Option<String>,
    pub compilation: Option<bool>,
    pub isrc: Option<String>,
    pub barcode: Option<String>,
    pub catalog_number: Option<String>,
    pub bpm: Option<u32>,
    pub language: Option<String>,
    pub script: Option<String>,
    pub mood: Option<String>,

    pub replay_gain_track_gain: Option<String>,
    pub replay_gain_track_peak: Option<String>,
    pub replay_gain_album_gain: Option<String>,
    pub replay_gain_album_peak: Option<String>,

    pub file_format: Option<String>,
    pub file_size: Option<i64>,
    pub duration: Option<u32>,
    pub bitrate: Option<u32>,
    pub sample_rate: Option<u32>,
    pub bit_depth: Option<u32>,
    pub channels: Option<u32>,

    pub acoustid: Option<String>,
    pub musicbrainz_recording_id: Option<String>,
    pub musicbrainz_track_id: Option<String>,
    pub musicbrainz_release_id: Option<String>,
    pub musicbrainz_release_group_id: Option<String>,
    pub musicbrainz_artist_id: Option<String>,
    pub musicbrainz_release_artist_id: Option<String>,
    pub musicbrainz_work_id: Option<String>,

    pub status: String,

    pub file_hash: Option<String>,
}

/// One row of a track list.
pub struct TrackSummary {
    /// Checkbox selection in the list (never persisted).
    pub is_selected: bool,
    pub id: Option<i64>,
    pub isrc: Option<String>,
    pub file_path: String,

    pub title: Option<String>,
    pub artist: Option<String>,
    pub album: Option<String>,
    /// Searched together with title, artist and album.
    pub album_artist: Option<String>,
    /// Searched together with title, artist and album.
    pub genre: Option<String>,

    pub file_format: Option<String>,
    pub file_size: Option<i64>,
    pub duration: Option<u32>,
    pub bitrate: Option<u32>,

    pub status: String,
    pub file_hash: Option<String>,
    pub marked_for_deletion: bool,
    pub health_issue: Option<String>,
}

/// How a duplicate group's members were matched together.
#[derive(Clone, Copy, PartialEq, Eq, Structural, Debug)]
pub enum DuplicateKind {
    /// Byte-for-byte identical files (same hash).
    Hash,
    /// Same recording across different files (same ISRC).
    Isrc,
}

impl DuplicateKind {
    /// The kind's name as written in reports.
    pub fn label(self) -> (res: &'static str)
        ensures
            self == DuplicateKind::Hash ==> res@ == "hash"@,
            self == DuplicateKind::Isrc ==> res@ == "isrc"@,
    {
        proof {
            reveal_strlit("hash");
            reveal_strlit("isrc");
        }
        match self {
            DuplicateKind::Hash => "hash",
            DuplicateKind::Isrc => "isrc",
        }
    }
}

/// Summary of one duplicate group.
pub struct DuplicateGroupSummary {
    pub kind: DuplicateKind,
    /// The shared key: a file hash or an ISRC depending on `kind`.
    pub key: String,
    pub count: u32,
    pub title: Option<String>,
    pub artist: Option<String>,
    pub album: Option<String>,
}

/// Editable tag fields, as raw editor text. An empty (blank) field clears the tag.
pub struct TagEdits {
    pub title: String,
    pub artist: String,
    pub album: String,
    pub album_artist: String,
    pub genre: String,
    pub comment: String,
    pub track: String,
    pub disc: String,
    pub year: String,
}

/// The trimmed text, or nothing when it is blank.
pub open spec fn opt_text(s: Seq<char>) -> Option<Seq<char>> {
    if trim(s).len() == 0 { None } else { Some(trim(s)) }
}

impl TagEdits {
    /// The field trimmed of surrounding whitespace, or `None` when nothing is left.
    pub fn opt(s: &str) -> (res: Option<String>)
        ensures
            match opt_text(s@) {
                None => res is None,
                Some(t) => res matches Some(r) && r@ == t,
            },
    {
        let v = chars_of(s);
        let t = trim_chars(&v);
        if t.len() == 0 {
            None
        } else {
            Some(string_of(&t))
        }
    }
}

} // verus!
