//! The decisions of the local HTTP API: the defaults of its query
//! parameters, the export format a request names, how many rows a listing
//! returns, the port setting, and the JSON shape of a track record.
use vstd::prelude::*;
use crate::text::{chars_eq, chars_of};
use crate::tags::{parse_u32, parsed_u32};
use crate::track::{TrackInfo, TrackSummary};

verus! {

/// The number of rows a track listing returns when the request names none.
pub fn default_limit() -> (n: usize)
    ensures
        n == 100,
{
    100
}

/// The export format used when the request names none.
pub fn default_export_format() -> (s: String)
    ensures
        s@ == "json"@,
{
    "json".to_owned()
}

/// The export formats of the API.
#[derive(Clone, Copy, PartialEq, Eq, Structural, Debug)]
pub enum ExportFormat {
    Csv,
    M3u,
    Json,
}

/// The format a request's `format` parameter selects: `csv`, `m3u`, and
/// JSON for anything else.
pub open spec fn export_format_of(name: Seq<char>) -> ExportFormat {
    if name == "csv"@ {
        ExportFormat::Csv
    } else if name == "m3u"@ {
        ExportFormat::M3u
    } else {
        ExportFormat::Json
    }
}

/// The format a request's `format` parameter selects.
pub fn export_format(name: &str) -> (f: ExportFormat)
    ensures
        f == export_format_of(name@),
{
    let n = chars_of(name);
    let csv = chars_of("csv");
    let m3u = chars_of("m3u");
    if chars_eq(&n, &csv) {
        ExportFormat::Csv
    } else if chars_eq(&n, &m3u) {
        ExportFormat::M3u
    } else {
        ExportFormat::Json
    }
}

impl ExportFormat {
    /// The file extension of an export in this format.
    pub fn extension(self) -> (ext: &'static str)
        ensures
            ext@ == (match self {
                ExportFormat::Csv => "csv"@,
                ExportFormat::M3u => "m3u"@,
                ExportFormat::Json => "json"@,
            }),
    {
        match self {
            ExportFormat::Csv => "csv",
            ExportFormat::M3u => "m3u",
            ExportFormat::Json => "json",
        }
    }
}

/// The first `limit` rows (all of them when there are fewer).
pub fn limit_rows(rows: Vec<TrackSummary>, limit: usize) -> (res: Vec<TrackSummary>)
    ensures
        res@ == rows@.take(if limit < rows@.len() { limit as int } else { rows@.len() as int }),
{
    let mut rows = rows;
    if limit < rows.len() {
        rows.truncate(limit);
    }
    rows
}

/// The port a `PREAMBLE_API_PORT` value names: a decimal `u16`, with an
/// optional `+`.
pub open spec fn port_of(s: Seq<char>) -> Option<nat> {
    match parsed_u32(s) {
        Some(v) => if v <= u16::MAX { Some(v) } else { None },
        None => None,
    }
}

/// Parses a port setting the way `str::parse::<u16>` does.
pub fn parse_port(s: &str) -> (res: Option<u16>)
    ensures
        match port_of(s@) {
            Some(v) => res == Some(v as u16),
            None => res is None,
        },
{
    match parse_u32(s) {
        Some(v) => if v <= 65535 { Some(v as u16) } else { None },
        None => None,
    }
}

/// A track record as the API returns it: the path as text, no id read as 0.
pub struct TrackResponse {
    pub id: i64,
    pub file_path: String,
    pub title: Option<String>,
    pub artist: Option<String>,
    pub album: Option<String>,
    pub album_artist: Option<String>,
    pub genre: Option<String>,
    pub track: Option<u32>,
    pub track_total: Option<u32>,
    pub disc: Option<u32>,
    pub disc_total: Option<u32>,
    pub release_year: Option<u32>,
    pub isrc: Option<String>,
    pub file_format: Option<String>,
    pub file_size: Option<i64>,
    pub duration_ms: Option<u32>,
    pub bitrate_kbps: Option<u32>,
    pub sample_rate: Option<u32>,
    pub bit_depth: Option<u32>,
    pub channels: Option<u32>,
    pub status: String,
    pub acoustid: Option<String>,
    pub musicbrainz_recording_id: Option<String>,
    pub musicbrainz_release_group_id: Option<String>,
    pub health_issue: Option<String>,
    pub file_hash: Option<String>,
    pub composer: Option<String>,
    pub label: Option<String>,
    pub comment: Option<String>,
    pub bpm: Option<u32>,
    pub compilation: Option<bool>,
}

/// The API's record of a track.
pub fn track_response(t: TrackInfo) -> (r: TrackResponse)
    ensures
        r.id == (match t.id { Some(i) => i, None => 0 }),
        r.file_path == t.file_path,
        r.title == t.title && r.artist == t.artist && r.album == t.album,
        r.album_artist == t.album_artist && r.genre == t.genre,
        r.track == t.track && r.track_total == t.track_total,
        r.disc == t.disc && r.disc_total == t.disc_total,
        r.release_year == t.release_year && r.isrc == t.isrc,
        r.file_format == t.file_format && r.file_size == t.file_size,
        r.duration_ms == t.duration && r.bitrate_kbps == t.bitrate,
        r.sample_rate == t.sample_rate && r.bit_depth == t.bit_depth && r.channels == t.channels,
        r.status == t.status && r.acoustid == t.acoustid,
        r.musicbrainz_recording_id == t.musicbrainz_recording_id,
        r.musicbrainz_release_group_id == t.musicbrainz_release_group_id,
        r.health_issue is None,
        r.file_hash == t.file_hash && r.composer == t.composer && r.label == t.label,
        r.comment == t.comment && r.bpm == t.bpm && r.compilation == t.compilation,
{
    TrackResponse {
        id: match t.id { Some(i) => i, None => 0 },
        file_path: t.file_path,
        title: t.title,
        artist: t.artist,
        album: t.album,
        album_artist: t.album_artist,
        genre: t.genre,
        track: t.track,
        track_total: t.track_total,
        disc: t.disc,
        disc_total: t.disc_total,
        release_year: t.release_year,
        isrc: t.isrc,
        file_format: t.file_format,
        file_size: t.file_size,
        duration_ms: t.duration,
        bitrate_kbps: t.bitrate,
        sample_rate: t.sample_rate,
        bit_depth: t.bit_depth,
        channels: t.channels,
        status: t.status,
        acoustid: t.acoustid,
        musicbrainz_recording_id: t.musicbrainz_recording_id,
        musicbrainz_release_group_id: t.musicbrainz_release_group_id,
        health_issue: None,
        file_hash: t.file_hash,
        composer: t.composer,
        label: t.label,
        comment: t.comment,
        bpm: t.bpm,
        compilation: t.compilation,
    }
}

} // verus!
