//! Tag values: number parsing as the standard library reads decimal text,
//! what reading a file's tags records, and what saving edited tags writes to
//! the file and to the database.
use vstd::prelude::*;
use crate::text::{
    all_digits, chars_of, decimal, decimal_chars, digit_value, digits_value, extend_chars,
    is_digit, spec_to_lowercase, string_of, to_lowercase, trim, trim_chars,
};
use crate::track::{TagEdits, TrackInfo, opt_text};

verus! {

/// The digits of an unsigned decimal: the text after an optional leading `+`.
pub open spec fn unsigned_body(s: Seq<char>) -> Seq<char> {
    if s.len() > 0 && s[0] == '+' { s.drop_first() } else { s }
}

/// The value `str::parse::<u32>` reads from `s`, or `None` when it fails:
/// an optional `+`, then at least one ASCII digit and nothing else, within range.
pub open spec fn parsed_u32(s: Seq<char>) -> Option<nat> {
    let d = unsigned_body(s);
    if d.len() > 0 && all_digits(d) && digits_value(d) <= u32::MAX {
        Some(digits_value(d))
    } else {
        None
    }
}

proof fn lemma_digits_value_push(s: Seq<char>, c: char)
    ensures
        digits_value(s.push(c)) == digits_value(s) * 10 + digit_value(c),
{
    assert(s.push(c).drop_last() =~= s);
}

/// Reads the decimal digits `d` (all ASCII digits), giving `None` when the
/// value exceeds `cap`.
fn digits_up_to(d: &Vec<char>, cap: u64) -> (res: Option<u64>)
    requires
        all_digits(d@),
        9 <= cap <= 0x8000_0000_0000_0000,
    ensures
        match res {
            Some(v) => v as nat == digits_value(d@) && v <= cap,
            None => digits_value(d@) > cap,
        },
{
    let mut acc: u64 = 0;
    let mut i: usize = 0;
    assert(d@.take(0) =~= Seq::<char>::empty());
    while i < d.len()
        invariant
            i <= d@.len(),
            all_digits(d@),
            9 <= cap <= 0x8000_0000_0000_0000,
            acc as nat == digits_value(d@.take(i as int)),
            acc <= cap,
        decreases d@.len() - i,
    {
        let c = d[i];
        assert(is_digit(d@[i as int]));
        let dv = (c as u32 - '0' as u32) as u64;
        proof {
            assert(d@.take(i + 1) =~= d@.take(i as int).push(c));
            lemma_digits_value_push(d@.take(i as int), c);
        }
        if acc > (cap - dv) / 10 {
            // acc * 10 + dv > cap, and the value only grows with more digits
            proof {
                lemma_digits_prefix_grows(d@, i + 1);
                assert(acc * 10 + dv > cap) by (nonlinear_arith)
                    requires acc > (cap - dv) / 10, dv <= 9, cap >= dv;
            }
            return None;
        }
        acc = acc * 10 + dv;
        i += 1;
    }
    assert(d@.take(d@.len() as int) =~= d@);
    Some(acc)
}

/// A longer run of digits never has a smaller value than its prefix.
proof fn lemma_digits_prefix_grows(s: Seq<char>, k: int)
    requires
        0 <= k <= s.len(),
        all_digits(s),
    ensures
        digits_value(s.take(k)) <= digits_value(s),
    decreases s.len() - k,
{
    if k < s.len() {
        lemma_digits_prefix_grows(s, k + 1);
        assert(s.take(k + 1) =~= s.take(k).push(s[k]));
        lemma_digits_value_push(s.take(k), s[k]);
    } else {
        assert(s.take(k) =~= s);
    }
}

fn is_all_digits(d: &Vec<char>) -> (res: bool)
    ensures
        res == all_digits(d@),
{
    let mut i: usize = 0;
    while i < d.len()
        invariant
            i <= d@.len(),
            forall|j: int| 0 <= j < i ==> is_digit(#[trigger] d@[j]),
        decreases d@.len() - i,
    {
        if !('0' <= d[i] && d[i] <= '9') {
            return false;
        }
        i += 1;
    }
    true
}

fn drop_first_char(s: &Vec<char>) -> (res: Vec<char>)
    requires
        s@.len() > 0,
    ensures
        res@ == s@.drop_first(),
{
    let mut out: Vec<char> = Vec::new();
    let mut k: usize = 1;
    while k < s.len()
        invariant
            1 <= k <= s@.len(),
            out@ == s@.subrange(1, k as int),
        decreases s@.len() - k,
    {
        out.push(s[k]);
        assert(s@.subrange(1, k + 1) =~= s@.subrange(1, k as int).push(s@[k as int]));
        k += 1;
    }
    assert(out@ =~= s@.drop_first());
    out
}

/// Parses a `u32` the way `str::parse::<u32>` does.
pub fn parse_u32(s: &str) -> (res: Option<u32>)
    ensures
        match parsed_u32(s@) {
            Some(v) => res == Some(v as u32),
            None => res is None,
        },
{
    let v = chars_of(s);
    let d = if v.len() > 0 && v[0] == '+' { drop_first_char(&v) } else { v };
    if d.len() == 0 || !is_all_digits(&d) {
        return None;
    }
    match digits_up_to(&d, 0xffff_ffff) {
        Some(x) => Some(x as u32),
        None => None,
    }
}

/// The trimmed text, or nothing when it is blank.
pub fn tag_text(raw: &str) -> (res: Option<String>)
    ensures
        match opt_text(raw@) {
            None => res is None,
            Some(t) => res matches Some(r) && r@ == t,
        },
{
    TagEdits::opt(raw)
}

/// A compilation flag is set by the text `1` or by `true` in any letter case.
pub open spec fn compilation_flag(text: Seq<char>) -> bool {
    text == "1"@ || spec_to_lowercase(text) == "true"@
}

/// Whether a compilation tag's text sets the flag.
pub fn is_compilation(text: &str) -> (res: bool)
    ensures
        res == compilation_flag(text@),
{
    proof {
        reveal_strlit("1");
        reveal_strlit("true");
    }
    let v = chars_of(text);
    let one = chars_of("1");
    if crate::text::chars_eq(&v, &one) {
        return true;
    }
    let l = to_lowercase(text);
    let lv = chars_of(l.as_str());
    let t = chars_of("true");
    crate::text::chars_eq(&lv, &t)
}

/// The values joined by `"; "`, or nothing when there are none.
pub open spec fn joined_values(values: Seq<Seq<char>>) -> Option<Seq<char>> {
    if values.len() == 0 { None } else { Some(crate::app::join(values, "; "@)) }
}

/// Joins several values of one tag (or several artist names) with `"; "`;
/// `None` when there are none.
pub fn join_values(values: &Vec<String>) -> (res: Option<String>)
    ensures
        match joined_values(values@.map_values(|s: String| s@)) {
            None => res is None,
            Some(t) => res matches Some(r) && r@ == t,
        },
{
    proof { reveal_strlit("; "); }
    let ghost vs = values@.map_values(|s: String| s@);
    if values.len() == 0 {
        return None;
    }
    let mut out: Vec<char> = Vec::new();
    let sep = chars_of("; ");
    let mut i: usize = 0;
    while i < values.len()
        invariant
            i <= values@.len(),
            vs == values@.map_values(|s: String| s@),
            sep@ == "; "@,
            out@ == crate::app::join(vs.take(i as int), "; "@),
        decreases values@.len() - i,
    {
        if i > 0 {
            extend_chars(&mut out, &sep);
        }
        let c = chars_of(values[i].as_str());
        extend_chars(&mut out, &c);
        proof {
            let t = vs.take(i + 1);
            assert(t.drop_last() =~= vs.take(i as int));
            if i == 0 {
                assert(out@ =~= t[0]);
            } else {
                assert(out@ =~= crate::app::join(t.drop_last(), "; "@) + "; "@ + t.last());
            }
        }
        i += 1;
    }
    assert(vs.take(values@.len() as int) =~= vs);
    Some(string_of(&out))
}

/// The audio container kinds the tag reader distinguishes.
#[derive(Clone, Copy, PartialEq, Eq, Structural, Debug)]
pub enum AudioKind {
    Aac,
    Aiff,
    Ape,
    Flac,
    Mpeg,
    Mp4,
    Mpc,
    Opus,
    Vorbis,
    Speex,
    Wav,
    WavPack,
    Other,
}

/// The format name stored for a file of the given kind.
pub open spec fn format_name(k: AudioKind) -> Seq<char> {
    match k {
        AudioKind::Aac => "AAC"@,
        AudioKind::Aiff => "AIFF"@,
        AudioKind::Ape => "APE"@,
        AudioKind::Flac => "FLAC"@,
        AudioKind::Mpeg => "MP3"@,
        AudioKind::Mp4 => "MP4"@,
        AudioKind::Mpc => "MPC"@,
        AudioKind::Opus => "OPUS"@,
        AudioKind::Vorbis => "OGG"@,
        AudioKind::Speex => "SPEEX"@,
        AudioKind::Wav => "WAV"@,
        AudioKind::WavPack => "WAVPACK"@,
        AudioKind::Other => "UNKNOWN"@,
    }
}

/// The format name stored for a file of the given kind.
pub fn file_format_name(k: AudioKind) -> (res: String)
    ensures
        res@ == format_name(k),
{
    let lit: &str = match k {
        AudioKind::Aac => "AAC",
        AudioKind::Aiff => "AIFF",
        AudioKind::Ape => "APE",
        AudioKind::Flac => "FLAC",
        AudioKind::Mpeg => "MP3",
        AudioKind::Mp4 => "MP4",
        AudioKind::Mpc => "MPC",
        AudioKind::Opus => "OPUS",
        AudioKind::Vorbis => "OGG",
        AudioKind::Speex => "SPEEX",
        AudioKind::Wav => "WAV",
        AudioKind::WavPack => "WAVPACK",
        AudioKind::Other => "UNKNOWN",
    };
    let c = chars_of(lit);
    string_of(&c)
}

/// The tags the editor writes into a file.
#[derive(Clone, Copy, PartialEq, Eq, Structural, Debug)]
pub enum TagKey {
    Title,
    Artist,
    Album,
    AlbumArtist,
    Genre,
    Comment,
    TrackNumber,
    DiscNumber,
    Year,
}

/// One change to a file's tag.
pub enum TagWrite {
    /// Store this text under the key.
    Store(TagKey, String),
    /// Remove the key.
    Remove(TagKey),
}

/// The change as texts.
pub enum TagChange {
    Store(TagKey, Seq<char>),
    Remove(TagKey),
}

/// The change a text field makes: blank removes the tag, otherwise the trimmed text is stored.
pub open spec fn text_change(key: TagKey, raw: Seq<char>) -> Seq<TagChange> {
    if trim(raw).len() == 0 { seq![TagChange::Remove(key)] } else { seq![TagChange::Store(key, trim(raw))] }
}

/// The change a numeric field makes: a number is stored in plain decimal,
/// blank removes the tag, anything else leaves the tag alone.
pub open spec fn number_change(key: TagKey, raw: Seq<char>) -> Seq<TagChange> {
    let t = trim(raw);
    match parsed_u32(t) {
        Some(n) => seq![TagChange::Store(key, decimal(n))],
        None => if t.len() == 0 { seq![TagChange::Remove(key)] } else { Seq::empty() },
    }
}

/// Every change saving the edits makes, in field order.
pub open spec fn tag_changes(e: TagEdits) -> Seq<TagChange> {
    text_change(TagKey::Title, e.title@) + text_change(TagKey::Artist, e.artist@)
        + text_change(TagKey::Album, e.album@) + text_change(TagKey::AlbumArtist, e.album_artist@)
        + text_change(TagKey::Genre, e.genre@) + text_change(TagKey::Comment, e.comment@)
        + number_change(TagKey::TrackNumber, e.track@) + number_change(TagKey::DiscNumber, e.disc@)
        + number_change(TagKey::Year, e.year@)
}

/// The change as texts.
pub open spec fn change_of(w: TagWrite) -> TagChange {
    match w {
        TagWrite::Store(k, v) => TagChange::Store(k, v@),
        TagWrite::Remove(k) => TagChange::Remove(k),
    }
}

fn push_text_change(out: &mut Vec<TagWrite>, key: TagKey, raw: &String)
    ensures
        final(out)@.map_values(|w: TagWrite| change_of(w)) == old(out)@.map_values(|w: TagWrite| change_of(w))
            + text_change(key, raw@),
{
    let v = chars_of(raw.as_str());
    let t = trim_chars(&v);
    let ghost before = old(out)@.map_values(|w: TagWrite| change_of(w));
    if t.len() == 0 {
        out.push(TagWrite::Remove(key));
    } else {
        out.push(TagWrite::Store(key, string_of(&t)));
    }
    assert(out@.map_values(|w: TagWrite| change_of(w)) =~= before + text_change(key, raw@));
}

fn push_number_change(out: &mut Vec<TagWrite>, key: TagKey, raw: &String)
    ensures
        final(out)@.map_values(|w: TagWrite| change_of(w)) == old(out)@.map_values(|w: TagWrite| change_of(w))
            + number_change(key, raw@),
{
    let v = chars_of(raw.as_str());
    let t = trim_chars(&v);
    let ts = string_of(&t);
    let ghost before = old(out)@.map_values(|w: TagWrite| change_of(w));
    match parse_u32(ts.as_str()) {
        Some(n) => {
            let d = decimal_chars(n as u64);
            out.push(TagWrite::Store(key, string_of(&d)));
        },
        None => {
            if t.len() == 0 {
                out.push(TagWrite::Remove(key));
            }
        },
    }
    assert(out@.map_values(|w: TagWrite| change_of(w)) =~= before + number_change(key, raw@));
}

/// What saving the editor's fields writes into the audio file: text fields are
/// trimmed and stored, or removed when blank; numeric fields are stored as
/// plain decimal when they parse, removed when blank, and otherwise ignored.
pub fn plan_tag_writes(e: &TagEdits) -> (res: Vec<TagWrite>)
    ensures
        res@.map_values(|w: TagWrite| change_of(w)) == tag_changes(*e),
{
    let mut out: Vec<TagWrite> = Vec::new();
    assert(out@.map_values(|w: TagWrite| change_of(w)) =~= Seq::<TagChange>::empty());
    push_text_change(&mut out, TagKey::Title, &e.title);
    push_text_change(&mut out, TagKey::Artist, &e.artist);
    push_text_change(&mut out, TagKey::Album, &e.album);
    push_text_change(&mut out, TagKey::AlbumArtist, &e.album_artist);
    push_text_change(&mut out, TagKey::Genre, &e.genre);
    push_text_change(&mut out, TagKey::Comment, &e.comment);
    push_number_change(&mut out, TagKey::TrackNumber, &e.track);
    push_number_change(&mut out, TagKey::DiscNumber, &e.disc);
    push_number_change(&mut out, TagKey::Year, &e.year);
    assert(tag_changes(*e) =~= Seq::<TagChange>::empty() + text_change(TagKey::Title, e.title@)
        + text_change(TagKey::Artist, e.artist@) + text_change(TagKey::Album, e.album@)
        + text_change(TagKey::AlbumArtist, e.album_artist@) + text_change(TagKey::Genre, e.genre@)
        + text_change(TagKey::Comment, e.comment@) + number_change(TagKey::TrackNumber, e.track@)
        + number_change(TagKey::DiscNumber, e.disc@) + number_change(TagKey::Year, e.year@));
    out
}

/// The database columns saving the editor's fields sets (the status becomes
/// `manual_review` as well).
pub struct TagColumns {
    pub title: Option<String>,
    pub artist: Option<String>,
    pub album: Option<String>,
    pub album_artist: Option<String>,
    pub genre: Option<String>,
    pub comment: Option<String>,
    pub track: NumberColumn,
    pub disc: NumberColumn,
    pub year: NumberColumn,
}

/// What saving does to a numeric column, mirroring what it does to the file's
/// tag: a number is stored, a blank field clears the column, and anything else
/// leaves the column as it is (as the tag is left alone).
#[derive(Clone, Copy, PartialEq, Eq, Structural, Debug)]
pub enum NumberColumn {
    Store(u32),
    Clear,
    Keep,
}

/// The column change of a numeric editor field.
pub open spec fn number_column(raw: Seq<char>) -> NumberColumn {
    let t = trim(raw);
    match parsed_u32(t) {
        Some(n) => NumberColumn::Store(n as u32),
        None => if t.len() == 0 { NumberColumn::Clear } else { NumberColumn::Keep },
    }
}

/// The text of an optional string.
pub open spec fn opt_view(o: Option<String>) -> Option<Seq<char>> {
    match o {
        Some(s) => Some(s@),
        None => None,
    }
}

/// The database values of the editor's fields: blank texts become NULL;
/// numbers change as the file's tags do (stored, cleared when blank, kept
/// when the text is not a number).
pub fn tag_edit_columns(e: &TagEdits) -> (res: TagColumns)
    ensures
        opt_view(res.title) == opt_text(e.title@),
        opt_view(res.artist) == opt_text(e.artist@),
        opt_view(res.album) == opt_text(e.album@),
        opt_view(res.album_artist) == opt_text(e.album_artist@),
        opt_view(res.genre) == opt_text(e.genre@),
        opt_view(res.comment) == opt_text(e.comment@),
        res.track == number_column(e.track@),
        res.disc == number_column(e.disc@),
        res.year == number_column(e.year@),
{
    TagColumns {
        title: TagEdits::opt(e.title.as_str()),
        artist: TagEdits::opt(e.artist.as_str()),
        album: TagEdits::opt(e.album.as_str()),
        album_artist: TagEdits::opt(e.album_artist.as_str()),
        genre: TagEdits::opt(e.genre.as_str()),
        comment: TagEdits::opt(e.comment.as_str()),
        track: number_column_of(&e.track),
        disc: number_column_of(&e.disc),
        year: number_column_of(&e.year),
    }
}

fn number_column_of(s: &String) -> (res: NumberColumn)
    ensures
        res == number_column(s@),
{
    let v = chars_of(s.as_str());
    let t = trim_chars(&v);
    let ts = string_of(&t);
    match parse_u32(ts.as_str()) {
        Some(n) => NumberColumn::Store(n),
        None => if t.len() == 0 { NumberColumn::Clear } else { NumberColumn::Keep },
    }
}

/// What a tag reader found in one file, as plain values: the common fields
/// as the tag gives them, the first text of each other key (untrimmed), every
/// album-artist value, the container kind and the audio properties.
pub struct RawTags {
    pub title: Option<String>,
    pub artist: Option<String>,
    pub album: Option<String>,
    pub genre: Option<String>,
    pub comment: Option<String>,
    pub track: Option<u32>,
    pub track_total: Option<u32>,
    pub disc: Option<u32>,
    pub disc_total: Option<u32>,
    pub year: Option<u32>,
    pub album_artist: Option<String>,
    pub album_artists: Vec<String>,
    pub composer: Option<String>,
    pub label: Option<String>,
    pub lyrics: Option<String>,
    pub recording_date: Option<String>,
    pub original_release_date: Option<String>,
    pub compilation: Option<String>,
    pub isrc: Option<String>,
    pub barcode: Option<String>,
    pub catalog_number: Option<String>,
    pub bpm: Option<String>,
    pub language: Option<String>,
    pub script: Option<String>,
    pub mood: Option<String>,
    pub replay_gain_track_gain: Option<String>,
    pub replay_gain_track_peak: Option<String>,
    pub replay_gain_album_gain: Option<String>,
    pub replay_gain_album_peak: Option<String>,
    pub musicbrainz_recording_id: Option<String>,
    pub musicbrainz_track_id: Option<String>,
    pub musicbrainz_release_id: Option<String>,
    pub musicbrainz_release_group_id: Option<String>,
    pub musicbrainz_artist_id: Option<String>,
    pub musicbrainz_release_artist_id: Option<String>,
    pub musicbrainz_work_id: Option<String>,
    pub kind: AudioKind,
    /// The file's size in bytes, when its metadata could be read.
    pub file_size: Option<u64>,
    pub duration_millis: u128,
    pub bitrate: Option<u32>,
    pub sample_rate: Option<u32>,
    pub bit_depth: Option<u8>,
    pub channels: Option<u8>,
}

/// The text of a tag value: trimmed, and absent when blank.
pub open spec fn tag_value(o: Option<String>) -> Option<Seq<char>> {
    match o {
        Some(s) => opt_text(s@),
        None => None,
    }
}

fn key_text(o: &Option<String>) -> (res: Option<String>)
    ensures
        opt_view(res) == tag_value(*o),
{
    match o {
        Some(s) => TagEdits::opt(s.as_str()),
        None => None,
    }
}

fn same_text(o: &Option<String>) -> (res: Option<String>)
    ensures
        opt_view(res) == opt_view(*o),
{
    match o {
        Some(s) => Some(s.clone()),
        None => None,
    }
}

/// The record stored for a freshly read file: the common fields as the tag
/// gives them; the other keys trimmed, blank ones absent; every album-artist
/// value joined by `; `; the compilation flag read from its text; the BPM
/// parsed as a number; the format named by the container kind; the status
/// `pending`; nothing enriched or hashed yet.
pub fn track_info_from(file_path: String, raw: &RawTags) -> (t: TrackInfo)
    ensures
        t.id is None,
        t.file_path == file_path,
        opt_view(t.title) == opt_view(raw.title) && opt_view(t.artist) == opt_view(raw.artist),
        opt_view(t.album) == opt_view(raw.album) && opt_view(t.genre) == opt_view(raw.genre),
        opt_view(t.comment) == opt_view(raw.comment),
        t.track == raw.track && t.track_total == raw.track_total,
        t.disc == raw.disc && t.disc_total == raw.disc_total && t.release_year == raw.year,
        opt_view(t.album_artist) == tag_value(raw.album_artist),
        opt_view(t.album_artists) == joined_values(raw.album_artists@.map_values(|s: String| s@)),
        opt_view(t.composer) == tag_value(raw.composer) && opt_view(t.label) == tag_value(raw.label),
        opt_view(t.lyrics) == tag_value(raw.lyrics),
        opt_view(t.recording_date) == tag_value(raw.recording_date),
        opt_view(t.original_release_date) == tag_value(raw.original_release_date),
        t.release_type is None,
        t.compilation == (match raw.compilation {
            Some(c) => Some(compilation_flag(c@)),
            None => None,
        }),
        opt_view(t.isrc) == tag_value(raw.isrc) && opt_view(t.barcode) == tag_value(raw.barcode),
        opt_view(t.catalog_number) == tag_value(raw.catalog_number),
        t.bpm == (match raw.bpm {
            Some(b) => match parsed_u32(b@) {
                Some(v) => Some(v as u32),
                None => None,
            },
            None => None,
        }),
        opt_view(t.language) == tag_value(raw.language) && opt_view(t.script) == tag_value(raw.script),
        opt_view(t.mood) == tag_value(raw.mood),
        opt_view(t.replay_gain_track_gain) == tag_value(raw.replay_gain_track_gain),
        opt_view(t.replay_gain_track_peak) == tag_value(raw.replay_gain_track_peak),
        opt_view(t.replay_gain_album_gain) == tag_value(raw.replay_gain_album_gain),
        opt_view(t.replay_gain_album_peak) == tag_value(raw.replay_gain_album_peak),
        opt_view(t.file_format) == Some(format_name(raw.kind)),
        t.file_size == (match raw.file_size {
            Some(n) => Some(n as i64),
            None => None,
        }),
        t.duration == Some(raw.duration_millis as u32),
        t.bitrate == raw.bitrate && t.sample_rate == raw.sample_rate,
        t.bit_depth == (match raw.bit_depth {
            Some(b) => Some(b as u32),
            None => None,
        }),
        t.channels == (match raw.channels {
            Some(c) => Some(c as u32),
            None => None,
        }),
        t.acoustid is None,
        opt_view(t.musicbrainz_recording_id) == tag_value(raw.musicbrainz_recording_id),
        opt_view(t.musicbrainz_track_id) == tag_value(raw.musicbrainz_track_id),
        opt_view(t.musicbrainz_release_id) == tag_value(raw.musicbrainz_release_id),
        opt_view(t.musicbrainz_release_group_id) == tag_value(raw.musicbrainz_release_group_id),
        opt_view(t.musicbrainz_artist_id) == tag_value(raw.musicbrainz_artist_id),
        opt_view(t.musicbrainz_release_artist_id) == tag_value(raw.musicbrainz_release_artist_id),
        opt_view(t.musicbrainz_work_id) == tag_value(raw.musicbrainz_work_id),
        t.status@ == "pending"@,
        t.file_hash is None,
{
    let compilation = match &raw.compilation {
        Some(c) => Some(is_compilation(c.as_str())),
        None => None,
    };
    let bpm = match &raw.bpm {
        Some(b) => parse_u32(b.as_str()),
        None => None,
    };
    let status = chars_of("pending");
    TrackInfo {
        id: None,
        file_path,
        title: same_text(&raw.title),
        artist: same_text(&raw.artist),
        album: same_text(&raw.album),
        album_artist: key_text(&raw.album_artist),
        album_artists: join_values(&raw.album_artists),
        composer: key_text(&raw.composer),
        label: key_text(&raw.label),
        genre: same_text(&raw.genre),
        comment: same_text(&raw.comment),
        lyrics: key_text(&raw.lyrics),
        track: raw.track,
        track_total: raw.track_total,
        disc: raw.disc,
        disc_total: raw.disc_total,
        release_year: raw.year,
        recording_date: key_text(&raw.recording_date),
        original_release_date: key_text(&raw.original_release_date),
        release_type: None,
        compilation,
        isrc: key_text(&raw.isrc),
        barcode: key_text(&raw.barcode),
        catalog_number: key_text(&raw.catalog_number),
        bpm,
        language: key_text(&raw.language),
        script: key_text(&raw.script),
        mood: key_text(&raw.mood),
        replay_gain_track_gain: key_text(&raw.replay_gain_track_gain),
        replay_gain_track_peak: key_text(&raw.replay_gain_track_peak),
        replay_gain_album_gain: key_text(&raw.replay_gain_album_gain),
        replay_gain_album_peak: key_text(&raw.replay_gain_album_peak),
        file_format: Some(file_format_name(raw.kind)),
        file_size: match raw.file_size {
            Some(n) => Some(n as i64),
            None => None,
        },
        duration: Some(raw.duration_millis as u32),
        bitrate: raw.bitrate,
        sample_rate: raw.sample_rate,
        bit_depth: match raw.bit_depth {
            Some(b) => Some(b as u32),
            None => None,
        },
        channels: match raw.channels {
            Some(c) => Some(c as u32),
            None => None,
        },
        acoustid: None,
        musicbrainz_recording_id: key_text(&raw.musicbrainz_recording_id),
        musicbrainz_track_id: key_text(&raw.musicbrainz_track_id),
        musicbrainz_release_id: key_text(&raw.musicbrainz_release_id),
        musicbrainz_release_group_id: key_text(&raw.musicbrainz_release_group_id),
        musicbrainz_artist_id: key_text(&raw.musicbrainz_artist_id),
        musicbrainz_release_artist_id: key_text(&raw.musicbrainz_release_artist_id),
        musicbrainz_work_id: key_text(&raw.musicbrainz_work_id),
        status: string_of(&status),
        file_hash: None,
    }
}

} // verus!
