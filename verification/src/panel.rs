//! The lines of the properties panel: the label and the value text of
//! every field of a track record, in the order the panel shows them.
use vstd::prelude::*;
use crate::formatters::{decimal_size, duration_text, format_track_duration, spec_decimal_size};
use crate::text::{chars_of, decimal, decimal_chars, string_of};
use crate::track::TrackInfo;

verus! {

/// One line of the properties panel.
pub struct PanelLine {
    pub label: &'static str,
    pub value: String,
}

/// The text of an optional tag (empty when absent).
pub open spec fn or_empty(o: Option<String>) -> Seq<char> {
    match o {
        Some(s) => s@,
        None => Seq::empty(),
    }
}

/// Decimal text of an optional number (empty when absent).
pub open spec fn num_text(o: Option<u32>) -> Seq<char> {
    match o {
        Some(v) => decimal(v as nat),
        None => Seq::empty(),
    }
}

/// `Yes`/`No` for a set flag (empty when unknown).
pub open spec fn flag_text(o: Option<bool>) -> Seq<char> {
    match o {
        Some(true) => "Yes"@,
        Some(false) => "No"@,
        None => Seq::empty(),
    }
}

/// Human-readable size of an optional byte count, read as unsigned (empty when unknown).
pub open spec fn size_text(o: Option<i64>) -> Seq<char> {
    match o {
        Some(v) => spec_decimal_size(v as u64),
        None => Seq::empty(),
    }
}

/// `m:ss` of an optional duration in milliseconds (empty when unknown).
pub open spec fn duration_value(o: Option<u32>) -> Seq<char> {
    match o {
        Some(ms) => duration_text(ms as nat),
        None => Seq::empty(),
    }
}

/// A line as texts.
pub open spec fn line_view(l: PanelLine) -> (Seq<char>, Seq<char>) {
    (l.label@, l.value@)
}

/// The lines as texts.
pub open spec fn lines_view(v: Seq<PanelLine>) -> Seq<(Seq<char>, Seq<char>)> {
    v.map_values(|l: PanelLine| line_view(l))
}

fn text_value(o: &Option<String>) -> (res: String)
    ensures
        res@ == or_empty(*o),
{
    match o {
        Some(s) => s.clone(),
        None => String::new(),
    }
}

fn num_value(o: Option<u32>) -> (res: String)
    ensures
        res@ == num_text(o),
{
    match o {
        Some(v) => {
            let d = decimal_chars(v as u64);
            string_of(&d)
        },
        None => String::new(),
    }
}

fn flag_value(o: Option<bool>) -> (res: String)
    ensures
        res@ == flag_text(o),
{
    match o {
        Some(true) => {
            let c = chars_of("Yes");
            string_of(&c)
        },
        Some(false) => {
            let c = chars_of("No");
            string_of(&c)
        },
        None => String::new(),
    }
}

fn size_value(o: Option<i64>) -> (res: String)
    ensures
        res@ == size_text(o),
{
    match o {
        Some(v) => decimal_size(v as u64),
        None => String::new(),
    }
}

fn dur_value(o: Option<u32>) -> (res: String)
    ensures
        res@ == duration_value(o),
{
    match format_track_duration(o) {
        Some(s) => s,
        None => String::new(),
    }
}

fn push_line(out: &mut Vec<PanelLine>, label: &'static str, value: String)
    ensures
        lines_view(final(out)@) == lines_view(old(out)@).push((label@, value@)),
{
    let ghost before = out@;
    out.push(PanelLine { label, value });
    assert(lines_view(out@) =~= lines_view(before).push((label@, value@)));
}

/// The tag lines.
pub open spec fn panel_tags(t: TrackInfo) -> Seq<(Seq<char>, Seq<char>)> {
    seq![
        ("Title"@, or_empty(t.title)),
        ("Artist"@, or_empty(t.artist)),
        ("Album"@, or_empty(t.album)),
        ("Album Artist"@, or_empty(t.album_artist)),
        ("Album Artists"@, or_empty(t.album_artists)),
        ("Composer"@, or_empty(t.composer)),
        ("Label"@, or_empty(t.label)),
        ("Genre"@, or_empty(t.genre)),
        ("Comment"@, or_empty(t.comment)),
        ("Lyrics"@, or_empty(t.lyrics)),
    ]
}

fn push_tags(out: &mut Vec<PanelLine>, t: &TrackInfo)
    ensures
        lines_view(final(out)@) == lines_view(old(out)@) + panel_tags(*t),
{
    proof {
        reveal_strlit("Title");
        reveal_strlit("Artist");
        reveal_strlit("Album");
        reveal_strlit("Album Artist");
        reveal_strlit("Album Artists");
        reveal_strlit("Composer");
        reveal_strlit("Label");
        reveal_strlit("Genre");
        reveal_strlit("Comment");
        reveal_strlit("Lyrics");
    }
    let ghost before = lines_view(out@);
    push_line(out, "Title", text_value(&t.title));
    push_line(out, "Artist", text_value(&t.artist));
    push_line(out, "Album", text_value(&t.album));
    push_line(out, "Album Artist", text_value(&t.album_artist));
    push_line(out, "Album Artists", text_value(&t.album_artists));
    push_line(out, "Composer", text_value(&t.composer));
    push_line(out, "Label", text_value(&t.label));
    push_line(out, "Genre", text_value(&t.genre));
    push_line(out, "Comment", text_value(&t.comment));
    push_line(out, "Lyrics", text_value(&t.lyrics));
    assert(lines_view(out@) =~= before + panel_tags(*t));
}

/// The numbering, date and release lines.
pub open spec fn panel_numbering(t: TrackInfo) -> Seq<(Seq<char>, Seq<char>)> {
    seq![
        ("Track"@, num_text(t.track)),
        ("Track Total"@, num_text(t.track_total)),
        ("Disc"@, num_text(t.disc)),
        ("Disc Total"@, num_text(t.disc_total)),
        ("Release Year"@, num_text(t.release_year)),
        ("Recording Date"@, or_empty(t.recording_date)),
        ("Original Release Date"@, or_empty(t.original_release_date)),
        ("Release Type"@, or_empty(t.release_type)),
        ("Compilation"@, flag_text(t.compilation)),
    ]
}

fn push_numbering(out: &mut Vec<PanelLine>, t: &TrackInfo)
    ensures
        lines_view(final(out)@) == lines_view(old(out)@) + panel_numbering(*t),
{
    proof {
        reveal_strlit("Track");
        reveal_strlit("Track Total");
        reveal_strlit("Disc");
        reveal_strlit("Disc Total");
        reveal_strlit("Release Year");
        reveal_strlit("Recording Date");
        reveal_strlit("Original Release Date");
        reveal_strlit("Release Type");
        reveal_strlit("Compilation");
    }
    let ghost before = lines_view(out@);
    push_line(out, "Track", num_value(t.track));
    push_line(out, "Track Total", num_value(t.track_total));
    push_line(out, "Disc", num_value(t.disc));
    push_line(out, "Disc Total", num_value(t.disc_total));
    push_line(out, "Release Year", num_value(t.release_year));
    push_line(out, "Recording Date", text_value(&t.recording_date));
    push_line(out, "Original Release Date", text_value(&t.original_release_date));
    push_line(out, "Release Type", text_value(&t.release_type));
    push_line(out, "Compilation", flag_value(t.compilation));
    assert(lines_view(out@) =~= before + panel_numbering(*t));
}

/// The identifier, catalogue and ReplayGain lines.
pub open spec fn panel_catalog(t: TrackInfo) -> Seq<(Seq<char>, Seq<char>)> {
    seq![
        ("ISRC"@, or_empty(t.isrc)),
        ("Barcode"@, or_empty(t.barcode)),
        ("Catalog Number"@, or_empty(t.catalog_number)),
        ("BPM"@, num_text(t.bpm)),
        ("Language"@, or_empty(t.language)),
        ("Script"@, or_empty(t.script)),
        ("Mood"@, or_empty(t.mood)),
        ("RG Track Gain"@, or_empty(t.replay_gain_track_gain)),
        ("RG Track Peak"@, or_empty(t.replay_gain_track_peak)),
        ("RG Album Gain"@, or_empty(t.replay_gain_album_gain)),
        ("RG Album Peak"@, or_empty(t.replay_gain_album_peak)),
    ]
}

fn push_catalog(out: &mut Vec<PanelLine>, t: &TrackInfo)
    ensures
        lines_view(final(out)@) == lines_view(old(out)@) + panel_catalog(*t),
{
    proof {
        reveal_strlit("ISRC");
        reveal_strlit("Barcode");
        reveal_strlit("Catalog Number");
        reveal_strlit("BPM");
        reveal_strlit("Language");
        reveal_strlit("Script");
        reveal_strlit("Mood");
        reveal_strlit("RG Track Gain");
        reveal_strlit("RG Track Peak");
        reveal_strlit("RG Album Gain");
        reveal_strlit("RG Album Peak");
    }
    let ghost before = lines_view(out@);
    push_line(out, "ISRC", text_value(&t.isrc));
    push_line(out, "Barcode", text_value(&t.barcode));
    push_line(out, "Catalog Number", text_value(&t.catalog_number));
    push_line(out, "BPM", num_value(t.bpm));
    push_line(out, "Language", text_value(&t.language));
    push_line(out, "Script", text_value(&t.script));
    push_line(out, "Mood", text_value(&t.mood));
    push_line(out, "RG Track Gain", text_value(&t.replay_gain_track_gain));
    push_line(out, "RG Track Peak", text_value(&t.replay_gain_track_peak));
    push_line(out, "RG Album Gain", text_value(&t.replay_gain_album_gain));
    push_line(out, "RG Album Peak", text_value(&t.replay_gain_album_peak));
    assert(lines_view(out@) =~= before + panel_catalog(*t));
}

/// The technical lines.
pub open spec fn panel_technical(t: TrackInfo) -> Seq<(Seq<char>, Seq<char>)> {
    seq![
        ("File Format"@, or_empty(t.file_format)),
        ("File Size"@, size_text(t.file_size)),
        ("Duration"@, duration_value(t.duration)),
        ("Bitrate"@, num_text(t.bitrate)),
        ("Sample Rate"@, num_text(t.sample_rate)),
        ("Bit Depth"@, num_text(t.bit_depth)),
        ("Channels"@, num_text(t.channels)),
    ]
}

fn push_technical(out: &mut Vec<PanelLine>, t: &TrackInfo)
    ensures
        lines_view(final(out)@) == lines_view(old(out)@) + panel_technical(*t),
{
    proof {
        reveal_strlit("File Format");
        reveal_strlit("File Size");
        reveal_strlit("Duration");
        reveal_strlit("Bitrate");
        reveal_strlit("Sample Rate");
        reveal_strlit("Bit Depth");
        reveal_strlit("Channels");
    }
    let ghost before = lines_view(out@);
    push_line(out, "File Format", text_value(&t.file_format));
    push_line(out, "File Size", size_value(t.file_size));
    push_line(out, "Duration", dur_value(t.duration));
    push_line(out, "Bitrate", num_value(t.bitrate));
    push_line(out, "Sample Rate", num_value(t.sample_rate));
    push_line(out, "Bit Depth", num_value(t.bit_depth));
    push_line(out, "Channels", num_value(t.channels));
    assert(lines_view(out@) =~= before + panel_technical(*t));
}

/// The external-id, status, hash and path lines.
pub open spec fn panel_ids(t: TrackInfo) -> Seq<(Seq<char>, Seq<char>)> {
    seq![
        ("AcoustID"@, or_empty(t.acoustid)),
        ("MB Recording ID"@, or_empty(t.musicbrainz_recording_id)),
        ("MB Track ID"@, or_empty(t.musicbrainz_track_id)),
        ("MB Release ID"@, or_empty(t.musicbrainz_release_id)),
        ("MB Release Group ID"@, or_empty(t.musicbrainz_release_group_id)),
        ("MB Artist ID"@, or_empty(t.musicbrainz_artist_id)),
        ("MB Release Artist ID"@, or_empty(t.musicbrainz_release_artist_id)),
        ("MB Work ID"@, or_empty(t.musicbrainz_work_id)),
        ("Status"@, t.status@),
        ("File Hash"@, or_empty(t.file_hash)),
        ("File Path"@, t.file_path@),
    ]
}

fn push_ids(out: &mut Vec<PanelLine>, t: &TrackInfo)
    ensures
        lines_view(final(out)@) == lines_view(old(out)@) + panel_ids(*t),
{
    proof {
        reveal_strlit("AcoustID");
        reveal_strlit("MB Recording ID");
        reveal_strlit("MB Track ID");
        reveal_strlit("MB Release ID");
        reveal_strlit("MB Release Group ID");
        reveal_strlit("MB Artist ID");
        reveal_strlit("MB Release Artist ID");
        reveal_strlit("MB Work ID");
        reveal_strlit("Status");
        reveal_strlit("File Hash");
        reveal_strlit("File Path");
    }
    let ghost before = lines_view(out@);
    push_line(out, "AcoustID", text_value(&t.acoustid));
    push_line(out, "MB Recording ID", text_value(&t.musicbrainz_recording_id));
    push_line(out, "MB Track ID", text_value(&t.musicbrainz_track_id));
    push_line(out, "MB Release ID", text_value(&t.musicbrainz_release_id));
    push_line(out, "MB Release Group ID", text_value(&t.musicbrainz_release_group_id));
    push_line(out, "MB Artist ID", text_value(&t.musicbrainz_artist_id));
    push_line(out, "MB Release Artist ID", text_value(&t.musicbrainz_release_artist_id));
    push_line(out, "MB Work ID", text_value(&t.musicbrainz_work_id));
    push_line(out, "Status", t.status.clone());
    push_line(out, "File Hash", text_value(&t.file_hash));
    push_line(out, "File Path", t.file_path.clone());
    assert(lines_view(out@) =~= before + panel_ids(*t));
}

/// Every line of the panel, in order.
pub open spec fn panel_lines(t: TrackInfo) -> Seq<(Seq<char>, Seq<char>)> {
    panel_tags(t) + panel_numbering(t) + panel_catalog(t) + panel_technical(t) + panel_ids(t)
}

/// The lines of the properties panel for a track: each field's label and
/// its value text (empty when the field is unset).
pub fn panel_lines_of(t: &TrackInfo) -> (res: Vec<PanelLine>)
    ensures
        lines_view(res@) == panel_lines(*t),
{
    let mut out: Vec<PanelLine> = Vec::new();
    assert(lines_view(out@) =~= Seq::<(Seq<char>, Seq<char>)>::empty());
    push_tags(&mut out, t);
    push_numbering(&mut out, t);
    push_catalog(&mut out, t);
    push_technical(&mut out, t);
    push_ids(&mut out, t);
    assert(lines_view(out@) =~= panel_lines(*t));
    out
}

/// The largest useful scroll offset of a panel `height` lines high holding
/// `lines` lines (the count taken modulo 2^16, as a `u16` holds it).
pub open spec fn max_scroll(lines: usize, height: u16) -> int {
    let total = lines as int % 65536;
    if total > height { total - height } else { 0 }
}

/// The scroll offset actually used: the requested one, but never past the
/// point where the last line reaches the bottom of the panel.
pub fn panel_scroll(requested: u16, lines: usize, height: u16) -> (res: u16)
    ensures
        res as int == (if (requested as int) < max_scroll(lines, height) { requested as int } else { max_scroll(lines, height) }),
{
    let total: u16 = (lines % 65536) as u16;
    let max: u16 = if total > height { total - height } else { 0 };
    if requested < max { requested } else { max }
}

} // verus!
