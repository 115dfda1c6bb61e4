//! Exports of the current view: file names, the M3U playlist text, and the
//! rows of the duplicate report. Writing the files is left to the caller.
use vstd::prelude::*;
use crate::text::{
    chars_of, decimal, decimal_chars, extend_chars, is_alphanumeric, signed_decimal, signed_decimal_chars,
    spec_is_alphanumeric, spec_to_lowercase, string_of, to_lowercase,
};
use crate::track::{DuplicateGroupSummary, DuplicateKind, TrackSummary};

verus! {

/// Seconds since the Unix epoch, as the system clock reads them now (0 when the
/// clock is before the epoch).
#[verifier::external_body]
fn stamp() -> (res: u64) {
    std::time::SystemTime::now()
        .duration_since(std::time::UNIX_EPOCH)
        .map(|d| d.as_secs())
        .unwrap_or(0)
}

/// The tab name as it appears in a file name: lower-cased, letters and digits only.
pub open spec fn sanitized_tab(tab: Seq<char>) -> Seq<char> {
    spec_to_lowercase(tab).filter(|c: char| spec_is_alphanumeric(c))
}

/// `preamble-<tab>-<stamp>.<ext>`.
pub open spec fn export_name(tab: Seq<char>, ext: Seq<char>, stamp: nat) -> Seq<char> {
    "preamble-"@ + sanitized_tab(tab) + "-"@ + decimal(stamp) + "."@ + ext
}

/// The export file name for a tab, an extension and a time stamp.
pub fn export_file_name(tab: &str, ext: &str, stamp: u64) -> (res: String)
    ensures
        res@ == export_name(tab@, ext@, stamp as nat),
{
    proof {
        reveal_strlit("preamble-");
        reveal_strlit("-");
        reveal_strlit(".");
    }
    let lower = to_lowercase(tab);
    let lc = chars_of(lower.as_str());
    let ghost f = |c: char| spec_is_alphanumeric(c);
    let mut kept: Vec<char> = Vec::new();
    let mut i: usize = 0;
    while i < lc.len()
        invariant
            i <= lc@.len(),
            kept@ == lc@.take(i as int).filter(f),
            f == (|c: char| spec_is_alphanumeric(c)),
        decreases lc@.len() - i,
    {
        proof {
            assert(lc@.take(i + 1).drop_last() =~= lc@.take(i as int));
            reveal_with_fuel(Seq::filter, 1);
        }
        if is_alphanumeric(lc[i]) {
            kept.push(lc[i]);
        }
        i += 1;
    }
    assert(lc@.take(lc@.len() as int) =~= lc@);
    let mut out = chars_of("preamble-");
    extend_chars(&mut out, &kept);
    let dash = chars_of("-");
    extend_chars(&mut out, &dash);
    let d = decimal_chars(stamp);
    extend_chars(&mut out, &d);
    let dot = chars_of(".");
    extend_chars(&mut out, &dot);
    let e = chars_of(ext);
    extend_chars(&mut out, &e);
    string_of(&out)
}

/// Builds a time-stamped export file name like `preamble-<tab>-<stamp>.<ext>`.
/// The stamp is the current time, so only the shape of the name is stated.
pub fn export_path(tab: &str, ext: &str) -> (res: String)
    ensures
        exists|stamp: nat| res@ == export_name(tab@, ext@, stamp),
{
    let secs = stamp();
    export_file_name(tab, ext, secs)
}

/// Whole seconds of an optional duration in milliseconds (0 when unknown).
pub open spec fn m3u_secs(d: Option<u32>) -> nat {
    match d {
        Some(ms) => (ms / 1000) as nat,
        None => 0,
    }
}

/// The text of an optional tag (empty when absent).
pub open spec fn or_empty(o: Option<String>) -> Seq<char> {
    match o {
        Some(s) => s@,
        None => Seq::empty(),
    }
}

/// The two lines of one playlist entry.
pub open spec fn m3u_entry(t: TrackSummary) -> Seq<char> {
    "#EXTINF:"@ + decimal(m3u_secs(t.duration)) + ","@ + or_empty(t.artist) + " - "@ + or_empty(t.title)
        + "\n"@ + t.file_path@ + "\n"@
}

/// The entries of the tracks, in order.
pub open spec fn m3u_entries(tracks: Seq<TrackSummary>) -> Seq<char>
    decreases tracks.len(),
{
    if tracks.len() == 0 {
        Seq::empty()
    } else {
        m3u_entries(tracks.drop_last()) + m3u_entry(tracks.last())
    }
}

/// An extended M3U playlist of the tracks.
pub open spec fn m3u_playlist(tracks: Seq<TrackSummary>) -> Seq<char> {
    "#EXTM3U\n"@ + m3u_entries(tracks)
}

fn push_opt(out: &mut Vec<char>, o: &Option<String>)
    ensures
        final(out)@ == old(out)@ + or_empty(*o),
{
    match o {
        Some(s) => {
            let c = chars_of(s.as_str());
            extend_chars(out, &c);
        },
        None => {
            assert(old(out)@ + Seq::<char>::empty() =~= old(out)@);
        },
    }
}

/// The extended M3U playlist (`#EXTINF` runtime/artist/title lines) of the tracks.
pub fn m3u_text(tracks: &[TrackSummary]) -> (res: String)
    ensures
        res@ == m3u_playlist(tracks@),
{
    proof {
        reveal_strlit("#EXTM3U\n");
        reveal_strlit("#EXTINF:");
        reveal_strlit(",");
        reveal_strlit(" - ");
        reveal_strlit("\n");
    }
    let mut out = chars_of("#EXTM3U\n");
    let mut i: usize = 0;
    while i < tracks.len()
        invariant
            i <= tracks@.len(),
            out@ == "#EXTM3U\n"@ + m3u_entries(tracks@.take(i as int)),
        decreases tracks@.len() - i,
    {
        let ghost before = out@;
        let t = &tracks[i];
        let secs: u32 = match t.duration { Some(d) => d / 1000, None => 0 };
        let head = chars_of("#EXTINF:");
        extend_chars(&mut out, &head);
        let d = decimal_chars(secs as u64);
        extend_chars(&mut out, &d);
        let comma = chars_of(",");
        extend_chars(&mut out, &comma);
        push_opt(&mut out, &t.artist);
        let sep = chars_of(" - ");
        extend_chars(&mut out, &sep);
        push_opt(&mut out, &t.title);
        let nl = chars_of("\n");
        extend_chars(&mut out, &nl);
        let p = chars_of(t.file_path.as_str());
        extend_chars(&mut out, &p);
        extend_chars(&mut out, &nl);
        proof {
            assert(tracks@.take(i + 1).drop_last() =~= tracks@.take(i as int));
            assert(out@ =~= before + m3u_entry(tracks@[i as int]));
        }
        i += 1;
    }
    assert(tracks@.take(tracks@.len() as int) =~= tracks@);
    string_of(&out)
}

/// One row of the duplicate report.
pub struct DuplicateReportRow {
    pub group_kind: &'static str,
    pub group_key: String,
    pub title: String,
    pub artist: String,
    pub album: String,
    pub bitrate: String,
    pub size_bytes: String,
    pub file_path: String,
}

/// The report row of one member of a group.
pub open spec fn report_row_matches(r: DuplicateReportRow, kind: DuplicateKind, key: Seq<char>, m: TrackSummary) -> bool {
    &&& (kind == DuplicateKind::Hash ==> r.group_kind@ == "hash"@)
    &&& (kind == DuplicateKind::Isrc ==> r.group_kind@ == "isrc"@)
    &&& r.group_key@ == key
    &&& r.title@ == or_empty(m.title)
    &&& r.artist@ == or_empty(m.artist)
    &&& r.album@ == or_empty(m.album)
    &&& r.bitrate@ == (match m.bitrate { Some(b) => decimal(b as nat), None => Seq::empty() })
    &&& r.size_bytes@ == (match m.file_size { Some(s) => signed_decimal(s as int), None => Seq::empty() })
    &&& r.file_path@ == m.file_path@
}

fn text_or_empty(o: &Option<String>) -> (res: String)
    ensures
        res@ == or_empty(*o),
{
    match o {
        Some(s) => s.clone(),
        None => String::new(),
    }
}

/// Appends one report row per member of `group`, in member order.
pub fn push_report_rows(rows: &mut Vec<DuplicateReportRow>, group: &DuplicateGroupSummary, members: &Vec<TrackSummary>)
    ensures
        final(rows)@.len() == old(rows)@.len() + members@.len(),
        forall|j: int| 0 <= j < old(rows)@.len() ==> #[trigger] final(rows)@[j] == old(rows)@[j],
        forall|j: int| 0 <= j < members@.len() ==> report_row_matches(
            #[trigger] final(rows)@[old(rows)@.len() + j], group.kind, group.key@, members@[j]),
{
    let mut i: usize = 0;
    while i < members.len()
        invariant
            i <= members@.len(),
            rows@.len() == old(rows)@.len() + i,
            forall|j: int| 0 <= j < old(rows)@.len() ==> #[trigger] rows@[j] == old(rows)@[j],
            forall|j: int| 0 <= j < i ==> report_row_matches(
                #[trigger] rows@[old(rows)@.len() + j], group.kind, group.key@, members@[j]),
        decreases members@.len() - i,
    {
        let m = &members[i];
        let bitrate = match m.bitrate {
            Some(b) => {
                let d = decimal_chars(b as u64);
                string_of(&d)
            },
            None => String::new(),
        };
        let size_bytes = match m.file_size {
            Some(s) => {
                let d = signed_decimal_chars(s);
                string_of(&d)
            },
            None => String::new(),
        };
        let row = DuplicateReportRow {
            group_kind: group.kind.label(),
            group_key: group.key.clone(),
            title: text_or_empty(&m.title),
            artist: text_or_empty(&m.artist),
            album: text_or_empty(&m.album),
            bitrate,
            size_bytes,
            file_path: m.file_path.clone(),
        };
        rows.push(row);
        i += 1;
    }
}

} // verus!
