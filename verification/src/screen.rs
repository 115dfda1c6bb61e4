//! The texts of the list screens: the cells of a track row, the title and
//! footer of the track table, the grouped view, and the duplicates view.
use vstd::prelude::*;
use crate::app::{
    Filter, GroupMode, LibraryStats, StatusLevel, TagField, GroupRow, TabData, TabKind, filter_active, filter_parts, join, sort_key_label, texts,
};
use crate::formatters::{
    duration_cell, duration_text, format_thou, size_cell, spec_decimal_size, thousands_text, total_size_text,
};
use crate::panel::{PanelLine, lines_view};
use crate::text::{chars_of, decimal, decimal_chars, extend_chars, signed_decimal, signed_decimal_chars, string_of};
use crate::keys::{Notice, NoticeView, notice_view};
use crate::track::{DuplicateGroupSummary, DuplicateKind, TrackSummary};

verus! {

/// The text of an optional tag, `Unknown` when absent.
pub open spec fn or_unknown(o: Option<String>) -> Seq<char> {
    match o {
        Some(s) => s@,
        None => "Unknown"@,
    }
}

/// The text of an optional tag, `-` when absent.
pub open spec fn or_dash(o: Option<String>) -> Seq<char> {
    match o {
        Some(s) => s@,
        None => "-"@,
    }
}

/// Size cell: the human-readable size of the value read as unsigned, `-` when unknown.
pub open spec fn size_cell_text(o: Option<i64>) -> Seq<char> {
    match o {
        Some(v) => spec_decimal_size(v as u64),
        None => "-"@,
    }
}

/// Duration cell: `m:ss`, `-` when unknown.
pub open spec fn duration_cell_text(o: Option<u32>) -> Seq<char> {
    match o {
        Some(ms) => duration_text(ms as nat),
        None => "-"@,
    }
}

/// Bitrate cell: the decimal value, `-` when unknown.
pub open spec fn bitrate_cell_text(o: Option<u32>) -> Seq<char> {
    match o {
        Some(b) => decimal(b as nat),
        None => "-"@,
    }
}

/// Status cell: a health problem, flagged with a warning sign, in place of
/// the status when there is one.
pub open spec fn status_cell_text(t: TrackSummary) -> Seq<char> {
    match t.health_issue {
        Some(issue) => "⚠ "@ + issue@,
        None => t.status@,
    }
}

/// The checkbox of a row.
pub open spec fn checkbox_text(checked: bool) -> Seq<char> {
    if checked { "[X]"@ } else { "[ ]"@ }
}

/// The cells of a track-table row: checkbox, title, artist, album, format,
/// size, duration, bitrate, status.
pub open spec fn track_row(t: TrackSummary) -> Seq<Seq<char>> {
    seq![
        checkbox_text(t.is_selected),
        or_unknown(t.title),
        or_unknown(t.artist),
        or_unknown(t.album),
        or_unknown(t.file_format),
        size_cell_text(t.file_size),
        duration_cell_text(t.duration),
        bitrate_cell_text(t.bitrate),
        status_cell_text(t),
    ]
}

/// The title of a tab.
pub open spec fn tab_label(k: TabKind) -> Seq<char> {
    match k {
        TabKind::Library => "Library"@,
        TabKind::Enrichment => "Enrichment"@,
        TabKind::Duplicates => "Duplicates"@,
        TabKind::Failed => "Failed"@,
        TabKind::Missing => "Missing"@,
        TabKind::Trash => "Trash"@,
    }
}

/// The name of a grouping mode.
pub open spec fn group_mode_label(g: GroupMode) -> Seq<char> {
    match g {
        GroupMode::Off => "off"@,
        GroupMode::Artist => "artist"@,
        GroupMode::Album => "album"@,
    }
}

/// The name of a duplicate kind.
pub open spec fn duplicate_kind_label(k: DuplicateKind) -> Seq<char> {
    match k {
        DuplicateKind::Hash => "hash"@,
        DuplicateKind::Isrc => "isrc"@,
    }
}

/// `[p/n]`: the one-based position of the highlight (the first row when
/// there is none) out of `len` rows.
pub open spec fn position_text(selected: Option<usize>, len: nat) -> Seq<char> {
    let p: nat = match selected {
        Some(i) => i as nat,
        None => 0,
    };
    "["@ + decimal(p + 1) + "/"@ + decimal(len) + "]"@
}

/// How many rows are checked.
pub open spec fn count_checked(rows: Seq<TrackSummary>) -> nat
    decreases rows.len(),
{
    if rows.len() == 0 {
        0
    } else {
        count_checked(rows.drop_last()) + if rows.last().is_selected { 1nat } else { 0nat }
    }
}

/// Title of the track table: the tab, the highlight's position, and how many
/// rows are checked.
pub open spec fn table_title_text(tab: TabData) -> Seq<char> {
    tab_label(tab.kind) + ": "@ + position_text(tab.selected, tab.tracks@.len()) + " - Selected: ["@
        + decimal(count_checked(tab.tracks@)) + "/"@ + decimal(tab.tracks@.len()) + "]"@
}

/// Footer of the track table: the sort column and direction, then the active
/// facets when some are set.
pub open spec fn sort_footer_text(tab: TabData) -> Seq<char> {
    " sort: "@ + sort_key_label(tab.sort) + " "@ + (if tab.sort_desc { "↓"@ } else { "↑"@ }) + " "@
        + if filter_active(tab.filter) {
            "| filter: "@ + join(filter_parts(tab.filter), " "@) + " "@
        } else {
            Seq::empty()
        }
}

/// A `String` holding the text of `s`.
fn text_of(s: &str) -> (res: String)
    ensures
        res@ == s@,
{
    let c = chars_of(s);
    string_of(&c)
}

/// Appends the text of `s`.
fn put(out: &mut Vec<char>, s: &str)
    ensures
        final(out)@ == old(out)@ + s@,
{
    let c = chars_of(s);
    extend_chars(out, &c);
}

/// Appends the decimal digits of `n`.
fn put_num(out: &mut Vec<char>, n: u64)
    ensures
        final(out)@ == old(out)@ + decimal(n as nat),
{
    let d = decimal_chars(n);
    extend_chars(out, &d);
}

fn unknown_cell(o: &Option<String>) -> (res: String)
    ensures
        res@ == or_unknown(*o),
{
    match o {
        Some(s) => s.clone(),
        None => text_of("Unknown"),
    }
}

fn dash_cell(o: &Option<String>) -> (res: String)
    ensures
        res@ == or_dash(*o),
{
    match o {
        Some(s) => s.clone(),
        None => text_of("-"),
    }
}

fn bitrate_cell(o: Option<u32>) -> (res: String)
    ensures
        res@ == bitrate_cell_text(o),
{
    match o {
        Some(b) => {
            let d = decimal_chars(b as u64);
            string_of(&d)
        },
        None => text_of("-"),
    }
}

fn status_cell(t: &TrackSummary) -> (res: String)
    ensures
        res@ == status_cell_text(*t),
{
    match &t.health_issue {
        Some(issue) => {
            let mut v: Vec<char> = Vec::new();
            put(&mut v, "⚠ ");
            put(&mut v, issue.as_str());
            string_of(&v)
        },
        None => t.status.clone(),
    }
}

/// The cells of a track's row in the track table.
pub fn track_row_cells(t: &TrackSummary) -> (res: Vec<String>)
    ensures
        texts(res@) == track_row(*t),
{
    let mut v: Vec<String> = Vec::new();
    v.push(if t.is_selected { text_of("[X]") } else { text_of("[ ]") });
    v.push(unknown_cell(&t.title));
    v.push(unknown_cell(&t.artist));
    v.push(unknown_cell(&t.album));
    v.push(unknown_cell(&t.file_format));
    v.push(size_cell(t.file_size));
    v.push(duration_cell(t.duration));
    v.push(bitrate_cell(t.bitrate));
    v.push(status_cell(t));
    assert(texts(v@) =~= track_row(*t));
    v
}

fn tab_label_text(k: TabKind) -> (res: &'static str)
    ensures
        res@ == tab_label(k),
{
    k.label()
}

/// Appends `[p/n]` for a highlight out of `len` rows.
fn put_position(out: &mut Vec<char>, selected: Option<usize>, len: usize)
    requires
        selected != Some(usize::MAX),
    ensures
        final(out)@ == old(out)@ + position_text(selected, len as nat),
{
    let p: u64 = match selected {
        Some(i) => i as u64,
        None => 0,
    };
    let ghost start = out@;
    put(out, "[");
    put_num(out, p + 1);
    put(out, "/");
    put_num(out, len as u64);
    put(out, "]");
    assert(out@ =~= start + position_text(selected, len as nat));
}

/// Number of checked rows.
fn checked_count(rows: &Vec<TrackSummary>) -> (n: usize)
    ensures
        n as nat == count_checked(rows@),
{
    let mut n: usize = 0;
    let mut i: usize = 0;
    while i < rows.len()
        invariant
            i <= rows.len(),
            n <= i,
            n as nat == count_checked(rows@.take(i as int)),
        decreases rows.len() - i,
    {
        assert(rows@.take(i + 1).drop_last() =~= rows@.take(i as int));
        if rows[i].is_selected {
            n += 1;
        }
        i += 1;
    }
    assert(rows@.take(rows.len() as int) =~= rows@);
    n
}

/// Title of the track table, e.g. `Library: [3/120] - Selected: [2/120]`.
pub fn table_title(tab: &TabData) -> (res: String)
    requires
        tab.selected != Some(usize::MAX),
    ensures
        res@ == table_title_text(*tab),
{
    let mut v: Vec<char> = Vec::new();
    put(&mut v, tab_label_text(tab.kind));
    put(&mut v, ": ");
    put_position(&mut v, tab.selected, tab.tracks.len());
    put(&mut v, " - Selected: [");
    let n = checked_count(&tab.tracks);
    put_num(&mut v, n as u64);
    put(&mut v, "/");
    put_num(&mut v, tab.tracks.len() as u64);
    put(&mut v, "]");
    assert(v@ =~= table_title_text(*tab));
    string_of(&v)
}

/// Footer of the track table, e.g. ` sort: Title ↑ | filter: fmt=FLAC `.
pub fn sort_footer(tab: &TabData) -> (res: String)
    ensures
        res@ == sort_footer_text(*tab),
{
    let mut v: Vec<char> = Vec::new();
    put(&mut v, " sort: ");
    put(&mut v, tab.sort.label());
    put(&mut v, " ");
    put(&mut v, if tab.sort_desc { "↓" } else { "↑" });
    put(&mut v, " ");
    let ghost head = v@;
    if tab.filter.is_active() {
        put(&mut v, "| filter: ");
        let d = tab.filter.describe();
        put(&mut v, d.as_str());
        put(&mut v, " ");
    }
    assert(v@ =~= sort_footer_text(*tab));
    string_of(&v)
}

/// What an empty track table shows, e.g. `No Failed Tracks Found`.
pub fn empty_tab_text(kind: TabKind) -> (res: String)
    ensures
        res@ == "No "@ + tab_label(kind) + " Tracks Found"@,
{
    let mut v: Vec<char> = Vec::new();
    put(&mut v, "No ");
    put(&mut v, tab_label_text(kind));
    put(&mut v, " Tracks Found");
    string_of(&v)
}


/// A nonnegative total, negative ones read as zero.
pub open spec fn at_least_zero(n: i64) -> int {
    if n < 0 { 0 } else { n as int }
}

/// The cells of a row of the grouped view: name, track count, total size, and
/// total duration (the nonnegative total taken modulo 2^32 milliseconds, as a
/// `u32` holds it).
pub open spec fn group_row(g: GroupRow) -> Seq<Seq<char>> {
    seq![
        g.name@,
        signed_decimal(g.count as int),
        spec_decimal_size(at_least_zero(g.total_size) as u64),
        duration_text((at_least_zero(g.total_duration) % 0x1_0000_0000) as nat),
    ]
}

/// The cells of a row of the grouped view.
pub fn group_row_cells(g: &GroupRow) -> (res: Vec<String>)
    ensures
        texts(res@) == group_row(*g),
{
    let mut v: Vec<String> = Vec::new();
    v.push(g.name.clone());
    let n = signed_decimal_chars(g.count);
    v.push(string_of(&n));
    v.push(total_size_text(g.total_size));
    let d: u64 = if g.total_duration < 0 { 0 } else { g.total_duration as u64 };
    let ms: u32 = (d % 0x1_0000_0000) as u32;
    v.push(duration_cell(Some(ms)));
    assert(texts(v@) =~= group_row(*g));
    v
}

/// Title of the grouped view, e.g. `Library grouped by artist [1/40]`.
pub fn group_title(mode: GroupMode, selected: Option<usize>, len: usize) -> (res: String)
    requires
        selected != Some(usize::MAX),
    ensures
        res@ == "Library grouped by "@ + group_mode_label(mode) + " "@ + position_text(selected, len as nat),
{
    let mut v: Vec<char> = Vec::new();
    put(&mut v, "Library grouped by ");
    put(&mut v, mode.label());
    put(&mut v, " ");
    put_position(&mut v, selected, len);
    string_of(&v)
}

/// The cells of a row of the duplicate-group list: `×` and the member count,
/// the kind, then title, artist and album.
pub open spec fn duplicate_group_row(g: DuplicateGroupSummary) -> Seq<Seq<char>> {
    seq![
        "×"@ + decimal(g.count as nat),
        duplicate_kind_label(g.kind),
        or_unknown(g.title),
        or_unknown(g.artist),
        or_unknown(g.album),
    ]
}

/// The cells of a row of the duplicate-group list.
pub fn duplicate_group_cells(g: &DuplicateGroupSummary) -> (res: Vec<String>)
    ensures
        texts(res@) == duplicate_group_row(*g),
{
    let mut v: Vec<String> = Vec::new();
    let mut c: Vec<char> = Vec::new();
    put(&mut c, "×");
    put_num(&mut c, g.count as u64);
    v.push(string_of(&c));
    v.push(text_of(g.kind.label()));
    v.push(unknown_cell(&g.title));
    v.push(unknown_cell(&g.artist));
    v.push(unknown_cell(&g.album));
    assert(texts(v@) =~= duplicate_group_row(*g));
    v
}

/// Title of the duplicate-group list, e.g. `Duplicate Groups: [2/7]`.
pub fn duplicate_groups_title(selected: Option<usize>, len: usize) -> (res: String)
    requires
        selected != Some(usize::MAX),
    ensures
        res@ == "Duplicate Groups: "@ + position_text(selected, len as nat),
{
    let mut v: Vec<char> = Vec::new();
    put(&mut v, "Duplicate Groups: ");
    put_position(&mut v, selected, len);
    string_of(&v)
}

/// The member shown as the keeper: the chosen one, or the last when the
/// choice is past the end.
pub open spec fn shown_member(selected: usize, len: usize) -> int {
    if (selected as int) < len - 1 { selected as int } else { len - 1 }
}

/// Clamps the member choice to the members present (`len > 0`).
pub fn shown_member_index(selected: usize, len: usize) -> (res: usize)
    requires
        len > 0,
    ensures
        res as int == shown_member(selected, len),
{
    if selected < len - 1 { selected } else { len - 1 }
}

/// Title of the member grid, e.g. `Members [1/3] - ★ kept, rest → Trash ([k] to apply)`.
pub fn members_title(shown: usize, len: usize) -> (res: String)
    requires
        shown < len,
    ensures
        res@ == "Members ["@ + decimal(shown as nat + 1) + "/"@ + decimal(len as nat)
            + "] - ★ kept, rest → Trash ([k] to apply)"@,
{
    let mut v: Vec<char> = Vec::new();
    put(&mut v, "Members [");
    put_num(&mut v, shown as u64 + 1);
    put(&mut v, "/");
    put_num(&mut v, len as u64);
    put(&mut v, "] - ★ kept, rest → Trash ([k] to apply)");
    string_of(&v)
}

/// Header of a member's column: a star on the keeper, the one-based number,
/// and the file name (`?` when the path has none).
pub open spec fn member_header_text(i: nat, keeper: bool, name: Option<Seq<char>>) -> Seq<char> {
    (if keeper { "★ "@ } else { Seq::empty() }) + "["@ + decimal(i + 1) + "] "@
        + match name {
            Some(n) => n,
            None => "?"@,
        }
}

/// Header of member `i`'s column, `shown` being the keeper's index.
pub fn member_header(i: usize, shown: usize, name: Option<&str>) -> (res: String)
    requires
        i < usize::MAX,
    ensures
        res@ == member_header_text(i as nat, i == shown, match name {
            Some(n) => Some(n@),
            None => None,
        }),
{
    let mut v: Vec<char> = Vec::new();
    if i == shown {
        put(&mut v, "★ ");
    }
    put(&mut v, "[");
    put_num(&mut v, i as u64 + 1);
    put(&mut v, "] ");
    match name {
        Some(n) => put(&mut v, n),
        None => put(&mut v, "?"),
    }
    let ghost name_view = match name {
        Some(n) => Some(n@),
        None => None::<Seq<char>>,
    };
    assert(v@ =~= member_header_text(i as nat, i == shown, name_view));
    string_of(&v)
}

/// A member's values in the tag rows of the grid: title, artist, album,
/// format, bitrate and size, `-` for what is unknown.
pub open spec fn member_values(m: TrackSummary) -> Seq<Seq<char>> {
    seq![
        or_dash(m.title),
        or_dash(m.artist),
        or_dash(m.album),
        or_dash(m.file_format),
        bitrate_cell_text(m.bitrate),
        size_cell_text(m.file_size),
    ]
}

/// A member's values in the tag rows of the grid.
pub fn member_cells(m: &TrackSummary) -> (res: Vec<String>)
    ensures
        texts(res@) == member_values(*m),
{
    let mut v: Vec<String> = Vec::new();
    v.push(dash_cell(&m.title));
    v.push(dash_cell(&m.artist));
    v.push(dash_cell(&m.album));
    v.push(dash_cell(&m.file_format));
    v.push(bitrate_cell(m.bitrate));
    v.push(size_cell(m.file_size));
    assert(texts(v@) =~= member_values(*m));
    v
}


/// `n` spaces.
pub open spec fn spaces(n: nat) -> Seq<char> {
    Seq::new(n, |i: int| ' ')
}

/// `s` followed by spaces up to `w` characters (unchanged when already that long).
pub open spec fn pad_right(s: Seq<char>, w: nat) -> Seq<char> {
    if s.len() < w { s + spaces((w - s.len()) as nat) } else { s }
}

/// `s` preceded by spaces up to `w` characters (unchanged when already that long).
pub open spec fn pad_left(s: Seq<char>, w: nat) -> Seq<char> {
    if s.len() < w { spaces((w - s.len()) as nat) + s } else { s }
}

/// Appends `n` spaces.
fn put_spaces(out: &mut Vec<char>, n: usize)
    ensures
        final(out)@ == old(out)@ + spaces(n as nat),
{
    let ghost start = out@;
    let mut k: usize = 0;
    while k < n
        invariant
            k <= n,
            out@ == start + spaces(k as nat),
        decreases n - k,
    {
        out.push(' ');
        k += 1;
        assert(out@ =~= start + spaces(k as nat));
    }
}

/// Appends `s` padded with spaces on the right to `w` characters.
fn put_padded_right(out: &mut Vec<char>, s: &Vec<char>, w: usize)
    ensures
        final(out)@ == old(out)@ + pad_right(s@, w as nat),
{
    let ghost start = out@;
    extend_chars(out, s);
    if s.len() < w {
        put_spaces(out, w - s.len());
    }
    assert(out@ =~= start + pad_right(s@, w as nat));
}

/// Appends `s` padded with spaces on the left to `w` characters.
fn put_padded_left(out: &mut Vec<char>, s: &Vec<char>, w: usize)
    ensures
        final(out)@ == old(out)@ + pad_left(s@, w as nat),
{
    let ghost start = out@;
    if s.len() < w {
        put_spaces(out, w - s.len());
    }
    extend_chars(out, s);
    assert(out@ =~= start + pad_left(s@, w as nat));
}

/// Line of the by-format panel: format, track count and total size, in
/// columns of 8, 6 and 10 characters.
pub open spec fn format_line_text(format: Seq<char>, count: i64, size: i64) -> Seq<char> {
    pad_right(format, 8) + " "@ + pad_left(signed_decimal(count as int), 6) + "  "@
        + pad_left(spec_decimal_size(at_least_zero(size) as u64), 10)
}

/// Line of the by-format panel.
pub fn format_line(format: &str, count: i64, size: i64) -> (res: String)
    ensures
        res@ == format_line_text(format@, count, size),
{
    let mut v: Vec<char> = Vec::new();
    let f = chars_of(format);
    put_padded_right(&mut v, &f, 8);
    put(&mut v, " ");
    let n = signed_decimal_chars(count);
    put_padded_left(&mut v, &n, 6);
    put(&mut v, "  ");
    let sz = total_size_text(size);
    let z = chars_of(sz.as_str());
    put_padded_left(&mut v, &z, 10);
    assert(v@ =~= format_line_text(format@, count, size));
    string_of(&v)
}

/// Line of the top-artists panel: the count in 4 columns, then the name.
pub open spec fn artist_line_text(name: Seq<char>, count: i64) -> Seq<char> {
    pad_left(signed_decimal(count as int), 4) + "  "@ + name
}

/// Line of the top-artists panel.
pub fn artist_line(name: &str, count: i64) -> (res: String)
    ensures
        res@ == artist_line_text(name@, count),
{
    let mut v: Vec<char> = Vec::new();
    let n = signed_decimal_chars(count);
    put_padded_left(&mut v, &n, 4);
    put(&mut v, "  ");
    put(&mut v, name);
    assert(v@ =~= artist_line_text(name@, count));
    string_of(&v)
}

/// A label padded to `width` columns, then a count in 6 columns.
pub open spec fn count_line_text(label: Seq<char>, count: i64, width: nat) -> Seq<char> {
    pad_right(label, width) + " "@ + pad_left(signed_decimal(count as int), 6)
}

fn count_line(label: &str, count: i64, width: usize) -> (res: String)
    ensures
        res@ == count_line_text(label@, count, width as nat),
{
    let mut v: Vec<char> = Vec::new();
    let l = chars_of(label);
    put_padded_right(&mut v, &l, width);
    put(&mut v, " ");
    let n = signed_decimal_chars(count);
    put_padded_left(&mut v, &n, 6);
    assert(v@ =~= count_line_text(label@, count, width as nat));
    string_of(&v)
}

/// Line of the by-decade panel: the decade in 8 columns, the count in 6.
pub fn decade_line(decade: &str, count: i64) -> (res: String)
    ensures
        res@ == count_line_text(decade@, count, 8),
{
    count_line(decade, count, 8)
}

/// Line of the by-status panel (statuses and health problems alike): the
/// name in 14 columns, the count in 6.
pub fn status_line(status: &str, count: i64) -> (res: String)
    ensures
        res@ == count_line_text(status@, count, 14),
{
    count_line(status, count, 14)
}

/// Quotient rounded toward zero, as Rust's `/` on signed integers gives it.
pub open spec fn trunc_div(a: int, b: int) -> int {
    if a >= 0 { a / b } else { -((-a) / b) }
}

/// Remainder with the sign of the dividend, as Rust's `%` on signed integers gives it.
pub open spec fn trunc_rem(a: int, b: int) -> int {
    a - b * trunc_div(a, b)
}

/// Total running time as whole hours and minutes, e.g. `12h 5m`, from milliseconds.
pub open spec fn runtime_text_of(ms: int) -> Seq<char> {
    let secs = trunc_div(ms, 1000);
    signed_decimal(trunc_div(secs, 3600)) + "h "@ + signed_decimal(trunc_div(trunc_rem(secs, 3600), 60)) + "m"@
}

/// Appends the decimal text of `-x`.
fn put_negated(out: &mut Vec<char>, x: u64)
    ensures
        final(out)@ == old(out)@ + signed_decimal(-(x as int)),
{
    let ghost start = out@;
    if x > 0 {
        out.push('-');
    }
    put_num(out, x);
    assert(out@ =~= start + signed_decimal(-(x as int)));
}

/// Total running time as hours and minutes, from a total in milliseconds.
pub fn runtime_text(total_millis: i64) -> (res: String)
    ensures
        res@ == runtime_text_of(total_millis as int),
{
    let mut v: Vec<char> = Vec::new();
    if total_millis >= 0 {
        let secs: u64 = total_millis as u64 / 1000;
        put_num(&mut v, secs / 3600);
        put(&mut v, "h ");
        put_num(&mut v, (secs % 3600) / 60);
        put(&mut v, "m");
        proof {
            let s = trunc_div(total_millis as int, 1000);
            assert(s == secs);
            assert(trunc_rem(s, 3600) == secs % 3600);
        }
        assert(v@ =~= runtime_text_of(total_millis as int));
    } else {
        let mag: u64 = ((-(total_millis + 1)) as u64) + 1;
        let secs: u64 = mag / 1000;
        put_negated(&mut v, secs / 3600);
        put(&mut v, "h ");
        put_negated(&mut v, (secs % 3600) / 60);
        put(&mut v, "m");
        proof {
            let s = trunc_div(total_millis as int, 1000);
            assert(mag as int == -(total_millis as int));
            assert(s == -(secs as int));
            if secs == 0 {
                assert(trunc_div(s, 3600) == 0);
                assert(trunc_rem(s, 3600) == 0);
            } else {
                assert(trunc_div(s, 3600) == -((secs / 3600) as int));
                assert(trunc_rem(s, 3600) == -((secs % 3600) as int));
            }
            let r = trunc_rem(s, 3600);
            if secs % 3600 == 0 {
                assert(trunc_div(r, 60) == 0);
            } else {
                assert(trunc_div(r, 60) == -(((secs % 3600) / 60) as int));
            }
        }
        assert(v@ =~= runtime_text_of(total_millis as int));
    }
    string_of(&v)
}


/// The counters of the start screen, labelled, each with thousands separators.
pub open spec fn start_lines(s: LibraryStats) -> Seq<(Seq<char>, Seq<char>)> {
    seq![
        ("Total Tracks: "@, thousands_text(s.total_tracks as nat)),
        ("Pending Enrichment: "@, thousands_text(s.total_pending as nat)),
        ("Duplicate Tracks: "@, thousands_text(s.total_duplicates as nat)),
        ("Missing Tracks: "@, thousands_text(s.total_missing as nat)),
        ("Flagged for Deletion: "@, thousands_text(s.total_marked as nat)),
    ]
}

/// The counters of the start screen.
pub fn start_stat_lines(s: &LibraryStats) -> (res: Vec<PanelLine>)
    ensures
        lines_view(res@) == start_lines(*s),
{
    let mut v: Vec<PanelLine> = Vec::new();
    v.push(PanelLine { label: "Total Tracks: ", value: format_thou(s.total_tracks) });
    v.push(PanelLine { label: "Pending Enrichment: ", value: format_thou(s.total_pending) });
    v.push(PanelLine { label: "Duplicate Tracks: ", value: format_thou(s.total_duplicates) });
    v.push(PanelLine { label: "Missing Tracks: ", value: format_thou(s.total_missing) });
    v.push(PanelLine { label: "Flagged for Deletion: ", value: format_thou(s.total_marked) });
    assert(lines_view(v@) =~= start_lines(*s));
    v
}

/// A total of the statistics screen with thousands separators, the count
/// read as a `u32` the way `as` converts it.
pub fn count_thou(n: i64) -> (res: String)
    ensures
        res@ == thousands_text((n as u32) as nat),
{
    format_thou(n as u32)
}

/// A total of the statistics screen with thousands separators, negative
/// counts shown as zero.
pub fn clamped_count_thou(n: i64) -> (res: String)
    ensures
        res@ == thousands_text((if n < 0 { 0u32 } else { n as u32 }) as nat),
{
    let c: i64 = if n < 0 { 0 } else { n };
    format_thou(c as u32)
}


/// The hint line under the tab bar for each tab.
pub open spec fn shortcuts_of(k: TabKind) -> Seq<char> {
    match k {
        TabKind::Duplicates => "[TAB] tabs · [P] pane · [↑/↓] nav · [K]eep one · [?] help"@,
        TabKind::Enrichment => "[TAB] tabs · [E]nrich · [R]etry · [SPACE]lect · [D] flag · [M] edit · [/] search · [?] help"@,
        TabKind::Trash => "[TAB] tabs · [SPACE]lect · [R]estore · [D] purge · [Z] undo · [?] help"@,
        TabKind::Failed => "[TAB] tabs · [R]etry enrichment · [SPACE]lect · [M] edit · [D] flag · [?] help"@,
        _ => "[TAB] tabs · [/] search · [F]ilter · [S]ort · [G]roup · [M] edit · [X] export · [C] stats · [D] flag · [?] help"@,
    }
}

/// The hint line under the tab bar.
pub fn shortcuts_text(k: TabKind) -> (res: &'static str)
    ensures
        res@ == shortcuts_of(k),
{
    match k {
        TabKind::Duplicates => "[TAB] tabs · [P] pane · [↑/↓] nav · [K]eep one · [?] help",
        TabKind::Enrichment => "[TAB] tabs · [E]nrich · [R]etry · [SPACE]lect · [D] flag · [M] edit · [/] search · [?] help",
        TabKind::Trash => "[TAB] tabs · [SPACE]lect · [R]estore · [D] purge · [Z] undo · [?] help",
        TabKind::Failed => "[TAB] tabs · [R]etry enrichment · [SPACE]lect · [M] edit · [D] flag · [?] help",
        _ => "[TAB] tabs · [/] search · [F]ilter · [S]ort · [G]roup · [M] edit · [X] export · [C] stats · [D] flag · [?] help",
    }
}

/// The search bar: the query being typed with a block cursor, the active
/// query with how to change it, or how to start a search.
pub open spec fn search_bar_of(query: Seq<char>, typing: bool) -> Seq<char> {
    if typing {
        query + "█"@
    } else if query.len() > 0 {
        "search: "@ + query + "    ([/] edit · [esc] clear)"@
    } else {
        "press [/] to search · [f]ilter · [?] help"@
    }
}

/// The text of the search bar.
pub fn search_bar_text(query: &str, typing: bool) -> (res: String)
    ensures
        res@ == search_bar_of(query@, typing),
{
    let q = chars_of(query);
    let mut v: Vec<char> = Vec::new();
    if typing {
        extend_chars(&mut v, &q);
        put(&mut v, "█");
    } else if q.len() > 0 {
        put(&mut v, "search: ");
        extend_chars(&mut v, &q);
        put(&mut v, "    ([/] edit · [esc] clear)");
    } else {
        put(&mut v, "press [/] to search · [f]ilter · [?] help");
    }
    string_of(&v)
}

/// The badge in front of a status message, by level.
pub open spec fn status_badge_of(level: StatusLevel) -> Seq<char> {
    match level {
        StatusLevel::Info => " 🛈 "@,
        StatusLevel::Success => " ✓ "@,
        StatusLevel::Warning => " ! "@,
        StatusLevel::Error => " ✗ "@,
    }
}

/// The badge in front of a status message.
pub fn status_badge(level: StatusLevel) -> (res: &'static str)
    ensures
        res@ == status_badge_of(level),
{
    match level {
        StatusLevel::Info => " 🛈 ",
        StatusLevel::Success => " ✓ ",
        StatusLevel::Warning => " ! ",
        StatusLevel::Error => " ✗ ",
    }
}

/// `ON` or `off`.
pub open spec fn on_off(b: bool) -> Seq<char> {
    if b { "ON"@ } else { "off"@ }
}

/// The facet lines of the filter popup: format, minimum bitrate, missing
/// ISRC, unhealthy only.
pub open spec fn filter_lines_of(f: Filter) -> Seq<Seq<char>> {
    seq![
        "Format         "@ + match f.format {
            Some(fmt) => fmt@,
            None => "any"@,
        },
        "Min bitrate    "@ + match f.min_bitrate {
            Some(b) => "≥ "@ + decimal(b as nat) + " kbps"@,
            None => "any"@,
        },
        "Missing ISRC   "@ + on_off(f.no_isrc),
        "Unhealthy only "@ + on_off(f.unhealthy),
    ]
}

fn put_on_off(out: &mut Vec<char>, b: bool)
    ensures
        final(out)@ == old(out)@ + on_off(b),
{
    if b {
        put(out, "ON");
    } else {
        put(out, "off");
    }
}

/// The facet lines of the filter popup.
pub fn filter_lines(f: &Filter) -> (res: Vec<String>)
    ensures
        texts(res@) == filter_lines_of(*f),
{
    let mut res: Vec<String> = Vec::new();
    let mut a: Vec<char> = Vec::new();
    put(&mut a, "Format         ");
    match &f.format {
        Some(fmt) => put(&mut a, fmt.as_str()),
        None => put(&mut a, "any"),
    }
    assert(a@ =~= filter_lines_of(*f)[0]);
    res.push(string_of(&a));
    let mut b: Vec<char> = Vec::new();
    put(&mut b, "Min bitrate    ");
    match f.min_bitrate {
        Some(m) => {
            put(&mut b, "≥ ");
            put_num(&mut b, m as u64);
            put(&mut b, " kbps");
        },
        None => put(&mut b, "any"),
    }
    assert(b@ =~= filter_lines_of(*f)[1]);
    res.push(string_of(&b));
    let mut c: Vec<char> = Vec::new();
    put(&mut c, "Missing ISRC   ");
    put_on_off(&mut c, f.no_isrc);
    assert(c@ =~= filter_lines_of(*f)[2]);
    res.push(string_of(&c));
    let mut d: Vec<char> = Vec::new();
    put(&mut d, "Unhealthy only ");
    put_on_off(&mut d, f.unhealthy);
    assert(d@ =~= filter_lines_of(*f)[3]);
    res.push(string_of(&d));
    assert(texts(res@) =~= filter_lines_of(*f));
    res
}

/// The heading of the export popup, e.g. `  Export 12 row(s) from this view:`.
pub fn export_heading(rows: usize) -> (res: String)
    ensures
        res@ == "  Export "@ + decimal(rows as nat) + " row(s) from this view:"@,
{
    let mut v: Vec<char> = Vec::new();
    put(&mut v, "  Export ");
    put_num(&mut v, rows as u64);
    put(&mut v, " row(s) from this view:");
    string_of(&v)
}

/// The label of an editor field.
pub open spec fn tag_field_label(f: TagField) -> Seq<char> {
    match f {
        TagField::Title => "Title"@,
        TagField::Artist => "Artist"@,
        TagField::Album => "Album"@,
        TagField::AlbumArtist => "Album Artist"@,
        TagField::Genre => "Genre"@,
        TagField::Comment => "Comment"@,
        TagField::Track => "Track #"@,
        TagField::Disc => "Disc #"@,
        TagField::Year => "Year"@,
    }
}

/// A line of the tag editor: the label indented and padded to 14 columns,
/// and the value, with a block cursor after it on the focused field.
pub fn edit_line(field: TagField, value: &str, focused: bool) -> (res: (String, String))
    ensures
        res.0@ == "  "@ + pad_right(tag_field_label(field), 14),
        res.1@ == (if focused { value@ + "█"@ } else { value@ }),
{
    let mut l: Vec<char> = Vec::new();
    put(&mut l, "  ");
    let name = chars_of(field.label());
    put_padded_right(&mut l, &name, 14);
    let mut v: Vec<char> = Vec::new();
    put(&mut v, value);
    if focused {
        put(&mut v, "█");
    }
    (string_of(&l), string_of(&v))
}

/// `[n/total]`, the label of a progress gauge.
pub fn progress_label(n: usize, total: usize) -> (res: String)
    ensures
        res@ == "["@ + decimal(n as nat) + "/"@ + decimal(total as nat) + "]"@,
{
    let mut v: Vec<char> = Vec::new();
    put(&mut v, "[");
    put_num(&mut v, n as u64);
    put(&mut v, "/");
    put_num(&mut v, total as u64);
    put(&mut v, "]");
    string_of(&v)
}


/// The status-bar text of a notice.
pub open spec fn notice_text_of(n: NoticeView) -> Seq<char> {
    match n {
        NoticeView::EditCancelled => "Edit cancelled."@,
        NoticeView::GroupBy(g) => "Group by: "@ + group_mode_label(g),
        NoticeView::FilteredTo(name) => "Filtered to: "@ + name,
        NoticeView::Sorted(k, desc) => "Sort: "@ + sort_key_label(k) + " "@ + (if desc { "↓"@ } else { "↑"@ }),
        NoticeView::NoTracksToEnrich => "No tracks to enrich."@,
        NoticeView::NoApiKey => "No AcoustID API key set (ACOUSTID_API_KEY in .env)."@,
        NoticeView::PathNotProvided => "Path not provided."@,
        NoticeView::NoTrackToEdit => "No track selected to edit."@,
    }
}

/// The status-bar text of a notice.
pub fn notice_text(n: &Notice) -> (res: String)
    ensures
        res@ == notice_text_of(notice_view(*n)),
{
    let mut v: Vec<char> = Vec::new();
    match n {
        Notice::EditCancelled => put(&mut v, "Edit cancelled."),
        Notice::GroupBy(g) => {
            put(&mut v, "Group by: ");
            put(&mut v, g.label());
        },
        Notice::FilteredTo(name) => {
            put(&mut v, "Filtered to: ");
            put(&mut v, name.as_str());
        },
        Notice::Sorted(k, desc) => {
            put(&mut v, "Sort: ");
            put(&mut v, k.label());
            put(&mut v, " ");
            put(&mut v, if *desc { "↓" } else { "↑" });
        },
        Notice::NoTracksToEnrich => put(&mut v, "No tracks to enrich."),
        Notice::NoApiKey => put(&mut v, "No AcoustID API key set (ACOUSTID_API_KEY in .env)."),
        Notice::PathNotProvided => put(&mut v, "Path not provided."),
        Notice::NoTrackToEdit => put(&mut v, "No track selected to edit."),
    }
    assert(v@ =~= notice_text_of(notice_view(*n)));
    string_of(&v)
}

} // verus!
