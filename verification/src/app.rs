//! The interface's in-memory state: tabs, facet filters, grouping, the tag
//! editor, and the duplicate-resolution view.
use vstd::prelude::*;
use crate::text::{
    chars_eq, chars_of, contains_chars, contains_seq, decimal, decimal_chars, eq_ignore_ascii_case,
    eq_ignore_ascii_case_chars, extend_chars, pop_char, push_char, spec_to_lowercase, string_of,
    to_lowercase,
};
use crate::sort::{SortKey, sort_tracks, stable_sort_of};
use crate::track::{DuplicateGroupSummary, TagEdits, TrackInfo, TrackSummary};

verus! {

impl SortKey {
    /// The next sort key in the cycle, wrapping from `Status` back to `Added`.
    pub fn next(self) -> (res: SortKey)
        ensures
            res == next_sort_key(self),
    {
        match self {
            SortKey::Added => SortKey::Title,
            SortKey::Title => SortKey::Artist,
            SortKey::Artist => SortKey::Album,
            SortKey::Album => SortKey::Format,
            SortKey::Format => SortKey::Size,
            SortKey::Size => SortKey::Duration,
            SortKey::Duration => SortKey::Bitrate,
            SortKey::Bitrate => SortKey::Status,
            SortKey::Status => SortKey::Added,
        }
    }

    /// The key's column name.
    pub fn label(self) -> (res: &'static str)
        ensures
            res@ == sort_key_label(self),
    {
        proof {
            reveal_strlit("Added");
            reveal_strlit("Title");
            reveal_strlit("Artist");
            reveal_strlit("Album");
            reveal_strlit("Format");
            reveal_strlit("Size");
            reveal_strlit("Duration");
            reveal_strlit("Bitrate");
            reveal_strlit("Status");
        }
        match self {
            SortKey::Added => "Added",
            SortKey::Title => "Title",
            SortKey::Artist => "Artist",
            SortKey::Album => "Album",
            SortKey::Format => "Format",
            SortKey::Size => "Size",
            SortKey::Duration => "Duration",
            SortKey::Bitrate => "Bitrate",
            SortKey::Status => "Status",
        }
    }
}

/// Successor in the sort-key cycle.
pub open spec fn next_sort_key(k: SortKey) -> SortKey {
    match k {
        SortKey::Added => SortKey::Title,
        SortKey::Title => SortKey::Artist,
        SortKey::Artist => SortKey::Album,
        SortKey::Album => SortKey::Format,
        SortKey::Format => SortKey::Size,
        SortKey::Size => SortKey::Duration,
        SortKey::Duration => SortKey::Bitrate,
        SortKey::Bitrate => SortKey::Status,
        SortKey::Status => SortKey::Added,
    }
}

/// Column name of a sort key.
pub open spec fn sort_key_label(k: SortKey) -> Seq<char> {
    match k {
        SortKey::Added => "Added"@,
        SortKey::Title => "Title"@,
        SortKey::Artist => "Artist"@,
        SortKey::Album => "Album"@,
        SortKey::Format => "Format"@,
        SortKey::Size => "Size"@,
        SortKey::Duration => "Duration"@,
        SortKey::Bitrate => "Bitrate"@,
        SortKey::Status => "Status"@,
    }
}

/// `k` advanced `n` times.
pub open spec fn sort_key_iter(k: SortKey, n: nat) -> SortKey
    decreases n,
{
    if n == 0 { k } else { next_sort_key(sort_key_iter(k, (n - 1) as nat)) }
}

/// Cycling the sort key returns to the start after nine steps, and not before.
pub proof fn lemma_sort_key_cycle(k: SortKey)
    ensures
        sort_key_iter(k, 9) == k,
        forall|n: nat| 0 < n < 9 ==> #[trigger] sort_key_iter(k, n) != k,
{
    assert(sort_key_iter(k, 0) == k);
    assert(sort_key_iter(k, 1) == next_sort_key(sort_key_iter(k, 0)));
    assert(sort_key_iter(k, 2) == next_sort_key(sort_key_iter(k, 1)));
    assert(sort_key_iter(k, 3) == next_sort_key(sort_key_iter(k, 2)));
    assert(sort_key_iter(k, 4) == next_sort_key(sort_key_iter(k, 3)));
    assert(sort_key_iter(k, 5) == next_sort_key(sort_key_iter(k, 4)));
    assert(sort_key_iter(k, 6) == next_sort_key(sort_key_iter(k, 5)));
    assert(sort_key_iter(k, 7) == next_sort_key(sort_key_iter(k, 6)));
    assert(sort_key_iter(k, 8) == next_sort_key(sort_key_iter(k, 7)));
    assert(sort_key_iter(k, 9) == next_sort_key(sort_key_iter(k, 8)));
    assert forall|n: nat| 0 < n < 9 implies #[trigger] sort_key_iter(k, n) != k by {
        assert(n == 1 || n == 2 || n == 3 || n == 4 || n == 5 || n == 6 || n == 7 || n == 8);
        match k {
            SortKey::Added => {},
            SortKey::Title => {},
            SortKey::Artist => {},
            SortKey::Album => {},
            SortKey::Format => {},
            SortKey::Size => {},
            SortKey::Duration => {},
            SortKey::Bitrate => {},
            SortKey::Status => {},
        }
    }
}

/// Album/artist grouping of the Library tab.
#[derive(Clone, Copy, PartialEq, Eq, Structural, Debug)]
pub enum GroupMode {
    Off,
    Artist,
    Album,
}

/// Successor in the grouping cycle.
pub open spec fn next_group_mode(g: GroupMode) -> GroupMode {
    match g {
        GroupMode::Off => GroupMode::Artist,
        GroupMode::Artist => GroupMode::Album,
        GroupMode::Album => GroupMode::Off,
    }
}

impl GroupMode {
    /// Off -> artist -> album -> off.
    pub fn next(self) -> (res: GroupMode)
        ensures
            res == next_group_mode(self),
    {
        match self {
            GroupMode::Off => GroupMode::Artist,
            GroupMode::Artist => GroupMode::Album,
            GroupMode::Album => GroupMode::Off,
        }
    }

    /// The mode's name.
    pub fn label(self) -> (res: &'static str)
        ensures
            self == GroupMode::Off ==> res@ == "off"@,
            self == GroupMode::Artist ==> res@ == "artist"@,
            self == GroupMode::Album ==> res@ == "album"@,
    {
        proof {
            reveal_strlit("off");
            reveal_strlit("artist");
            reveal_strlit("album");
        }
        match self {
            GroupMode::Off => "off",
            GroupMode::Artist => "artist",
            GroupMode::Album => "album",
        }
    }
}

/// Three steps of the grouping cycle return to the start.
pub proof fn lemma_group_mode_cycle(g: GroupMode)
    ensures
        next_group_mode(next_group_mode(next_group_mode(g))) == g,
        next_group_mode(g) != g,
{
}

/// Facet filters applied in memory on top of a tab's base query.
pub struct Filter {
    pub format: Option<String>,
    pub min_bitrate: Option<u32>,
    pub no_isrc: bool,
    pub unhealthy: bool,
}

/// Some facet is set.
pub open spec fn filter_active(f: Filter) -> bool {
    f.format is Some || f.min_bitrate is Some || f.no_isrc || f.unhealthy
}

/// `t` passes every active facet of `f`.
pub open spec fn filter_accepts(f: Filter, t: TrackSummary) -> bool {
    &&& (f.format matches Some(fmt) ==> (t.file_format matches Some(tf) && eq_ignore_ascii_case(tf@, fmt@)))
    &&& (f.min_bitrate matches Some(min) ==> (match t.bitrate { Some(b) => b, None => 0u32 }) >= min)
    &&& (f.no_isrc ==> !(t.isrc matches Some(i) && i@.len() > 0))
    &&& (f.unhealthy ==> t.health_issue is Some)
}

/// The bitrate a facet compares, unknown counting as zero.
pub open spec fn bitrate_or_zero(t: TrackSummary) -> int {
    match t.bitrate {
        Some(b) => b as int,
        None => 0,
    }
}

/// What each facet keeps. With no facet every track passes. A minimum
/// bitrate `m` keeps exactly the tracks whose bitrate (zero when unknown) is
/// at least `m`, so a track above the minimum is never hidden. A format keeps
/// only tracks of that format (ASCII case ignored); "no ISRC" keeps only
/// tracks without a non-empty ISRC; "unhealthy" keeps only tracks with a
/// health problem. Setting a further facet never lets more tracks through.
pub proof fn lemma_facets_keep_what_they_name(f: Filter, t: TrackSummary)
    ensures
        !filter_active(f) ==> filter_accepts(f, t),
        f.min_bitrate matches Some(m) ==> ((f.format is None && !f.no_isrc && !f.unhealthy)
            ==> (filter_accepts(f, t) <==> bitrate_or_zero(t) >= m)),
        f.min_bitrate matches Some(m) ==> (filter_accepts(f, t) ==> bitrate_or_zero(t) >= m),
        f.format matches Some(fmt) ==> (filter_accepts(f, t) ==> (t.file_format matches Some(tf)
            && eq_ignore_ascii_case(tf@, fmt@))),
        (filter_accepts(f, t) && f.no_isrc) ==> !(t.isrc matches Some(i) && i@.len() > 0),
        (filter_accepts(f, t) && f.unhealthy) ==> t.health_issue is Some,
        filter_accepts(f, t) ==> filter_accepts(Filter { min_bitrate: None, ..f }, t)
            && filter_accepts(Filter { format: None, ..f }, t)
            && filter_accepts(Filter { no_isrc: false, ..f }, t)
            && filter_accepts(Filter { unhealthy: false, ..f }, t),
{
}

/// Text of the active facets, in order, separated by single spaces.
pub open spec fn filter_parts(f: Filter) -> Seq<Seq<char>> {
    let a = match f.format { Some(fmt) => seq!["fmt="@ + fmt@], None => Seq::empty() };
    let b = match f.min_bitrate { Some(m) => seq!["≥"@ + decimal(m as nat) + "kbps"@], None => Seq::empty() };
    let c = if f.no_isrc { seq!["no-isrc"@] } else { Seq::empty() };
    let d = if f.unhealthy { seq!["unhealthy"@] } else { Seq::empty() };
    a + b + c + d
}

/// The pieces joined with `sep` between neighbours.
pub open spec fn join(parts: Seq<Seq<char>>, sep: Seq<char>) -> Seq<char>
    decreases parts.len(),
{
    if parts.len() == 0 {
        Seq::empty()
    } else if parts.len() == 1 {
        parts[0]
    } else {
        join(parts.drop_last(), sep) + sep + parts.last()
    }
}

impl Filter {
    /// A filter with no facet set.
    pub fn new() -> (res: Filter)
        ensures
            !filter_active(res),
    {
        Filter { format: None, min_bitrate: None, no_isrc: false, unhealthy: false }
    }

    /// Whether any facet is set.
    pub fn is_active(&self) -> (res: bool)
        ensures
            res == filter_active(*self),
    {
        self.format.is_some() || self.min_bitrate.is_some() || self.no_isrc || self.unhealthy
    }

    /// Resets every facet.
    pub fn clear(&mut self)
        ensures
            !filter_active(*final(self)),
            final(self).format is None,
            final(self).min_bitrate is None,
            !final(self).no_isrc,
            !final(self).unhealthy,
    {
        *self = Filter::new();
    }

    /// Whether `t` passes all active facets.
    pub fn matches(&self, t: &TrackSummary) -> (res: bool)
        ensures
            res == filter_accepts(*self, *t),
            self.min_bitrate matches Some(m) ==> (res ==> bitrate_or_zero(*t) >= m),
            self.min_bitrate matches Some(m) ==> ((self.format is None && !self.no_isrc && !self.unhealthy)
                ==> (res <==> bitrate_or_zero(*t) >= m)),
    {
        proof {
            lemma_facets_keep_what_they_name(*self, *t);
        }
        if let Some(fmt) = &self.format {
            let ok = match &t.file_format {
                Some(tf) => {
                    let a = chars_of(tf.as_str());
                    let b = chars_of(fmt.as_str());
                    eq_ignore_ascii_case_chars(&a, &b)
                },
                None => false,
            };
            if !ok {
                return false;
            }
        }
        if let Some(min) = self.min_bitrate {
            let b = match t.bitrate { Some(b) => b, None => 0 };
            if b < min {
                return false;
            }
        }
        if self.no_isrc {
            let has = match &t.isrc {
                Some(i) => {
                    let v = chars_of(i.as_str());
                    v.len() > 0
                },
                None => false,
            };
            if has {
                return false;
            }
        }
        if self.unhealthy && t.health_issue.is_none() {
            return false;
        }
        true
    }

    /// Short text of the active facets for the filter indicator, e.g. `fmt=FLAC ≥320kbps`.
    pub fn describe(&self) -> (res: String)
        ensures
            res@ == join(filter_parts(*self), " "@),
    {
        proof {
            reveal_strlit("fmt=");
            reveal_strlit("≥");
            reveal_strlit("kbps");
            reveal_strlit("no-isrc");
            reveal_strlit("unhealthy");
            reveal_strlit(" ");
        }
        let ghost f = *self;
        let mut parts: Vec<Vec<char>> = Vec::new();
        if let Some(fmt) = &self.format {
            let mut p = chars_of("fmt=");
            let t = chars_of(fmt.as_str());
            extend_chars(&mut p, &t);
            parts.push(p);
        }
        if let Some(b) = self.min_bitrate {
            let mut p = chars_of("≥");
            let d = decimal_chars(b as u64);
            extend_chars(&mut p, &d);
            let k = chars_of("kbps");
            extend_chars(&mut p, &k);
            parts.push(p);
        }
        if self.no_isrc {
            parts.push(chars_of("no-isrc"));
        }
        if self.unhealthy {
            parts.push(chars_of("unhealthy"));
        }
        let ghost pv = parts@.map_values(|p: Vec<char>| p@);
        assert(pv =~= filter_parts(f));
        let mut out: Vec<char> = Vec::new();
        let mut i: usize = 0;
        while i < parts.len()
            invariant
                i <= parts@.len(),
                pv == parts@.map_values(|p: Vec<char>| p@),
                out@ == join(pv.take(i as int), " "@),
                " "@ == seq![' '],
            decreases parts@.len() - i,
        {
            let ghost before = out@;
            if i > 0 {
                out.push(' ');
            }
            extend_chars(&mut out, &parts[i]);
            proof {
                let t = pv.take(i + 1);
                assert(t.drop_last() =~= pv.take(i as int));
                if i == 0 {
                    assert(t.len() == 1);
                    assert(out@ =~= t[0]);
                } else {
                    assert(out@ =~= join(t.drop_last(), " "@) + " "@ + t.last());
                }
            }
            i += 1;
        }
        assert(pv.take(parts@.len() as int) =~= pv);
        string_of(&out)
    }
}

/// The track's title, artist, album, album artist or genre contains the
/// (already lower-cased) query once lower-cased.
pub open spec fn query_hits(t: TrackSummary, query_lower: Seq<char>) -> bool {
    let hit = |f: Option<String>| match f {
        Some(v) => contains_seq(spec_to_lowercase(v@), query_lower),
        None => false,
    };
    hit(t.title) || hit(t.artist) || hit(t.album) || hit(t.album_artist) || hit(t.genre)
}

fn field_hits(f: &Option<String>, q: &Vec<char>) -> (res: bool)
    ensures
        res == match *f {
            Some(v) => contains_seq(spec_to_lowercase(v@), q@),
            None => false,
        },
{
    match f {
        Some(v) => {
            let l = to_lowercase(v.as_str());
            let lc = chars_of(l.as_str());
            contains_chars(&lc, q)
        },
        None => false,
    }
}

/// True if the track matches a free-text query across title, artist, album,
/// album artist and genre.
pub fn matches_query(t: &TrackSummary, query_lower: &str) -> (res: bool)
    ensures
        res == query_hits(*t, query_lower@),
{
    let q = chars_of(query_lower);
    field_hits(&t.title, &q) || field_hits(&t.artist, &q) || field_hits(&t.album, &q)
        || field_hits(&t.album_artist, &q) || field_hits(&t.genre, &q)
}

/// Which rows a tab shows.
#[derive(Clone, Copy, PartialEq, Eq, Structural, Debug)]
pub enum TabSource {
    /// Every track of the library.
    All,
    /// Tracks whose status is `pending`.
    Pending,
    /// Tracks whose status is `missing`.
    Missing,
    /// Tracks flagged for deletion (the Trash tab).
    Marked,
    /// Enrichment dead letters: `failed` + `not_found`.
    DeadLetter,
    /// The duplicate-groups view (rendered from the duplicates state).
    Duplicates,
}

/// The tabs of the main screen.
#[derive(Clone, Copy, PartialEq, Eq, Structural, Debug)]
pub enum TabKind {
    Library,
    Enrichment,
    Duplicates,
    Failed,
    Missing,
    Trash,
}

impl TabKind {
    /// The tab's title.
    pub fn label(self) -> (res: &'static str)
        ensures
            self == TabKind::Library ==> res@ == "Library"@,
            self == TabKind::Enrichment ==> res@ == "Enrichment"@,
            self == TabKind::Duplicates ==> res@ == "Duplicates"@,
            self == TabKind::Failed ==> res@ == "Failed"@,
            self == TabKind::Missing ==> res@ == "Missing"@,
            self == TabKind::Trash ==> res@ == "Trash"@,
    {
        proof {
            reveal_strlit("Library");
            reveal_strlit("Enrichment");
            reveal_strlit("Duplicates");
            reveal_strlit("Failed");
            reveal_strlit("Missing");
            reveal_strlit("Trash");
        }
        match self {
            TabKind::Library => "Library",
            TabKind::Enrichment => "Enrichment",
            TabKind::Duplicates => "Duplicates",
            TabKind::Failed => "Failed",
            TabKind::Missing => "Missing",
            TabKind::Trash => "Trash",
        }
    }

    /// Where the tab's rows come from.
    pub fn source(self) -> (res: TabSource)
        ensures
            res == tab_source(self),
    {
        match self {
            TabKind::Library => TabSource::All,
            TabKind::Enrichment => TabSource::Pending,
            TabKind::Duplicates => TabSource::Duplicates,
            TabKind::Failed => TabSource::DeadLetter,
            TabKind::Missing => TabSource::Missing,
            TabKind::Trash => TabSource::Marked,
        }
    }
}

/// Where a tab's rows come from.
pub open spec fn tab_source(k: TabKind) -> TabSource {
    match k {
        TabKind::Library => TabSource::All,
        TabKind::Enrichment => TabSource::Pending,
        TabKind::Duplicates => TabSource::Duplicates,
        TabKind::Failed => TabSource::DeadLetter,
        TabKind::Missing => TabSource::Missing,
        TabKind::Trash => TabSource::Marked,
    }
}

/// One tab of the main screen: its rows, highlighted row, order, facets and query.
pub struct TabData {
    pub kind: TabKind,
    pub tracks: Vec<TrackSummary>,
    /// Highlighted row, if any.
    pub selected: Option<usize>,
    pub sort: SortKey,
    pub sort_desc: bool,
    pub filter: Filter,
    /// Remembered search query for this tab.
    pub search_query: String,
}

/// The highlight, when there is one, is on a row.
pub open spec fn selection_valid(selected: Option<usize>, len: nat) -> bool {
    match selected {
        None => true,
        Some(i) => i < len,
    }
}

/// The highlight after the rows changed: kept when still on a row, moved to
/// the last row when past the end, first row when there was none, and absent
/// when there are no rows.
pub open spec fn clamp_selection(selected: Option<usize>, len: nat) -> Option<usize> {
    if len == 0 {
        None
    } else {
        let s = match selected { Some(i) => i as int, None => 0 };
        Some(if s < len { s as usize } else { (len - 1) as usize })
    }
}

/// Rows whose title/artist/album contain the lower-cased query.
pub open spec fn rows_matching_query(rows: Seq<TrackSummary>, query_lower: Seq<char>) -> Seq<TrackSummary> {
    rows.filter(|t: TrackSummary| query_hits(t, query_lower))
}

/// Rows that pass every facet of `f`.
pub open spec fn rows_passing(rows: Seq<TrackSummary>, f: Filter) -> Seq<TrackSummary> {
    rows.filter(|t: TrackSummary| filter_accepts(f, t))
}

fn keep_query_hits(rows: Vec<TrackSummary>, query_lower: &str) -> (res: Vec<TrackSummary>)
    ensures
        res@ == rows_matching_query(rows@, query_lower@),
{
    let ghost orig = rows@;
    let mut rev: Vec<TrackSummary> = Vec::new();
    let mut src = rows;
    while src.len() > 0
        invariant
            src@.len() + rev@.len() == orig.len(),
            src@ == orig.take(src@.len() as int),
            forall|j: int| 0 <= j < rev@.len() ==> #[trigger] rev@[j] == orig[orig.len() - 1 - j],
        decreases src@.len(),
    {
        let x = src.pop().unwrap();
        rev.push(x);
    }
    let mut out: Vec<TrackSummary> = Vec::new();
    let ghost mut k: int = 0;
    while rev.len() > 0
        invariant
            0 <= k <= orig.len(),
            rev@.len() == orig.len() - k,
            forall|j: int| 0 <= j < rev@.len() ==> #[trigger] rev@[j] == orig[orig.len() - 1 - j],
            out@ == rows_matching_query(orig.take(k), query_lower@),
        decreases rev@.len(),
    {
        let x = rev.pop().unwrap();
        proof {
            assert(x == orig[k]);
            assert(orig.take(k + 1).drop_last() =~= orig.take(k));
            reveal_with_fuel(Seq::filter, 1);
        }
        if matches_query(&x, query_lower) {
            out.push(x);
        }
        proof { k = k + 1; }
    }
    assert(orig.take(k) =~= orig);
    out
}

fn keep_passing(rows: Vec<TrackSummary>, f: &Filter) -> (res: Vec<TrackSummary>)
    ensures
        res@ == rows_passing(rows@, *f),
{
    let ghost orig = rows@;
    let mut rev: Vec<TrackSummary> = Vec::new();
    let mut src = rows;
    while src.len() > 0
        invariant
            src@.len() + rev@.len() == orig.len(),
            src@ == orig.take(src@.len() as int),
            forall|j: int| 0 <= j < rev@.len() ==> #[trigger] rev@[j] == orig[orig.len() - 1 - j],
        decreases src@.len(),
    {
        let x = src.pop().unwrap();
        rev.push(x);
    }
    let mut out: Vec<TrackSummary> = Vec::new();
    let ghost mut k: int = 0;
    while rev.len() > 0
        invariant
            0 <= k <= orig.len(),
            rev@.len() == orig.len() - k,
            forall|j: int| 0 <= j < rev@.len() ==> #[trigger] rev@[j] == orig[orig.len() - 1 - j],
            out@ == rows_passing(orig.take(k), *f),
        decreases rev@.len(),
    {
        let x = rev.pop().unwrap();
        proof {
            assert(x == orig[k]);
            assert(orig.take(k + 1).drop_last() =~= orig.take(k));
            reveal_with_fuel(Seq::filter, 1);
        }
        if f.matches(&x) {
            out.push(x);
        }
        proof { k = k + 1; }
    }
    assert(orig.take(k) =~= orig);
    out
}

/// The rows a tab shows for freshly loaded `rows`: for the Trash and Failed
/// tabs (which have no query in the database) the remembered query is applied
/// here; then the active facets.
pub open spec fn visible_rows(kind: TabKind, query: Seq<char>, f: Filter, rows: Seq<TrackSummary>) -> Seq<TrackSummary> {
    let q = if query.len() > 0 && (tab_source(kind) == TabSource::Marked || tab_source(kind) == TabSource::DeadLetter) {
        rows_matching_query(rows, spec_to_lowercase(query))
    } else {
        rows
    };
    if filter_active(f) { rows_passing(q, f) } else { q }
}

/// `n` is `o` after installing freshly loaded `rows`: the rows the tab shows
/// (query of Trash/Failed, facets), stably sorted by the tab's order, with the
/// highlight kept on a row; nothing else changes.
pub open spec fn rows_installed(o: TabData, rows: Seq<TrackSummary>, n: TabData) -> bool {
    &&& exists|s: Seq<TrackSummary>|
        stable_sort_of(visible_rows(o.kind, o.search_query@, o.filter, rows), s, o.sort)
        && n.tracks@ == (if o.sort_desc { s.reverse() } else { s })
    &&& n.selected == clamp_selection(o.selected, n.tracks@.len())
    &&& selection_valid(n.selected, n.tracks@.len())
    &&& n == (TabData { tracks: n.tracks, selected: n.selected, ..o })
}

impl TabData {
    /// A tab with the given rows, in insertion order, nothing highlighted or filtered.
    pub fn new(kind: TabKind, tracks: Vec<TrackSummary>) -> (res: TabData)
        ensures
            res.kind == kind,
            res.tracks@ == tracks@,
            res.selected is None,
            res.sort == SortKey::Added,
            !res.sort_desc,
            !filter_active(res.filter),
            res.search_query@.len() == 0,
    {
        TabData {
            kind,
            tracks,
            selected: None,
            sort: SortKey::Added,
            sort_desc: false,
            filter: Filter::new(),
            search_query: String::new(),
        }
    }

    /// Re-applies the active order to the loaded rows.
    pub fn apply_sort(&mut self)
        ensures
            exists|s: Seq<TrackSummary>| stable_sort_of(old(self).tracks@, s, old(self).sort)
                && final(self).tracks@ == (if old(self).sort_desc { s.reverse() } else { s }),
            *final(self) == (TabData { tracks: final(self).tracks, ..*old(self) }),
    {
        let key = self.sort;
        let desc = self.sort_desc;
        sort_tracks(&mut self.tracks, key, desc);
    }

    /// Advances to the next sort key (wrapping) and re-sorts.
    pub fn cycle_sort(&mut self)
        ensures
            final(self).sort == next_sort_key(old(self).sort),
            final(self).sort_desc == old(self).sort_desc,
            exists|s: Seq<TrackSummary>| stable_sort_of(old(self).tracks@, s, next_sort_key(old(self).sort))
                && final(self).tracks@ == (if old(self).sort_desc { s.reverse() } else { s }),
            *final(self) == (TabData { tracks: final(self).tracks, sort: next_sort_key(old(self).sort), ..*old(self) }),
    {
        self.sort = self.sort.next();
        self.apply_sort();
    }

    /// Flips the sort direction and re-sorts.
    pub fn toggle_sort_dir(&mut self)
        ensures
            final(self).sort == old(self).sort,
            final(self).sort_desc == !old(self).sort_desc,
            exists|s: Seq<TrackSummary>| stable_sort_of(old(self).tracks@, s, old(self).sort)
                && final(self).tracks@ == (if !old(self).sort_desc { s.reverse() } else { s }),
            *final(self) == (TabData { tracks: final(self).tracks, sort_desc: !old(self).sort_desc, ..*old(self) }),
    {
        self.sort_desc = !self.sort_desc;
        self.apply_sort();
    }

    /// Installs freshly loaded rows: applies the in-memory query (Trash/Failed)
    /// and facets, re-sorts, and keeps the highlight on a row.
    pub fn install_rows(&mut self, rows: Vec<TrackSummary>)
        ensures
            rows_installed(*old(self), rows@, *final(self)),
    {
        let ghost query = self.search_query@;
        let ghost orig_rows = rows@;
        let ghost qexp = if query.len() > 0 && (tab_source(self.kind) == TabSource::Marked
            || tab_source(self.kind) == TabSource::DeadLetter) {
            rows_matching_query(orig_rows, spec_to_lowercase(query))
        } else {
            orig_rows
        };
        let src = self.kind.source();
        let qv = chars_of(self.search_query.as_str());
        let mut rows = rows;
        if qv.len() > 0 && (src == TabSource::Marked || src == TabSource::DeadLetter) {
            let ql = to_lowercase(self.search_query.as_str());
            rows = keep_query_hits(rows, ql.as_str());
        }
        assert(rows@ == qexp);
        if self.filter.is_active() {
            rows = keep_passing(rows, &self.filter);
        }
        assert(rows@ == visible_rows(self.kind, query, self.filter, orig_rows));
        self.tracks = rows;
        self.apply_sort();
        let n = self.tracks.len();
        if n == 0 {
            self.selected = None;
        } else {
            let s = match self.selected { Some(i) => i, None => 0 };
            self.selected = Some(if s < n { s } else { n - 1 });
        }
    }
}

/// Library counters shown on the start screen.
pub struct LibraryStats {
    pub total_tracks: u32,
    pub total_pending: u32,
    pub total_duplicates: u32,
    pub total_missing: u32,
    pub total_marked: u32,
}

/// The screens of the interface.
#[derive(Clone, Copy, PartialEq, Eq, Structural, Debug)]
pub enum Screens {
    Start,
    Main,
    Scanning,
    Stats,
}

/// Severity of a status-bar message.
#[derive(Clone, Copy, PartialEq, Eq, Structural, Debug)]
pub enum StatusLevel {
    Info,
    Success,
    Warning,
    Error,
}

/// A transient status-bar message and when it was shown (milliseconds of a
/// monotonic clock kept by the caller).
pub struct StatusMessage {
    pub text: String,
    pub level: StatusLevel,
    pub at_millis: u64,
}

/// Whether a message shown at `at_millis` has been on screen for more than six seconds.
pub fn status_expired(at_millis: u64, now_millis: u64) -> (res: bool)
    ensures
        res == (now_millis > at_millis && now_millis - at_millis > 6000),
{
    now_millis > at_millis && now_millis - at_millis > 6000
}

/// One aggregated row of the grouped (artist/album) browse view.
pub struct GroupRow {
    pub name: String,
    pub count: i64,
    pub total_size: i64,
    pub total_duration: i64,
}

/// The editable tag fields, in editor order.
#[derive(Clone, Copy, PartialEq, Eq, Structural, Debug)]
pub enum TagField {
    Title,
    Artist,
    Album,
    AlbumArtist,
    Genre,
    Comment,
    Track,
    Disc,
    Year,
}

impl TagField {
    /// The field's label in the editor.
    pub fn label(self) -> (res: &'static str)
        ensures
            self == TagField::Title ==> res@ == "Title"@,
            self == TagField::Artist ==> res@ == "Artist"@,
            self == TagField::Album ==> res@ == "Album"@,
            self == TagField::AlbumArtist ==> res@ == "Album Artist"@,
            self == TagField::Genre ==> res@ == "Genre"@,
            self == TagField::Comment ==> res@ == "Comment"@,
            self == TagField::Track ==> res@ == "Track #"@,
            self == TagField::Disc ==> res@ == "Disc #"@,
            self == TagField::Year ==> res@ == "Year"@,
    {
        proof {
            reveal_strlit("Title");
            reveal_strlit("Artist");
            reveal_strlit("Album");
            reveal_strlit("Album Artist");
            reveal_strlit("Genre");
            reveal_strlit("Comment");
            reveal_strlit("Track #");
            reveal_strlit("Disc #");
            reveal_strlit("Year");
        }
        match self {
            TagField::Title => "Title",
            TagField::Artist => "Artist",
            TagField::Album => "Album",
            TagField::AlbumArtist => "Album Artist",
            TagField::Genre => "Genre",
            TagField::Comment => "Comment",
            TagField::Track => "Track #",
            TagField::Disc => "Disc #",
            TagField::Year => "Year",
        }
    }
}

/// The editor's field order.
pub open spec fn editor_fields() -> Seq<TagField> {
    seq![
        TagField::Title, TagField::Artist, TagField::Album, TagField::AlbumArtist, TagField::Genre,
        TagField::Comment, TagField::Track, TagField::Disc, TagField::Year,
    ]
}

/// In-progress manual tag edit for one track: the fields in a fixed order and
/// the field being typed into.
pub struct EditState {
    pub track_id: i64,
    pub file_path: String,
    pub fields: Vec<(TagField, String)>,
    pub focus: usize,
}

/// Text of an optional tag for the editor (empty when absent).
pub open spec fn opt_field_text(o: Option<String>) -> Seq<char> {
    match o { Some(v) => v@, None => Seq::empty() }
}

/// Text of an optional number for the editor (empty when absent).
pub open spec fn opt_num_text(o: Option<u32>) -> Seq<char> {
    match o { Some(v) => decimal(v as nat), None => Seq::empty() }
}

/// The editor's initial field texts for a track.
pub open spec fn initial_field_texts(t: TrackInfo) -> Seq<Seq<char>> {
    seq![
        opt_field_text(t.title), opt_field_text(t.artist), opt_field_text(t.album),
        opt_field_text(t.album_artist), opt_field_text(t.genre), opt_field_text(t.comment),
        opt_num_text(t.track), opt_num_text(t.disc), opt_num_text(t.release_year),
    ]
}

/// The text of the first field labelled `f` (empty when there is none).
pub open spec fn field_value(fields: Seq<(TagField, String)>, f: TagField) -> Seq<char>
    decreases fields.len(),
{
    if fields.len() == 0 {
        Seq::empty()
    } else if fields[0].0 == f {
        fields[0].1@
    } else {
        field_value(fields.drop_first(), f)
    }
}

fn opt_string(o: &Option<String>) -> (res: String)
    ensures
        res@ == opt_field_text(*o),
{
    match o {
        Some(v) => v.clone(),
        None => String::new(),
    }
}

fn opt_number(o: &Option<u32>) -> (res: String)
    ensures
        res@ == opt_num_text(*o),
{
    match o {
        Some(v) => {
            let d = decimal_chars(*v as u64);
            string_of(&d)
        },
        None => String::new(),
    }
}

impl EditState {
    /// Opens the editor on a stored track; `None` when the track has no id.
    pub fn from_track(track: &TrackInfo) -> (res: Option<EditState>)
        ensures
            track.id is None ==> res is None,
            track.id matches Some(id) ==> (res matches Some(e) && {
                &&& e.track_id == id
                &&& e.file_path@ == track.file_path@
                &&& e.focus == 0
                &&& e.fields@.len() == 9
                &&& forall|i: int| 0 <= i < 9 ==> (#[trigger] e.fields@[i]).0 == editor_fields()[i]
                    && e.fields@[i].1@ == initial_field_texts(*track)[i]
            }),
    {
        let id = match track.id {
            Some(id) => id,
            None => return None,
        };
        let mut fields: Vec<(TagField, String)> = Vec::new();
        fields.push((TagField::Title, opt_string(&track.title)));
        fields.push((TagField::Artist, opt_string(&track.artist)));
        fields.push((TagField::Album, opt_string(&track.album)));
        fields.push((TagField::AlbumArtist, opt_string(&track.album_artist)));
        fields.push((TagField::Genre, opt_string(&track.genre)));
        fields.push((TagField::Comment, opt_string(&track.comment)));
        fields.push((TagField::Track, opt_number(&track.track)));
        fields.push((TagField::Disc, opt_number(&track.disc)));
        fields.push((TagField::Year, opt_number(&track.release_year)));
        Some(EditState { track_id: id, file_path: track.file_path.clone(), fields, focus: 0 })
    }

    /// The text of the field `f` (empty when the editor has no such field).
    pub fn value(&self, f: TagField) -> (res: String)
        ensures
            res@ == field_value(self.fields@, f),
    {
        let mut i: usize = 0;
        assert(self.fields@.skip(0) =~= self.fields@);
        while i < self.fields.len()
            invariant
                i <= self.fields@.len(),
                field_value(self.fields@, f) == field_value(self.fields@.skip(i as int), f),
            decreases self.fields@.len() - i,
        {
            if self.fields[i].0 == f {
                return self.fields[i].1.clone();
            }
            assert(self.fields@.skip(i as int).drop_first() =~= self.fields@.skip(i + 1));
            i += 1;
        }
        String::new()
    }

    /// The tag-edit payload from the current field texts.
    pub fn to_tag_edits(&self) -> (res: TagEdits)
        ensures
            res.title@ == field_value(self.fields@, TagField::Title),
            res.artist@ == field_value(self.fields@, TagField::Artist),
            res.album@ == field_value(self.fields@, TagField::Album),
            res.album_artist@ == field_value(self.fields@, TagField::AlbumArtist),
            res.genre@ == field_value(self.fields@, TagField::Genre),
            res.comment@ == field_value(self.fields@, TagField::Comment),
            res.track@ == field_value(self.fields@, TagField::Track),
            res.disc@ == field_value(self.fields@, TagField::Disc),
            res.year@ == field_value(self.fields@, TagField::Year),
    {
        TagEdits {
            title: self.value(TagField::Title),
            artist: self.value(TagField::Artist),
            album: self.value(TagField::Album),
            album_artist: self.value(TagField::AlbumArtist),
            genre: self.value(TagField::Genre),
            comment: self.value(TagField::Comment),
            track: self.value(TagField::Track),
            disc: self.value(TagField::Disc),
            year: self.value(TagField::Year),
        }
    }

    /// Moves the focus to the previous field (stays on the first).
    pub fn focus_prev(&mut self)
        ensures
            final(self).focus == (if old(self).focus > 0 { (old(self).focus - 1) as usize } else { 0 }),
            *final(self) == (EditState { focus: final(self).focus, ..*old(self) }),
    {
        self.focus = if self.focus > 0 { self.focus - 1 } else { 0 };
    }

    /// Moves the focus to the next field (stays on the last).
    pub fn focus_next(&mut self)
        ensures
            final(self).focus == (if old(self).focus + 1 < old(self).fields@.len() {
                (old(self).focus + 1) as usize
            } else {
                old(self).focus
            }),
            *final(self) == (EditState { focus: final(self).focus, ..*old(self) }),
    {
        if self.focus < self.fields.len() && self.focus + 1 < self.fields.len() {
            self.focus += 1;
        }
    }

    /// Types a character into the focused field.
    pub fn push_char(&mut self, c: char)
        ensures
            field_texts(final(self).fields@) == typed_texts(field_texts(old(self).fields@), old(self).focus as int, Some(c)),
            *final(self) == (EditState { fields: final(self).fields, ..*old(self) }),
    {
        if self.focus < self.fields.len() {
            let ghost before = self.fields@;
            let i = self.focus;
            let (f, mut v) = self.fields.remove(i);
            push_char(&mut v, c);
            self.fields.insert(i, (f, v));
            proof { lemma_texts_after_update(before, i as int, f, v); }
        }
    }

    /// Deletes the last character of the focused field.
    pub fn backspace(&mut self)
        ensures
            field_texts(final(self).fields@) == typed_texts(field_texts(old(self).fields@), old(self).focus as int, None),
            *final(self) == (EditState { fields: final(self).fields, ..*old(self) }),
    {
        if self.focus < self.fields.len() {
            let ghost before = self.fields@;
            let i = self.focus;
            let (f, mut v) = self.fields.remove(i);
            let _ = pop_char(&mut v);
            self.fields.insert(i, (f, v));
            proof { lemma_texts_after_update(before, i as int, f, v); }
        }
    }
}

/// The text views of the editor's fields.
pub open spec fn field_texts(fields: Seq<(TagField, String)>) -> Seq<(TagField, Seq<char>)> {
    fields.map_values(|p: (TagField, String)| (p.0, p.1@))
}

/// The field texts after typing `c` (deleting the last character, for
/// `None`) in field `f`.
pub open spec fn typed_texts(texts: Seq<(TagField, Seq<char>)>, f: int, c: Option<char>) -> Seq<(TagField, Seq<char>)> {
    match c {
        Some(ch) => if 0 <= f < texts.len() {
            texts.update(f, (texts[f].0, texts[f].1.push(ch)))
        } else {
            texts
        },
        None => if 0 <= f < texts.len() && texts[f].1.len() > 0 {
            texts.update(f, (texts[f].0, texts[f].1.drop_last()))
        } else {
            texts
        },
    }
}

proof fn lemma_texts_after_update(before: Seq<(TagField, String)>, i: int, f: TagField, v: String)
    requires
        0 <= i < before.len(),
    ensures
        field_texts(before.remove(i).insert(i, (f, v))) == field_texts(before).update(i, (f, v@)),
{
    assert(before.remove(i).insert(i, (f, v)) =~= before.update(i, (f, v)));
    assert(field_texts(before.update(i, (f, v))) =~= field_texts(before).update(i, (f, v@)));
}

/// Typing a character into a field and deleting it again leaves every field
/// as it was.
pub proof fn lemma_backspace_undoes_push(texts: Seq<(TagField, Seq<char>)>, f: int, c: char)
    ensures
        typed_texts(typed_texts(texts, f, Some(c)), f, None) == texts,
{
    if 0 <= f < texts.len() {
        assert(texts[f].1.push(c).drop_last() =~= texts[f].1);
        assert(typed_texts(typed_texts(texts, f, Some(c)), f, None) =~= texts);
    }
}

/// Which pane of the duplicates view has the focus.
#[derive(Clone, Copy, PartialEq, Eq, Structural, Debug)]
pub enum DuplicatePane {
    Groups,
    Members,
}

/// The ranking of a duplicate-group member as a keeper candidate:
/// bitrate, then file size, then how many of title/artist/album/ISRC are present.
pub open spec fn keeper_rank(m: TrackSummary) -> (int, int, int) {
    (
        match m.bitrate { Some(b) => b as int, None => 0 },
        match m.file_size { Some(s) => s as int, None => 0 },
        (if m.title is Some { 1int } else { 0 }) + (if m.artist is Some { 1int } else { 0 })
            + (if m.album is Some { 1int } else { 0 }) + (if m.isrc is Some { 1int } else { 0 }),
    )
}

/// Lexicographic order on ranks.
pub open spec fn rank_le(a: (int, int, int), b: (int, int, int)) -> bool {
    a.0 < b.0 || (a.0 == b.0 && (a.1 < b.1 || (a.1 == b.1 && a.2 <= b.2)))
}

/// `i` is the best-ranked member; among equally ranked members, the last.
pub open spec fn is_suggested_keeper(members: Seq<TrackSummary>, i: int) -> bool {
    &&& 0 <= i < members.len()
    &&& forall|j: int| 0 <= j < members.len() ==> rank_le(keeper_rank(#[trigger] members[j]), keeper_rank(members[i]))
    &&& forall|j: int| i < j < members.len() ==> !rank_le(keeper_rank(members[i]), keeper_rank(#[trigger] members[j]))
}

/// How many of title, artist, album and ISRC a member has.
pub open spec fn tag_count(m: TrackSummary) -> int {
    (if m.title is Some { 1int } else { 0 }) + (if m.artist is Some { 1int } else { 0 })
        + (if m.album is Some { 1int } else { 0 }) + (if m.isrc is Some { 1int } else { 0 })
}

/// The suggested keeper has the highest bitrate in its group (unknown as
/// zero); file size decides only between members of equal bitrate, and tag
/// completeness only between members equal in both. Every later member is
/// strictly worse, so of equally good members the last is suggested.
pub proof fn lemma_keeper_has_the_best_bitrate(members: Seq<TrackSummary>, k: int)
    requires
        is_suggested_keeper(members, k),
    ensures
        0 <= k < members.len(),
        forall|j: int| 0 <= j < members.len() ==> {
            let b = members[k];
            let o = #[trigger] members[j];
            let (bb, ob) = (match b.bitrate { Some(x) => x as int, None => 0 }, match o.bitrate { Some(x) => x as int, None => 0 });
            let (bs, os) = (match b.file_size { Some(x) => x as int, None => 0 }, match o.file_size { Some(x) => x as int, None => 0 });
            &&& ob <= bb
            &&& ob == bb ==> os <= bs
            &&& (ob == bb && os == bs) ==> tag_count(o) <= tag_count(b)
            &&& k < j ==> (ob < bb || (ob == bb && os < bs) || (ob == bb && os == bs && tag_count(o) < tag_count(b)))
        },
{
    assert forall|j: int| 0 <= j < members.len() implies {
        let b = members[k];
        let o = #[trigger] members[j];
        let (bb, ob) = (match b.bitrate { Some(x) => x as int, None => 0 }, match o.bitrate { Some(x) => x as int, None => 0 });
        let (bs, os) = (match b.file_size { Some(x) => x as int, None => 0 }, match o.file_size { Some(x) => x as int, None => 0 });
        &&& ob <= bb
        &&& ob == bb ==> os <= bs
        &&& (ob == bb && os == bs) ==> tag_count(o) <= tag_count(b)
        &&& k < j ==> (ob < bb || (ob == bb && os < bs) || (ob == bb && os == bs && tag_count(o) < tag_count(b)))
    } by {
        assert(rank_le(keeper_rank(members[j]), keeper_rank(members[k])));
        if k < j {
            assert(!rank_le(keeper_rank(members[k]), keeper_rank(members[j])));
        }
    }
}

fn rank_of(m: &TrackSummary) -> (res: (u32, i64, u8))
    ensures
        res.0 as int == keeper_rank(*m).0,
        res.1 as int == keeper_rank(*m).1,
        res.2 as int == keeper_rank(*m).2,
{
    let c: u8 = (if m.title.is_some() { 1u8 } else { 0 }) + (if m.artist.is_some() { 1u8 } else { 0 })
        + (if m.album.is_some() { 1u8 } else { 0 }) + (if m.isrc.is_some() { 1u8 } else { 0 });
    (
        match m.bitrate { Some(b) => b, None => 0 },
        match m.file_size { Some(s) => s, None => 0 },
        c,
    )
}

fn rank_le_exec(a: (u32, i64, u8), b: (u32, i64, u8)) -> (res: bool)
    ensures
        res == rank_le((a.0 as int, a.1 as int, a.2 as int), (b.0 as int, b.1 as int, b.2 as int)),
{
    a.0 < b.0 || (a.0 == b.0 && (a.1 < b.1 || (a.1 == b.1 && a.2 <= b.2)))
}

/// The member to pre-select as the keeper: highest bitrate, then largest file,
/// then most complete tags; the last of equally ranked members. `None` when
/// there are no members.
pub fn suggest_keeper(members: &[TrackSummary]) -> (res: Option<usize>)
    ensures
        members@.len() == 0 ==> res is None,
        members@.len() > 0 ==> (res matches Some(i) && is_suggested_keeper(members@, i as int)),
        res matches Some(k) ==> forall|j: int| 0 <= j < members@.len() ==>
            (match (#[trigger] members@[j]).bitrate { Some(x) => x as int, None => 0 })
                <= (match members@[k as int].bitrate { Some(x) => x as int, None => 0 }),
{
    if members.len() == 0 {
        return None;
    }
    let mut best: usize = 0;
    let mut best_rank = rank_of(&members[0]);
    let mut i: usize = 1;
    while i < members.len()
        invariant
            1 <= i <= members@.len(),
            best < i,
            best_rank.0 as int == keeper_rank(members@[best as int]).0,
            best_rank.1 as int == keeper_rank(members@[best as int]).1,
            best_rank.2 as int == keeper_rank(members@[best as int]).2,
            forall|j: int| 0 <= j < i ==> rank_le(keeper_rank(#[trigger] members@[j]), keeper_rank(members@[best as int])),
            forall|j: int| best < j < i ==> !rank_le(keeper_rank(members@[best as int]), keeper_rank(#[trigger] members@[j])),
        decreases members@.len() - i,
    {
        let r = rank_of(&members[i]);
        if rank_le_exec(best_rank, r) {
            best = i;
            best_rank = r;
        }
        i += 1;
    }
    proof {
        lemma_keeper_has_the_best_bitrate(members@, best as int);
    }
    Some(best)
}

/// What resolving a duplicate group by keeping one member does: every member
/// with an id gets its deletion flag set (`true`) or cleared for the keeper,
/// and the ids that were flagged are reported.
pub struct KeepPlan {
    pub keeper_id: i64,
    /// `(id, flagged)` for every member with an id, in member order.
    pub updates: Vec<(i64, bool)>,
    /// The ids flagged for deletion (every member id but the keeper's).
    pub flagged: Vec<i64>,
}

/// Ids of the rows that have one, in order.
pub open spec fn member_ids(members: Seq<TrackSummary>) -> Seq<i64> {
    members.filter(|m: TrackSummary| m.id is Some).map_values(|m: TrackSummary| m.id.unwrap())
}

/// The duplicate-resolution view.
pub struct DuplicatesView {
    pub groups: Vec<DuplicateGroupSummary>,
    /// Highlighted group, if any.
    pub selected_group: Option<usize>,
    pub selected_members: Vec<TrackSummary>,
    /// Column of the highlighted member (the keeper candidate).
    pub selected_member: usize,
    pub focus: DuplicatePane,
    pub column_offset: usize,
}

/// The highlight after moving by `delta` columns, kept within `0..len`.
pub open spec fn clamped_member(cur: int, delta: int, len: int) -> int {
    let t = cur + delta;
    if t < 0 { 0 } else if t > len - 1 { len - 1 } else { t }
}

impl DuplicatesView {
    /// An empty view.
    pub fn empty() -> (res: DuplicatesView)
        ensures
            res.groups@.len() == 0,
            res.selected_group is None,
            res.selected_members@.len() == 0,
            res.selected_member == 0,
            res.focus == DuplicatePane::Groups,
            res.column_offset == 0,
    {
        DuplicatesView {
            groups: Vec::new(),
            selected_group: None,
            selected_members: Vec::new(),
            selected_member: 0,
            focus: DuplicatePane::Groups,
            column_offset: 0,
        }
    }

    /// Shows the members of group `idx`: highlights the group, pre-selects the
    /// suggested keeper (the first column when there is none), and scrolls to
    /// the first column.
    pub fn show_group(&mut self, idx: usize, members: Vec<TrackSummary>)
        requires
            idx < old(self).groups@.len(),
        ensures
            final(self).groups@ == old(self).groups@,
            final(self).selected_group == Some(idx),
            final(self).selected_members@ == members@,
            members@.len() == 0 ==> final(self).selected_member == 0,
            members@.len() > 0 ==> is_suggested_keeper(members@, final(self).selected_member as int),
            final(self).column_offset == 0,
            final(self).focus == old(self).focus,
    {
        let k = suggest_keeper(members.as_slice());
        self.selected_member = match k { Some(i) => i, None => 0 };
        self.selected_members = members;
        self.selected_group = Some(idx);
        self.column_offset = 0;
    }

    /// Installs a freshly loaded group list with the members of its first
    /// group (when there is one).
    pub fn install(groups: Vec<DuplicateGroupSummary>, first_members: Vec<TrackSummary>) -> (res: DuplicatesView)
        ensures
            res.groups@ == groups@,
            groups@.len() == 0 ==> res.selected_group is None && res.selected_members@.len() == 0
                && res.selected_member == 0,
            groups@.len() > 0 ==> res.selected_group == Some(0usize) && res.selected_members@ == first_members@
                && (first_members@.len() == 0 ==> res.selected_member == 0)
                && (first_members@.len() > 0 ==> is_suggested_keeper(first_members@, res.selected_member as int)),
            res.focus == DuplicatePane::Groups,
            res.column_offset == 0,
    {
        let mut v = DuplicatesView::empty();
        v.groups = groups;
        if v.groups.len() > 0 {
            v.show_group(0, first_members);
        }
        v
    }

    /// Moves the keeper-candidate highlight between member columns, staying
    /// within the members.
    pub fn select_member(&mut self, delta: isize)
        ensures
            old(self).selected_members@.len() == 0 ==> final(self).selected_member == old(self).selected_member,
            old(self).selected_members@.len() > 0 ==> final(self).selected_member as int == clamped_member(
                old(self).selected_member as int, delta as int, old(self).selected_members@.len() as int),
            *final(self) == (DuplicatesView { selected_member: final(self).selected_member, ..*old(self) }),
    {
        if self.selected_members.len() == 0 {
            return;
        }
        let max = self.selected_members.len() - 1;
        let t: i128 = self.selected_member as i128 + delta as i128;
        let next: usize = if t < 0 {
            0
        } else if t > max as i128 {
            max
        } else {
            t as usize
        };
        self.selected_member = next;
    }

    /// The plan for keeping the highlighted member and flagging the rest of the
    /// group; `None` when no member is highlighted or it has no id.
    pub fn keep_selected(&self) -> (res: Option<KeepPlan>)
        ensures
            (self.selected_member >= self.selected_members@.len()
                || self.selected_members@[self.selected_member as int].id is None) ==> res is None,
            (self.selected_member < self.selected_members@.len()
                && self.selected_members@[self.selected_member as int].id is Some) ==> (res matches Some(plan) && {
                let keeper = self.selected_members@[self.selected_member as int].id.unwrap();
                let ids = member_ids(self.selected_members@);
                &&& plan.keeper_id == keeper
                &&& plan.updates@ == ids.map_values(|id: i64| (id, id != keeper))
                &&& plan.flagged@ == ids.filter(|id: i64| id != keeper)
            }),
    {
        if self.selected_member >= self.selected_members.len() {
            return None;
        }
        let keeper = match self.selected_members[self.selected_member].id {
            Some(id) => id,
            None => return None,
        };
        let ghost ms = self.selected_members@;
        let mut updates: Vec<(i64, bool)> = Vec::new();
        let mut flagged: Vec<i64> = Vec::new();
        let mut i: usize = 0;
        while i < self.selected_members.len()
            invariant
                i <= ms.len(),
                ms == self.selected_members@,
                updates@ == member_ids(ms.take(i as int)).map_values(|id: i64| (id, id != keeper)),
                flagged@ == member_ids(ms.take(i as int)).filter(|id: i64| id != keeper),
            decreases ms.len() - i,
        {
            let ghost before = member_ids(ms.take(i as int));
            proof {
                assert(ms.take(i + 1).drop_last() =~= ms.take(i as int));
                reveal_with_fuel(Seq::filter, 1);
            }
            if let Some(id) = self.selected_members[i].id {
                updates.push((id, id != keeper));
                if id != keeper {
                    flagged.push(id);
                }
                proof {
                    assert(member_ids(ms.take(i + 1)) =~= before.push(id));
                    assert(member_ids(ms.take(i + 1)).drop_last() =~= before);
                    assert(updates@ =~= member_ids(ms.take(i + 1)).map_values(|id: i64| (id, id != keeper)));
                }
            } else {
                proof {
                    assert(member_ids(ms.take(i + 1)) =~= before);
                }
            }
            i += 1;
        }
        assert(ms.take(ms.len() as int) =~= ms);
        Some(KeepPlan { keeper_id: keeper, updates, flagged })
    }
}

/// The ids of the checkbox-selected rows that have one, in order.
pub open spec fn checked_ids(rows: Seq<TrackSummary>) -> Seq<i64> {
    rows.filter(|t: TrackSummary| t.is_selected && t.id is Some).map_values(|t: TrackSummary| t.id.unwrap())
}

/// The ids an action targets: the checked rows, or — when none is checked —
/// the highlighted row (if it has an id).
pub open spec fn target_ids_of(rows: Seq<TrackSummary>, selected: Option<usize>) -> Seq<i64> {
    if checked_ids(rows).len() > 0 {
        checked_ids(rows)
    } else {
        match selected {
            Some(i) => if i < rows.len() && rows[i as int].id is Some { seq![rows[i as int].id.unwrap()] } else { Seq::empty() },
            None => Seq::empty(),
        }
    }
}

/// IDs of the tracks an action should target in a track-list tab: every
/// checkbox-selected row, or — if none are selected — the highlighted row.
pub fn target_ids(tab: &TabData) -> (res: Vec<i64>)
    ensures
        res@ == target_ids_of(tab.tracks@, tab.selected),
{
    let ghost rows = tab.tracks@;
    let mut out: Vec<i64> = Vec::new();
    let mut i: usize = 0;
    while i < tab.tracks.len()
        invariant
            i <= rows.len(),
            rows == tab.tracks@,
            out@ == checked_ids(rows.take(i as int)),
        decreases rows.len() - i,
    {
        let ghost before = checked_ids(rows.take(i as int));
        proof {
            assert(rows.take(i + 1).drop_last() =~= rows.take(i as int));
            reveal_with_fuel(Seq::filter, 1);
        }
        let t = &tab.tracks[i];
        if t.is_selected {
            if let Some(id) = t.id {
                out.push(id);
                proof {
                    assert(checked_ids(rows.take(i + 1)) =~= before.push(id));
                }
            } else {
                proof { assert(checked_ids(rows.take(i + 1)) =~= before); }
            }
        } else {
            proof { assert(checked_ids(rows.take(i + 1)) =~= before); }
        }
        i += 1;
    }
    assert(rows.take(rows.len() as int) =~= rows);
    if out.len() > 0 {
        return out;
    }
    let mut res: Vec<i64> = Vec::new();
    if let Some(idx) = tab.selected {
        if idx < tab.tracks.len() {
            if let Some(id) = tab.tracks[idx].id {
                res.push(id);
                assert(res@ =~= seq![id]);
            }
        }
    }
    res
}

/// Position of the first occurrence of `x` in `s`, or -1.
pub open spec fn index_of(s: Seq<Seq<char>>, x: Seq<char>) -> int
    decreases s.len(),
{
    if s.len() == 0 {
        -1
    } else if s[0] == x {
        0
    } else {
        let r = index_of(s.drop_first(), x);
        if r < 0 { -1 } else { r + 1 }
    }
}

/// The option after `current` in `options`, cycling `None -> first -> ... -> last -> None`;
/// a value that is not among the options also leads to `None`.
pub open spec fn next_in_cycle_of(options: Seq<Seq<char>>, current: Option<Seq<char>>) -> Option<Seq<char>> {
    match current {
        None => if options.len() > 0 { Some(options[0]) } else { None },
        Some(cur) => {
            let i = index_of(options, cur);
            if 0 <= i && i + 1 < options.len() { Some(options[i + 1]) } else { None }
        },
    }
}

/// The text of an optional string slice.
pub open spec fn opt_str_view(o: Option<&str>) -> Option<Seq<char>> {
    match o {
        Some(c) => Some(c@),
        None => None,
    }
}

/// The text views of a list of strings.
pub open spec fn texts(v: Seq<String>) -> Seq<Seq<char>> {
    v.map_values(|s: String| s@)
}

/// Cycles through `options` then back to `None`: None -> first -> ... -> last -> None.
pub fn next_in_cycle(options: &[String], current: Option<&str>) -> (res: Option<String>)
    ensures
        match next_in_cycle_of(texts(options@), opt_str_view(current)) {
            None => res is None,
            Some(t) => res matches Some(r) && r@ == t,
        },
{
    let ghost ov = texts(options@);
    match current {
        None => {
            if options.len() > 0 {
                Some(options[0].clone())
            } else {
                None
            }
        },
        Some(cur) => {
            let cv = chars_of(cur);
            assert(opt_str_view(current) == Some(cur@));
            let mut i: usize = 0;
            assert(ov.skip(0) =~= ov);
            while i < options.len()
                invariant
                    i <= options@.len(),
                    ov == texts(options@),
                    cv@ == cur@,
                    opt_str_view(current) == Some(cur@),
                    index_of(ov, cur@) == (if index_of(ov.skip(i as int), cur@) < 0 { -1 } else { index_of(ov.skip(i as int), cur@) + i }),
                decreases options@.len() - i,
            {
                let ov_i = chars_of(options[i].as_str());
                if chars_eq(&ov_i, &cv) {
                    assert(ov.skip(i as int).len() > 0);
                    assert(ov.skip(i as int)[0] == cur@);
                    assert(index_of(ov.skip(i as int), cur@) == 0);
                    assert(index_of(ov, cur@) == i);
                    if i + 1 < options.len() {
                        let r = options[i + 1].clone();
                        assert(ov[i + 1] == options@[i + 1]@);
                        assert(next_in_cycle_of(ov, Some(cur@)) == Some(r@));
                        return Some(r);
                    } else {
                        assert(next_in_cycle_of(ov, Some(cur@)) is None);
                        return None;
                    }
                }
                assert(ov.skip(i as int).drop_first() =~= ov.skip(i + 1));
                i += 1;
            }
            None
        },
    }
}


} // verus!
