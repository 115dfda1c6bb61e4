//! The interface's input handling as a state machine: a key press (or mouse
//! event) and the current state give the next state and the work to do
//! (database updates, exports, reloads, background jobs), which the caller
//! performs.
use vstd::prelude::*;
use crate::app::{
    DuplicatesView, EditState, Filter, GroupMode, GroupRow, Screens, StatusLevel,
    TabData, TabKind, TagField, field_texts, typed_texts, next_in_cycle,
    next_in_cycle_of, selection_valid, texts,
};
use crate::sort::SortKey;
use crate::text::{pop_char, push_char};
use crate::track::TrackSummary;

verus! {

/// A key press, as far as the interface distinguishes keys.
#[derive(Clone, Copy, PartialEq, Eq, Structural, Debug)]
pub enum Key {
    Char(char),
    Esc,
    Enter,
    Up,
    Down,
    Left,
    Right,
    Tab,
    Backspace,
    PageUp,
    PageDown,
    Other,
}

/// The export formats of the export picker.
#[derive(Clone, Copy, PartialEq, Eq, Structural, Debug)]
pub enum ExportKind {
    Csv,
    Json,
    M3u,
    DuplicateReport,
}

/// Status-bar messages decided here (their wording is the caller's).
pub enum Notice {
    EditCancelled,
    GroupBy(GroupMode),
    FilteredTo(String),
    Sorted(SortKey, bool),
    NoTracksToEnrich,
    NoApiKey,
    PathNotProvided,
    NoTrackToEdit,
}

/// Work the caller performs after a key press.
pub enum Action {
    /// Ask running scans/enrichment to stop.
    RequestCancel,
    /// Write the edited tags to the file and the database.
    SaveEdits(EditState),
    /// Export the current view (or the duplicate report).
    Export(ExportKind),
    /// Reload the rows of the current tab.
    ReloadCurrentTab,
    /// The search query was edited (debounced reload).
    SearchEdited,
    /// Turn background watching on or off.
    ToggleWatch,
    /// Undo the most recent logged action.
    Undo,
    /// Compute the statistics and show them.
    ShowStats,
    /// Load the highlighted track and open the tag editor on it.
    OpenEditor,
    /// Reload the artist/album groups.
    RefreshGroups,
    /// Load the full record of the highlighted track for the properties panel.
    LoadSelectedTrack,
    /// Load the members of the duplicate group at this index.
    SelectDuplicateGroup(usize),
    /// Flag these tracks for deletion.
    Flag(Vec<i64>),
    /// Clear the deletion flag of these tracks.
    Restore(Vec<i64>),
    /// Re-queue these tracks for enrichment.
    Retry(Vec<i64>),
    /// Keep the highlighted duplicate member and flag the rest of its group.
    KeepSelected,
    /// Move the flagged tracks to quarantine and remove their rows.
    Purge,
    /// Enrich these tracks in the background.
    StartEnrichment(Vec<i64>),
    /// Show a status-bar message.
    Notify(StatusLevel, Notice),
    /// Scan the library directory (after emptying the library when `fresh`).
    StartScan(bool),
    /// Run the integrity check.
    StartHealthCheck,
    /// Re-read the tags of files changed since their last scan.
    StartRescan,
    /// Mark tracks whose files are gone as missing.
    StartValidation,
}

/// What a notice says, as values.
pub enum NoticeView {
    EditCancelled,
    GroupBy(GroupMode),
    FilteredTo(Seq<char>),
    Sorted(SortKey, bool),
    NoTracksToEnrich,
    NoApiKey,
    PathNotProvided,
    NoTrackToEdit,
}

/// The tag editor, as values.
pub struct EditView {
    pub track_id: i64,
    pub file_path: Seq<char>,
    pub fields: Seq<(crate::app::TagField, Seq<char>)>,
    pub focus: usize,
}

/// What an action asks for, as values.
pub enum ActionView {
    RequestCancel,
    SaveEdits(EditView),
    Export(ExportKind),
    ReloadCurrentTab,
    SearchEdited,
    ToggleWatch,
    Undo,
    ShowStats,
    OpenEditor,
    RefreshGroups,
    LoadSelectedTrack,
    SelectDuplicateGroup(usize),
    Flag(Seq<i64>),
    Restore(Seq<i64>),
    Retry(Seq<i64>),
    KeepSelected,
    Purge,
    StartEnrichment(Seq<i64>),
    Notify(StatusLevel, NoticeView),
    StartScan(bool),
    StartHealthCheck,
    StartRescan,
    StartValidation,
}

pub open spec fn edit_view(e: EditState) -> EditView {
    EditView {
        track_id: e.track_id,
        file_path: e.file_path@,
        fields: e.fields@.map_values(|p: (crate::app::TagField, String)| (p.0, p.1@)),
        focus: e.focus,
    }
}

pub open spec fn notice_view(n: Notice) -> NoticeView {
    match n {
        Notice::EditCancelled => NoticeView::EditCancelled,
        Notice::GroupBy(g) => NoticeView::GroupBy(g),
        Notice::FilteredTo(s) => NoticeView::FilteredTo(s@),
        Notice::Sorted(k, d) => NoticeView::Sorted(k, d),
        Notice::NoTracksToEnrich => NoticeView::NoTracksToEnrich,
        Notice::NoApiKey => NoticeView::NoApiKey,
        Notice::PathNotProvided => NoticeView::PathNotProvided,
        Notice::NoTrackToEdit => NoticeView::NoTrackToEdit,
    }
}

pub open spec fn action_view(a: Action) -> ActionView {
    match a {
        Action::RequestCancel => ActionView::RequestCancel,
        Action::SaveEdits(e) => ActionView::SaveEdits(edit_view(e)),
        Action::Export(k) => ActionView::Export(k),
        Action::ReloadCurrentTab => ActionView::ReloadCurrentTab,
        Action::SearchEdited => ActionView::SearchEdited,
        Action::ToggleWatch => ActionView::ToggleWatch,
        Action::Undo => ActionView::Undo,
        Action::ShowStats => ActionView::ShowStats,
        Action::OpenEditor => ActionView::OpenEditor,
        Action::RefreshGroups => ActionView::RefreshGroups,
        Action::LoadSelectedTrack => ActionView::LoadSelectedTrack,
        Action::SelectDuplicateGroup(i) => ActionView::SelectDuplicateGroup(i),
        Action::Flag(ids) => ActionView::Flag(ids@),
        Action::Restore(ids) => ActionView::Restore(ids@),
        Action::Retry(ids) => ActionView::Retry(ids@),
        Action::KeepSelected => ActionView::KeepSelected,
        Action::Purge => ActionView::Purge,
        Action::StartEnrichment(ids) => ActionView::StartEnrichment(ids@),
        Action::Notify(l, n) => ActionView::Notify(l, notice_view(n)),
        Action::StartScan(f) => ActionView::StartScan(f),
        Action::StartHealthCheck => ActionView::StartHealthCheck,
        Action::StartRescan => ActionView::StartRescan,
        Action::StartValidation => ActionView::StartValidation,
    }
}

pub open spec fn actions_view(v: Seq<Action>) -> Seq<ActionView> {
    v.map_values(|a: Action| action_view(a))
}

/// The interface state.
pub struct UiState {
    pub screen: Screens,
    pub tabs: Vec<TabData>,
    pub current_tab: usize,
    pub duplicates: DuplicatesView,
    pub help_open: bool,
    pub is_enriching: bool,
    pub is_validating: bool,
    pub edit: Option<EditState>,
    pub export_mode: bool,
    pub filter_mode: bool,
    pub search_mode: bool,
    pub search_dirty: bool,
    pub properties_panel_open: bool,
    pub properties_scroll: u16,
    pub group_mode: GroupMode,
    pub groups: Vec<GroupRow>,
    pub groups_selected: Option<usize>,
    pub formats_in_library: Vec<String>,
    pub pending_purge: bool,
    pub should_quit: bool,
    pub quit_confirmed: bool,
    /// An AcoustID key is configured.
    pub has_api_key: bool,
    /// A library directory to scan is known.
    pub has_library_path: bool,
}

impl UiState {
    /// There is a current tab, and each tab's highlight, when there is one,
    /// is on one of its rows.
    pub open spec fn wf(&self) -> bool {
        &&& self.tabs@.len() > 0
        &&& self.current_tab < self.tabs@.len()
        &&& highlights_valid(self.tabs@)
    }
}

/// Each tab's highlight, when there is one, is on one of its rows.
#[verifier::opaque]
pub open spec fn highlights_valid(tabs: Seq<TabData>) -> bool {
    forall|i: int| 0 <= i < tabs.len() ==> selection_valid((#[trigger] tabs[i]).selected, tabs[i].tracks@.len())
}

/// The current tab's highlight is on one of its rows.
pub proof fn lemma_cur_highlight(o: UiState)
    requires
        o.wf(),
    ensures
        selection_valid(cur(o).selected, cur(o).tracks@.len()),
{
    lemma_highlight_valid(o.tabs@, o.current_tab as int);
}

/// The highlight of tab `i` is on one of its rows.
pub proof fn lemma_highlight_valid(tabs: Seq<TabData>, i: int)
    requires
        highlights_valid(tabs),
        0 <= i < tabs.len(),
    ensures
        selection_valid(tabs[i].selected, tabs[i].tracks@.len()),
{
    reveal(highlights_valid);
}

/// The current tab.
pub open spec fn cur(o: UiState) -> TabData {
    o.tabs@[o.current_tab as int]
}

/// `n`'s tabs are `o`'s with the current one replaced by `t`.
pub open spec fn tabs_with(o: UiState, n: UiState, t: TabData) -> bool {
    n.tabs@ == o.tabs@.update(o.current_tab as int, t)
}

/// The Library tab is showing the grouped browse view.
pub open spec fn library_grouped(o: UiState) -> bool {
    cur(o).kind == TabKind::Library && o.group_mode != GroupMode::Off
}

/// `n - 1`, but not below zero.
pub open spec fn sat_dec(n: usize) -> usize {
    if n > 0 { (n - 1) as usize } else { 0 }
}

/// The value, or zero.
pub open spec fn or_zero(o: Option<usize>) -> usize {
    match o { Some(i) => i, None => 0 }
}

/// The highlight one row up (unchanged when there is none).
pub open spec fn select_prev(sel: Option<usize>) -> Option<usize> {
    match sel {
        Some(i) => Some(sat_dec(i)),
        None => None,
    }
}

/// `min(i + 1, max)`.
pub open spec fn step_up_to(i: usize, max: usize) -> usize {
    if i < max { (i + 1) as usize } else { max }
}

/// The highlight one row down, not past the last of `len` rows (unchanged when
/// there is none); the table shows a highlight past the end on its last row.
pub open spec fn select_next(sel: Option<usize>, len: nat) -> Option<usize> {
    match sel {
        Some(i) => Some(step_up_to(i, sat_dec(len as usize))),
        None => None,
    }
}

/// Rows with the checkbox of row `i` flipped.
pub open spec fn toggle_row(rows: Seq<TrackSummary>, i: int) -> Seq<TrackSummary> {
    rows.update(i, TrackSummary { is_selected: !rows[i].is_selected, ..rows[i] })
}

/// Rows with every checkbox set to `v`.
#[verifier::opaque]
pub open spec fn check_all(rows: Seq<TrackSummary>, v: bool) -> Seq<TrackSummary> {
    rows.map_values(|t: TrackSummary| TrackSummary { is_selected: v, ..t })
}

/// Rows with every checkbox flipped.
#[verifier::opaque]
pub open spec fn invert_all(rows: Seq<TrackSummary>) -> Seq<TrackSummary> {
    rows.map_values(|t: TrackSummary| TrackSummary { is_selected: !t.is_selected, ..t })
}

/// Setting or flipping every checkbox keeps the number of rows.
pub proof fn lemma_checks_len(rows: Seq<TrackSummary>, v: bool)
    ensures
        check_all(rows, v).len() == rows.len(),
        invert_all(rows).len() == rows.len(),
{
    reveal(check_all);
    reveal(invert_all);
}

/// Setting or flipping every checkbox keeps the rows, in order.
pub proof fn lemma_checks_keep_rows(rows: Seq<TrackSummary>, v: bool)
    ensures
        check_all(rows, v).len() == rows.len(),
        invert_all(rows).len() == rows.len(),
        forall|i: int| 0 <= i < rows.len() ==> #[trigger] check_all(rows, v)[i] == (TrackSummary { is_selected: v, ..rows[i] }),
        forall|i: int| 0 <= i < rows.len() ==> #[trigger] invert_all(rows)[i] == (TrackSummary { is_selected: !rows[i].is_selected, ..rows[i] }),
{
    reveal(check_all);
    reveal(invert_all);
}

/// The next minimum-bitrate facet: none, 128, 256, 320, none.
pub open spec fn next_min_bitrate(b: Option<u32>) -> Option<u32> {
    match b {
        None => Some(128u32),
        Some(v) => if v == 128 { Some(256u32) } else if v == 256 { Some(320u32) } else { None },
    }
}

/// The text of an optional string.
pub open spec fn opt_text(o: Option<String>) -> Option<Seq<char>> {
    match o {
        Some(s) => Some(s@),
        None => None,
    }
}

/// The editor's focus moved to `focus`, nothing else changed.
pub open spec fn edit_focused(o: UiState, n: UiState, focus: usize) -> bool {
    n == UiState { edit: Some(EditState { focus: focus, ..o.edit.unwrap() }), ..o }
}

/// A character typed (or deleted) in the editor's focused field, nothing else changed.
pub open spec fn edit_typed(o: UiState, n: UiState, c: Option<char>) -> bool {
    let e = o.edit.unwrap();
    &&& n == UiState { edit: n.edit, ..o }
    &&& n.edit is Some
    &&& n.edit.unwrap() == EditState { fields: n.edit.unwrap().fields, ..e }
    &&& field_texts(n.edit.unwrap().fields@) == typed_texts(field_texts(e.fields@), e.focus as int, c)
}

/// The tag editor after a key.
pub open spec fn edit_key_rel(o: UiState, key: Key, n: UiState, acts: Seq<ActionView>) -> bool {
    let e = o.edit.unwrap();
    match key {
        Key::Esc => n == UiState { edit: None, ..o }
            && acts == seq![ActionView::Notify(StatusLevel::Info, NoticeView::EditCancelled)],
        Key::Enter => n == UiState { edit: None, ..o } && acts == seq![ActionView::SaveEdits(edit_view(e))],
        Key::Up => edit_focused(o, n, sat_dec(e.focus)) && acts.len() == 0,
        Key::Down | Key::Tab => edit_focused(o, n,
            if e.focus + 1 < e.fields@.len() { (e.focus + 1) as usize } else { e.focus }) && acts.len() == 0,
        Key::Backspace => edit_typed(o, n, None) && acts.len() == 0,
        Key::Char(c) => edit_typed(o, n, Some(c)) && acts.len() == 0,
        _ => n == o && acts.len() == 0,
    }
}

/// The export picker after a key.
pub open spec fn export_key_rel(o: UiState, key: Key, n: UiState, acts: Seq<ActionView>) -> bool {
    match key {
        Key::Esc => n == UiState { export_mode: false, ..o } && acts.len() == 0,
        Key::Char('c') => n == UiState { export_mode: false, ..o } && acts == seq![ActionView::Export(ExportKind::Csv)],
        Key::Char('j') => n == UiState { export_mode: false, ..o } && acts == seq![ActionView::Export(ExportKind::Json)],
        Key::Char('m') => n == UiState { export_mode: false, ..o } && acts == seq![ActionView::Export(ExportKind::M3u)],
        Key::Char('d') => n == UiState { export_mode: false, ..o }
            && acts == seq![ActionView::Export(ExportKind::DuplicateReport)],
        _ => n == o && acts.len() == 0,
    }
}

/// The facets after a key of the filter popup, `fmt` being the next format
/// of the cycle.
pub open spec fn facets_after(key: Key, fl: Filter, nf: Filter, fmt: Option<Seq<char>>) -> bool {
    match key {
        Key::Char('b') => nf == Filter { min_bitrate: next_min_bitrate(fl.min_bitrate), ..fl },
        Key::Char('t') => nf == Filter { format: nf.format, ..fl } && opt_text(nf.format) == fmt,
        Key::Char('i') => nf == Filter { no_isrc: !fl.no_isrc, ..fl },
        Key::Char('h') => nf == Filter { unhealthy: !fl.unhealthy, ..fl },
        _ => nf == Filter { format: None, min_bitrate: None, no_isrc: false, unhealthy: false },
    }
}

/// The facets after a key of the filter popup: the format facet cycles
/// through the formats present in the library.
pub open spec fn filter_after(o: UiState, key: Key, fl: Filter, nf: Filter) -> bool {
    facets_after(key, fl, nf, next_in_cycle_of(texts(o.formats_in_library@), opt_text(fl.format)))
}

/// `n` differs from `o` only in the current tab's facets, which are `f`.
pub open spec fn filter_set(o: UiState, n: UiState, f: Filter) -> bool {
    &&& n == UiState { tabs: n.tabs, ..o }
    &&& tabs_with(o, n, TabData { filter: f, ..cur(o) })
}

/// The filter popup after a key: each facet key changes the current tab's
/// facets and reloads the tab.
pub open spec fn filter_key_rel(o: UiState, key: Key, n: UiState, acts: Seq<ActionView>) -> bool {
    let nf = n.tabs@[o.current_tab as int].filter;
    match key {
        Key::Esc | Key::Enter | Key::Char('f') => n == UiState { filter_mode: false, ..o } && acts.len() == 0,
        Key::Char('b') | Key::Char('t') | Key::Char('i') | Key::Char('h') | Key::Char('c') => {
            &&& filter_set(o, n, nf)
            &&& filter_after(o, key, cur(o).filter, nf)
            &&& acts == seq![ActionView::ReloadCurrentTab]
        },
        _ => n == o && acts.len() == 0,
    }
}

/// The query after a key of the search box: typed character appended, last
/// character deleted, or (Esc) cleared.
pub open spec fn query_after(q: Seq<char>, key: Key) -> Seq<char> {
    match key {
        Key::Char(c) => q.push(c),
        Key::Backspace => if q.len() > 0 { q.drop_last() } else { q },
        Key::Esc => Seq::empty(),
        _ => q,
    }
}

/// `n`'s current tab is `o`'s with the query edited by `key`; the other tabs
/// are unchanged.
pub open spec fn query_edited(o: UiState, n: UiState, key: Key) -> bool {
    let nt = n.tabs@[o.current_tab as int];
    &&& tabs_with(o, n, nt)
    &&& nt == TabData { search_query: nt.search_query, ..cur(o) }
    &&& nt.search_query@ == query_after(cur(o).search_query@, key)
}

/// Search editing after a key.
pub open spec fn search_key_rel(o: UiState, key: Key, n: UiState, acts: Seq<ActionView>) -> bool {
    match key {
        Key::Backspace | Key::Char(_) => n == UiState { tabs: n.tabs, search_dirty: true, ..o }
            && query_edited(o, n, key) && acts == seq![ActionView::SearchEdited],
        Key::Esc => n == UiState { tabs: n.tabs, search_mode: false, search_dirty: false, ..o }
            && query_edited(o, n, key) && acts == seq![ActionView::ReloadCurrentTab],
        Key::Enter => n == UiState { search_mode: false, search_dirty: false, ..o }
            && acts == seq![ActionView::ReloadCurrentTab],
        _ => n == o && acts.len() == 0,
    }
}

pub(crate) fn empty_actions() -> (res: Vec<Action>)
    ensures
        actions_view(res@) == Seq::<ActionView>::empty(),
{
    let v: Vec<Action> = Vec::new();
    assert(actions_view(v@) =~= Seq::<ActionView>::empty());
    v
}

pub(crate) fn one_action(a: Action) -> (res: Vec<Action>)
    ensures
        actions_view(res@) == seq![action_view(a)],
{
    let mut v: Vec<Action> = Vec::new();
    v.push(a);
    assert(actions_view(v@) =~= seq![action_view(a)]);
    v
}

pub(crate) fn two_actions(a: Action, b: Action) -> (res: Vec<Action>)
    ensures
        actions_view(res@) == seq![action_view(a), action_view(b)],
{
    let mut v: Vec<Action> = Vec::new();
    v.push(a);
    v.push(b);
    assert(actions_view(v@) =~= seq![action_view(a), action_view(b)]);
    v
}

/// Applies a facet key to `fl`; `new_format` is the next format of the cycle.
fn update_facets(fl: &mut Filter, key: Key, new_format: Option<String>)
    ensures
        facets_after(key, *old(fl), *final(fl), opt_text(new_format)),
{
    match key {
        Key::Char('b') => {
            fl.min_bitrate = match fl.min_bitrate {
                None => Some(128),
                Some(128) => Some(256),
                Some(256) => Some(320),
                _ => None,
            };
        },
        Key::Char('t') => {
            fl.format = new_format;
        },
        Key::Char('i') => {
            fl.no_isrc = !fl.no_isrc;
        },
        Key::Char('h') => {
            fl.unhealthy = !fl.unhealthy;
        },
        _ => {
            fl.clear();
        },
    }
}

/// Replacing the current tab by one whose highlight is on a row keeps the
/// state well formed.
pub(crate) proof fn lemma_wf_tab_update(o: UiState, n: UiState, t: TabData)
    requires
        o.wf(),
        n.current_tab == o.current_tab,
        tabs_with(o, n, t),
        selection_valid(t.selected, t.tracks@.len()),
    ensures
        n.wf(),
{
    reveal(highlights_valid);
    assert forall|j: int| 0 <= j < n.tabs@.len() implies
        selection_valid((#[trigger] n.tabs@[j]).selected, n.tabs@[j].tracks@.len()) by {
        if j != o.current_tab {
            assert(n.tabs@[j] == o.tabs@[j]);
        }
    }
}

impl UiState {
    /// Moves the editor's focus one field up or down.
    fn edit_move(&mut self, up: bool)
        requires
            old(self).edit is Some,
        ensures
            edit_focused(*old(self), *final(self), if up {
                sat_dec(old(self).edit.unwrap().focus)
            } else if old(self).edit.unwrap().focus + 1 < old(self).edit.unwrap().fields@.len() {
                (old(self).edit.unwrap().focus + 1) as usize
            } else {
                old(self).edit.unwrap().focus
            }),
    {
        let mut e = self.edit.take().unwrap();
        if up {
            e.focus_prev();
        } else {
            e.focus_next();
        }
        self.edit = Some(e);
    }

    /// Types `c` into (or, for `None`, deletes from) the editor's focused field.
    fn edit_type(&mut self, c: Option<char>)
        requires
            old(self).edit is Some,
        ensures
            edit_typed(*old(self), *final(self), c),
    {
        let ghost o = *self;
        let mut e = self.edit.take().unwrap();
        let ghost e0 = e;
        match c {
            Some(ch) => e.push_char(ch),
            None => e.backspace(),
        }
        let ghost e1 = e;
        self.edit = Some(e);
        assert(e1 == (EditState { fields: e1.fields, ..e0 }));
        assert(*self == (UiState { edit: self.edit, ..o }));
        assert(self.edit.unwrap() == e1);
    }

    /// Keys while the tag editor is open.
    pub(crate) fn edit_key(&mut self, key: Key) -> (acts: Vec<Action>)
        requires
            old(self).edit is Some,
        ensures
            edit_key_rel(*old(self), key, *final(self), actions_view(acts@)),
            final(self).tabs == old(self).tabs,
            final(self).current_tab == old(self).current_tab,
    {
        match key {
            Key::Esc => {
                self.edit = None;
                one_action(Action::Notify(StatusLevel::Info, Notice::EditCancelled))
            },
            Key::Enter => {
                let e = self.edit.take().unwrap();
                one_action(Action::SaveEdits(e))
            },
            Key::Up => {
                self.edit_move(true);
                empty_actions()
            },
            Key::Down | Key::Tab => {
                self.edit_move(false);
                empty_actions()
            },
            Key::Backspace => {
                self.edit_type(None);
                empty_actions()
            },
            Key::Char(c) => {
                self.edit_type(Some(c));
                empty_actions()
            },
            _ => empty_actions(),
        }
    }

    /// Keys while the export picker is open.
    pub(crate) fn export_key(&mut self, key: Key) -> (acts: Vec<Action>)
        ensures
            export_key_rel(*old(self), key, *final(self), actions_view(acts@)),
            final(self).tabs == old(self).tabs,
            final(self).current_tab == old(self).current_tab,
    {
        let kind = match key {
            Key::Esc => {
                self.export_mode = false;
                return empty_actions();
            },
            Key::Char('c') => ExportKind::Csv,
            Key::Char('j') => ExportKind::Json,
            Key::Char('m') => ExportKind::M3u,
            Key::Char('d') => ExportKind::DuplicateReport,
            _ => return empty_actions(),
        };
        self.export_mode = false;
        one_action(Action::Export(kind))
    }

    /// The format after the current tab's format facet in the cycle through
    /// the formats present in the library.
    fn next_format(&self) -> (res: Option<String>)
        requires
            self.wf(),
        ensures
            opt_text(res) == next_in_cycle_of(texts(self.formats_in_library@), opt_text(cur(*self).filter.format)),
    {
        let cur: Option<&str> = match &self.tabs[self.current_tab].filter.format {
            Some(s) => Some(s.as_str()),
            None => None,
        };
        next_in_cycle(self.formats_in_library.as_slice(), cur)
    }

    /// Applies a facet key to the current tab's facets; `new_format` is the
    /// next format of the cycle.
    fn apply_facet_key(&mut self, key: Key, new_format: Option<String>)
        requires
            old(self).wf(),
        ensures
            filter_set(*old(self), *final(self), final(self).tabs@[old(self).current_tab as int].filter),
            facets_after(key, cur(*old(self)).filter, final(self).tabs@[old(self).current_tab as int].filter,
                opt_text(new_format)),
            final(self).wf(),
    {
        let ghost o = *self;
        proof { lemma_cur_highlight(o); }
        let i = self.current_tab;
        let mut tab = self.tabs.remove(i);
        let ghost t0 = tab;
        update_facets(&mut tab.filter, key, new_format);
        let ghost t1 = tab;
        self.tabs.insert(i, tab);
        proof {
            assert(t1 == (TabData { filter: t1.filter, ..t0 }));
            assert(self.tabs@ =~= o.tabs@.update(i as int, t1));
            lemma_wf_tab_update(o, *self, t1);
        }
    }

    /// Keys while the filter popup is open.
    pub(crate) fn filter_key(&mut self, key: Key) -> (acts: Vec<Action>)
        requires
            old(self).wf(),
        ensures
            filter_key_rel(*old(self), key, *final(self), actions_view(acts@)),
            final(self).wf(),
    {
        match key {
            Key::Esc | Key::Enter | Key::Char('f') => {
                self.filter_mode = false;
                empty_actions()
            },
            Key::Char('t') => {
                let f = self.next_format();
                self.apply_facet_key(key, f);
                one_action(Action::ReloadCurrentTab)
            },
            Key::Char('b') | Key::Char('i') | Key::Char('h') | Key::Char('c') => {
                self.apply_facet_key(key, None);
                one_action(Action::ReloadCurrentTab)
            },
            _ => empty_actions(),
        }
    }

    /// Edits the current tab's query by a search-box key.
    fn edit_query(&mut self, key: Key)
        requires
            old(self).wf(),
        ensures
            *final(self) == (UiState { tabs: final(self).tabs, ..*old(self) }),
            query_edited(*old(self), *final(self), key),
            final(self).wf(),
    {
        let ghost o = *self;
        proof { lemma_cur_highlight(o); }
        let i = self.current_tab;
        let mut tab = self.tabs.remove(i);
        let ghost t0 = tab;
        match key {
            Key::Backspace => {
                let _ = pop_char(&mut tab.search_query);
            },
            Key::Char(c) => {
                push_char(&mut tab.search_query, c);
            },
            Key::Esc => {
                tab.search_query = String::new();
            },
            _ => {},
        }
        let ghost t1 = tab;
        self.tabs.insert(i, tab);
        proof {
            assert(t1 == (TabData { search_query: t1.search_query, ..t0 }));
            assert(t1.search_query@ =~= query_after(t0.search_query@, key));
            assert(self.tabs@ =~= o.tabs@.update(i as int, t1));
            lemma_wf_tab_update(o, *self, t1);
        }
    }

    /// Deletes the last character of the query.
    fn search_backspace(&mut self)
        requires
            old(self).wf(),
        ensures
            search_key_rel(*old(self), Key::Backspace, *final(self), seq![ActionView::SearchEdited]),
            final(self).wf(),
    {
        self.edit_query(Key::Backspace);
        self.search_dirty = true;
    }

    /// Appends a typed character to the query.
    fn search_type(&mut self, c: char)
        requires
            old(self).wf(),
        ensures
            search_key_rel(*old(self), Key::Char(c), *final(self), seq![ActionView::SearchEdited]),
            final(self).wf(),
    {
        self.edit_query(Key::Char(c));
        self.search_dirty = true;
    }

    /// Clears the query and leaves the search box.
    fn search_cancel(&mut self)
        requires
            old(self).wf(),
        ensures
            search_key_rel(*old(self), Key::Esc, *final(self), seq![ActionView::ReloadCurrentTab]),
            final(self).wf(),
    {
        self.edit_query(Key::Esc);
        self.search_mode = false;
        self.search_dirty = false;
    }

    /// Keys while the search query is being edited.
    pub(crate) fn search_key(&mut self, key: Key) -> (acts: Vec<Action>)
        requires
            old(self).wf(),
        ensures
            search_key_rel(*old(self), key, *final(self), actions_view(acts@)),
            final(self).wf(),
    {
        match key {
            Key::Enter => {
                self.search_mode = false;
                self.search_dirty = false;
                one_action(Action::ReloadCurrentTab)
            },
            Key::Esc => {
                self.search_cancel();
                one_action(Action::ReloadCurrentTab)
            },
            Key::Backspace => {
                self.search_backspace();
                one_action(Action::SearchEdited)
            },
            Key::Char(c) => {
                self.search_type(c);
                one_action(Action::SearchEdited)
            },
            _ => empty_actions(),
        }
    }
}

} // verus!
