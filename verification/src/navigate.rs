//! Key and mouse handling outside the popups: browsing the track lists of the
//! main screen, the start screen's commands, and the progress and statistics
//! screens.
use vstd::prelude::*;
use crate::app::{
    DuplicatePane, DuplicatesView, GroupMode, Screens, StatusLevel, TabData, TabKind,
    clamped_member, filter_active, next_group_mode, next_sort_key, selection_valid, target_ids,
    target_ids_of,
};
use crate::keys::{
    Action, ActionView, Key, Notice, NoticeView, UiState, actions_view, check_all, cur, edit_key_rel,
    empty_actions, export_key_rel, lemma_cur_highlight, filter_key_rel, invert_all, lemma_wf_tab_update, library_grouped,
    one_action, or_zero, sat_dec, search_key_rel, select_next, select_prev, step_up_to, tabs_with,
    toggle_row, two_actions,
};
use crate::sort::stable_sort_of;
use crate::track::TrackSummary;

verus! {

/// Nothing changes and there is nothing to do.
pub open spec fn unchanged(o: UiState, n: UiState, acts: Seq<ActionView>) -> bool {
    n == o && acts.len() == 0
}

/// The current tab is the duplicates tab.
pub open spec fn on_duplicates(o: UiState) -> bool {
    cur(o).kind == TabKind::Duplicates
}

/// The keeper highlight of the duplicates view is being moved.
pub open spec fn on_members(o: UiState) -> bool {
    on_duplicates(o) && o.duplicates.focus == DuplicatePane::Members
}

/// The highlighted track is reloaded when the properties panel is open.
pub open spec fn load_if_open(o: UiState, acts: Seq<ActionView>) -> bool {
    acts == (if o.properties_panel_open { seq![ActionView::LoadSelectedTrack] } else { Seq::empty() })
}

/// `n` is `o` with the current tab's highlight at `sel`.
pub open spec fn highlight_set(o: UiState, n: UiState, sel: Option<usize>) -> bool {
    &&& n == UiState { tabs: n.tabs, ..o }
    &&& tabs_with(o, n, TabData { selected: sel, ..cur(o) })
}

/// `n` is `o` with the current tab's rows replaced by `rows`.
pub open spec fn rows_set(o: UiState, n: UiState, rows: Seq<TrackSummary>) -> bool {
    let nt = n.tabs@[o.current_tab as int];
    &&& n == UiState { tabs: n.tabs, ..o }
    &&& tabs_with(o, n, nt)
    &&& nt == TabData { tracks: nt.tracks, ..cur(o) }
    &&& nt.tracks@ == rows
}

/// `n` is `o` with the duplicates view's keeper highlight moved by `delta`
/// columns (unchanged when the group has no members).
pub open spec fn member_moved(o: UiState, n: UiState, delta: int) -> bool {
    let d = o.duplicates;
    let len = d.selected_members@.len();
    n == UiState {
        duplicates: DuplicatesView {
            selected_member: if len == 0 {
                d.selected_member
            } else {
                clamped_member(d.selected_member as int, delta, len as int) as usize
            },
            ..d
        },
        ..o
    }
}

/// The other pane of the duplicates view.
pub open spec fn other_pane(p: DuplicatePane) -> DuplicatePane {
    match p {
        DuplicatePane::Groups => DuplicatePane::Members,
        DuplicatePane::Members => DuplicatePane::Groups,
    }
}

/// `n` is `o` with the current tab re-sorted by `key` in direction `desc`,
/// and the new order announced.
pub open spec fn resorted(o: UiState, n: UiState, acts: Seq<ActionView>, key: crate::sort::SortKey, desc: bool) -> bool {
    let nt = n.tabs@[o.current_tab as int];
    &&& n == UiState { tabs: n.tabs, ..o }
    &&& tabs_with(o, n, nt)
    &&& nt == TabData { tracks: nt.tracks, sort: key, sort_desc: desc, ..cur(o) }
    &&& exists|s: Seq<TrackSummary>| stable_sort_of(cur(o).tracks@, s, key)
        && nt.tracks@ == (if desc { s.reverse() } else { s })
    &&& acts == seq![ActionView::Notify(StatusLevel::Info, NoticeView::Sorted(key, desc))]
}

/// `s + d`, saturating at the largest `u16`.
pub open spec fn sat_add_u16(s: u16, d: u16) -> u16 {
    if s + d > u16::MAX { u16::MAX } else { (s + d) as u16 }
}

/// `s - d`, saturating at zero.
pub open spec fn sat_sub_u16(s: u16, d: u16) -> u16 {
    if s < d { 0 } else { (s - d) as u16 }
}

/// The tracks a command applies to on the current tab.
pub open spec fn cur_targets(o: UiState) -> Seq<i64> {
    target_ids_of(cur(o).tracks@, cur(o).selected)
}

/// `acts` is `a` when there are targets, else nothing.
pub open spec fn when_targets(ids: Seq<i64>, acts: Seq<ActionView>, a: ActionView) -> bool {
    acts == (if ids.len() > 0 { seq![a] } else { Seq::empty() })
}

/// `[Up]`: the group list, the duplicate groups or member columns, or the
/// track list, by what is showing.
pub open spec fn up_rel(o: UiState, n: UiState, acts: Seq<ActionView>) -> bool {
    if library_grouped(o) {
        n == UiState { groups_selected: Some(sat_dec(or_zero(o.groups_selected))), ..o } && acts.len() == 0
    } else if on_duplicates(o) {
        match o.duplicates.focus {
            DuplicatePane::Groups => {
                let c = or_zero(o.duplicates.selected_group);
                n == o && acts == (if sat_dec(c) != c {
                    seq![ActionView::SelectDuplicateGroup(sat_dec(c))]
                } else {
                    Seq::empty()
                })
            },
            DuplicatePane::Members => member_moved(o, n, -1) && acts.len() == 0,
        }
    } else {
        highlight_set(o, n, select_prev(cur(o).selected)) && load_if_open(o, acts)
    }
}

/// `[Down]`, as `[Up]` the other way.
pub open spec fn down_rel(o: UiState, n: UiState, acts: Seq<ActionView>) -> bool {
    if library_grouped(o) {
        n == UiState {
            groups_selected: Some(step_up_to(or_zero(o.groups_selected), sat_dec(o.groups@.len() as usize))),
            ..o
        } && acts.len() == 0
    } else if on_duplicates(o) {
        match o.duplicates.focus {
            DuplicatePane::Groups => {
                let c = or_zero(o.duplicates.selected_group);
                let ni = step_up_to(c, sat_dec(o.duplicates.groups@.len() as usize));
                n == o && acts == (if ni != c {
                    seq![ActionView::SelectDuplicateGroup(ni)]
                } else {
                    Seq::empty()
                })
            },
            DuplicatePane::Members => member_moved(o, n, 1) && acts.len() == 0,
        }
    } else {
        highlight_set(o, n, select_next(cur(o).selected, cur(o).tracks@.len())) && load_if_open(o, acts)
    }
}

/// `[Enter]` in the grouped view: filter the library to the highlighted group.
pub open spec fn enter_group_rel(o: UiState, n: UiState, acts: Seq<ActionView>) -> bool {
    match o.groups_selected {
        Some(i) => if i < o.groups@.len() {
            let name = o.groups@[i as int].name@;
            let nt = n.tabs@[o.current_tab as int];
            &&& n == UiState { tabs: n.tabs, group_mode: GroupMode::Off, ..o }
            &&& tabs_with(o, n, nt)
            &&& nt == TabData { search_query: nt.search_query, ..cur(o) }
            &&& nt.search_query@ == name
            &&& acts == seq![ActionView::ReloadCurrentTab, ActionView::Notify(StatusLevel::Info, NoticeView::FilteredTo(name))]
        } else {
            unchanged(o, n, acts)
        },
        None => unchanged(o, n, acts),
    }
}

/// `[d]`: on Trash, a first press asks for confirmation and a second purges;
/// elsewhere (not Duplicates) the targeted tracks are flagged for deletion.
pub open spec fn delete_rel(o: UiState, n: UiState, acts: Seq<ActionView>) -> bool {
    match cur(o).kind {
        TabKind::Trash => if o.pending_purge {
            n == UiState { pending_purge: false, ..o } && acts == seq![ActionView::Purge]
        } else if cur(o).tracks@.len() > 0 {
            n == UiState { pending_purge: true, ..o } && acts.len() == 0
        } else {
            unchanged(o, n, acts)
        },
        TabKind::Duplicates => unchanged(o, n, acts),
        _ => n == o && when_targets(cur_targets(o), acts, ActionView::Flag(cur_targets(o))),
    }
}

/// `[r]`: restore from Trash, or re-queue failed enrichments.
pub open spec fn restore_rel(o: UiState, n: UiState, acts: Seq<ActionView>) -> bool {
    match cur(o).kind {
        TabKind::Trash => n == o && when_targets(cur_targets(o), acts, ActionView::Restore(cur_targets(o))),
        TabKind::Failed => n == o && when_targets(cur_targets(o), acts, ActionView::Retry(cur_targets(o))),
        _ => unchanged(o, n, acts),
    }
}

/// `[e]` on the Enrichment tab while nothing is being enriched.
pub open spec fn enrich_rel(o: UiState, n: UiState, acts: Seq<ActionView>) -> bool {
    if cur(o).kind == TabKind::Enrichment && !o.is_enriching {
        if !o.has_api_key {
            n == o && acts == seq![ActionView::Notify(StatusLevel::Error, NoticeView::NoApiKey)]
        } else if cur_targets(o).len() == 0 {
            n == o && acts == seq![ActionView::Notify(StatusLevel::Warning, NoticeView::NoTracksToEnrich)]
        } else {
            n == UiState { is_enriching: true, ..o } && acts == seq![ActionView::StartEnrichment(cur_targets(o))]
        }
    } else {
        unchanged(o, n, acts)
    }
}

/// `[Esc]` on the main screen: cancel a quit request, then a pending purge,
/// then clear the search and facets, then close the properties panel, and
/// otherwise go back to the start screen.
pub open spec fn esc_rel(o: UiState, n: UiState, acts: Seq<ActionView>) -> bool {
    let t = cur(o);
    if o.should_quit {
        n == UiState { should_quit: false, ..o } && acts.len() == 0
    } else if o.pending_purge {
        n == UiState { pending_purge: false, ..o } && acts.len() == 0
    } else if t.search_query@.len() > 0 || filter_active(t.filter) {
        let nt = n.tabs@[o.current_tab as int];
        &&& n == UiState { tabs: n.tabs, ..o }
        &&& tabs_with(o, n, nt)
        &&& nt == TabData { search_query: nt.search_query, filter: nt.filter, ..t }
        &&& nt.search_query@.len() == 0
        &&& nt.filter == crate::app::Filter { format: None, min_bitrate: None, no_isrc: false, unhealthy: false }
        &&& acts == seq![ActionView::ReloadCurrentTab]
    } else if o.properties_panel_open {
        n == UiState { properties_panel_open: false, ..o } && acts.len() == 0
    } else {
        n == UiState { screen: Screens::Start, ..o } && acts.len() == 0
    }
}

/// `[q]`: the first press asks for confirmation, the second confirms.
pub open spec fn quit_rel(o: UiState, n: UiState, acts: Seq<ActionView>) -> bool {
    n == UiState { quit_confirmed: o.quit_confirmed || o.should_quit, should_quit: true, ..o } && acts.len() == 0
}

/// A key on the main screen with no popup open.
pub open spec fn browse_key_rel(o: UiState, key: Key, n: UiState, acts: Seq<ActionView>) -> bool {
    let t = cur(o);
    let dup = on_duplicates(o);
    match key {
        Key::Char('/') => if !dup { n == UiState { search_mode: true, ..o } && acts.len() == 0 } else { unchanged(o, n, acts) },
        Key::Char('?') => n == UiState { help_open: true, ..o } && acts.len() == 0,
        Key::Char('f') => if !dup { n == UiState { filter_mode: true, ..o } && acts.len() == 0 } else { unchanged(o, n, acts) },
        Key::Char('w') => n == o && acts == seq![ActionView::ToggleWatch],
        Key::Char('z') => n == o && acts == seq![ActionView::Undo],
        Key::Char('x') => n == UiState { export_mode: true, ..o } && acts.len() == 0,
        Key::Char('c') => n == o && acts == seq![ActionView::ShowStats],
        Key::Char('m') => if !dup { n == o && acts == seq![ActionView::OpenEditor] } else { unchanged(o, n, acts) },
        Key::Char('g') => if t.kind == TabKind::Library {
            n == UiState { group_mode: next_group_mode(o.group_mode), ..o }
                && acts == seq![ActionView::RefreshGroups,
                    ActionView::Notify(StatusLevel::Info, NoticeView::GroupBy(next_group_mode(o.group_mode)))]
        } else {
            unchanged(o, n, acts)
        },
        Key::Enter => if library_grouped(o) { enter_group_rel(o, n, acts) } else { unchanged(o, n, acts) },
        Key::Char('p') => if dup {
            n == UiState { duplicates: DuplicatesView { focus: other_pane(o.duplicates.focus), ..o.duplicates }, ..o }
                && acts.len() == 0
        } else {
            n == UiState { properties_panel_open: true, ..o } && acts == seq![ActionView::LoadSelectedTrack]
        },
        Key::Up => up_rel(o, n, acts),
        Key::Down => down_rel(o, n, acts),
        Key::Left => if on_members(o) { member_moved(o, n, -1) && acts.len() == 0 } else { unchanged(o, n, acts) },
        Key::Right => if on_members(o) { member_moved(o, n, 1) && acts.len() == 0 } else { unchanged(o, n, acts) },
        Key::Tab => n == UiState {
            pending_purge: false,
            current_tab: ((o.current_tab + 1) % (o.tabs@.len() as int)) as usize,
            ..o
        } && load_if_open(o, acts),
        Key::Char('s') => if !dup { resorted(o, n, acts, next_sort_key(t.sort), t.sort_desc) } else { unchanged(o, n, acts) },
        Key::Char('S') => if !dup { resorted(o, n, acts, t.sort, !t.sort_desc) } else { unchanged(o, n, acts) },
        Key::Char(' ') => rows_set(o, n, match t.selected {
            Some(i) => toggle_row(t.tracks@, i as int),
            None => t.tracks@,
        }) && acts.len() == 0,
        Key::Char('i') => rows_set(o, n, check_all(t.tracks@, true)) && acts.len() == 0,
        Key::Char('o') => rows_set(o, n, check_all(t.tracks@, false)) && acts.len() == 0,
        Key::Char('u') => rows_set(o, n, invert_all(t.tracks@)) && acts.len() == 0,
        Key::Char('d') => delete_rel(o, n, acts),
        Key::Char('r') => restore_rel(o, n, acts),
        Key::Char('k') => if dup { n == o && acts == seq![ActionView::KeepSelected] } else { unchanged(o, n, acts) },
        Key::Char('e') => enrich_rel(o, n, acts),
        Key::PageDown => if o.properties_panel_open {
            n == UiState { properties_scroll: sat_add_u16(o.properties_scroll, 5), ..o } && acts.len() == 0
        } else {
            unchanged(o, n, acts)
        },
        Key::PageUp => if o.properties_panel_open {
            n == UiState { properties_scroll: sat_sub_u16(o.properties_scroll, 5), ..o } && acts.len() == 0
        } else {
            unchanged(o, n, acts)
        },
        Key::Char('q') => quit_rel(o, n, acts),
        Key::Esc => esc_rel(o, n, acts),
        _ => unchanged(o, n, acts),
    }
}

/// The help overlay takes every key; its dismiss keys close it.
pub open spec fn help_key_rel(o: UiState, key: Key, n: UiState, acts: Seq<ActionView>) -> bool {
    match key {
        Key::Esc | Key::Char('?') | Key::Char('q') => n == UiState { help_open: false, ..o } && acts.len() == 0,
        _ => unchanged(o, n, acts),
    }
}

/// A key on the main screen: the help overlay first, then cancelling a
/// running enrichment, then the open popup or editor, then browsing.
pub open spec fn main_key_rel(o: UiState, key: Key, n: UiState, acts: Seq<ActionView>) -> bool {
    if o.help_open {
        help_key_rel(o, key, n, acts)
    } else if o.is_enriching && key == Key::Esc {
        n == o && acts == seq![ActionView::RequestCancel]
    } else if o.edit is Some {
        edit_key_rel(o, key, n, acts)
    } else if o.export_mode {
        export_key_rel(o, key, n, acts)
    } else if o.filter_mode {
        filter_key_rel(o, key, n, acts)
    } else if o.search_mode {
        search_key_rel(o, key, n, acts)
    } else {
        browse_key_rel(o, key, n, acts)
    }
}

/// A scan of the library directory (emptying the library first when
/// `fresh`), when one is known.
pub open spec fn scan_rel(o: UiState, n: UiState, acts: Seq<ActionView>, fresh: bool) -> bool {
    if o.has_library_path {
        n == UiState { screen: Screens::Scanning, ..o } && acts == seq![ActionView::StartScan(fresh)]
    } else {
        n == o && acts == seq![ActionView::Notify(StatusLevel::Warning, NoticeView::PathNotProvided)]
    }
}

/// A key on the start screen.
pub open spec fn start_key_rel(o: UiState, key: Key, n: UiState, acts: Seq<ActionView>) -> bool {
    match key {
        Key::Char('q') => if !o.search_mode { quit_rel(o, n, acts) } else { unchanged(o, n, acts) },
        Key::Esc => if o.should_quit { n == UiState { should_quit: false, ..o } && acts.len() == 0 } else { unchanged(o, n, acts) },
        Key::Char('s') => scan_rel(o, n, acts, false),
        Key::Char('r') => scan_rel(o, n, acts, true),
        Key::Char('h') => n == UiState { screen: Screens::Scanning, ..o } && acts == seq![ActionView::StartHealthCheck],
        Key::Char('u') => n == UiState { screen: Screens::Scanning, ..o } && acts == seq![ActionView::StartRescan],
        Key::Char('v') => n == UiState { is_validating: true, ..o } && acts == seq![ActionView::StartValidation],
        Key::Enter => n == UiState { screen: Screens::Main, ..o } && acts.len() == 0,
        _ => unchanged(o, n, acts),
    }
}

/// A key on any screen.
pub open spec fn key_rel(o: UiState, key: Key, n: UiState, acts: Seq<ActionView>) -> bool {
    match o.screen {
        Screens::Start => start_key_rel(o, key, n, acts),
        Screens::Main => main_key_rel(o, key, n, acts),
        Screens::Scanning => if key == Key::Esc {
            n == o && acts == seq![ActionView::RequestCancel]
        } else {
            unchanged(o, n, acts)
        },
        Screens::Stats => match key {
            Key::Esc | Key::Char('q') | Key::Char('c') => n == UiState { screen: Screens::Main, ..o } && acts.len() == 0,
            _ => unchanged(o, n, acts),
        },
    }
}

/// A state with the same tabs and current tab is as well formed.
pub(crate) proof fn lemma_wf_same_tabs(o: UiState, n: UiState)
    requires
        o.wf(),
        n.tabs == o.tabs,
        n.current_tab == o.current_tab,
    ensures
        n.wf(),
{
}

/// Flips the checkbox of row `i`.
fn toggle_checked(rows: &mut Vec<TrackSummary>, i: usize)
    requires
        i < old(rows)@.len(),
    ensures
        final(rows)@ == toggle_row(old(rows)@, i as int),
{
    let ghost orig = rows@;
    let mut t = rows.remove(i);
    t.is_selected = !t.is_selected;
    rows.insert(i, t);
    assert(rows@ =~= toggle_row(orig, i as int));
}

/// Sets every checkbox to `v`.
fn check_rows(rows: &mut Vec<TrackSummary>, v: bool)
    ensures
        final(rows)@ == check_all(old(rows)@, v),
{
    let ghost orig = rows@;
    let n = rows.len();
    let mut i: usize = 0;
    while i < n
        invariant
            n == orig.len(),
            rows@.len() == n,
            i <= n,
            forall|j: int| 0 <= j < i ==> #[trigger] rows@[j] == (TrackSummary { is_selected: v, ..orig[j] }),
            forall|j: int| i <= j < n ==> #[trigger] rows@[j] == orig[j],
        decreases n - i,
    {
        let ghost before = rows@;
        let mut t = rows.remove(i);
        t.is_selected = v;
        rows.insert(i, t);
        assert(rows@ =~= before.update(i as int, t));
        i += 1;
    }
    proof { crate::keys::lemma_checks_keep_rows(orig, v); }
    assert(rows@ =~= check_all(orig, v));
}

/// Flips every checkbox.
fn invert_rows(rows: &mut Vec<TrackSummary>)
    ensures
        final(rows)@ == invert_all(old(rows)@),
{
    let ghost orig = rows@;
    let n = rows.len();
    let mut i: usize = 0;
    while i < n
        invariant
            n == orig.len(),
            rows@.len() == n,
            i <= n,
            forall|j: int| 0 <= j < i ==> #[trigger] rows@[j] == (TrackSummary { is_selected: !orig[j].is_selected, ..orig[j] }),
            forall|j: int| i <= j < n ==> #[trigger] rows@[j] == orig[j],
        decreases n - i,
    {
        let ghost before = rows@;
        let mut t = rows.remove(i);
        t.is_selected = !t.is_selected;
        rows.insert(i, t);
        assert(rows@ =~= before.update(i as int, t));
        i += 1;
    }
    proof { crate::keys::lemma_checks_keep_rows(orig, true); }
    assert(rows@ =~= invert_all(orig));
}

impl UiState {
    /// Puts the current tab's highlight at `sel`.
    pub(crate) fn set_highlight(&mut self, sel: Option<usize>)
        requires
            old(self).wf(),
            selection_valid(sel, cur(*old(self)).tracks@.len()),
        ensures
            highlight_set(*old(self), *final(self), sel),
            final(self).wf(),
    {
        let ghost o = *self;
        proof { lemma_cur_highlight(o); }
        let i = self.current_tab;
        let mut tab = self.tabs.remove(i);
        tab.selected = sel;
        let ghost t1 = tab;
        self.tabs.insert(i, tab);
        proof {
            assert(self.tabs@ =~= o.tabs@.update(i as int, t1));
            lemma_wf_tab_update(o, *self, t1);
        }
    }

    /// Flips the checkbox of the current tab's row `r`.
    fn toggle_current_row(&mut self, r: usize)
        requires
            old(self).wf(),
            r < cur(*old(self)).tracks@.len(),
        ensures
            rows_set(*old(self), *final(self), toggle_row(cur(*old(self)).tracks@, r as int)),
            final(self).wf(),
    {
        let ghost o = *self;
        proof { lemma_cur_highlight(o); }
        let i = self.current_tab;
        let mut tab = self.tabs.remove(i);
        let ghost t0 = tab;
        toggle_checked(&mut tab.tracks, r);
        let ghost t1 = tab;
        self.tabs.insert(i, tab);
        proof {
            assert(t1 == (TabData { tracks: t1.tracks, ..t0 }));
            assert(self.tabs@ =~= o.tabs@.update(i as int, t1));
            lemma_wf_tab_update(o, *self, t1);
        }
    }

    /// Ticks every checkbox of the current tab.
    #[verifier::rlimit(50)]
    fn check_current(&mut self)
        requires
            old(self).wf(),
        ensures
            rows_set(*old(self), *final(self), check_all(cur(*old(self)).tracks@, true)),
            final(self).wf(),
    {
        let ghost o = *self;
        proof { lemma_cur_highlight(o); }
        let i = self.current_tab;
        let mut tab = self.tabs.remove(i);
        let ghost t0 = tab;
        check_rows(&mut tab.tracks, true);
        let ghost t1 = tab;
        self.tabs.insert(i, tab);
        proof {
            crate::keys::lemma_checks_len(t0.tracks@, true);
            assert(t1 == (TabData { tracks: t1.tracks, ..t0 }));
            assert(self.tabs@ =~= o.tabs@.update(i as int, t1));
            lemma_wf_tab_update(o, *self, t1);
        }
    }

    /// Clears every checkbox of the current tab.
    #[verifier::rlimit(50)]
    fn uncheck_current(&mut self)
        requires
            old(self).wf(),
        ensures
            rows_set(*old(self), *final(self), check_all(cur(*old(self)).tracks@, false)),
            final(self).wf(),
    {
        let ghost o = *self;
        proof { lemma_cur_highlight(o); }
        let i = self.current_tab;
        let mut tab = self.tabs.remove(i);
        let ghost t0 = tab;
        check_rows(&mut tab.tracks, false);
        let ghost t1 = tab;
        self.tabs.insert(i, tab);
        proof {
            crate::keys::lemma_checks_len(t0.tracks@, false);
            assert(t1 == (TabData { tracks: t1.tracks, ..t0 }));
            assert(self.tabs@ =~= o.tabs@.update(i as int, t1));
            lemma_wf_tab_update(o, *self, t1);
        }
    }

    /// Flips every checkbox of the current tab.
    #[verifier::rlimit(50)]
    fn invert_current(&mut self)
        requires
            old(self).wf(),
        ensures
            rows_set(*old(self), *final(self), invert_all(cur(*old(self)).tracks@)),
            final(self).wf(),
    {
        let ghost o = *self;
        proof { lemma_cur_highlight(o); }
        let i = self.current_tab;
        let mut tab = self.tabs.remove(i);
        let ghost t0 = tab;
        invert_rows(&mut tab.tracks);
        let ghost t1 = tab;
        self.tabs.insert(i, tab);
        proof {
            crate::keys::lemma_checks_len(t0.tracks@, true);
            assert(t1 == (TabData { tracks: t1.tracks, ..t0 }));
            assert(self.tabs@ =~= o.tabs@.update(i as int, t1));
            lemma_wf_tab_update(o, *self, t1);
        }
    }

    /// Re-sorts the current tab by the next sort key, in the same direction.
    fn cycle_current_sort(&mut self)
        requires
            old(self).wf(),
        ensures
            ({
                let t = cur(*old(self));
                let nt = final(self).tabs@[old(self).current_tab as int];
                &&& *final(self) == (UiState { tabs: final(self).tabs, ..*old(self) })
                &&& tabs_with(*old(self), *final(self), nt)
                &&& nt == (TabData { tracks: nt.tracks, sort: next_sort_key(t.sort), sort_desc: t.sort_desc, ..t })
                &&& exists|s: Seq<TrackSummary>| stable_sort_of(t.tracks@, s, next_sort_key(t.sort))
                    && nt.tracks@ == (if t.sort_desc { s.reverse() } else { s })
            }),
            final(self).wf(),
    {
        let ghost o = *self;
        proof { lemma_cur_highlight(o); }
        let i = self.current_tab;
        let mut tab = self.tabs.remove(i);
        tab.cycle_sort();
        let ghost t1 = tab;
        self.tabs.insert(i, tab);
        proof {
            let t0 = o.tabs@[i as int];
            let s = choose|s: Seq<TrackSummary>| stable_sort_of(t0.tracks@, s, next_sort_key(t0.sort))
                && t1.tracks@ == (if t0.sort_desc { s.reverse() } else { s });
            crate::sort::lemma_stable_sort_len(t0.tracks@, s, next_sort_key(t0.sort));
            assert(self.tabs@ =~= o.tabs@.update(i as int, t1));
            lemma_wf_tab_update(o, *self, t1);
        }
    }

    /// Re-sorts the current tab in the other direction.
    fn flip_current_sort(&mut self)
        requires
            old(self).wf(),
        ensures
            ({
                let t = cur(*old(self));
                let nt = final(self).tabs@[old(self).current_tab as int];
                &&& *final(self) == (UiState { tabs: final(self).tabs, ..*old(self) })
                &&& tabs_with(*old(self), *final(self), nt)
                &&& nt == (TabData { tracks: nt.tracks, sort_desc: !t.sort_desc, ..t })
                &&& exists|s: Seq<TrackSummary>| stable_sort_of(t.tracks@, s, t.sort)
                    && nt.tracks@ == (if !t.sort_desc { s.reverse() } else { s })
            }),
            final(self).wf(),
    {
        let ghost o = *self;
        proof { lemma_cur_highlight(o); }
        let i = self.current_tab;
        let mut tab = self.tabs.remove(i);
        tab.toggle_sort_dir();
        let ghost t1 = tab;
        self.tabs.insert(i, tab);
        proof {
            let t0 = o.tabs@[i as int];
            let s = choose|s: Seq<TrackSummary>| stable_sort_of(t0.tracks@, s, t0.sort)
                && t1.tracks@ == (if !t0.sort_desc { s.reverse() } else { s });
            crate::sort::lemma_stable_sort_len(t0.tracks@, s, t0.sort);
            assert(self.tabs@ =~= o.tabs@.update(i as int, t1));
            lemma_wf_tab_update(o, *self, t1);
        }
    }

    /// Clears the current tab's query and facets.
    fn clear_search_and_facets(&mut self)
        requires
            old(self).wf(),
        ensures
            ({
                let nt = final(self).tabs@[old(self).current_tab as int];
                &&& *final(self) == (UiState { tabs: final(self).tabs, ..*old(self) })
                &&& tabs_with(*old(self), *final(self), nt)
                &&& nt == (TabData { search_query: nt.search_query, filter: nt.filter, ..cur(*old(self)) })
                &&& nt.search_query@.len() == 0
                &&& nt.filter == (crate::app::Filter { format: None, min_bitrate: None, no_isrc: false, unhealthy: false })
            }),
            final(self).wf(),
    {
        let ghost o = *self;
        proof { lemma_cur_highlight(o); }
        let i = self.current_tab;
        let mut tab = self.tabs.remove(i);
        let ghost t0 = tab;
        tab.search_query = String::new();
        tab.filter.clear();
        let ghost t1 = tab;
        self.tabs.insert(i, tab);
        proof {
            assert(t1 == (TabData { search_query: t1.search_query, filter: t1.filter, ..t0 }));
            assert(self.tabs@ =~= o.tabs@.update(i as int, t1));
            lemma_wf_tab_update(o, *self, t1);
        }
    }

    /// Sets the current tab's query to `q`.
    fn set_query(&mut self, q: String)
        requires
            old(self).wf(),
        ensures
            ({
                let nt = final(self).tabs@[old(self).current_tab as int];
                &&& *final(self) == (UiState { tabs: final(self).tabs, ..*old(self) })
                &&& tabs_with(*old(self), *final(self), nt)
                &&& nt == (TabData { search_query: nt.search_query, ..cur(*old(self)) })
                &&& nt.search_query@ == q@
            }),
            final(self).wf(),
    {
        let ghost o = *self;
        proof { lemma_cur_highlight(o); }
        let i = self.current_tab;
        let mut tab = self.tabs.remove(i);
        let ghost t0 = tab;
        tab.search_query = q;
        let ghost t1 = tab;
        self.tabs.insert(i, tab);
        proof {
            assert(t1 == (TabData { search_query: t1.search_query, ..t0 }));
            assert(self.tabs@ =~= o.tabs@.update(i as int, t1));
            lemma_wf_tab_update(o, *self, t1);
        }
    }
}

impl UiState {
    /// Gives the focus to the other pane of the duplicates view.
    fn switch_pane(&mut self)
        ensures
            *final(self) == (UiState {
                duplicates: DuplicatesView { focus: other_pane(old(self).duplicates.focus), ..old(self).duplicates },
                ..*old(self)
            }),
    {
        let ghost o = *self;
        let p = match self.duplicates.focus {
            DuplicatePane::Groups => DuplicatePane::Members,
            DuplicatePane::Members => DuplicatePane::Groups,
        };
        self.duplicates.focus = p;
    }

    /// `[Esc]` with a quit request or a purge pending: drops the first of them.
    fn back_from_prompt(&mut self)
        requires
            old(self).should_quit || old(self).pending_purge,
        ensures
            old(self).should_quit ==> *final(self) == (UiState { should_quit: false, ..*old(self) }),
            !old(self).should_quit ==> *final(self) == (UiState { pending_purge: false, ..*old(self) }),
    {
        if self.should_quit {
            self.should_quit = false;
        } else {
            self.pending_purge = false;
        }
    }

    /// `[Esc]` with nothing pending: closes the properties panel, or goes back
    /// to the start screen.
    fn back_from_view(&mut self)
        ensures
            old(self).properties_panel_open ==> *final(self) == (UiState { properties_panel_open: false, ..*old(self) }),
            !old(self).properties_panel_open ==> *final(self) == (UiState { screen: Screens::Start, ..*old(self) }),
    {
        if self.properties_panel_open {
            self.properties_panel_open = false;
        } else {
            self.screen = Screens::Start;
        }
    }

    /// The current tab is the duplicates tab.
    pub(crate) fn is_dup(&self) -> (res: bool)
        requires
            self.wf(),
        ensures
            res == on_duplicates(*self),
    {
        self.tabs[self.current_tab].kind == TabKind::Duplicates
    }

    /// The Library tab is showing the grouped view.
    fn is_library_grouped(&self) -> (res: bool)
        requires
            self.wf(),
        ensures
            res == library_grouped(*self),
    {
        self.tabs[self.current_tab].kind == TabKind::Library && self.group_mode != GroupMode::Off
    }

    /// Reloads the highlighted track when the properties panel is open.
    pub(crate) fn load_if_panel_open(&self) -> (acts: Vec<Action>)
        ensures
            load_if_open(*self, actions_view(acts@)),
    {
        if self.properties_panel_open {
            one_action(Action::LoadSelectedTrack)
        } else {
            empty_actions()
        }
    }

    /// `[/]`: opens the search box (not on Duplicates).
    pub(crate) fn key_search(&mut self) -> (acts: Vec<Action>)
        requires
            old(self).wf(),
        ensures
            browse_key_rel(*old(self), Key::Char('/'), *final(self), actions_view(acts@)),
            final(self).wf(),
    {
        if !self.is_dup() {
            self.search_mode = true;
        }
        empty_actions()
    }

    /// `[?]`: opens the help overlay.
    pub(crate) fn key_help(&mut self) -> (acts: Vec<Action>)
        requires
            old(self).wf(),
        ensures
            browse_key_rel(*old(self), Key::Char('?'), *final(self), actions_view(acts@)),
            final(self).wf(),
    {
        self.help_open = true;
        empty_actions()
    }

    /// `[f]`: opens the filter popup (not on Duplicates).
    pub(crate) fn key_filter(&mut self) -> (acts: Vec<Action>)
        requires
            old(self).wf(),
        ensures
            browse_key_rel(*old(self), Key::Char('f'), *final(self), actions_view(acts@)),
            final(self).wf(),
    {
        if !self.is_dup() {
            self.filter_mode = true;
        }
        empty_actions()
    }

    /// `[w]`: toggles watching.
    pub(crate) fn key_watch(&mut self) -> (acts: Vec<Action>)
        requires
            old(self).wf(),
        ensures
            browse_key_rel(*old(self), Key::Char('w'), *final(self), actions_view(acts@)),
            final(self).wf(),
    {
        one_action(Action::ToggleWatch)
    }

    /// `[z]`: undoes the last logged action.
    pub(crate) fn key_undo(&mut self) -> (acts: Vec<Action>)
        requires
            old(self).wf(),
        ensures
            browse_key_rel(*old(self), Key::Char('z'), *final(self), actions_view(acts@)),
            final(self).wf(),
    {
        one_action(Action::Undo)
    }

    /// `[x]`: opens the export picker.
    pub(crate) fn key_export(&mut self) -> (acts: Vec<Action>)
        requires
            old(self).wf(),
        ensures
            browse_key_rel(*old(self), Key::Char('x'), *final(self), actions_view(acts@)),
            final(self).wf(),
    {
        self.export_mode = true;
        empty_actions()
    }

    /// `[c]`: shows the statistics.
    pub(crate) fn key_stats(&mut self) -> (acts: Vec<Action>)
        requires
            old(self).wf(),
        ensures
            browse_key_rel(*old(self), Key::Char('c'), *final(self), actions_view(acts@)),
            final(self).wf(),
    {
        one_action(Action::ShowStats)
    }

    /// `[m]`: opens the tag editor on the highlighted track (not on Duplicates).
    pub(crate) fn key_edit(&mut self) -> (acts: Vec<Action>)
        requires
            old(self).wf(),
        ensures
            browse_key_rel(*old(self), Key::Char('m'), *final(self), actions_view(acts@)),
            final(self).wf(),
    {
        if !self.is_dup() {
            one_action(Action::OpenEditor)
        } else {
            empty_actions()
        }
    }

    /// `[g]`: cycles the grouping of the Library tab.
    pub(crate) fn key_group(&mut self) -> (acts: Vec<Action>)
        requires
            old(self).wf(),
        ensures
            browse_key_rel(*old(self), Key::Char('g'), *final(self), actions_view(acts@)),
            final(self).wf(),
    {
        if self.tabs[self.current_tab].kind == TabKind::Library {
            self.group_mode = self.group_mode.next();
            two_actions(Action::RefreshGroups, Action::Notify(StatusLevel::Info, Notice::GroupBy(self.group_mode)))
        } else {
            empty_actions()
        }
    }

    /// `[Enter]`: in the grouped view, filters the library to the highlighted group.
    pub(crate) fn key_enter(&mut self) -> (acts: Vec<Action>)
        requires
            old(self).wf(),
        ensures
            browse_key_rel(*old(self), Key::Enter, *final(self), actions_view(acts@)),
            final(self).wf(),
    {
        if !self.is_library_grouped() {
            return empty_actions();
        }
        match self.groups_selected {
            Some(i) => {
                if i < self.groups.len() {
                    let q = self.groups[i].name.clone();
                    let note = self.groups[i].name.clone();
                    self.set_query(q);
                    self.group_mode = GroupMode::Off;
                    two_actions(Action::ReloadCurrentTab, Action::Notify(StatusLevel::Info, Notice::FilteredTo(note)))
                } else {
                    empty_actions()
                }
            },
            None => empty_actions(),
        }
    }

    /// `[p]`: switches the duplicates pane, or opens the properties panel.
    #[verifier::rlimit(50)]
    pub(crate) fn key_panel(&mut self) -> (acts: Vec<Action>)
        requires
            old(self).wf(),
        ensures
            browse_key_rel(*old(self), Key::Char('p'), *final(self), actions_view(acts@)),
            final(self).wf(),
    {
        if self.is_dup() {
            self.switch_pane();
            empty_actions()
        } else {
            self.properties_panel_open = true;
            one_action(Action::LoadSelectedTrack)
        }
    }

    /// `[Up]`: moves the highlight up.
    pub(crate) fn key_up(&mut self) -> (acts: Vec<Action>)
        requires
            old(self).wf(),
        ensures
            browse_key_rel(*old(self), Key::Up, *final(self), actions_view(acts@)),
            final(self).wf(),
    {
        proof { lemma_cur_highlight(*self); }
        if self.is_library_grouped() {
            let c = match self.groups_selected { Some(i) => i, None => 0 };
            self.groups_selected = Some(if c > 0 { c - 1 } else { 0 });
            return empty_actions();
        }
        if self.is_dup() {
            match self.duplicates.focus {
                DuplicatePane::Groups => {
                    let c = match self.duplicates.selected_group { Some(i) => i, None => 0 };
                    let ni = if c > 0 { c - 1 } else { 0 };
                    if ni != c {
                        return one_action(Action::SelectDuplicateGroup(ni));
                    }
                    return empty_actions();
                },
                DuplicatePane::Members => {
                    self.duplicates.select_member(-1);
                    return empty_actions();
                },
            }
        }
        let sel = match self.tabs[self.current_tab].selected {
            Some(i) => Some(if i > 0 { i - 1 } else { 0 }),
            None => None,
        };
        self.set_highlight(sel);
        self.load_if_panel_open()
    }

    /// `[Down]`: moves the highlight down.
    pub(crate) fn key_down(&mut self) -> (acts: Vec<Action>)
        requires
            old(self).wf(),
        ensures
            browse_key_rel(*old(self), Key::Down, *final(self), actions_view(acts@)),
            final(self).wf(),
    {
        proof { lemma_cur_highlight(*self); }
        if self.is_library_grouped() {
            let c = match self.groups_selected { Some(i) => i, None => 0 };
            let max = if self.groups.len() > 0 { self.groups.len() - 1 } else { 0 };
            self.groups_selected = Some(if c < max { c + 1 } else { max });
            return empty_actions();
        }
        if self.is_dup() {
            match self.duplicates.focus {
                DuplicatePane::Groups => {
                    let c = match self.duplicates.selected_group { Some(i) => i, None => 0 };
                    let max = if self.duplicates.groups.len() > 0 { self.duplicates.groups.len() - 1 } else { 0 };
                    let ni = if c < max { c + 1 } else { max };
                    if ni != c {
                        return one_action(Action::SelectDuplicateGroup(ni));
                    }
                    return empty_actions();
                },
                DuplicatePane::Members => {
                    self.duplicates.select_member(1);
                    return empty_actions();
                },
            }
        }
        let len = self.tabs[self.current_tab].tracks.len();
        let max = if len > 0 { len - 1 } else { 0 };
        let sel = match self.tabs[self.current_tab].selected {
            Some(i) => Some(if i < max { i + 1 } else { max }),
            None => None,
        };
        self.set_highlight(sel);
        self.load_if_panel_open()
    }

    /// `[Left]`: moves the keeper highlight left.
    pub(crate) fn key_left(&mut self) -> (acts: Vec<Action>)
        requires
            old(self).wf(),
        ensures
            browse_key_rel(*old(self), Key::Left, *final(self), actions_view(acts@)),
            final(self).wf(),
    {
        if self.is_dup() && self.duplicates.focus == DuplicatePane::Members {
            self.duplicates.select_member(-1);
        }
        empty_actions()
    }

    /// `[Right]`: moves the keeper highlight right.
    pub(crate) fn key_right(&mut self) -> (acts: Vec<Action>)
        requires
            old(self).wf(),
        ensures
            browse_key_rel(*old(self), Key::Right, *final(self), actions_view(acts@)),
            final(self).wf(),
    {
        if self.is_dup() && self.duplicates.focus == DuplicatePane::Members {
            self.duplicates.select_member(1);
        }
        empty_actions()
    }

    /// `[Tab]`: goes to the next tab (wrapping) and drops a pending purge.
    pub(crate) fn key_tab(&mut self) -> (acts: Vec<Action>)
        requires
            old(self).wf(),
        ensures
            browse_key_rel(*old(self), Key::Tab, *final(self), actions_view(acts@)),
            final(self).wf(),
    {
        let len = self.tabs.len();
        self.pending_purge = false;
        self.current_tab = (self.current_tab + 1) % len;
        self.load_if_panel_open()
    }

    /// `[s]`: sorts by the next key (not on Duplicates).
    pub(crate) fn key_sort(&mut self) -> (acts: Vec<Action>)
        requires
            old(self).wf(),
        ensures
            browse_key_rel(*old(self), Key::Char('s'), *final(self), actions_view(acts@)),
            final(self).wf(),
    {
        if self.is_dup() {
            return empty_actions();
        }
        self.cycle_current_sort();
        let t = &self.tabs[self.current_tab];
        one_action(Action::Notify(StatusLevel::Info, Notice::Sorted(t.sort, t.sort_desc)))
    }

    /// `[S]`: reverses the order (not on Duplicates).
    pub(crate) fn key_sort_dir(&mut self) -> (acts: Vec<Action>)
        requires
            old(self).wf(),
        ensures
            browse_key_rel(*old(self), Key::Char('S'), *final(self), actions_view(acts@)),
            final(self).wf(),
    {
        if self.is_dup() {
            return empty_actions();
        }
        self.flip_current_sort();
        let t = &self.tabs[self.current_tab];
        one_action(Action::Notify(StatusLevel::Info, Notice::Sorted(t.sort, t.sort_desc)))
    }

    /// `[Space]`: flips the checkbox of the highlighted row.
    pub(crate) fn key_toggle(&mut self) -> (acts: Vec<Action>)
        requires
            old(self).wf(),
        ensures
            browse_key_rel(*old(self), Key::Char(' '), *final(self), actions_view(acts@)),
            final(self).wf(),
    {
        proof { crate::keys::lemma_highlight_valid(self.tabs@, self.current_tab as int); }
        match self.tabs[self.current_tab].selected {
            Some(r) => self.toggle_current_row(r),
            None => {
                assert(self.tabs@ =~= self.tabs@.update(self.current_tab as int, cur(*self)));
            },
        }
        empty_actions()
    }

    /// `[i]`: ticks every row.
    pub(crate) fn key_check_all(&mut self) -> (acts: Vec<Action>)
        requires
            old(self).wf(),
        ensures
            browse_key_rel(*old(self), Key::Char('i'), *final(self), actions_view(acts@)),
            final(self).wf(),
    {
        self.check_current();
        empty_actions()
    }

    /// `[o]`: clears every checkbox.
    pub(crate) fn key_uncheck_all(&mut self) -> (acts: Vec<Action>)
        requires
            old(self).wf(),
        ensures
            browse_key_rel(*old(self), Key::Char('o'), *final(self), actions_view(acts@)),
            final(self).wf(),
    {
        self.uncheck_current();
        empty_actions()
    }

    /// `[u]`: flips every checkbox.
    pub(crate) fn key_invert(&mut self) -> (acts: Vec<Action>)
        requires
            old(self).wf(),
        ensures
            browse_key_rel(*old(self), Key::Char('u'), *final(self), actions_view(acts@)),
            final(self).wf(),
    {
        self.invert_current();
        empty_actions()
    }

    /// `[d]`: asks for, then performs, the purge on Trash; flags the targeted tracks elsewhere.
    pub(crate) fn key_delete(&mut self) -> (acts: Vec<Action>)
        requires
            old(self).wf(),
        ensures
            browse_key_rel(*old(self), Key::Char('d'), *final(self), actions_view(acts@)),
            final(self).wf(),
    {
        let kind = self.tabs[self.current_tab].kind;
        match kind {
            TabKind::Trash => {
                if self.pending_purge {
                    self.pending_purge = false;
                    one_action(Action::Purge)
                } else {
                    if self.tabs[self.current_tab].tracks.len() > 0 {
                        self.pending_purge = true;
                    }
                    empty_actions()
                }
            },
            TabKind::Duplicates => empty_actions(),
            _ => {
                let ids = target_ids(&self.tabs[self.current_tab]);
                if ids.len() > 0 {
                    one_action(Action::Flag(ids))
                } else {
                    empty_actions()
                }
            },
        }
    }

    /// `[r]`: restores from Trash, or re-queues failed enrichments.
    pub(crate) fn key_restore(&mut self) -> (acts: Vec<Action>)
        requires
            old(self).wf(),
        ensures
            browse_key_rel(*old(self), Key::Char('r'), *final(self), actions_view(acts@)),
            final(self).wf(),
    {
        let kind = self.tabs[self.current_tab].kind;
        match kind {
            TabKind::Trash => {
                let ids = target_ids(&self.tabs[self.current_tab]);
                if ids.len() > 0 { one_action(Action::Restore(ids)) } else { empty_actions() }
            },
            TabKind::Failed => {
                let ids = target_ids(&self.tabs[self.current_tab]);
                if ids.len() > 0 { one_action(Action::Retry(ids)) } else { empty_actions() }
            },
            _ => empty_actions(),
        }
    }

    /// `[k]`: keeps the highlighted duplicate member.
    pub(crate) fn key_keep(&mut self) -> (acts: Vec<Action>)
        requires
            old(self).wf(),
        ensures
            browse_key_rel(*old(self), Key::Char('k'), *final(self), actions_view(acts@)),
            final(self).wf(),
    {
        if self.is_dup() {
            one_action(Action::KeepSelected)
        } else {
            empty_actions()
        }
    }

    /// `[e]`: enriches the targeted tracks of the Enrichment tab.
    pub(crate) fn key_enrich(&mut self) -> (acts: Vec<Action>)
        requires
            old(self).wf(),
        ensures
            browse_key_rel(*old(self), Key::Char('e'), *final(self), actions_view(acts@)),
            final(self).wf(),
    {
        if self.tabs[self.current_tab].kind != TabKind::Enrichment || self.is_enriching {
            return empty_actions();
        }
        if !self.has_api_key {
            return one_action(Action::Notify(StatusLevel::Error, Notice::NoApiKey));
        }
        let ids = target_ids(&self.tabs[self.current_tab]);
        if ids.len() == 0 {
            return one_action(Action::Notify(StatusLevel::Warning, Notice::NoTracksToEnrich));
        }
        self.is_enriching = true;
        one_action(Action::StartEnrichment(ids))
    }

    /// `[PageDown]`: scrolls the properties panel down.
    pub(crate) fn key_page_down(&mut self) -> (acts: Vec<Action>)
        requires
            old(self).wf(),
        ensures
            browse_key_rel(*old(self), Key::PageDown, *final(self), actions_view(acts@)),
            final(self).wf(),
    {
        if self.properties_panel_open {
            self.properties_scroll = if self.properties_scroll > u16::MAX - 5 { u16::MAX } else { self.properties_scroll + 5 };
        }
        empty_actions()
    }

    /// `[PageUp]`: scrolls the properties panel up.
    pub(crate) fn key_page_up(&mut self) -> (acts: Vec<Action>)
        requires
            old(self).wf(),
        ensures
            browse_key_rel(*old(self), Key::PageUp, *final(self), actions_view(acts@)),
            final(self).wf(),
    {
        if self.properties_panel_open {
            self.properties_scroll = if self.properties_scroll < 5 { 0 } else { self.properties_scroll - 5 };
        }
        empty_actions()
    }

    /// `[q]`: asks to quit, or confirms.
    pub(crate) fn key_quit(&mut self) -> (acts: Vec<Action>)
        requires
            old(self).wf(),
        ensures
            browse_key_rel(*old(self), Key::Char('q'), *final(self), actions_view(acts@)),
            final(self).wf(),
    {
        if self.should_quit {
            self.quit_confirmed = true;
        }
        self.should_quit = true;
        empty_actions()
    }

    /// `[Esc]`: backs out one step.
    pub(crate) fn key_back(&mut self) -> (acts: Vec<Action>)
        requires
            old(self).wf(),
        ensures
            browse_key_rel(*old(self), Key::Esc, *final(self), actions_view(acts@)),
            final(self).wf(),
    {
        self.back_step()
    }

    /// Backs out one step: see `esc_rel`.
    #[verifier::rlimit(50)]
    fn back_step(&mut self) -> (acts: Vec<Action>)
        requires
            old(self).wf(),
        ensures
            esc_rel(*old(self), *final(self), actions_view(acts@)),
            final(self).wf(),
    {
        let ghost o = *self;
        if self.should_quit || self.pending_purge {
            self.back_from_prompt();
            proof { lemma_wf_same_tabs(o, *self); }
            return empty_actions();
        }
        let t = &self.tabs[self.current_tab];
        if !t.search_query.as_str().is_empty() || t.filter.is_active() {
            self.clear_search_and_facets();
            return one_action(Action::ReloadCurrentTab);
        }
        self.back_from_view();
        proof { lemma_wf_same_tabs(o, *self); }
        empty_actions()
    }

}

} // verus!
