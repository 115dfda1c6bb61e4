//! What the interface does with the results of the work it asked for:
//! freshly loaded rows and groups, a loaded track for the editor, finished
//! background jobs, and the timing of the debounced search and of the
//! directory watch.
use vstd::prelude::*;
use crate::app::{EditState, GroupMode, GroupRow, Screens, StatusLevel, TabData, rows_installed, selection_valid};
use crate::keys::{Action, ActionView, Notice, NoticeView, UiState, actions_view, empty_actions, highlights_valid, one_action};
use crate::track::{TrackInfo, TrackSummary};

verus! {

/// How long the search box must be idle before the query runs (ms).
pub const SEARCH_DEBOUNCE_MS: u64 = 180;

/// How long the watched directory must be quiet before an import (ms).
pub const WATCH_SETTLE_MS: u64 = 1500;

/// A track was loaded and it has a database id.
pub open spec fn has_track_id(track: Option<TrackInfo>) -> bool {
    match track {
        Some(t) => t.id is Some,
        None => false,
    }
}

/// The tab at `i` after highlighting its first row when it has rows.
pub open spec fn first_highlighted(t: TabData) -> TabData {
    if t.tracks@.len() > 0 { TabData { selected: Some(0usize), ..t } } else { t }
}

impl UiState {
    /// Highlights the first row of every tab that has rows.
    pub fn highlight_first_rows(&mut self)
        requires
            old(self).wf(),
        ensures
            final(self).wf(),
            *final(self) == (UiState { tabs: final(self).tabs, ..*old(self) }),
            final(self).tabs@.len() == old(self).tabs@.len(),
            forall|i: int| 0 <= i < old(self).tabs@.len() ==>
                #[trigger] final(self).tabs@[i] == first_highlighted(old(self).tabs@[i]),
    {
        let ghost o = *self;
        proof { reveal(highlights_valid); }
        let n = self.tabs.len();
        let mut i: usize = 0;
        while i < n
            invariant
                n == o.tabs@.len(),
                self.tabs@.len() == n,
                i <= n,
                *self == (UiState { tabs: self.tabs, ..o }),
                forall|j: int| 0 <= j < i ==> #[trigger] self.tabs@[j] == first_highlighted(o.tabs@[j]),
                forall|j: int| i <= j < n ==> #[trigger] self.tabs@[j] == o.tabs@[j],
            decreases n - i,
        {
            let ghost before = self.tabs@;
            let mut tab = self.tabs.remove(i);
            if tab.tracks.len() > 0 {
                tab.selected = Some(0);
            }
            self.tabs.insert(i, tab);
            assert(self.tabs@ =~= before.update(i as int, tab));
            i += 1;
        }
        proof {
            reveal(highlights_valid);
            assert forall|j: int| 0 <= j < n implies
                selection_valid((#[trigger] self.tabs@[j]).selected, self.tabs@[j].tracks@.len()) by {
                assert(self.tabs@[j] == first_highlighted(o.tabs@[j]));
                assert(selection_valid(o.tabs@[j].selected, o.tabs@[j].tracks@.len()));
            }
        }
    }

    /// Installs freshly loaded rows into tab `i` (see `rows_installed`).
    pub fn install_tab_rows(&mut self, i: usize, rows: Vec<TrackSummary>)
        requires
            old(self).wf(),
            i < old(self).tabs@.len(),
        ensures
            final(self).wf(),
            *final(self) == (UiState { tabs: final(self).tabs, ..*old(self) }),
            final(self).tabs@ == old(self).tabs@.update(i as int, final(self).tabs@[i as int]),
            rows_installed(old(self).tabs@[i as int], rows@, final(self).tabs@[i as int]),
    {
        let ghost o = *self;
        let mut tab = self.tabs.remove(i);
        tab.install_rows(rows);
        let ghost t1 = tab;
        self.tabs.insert(i, tab);
        proof {
            reveal(highlights_valid);
            assert(self.tabs@ =~= o.tabs@.update(i as int, t1));
            assert forall|j: int| 0 <= j < self.tabs@.len() implies
                selection_valid((#[trigger] self.tabs@[j]).selected, self.tabs@[j].tracks@.len()) by {
                if j != i {
                    assert(self.tabs@[j] == o.tabs@[j]);
                }
            }
        }
    }

    /// After the caller reloaded the library: the properties panel closes and
    /// its scroll resets.
    pub fn library_reloaded(&mut self)
        ensures
            *final(self) == (UiState { properties_panel_open: false, properties_scroll: 0, ..*old(self) }),
    {
        self.properties_panel_open = false;
        self.properties_scroll = 0;
    }

    /// Installs a freshly loaded group list (always empty when grouping is
    /// off), highlighting its first group when there is one.
    pub fn install_groups(&mut self, groups: Vec<GroupRow>)
        ensures
            old(self).group_mode == GroupMode::Off ==> final(self).groups@.len() == 0,
            old(self).group_mode != GroupMode::Off ==> final(self).groups@ == groups@,
            final(self).groups_selected == (if final(self).groups@.len() > 0 { Some(0usize) } else { None }),
            *final(self) == (UiState { groups: final(self).groups, groups_selected: final(self).groups_selected, ..*old(self) }),
    {
        if self.group_mode == GroupMode::Off {
            self.groups = Vec::new();
        } else {
            self.groups = groups;
        }
        self.groups_selected = if self.groups.len() > 0 { Some(0) } else { None };
    }

    /// Opens the tag editor on the loaded track, or reports that there is
    /// none to edit.
    pub fn open_editor(&mut self, track: Option<TrackInfo>) -> (acts: Vec<Action>)
        ensures
            has_track_id(track) ==> ({
                let t = track.unwrap();
                let e = final(self).edit.unwrap();
                &&& final(self).edit is Some
                &&& e.track_id == t.id.unwrap()
                &&& e.file_path@ == t.file_path@
                &&& e.focus == 0
                &&& e.fields@.len() == 9
                &&& *final(self) == (UiState { edit: final(self).edit, ..*old(self) })
                &&& actions_view(acts@).len() == 0
            }),
            !has_track_id(track) ==> *final(self) == *old(self)
                && actions_view(acts@) == seq![ActionView::Notify(StatusLevel::Warning, NoticeView::NoTrackToEdit)],
    {
        let e = match &track {
            Some(t) => EditState::from_track(t),
            None => None,
        };
        match e {
            Some(e) => {
                self.edit = Some(e);
                empty_actions()
            },
            None => one_action(Action::Notify(StatusLevel::Warning, Notice::NoTrackToEdit)),
        }
    }

    /// The statistics were computed: show them.
    pub fn stats_ready(&mut self)
        ensures
            *final(self) == (UiState { screen: Screens::Stats, ..*old(self) }),
    {
        self.screen = Screens::Stats;
    }

    /// A scan, integrity check or rescan finished: back to the start screen.
    pub fn scan_finished(&mut self)
        ensures
            *final(self) == (UiState { screen: Screens::Start, ..*old(self) }),
    {
        self.screen = Screens::Start;
    }

    /// The check for missing files finished.
    pub fn validation_finished(&mut self)
        ensures
            *final(self) == (UiState { is_validating: false, ..*old(self) }),
    {
        self.is_validating = false;
    }

    /// The enrichment run finished.
    pub fn enrichment_finished(&mut self)
        ensures
            *final(self) == (UiState { is_enriching: false, ..*old(self) }),
    {
        self.is_enriching = false;
    }

    /// Whether the edited search query is due to run, `idle_ms` after the
    /// last keystroke; when it is, it is no longer pending.
    pub fn search_due(&mut self, idle_ms: u64) -> (due: bool)
        ensures
            due == (old(self).search_dirty && idle_ms > SEARCH_DEBOUNCE_MS),
            *final(self) == (UiState { search_dirty: old(self).search_dirty && !due, ..*old(self) }),
    {
        if self.search_dirty && idle_ms > SEARCH_DEBOUNCE_MS {
            self.search_dirty = false;
            true
        } else {
            false
        }
    }
}

/// The state of the directory watch.
#[derive(Clone, Copy, PartialEq, Eq, Structural, Debug)]
pub struct WatchState {
    /// Changes were seen and not yet imported.
    pub pending: bool,
    /// A background import is running.
    pub importing: bool,
}

/// What the watch wants done this frame.
#[derive(Clone, Copy, PartialEq, Eq, Structural, Debug)]
pub struct WatchStep {
    /// A background import finished: reload and say so.
    pub library_updated: bool,
    /// Start a background import of the library directory.
    pub start_import: bool,
}

impl WatchState {
    /// Nothing seen, nothing running.
    pub fn new() -> (res: WatchState)
        ensures
            !res.pending && !res.importing,
    {
        WatchState { pending: false, importing: false }
    }

    /// Watching was turned off: nothing is pending any more.
    pub fn stop(&mut self)
        ensures
            !final(self).pending,
            final(self).importing == old(self).importing,
    {
        self.pending = false;
    }

    /// One frame of the watch: `saw_changes` when the directory reported
    /// changes since the last frame, `quiet_ms` how long it had been quiet
    /// before that, `import_done` when the running import finished,
    /// `scan_running` when another scan is running, `has_path` when a
    /// directory is known. A change makes the import pending; once the
    /// directory has been quiet long enough and nothing else runs, the
    /// pending import starts.
    pub fn tick(&mut self, saw_changes: bool, quiet_ms: u64, import_done: bool, scan_running: bool, has_path: bool) -> (step: WatchStep)
        ensures
            ({
                let pending = old(self).pending || saw_changes;
                let importing = old(self).importing && !import_done;
                let settled = !saw_changes && quiet_ms > WATCH_SETTLE_MS;
                let fire = pending && settled && !importing && !scan_running;
                &&& step.library_updated == (old(self).importing && import_done)
                &&& step.start_import == (fire && has_path)
                &&& final(self).pending == (pending && !fire)
                &&& final(self).importing == (importing || (fire && has_path))
            }),
    {
        let updated = self.importing && import_done;
        if saw_changes {
            self.pending = true;
        }
        if import_done {
            self.importing = false;
        }
        let settled = !saw_changes && quiet_ms > WATCH_SETTLE_MS;
        let mut start = false;
        if self.pending && settled && !self.importing && !scan_running {
            self.pending = false;
            if has_path {
                self.importing = true;
                start = true;
            }
        }
        WatchStep { library_updated: updated, start_import: start }
    }
}

} // verus!
