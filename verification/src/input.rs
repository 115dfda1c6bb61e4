//! The entry points of the interface state machine: a key press or a mouse
//! event on the current screen, and what the caller reports back after doing
//! the work it was asked for.
use vstd::prelude::*;
use crate::app::{
    DuplicatesView, GroupMode, Screens, StatusLevel, TabData, TabKind,
    selection_valid,
};
use crate::keys::{
    Action, ActionView, Key, Notice, UiState, actions_view, cur, empty_actions,
    highlights_valid, lemma_cur_highlight, one_action, select_next, select_prev,
};
use crate::navigate::{
    browse_key_rel, help_key_rel, highlight_set, key_rel, lemma_wf_same_tabs, load_if_open,
    main_key_rel, member_moved, on_duplicates, sat_add_u16, sat_sub_u16, scan_rel, start_key_rel,
    unchanged,
};

verus! {

/// A mouse event, as far as the interface distinguishes them.
#[derive(Clone, Copy, PartialEq, Eq, Structural, Debug)]
pub enum MouseEvent {
    ScrollDown,
    ScrollUp,
    /// The left button went down at this cell.
    LeftClick { column: u16, row: u16 },
    Other,
}

/// A rectangle of terminal cells.
#[derive(Clone, Copy, PartialEq, Eq, Structural, Debug)]
pub struct Area {
    pub x: u16,
    pub y: u16,
    pub width: u16,
    pub height: u16,
}

/// The cell `(x, y)` lies inside `r`.
pub open spec fn area_contains(r: Area, x: u16, y: u16) -> bool {
    x >= r.x && x < r.x + r.width && y >= r.y && y < r.y + r.height
}

/// Whether the cell `(x, y)` lies inside `r`.
pub fn contains(r: Area, x: u16, y: u16) -> (res: bool)
    ensures
        res == area_contains(r, x, y),
{
    let right: u32 = r.x as u32 + r.width as u32;
    let bottom: u32 = r.y as u32 + r.height as u32;
    x >= r.x && (x as u32) < right && y >= r.y && (y as u32) < bottom
}

/// The row of the track list under screen line `row`: the rows start three
/// lines below the top of the table (border, header, margin) and the table
/// is scrolled by `offset` rows.
pub open spec fn clicked_row(table: Area, offset: usize, row: u16) -> int {
    offset + (row - (table.y + 3))
}

/// A mouse event on the main screen; the popups ignore the mouse.
pub open spec fn mouse_rel(
    o: UiState,
    ev: MouseEvent,
    tab_bar: Area,
    table: Area,
    offset: usize,
    n: UiState,
    acts: Seq<ActionView>,
) -> bool {
    if o.screen != Screens::Main || o.help_open || o.filter_mode || o.search_mode {
        unchanged(o, n, acts)
    } else {
        match ev {
            MouseEvent::ScrollDown => if o.properties_panel_open {
                n == UiState { properties_scroll: sat_add_u16(o.properties_scroll, 3), ..o } && acts.len() == 0
            } else if on_duplicates(o) {
                member_moved(o, n, 1) && acts.len() == 0
            } else {
                highlight_set(o, n, select_next(cur(o).selected, cur(o).tracks@.len())) && acts.len() == 0
            },
            MouseEvent::ScrollUp => if o.properties_panel_open {
                n == UiState { properties_scroll: sat_sub_u16(o.properties_scroll, 3), ..o } && acts.len() == 0
            } else if on_duplicates(o) {
                member_moved(o, n, -1) && acts.len() == 0
            } else {
                highlight_set(o, n, select_prev(cur(o).selected)) && acts.len() == 0
            },
            MouseEvent::LeftClick { column, row } => if area_contains(tab_bar, column, row) {
                n == UiState { current_tab: ((o.current_tab + 1) % (o.tabs@.len() as int)) as usize, ..o }
                    && acts.len() == 0
            } else if !on_duplicates(o) && area_contains(table, column, row) && row >= table.y + 3
                && clicked_row(table, offset, row) < cur(o).tracks@.len() {
                highlight_set(o, n, Some(clicked_row(table, offset, row) as usize)) && load_if_open(o, acts)
            } else {
                unchanged(o, n, acts)
            },
            MouseEvent::Other => unchanged(o, n, acts),
        }
    }
}

impl UiState {
    /// The state at start-up: the start screen over these tabs, nothing open,
    /// nothing highlighted in the group list.
    pub fn new(
        tabs: Vec<TabData>,
        duplicates: DuplicatesView,
        formats_in_library: Vec<String>,
        has_api_key: bool,
        has_library_path: bool,
    ) -> (res: UiState)
        requires
            tabs@.len() > 0,
            forall|i: int| 0 <= i < tabs@.len() ==> selection_valid(#[trigger] tabs@[i].selected, tabs@[i].tracks@.len()),
        ensures
            res.wf(),
            res.screen == Screens::Start,
            res.tabs == tabs,
            res.current_tab == 0,
            res.duplicates == duplicates,
            res.formats_in_library == formats_in_library,
            res.has_api_key == has_api_key,
            res.has_library_path == has_library_path,
            res.edit is None,
            !res.help_open && !res.export_mode && !res.filter_mode && !res.search_mode && !res.search_dirty,
            !res.is_enriching && !res.is_validating && !res.properties_panel_open && res.properties_scroll == 0,
            res.group_mode == GroupMode::Off && res.groups@.len() == 0 && res.groups_selected is None,
            !res.pending_purge && !res.should_quit && !res.quit_confirmed,
    {
        proof { reveal(highlights_valid); }
        UiState {
            screen: Screens::Start,
            tabs,
            current_tab: 0,
            duplicates,
            help_open: false,
            is_enriching: false,
            is_validating: false,
            edit: None,
            export_mode: false,
            filter_mode: false,
            search_mode: false,
            search_dirty: false,
            properties_panel_open: false,
            properties_scroll: 0,
            group_mode: GroupMode::Off,
            groups: Vec::new(),
            groups_selected: None,
            formats_in_library,
            pending_purge: false,
            should_quit: false,
            quit_confirmed: false,
            has_api_key,
            has_library_path,
        }
    }

    /// A key on the main screen with no popup open.
    fn browse_key(&mut self, key: Key) -> (acts: Vec<Action>)
        requires
            old(self).wf(),
        ensures
            browse_key_rel(*old(self), key, *final(self), actions_view(acts@)),
            final(self).wf(),
    {
        match key {
            Key::Char('/') => self.key_search(),
            Key::Char('?') => self.key_help(),
            Key::Char('f') => self.key_filter(),
            Key::Char('w') => self.key_watch(),
            Key::Char('z') => self.key_undo(),
            Key::Char('x') => self.key_export(),
            Key::Char('c') => self.key_stats(),
            Key::Char('m') => self.key_edit(),
            Key::Char('g') => self.key_group(),
            Key::Enter => self.key_enter(),
            Key::Char('p') => self.key_panel(),
            Key::Up => self.key_up(),
            Key::Down => self.key_down(),
            Key::Left => self.key_left(),
            Key::Right => self.key_right(),
            Key::Tab => self.key_tab(),
            Key::Char('s') => self.key_sort(),
            Key::Char('S') => self.key_sort_dir(),
            Key::Char(' ') => self.key_toggle(),
            Key::Char('i') => self.key_check_all(),
            Key::Char('o') => self.key_uncheck_all(),
            Key::Char('u') => self.key_invert(),
            Key::Char('d') => self.key_delete(),
            Key::Char('r') => self.key_restore(),
            Key::Char('k') => self.key_keep(),
            Key::Char('e') => self.key_enrich(),
            Key::PageDown => self.key_page_down(),
            Key::PageUp => self.key_page_up(),
            Key::Char('q') => self.key_quit(),
            Key::Esc => self.key_back(),
            _ => empty_actions(),
        }
    }

    /// A key while the help overlay is open.
    fn help_key(&mut self, key: Key) -> (acts: Vec<Action>)
        ensures
            help_key_rel(*old(self), key, *final(self), actions_view(acts@)),
    {
        match key {
            Key::Esc | Key::Char('?') | Key::Char('q') => {
                self.help_open = false;
                empty_actions()
            },
            _ => empty_actions(),
        }
    }

    /// A key on the main screen.
    pub fn main_key(&mut self, key: Key) -> (acts: Vec<Action>)
        requires
            old(self).wf(),
        ensures
            main_key_rel(*old(self), key, *final(self), actions_view(acts@)),
            final(self).wf(),
    {
        let ghost o = *self;
        if self.help_open {
            let acts = self.help_key(key);
            proof { lemma_wf_same_tabs(o, *self); }
            return acts;
        }
        if self.is_enriching && key == Key::Esc {
            return one_action(Action::RequestCancel);
        }
        if self.edit.is_some() {
            let acts = self.edit_key(key);
            proof { lemma_wf_same_tabs(o, *self); }
            return acts;
        }
        if self.export_mode {
            let acts = self.export_key(key);
            proof { lemma_wf_same_tabs(o, *self); }
            return acts;
        }
        if self.filter_mode {
            return self.filter_key(key);
        }
        if self.search_mode {
            return self.search_key(key);
        }
        self.browse_key(key)
    }

    /// `[s]` or `[r]` on the start screen: a scan, when a directory is known.
    fn start_scan(&mut self, fresh: bool) -> (acts: Vec<Action>)
        ensures
            scan_rel(*old(self), *final(self), actions_view(acts@), fresh),
            final(self).tabs == old(self).tabs,
            final(self).current_tab == old(self).current_tab,
    {
        if self.has_library_path {
            self.screen = Screens::Scanning;
            one_action(Action::StartScan(fresh))
        } else {
            one_action(Action::Notify(StatusLevel::Warning, Notice::PathNotProvided))
        }
    }

    /// `[q]` on the start screen: asks to quit, or confirms.
    fn start_quit(&mut self) -> (acts: Vec<Action>)
        ensures
            start_key_rel(*old(self), Key::Char('q'), *final(self), actions_view(acts@)),
            final(self).tabs == old(self).tabs,
            final(self).current_tab == old(self).current_tab,
    {
        if !self.search_mode {
            if self.should_quit {
                self.quit_confirmed = true;
            }
            self.should_quit = true;
        }
        empty_actions()
    }

    /// `[Esc]` on the start screen: drops a quit request.
    fn start_back(&mut self) -> (acts: Vec<Action>)
        ensures
            start_key_rel(*old(self), Key::Esc, *final(self), actions_view(acts@)),
            final(self).tabs == old(self).tabs,
            final(self).current_tab == old(self).current_tab,
    {
        if self.should_quit {
            self.should_quit = false;
        }
        empty_actions()
    }

    /// `[h]`: the integrity check.
    fn start_health(&mut self) -> (acts: Vec<Action>)
        ensures
            start_key_rel(*old(self), Key::Char('h'), *final(self), actions_view(acts@)),
            final(self).tabs == old(self).tabs,
            final(self).current_tab == old(self).current_tab,
    {
        self.screen = Screens::Scanning;
        one_action(Action::StartHealthCheck)
    }

    /// `[u]`: re-reads the tags of changed files.
    fn start_rescan(&mut self) -> (acts: Vec<Action>)
        ensures
            start_key_rel(*old(self), Key::Char('u'), *final(self), actions_view(acts@)),
            final(self).tabs == old(self).tabs,
            final(self).current_tab == old(self).current_tab,
    {
        self.screen = Screens::Scanning;
        one_action(Action::StartRescan)
    }

    /// `[v]`: marks tracks whose files are gone.
    fn start_validate(&mut self) -> (acts: Vec<Action>)
        ensures
            start_key_rel(*old(self), Key::Char('v'), *final(self), actions_view(acts@)),
            final(self).tabs == old(self).tabs,
            final(self).current_tab == old(self).current_tab,
    {
        self.is_validating = true;
        one_action(Action::StartValidation)
    }

    /// `[Enter]`: goes to the main screen.
    fn start_open(&mut self) -> (acts: Vec<Action>)
        ensures
            start_key_rel(*old(self), Key::Enter, *final(self), actions_view(acts@)),
            final(self).tabs == old(self).tabs,
            final(self).current_tab == old(self).current_tab,
    {
        self.screen = Screens::Main;
        empty_actions()
    }

    /// A key on the start screen.
    pub fn start_key(&mut self, key: Key) -> (acts: Vec<Action>)
        ensures
            start_key_rel(*old(self), key, *final(self), actions_view(acts@)),
            final(self).tabs == old(self).tabs,
            final(self).current_tab == old(self).current_tab,
    {
        match key {
            Key::Char('q') => self.start_quit(),
            Key::Esc => self.start_back(),
            Key::Char('s') => self.start_scan(false),
            Key::Char('r') => self.start_scan(true),
            Key::Char('h') => self.start_health(),
            Key::Char('u') => self.start_rescan(),
            Key::Char('v') => self.start_validate(),
            Key::Enter => self.start_open(),
            _ => empty_actions(),
        }
    }

    /// A key on any screen: the next state, and the work the caller is to do
    /// (in order).
    pub fn handle_key(&mut self, key: Key) -> (acts: Vec<Action>)
        requires
            old(self).wf(),
        ensures
            key_rel(*old(self), key, *final(self), actions_view(acts@)),
            final(self).wf(),
    {
        let ghost o = *self;
        match self.screen {
            Screens::Start => {
                let acts = self.start_key(key);
                proof { lemma_wf_same_tabs(o, *self); }
                acts
            },
            Screens::Main => self.main_key(key),
            Screens::Scanning => {
                if key == Key::Esc {
                    one_action(Action::RequestCancel)
                } else {
                    empty_actions()
                }
            },
            Screens::Stats => {
                match key {
                    Key::Esc | Key::Char('q') | Key::Char('c') => {
                        self.screen = Screens::Main;
                        proof { lemma_wf_same_tabs(o, *self); }
                    },
                    _ => {},
                }
                empty_actions()
            },
        }
    }

    /// The mouse is ignored off the main screen and while a popup is open.
    pub open spec fn mouse_ignored(self) -> bool {
        self.screen != Screens::Main || self.help_open || self.filter_mode || self.search_mode
    }

    /// Wheel down: scrolls the properties panel, moves the keeper highlight
    /// right, or moves the track highlight down.
    fn wheel_down(&mut self, tab_bar: Area, table: Area, offset: usize) -> (acts: Vec<Action>)
        requires
            old(self).wf(),
            !old(self).mouse_ignored(),
        ensures
            mouse_rel(*old(self), MouseEvent::ScrollDown, tab_bar, table, offset, *final(self), actions_view(acts@)),
            final(self).wf(),
    {
        let ghost o = *self;
        proof { lemma_cur_highlight(o); }
        if self.properties_panel_open {
            self.properties_scroll = if self.properties_scroll > u16::MAX - 3 { u16::MAX } else { self.properties_scroll + 3 };
            proof { lemma_wf_same_tabs(o, *self); }
        } else if self.is_dup() {
            self.duplicates.select_member(1);
            proof { lemma_wf_same_tabs(o, *self); }
        } else {
            let len = self.tabs[self.current_tab].tracks.len();
            let max = if len > 0 { len - 1 } else { 0 };
            let sel = match self.tabs[self.current_tab].selected {
                Some(i) => Some(if i < max { i + 1 } else { max }),
                None => None,
            };
            self.set_highlight(sel);
        }
        empty_actions()
    }

    /// Wheel up: as wheel down, the other way.
    fn wheel_up(&mut self, tab_bar: Area, table: Area, offset: usize) -> (acts: Vec<Action>)
        requires
            old(self).wf(),
            !old(self).mouse_ignored(),
        ensures
            mouse_rel(*old(self), MouseEvent::ScrollUp, tab_bar, table, offset, *final(self), actions_view(acts@)),
            final(self).wf(),
    {
        let ghost o = *self;
        proof { lemma_cur_highlight(o); }
        if self.properties_panel_open {
            self.properties_scroll = if self.properties_scroll < 3 { 0 } else { self.properties_scroll - 3 };
            proof { lemma_wf_same_tabs(o, *self); }
        } else if self.is_dup() {
            self.duplicates.select_member(-1);
            proof { lemma_wf_same_tabs(o, *self); }
        } else {
            let sel = match self.tabs[self.current_tab].selected {
                Some(i) => Some(if i > 0 { i - 1 } else { 0 }),
                None => None,
            };
            self.set_highlight(sel);
        }
        empty_actions()
    }

    /// A left click: on the tab bar it goes to the next tab; on a row of the
    /// track list it highlights that row.
    fn click(&mut self, column: u16, row: u16, tab_bar: Area, table: Area, offset: usize) -> (acts: Vec<Action>)
        requires
            old(self).wf(),
            !old(self).mouse_ignored(),
        ensures
            mouse_rel(*old(self), (MouseEvent::LeftClick { column, row }), tab_bar, table, offset,
                *final(self), actions_view(acts@)),
            final(self).wf(),
    {
        let ghost o = *self;
        if contains(tab_bar, column, row) {
            let len = self.tabs.len();
            self.current_tab = (self.current_tab + 1) % len;
            proof { reveal(highlights_valid); }
            return empty_actions();
        }
        if self.is_dup() || !contains(table, column, row) {
            return empty_actions();
        }
        let first_row: u32 = table.y as u32 + 3;
        if (row as u32) < first_row {
            return empty_actions();
        }
        let below: usize = (row as u32 - first_row) as usize;
        let len = self.tabs[self.current_tab].tracks.len();
        let idx = match offset.checked_add(below) {
            Some(v) => v,
            None => return empty_actions(),
        };
        if idx < len {
            self.set_highlight(Some(idx));
            self.load_if_panel_open()
        } else {
            empty_actions()
        }
    }

    /// A mouse event; `tab_bar` and `table` are where the tab bar and the
    /// track list were last drawn, and `offset` is how far the list is
    /// scrolled.
    pub fn handle_mouse(&mut self, ev: MouseEvent, tab_bar: Area, table: Area, offset: usize) -> (acts: Vec<Action>)
        requires
            old(self).wf(),
        ensures
            mouse_rel(*old(self), ev, tab_bar, table, offset, *final(self), actions_view(acts@)),
            final(self).wf(),
    {
        if self.screen != Screens::Main || self.help_open || self.filter_mode || self.search_mode {
            return empty_actions();
        }
        match ev {
            MouseEvent::ScrollDown => self.wheel_down(tab_bar, table, offset),
            MouseEvent::ScrollUp => self.wheel_up(tab_bar, table, offset),
            MouseEvent::LeftClick { column, row } => self.click(column, row, tab_bar, table, offset),
            MouseEvent::Other => empty_actions(),
        }
    }
}


/// The keys act on the start screen, or on the main screen with no popup,
/// editor or search box open.
pub open spec fn commands_live(o: UiState) -> bool {
    ||| o.screen == Screens::Start && !o.search_mode
    ||| o.screen == Screens::Main && !o.help_open && o.edit is None && !o.export_mode && !o.filter_mode
        && !o.search_mode
}

/// Quitting takes two presses of `[q]`: the first only asks for
/// confirmation, the second confirms.
pub proof fn lemma_quit_takes_two_presses(
    o: UiState,
    n: UiState,
    a: Seq<ActionView>,
    m: UiState,
    b: Seq<ActionView>,
)
    requires
        commands_live(o),
        !o.should_quit,
        !o.quit_confirmed,
        key_rel(o, Key::Char('q'), n, a),
        key_rel(n, Key::Char('q'), m, b),
    ensures
        n.should_quit,
        !n.quit_confirmed,
        m.quit_confirmed,
{
}

/// `[Esc]` withdraws a quit request.
pub proof fn lemma_esc_withdraws_quit(o: UiState, n: UiState, a: Seq<ActionView>)
    requires
        commands_live(o),
        !(o.screen == Screens::Main && o.is_enriching),
        o.should_quit,
        key_rel(o, Key::Esc, n, a),
    ensures
        !n.should_quit,
        n.quit_confirmed == o.quit_confirmed,
{
}

/// Flagged tracks are purged only by `[d]` on the Trash tab when a purge is
/// already pending, that is after an earlier `[d]` asked for confirmation.
pub proof fn lemma_purge_needs_confirmation(o: UiState, key: Key, n: UiState, acts: Seq<ActionView>)
    requires
        key_rel(o, key, n, acts),
        acts.contains(ActionView::Purge),
    ensures
        o.screen == Screens::Main,
        key == Key::Char('d'),
        o.pending_purge,
        cur(o).kind == TabKind::Trash,
        !n.pending_purge,
{
    if !(o.screen == Screens::Main && !o.help_open && !(o.is_enriching && key == Key::Esc) && o.edit is None
        && !o.export_mode && !o.filter_mode && !o.search_mode && key == Key::Char('d')) {
        assert(!acts.contains(ActionView::Purge)) by {
            if acts.contains(ActionView::Purge) {
                let i = choose|i: int| 0 <= i < acts.len() && acts[i] == ActionView::Purge;
                assert(acts[i] == ActionView::Purge);
            }
        }
    }
}

/// The first `[d]` on a Trash tab with rows only asks for confirmation.
pub proof fn lemma_first_delete_asks(o: UiState, n: UiState, acts: Seq<ActionView>)
    requires
        commands_live(o),
        o.screen == Screens::Main,
        cur(o).kind == TabKind::Trash,
        cur(o).tracks@.len() > 0,
        !o.pending_purge,
        key_rel(o, Key::Char('d'), n, acts),
    ensures
        n.pending_purge,
        acts.len() == 0,
{
}

/// Typing a character in the search box and deleting it again gives back
/// the query.
pub proof fn lemma_search_type_then_delete(
    o: UiState,
    c: char,
    n: UiState,
    a: Seq<ActionView>,
    m: UiState,
    b: Seq<ActionView>,
)
    requires
        o.screen == Screens::Main,
        !o.help_open,
        o.edit is None,
        !o.export_mode,
        !o.filter_mode,
        o.search_mode,
        key_rel(o, Key::Char(c), n, a),
        key_rel(n, Key::Backspace, m, b),
    ensures
        cur(m).search_query@ == cur(o).search_query@,
        m.current_tab == o.current_tab,
{
    let q = cur(o).search_query@;
    assert(q.push(c).drop_last() =~= q);
}

} // verus!
