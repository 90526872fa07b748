//! The search box of a panel: `/` opens it for typing, Enter locks the
//! search in place, Esc ends it. While it is being typed, keys edit the
//! query; the panel lists only what the query fuzzily matches.
use vstd::prelude::*;

use crate::app::{PanelFocus, PanelSearchStatusView, RightPanelTab, SidebarTab};
use crate::selection::PanelSearchTarget;
use crate::text::string_from;
use crate::text_input::{
    delete_input_char_at_cursor, delete_input_char_before_cursor, input_wf, insert_input_char,
    move_input_cursor_end, move_input_cursor_home, move_input_cursor_left,
    move_input_cursor_right, TextInput, TextInputModel,
};

verus! {

/// Whether the query is being typed or locked in place.
#[derive(Debug, Clone, Copy, PartialEq, Eq, Structural)]
pub enum PanelSearchPhase {
    Editing,
    Locked,
}

/// A panel's search: its query, with the cursor, and its phase.
#[derive(Debug, Clone, PartialEq, Eq)]
pub struct PanelSearchState {
    pub input: TextInput,
    pub phase: PanelSearchPhase,
}

/// A key as the search box sees it.
#[derive(Debug, Clone, Copy, PartialEq, Eq, Structural)]
pub enum SearchKey {
    Char(char),
    Enter,
    Esc,
    Backspace,
    Delete,
    Home,
    End,
    Left,
    Right,
    Other,
}

/// What a key did: nothing the search box takes, something it took, or
/// something that changed which rows match, after which the panel's
/// selection is brought back among the rows shown.
#[derive(Debug, Clone, Copy, PartialEq, Eq, Structural)]
pub enum SearchOutcome {
    Ignored,
    Handled,
    Refilter,
}

/// A search as a model: query, cursor and phase.
pub struct SearchModel {
    pub input: TextInputModel,
    pub phase: PanelSearchPhase,
}

pub open spec fn search_model(s: Option<PanelSearchState>) -> Option<SearchModel> {
    match s {
        Some(st) => Some(SearchModel { input: st.input@, phase: st.phase }),
        None => None,
    }
}

/// The cursor of every search stands within its query.
pub open spec fn search_wf(s: Option<SearchModel>) -> bool {
    match s {
        Some(m) => input_wf(m.input),
        None => true,
    }
}

/// The query a panel lists by, if it has a search.
pub open spec fn search_query(s: Option<SearchModel>) -> Option<Seq<char>> {
    match s {
        Some(m) => Some(m.input.value),
        None => None,
    }
}

/// A key's effect on the search of the focused panel. `/` opens the search
/// for typing, keeping any query, or starts an empty one. A locked search
/// only ends, on Esc. While typing, Esc ends the search, Enter locks it,
/// Backspace, Delete and characters edit the query, and the arrows, Home
/// and End move the cursor. With no search, only `/` is taken.
pub open spec fn search_step(s: Option<SearchModel>, key: SearchKey) -> (Option<SearchModel>, SearchOutcome) {
    if key == SearchKey::Char('/') {
        match s {
            Some(m) => (
                Some(
                    SearchModel {
                        input: TextInputModel {
                            value: m.input.value,
                            cursor: if m.input.cursor <= m.input.value.len() {
                                m.input.cursor
                            } else {
                                m.input.value.len()
                            },
                        },
                        phase: PanelSearchPhase::Editing,
                    },
                ),
                SearchOutcome::Refilter,
            ),
            None => (
                Some(
                    SearchModel {
                        input: TextInputModel { value: Seq::empty(), cursor: 0 },
                        phase: PanelSearchPhase::Editing,
                    },
                ),
                SearchOutcome::Refilter,
            ),
        }
    } else {
        match s {
            None => (s, SearchOutcome::Ignored),
            Some(m) => if key == SearchKey::Esc {
                (None, SearchOutcome::Refilter)
            } else if m.phase == PanelSearchPhase::Locked {
                (s, SearchOutcome::Ignored)
            } else if key == SearchKey::Enter {
                (Some(SearchModel { phase: PanelSearchPhase::Locked, ..m }), SearchOutcome::Handled)
            } else {
                let v = m.input.value;
                let c = m.input.cursor;
                match key {
                    SearchKey::Backspace => if c == 0 {
                        (s, SearchOutcome::Refilter)
                    } else {
                        (
                            Some(
                                SearchModel {
                                    input: TextInputModel { value: v.remove(c - 1), cursor: (c - 1) as nat },
                                    ..m
                                },
                            ),
                            SearchOutcome::Refilter,
                        )
                    },
                    SearchKey::Delete => if c >= v.len() {
                        (s, SearchOutcome::Refilter)
                    } else {
                        (
                            Some(SearchModel { input: TextInputModel { value: v.remove(c as int), cursor: c }, ..m }),
                            SearchOutcome::Refilter,
                        )
                    },
                    SearchKey::Char(ch) => (
                        Some(SearchModel { input: TextInputModel { value: v.insert(c as int, ch), cursor: c + 1 }, ..m }),
                        SearchOutcome::Refilter,
                    ),
                    SearchKey::Home => (
                        Some(SearchModel { input: TextInputModel { value: v, cursor: 0 }, ..m }),
                        SearchOutcome::Handled,
                    ),
                    SearchKey::End => (
                        Some(SearchModel { input: TextInputModel { value: v, cursor: v.len() }, ..m }),
                        SearchOutcome::Handled,
                    ),
                    SearchKey::Left => (
                        Some(
                            SearchModel {
                                input: TextInputModel {
                                    value: v,
                                    cursor: if c == 0 {
                                        0
                                    } else {
                                        (c - 1) as nat
                                    },
                                },
                                ..m
                            },
                        ),
                        SearchOutcome::Handled,
                    ),
                    SearchKey::Right => (
                        Some(
                            SearchModel {
                                input: TextInputModel {
                                    value: v,
                                    cursor: if c >= v.len() {
                                        c
                                    } else {
                                        c + 1
                                    },
                                },
                                ..m
                            },
                        ),
                        SearchOutcome::Handled,
                    ),
                    _ => (s, SearchOutcome::Handled),
                }
            },
        }
    }
}

/// Applies a key to the search of the focused panel and says what it did.
pub fn handle_panel_search_key(search: &mut Option<PanelSearchState>, key: SearchKey) -> (r: SearchOutcome)
    requires
        search_wf(search_model(*old(search))),
        match *old(search) {
            Some(st) => st.input@.value.len() < usize::MAX,
            None => true,
        },
    ensures
        (search_model(*final(search)), r) == search_step(search_model(*old(search)), key),
        search_wf(search_model(*final(search))),
{
    if key == SearchKey::Char('/') {
        match search {
            Some(state) => {
                state.phase = PanelSearchPhase::Editing;
                if state.input.cursor > state.input.value.len() {
                    state.input.cursor = state.input.value.len();
                }
            },
            None => {
                *search = Some(PanelSearchState { input: TextInput::new(), phase: PanelSearchPhase::Editing });
            },
        }
        return SearchOutcome::Refilter;
    }
    let phase = match search {
        Some(state) => state.phase,
        None => {
            return SearchOutcome::Ignored;
        },
    };
    if key == SearchKey::Esc {
        *search = None;
        return SearchOutcome::Refilter;
    }
    if phase == PanelSearchPhase::Locked {
        return SearchOutcome::Ignored;
    }
    if key == SearchKey::Enter {
        if let Some(state) = search {
            state.phase = PanelSearchPhase::Locked;
        }
        return SearchOutcome::Handled;
    }
    let mut outcome = SearchOutcome::Handled;
    if let Some(state) = search {
        match key {
            SearchKey::Backspace => {
                delete_input_char_before_cursor(&mut state.input);
                outcome = SearchOutcome::Refilter;
            },
            SearchKey::Delete => {
                delete_input_char_at_cursor(&mut state.input);
                outcome = SearchOutcome::Refilter;
            },
            SearchKey::Char(character) => {
                insert_input_char(&mut state.input, character);
                outcome = SearchOutcome::Refilter;
            },
            SearchKey::Home => move_input_cursor_home(&mut state.input),
            SearchKey::End => move_input_cursor_end(&mut state.input),
            SearchKey::Left => move_input_cursor_left(&mut state.input),
            SearchKey::Right => move_input_cursor_right(&mut state.input),
            _ => {},
        }
    }
    outcome
}

/// The query a panel lists by: its search's query, if it has a search.
pub fn panel_search_query(search: &Option<PanelSearchState>) -> (r: Option<&[char]>)
    ensures
        match r {
            Some(q) => search_query(search_model(*search)) == Some(q@),
            None => search_query(search_model(*search)) is None,
        },
{
    match search {
        Some(state) => Some(state.input.value.as_slice()),
        None => None,
    }
}

/// The searches of the six searchable panels.
#[derive(Debug, Clone, PartialEq, Eq)]
pub struct PanelSearchStates {
    pub navigation_views: Option<PanelSearchState>,
    pub projects: Option<PanelSearchState>,
    pub tags: Option<PanelSearchState>,
    pub filters: Option<PanelSearchState>,
    pub favorites: Option<PanelSearchState>,
    pub task_list: Option<PanelSearchState>,
}

/// The search of one panel.
pub open spec fn search_of(states: PanelSearchStates, target: PanelSearchTarget) -> Option<PanelSearchState> {
    match target {
        PanelSearchTarget::NavigationViews => states.navigation_views,
        PanelSearchTarget::Projects => states.projects,
        PanelSearchTarget::Tags => states.tags,
        PanelSearchTarget::Filters => states.filters,
        PanelSearchTarget::Favorites => states.favorites,
        PanelSearchTarget::TaskList => states.task_list,
    }
}

/// The search of one panel.
pub fn panel_search_state(states: &PanelSearchStates, target: PanelSearchTarget) -> (r: &Option<PanelSearchState>)
    ensures
        *r == search_of(*states, target),
{
    match target {
        PanelSearchTarget::NavigationViews => &states.navigation_views,
        PanelSearchTarget::Projects => &states.projects,
        PanelSearchTarget::Tags => &states.tags,
        PanelSearchTarget::Filters => &states.filters,
        PanelSearchTarget::Favorites => &states.favorites,
        PanelSearchTarget::TaskList => &states.task_list,
    }
}

fn is_editing(s: &Option<PanelSearchState>) -> (r: bool)
    ensures
        r == (*s matches Some(st) && st.phase == PanelSearchPhase::Editing),
{
    match s {
        Some(st) => st.phase == PanelSearchPhase::Editing,
        None => false,
    }
}

/// Whether a query is being typed into any panel.
pub fn any_panel_search_editing(states: &PanelSearchStates) -> (r: bool)
    ensures
        r == exists|t: PanelSearchTarget| #[trigger] search_of(*states, t) matches Some(st) && st.phase
            == PanelSearchPhase::Editing,
{
    let r = is_editing(&states.navigation_views) || is_editing(&states.projects) || is_editing(&states.tags)
        || is_editing(&states.filters) || is_editing(&states.favorites) || is_editing(&states.task_list);
    proof {
        if r {
            if is_editing_spec(states.navigation_views) {
                assert(search_of(*states, PanelSearchTarget::NavigationViews) == states.navigation_views);
            } else if is_editing_spec(states.projects) {
                assert(search_of(*states, PanelSearchTarget::Projects) == states.projects);
            } else if is_editing_spec(states.tags) {
                assert(search_of(*states, PanelSearchTarget::Tags) == states.tags);
            } else if is_editing_spec(states.filters) {
                assert(search_of(*states, PanelSearchTarget::Filters) == states.filters);
            } else if is_editing_spec(states.favorites) {
                assert(search_of(*states, PanelSearchTarget::Favorites) == states.favorites);
            } else {
                assert(search_of(*states, PanelSearchTarget::TaskList) == states.task_list);
            }
        }
    }
    r
}

pub open spec fn is_editing_spec(s: Option<PanelSearchState>) -> bool {
    s matches Some(st) && st.phase == PanelSearchPhase::Editing
}

/// The panel the focus gives search to: the sidebar's tab, the favorites,
/// or the task list on the right; none for the other panels.
pub open spec fn focused_search_target_spec(focused: PanelFocus, sidebar: SidebarTab, right: RightPanelTab) -> Option<PanelSearchTarget> {
    match focused {
        PanelFocus::Navigation => Some(
            match sidebar {
                SidebarTab::Navigation => PanelSearchTarget::NavigationViews,
                SidebarTab::Projects => PanelSearchTarget::Projects,
                SidebarTab::Tags => PanelSearchTarget::Tags,
                SidebarTab::Filters => PanelSearchTarget::Filters,
            },
        ),
        PanelFocus::Favorites => Some(PanelSearchTarget::Favorites),
        PanelFocus::RightPane => if right == RightPanelTab::Tasks {
            Some(PanelSearchTarget::TaskList)
        } else {
            None
        },
        _ => None,
    }
}

/// The panel the focus gives search to.
pub fn focused_panel_search_target(focused: PanelFocus, sidebar: SidebarTab, right: RightPanelTab) -> (r: Option<PanelSearchTarget>)
    ensures
        r == focused_search_target_spec(focused, sidebar, right),
{
    match focused {
        PanelFocus::Navigation => Some(
            match sidebar {
                SidebarTab::Navigation => PanelSearchTarget::NavigationViews,
                SidebarTab::Projects => PanelSearchTarget::Projects,
                SidebarTab::Tags => PanelSearchTarget::Tags,
                SidebarTab::Filters => PanelSearchTarget::Filters,
            },
        ),
        PanelFocus::Favorites => Some(PanelSearchTarget::Favorites),
        PanelFocus::RightPane => if right == RightPanelTab::Tasks {
            Some(PanelSearchTarget::TaskList)
        } else {
            None
        },
        _ => None,
    }
}

/// The search line of the focused panel: its query, cursor and whether it
/// is being typed; none where the focused panel has no search.
pub fn focused_panel_search_status(
    states: &PanelSearchStates,
    focused: PanelFocus,
    sidebar: SidebarTab,
    right: RightPanelTab,
) -> (r: Option<PanelSearchStatusView>)
    ensures
        match focused_search_target_spec(focused, sidebar, right) {
            None => r is None,
            Some(t) => match search_of(*states, t) {
                None => r is None,
                Some(st) => r matches Some(v) && v.query@ == st.input.value@ && v.cursor == st.input.cursor
                    && v.is_editing == (st.phase == PanelSearchPhase::Editing),
            },
        },
{
    let target = match focused_panel_search_target(focused, sidebar, right) {
        Some(t) => t,
        None => {
            return None;
        },
    };
    match panel_search_state(states, target) {
        Some(st) => Some(
            PanelSearchStatusView {
                query: string_from(st.input.value.as_slice()),
                cursor: st.input.cursor,
                is_editing: st.phase == PanelSearchPhase::Editing,
            },
        ),
        None => None,
    }
}

/// Opens a panel's search for typing: an existing search keeps its query,
/// with the cursor kept within it; otherwise the search starts empty.
pub fn open_panel_search(search: &mut Option<PanelSearchState>)
    ensures
        match *old(search) {
            Some(st) => *final(search) matches Some(n) && n.phase == PanelSearchPhase::Editing && n.input.value@
                == st.input.value@ && n.input.cursor == if st.input.cursor < st.input.value@.len() {
                st.input.cursor as int
            } else {
                st.input.value@.len() as int
            },
            None => *final(search) matches Some(n) && n.phase == PanelSearchPhase::Editing && n.input.value@.len()
                == 0 && n.input.cursor == 0,
        },
        search_wf(search_model(*final(search))),
{
    match search {
        Some(st) => {
            st.phase = PanelSearchPhase::Editing;
            if st.input.cursor > st.input.value.len() {
                st.input.cursor = st.input.value.len();
            }
        },
        None => {
            *search = Some(PanelSearchState { input: TextInput::new(), phase: PanelSearchPhase::Editing });
        },
    }
}

/// Esc ends any search; a locked search takes no key but `/` and Esc; and
/// `/` after Enter opens the same query for typing again.
pub proof fn search_laws(s: Option<SearchModel>, key: SearchKey)
    requires
        search_wf(s),
    ensures
        s is Some ==> search_step(s, SearchKey::Esc).0 is None,
        (s matches Some(m) && m.phase == PanelSearchPhase::Locked && key != SearchKey::Esc && key
            != SearchKey::Char('/')) ==> search_step(s, key) == (s, SearchOutcome::Ignored),
        s is Some ==> search_query(
            search_step(search_step(s, SearchKey::Enter).0, SearchKey::Char('/')).0,
        ) == search_query(s),
        search_wf(search_step(s, key).0),
{
}

} // verus!
