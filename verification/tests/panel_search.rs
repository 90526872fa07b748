use triginta::app::{PanelFocus, RightPanelTab, SidebarTab};
use triginta::panel_search::{
    any_panel_search_editing, focused_panel_search_status, focused_panel_search_target,
    handle_panel_search_key, open_panel_search, panel_search_query, panel_search_state,
    PanelSearchPhase, PanelSearchState, PanelSearchStates, SearchKey, SearchOutcome,
};
use triginta::selection::PanelSearchTarget;
use triginta::text_input::TextInput;

fn query(search: &Option<PanelSearchState>) -> Option<String> {
    panel_search_query(search).map(|q| q.iter().collect())
}

#[test]
fn search_opens_edits_locks_and_clears() {
    let mut search: Option<PanelSearchState> = None;
    assert_eq!(handle_panel_search_key(&mut search, SearchKey::Char('x')), SearchOutcome::Ignored);
    assert_eq!(handle_panel_search_key(&mut search, SearchKey::Char('/')), SearchOutcome::Refilter);
    assert_eq!(query(&search), Some(String::new()));
    for c in "tdy".chars() {
        assert_eq!(handle_panel_search_key(&mut search, SearchKey::Char(c)), SearchOutcome::Refilter);
    }
    assert_eq!(handle_panel_search_key(&mut search, SearchKey::Left), SearchOutcome::Handled);
    assert_eq!(handle_panel_search_key(&mut search, SearchKey::Backspace), SearchOutcome::Refilter);
    assert_eq!(query(&search), Some("ty".to_string()));
    assert_eq!(handle_panel_search_key(&mut search, SearchKey::Enter), SearchOutcome::Handled);
    assert_eq!(search.as_ref().map(|s| s.phase), Some(PanelSearchPhase::Locked));
    assert_eq!(handle_panel_search_key(&mut search, SearchKey::Char('z')), SearchOutcome::Ignored);
    assert_eq!(query(&search), Some("ty".to_string()));
    assert_eq!(handle_panel_search_key(&mut search, SearchKey::Char('/')), SearchOutcome::Refilter);
    assert_eq!(search.as_ref().map(|s| s.phase), Some(PanelSearchPhase::Editing));
    assert_eq!(handle_panel_search_key(&mut search, SearchKey::Esc), SearchOutcome::Refilter);
    assert_eq!(query(&search), None);
}

fn no_searches() -> PanelSearchStates {
    PanelSearchStates {
        navigation_views: None,
        projects: None,
        tags: None,
        filters: None,
        favorites: None,
        task_list: None,
    }
}

#[test]
fn focused_panel_decides_which_search_shows() {
    assert_eq!(
        focused_panel_search_target(PanelFocus::Navigation, SidebarTab::Tags, RightPanelTab::Tasks),
        Some(PanelSearchTarget::Tags)
    );
    assert_eq!(
        focused_panel_search_target(PanelFocus::RightPane, SidebarTab::Tags, RightPanelTab::Tasks),
        Some(PanelSearchTarget::TaskList)
    );
    assert_eq!(
        focused_panel_search_target(PanelFocus::RightPane, SidebarTab::Tags, RightPanelTab::Statistics),
        None
    );
    assert_eq!(
        focused_panel_search_target(PanelFocus::Timer, SidebarTab::Tags, RightPanelTab::Tasks),
        None
    );

    let mut states = no_searches();
    assert!(!any_panel_search_editing(&states));
    open_panel_search(&mut states.favorites);
    assert!(any_panel_search_editing(&states));
    assert!(panel_search_state(&states, PanelSearchTarget::Favorites).is_some());
    let status = focused_panel_search_status(&states, PanelFocus::Favorites, SidebarTab::Tags, RightPanelTab::Tasks)
        .expect("favorites search shows");
    assert_eq!((status.query.as_str(), status.cursor, status.is_editing), ("", 0, true));
    assert!(focused_panel_search_status(&states, PanelFocus::History, SidebarTab::Tags, RightPanelTab::Tasks).is_none());

    states.tags = Some(PanelSearchState {
        input: TextInput { value: "wk".chars().collect(), cursor: 9 },
        phase: PanelSearchPhase::Locked,
    });
    states.favorites = None;
    assert!(!any_panel_search_editing(&states));
    open_panel_search(&mut states.tags);
    let status = focused_panel_search_status(&states, PanelFocus::Navigation, SidebarTab::Tags, RightPanelTab::Tasks)
        .expect("tag search shows");
    assert_eq!((status.query.as_str(), status.cursor, status.is_editing), ("wk", 2, true));
}
