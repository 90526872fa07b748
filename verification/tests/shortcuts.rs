use triginta::app::{help_line_count, PanelFocus, RightPanelTab, SidebarTab};
use triginta::shortcuts::{focused_panel_shortcuts, help_sections, OpenOverlays};

fn nothing_open() -> OpenOverlays {
    OpenOverlays {
        task_input: false,
        task_editor: false,
        session_note_editor: false,
        session_note_viewer: false,
        project_editor: false,
        tag_editor: false,
        filter_editor: false,
        task_search: false,
        any_panel_search_editing: false,
        focused_panel_search_editing: false,
        task_sort_popup: false,
        project_sort_popup: false,
        tag_sort_popup: false,
        filter_sort_popup: false,
        delete_confirmation: false,
        project_delete_confirmation: false,
        tag_delete_confirmation: false,
        filter_delete_confirmation: false,
    }
}

#[test]
fn help_lists_every_panel_then_open_popups() {
    let sections = help_sections(&nothing_open());
    let titles: Vec<&str> = sections.iter().map(|s| s.title).collect();
    assert_eq!(
        titles,
        vec![
            "Global", "Timer", "History", "Navigation", "Projects", "Tags", "Filters", "Favorites",
            "Tasks", "Statistics"
        ]
    );
    assert_eq!(sections[0].tips[0].keys, "1-8");
    let tip_counts: Vec<usize> = sections.iter().map(|s| s.tips.len()).collect();
    assert_eq!(tip_counts, vec![4, 6, 6, 6, 11, 9, 8, 6, 12, 1]);
    assert_eq!(help_line_count(&sections), 88);

    let mut open = nothing_open();
    open.task_editor = true;
    open.tag_sort_popup = true;
    open.any_panel_search_editing = true;
    let sections = help_sections(&open);
    let titles: Vec<&str> = sections.iter().skip(10).map(|s| s.title).collect();
    assert_eq!(titles, vec!["Task Editor", "Panel Search", "Tag Sort Popup"]);
}

#[test]
fn footer_shows_the_tips_of_what_has_the_keyboard() {
    let open = nothing_open();
    let tips = focused_panel_shortcuts(&open, PanelFocus::Navigation, SidebarTab::Tags, RightPanelTab::Tasks);
    assert_eq!(tips.len(), 9);
    let tips = focused_panel_shortcuts(&open, PanelFocus::RightPane, SidebarTab::Tags, RightPanelTab::Statistics);
    assert_eq!(tips.len(), 1);
    assert_eq!(tips[0].description, "switch tab");

    let mut open = nothing_open();
    open.task_editor = true;
    open.filter_sort_popup = true;
    let tips = focused_panel_shortcuts(&open, PanelFocus::Timer, SidebarTab::Tags, RightPanelTab::Tasks);
    assert_eq!((tips.len(), tips[0].keys, tips[0].description), (3, "Enter", "apply sort"));
    open.filter_sort_popup = false;
    let tips = focused_panel_shortcuts(&open, PanelFocus::Timer, SidebarTab::Tags, RightPanelTab::Tasks);
    assert_eq!(tips.len(), 8);
}
