use triginta::config::{FilterSortOrder, ProjectSortOrder, TagSortOrder, TaskSortOrder};
use triginta::sort_popups::{
    filter_sort_popup_view, open_filter_sort_popup, open_project_sort_popup, open_tag_sort_popup,
    open_task_sort_popup, project_sort_popup_view, tag_sort_popup_view, task_sort_popup_view,
};

#[test]
fn sort_popups_open_on_the_order_in_use_and_mark_it() {
    assert_eq!(open_task_sort_popup(TaskSortOrder::DueAsc), 0);
    assert_eq!(open_task_sort_popup(TaskSortOrder::PriorityLow), 7);
    assert_eq!(open_project_sort_popup(ProjectSortOrder::Manual), 4);
    assert_eq!(open_tag_sort_popup(TagSortOrder::NameDesc), 1);
    assert_eq!(open_filter_sort_popup(FilterSortOrder::TaskCountAsc), 2);

    let view = task_sort_popup_view(2, TaskSortOrder::TitleAsc);
    assert_eq!(view.title, "Sort Tasks");
    assert_eq!(view.selected_index, 2);
    assert_eq!(view.options.len(), 8);
    let active: Vec<bool> = view.options.iter().map(|o| o.is_active).collect();
    assert_eq!(active, vec![false, false, true, false, false, false, false, false]);
    assert_eq!(view.options[2].label, TaskSortOrder::TitleAsc.label());

    let view = project_sort_popup_view(0, ProjectSortOrder::Manual);
    assert_eq!(view.title, "Sort Projects");
    assert!(view.options[4].is_active);
    assert_eq!(tag_sort_popup_view(1, TagSortOrder::NameAsc).title, "Sort Tags");
    assert_eq!(filter_sort_popup_view(1, FilterSortOrder::NameAsc).title, "Sort Filters");
}
