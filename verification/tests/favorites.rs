use triginta::app::{FavoriteItemKind, ScreenData, TaskView};
use triginta::config::{FilterSortOrder, ProjectSortOrder, TagSortOrder};
use triginta::domain::{
    CalendarDate, Filter, FilterColor, FilterId, Project, ProjectColor, ProjectId, Tag, TagColor, TagId,
};
use triginta::favorites::{
    reorder_selected_filter, reorder_selected_project, reorder_selected_tag,
    toggle_selected_favorite_item, toggle_selected_filter_favorite, toggle_selected_project_favorite,
    toggle_selected_tag_favorite, FavoriteToggle,
};
use triginta::project_tree::ProjectCountScope;
use triginta::selection::move_favorite_selection;
use triginta::side_lists::favorite_rows;

fn counts() -> ProjectCountScope {
    ProjectCountScope {
        view: TaskView::All,
        today: CalendarDate { day_number: 739_000 },
        hide_completed: true,
    }
}

fn project(id: i64, name: &str, favorite: bool, inbox: bool) -> Project {
    Project {
        id: ProjectId(id),
        name: name.to_string(),
        parent_project_id: None,
        color: ProjectColor::Blue,
        is_favorite: favorite,
        is_inbox: inbox,
        child_order: id,
        created_at: 0,
        deleted_at: None,
    }
}

fn tag(id: i64, name: &str, favorite: bool) -> Tag {
    Tag {
        id: TagId(id),
        name: name.to_string(),
        color: TagColor::Teal,
        is_favorite: favorite,
        item_order: id,
        created_at: 0,
        deleted_at: None,
    }
}

fn filter(id: i64, name: &str, favorite: bool) -> Filter {
    Filter {
        id: FilterId(id),
        name: name.to_string(),
        query: "today".to_string(),
        color: FilterColor::SkyBlue,
        is_favorite: favorite,
        item_order: id,
        created_at: 0,
        deleted_at: None,
    }
}

fn listed(data: &ScreenData) -> Vec<FavoriteItemKind> {
    favorite_rows(
        data,
        ProjectSortOrder::Manual,
        TagSortOrder::Manual,
        FilterSortOrder::Manual,
        &counts(),
        None,
        "",
    )
    .into_iter()
    .map(|row| row.item)
    .collect()
}

#[test]
fn favorites_panel_moves_selection_and_unfavorites_selected_item() {
    let mut data = ScreenData::default();
    data.projects = vec![project(1, "Inbox", false, true), project(2, "Project Favorite", true, false)];
    data.tags = vec![tag(1, "Tag Favorite", true)];
    data.filters = vec![filter(1, "Filter Favorite", true)];

    let items = listed(&data);
    let selected = move_favorite_selection(&items, None, 0);
    assert_eq!(selected, Some(FavoriteItemKind::Project(ProjectId(2))));
    let selected = move_favorite_selection(&items, selected, 1);
    assert_eq!(selected, Some(FavoriteItemKind::Tag(TagId(1))));

    match toggle_selected_favorite_item(&data, selected) {
        Some(FavoriteToggle::Tag(id, update)) => {
            assert_eq!(id, TagId(1));
            assert!(!update.is_favorite);
            assert_eq!(update.name, "Tag Favorite");
            data.tags[0].is_favorite = update.is_favorite;
        },
        other => panic!("unexpected {:?}", other),
    }

    let remaining = listed(&data);
    assert_eq!(remaining.len(), 2);
    assert!(remaining.contains(&FavoriteItemKind::Project(ProjectId(2))));
    assert!(remaining.contains(&FavoriteItemKind::Filter(FilterId(1))));
}

#[test]
fn favorites_panel_home_end_select_first_and_last_rows() {
    let mut data = ScreenData::default();
    data.projects = vec![project(1, "Inbox", false, true), project(2, "P", true, false)];
    data.filters = vec![filter(1, "F", true)];
    let items = listed(&data);
    let first = move_favorite_selection(&items, None, 0);
    let last = move_favorite_selection(&items, first, items.len() as isize);
    assert_eq!(last, Some(FavoriteItemKind::Filter(FilterId(1))));
    let home = move_favorite_selection(&items, last, -(items.len() as isize));
    assert_eq!(home, Some(FavoriteItemKind::Project(ProjectId(2))));
}

#[test]
fn toggles_keep_the_other_fields_and_skip_the_inbox() {
    let mut data = ScreenData::default();
    data.projects = vec![project(1, "Inbox", false, true), project(2, "Garden", false, false)];
    data.projects[1].parent_project_id = Some(ProjectId(1));
    data.tags = vec![tag(3, "Errands", true)];
    data.filters = vec![filter(4, "Soon", false)];

    assert_eq!(toggle_selected_project_favorite(&data, Some(ProjectId(1))), None);
    assert_eq!(toggle_selected_project_favorite(&data, None), None);
    assert_eq!(toggle_selected_project_favorite(&data, Some(ProjectId(9))), None);
    let (id, update) = toggle_selected_project_favorite(&data, Some(ProjectId(2))).unwrap();
    assert_eq!(id, ProjectId(2));
    assert_eq!(update.name, "Garden");
    assert_eq!(update.parent_project_id, Some(ProjectId(1)));
    assert!(update.is_favorite);

    let (id, update) = toggle_selected_tag_favorite(&data, Some(TagId(3))).unwrap();
    assert_eq!((id, update.name.as_str(), update.is_favorite), (TagId(3), "Errands", false));
    let (id, update) = toggle_selected_filter_favorite(&data, Some(FilterId(4))).unwrap();
    assert_eq!((id, update.query.as_str(), update.is_favorite), (FilterId(4), "today", true));
    assert_eq!(toggle_selected_favorite_item(&data, Some(FavoriteItemKind::Project(ProjectId(1)))), None);
}

#[test]
fn reordering_needs_the_hand_kept_order() {
    assert_eq!(reorder_selected_project(ProjectSortOrder::Manual, Some(ProjectId(2))), Some(ProjectId(2)));
    assert_eq!(reorder_selected_project(ProjectSortOrder::NameAsc, Some(ProjectId(2))), None);
    assert_eq!(reorder_selected_tag(TagSortOrder::Manual, None), None);
    assert_eq!(reorder_selected_tag(TagSortOrder::NameDesc, Some(TagId(1))), None);
    assert_eq!(reorder_selected_filter(FilterSortOrder::Manual, Some(FilterId(3))), Some(FilterId(3)));
}
