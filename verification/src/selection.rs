//! Keeping the selections of the panels among what they show: after a
//! search changes which rows a panel lists, after data changes, a selection
//! that is no longer listed moves to the first row that is.
use vstd::prelude::*;

use crate::app::{FavoriteItemKind, ScreenData, TaskView};
use crate::config::{FilterSortOrder, ProjectSortOrder, TagSortOrder, TaskSortOrder};
use crate::domain::{CalendarDate, FilterId, ProjectId, TagId, TaskId};
use crate::listing::{projects_acyclic, TaskListScope};
use crate::project_tree::{panel_entries, project_tree_rows, ProjectCountScope};
use crate::side_lists::{
    favorite_entries, favorite_rows, filter_panel_entries, filters_rows, navigation_task_views,
    navigation_views_spec, tag_panel_entries, tags_rows, FavoriteSlot,
};
use crate::task_order::{task_rows_spec, visible_tasks};

verus! {

/// A selection kept where the list still holds it; otherwise the first of
/// the list, where there is one.
pub open spec fn kept_among<T>(listed: Seq<T>, selected: T) -> T {
    if listed.len() > 0 && !listed.contains(selected) {
        listed[0]
    } else {
        selected
    }
}

/// The selected task kept where the list shows it, otherwise the first task
/// shown, or none.
pub open spec fn task_selection_spec(visible: Seq<TaskId>, selected: Option<TaskId>) -> Option<TaskId> {
    match selected {
        Some(id) => if visible.contains(id) {
            Some(id)
        } else if visible.len() > 0 {
            Some(visible[0])
        } else {
            None
        },
        None => if visible.len() > 0 {
            Some(visible[0])
        } else {
            None
        },
    }
}

fn contains_task(ids: &[TaskId], id: TaskId) -> (r: bool)
    ensures
        r == ids@.contains(id),
{
    let mut i: usize = 0;
    while i < ids.len()
        invariant
            i <= ids.len(),
            forall|j: int| 0 <= j < i ==> #[trigger] ids@[j] != id,
        decreases ids.len() - i,
    {
        if ids[i] == id {
            assert(ids@[i as int] == id);
            return true;
        }
        i += 1;
    }
    false
}

/// The task to select among the tasks the list shows.
pub fn sync_task_selection(visible: &[TaskId], selected: Option<TaskId>) -> (r: Option<TaskId>)
    ensures
        r == task_selection_spec(visible@, selected),
{
    match selected {
        Some(id) => if contains_task(visible, id) {
            return Some(id);
        },
        None => {},
    }
    if visible.len() > 0 {
        Some(visible[0])
    } else {
        None
    }
}

/// The task view kept among the views a search lists.
pub fn keep_view_among(listed: &[TaskView], current: TaskView) -> (r: TaskView)
    ensures
        r == kept_among(listed@, current),
{
    let mut i: usize = 0;
    while i < listed.len()
        invariant
            i <= listed.len(),
            forall|j: int| 0 <= j < i ==> #[trigger] listed@[j] != current,
        decreases listed.len() - i,
    {
        if listed[i] == current {
            assert(listed@[i as int] == current);
            return current;
        }
        i += 1;
    }
    if listed.len() > 0 {
        listed[0]
    } else {
        current
    }
}

/// The project selection kept among the rows the project panel lists.
pub fn keep_project_among(listed: &[Option<ProjectId>], current: Option<ProjectId>) -> (r: Option<ProjectId>)
    ensures
        r == kept_among(listed@, current),
{
    let mut i: usize = 0;
    while i < listed.len()
        invariant
            i <= listed.len(),
            forall|j: int| 0 <= j < i ==> #[trigger] listed@[j] != current,
        decreases listed.len() - i,
    {
        let same = match (listed[i], current) {
            (Some(a), Some(b)) => a == b,
            (None, None) => true,
            _ => false,
        };
        if same {
            assert(listed@[i as int] == current);
            return current;
        }
        i += 1;
    }
    if listed.len() > 0 {
        listed[0]
    } else {
        current
    }
}

/// The tag selection kept among the rows the tag panel lists.
pub fn keep_tag_among(listed: &[Option<TagId>], current: Option<TagId>) -> (r: Option<TagId>)
    ensures
        r == kept_among(listed@, current),
{
    let mut i: usize = 0;
    while i < listed.len()
        invariant
            i <= listed.len(),
            forall|j: int| 0 <= j < i ==> #[trigger] listed@[j] != current,
        decreases listed.len() - i,
    {
        let same = match (listed[i], current) {
            (Some(a), Some(b)) => a == b,
            (None, None) => true,
            _ => false,
        };
        if same {
            assert(listed@[i as int] == current);
            return current;
        }
        i += 1;
    }
    if listed.len() > 0 {
        listed[0]
    } else {
        current
    }
}

/// The saved filter selection kept among the rows the filter panel lists.
pub fn keep_filter_among(listed: &[Option<FilterId>], current: Option<FilterId>) -> (r: Option<FilterId>)
    ensures
        r == kept_among(listed@, current),
{
    let mut i: usize = 0;
    while i < listed.len()
        invariant
            i <= listed.len(),
            forall|j: int| 0 <= j < i ==> #[trigger] listed@[j] != current,
        decreases listed.len() - i,
    {
        let same = match (listed[i], current) {
            (Some(a), Some(b)) => a == b,
            (None, None) => true,
            _ => false,
        };
        if same {
            assert(listed@[i as int] == current);
            return current;
        }
        i += 1;
    }
    if listed.len() > 0 {
        listed[0]
    } else {
        current
    }
}

/// The favorite selected among the favorites listed: kept where listed,
/// else the first listed; none where nothing is listed.
pub open spec fn favorite_selection_spec(listed: Seq<FavoriteItemKind>, selected: Option<FavoriteItemKind>) -> Option<FavoriteItemKind> {
    if listed.len() == 0 {
        None
    } else {
        match selected {
            Some(item) => if listed.contains(item) {
                Some(item)
            } else {
                Some(listed[0])
            },
            None => Some(listed[0]),
        }
    }
}

/// The favorite to select among the favorites listed.
pub fn keep_favorite_among(listed: &[FavoriteItemKind], selected: Option<FavoriteItemKind>) -> (r: Option<FavoriteItemKind>)
    ensures
        r == favorite_selection_spec(listed@, selected),
{
    if listed.len() == 0 {
        return None;
    }
    let item = match selected {
        Some(item) => item,
        None => {
            return Some(listed[0]);
        },
    };
    let mut i: usize = 0;
    while i < listed.len()
        invariant
            i <= listed.len(),
            listed.len() > 0,
            selected == Some(item),
            forall|j: int| 0 <= j < i ==> #[trigger] listed@[j] != item,
        decreases listed.len() - i,
    {
        if listed[i] == item {
            assert(listed@[i as int] == item);
            return Some(item);
        }
        i += 1;
    }
    Some(listed[0])
}

/// A project selection kept while the project exists and is not deleted.
pub open spec fn project_selection_spec(data: ScreenData, selected: Option<ProjectId>) -> Option<ProjectId> {
    match selected {
        Some(id) => if exists|i: int|
            0 <= i < data.projects@.len() && #[trigger] data.projects@[i].id == id
                && data.projects@[i].deleted_at is None {
            selected
        } else {
            None
        },
        None => None,
    }
}

/// Drops the project selection once its project is gone or deleted.
pub fn sync_project_selection(data: &ScreenData, selected: Option<ProjectId>) -> (r: Option<ProjectId>)
    ensures
        r == project_selection_spec(*data, selected),
{
    let id = match selected {
        Some(id) => id,
        None => {
            return None;
        },
    };
    let mut i: usize = 0;
    while i < data.projects.len()
        invariant
            i <= data.projects.len(),
            selected == Some(id),
            forall|j: int|
                0 <= j < i ==> !(#[trigger] data.projects@[j].id == id && data.projects@[j].deleted_at
                    is None),
        decreases data.projects.len() - i,
    {
        if data.projects[i].id == id && data.projects[i].deleted_at.is_none() {
            return selected;
        }
        i += 1;
    }
    None
}

/// A tag selection kept while the tag exists and is not deleted.
pub open spec fn tag_selection_spec(data: ScreenData, selected: Option<TagId>) -> Option<TagId> {
    match selected {
        Some(id) => if exists|i: int|
            0 <= i < data.tags@.len() && #[trigger] data.tags@[i].id == id && data.tags@[i].deleted_at
                is None {
            selected
        } else {
            None
        },
        None => None,
    }
}

/// Drops the tag selection once its tag is gone or deleted.
pub fn sync_tag_selection(data: &ScreenData, selected: Option<TagId>) -> (r: Option<TagId>)
    ensures
        r == tag_selection_spec(*data, selected),
{
    let id = match selected {
        Some(id) => id,
        None => {
            return None;
        },
    };
    let mut i: usize = 0;
    while i < data.tags.len()
        invariant
            i <= data.tags.len(),
            selected == Some(id),
            forall|j: int|
                0 <= j < i ==> !(#[trigger] data.tags@[j].id == id && data.tags@[j].deleted_at is None),
        decreases data.tags.len() - i,
    {
        if data.tags[i].id == id && data.tags[i].deleted_at.is_none() {
            return selected;
        }
        i += 1;
    }
    None
}

/// A saved filter selection kept while the filter exists and is not
/// deleted.
pub open spec fn filter_selection_spec(data: ScreenData, selected: Option<FilterId>) -> Option<FilterId> {
    match selected {
        Some(id) => if exists|i: int|
            0 <= i < data.filters@.len() && #[trigger] data.filters@[i].id == id
                && data.filters@[i].deleted_at is None {
            selected
        } else {
            None
        },
        None => None,
    }
}

/// Drops the saved filter selection once its filter is gone or deleted.
pub fn sync_filter_selection(data: &ScreenData, selected: Option<FilterId>) -> (r: Option<FilterId>)
    ensures
        r == filter_selection_spec(*data, selected),
{
    let id = match selected {
        Some(id) => id,
        None => {
            return None;
        },
    };
    let mut i: usize = 0;
    while i < data.filters.len()
        invariant
            i <= data.filters.len(),
            selected == Some(id),
            forall|j: int|
                0 <= j < i ==> !(#[trigger] data.filters@[j].id == id && data.filters@[j].deleted_at
                    is None),
        decreases data.filters.len() - i,
    {
        if data.filters[i].id == id && data.filters[i].deleted_at.is_none() {
            return selected;
        }
        i += 1;
    }
    None
}

/// The panel whose search changed.
#[derive(Debug, Clone, Copy, PartialEq, Eq, Structural)]
pub enum PanelSearchTarget {
    NavigationViews,
    Projects,
    Tags,
    Filters,
    Favorites,
    TaskList,
}

/// What the panels have selected.
#[derive(Debug, Clone, Copy, PartialEq, Eq)]
pub struct PanelSelection {
    pub active_task_view: TaskView,
    pub selected_project: Option<ProjectId>,
    pub selected_tag: Option<TagId>,
    pub selected_filter: Option<FilterId>,
    pub selected_favorite: Option<FavoriteItemKind>,
    pub selected_task: Option<TaskId>,
}

/// The sort orders of the lists, whether completed tasks are hidden, and
/// the day it is.
#[derive(Debug, Clone, Copy, PartialEq, Eq)]
pub struct ListSettings {
    pub task_sort: TaskSortOrder,
    pub project_sort: ProjectSortOrder,
    pub tag_sort: TagSortOrder,
    pub filter_sort: FilterSortOrder,
    pub hide_completed: bool,
    pub today: CalendarDate,
}

/// The search query of each panel, empty where it has no search.
#[derive(Debug, Clone, PartialEq, Eq)]
pub struct PanelQueries {
    pub navigation_views: String,
    pub projects: String,
    pub tags: String,
    pub filters: String,
    pub favorites: String,
    pub task_list: String,
}

pub open spec fn counts_scope(sel: PanelSelection, settings: ListSettings) -> ProjectCountScope {
    ProjectCountScope { view: sel.active_task_view, today: settings.today, hide_completed: settings.hide_completed }
}

pub open spec fn list_scope(sel: PanelSelection, settings: ListSettings) -> TaskListScope {
    TaskListScope {
        view: sel.active_task_view,
        selected_project: sel.selected_project,
        selected_tag: sel.selected_tag,
        selected_filter: sel.selected_filter,
        hide_completed: settings.hide_completed,
        today: settings.today,
    }
}

/// The identifiers of the tasks the list shows, in order.
pub open spec fn visible_task_ids_spec(
    data: ScreenData,
    sel: PanelSelection,
    settings: ListSettings,
    queries: PanelQueries,
    expanded: Seq<TaskId>,
) -> Seq<TaskId> {
    let rows = task_rows_spec(data, list_scope(sel, settings), settings.task_sort, queries.task_list@, expanded);
    Seq::new(rows.len(), |k: int| data.tasks@[rows[k].1 as int].id)
}

/// The selection with the task selection brought among the tasks shown.
pub open spec fn with_task_synced(
    data: ScreenData,
    sel: PanelSelection,
    settings: ListSettings,
    queries: PanelQueries,
    expanded: Seq<TaskId>,
) -> PanelSelection {
    PanelSelection {
        selected_task: task_selection_spec(
            visible_task_ids_spec(data, sel, settings, queries, expanded),
            sel.selected_task,
        ),
        ..sel
    }
}

/// The project selections the project panel lists, in order.
pub open spec fn listed_project_ids(data: ScreenData, sel: PanelSelection, settings: ListSettings, queries: PanelQueries) -> Seq<Option<ProjectId>> {
    let entries = panel_entries(data, settings.project_sort, counts_scope(sel, settings), queries.projects@);
    Seq::new(
        entries.len(),
        |k: int|
            match entries[k].0 {
                Some(p) => Some(data.projects@[p as int].id),
                None => None,
            },
    )
}

/// The tag selections the tag panel lists, in order.
pub open spec fn listed_tag_ids(data: ScreenData, sel: PanelSelection, settings: ListSettings, queries: PanelQueries) -> Seq<Option<TagId>> {
    let entries = tag_panel_entries(data, settings.tag_sort, counts_scope(sel, settings), queries.tags@);
    Seq::new(
        entries.len(),
        |k: int|
            match entries[k] {
                Some(p) => Some(data.tags@[p as int].id),
                None => None,
            },
    )
}

/// The saved filter selections the filter panel lists, in order.
pub open spec fn listed_filter_ids(data: ScreenData, sel: PanelSelection, settings: ListSettings, queries: PanelQueries) -> Seq<Option<FilterId>> {
    let entries = filter_panel_entries(data, settings.filter_sort, counts_scope(sel, settings), queries.filters@);
    Seq::new(
        entries.len(),
        |k: int|
            match entries[k] {
                Some(p) => Some(data.filters@[p as int].id),
                None => None,
            },
    )
}

/// The favorites the favorites panel lists, in order.
pub open spec fn listed_favorites(data: ScreenData, sel: PanelSelection, settings: ListSettings, queries: PanelQueries) -> Seq<FavoriteItemKind> {
    let entries = favorite_entries(
        data,
        settings.project_sort,
        settings.tag_sort,
        settings.filter_sort,
        counts_scope(sel, settings),
        queries.favorites@,
    );
    Seq::new(
        entries.len(),
        |k: int|
            match entries[k] {
                FavoriteSlot::Project(p) => FavoriteItemKind::Project(data.projects@[p as int].id),
                FavoriteSlot::Tag(p) => FavoriteItemKind::Tag(data.tags@[p as int].id),
                FavoriteSlot::Filter(p) => FavoriteItemKind::Filter(data.filters@[p as int].id),
            },
    )
}

/// The selections after the search of `target` changed which rows it lists:
/// the panel's own selection moves to its first row where it is no longer
/// listed, and then, except for the favorites, the task selection is
/// brought among the tasks shown.
pub open spec fn synced_selection(
    data: ScreenData,
    target: PanelSearchTarget,
    sel: PanelSelection,
    settings: ListSettings,
    queries: PanelQueries,
    expanded: Seq<TaskId>,
) -> PanelSelection {
    match target {
        PanelSearchTarget::NavigationViews => with_task_synced(
            data,
            PanelSelection {
                active_task_view: kept_among(navigation_views_spec(queries.navigation_views@), sel.active_task_view),
                ..sel
            },
            settings,
            queries,
            expanded,
        ),
        PanelSearchTarget::Projects => with_task_synced(
            data,
            PanelSelection {
                selected_project: kept_among(listed_project_ids(data, sel, settings, queries), sel.selected_project),
                ..sel
            },
            settings,
            queries,
            expanded,
        ),
        PanelSearchTarget::Tags => with_task_synced(
            data,
            PanelSelection {
                selected_tag: kept_among(listed_tag_ids(data, sel, settings, queries), sel.selected_tag),
                ..sel
            },
            settings,
            queries,
            expanded,
        ),
        PanelSearchTarget::Filters => with_task_synced(
            data,
            PanelSelection {
                selected_filter: kept_among(listed_filter_ids(data, sel, settings, queries), sel.selected_filter),
                ..sel
            },
            settings,
            queries,
            expanded,
        ),
        PanelSearchTarget::Favorites => PanelSelection {
            selected_favorite: favorite_selection_spec(
                listed_favorites(data, sel, settings, queries),
                sel.selected_favorite,
            ),
            ..sel
        },
        PanelSearchTarget::TaskList => with_task_synced(data, sel, settings, queries, expanded),
    }
}

fn synced_task(
    data: &ScreenData,
    sel: &PanelSelection,
    settings: &ListSettings,
    queries: &PanelQueries,
    expanded: &[TaskId],
) -> (r: Option<TaskId>)
    requires
        projects_acyclic(data.projects@),
        data.tasks.len() < usize::MAX,
    ensures
        r == task_selection_spec(
            visible_task_ids_spec(*data, *sel, *settings, *queries, expanded@),
            sel.selected_task,
        ),
{
    let scope = TaskListScope {
        view: sel.active_task_view,
        selected_project: sel.selected_project,
        selected_tag: sel.selected_tag,
        selected_filter: sel.selected_filter,
        hide_completed: settings.hide_completed,
        today: settings.today,
    };
    let positions = visible_tasks(data, &scope, settings.task_sort, queries.task_list.as_str(), expanded);
    let ghost rows = task_rows_spec(*data, scope, settings.task_sort, queries.task_list@, expanded@);
    let mut ids: Vec<TaskId> = Vec::new();
    let mut k: usize = 0;
    while k < positions.len()
        invariant
            k <= positions.len(),
            positions@.len() == rows.len(),
            forall|t: int| 0 <= t < positions@.len() ==> #[trigger] positions@[t] == rows[t].1,
            forall|t: int| 0 <= t < positions@.len() ==> #[trigger] positions@[t] < data.tasks.len(),
            ids@.len() == k,
            forall|t: int| 0 <= t < k ==> #[trigger] ids@[t] == data.tasks@[rows[t].1 as int].id,
        decreases positions.len() - k,
    {
        proof {
            assert(positions@[k as int] == rows[k as int].1);
        }
        ids.push(data.tasks[positions[k]].id);
        k += 1;
    }
    assert(ids@ =~= visible_task_ids_spec(*data, *sel, *settings, *queries, expanded@));
    sync_task_selection(ids.as_slice(), sel.selected_task)
}

/// Brings the selections back among what the panels list after the search
/// of `target` changed.
pub fn sync_selection_for_panel_search(
    data: &ScreenData,
    target: PanelSearchTarget,
    sel: &mut PanelSelection,
    settings: &ListSettings,
    queries: &PanelQueries,
    expanded: &[TaskId],
)
    requires
        projects_acyclic(data.projects@),
        data.tasks.len() < usize::MAX,
        data.projects.len() < usize::MAX,
    ensures
        *final(sel) == synced_selection(*data, target, *old(sel), *settings, *queries, expanded@),
{
    let counts = ProjectCountScope {
        view: sel.active_task_view,
        today: settings.today,
        hide_completed: settings.hide_completed,
    };
    match target {
        PanelSearchTarget::NavigationViews => {
            let views = navigation_task_views(queries.navigation_views.as_str());
            sel.active_task_view = keep_view_among(views.as_slice(), sel.active_task_view);
            sel.selected_task = synced_task(data, sel, settings, queries, expanded);
        },
        PanelSearchTarget::Projects => {
            let rows = project_tree_rows(
                data,
                settings.project_sort,
                &counts,
                sel.selected_project,
                queries.projects.as_str(),
            );
            let ghost entries = panel_entries(*data, settings.project_sort, counts, queries.projects@);
            let mut ids: Vec<Option<ProjectId>> = Vec::new();
            let mut k: usize = 0;
            while k < rows.len()
                invariant
                    k <= rows.len(),
                    rows@.len() == entries.len(),
                    forall|t: int|
                        0 <= t < rows@.len() ==> crate::project_tree::row_shows(
                            *data,
                            counts,
                            old(sel).selected_project,
                            entries[t],
                            #[trigger] rows@[t],
                        ),
                    ids@.len() == k,
                    forall|t: int| 0 <= t < k ==> #[trigger] ids@[t] == rows@[t].project_id,
                decreases rows.len() - k,
            {
                ids.push(rows[k].project_id);
                k += 1;
            }
            proof {
                let listed = listed_project_ids(*data, *old(sel), *settings, *queries);
                assert forall|t: int| 0 <= t < ids@.len() implies #[trigger] ids@[t] == listed[t] by {
                    assert(crate::project_tree::row_shows(
                        *data,
                        counts,
                        old(sel).selected_project,
                        entries[t],
                        rows@[t],
                    ));
                }
                assert(ids@ =~= listed);
            }
            sel.selected_project = keep_project_among(ids.as_slice(), sel.selected_project);
            sel.selected_task = synced_task(data, sel, settings, queries, expanded);
        },
        PanelSearchTarget::Tags => {
            let rows = tags_rows(data, settings.tag_sort, &counts, sel.selected_tag, queries.tags.as_str());
            let ghost entries = tag_panel_entries(*data, settings.tag_sort, counts, queries.tags@);
            let mut ids: Vec<Option<TagId>> = Vec::new();
            let mut k: usize = 0;
            while k < rows.len()
                invariant
                    k <= rows.len(),
                    rows@.len() == entries.len(),
                    forall|t: int|
                        0 <= t < rows@.len() ==> crate::side_lists::tag_row_shows(
                            *data,
                            counts,
                            old(sel).selected_tag,
                            entries[t],
                            #[trigger] rows@[t],
                        ),
                    ids@.len() == k,
                    forall|t: int| 0 <= t < k ==> #[trigger] ids@[t] == rows@[t].tag_id,
                decreases rows.len() - k,
            {
                ids.push(rows[k].tag_id);
                k += 1;
            }
            proof {
                let listed = listed_tag_ids(*data, *old(sel), *settings, *queries);
                assert forall|t: int| 0 <= t < ids@.len() implies #[trigger] ids@[t] == listed[t] by {
                    assert(crate::side_lists::tag_row_shows(
                        *data,
                        counts,
                        old(sel).selected_tag,
                        entries[t],
                        rows@[t],
                    ));
                }
                assert(ids@ =~= listed);
            }
            sel.selected_tag = keep_tag_among(ids.as_slice(), sel.selected_tag);
            sel.selected_task = synced_task(data, sel, settings, queries, expanded);
        },
        PanelSearchTarget::Filters => {
            let rows = filters_rows(
                data,
                settings.filter_sort,
                &counts,
                sel.selected_filter,
                queries.filters.as_str(),
            );
            let ghost entries = filter_panel_entries(*data, settings.filter_sort, counts, queries.filters@);
            let mut ids: Vec<Option<FilterId>> = Vec::new();
            let mut k: usize = 0;
            while k < rows.len()
                invariant
                    k <= rows.len(),
                    rows@.len() == entries.len(),
                    forall|t: int|
                        0 <= t < rows@.len() ==> crate::side_lists::filter_row_shows(
                            *data,
                            counts,
                            old(sel).selected_filter,
                            entries[t],
                            #[trigger] rows@[t],
                        ),
                    ids@.len() == k,
                    forall|t: int| 0 <= t < k ==> #[trigger] ids@[t] == rows@[t].filter_id,
                decreases rows.len() - k,
            {
                ids.push(rows[k].filter_id);
                k += 1;
            }
            proof {
                let listed = listed_filter_ids(*data, *old(sel), *settings, *queries);
                assert forall|t: int| 0 <= t < ids@.len() implies #[trigger] ids@[t] == listed[t] by {
                    assert(crate::side_lists::filter_row_shows(
                        *data,
                        counts,
                        old(sel).selected_filter,
                        entries[t],
                        rows@[t],
                    ));
                }
                assert(ids@ =~= listed);
            }
            sel.selected_filter = keep_filter_among(ids.as_slice(), sel.selected_filter);
            sel.selected_task = synced_task(data, sel, settings, queries, expanded);
        },
        PanelSearchTarget::Favorites => {
            let rows = favorite_rows(
                data,
                settings.project_sort,
                settings.tag_sort,
                settings.filter_sort,
                &counts,
                sel.selected_favorite,
                queries.favorites.as_str(),
            );
            let ghost entries = favorite_entries(
                *data,
                settings.project_sort,
                settings.tag_sort,
                settings.filter_sort,
                counts,
                queries.favorites@,
            );
            let mut items: Vec<FavoriteItemKind> = Vec::new();
            let mut k: usize = 0;
            while k < rows.len()
                invariant
                    k <= rows.len(),
                    rows@.len() == entries.len(),
                    forall|t: int|
                        0 <= t < rows@.len() ==> crate::side_lists::favorite_row_shows(
                            *data,
                            counts,
                            old(sel).selected_favorite,
                            entries[t],
                            #[trigger] rows@[t],
                        ),
                    items@.len() == k,
                    forall|t: int| 0 <= t < k ==> #[trigger] items@[t] == rows@[t].item,
                decreases rows.len() - k,
            {
                items.push(rows[k].item);
                k += 1;
            }
            proof {
                let listed = listed_favorites(*data, *old(sel), *settings, *queries);
                assert forall|t: int| 0 <= t < items@.len() implies #[trigger] items@[t] == listed[t] by {
                    assert(crate::side_lists::favorite_row_shows(
                        *data,
                        counts,
                        old(sel).selected_favorite,
                        entries[t],
                        rows@[t],
                    ));
                }
                assert(items@ =~= listed);
            }
            sel.selected_favorite = keep_favorite_among(items.as_slice(), sel.selected_favorite);
        },
        PanelSearchTarget::TaskList => {
            sel.selected_task = synced_task(data, sel, settings, queries, expanded);
        },
    }
}

/// After a search changes, a panel's selection is among the rows it lists
/// wherever it lists any; the selected task is among the tasks shown
/// wherever any is shown.
pub proof fn synced_selection_is_listed(
    data: ScreenData,
    target: PanelSearchTarget,
    sel: PanelSelection,
    settings: ListSettings,
    queries: PanelQueries,
    expanded: Seq<TaskId>,
)
    ensures
        ({
            let after = synced_selection(data, target, sel, settings, queries, expanded);
            let shown = visible_task_ids_spec(data, after, settings, queries, expanded);
            &&& target != PanelSearchTarget::Favorites && shown.len() > 0 ==> (
            after.selected_task matches Some(id) && shown.contains(id))
            &&& target == PanelSearchTarget::Projects && listed_project_ids(data, sel, settings, queries).len()
                > 0 ==> listed_project_ids(data, sel, settings, queries).contains(after.selected_project)
            &&& target == PanelSearchTarget::Favorites && listed_favorites(data, sel, settings, queries).len()
                > 0 ==> (after.selected_favorite matches Some(item) && listed_favorites(
                data,
                sel,
                settings,
                queries,
            ).contains(item))
        }),
{
    let after = synced_selection(data, target, sel, settings, queries, expanded);
    let shown = visible_task_ids_spec(data, after, settings, queries, expanded);
    if target != PanelSearchTarget::Favorites && shown.len() > 0 {
        assert(shown.contains(shown[0]));
    }
    let lp = listed_project_ids(data, sel, settings, queries);
    if target == PanelSearchTarget::Projects && lp.len() > 0 {
        assert(lp.contains(lp[0]));
    }
    let lf = listed_favorites(data, sel, settings, queries);
    if target == PanelSearchTarget::Favorites && lf.len() > 0 {
        assert(lf.contains(lf[0]));
    }
}

/// The first place of `x` in `s` at or after `i`.
pub open spec fn first_place<T>(s: Seq<T>, x: T, i: int) -> Option<int>
    decreases s.len() - i,
{
    if i < 0 || i >= s.len() {
        None
    } else if s[i] == x {
        Some(i)
    } else {
        first_place(s, x, i + 1)
    }
}

pub proof fn lemma_first_place<T>(s: Seq<T>, x: T, i: int)
    requires
        0 <= i,
    ensures
        first_place(s, x, i) matches Some(k) ==> i <= k < s.len() && s[k] == x,
    decreases s.len() - i,
{
    if i < s.len() && s[i] != x {
        lemma_first_place(s, x, i + 1);
    }
}

/// Where a move starts: the place of the selection in the list, or the
/// first place where it is not listed.
pub open spec fn start_place<T>(s: Seq<T>, x: T) -> int {
    match first_place(s, x, 0) {
        Some(i) => i,
        None => 0,
    }
}

/// The place a move by `offset` from `from` reaches, kept within a list of
/// `len` items.
pub open spec fn moved_place(from: int, len: int, offset: int) -> int {
    if from + offset < 0 {
        0
    } else if from + offset > len - 1 {
        len - 1
    } else {
        from + offset
    }
}

fn moved_index(from: usize, len: usize, offset: isize) -> (r: usize)
    requires
        from < len,
    ensures
        r == moved_place(from as int, len as int, offset as int),
        r < len,
{
    let target: i128 = from as i128 + offset as i128;
    if target < 0 {
        0
    } else if target > (len - 1) as i128 {
        len - 1
    } else {
        target as usize
    }
}

fn place_of_task(listed: &[TaskId], id: TaskId) -> (r: usize)
    ensures
        r == start_place(listed@, id),
        listed.len() > 0 ==> r < listed.len(),
{
    proof {
        lemma_first_place(listed@, id, 0);
    }
    let mut i: usize = 0;
    while i < listed.len()
        invariant
            i <= listed.len(),
            first_place(listed@, id, i as int) == first_place(listed@, id, 0),
        decreases listed.len() - i,
    {
        if listed[i] == id {
            return i;
        }
        i += 1;
    }
    0
}

/// Moves the task selection by `offset` rows among the tasks the list
/// shows, stopping at the first and the last; from the first row where the
/// selection is not shown. None where the list is empty.
pub fn move_task_selection(visible: &[TaskId], selected: Option<TaskId>, offset: isize) -> (r: Option<TaskId>)
    requires
        (match selected {
            Some(id) => start_place(visible@, id),
            None => 0,
        }) + offset <= isize::MAX,
    ensures
        r == (if visible@.len() == 0 {
            None
        } else {
            Some(visible@[moved_place(
                match selected {
                    Some(id) => start_place(visible@, id),
                    None => 0,
                },
                visible@.len() as int,
                offset as int,
            )])
        }),
{
    if visible.len() == 0 {
        return None;
    }
    let current = match selected {
        Some(id) => place_of_task(visible, id),
        None => 0,
    };
    Some(visible[moved_index(current, visible.len(), offset)])
}

fn place_of_project(listed: &[Option<ProjectId>], id: Option<ProjectId>) -> (r: usize)
    ensures
        r == start_place(listed@, id),
        listed.len() > 0 ==> r < listed.len(),
{
    proof {
        lemma_first_place(listed@, id, 0);
    }
    let mut i: usize = 0;
    while i < listed.len()
        invariant
            i <= listed.len(),
            first_place(listed@, id, i as int) == first_place(listed@, id, 0),
        decreases listed.len() - i,
    {
        let same = match (listed[i], id) {
            (Some(a), Some(b)) => a == b,
            (None, None) => true,
            _ => false,
        };
        if same {
            return i;
        }
        i += 1;
    }
    0
}

/// Moves the project selection by `offset` rows of the project panel,
/// stopping at the first and the last. None where the panel lists nothing.
pub fn move_project_selection(listed: &[Option<ProjectId>], selected: Option<ProjectId>, offset: isize) -> (r: Option<ProjectId>)
    requires
        start_place(listed@, selected) + offset <= isize::MAX,
    ensures
        r == (if listed@.len() == 0 {
            None
        } else {
            listed@[moved_place(start_place(listed@, selected), listed@.len() as int, offset as int)]
        }),
{
    if listed.len() == 0 {
        return None;
    }
    let current = place_of_project(listed, selected);
    listed[moved_index(current, listed.len(), offset)]
}

fn place_of_tag(listed: &[Option<TagId>], id: Option<TagId>) -> (r: usize)
    ensures
        r == start_place(listed@, id),
        listed.len() > 0 ==> r < listed.len(),
{
    proof {
        lemma_first_place(listed@, id, 0);
    }
    let mut i: usize = 0;
    while i < listed.len()
        invariant
            i <= listed.len(),
            first_place(listed@, id, i as int) == first_place(listed@, id, 0),
        decreases listed.len() - i,
    {
        let same = match (listed[i], id) {
            (Some(a), Some(b)) => a == b,
            (None, None) => true,
            _ => false,
        };
        if same {
            return i;
        }
        i += 1;
    }
    0
}

/// Moves the tag selection by `offset` rows of the tag panel, stopping at
/// the first and the last. None where the panel lists nothing.
pub fn move_tag_selection(listed: &[Option<TagId>], selected: Option<TagId>, offset: isize) -> (r: Option<TagId>)
    requires
        start_place(listed@, selected) + offset <= isize::MAX,
    ensures
        r == (if listed@.len() == 0 {
            None
        } else {
            listed@[moved_place(start_place(listed@, selected), listed@.len() as int, offset as int)]
        }),
{
    if listed.len() == 0 {
        return None;
    }
    let current = place_of_tag(listed, selected);
    listed[moved_index(current, listed.len(), offset)]
}

fn place_of_filter(listed: &[Option<FilterId>], id: Option<FilterId>) -> (r: usize)
    ensures
        r == start_place(listed@, id),
        listed.len() > 0 ==> r < listed.len(),
{
    proof {
        lemma_first_place(listed@, id, 0);
    }
    let mut i: usize = 0;
    while i < listed.len()
        invariant
            i <= listed.len(),
            first_place(listed@, id, i as int) == first_place(listed@, id, 0),
        decreases listed.len() - i,
    {
        let same = match (listed[i], id) {
            (Some(a), Some(b)) => a == b,
            (None, None) => true,
            _ => false,
        };
        if same {
            return i;
        }
        i += 1;
    }
    0
}

/// Moves the saved filter selection by `offset` rows of the filter panel,
/// stopping at the first and the last. None where the panel lists nothing.
pub fn move_filter_selection(listed: &[Option<FilterId>], selected: Option<FilterId>, offset: isize) -> (r: Option<FilterId>)
    requires
        start_place(listed@, selected) + offset <= isize::MAX,
    ensures
        r == (if listed@.len() == 0 {
            None
        } else {
            listed@[moved_place(start_place(listed@, selected), listed@.len() as int, offset as int)]
        }),
{
    if listed.len() == 0 {
        return None;
    }
    let current = place_of_filter(listed, selected);
    listed[moved_index(current, listed.len(), offset)]
}

fn place_of_favorite(listed: &[FavoriteItemKind], item: FavoriteItemKind) -> (r: usize)
    ensures
        r == start_place(listed@, item),
        listed.len() > 0 ==> r < listed.len(),
{
    proof {
        lemma_first_place(listed@, item, 0);
    }
    let mut i: usize = 0;
    while i < listed.len()
        invariant
            i <= listed.len(),
            first_place(listed@, item, i as int) == first_place(listed@, item, 0),
        decreases listed.len() - i,
    {
        if listed[i] == item {
            return i;
        }
        i += 1;
    }
    0
}

/// Moves the favorite selection by `offset` rows of the favorites panel,
/// stopping at the first and the last; from the first row where nothing
/// listed is selected. None where the panel lists nothing.
pub fn move_favorite_selection(
    listed: &[FavoriteItemKind],
    selected: Option<FavoriteItemKind>,
    offset: isize,
) -> (r: Option<FavoriteItemKind>)
    requires
        (match selected {
            Some(item) => start_place(listed@, item),
            None => 0,
        }) + offset <= isize::MAX,
    ensures
        r == (if listed@.len() == 0 {
            None
        } else {
            Some(listed@[moved_place(
                match selected {
                    Some(item) => start_place(listed@, item),
                    None => 0,
                },
                listed@.len() as int,
                offset as int,
            )])
        }),
{
    if listed.len() == 0 {
        return None;
    }
    let current = match selected {
        Some(item) => place_of_favorite(listed, item),
        None => 0,
    };
    Some(listed[moved_index(current, listed.len(), offset)])
}

fn place_of_view(listed: &[TaskView], view: TaskView) -> (r: usize)
    ensures
        r == start_place(listed@, view),
        listed.len() > 0 ==> r < listed.len(),
{
    proof {
        lemma_first_place(listed@, view, 0);
    }
    let mut i: usize = 0;
    while i < listed.len()
        invariant
            i <= listed.len(),
            first_place(listed@, view, i as int) == first_place(listed@, view, 0),
        decreases listed.len() - i,
    {
        if listed[i] == view {
            return i;
        }
        i += 1;
    }
    0
}

/// Moves the active task view by `offset` rows of the navigation panel,
/// stopping at the first and the last; unchanged where the panel lists
/// nothing.
pub fn move_task_view_selection(listed: &[TaskView], active: TaskView, offset: isize) -> (r: TaskView)
    requires
        start_place(listed@, active) + offset <= isize::MAX,
    ensures
        r == (if listed@.len() == 0 {
            active
        } else {
            listed@[moved_place(start_place(listed@, active), listed@.len() as int, offset as int)]
        }),
{
    if listed.len() == 0 {
        return active;
    }
    let current = place_of_view(listed, active);
    listed[moved_index(current, listed.len(), offset)]
}

/// A move lands on a listed row; moving by zero from a listed selection
/// keeps it, and moving by at least the length of the list reaches the last
/// row (or the first, backwards).
pub proof fn selection_moves_stay_in_list(from: int, len: int, offset: int)
    requires
        0 <= from < len,
    ensures
        0 <= moved_place(from, len, offset) < len,
        moved_place(from, len, 0) == from,
        offset >= len ==> moved_place(from, len, offset) == len - 1,
        offset <= -len ==> moved_place(from, len, offset) == 0,
{
}

} // verus!
