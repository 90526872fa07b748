//! The sort popups of the task list and of the project, tag and filter
//! panels: which order is highlighted when one opens, and what it lists.
use vstd::prelude::*;

use crate::app::{
    FilterSortOptionView, FilterSortPopupView, ProjectSortOptionView, ProjectSortPopupView,
    TagSortOptionView, TagSortPopupView, TaskSortOptionView, TaskSortPopupView,
};
use crate::config::{
    filter_sort_label, filter_sort_orders, project_sort_label, project_sort_orders, tag_sort_label,
    tag_sort_orders, task_sort_label, task_sort_orders, FilterSortOrder, ProjectSortOrder,
    TagSortOrder, TaskSortOrder,
};

verus! {

/// Where the task sort popup opens: on the order in use.
pub fn open_task_sort_popup(current: TaskSortOrder) -> (r: usize)
    ensures
        r < task_sort_orders().len(),
        task_sort_orders()[r as int] == current,
{
    let all = TaskSortOrder::all();
    let mut i: usize = 0;
    while i < all.len()
        invariant
            i <= all.len(),
            all@ == task_sort_orders(),
            forall|j: int| 0 <= j < i ==> all@[j] != current,
        decreases all.len() - i,
    {
        if all[i] == current {
            return i;
        }
        i += 1;
    }
    proof {
        match current {
            TaskSortOrder::DueAsc => assert(all@[0] == current),
            TaskSortOrder::DueDesc => assert(all@[1] == current),
            TaskSortOrder::TitleAsc => assert(all@[2] == current),
            TaskSortOrder::TitleDesc => assert(all@[3] == current),
            TaskSortOrder::CreatedNewest => assert(all@[4] == current),
            TaskSortOrder::CreatedOldest => assert(all@[5] == current),
            TaskSortOrder::PriorityHigh => assert(all@[6] == current),
            TaskSortOrder::PriorityLow => assert(all@[7] == current),
        }
    }
    0
}

/// A row of the task sort popup shows `order` with its label, marked where
/// it is the order in use.
pub open spec fn task_option_shows(o: TaskSortOptionView, order: TaskSortOrder, current: TaskSortOrder) -> bool {
    o.label@ == task_sort_label(order) && o.is_active == (order == current)
}

/// What the task sort popup shows: its title, the highlighted row, and each
/// order with its label, the one in use marked.
pub fn task_sort_popup_view(selected_index: usize, current: TaskSortOrder) -> (r: TaskSortPopupView)
    ensures
        r.title@ == "Sort Tasks"@,
        r.selected_index == selected_index,
        r.options@.len() == task_sort_orders().len(),
        forall|i: int|
            0 <= i < r.options@.len() ==> task_option_shows(#[trigger] r.options@[i], task_sort_orders()[i], current),
{
    let all = TaskSortOrder::all();
    let mut options: Vec<TaskSortOptionView> = Vec::new();
    let mut i: usize = 0;
    while i < all.len()
        invariant
            i <= all.len(),
            all@ == task_sort_orders(),
            options@.len() == i,
            forall|j: int| 0 <= j < i ==> task_option_shows(#[trigger] options@[j], task_sort_orders()[j], current),
        decreases all.len() - i,
    {
        let order = all[i];
        let option = TaskSortOptionView { label: order.label(), is_active: order == current };
        assert(task_option_shows(option, order, current));
        options.push(option);
        i += 1;
    }
    TaskSortPopupView { title: "Sort Tasks", selected_index, options }
}

/// Where the project sort popup opens: on the order in use.
pub fn open_project_sort_popup(current: ProjectSortOrder) -> (r: usize)
    ensures
        r < project_sort_orders().len(),
        project_sort_orders()[r as int] == current,
{
    let all = ProjectSortOrder::all();
    let mut i: usize = 0;
    while i < all.len()
        invariant
            i <= all.len(),
            all@ == project_sort_orders(),
            forall|j: int| 0 <= j < i ==> all@[j] != current,
        decreases all.len() - i,
    {
        if all[i] == current {
            return i;
        }
        i += 1;
    }
    proof {
        match current {
            ProjectSortOrder::NameAsc => assert(all@[0] == current),
            ProjectSortOrder::NameDesc => assert(all@[1] == current),
            ProjectSortOrder::TaskCountAsc => assert(all@[2] == current),
            ProjectSortOrder::TaskCountDesc => assert(all@[3] == current),
            ProjectSortOrder::Manual => assert(all@[4] == current),
        }
    }
    0
}

/// A row of the project sort popup shows `order` with its label, marked where
/// it is the order in use.
pub open spec fn project_option_shows(o: ProjectSortOptionView, order: ProjectSortOrder, current: ProjectSortOrder) -> bool {
    o.label@ == project_sort_label(order) && o.is_active == (order == current)
}

/// What the project sort popup shows: its title, the highlighted row, and each
/// order with its label, the one in use marked.
pub fn project_sort_popup_view(selected_index: usize, current: ProjectSortOrder) -> (r: ProjectSortPopupView)
    ensures
        r.title@ == "Sort Projects"@,
        r.selected_index == selected_index,
        r.options@.len() == project_sort_orders().len(),
        forall|i: int|
            0 <= i < r.options@.len() ==> project_option_shows(#[trigger] r.options@[i], project_sort_orders()[i], current),
{
    let all = ProjectSortOrder::all();
    let mut options: Vec<ProjectSortOptionView> = Vec::new();
    let mut i: usize = 0;
    while i < all.len()
        invariant
            i <= all.len(),
            all@ == project_sort_orders(),
            options@.len() == i,
            forall|j: int| 0 <= j < i ==> project_option_shows(#[trigger] options@[j], project_sort_orders()[j], current),
        decreases all.len() - i,
    {
        let order = all[i];
        let option = ProjectSortOptionView { label: order.label(), is_active: order == current };
        assert(project_option_shows(option, order, current));
        options.push(option);
        i += 1;
    }
    ProjectSortPopupView { title: "Sort Projects", selected_index, options }
}

/// Where the tag sort popup opens: on the order in use.
pub fn open_tag_sort_popup(current: TagSortOrder) -> (r: usize)
    ensures
        r < tag_sort_orders().len(),
        tag_sort_orders()[r as int] == current,
{
    let all = TagSortOrder::all();
    let mut i: usize = 0;
    while i < all.len()
        invariant
            i <= all.len(),
            all@ == tag_sort_orders(),
            forall|j: int| 0 <= j < i ==> all@[j] != current,
        decreases all.len() - i,
    {
        if all[i] == current {
            return i;
        }
        i += 1;
    }
    proof {
        match current {
            TagSortOrder::NameAsc => assert(all@[0] == current),
            TagSortOrder::NameDesc => assert(all@[1] == current),
            TagSortOrder::TaskCountAsc => assert(all@[2] == current),
            TagSortOrder::TaskCountDesc => assert(all@[3] == current),
            TagSortOrder::Manual => assert(all@[4] == current),
        }
    }
    0
}

/// A row of the tag sort popup shows `order` with its label, marked where
/// it is the order in use.
pub open spec fn tag_option_shows(o: TagSortOptionView, order: TagSortOrder, current: TagSortOrder) -> bool {
    o.label@ == tag_sort_label(order) && o.is_active == (order == current)
}

/// What the tag sort popup shows: its title, the highlighted row, and each
/// order with its label, the one in use marked.
pub fn tag_sort_popup_view(selected_index: usize, current: TagSortOrder) -> (r: TagSortPopupView)
    ensures
        r.title@ == "Sort Tags"@,
        r.selected_index == selected_index,
        r.options@.len() == tag_sort_orders().len(),
        forall|i: int|
            0 <= i < r.options@.len() ==> tag_option_shows(#[trigger] r.options@[i], tag_sort_orders()[i], current),
{
    let all = TagSortOrder::all();
    let mut options: Vec<TagSortOptionView> = Vec::new();
    let mut i: usize = 0;
    while i < all.len()
        invariant
            i <= all.len(),
            all@ == tag_sort_orders(),
            options@.len() == i,
            forall|j: int| 0 <= j < i ==> tag_option_shows(#[trigger] options@[j], tag_sort_orders()[j], current),
        decreases all.len() - i,
    {
        let order = all[i];
        let option = TagSortOptionView { label: order.label(), is_active: order == current };
        assert(tag_option_shows(option, order, current));
        options.push(option);
        i += 1;
    }
    TagSortPopupView { title: "Sort Tags", selected_index, options }
}

/// Where the filter sort popup opens: on the order in use.
pub fn open_filter_sort_popup(current: FilterSortOrder) -> (r: usize)
    ensures
        r < filter_sort_orders().len(),
        filter_sort_orders()[r as int] == current,
{
    let all = FilterSortOrder::all();
    let mut i: usize = 0;
    while i < all.len()
        invariant
            i <= all.len(),
            all@ == filter_sort_orders(),
            forall|j: int| 0 <= j < i ==> all@[j] != current,
        decreases all.len() - i,
    {
        if all[i] == current {
            return i;
        }
        i += 1;
    }
    proof {
        match current {
            FilterSortOrder::NameAsc => assert(all@[0] == current),
            FilterSortOrder::NameDesc => assert(all@[1] == current),
            FilterSortOrder::TaskCountAsc => assert(all@[2] == current),
            FilterSortOrder::TaskCountDesc => assert(all@[3] == current),
            FilterSortOrder::Manual => assert(all@[4] == current),
        }
    }
    0
}

/// A row of the filter sort popup shows `order` with its label, marked where
/// it is the order in use.
pub open spec fn filter_option_shows(o: FilterSortOptionView, order: FilterSortOrder, current: FilterSortOrder) -> bool {
    o.label@ == filter_sort_label(order) && o.is_active == (order == current)
}

/// What the filter sort popup shows: its title, the highlighted row, and each
/// order with its label, the one in use marked.
pub fn filter_sort_popup_view(selected_index: usize, current: FilterSortOrder) -> (r: FilterSortPopupView)
    ensures
        r.title@ == "Sort Filters"@,
        r.selected_index == selected_index,
        r.options@.len() == filter_sort_orders().len(),
        forall|i: int|
            0 <= i < r.options@.len() ==> filter_option_shows(#[trigger] r.options@[i], filter_sort_orders()[i], current),
{
    let all = FilterSortOrder::all();
    let mut options: Vec<FilterSortOptionView> = Vec::new();
    let mut i: usize = 0;
    while i < all.len()
        invariant
            i <= all.len(),
            all@ == filter_sort_orders(),
            options@.len() == i,
            forall|j: int| 0 <= j < i ==> filter_option_shows(#[trigger] options@[j], filter_sort_orders()[j], current),
        decreases all.len() - i,
    {
        let order = all[i];
        let option = FilterSortOptionView { label: order.label(), is_active: order == current };
        assert(filter_option_shows(option, order, current));
        options.push(option);
        i += 1;
    }
    FilterSortPopupView { title: "Sort Filters", selected_index, options }
}

} // verus!
