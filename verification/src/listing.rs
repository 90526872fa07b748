//! Which tasks the task list shows and how many each view, project, tag and
//! saved filter counts: a task counts while it and its project are not
//! deleted, it belongs to the view, and, where completed tasks are hidden,
//! it is still to do.
use vstd::prelude::*;

use crate::app::{ScreenData, TaskView};
use crate::domain::{CalendarDate, Filter, FilterId, Project, ProjectId, Tag, TagId, Task, TaskId, TaskStatus};
use crate::filters::{evaluate, expr_holds, ExprModel, FilterExpr, parse_and_validate, parse_query, strs_view};

verus! {

/// The first project with the given identifier.
pub open spec fn project_with_id(projects: Seq<Project>, id: ProjectId) -> Option<Project>
    decreases projects.len(),
{
    if projects.len() == 0 {
        None
    } else if projects[0].id == id {
        Some(projects[0])
    } else {
        project_with_id(projects.drop_first(), id)
    }
}

/// The first project with the given identifier.
pub fn project_by_id(projects: &[Project], id: ProjectId) -> (r: Option<&Project>)
    ensures
        match r {
            Some(p) => project_with_id(projects@, id) == Some(*p),
            None => project_with_id(projects@, id) is None,
        },
{
    let mut i: usize = 0;
    assert(projects@.skip(0) =~= projects@);
    while i < projects.len()
        invariant
            i <= projects.len(),
            project_with_id(projects@, id) == project_with_id(projects@.skip(i as int), id),
        decreases projects.len() - i,
    {
        assert(projects@.skip(i as int).drop_first() =~= projects@.skip(i + 1));
        if projects[i].id == id {
            return Some(&projects[i]);
        }
        i += 1;
    }
    None
}

/// A task counts while it is not deleted and its project exists and is not
/// deleted.
pub open spec fn task_active(task: Task, projects: Seq<Project>) -> bool {
    &&& task.deleted_at is None
    &&& match project_with_id(projects, task.project_id) {
        Some(p) => p.deleted_at is None,
        None => false,
    }
}

/// Whether a task belongs to a view: every task to `All`; tasks of the inbox
/// project to `Inbox`; tasks due today to `Today`; tasks due later to `Soon`.
pub open spec fn task_in_view(task: Task, view: TaskView, projects: Seq<Project>, today: CalendarDate) -> bool {
    match view {
        TaskView::All => true,
        TaskView::Inbox => match project_with_id(projects, task.project_id) {
            Some(p) => p.is_inbox,
            None => false,
        },
        TaskView::Today => match task.due {
            Some(due) => due.date == today,
            None => false,
        },
        TaskView::Soon => match task.due {
            Some(due) => due.date.day_number > today.day_number,
            None => false,
        },
    }
}

/// Completed tasks are left out only where they are hidden.
pub open spec fn shown_by_status(task: Task, hide_completed: bool) -> bool {
    !hide_completed || task.status != TaskStatus::Done
}

/// The views split the tasks by their due day: every task is in `All`; a
/// task due today is in `Today` and not in `Soon`, a task due later in
/// `Soon` and not in `Today`, and an overdue or undated task in neither.
/// Hiding completed tasks leaves out exactly the tasks that are done.
pub proof fn views_split_the_days(task: Task, projects: Seq<Project>, today: CalendarDate)
    ensures
        task_in_view(task, TaskView::All, projects, today),
        !(task_in_view(task, TaskView::Today, projects, today) && task_in_view(
            task,
            TaskView::Soon,
            projects,
            today,
        )),
        (task.due matches Some(d) && d.date.day_number == today.day_number) ==> task_in_view(
            task,
            TaskView::Today,
            projects,
            today,
        ),
        (task.due matches Some(d) && d.date.day_number > today.day_number) ==> task_in_view(
            task,
            TaskView::Soon,
            projects,
            today,
        ),
        (task.due is None || (task.due matches Some(d) && d.date.day_number < today.day_number)) ==> !task_in_view(
            task,
            TaskView::Today,
            projects,
            today,
        ) && !task_in_view(task, TaskView::Soon, projects, today),
        shown_by_status(task, false),
        shown_by_status(task, true) <==> task.status != TaskStatus::Done,
{
}

/// Whether a task counts for a view.
pub open spec fn counted_for_view(
    task: Task,
    view: TaskView,
    projects: Seq<Project>,
    today: CalendarDate,
    hide_completed: bool,
) -> bool {
    task_active(task, projects) && task_in_view(task, view, projects, today) && shown_by_status(
        task,
        hide_completed,
    )
}

/// Whether a task counts: it is not deleted and its project is there and not
/// deleted.
pub fn task_is_active(projects: &[Project], task: &Task) -> (r: bool)
    ensures
        r == task_active(*task, projects@),
{
    task.deleted_at.is_none() && match project_by_id(projects, task.project_id) {
        Some(project) => project.deleted_at.is_none(),
        None => false,
    }
}

/// Whether a task belongs to a view on the day `today`.
pub fn task_matches_view(projects: &[Project], task: &Task, view: TaskView, today: CalendarDate) -> (r: bool)
    ensures
        r == task_in_view(*task, view, projects@, today),
{
    match view {
        TaskView::All => true,
        TaskView::Inbox => match project_by_id(projects, task.project_id) {
            Some(project) => project.is_inbox,
            None => false,
        },
        TaskView::Today => match &task.due {
            Some(due) => due.date == today,
            None => false,
        },
        TaskView::Soon => match &task.due {
            Some(due) => today.is_before(due.date),
            None => false,
        },
    }
}

/// Whether a task counts for a view.
pub fn task_is_counted_for_view(
    projects: &[Project],
    task: &Task,
    view: TaskView,
    today: CalendarDate,
    hide_completed: bool,
) -> (r: bool)
    ensures
        r == counted_for_view(*task, view, projects@, today, hide_completed),
{
    task_is_active(projects, task) && task_matches_view(projects, task, view, today) && (
    !hide_completed || task.status != TaskStatus::Done)
}

/// How many of the tasks count for a view.
pub open spec fn view_count(
    tasks: Seq<Task>,
    view: TaskView,
    projects: Seq<Project>,
    today: CalendarDate,
    hide_completed: bool,
) -> nat {
    tasks.filter(|t: Task| counted_for_view(t, view, projects, today, hide_completed)).len()
}

/// How many tasks the navigation panel shows beside a view.
pub fn task_count_for_view(
    tasks: &[Task],
    projects: &[Project],
    view: TaskView,
    today: CalendarDate,
    hide_completed: bool,
) -> (r: usize)
    ensures
        r == view_count(tasks@, view, projects@, today, hide_completed),
{
    let ghost pred = |t: Task| counted_for_view(t, view, projects@, today, hide_completed);
    let mut n: usize = 0;
    let mut i: usize = 0;
    while i < tasks.len()
        invariant
            i <= tasks.len(),
            pred == (|t: Task| counted_for_view(t, view, projects@, today, hide_completed)),
            n == tasks@.take(i as int).filter(pred).len(),
        decreases tasks.len() - i,
    {
        proof {
            reveal(Seq::filter);
            assert(tasks@.take(i + 1).drop_last() =~= tasks@.take(i as int));
            tasks@.take(i as int).lemma_filter_len(pred);
        }
        if task_is_counted_for_view(projects, &tasks[i], view, today, hide_completed) {
            n += 1;
        }
        i += 1;
    }
    assert(tasks@.take(tasks.len() as int) =~= tasks@);
    n
}

/// The project that `id`'s project sits under, if any.
pub open spec fn parent_of(projects: Seq<Project>, id: ProjectId) -> Option<ProjectId> {
    match project_with_id(projects, id) {
        Some(p) => p.parent_project_id,
        None => None,
    }
}

/// The project `k` steps up the chain of parents from `id`: `id` itself
/// after none, and none once the chain has ended.
pub open spec fn ancestor_at(projects: Seq<Project>, id: ProjectId, k: nat) -> Option<ProjectId>
    decreases k,
{
    if k == 0 {
        Some(id)
    } else {
        match ancestor_at(projects, id, (k - 1) as nat) {
            Some(a) => parent_of(projects, a),
            None => None,
        }
    }
}

/// The chain of parents from `id` ends: no project on it is its own
/// ancestor.
pub open spec fn chain_ends(projects: Seq<Project>, id: ProjectId) -> bool {
    exists|k: nat| #[trigger] ancestor_at(projects, id, k) is None
}

/// No project is its own ancestor.
pub open spec fn projects_acyclic(projects: Seq<Project>) -> bool {
    forall|id: ProjectId| #[trigger] chain_ends(projects, id)
}

/// Whether `root` is `id` or one of its ancestors.
pub open spec fn in_subtree(projects: Seq<Project>, id: ProjectId, root: ProjectId) -> bool {
    exists|k: nat| #[trigger] ancestor_at(projects, id, k) == Some(root)
}

proof fn lemma_ended_stays_ended(projects: Seq<Project>, id: ProjectId, k: nat, m: nat)
    requires
        ancestor_at(projects, id, k) is None,
        k <= m,
    ensures
        ancestor_at(projects, id, m) is None,
    decreases m - k,
{
    if k < m {
        lemma_ended_stays_ended(projects, id, k, (m - 1) as nat);
    }
}

/// Whether the project `project_id` lies in the subtree under `root`: it is
/// `root` or one of its descendants.
pub fn project_is_in_subtree(projects: &[Project], project_id: ProjectId, root: ProjectId) -> (r: bool)
    requires
        chain_ends(projects@, project_id),
    ensures
        r == in_subtree(projects@, project_id, root),
{
    let ghost end: nat = choose|k: nat| #[trigger] ancestor_at(projects@, project_id, k) is None;
    let mut current = Some(project_id);
    let ghost mut steps: nat = 0;
    loop
        invariant
            current == ancestor_at(projects@, project_id, steps),
            ancestor_at(projects@, project_id, end) is None,
            steps <= end,
            forall|k: nat| k < steps ==> #[trigger] ancestor_at(projects@, project_id, k) != Some(root),
        decreases end - steps,
    {
        match current {
            None => {
                proof {
                    assert forall|k: nat| #[trigger] ancestor_at(projects@, project_id, k) != Some(root) by {
                        if k >= steps {
                            lemma_ended_stays_ended(projects@, project_id, steps, k);
                        }
                    }
                }
                return false;
            },
            Some(candidate) => {
                if candidate == root {
                    return true;
                }
                current = match project_by_id(projects, candidate) {
                    Some(project) => project.parent_project_id,
                    None => None,
                };
                proof {
                    steps = steps + 1;
                }
            },
        }
    }
}

/// The tags linked to a task, in the order of the links.
pub open spec fn linked_tag_ids(links: Seq<(TaskId, TagId)>, task_id: TaskId) -> Seq<TagId>
    decreases links.len(),
{
    if links.len() == 0 {
        Seq::empty()
    } else {
        let rest = linked_tag_ids(links.drop_last(), task_id);
        if links.last().0 == task_id {
            rest.push(links.last().1)
        } else {
            rest
        }
    }
}

/// The tags linked to a task, in the order of the links.
pub fn task_tag_ids(links: &[(TaskId, TagId)], task_id: TaskId) -> (r: Vec<TagId>)
    ensures
        r@ == linked_tag_ids(links@, task_id),
{
    let mut r: Vec<TagId> = Vec::new();
    let mut i: usize = 0;
    while i < links.len()
        invariant
            i <= links.len(),
            r@ == linked_tag_ids(links@.take(i as int), task_id),
        decreases links.len() - i,
    {
        assert(links@.take(i + 1).drop_last() =~= links@.take(i as int));
        let (linked_task, tag) = links[i];
        if linked_task == task_id {
            r.push(tag);
        }
        i += 1;
    }
    assert(links@.take(links.len() as int) =~= links@);
    r
}

/// Whether a task is linked to a tag.
pub open spec fn has_tag(links: Seq<(TaskId, TagId)>, task_id: TaskId, tag_id: TagId) -> bool {
    exists|i: int| 0 <= i < links.len() && #[trigger] links[i] == (task_id, tag_id)
}

/// Where a project is selected, the task's project lies in its subtree.
pub open spec fn matches_selected_project(projects: Seq<Project>, task: Task, selected: Option<ProjectId>) -> bool {
    match selected {
        Some(root) => in_subtree(projects, task.project_id, root),
        None => true,
    }
}

/// Where a project is selected, whether the task belongs to its subtree.
pub fn task_matches_selected_project(projects: &[Project], task: &Task, selected: Option<ProjectId>) -> (r: bool)
    requires
        chain_ends(projects@, task.project_id),
    ensures
        r == matches_selected_project(projects@, *task, selected),
{
    match selected {
        Some(root) => project_is_in_subtree(projects, task.project_id, root),
        None => true,
    }
}

/// Where a tag is selected, the task is linked to it.
pub open spec fn matches_selected_tag(links: Seq<(TaskId, TagId)>, task: Task, selected: Option<TagId>) -> bool {
    match selected {
        Some(tag_id) => has_tag(links, task.id, tag_id),
        None => true,
    }
}

/// Where a tag is selected, whether the task is linked to it.
pub fn task_matches_selected_tag(links: &[(TaskId, TagId)], task: &Task, selected: Option<TagId>) -> (r: bool)
    ensures
        r == matches_selected_tag(links@, *task, selected),
{
    match selected {
        Some(tag_id) => {
            let mut i: usize = 0;
            while i < links.len()
                invariant
                    i <= links.len(),
                    selected == Some(tag_id),
                    forall|j: int| 0 <= j < i ==> #[trigger] links@[j] != (task.id, tag_id),
                decreases links.len() - i,
            {
                if links[i].0 == task.id && links[i].1 == tag_id {
                    assert(links@[i as int] == (task.id, tag_id));
                    assert(has_tag(links@, task.id, tag_id));
                    return true;
                }
                i += 1;
            }
            false
        },
        None => true,
    }
}


/// The first saved filter with the given identifier.
pub open spec fn filter_with_id(filters: Seq<Filter>, id: FilterId) -> Option<Filter>
    decreases filters.len(),
{
    if filters.len() == 0 {
        None
    } else if filters[0].id == id {
        Some(filters[0])
    } else {
        filter_with_id(filters.drop_first(), id)
    }
}

/// The first saved filter with the given identifier.
pub fn filter_by_id(filters: &[Filter], id: FilterId) -> (r: Option<&Filter>)
    ensures
        match r {
            Some(f) => filter_with_id(filters@, id) == Some(*f),
            None => filter_with_id(filters@, id) is None,
        },
{
    let mut i: usize = 0;
    assert(filters@.skip(0) =~= filters@);
    while i < filters.len()
        invariant
            i <= filters.len(),
            filter_with_id(filters@, id) == filter_with_id(filters@.skip(i as int), id),
        decreases filters.len() - i,
    {
        assert(filters@.skip(i as int).drop_first() =~= filters@.skip(i + 1));
        if filters[i].id == id {
            return Some(&filters[i]);
        }
        i += 1;
    }
    None
}

/// The first tag with the given identifier.
pub open spec fn tag_with_id(tags: Seq<Tag>, id: TagId) -> Option<Tag>
    decreases tags.len(),
{
    if tags.len() == 0 {
        None
    } else if tags[0].id == id {
        Some(tags[0])
    } else {
        tag_with_id(tags.drop_first(), id)
    }
}

/// The first tag with the given identifier.
pub fn tag_by_id(tags: &[Tag], id: TagId) -> (r: Option<&Tag>)
    ensures
        match r {
            Some(t) => tag_with_id(tags@, id) == Some(*t),
            None => tag_with_id(tags@, id) is None,
        },
{
    let mut i: usize = 0;
    assert(tags@.skip(0) =~= tags@);
    while i < tags.len()
        invariant
            i <= tags.len(),
            tag_with_id(tags@, id) == tag_with_id(tags@.skip(i as int), id),
        decreases tags.len() - i,
    {
        assert(tags@.skip(i as int).drop_first() =~= tags@.skip(i + 1));
        if tags[i].id == id {
            return Some(&tags[i]);
        }
        i += 1;
    }
    None
}

/// The names of the tags with the given identifiers that exist and are not
/// deleted, in the order of the identifiers.
pub open spec fn tag_names_of(tags: Seq<Tag>, ids: Seq<TagId>) -> Seq<Seq<char>>
    decreases ids.len(),
{
    if ids.len() == 0 {
        Seq::empty()
    } else {
        let rest = tag_names_of(tags, ids.drop_last());
        match tag_with_id(tags, ids.last()) {
            Some(t) => if t.deleted_at is None {
                rest.push(t.name@)
            } else {
                rest
            },
            None => rest,
        }
    }
}

/// The name of the task's project, where it exists.
pub open spec fn project_name_of(projects: Seq<Project>, id: ProjectId) -> Option<Seq<char>> {
    match project_with_id(projects, id) {
        Some(p) => Some(p.name@),
        None => None,
    }
}

/// Whether a saved filter's expression holds of a task: its query is read,
/// and the expression is evaluated with the name of the task's project and
/// the names of its tags. A query that cannot be read holds of no task.
pub open spec fn query_holds(
    query: Seq<char>,
    task: Task,
    today: CalendarDate,
    projects: Seq<Project>,
    tags: Seq<Tag>,
    links: Seq<(TaskId, TagId)>,
) -> bool {
    match parse_query(query) {
        Err(_) => false,
        Ok(e) => expr_holds(
            e,
            task,
            today,
            project_name_of(projects, task.project_id),
            tag_names_of(tags, linked_tag_ids(links, task.id)),
        ),
    }
}

/// The names of the tags of a task that exist and are not deleted.
fn task_tag_names<'a>(tags: &'a [Tag], links: &[(TaskId, TagId)], task_id: TaskId) -> (r: Vec<&'a str>)
    ensures
        strs_view(r@) == tag_names_of(tags@, linked_tag_ids(links@, task_id)),
{
    let ids = task_tag_ids(links, task_id);
    let mut names: Vec<&'a str> = Vec::new();
    let mut i: usize = 0;
    while i < ids.len()
        invariant
            i <= ids.len(),
            strs_view(names@) == tag_names_of(tags@, ids@.take(i as int)),
        decreases ids.len() - i,
    {
        assert(ids@.take(i + 1).drop_last() =~= ids@.take(i as int));
        assert(ids@.take(i + 1).last() == ids@[i as int]);
        match tag_by_id(tags, ids[i]) {
            Some(tag) => {
                if tag.deleted_at.is_none() {
                    let ghost before = names@;
                    names.push(tag.name.as_str());
                    assert(strs_view(names@) =~= strs_view(before).push(tag.name@));
                }
            },
            None => {},
        }
        i += 1;
    }
    assert(ids@.take(ids.len() as int) =~= ids@);
    names
}

/// Whether an expression holds of a task, with the name of the task's
/// project and the names of its tags.
fn expr_matches(
    expr: &FilterExpr,
    task: &Task,
    today: CalendarDate,
    projects: &[Project],
    tags: &[Tag],
    links: &[(TaskId, TagId)],
) -> (r: bool)
    ensures
        r == expr_holds(
            expr@,
            *task,
            today,
            project_name_of(projects@, task.project_id),
            tag_names_of(tags@, linked_tag_ids(links@, task.id)),
        ),
{
    let project_name = match project_by_id(projects, task.project_id) {
        Some(project) => Some(project.name.as_str()),
        None => None,
    };
    let names = task_tag_names(tags, links, task.id);
    evaluate(expr, task, today, project_name, names.as_slice())
}

/// Whether a saved filter's query holds of a task.
fn query_matches(
    query: &str,
    task: &Task,
    today: CalendarDate,
    projects: &[Project],
    tags: &[Tag],
    links: &[(TaskId, TagId)],
) -> (r: bool)
    ensures
        r == query_holds(query@, *task, today, projects@, tags@, links@),
{
    match parse_and_validate(query) {
        Ok(expr) => expr_matches(&expr, task, today, projects, tags, links),
        Err(_) => false,
    }
}

/// Where a saved filter is selected and exists, its query holds of the task.
pub open spec fn matches_selected_filter(
    task: Task,
    selected: Option<FilterId>,
    today: CalendarDate,
    projects: Seq<Project>,
    tags: Seq<Tag>,
    filters: Seq<Filter>,
    links: Seq<(TaskId, TagId)>,
) -> bool {
    match selected {
        None => true,
        Some(id) => match filter_with_id(filters, id) {
            None => true,
            Some(f) => query_holds(f.query@, task, today, projects, tags, links),
        },
    }
}

/// Where a saved filter is selected, whether its query holds of the task.
pub fn task_matches_selected_filter(
    task: &Task,
    selected: Option<FilterId>,
    today: CalendarDate,
    projects: &[Project],
    tags: &[Tag],
    filters: &[Filter],
    links: &[(TaskId, TagId)],
) -> (r: bool)
    ensures
        r == matches_selected_filter(*task, selected, today, projects@, tags@, filters@, links@),
{
    let Some(filter_id) = selected else {
        return true;
    };
    let Some(filter) = filter_by_id(filters, filter_id) else {
        return true;
    };
    query_matches(filter.query.as_str(), task, today, projects, tags, links)
}

/// What the task list is narrowed to.
#[derive(Debug, Clone, Copy, PartialEq, Eq)]
pub struct TaskListScope {
    pub view: TaskView,
    pub selected_project: Option<ProjectId>,
    pub selected_tag: Option<TagId>,
    pub selected_filter: Option<FilterId>,
    pub hide_completed: bool,
    pub today: CalendarDate,
}

/// Whether the task list shows a task: it counts for the view, and it
/// belongs to the selected project's subtree, the selected tag and the
/// selected saved filter.
pub open spec fn visible_in(task: Task, scope: TaskListScope, data: ScreenData) -> bool {
    &&& counted_for_view(task, scope.view, data.projects@, scope.today, scope.hide_completed)
    &&& matches_selected_project(data.projects@, task, scope.selected_project)
    &&& matches_selected_tag(data.task_tag_links@, task, scope.selected_tag)
    &&& matches_selected_filter(
        task,
        scope.selected_filter,
        scope.today,
        data.projects@,
        data.tags@,
        data.filters@,
        data.task_tag_links@,
    )
}

/// Whether the task list shows a task.
pub fn task_is_visible(data: &ScreenData, task: &Task, scope: &TaskListScope) -> (r: bool)
    requires
        projects_acyclic(data.projects@),
    ensures
        r == visible_in(*task, *scope, *data),
{
    assert(chain_ends(data.projects@, task.project_id));
    task_is_active(data.projects.as_slice(), task) && task_matches_view(
        data.projects.as_slice(),
        task,
        scope.view,
        scope.today,
    ) && task_matches_selected_project(data.projects.as_slice(), task, scope.selected_project)
        && task_matches_selected_tag(data.task_tag_links.as_slice(), task, scope.selected_tag)
        && task_matches_selected_filter(
        task,
        scope.selected_filter,
        scope.today,
        data.projects.as_slice(),
        data.tags.as_slice(),
        data.filters.as_slice(),
        data.task_tag_links.as_slice(),
    ) && (!scope.hide_completed || task.status != TaskStatus::Done)
}

/// How many tasks of the view lie in a project's subtree, or in all
/// projects where none is given.
pub open spec fn project_count(
    data: ScreenData,
    project: Option<ProjectId>,
    view: TaskView,
    today: CalendarDate,
    hide_completed: bool,
) -> nat {
    data.tasks@.filter(
        |t: Task|
            counted_for_view(t, view, data.projects@, today, hide_completed)
                && matches_selected_project(data.projects@, t, project),
    ).len()
}

/// The count shown beside a project: the tasks of the current view in its
/// subtree.
pub fn tasks_for_project_filter(
    data: &ScreenData,
    project: Option<ProjectId>,
    view: TaskView,
    today: CalendarDate,
    hide_completed: bool,
) -> (r: usize)
    requires
        projects_acyclic(data.projects@),
    ensures
        r == project_count(*data, project, view, today, hide_completed),
{
    let ghost pred = |t: Task|
        counted_for_view(t, view, data.projects@, today, hide_completed)
            && matches_selected_project(data.projects@, t, project);
    let mut n: usize = 0;
    let mut i: usize = 0;
    while i < data.tasks.len()
        invariant
            i <= data.tasks.len(),
            projects_acyclic(data.projects@),
            pred == (|t: Task|
                counted_for_view(t, view, data.projects@, today, hide_completed)
                    && matches_selected_project(data.projects@, t, project)),
            n == data.tasks@.take(i as int).filter(pred).len(),
        decreases data.tasks.len() - i,
    {
        proof {
            reveal(Seq::filter);
            assert(data.tasks@.take(i + 1).drop_last() =~= data.tasks@.take(i as int));
            data.tasks@.take(i as int).lemma_filter_len(pred);
        }
        let task = &data.tasks[i];
        assert(chain_ends(data.projects@, task.project_id));
        if task_is_counted_for_view(data.projects.as_slice(), task, view, today, hide_completed)
            && task_matches_selected_project(data.projects.as_slice(), task, project) {
            n += 1;
        }
        i += 1;
    }
    assert(data.tasks@.take(data.tasks.len() as int) =~= data.tasks@);
    n
}

/// How many tasks of the view carry a tag, or all where none is given.
pub open spec fn tag_count(
    data: ScreenData,
    tag: Option<TagId>,
    view: TaskView,
    today: CalendarDate,
    hide_completed: bool,
) -> nat {
    data.tasks@.filter(
        |t: Task|
            counted_for_view(t, view, data.projects@, today, hide_completed)
                && matches_selected_tag(data.task_tag_links@, t, tag),
    ).len()
}

/// The count shown beside a tag: the tasks of the current view that carry
/// it.
pub fn tasks_for_tag_filter(
    data: &ScreenData,
    tag: Option<TagId>,
    view: TaskView,
    today: CalendarDate,
    hide_completed: bool,
) -> (r: usize)
    ensures
        r == tag_count(*data, tag, view, today, hide_completed),
{
    let ghost pred = |t: Task|
        counted_for_view(t, view, data.projects@, today, hide_completed)
            && matches_selected_tag(data.task_tag_links@, t, tag);
    let mut n: usize = 0;
    let mut i: usize = 0;
    while i < data.tasks.len()
        invariant
            i <= data.tasks.len(),
            pred == (|t: Task|
                counted_for_view(t, view, data.projects@, today, hide_completed)
                    && matches_selected_tag(data.task_tag_links@, t, tag)),
            n == data.tasks@.take(i as int).filter(pred).len(),
        decreases data.tasks.len() - i,
    {
        proof {
            reveal(Seq::filter);
            assert(data.tasks@.take(i + 1).drop_last() =~= data.tasks@.take(i as int));
            data.tasks@.take(i as int).lemma_filter_len(pred);
        }
        let task = &data.tasks[i];
        if task_is_counted_for_view(data.projects.as_slice(), task, view, today, hide_completed)
            && task_matches_selected_tag(data.task_tag_links.as_slice(), task, tag) {
            n += 1;
        }
        i += 1;
    }
    assert(data.tasks@.take(data.tasks.len() as int) =~= data.tasks@);
    n
}

/// How many tasks of the view a saved filter matches: all tasks of the view
/// where none is given, none where the filter does not exist or its query
/// cannot be read.
pub open spec fn filter_count(
    data: ScreenData,
    filter: Option<FilterId>,
    view: TaskView,
    today: CalendarDate,
    hide_completed: bool,
) -> nat {
    match filter {
        None => view_count(data.tasks@, view, data.projects@, today, hide_completed),
        Some(id) => match filter_with_id(data.filters@, id) {
            None => 0,
            Some(f) => data.tasks@.filter(
                |t: Task|
                    counted_for_view(t, view, data.projects@, today, hide_completed) && query_holds(
                        f.query@,
                        t,
                        today,
                        data.projects@,
                        data.tags@,
                        data.task_tag_links@,
                    ),
            ).len(),
        },
    }
}

proof fn lemma_filter_none<A>(s: Seq<A>, pred: spec_fn(A) -> bool)
    requires
        forall|a: A| !#[trigger] pred(a),
    ensures
        s.filter(pred).len() == 0,
    decreases s.len(),
{
    reveal(Seq::filter);
    if s.len() > 0 {
        lemma_filter_none(s.drop_last(), pred);
    }
}

/// The count shown beside a saved filter.
pub fn tasks_for_filter(
    data: &ScreenData,
    filter: Option<FilterId>,
    view: TaskView,
    today: CalendarDate,
    hide_completed: bool,
) -> (r: usize)
    ensures
        r == filter_count(*data, filter, view, today, hide_completed),
{
    let Some(filter_id) = filter else {
        return task_count_for_view(
            data.tasks.as_slice(),
            data.projects.as_slice(),
            view,
            today,
            hide_completed,
        );
    };
    let Some(saved) = filter_by_id(data.filters.as_slice(), filter_id) else {
        return 0;
    };
    let ghost query = saved.query@;
    let ghost pred = |t: Task|
        counted_for_view(t, view, data.projects@, today, hide_completed) && query_holds(
            query,
            t,
            today,
            data.projects@,
            data.tags@,
            data.task_tag_links@,
        );
    let expr = match parse_and_validate(saved.query.as_str()) {
        Ok(e) => e,
        Err(_) => {
            proof {
                lemma_filter_none(data.tasks@, pred);
            }
            return 0;
        },
    };
    let mut n: usize = 0;
    let mut i: usize = 0;
    while i < data.tasks.len()
        invariant
            i <= data.tasks.len(),
            parse_query(query) == Ok::<ExprModel, Seq<char>>(expr@),
            pred == (|t: Task|
                counted_for_view(t, view, data.projects@, today, hide_completed) && query_holds(
                    query,
                    t,
                    today,
                    data.projects@,
                    data.tags@,
                    data.task_tag_links@,
                )),
            n == data.tasks@.take(i as int).filter(pred).len(),
        decreases data.tasks.len() - i,
    {
        proof {
            reveal(Seq::filter);
            assert(data.tasks@.take(i + 1).drop_last() =~= data.tasks@.take(i as int));
            data.tasks@.take(i as int).lemma_filter_len(pred);
        }
        let task = &data.tasks[i];
        if task_is_counted_for_view(data.projects.as_slice(), task, view, today, hide_completed)
            && expr_matches(
            &expr,
            task,
            today,
            data.projects.as_slice(),
            data.tags.as_slice(),
            data.task_tag_links.as_slice(),
        ) {
            n += 1;
        }
        i += 1;
    }
    assert(data.tasks@.take(data.tasks.len() as int) =~= data.tasks@);
    n
}

proof fn lemma_filter_disjoint_le<A>(
    s: Seq<A>,
    p: spec_fn(A) -> bool,
    q: spec_fn(A) -> bool,
    r: spec_fn(A) -> bool,
)
    requires
        forall|a: A| #[trigger] p(a) ==> r(a),
        forall|a: A| #[trigger] q(a) ==> r(a),
        forall|a: A| !(#[trigger] p(a) && q(a)),
    ensures
        s.filter(p).len() + s.filter(q).len() <= s.filter(r).len(),
    decreases s.len(),
{
    reveal(Seq::filter);
    if s.len() > 0 {
        lemma_filter_disjoint_le(s.drop_last(), p, q, r);
    }
}

proof fn lemma_filter_same<A>(s: Seq<A>, p: spec_fn(A) -> bool, q: spec_fn(A) -> bool)
    requires
        forall|a: A| #[trigger] p(a) == q(a),
    ensures
        s.filter(p) == s.filter(q),
{
    assert(p =~= q);
}

/// Every view counts a part of what `All` counts, and no task is both due
/// today and due later: the counts of `Today` and `Soon` together are at most
/// that of `All`.
pub proof fn view_counts_within_all(
    tasks: Seq<Task>,
    view: TaskView,
    projects: Seq<Project>,
    today: CalendarDate,
    hide_completed: bool,
)
    ensures
        view_count(tasks, view, projects, today, hide_completed) <= view_count(
            tasks,
            TaskView::All,
            projects,
            today,
            hide_completed,
        ),
        view_count(tasks, TaskView::Today, projects, today, hide_completed) + view_count(
            tasks,
            TaskView::Soon,
            projects,
            today,
            hide_completed,
        ) <= view_count(tasks, TaskView::All, projects, today, hide_completed),
{
    let all = |t: Task| counted_for_view(t, TaskView::All, projects, today, hide_completed);
    let v = |t: Task| counted_for_view(t, view, projects, today, hide_completed);
    let nothing = |t: Task| false;
    let due_today = |t: Task| counted_for_view(t, TaskView::Today, projects, today, hide_completed);
    let due_later = |t: Task| counted_for_view(t, TaskView::Soon, projects, today, hide_completed);
    lemma_filter_disjoint_le(tasks, v, nothing, all);
    lemma_filter_disjoint_le(tasks, due_today, due_later, all);
}

/// With nothing selected, a project count, a tag count and a filter count
/// are each the count of the view, and the list shows exactly the tasks the
/// view counts.
pub proof fn no_selection_counts_the_view(
    data: ScreenData,
    task: Task,
    view: TaskView,
    today: CalendarDate,
    hide_completed: bool,
)
    ensures
        project_count(data, None, view, today, hide_completed) == view_count(
            data.tasks@,
            view,
            data.projects@,
            today,
            hide_completed,
        ),
        tag_count(data, None, view, today, hide_completed) == view_count(
            data.tasks@,
            view,
            data.projects@,
            today,
            hide_completed,
        ),
        filter_count(data, None, view, today, hide_completed) == view_count(
            data.tasks@,
            view,
            data.projects@,
            today,
            hide_completed,
        ),
        visible_in(
            task,
            TaskListScope {
                view,
                selected_project: None,
                selected_tag: None,
                selected_filter: None,
                hide_completed,
                today,
            },
            data,
        ) == counted_for_view(task, view, data.projects@, today, hide_completed),
{
    let base = |t: Task| counted_for_view(t, view, data.projects@, today, hide_completed);
    lemma_filter_same(
        data.tasks@,
        |t: Task|
            counted_for_view(t, view, data.projects@, today, hide_completed)
                && matches_selected_project(data.projects@, t, None),
        base,
    );
    lemma_filter_same(
        data.tasks@,
        |t: Task|
            counted_for_view(t, view, data.projects@, today, hide_completed)
                && matches_selected_tag(data.task_tag_links@, t, None),
        base,
    );
}

/// Every project lies in its own subtree, and a subtree holds the subtrees
/// of the projects in it.
pub proof fn subtree_is_reflexive_and_transitive(
    projects: Seq<Project>,
    a: ProjectId,
    b: ProjectId,
    c: ProjectId,
)
    ensures
        in_subtree(projects, a, a),
        in_subtree(projects, a, b) && in_subtree(projects, b, c) ==> in_subtree(projects, a, c),
{
    assert(ancestor_at(projects, a, 0) == Some(a));
    if in_subtree(projects, a, b) && in_subtree(projects, b, c) {
        let k1 = choose|k: nat| #[trigger] ancestor_at(projects, a, k) == Some(b);
        let k2 = choose|k: nat| #[trigger] ancestor_at(projects, b, k) == Some(c);
        lemma_ancestor_compose(projects, a, b, k1, k2);
    }
}

proof fn lemma_ancestor_compose(projects: Seq<Project>, a: ProjectId, b: ProjectId, k1: nat, k2: nat)
    requires
        ancestor_at(projects, a, k1) == Some(b),
    ensures
        ancestor_at(projects, a, k1 + k2) == ancestor_at(projects, b, k2),
    decreases k2,
{
    if k2 > 0 {
        lemma_ancestor_compose(projects, a, b, k1, (k2 - 1) as nat);
        assert((k1 + k2 - 1) as nat == k1 + (k2 - 1) as nat);
    }
}

} // verus!
