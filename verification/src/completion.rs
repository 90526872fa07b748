//! Completing and reopening a task, and the next occurrence of a recurring
//! task: which status and completion time to store, whether an occurrence
//! is still to be created, and which task is selected afterwards.
use vstd::prelude::*;

use crate::app::{ScreenData, TaskView};
use crate::domain::{CalendarDate, Task, TaskDue, TaskId, TaskStatus};
use crate::listing::{task_active, task_in_view, task_is_active, task_matches_view};
use crate::references::task_with_id;
use crate::text::str_eq;

verus! {

/// Two due dates are the same: day, moment, time zone, text and
/// recurrence.
pub open spec fn same_due(a: TaskDue, b: TaskDue) -> bool {
    &&& a.date == b.date
    &&& a.datetime == b.datetime
    &&& match (a.timezone, b.timezone) {
        (Some(x), Some(y)) => x@ == y@,
        (None, None) => true,
        _ => false,
    }
    &&& a.string@ == b.string@
    &&& a.is_recurring == b.is_recurring
}

fn due_equals(a: &TaskDue, b: &TaskDue) -> (r: bool)
    ensures
        r == same_due(*a, *b),
{
    let zones = match (&a.timezone, &b.timezone) {
        (Some(x), Some(y)) => str_eq(x.as_str(), y.as_str()),
        (None, None) => true,
        _ => false,
    };
    a.date.day_number == b.date.day_number && a.datetime == b.datetime && zones && str_eq(
        a.string.as_str(),
        b.string.as_str(),
    ) && a.is_recurring == b.is_recurring
}

/// Another task, not deleted, already has the title and the due date of
/// the next occurrence.
pub open spec fn successor_exists(tasks: Seq<Task>, original: TaskId, title: Seq<char>, due: TaskDue) -> bool {
    exists|i: int|
        0 <= i < tasks.len() && #[trigger] tasks[i].id != original && tasks[i].deleted_at is None
            && tasks[i].title@ == title && (tasks[i].due matches Some(d) && same_due(d, due))
}

/// Whether another task, not deleted, already has the title and due date
/// of the next occurrence of a recurring task.
pub fn has_existing_recurring_successor(tasks: &[Task], original_task_id: TaskId, title: &str, due: &TaskDue) -> (r: bool)
    ensures
        r == successor_exists(tasks@, original_task_id, title@, *due),
{
    let mut i: usize = 0;
    while i < tasks.len()
        invariant
            i <= tasks.len(),
            forall|j: int|
                0 <= j < i ==> !(#[trigger] tasks@[j].id != original_task_id && tasks@[j].deleted_at is None
                    && tasks@[j].title@ == title@ && (tasks@[j].due matches Some(d) && same_due(d, *due))),
        decreases tasks.len() - i,
    {
        let t = &tasks[i];
        let same = t.id != original_task_id && t.deleted_at.is_none() && str_eq(t.title.as_str(), title)
            && match &t.due {
            Some(d) => due_equals(d, due),
            None => false,
        };
        if same {
            return true;
        }
        i += 1;
    }
    false
}

/// The status a toggle stores: done for a task to do and the other way
/// round; a task done is stamped with the time, one reopened has no stamp.
pub open spec fn toggle_spec(status: TaskStatus, now: i64) -> (TaskStatus, Option<i64>) {
    match status {
        TaskStatus::Todo => (TaskStatus::Done, Some(now)),
        TaskStatus::Done => (TaskStatus::Todo, None),
    }
}

/// The status and completion time a toggle stores (see `toggle_spec`).
pub fn toggled_status(status: TaskStatus, now: i64) -> (r: (TaskStatus, Option<i64>))
    ensures
        r == toggle_spec(status, now),
{
    match status {
        TaskStatus::Todo => (TaskStatus::Done, Some(now)),
        TaskStatus::Done => (TaskStatus::Todo, None),
    }
}

/// The due date of the occurrence to create once a task is completed: the
/// next due date where the task was just completed, falls due on a
/// recurring date, and no other task already holds that occurrence. The
/// next due date is worked out elsewhere and given here.
pub open spec fn successor_due_spec(tasks: Seq<Task>, task: Task, next_status: TaskStatus, next_due: Option<TaskDue>) -> Option<TaskDue> {
    if next_status == TaskStatus::Done && (task.due matches Some(d) && d.is_recurring) {
        match next_due {
            Some(n) => if successor_exists(tasks, task.id, task.title@, n) {
                None
            } else {
                Some(n)
            },
            None => None,
        }
    } else {
        None
    }
}

/// The due date of the occurrence to create once a task is completed (see
/// `successor_due_spec`).
pub fn recurring_successor_due(
    data: &ScreenData,
    task: &Task,
    next_status: TaskStatus,
    next_due: Option<TaskDue>,
) -> (r: Option<TaskDue>)
    ensures
        r == successor_due_spec(data.tasks@, *task, next_status, next_due),
{
    let recurring = match &task.due {
        Some(d) => d.is_recurring,
        None => false,
    };
    if next_status != TaskStatus::Done || !recurring {
        return None;
    }
    match next_due {
        Some(n) => if has_existing_recurring_successor(data.tasks.as_slice(), task.id, task.title.as_str(), &n) {
            None
        } else {
            Some(n)
        },
        None => None,
    }
}

/// After completing a task whose next occurrence was created, the list
/// selects that occurrence where it is shown in the active view, and the
/// completed task otherwise.
pub open spec fn selection_after_completion_spec(
    data: ScreenData,
    completed: TaskId,
    next: TaskId,
    view: TaskView,
    today: CalendarDate,
) -> TaskId {
    match task_with_id(data.tasks@, next) {
        Some(t) => if task_active(t, data.projects@) && task_in_view(t, view, data.projects@, today) {
            next
        } else {
            completed
        },
        None => completed,
    }
}

/// The task to select after completing `completed` and creating its next
/// occurrence `next` (see `selection_after_completion_spec`).
pub fn selection_after_completion(
    data: &ScreenData,
    completed: TaskId,
    next: TaskId,
    view: TaskView,
    today: CalendarDate,
) -> (r: TaskId)
    ensures
        r == selection_after_completion_spec(*data, completed, next, view, today),
{
    let mut i: usize = 0;
    assert(data.tasks@.skip(0) =~= data.tasks@);
    while i < data.tasks.len()
        invariant
            i <= data.tasks.len(),
            task_with_id(data.tasks@, next) == task_with_id(data.tasks@.skip(i as int), next),
        decreases data.tasks.len() - i,
    {
        assert(data.tasks@.skip(i as int).drop_first() =~= data.tasks@.skip(i + 1));
        if data.tasks[i].id == next {
            let t = &data.tasks[i];
            if task_is_active(data.projects.as_slice(), t) && task_matches_view(data.projects.as_slice(), t, view, today) {
                return next;
            }
            return completed;
        }
        i += 1;
    }
    completed
}

/// Toggling twice gives the status back, and a task is stamped exactly
/// when it becomes done.
pub proof fn toggling_twice_restores_status(status: TaskStatus, now: i64, later: i64)
    ensures
        toggle_spec(toggle_spec(status, now).0, later).0 == status,
        toggle_spec(status, now).1 is Some <==> toggle_spec(status, now).0 == TaskStatus::Done,
        toggle_spec(status, now).1 matches Some(t) ==> t == now,
{
}

/// No occurrence is created twice: once a task holding the next occurrence
/// exists, completing the task again creates none.
pub proof fn successor_is_created_once(tasks: Seq<Task>, task: Task, next_due: TaskDue, holder: int)
    requires
        0 <= holder < tasks.len(),
        tasks[holder].id != task.id,
        tasks[holder].deleted_at is None,
        tasks[holder].title@ == task.title@,
        tasks[holder].due matches Some(d) && same_due(d, next_due),
    ensures
        successor_due_spec(tasks, task, TaskStatus::Done, Some(next_due)) is None,
{
    assert(tasks[holder].id != task.id);
}

/// The task has a child that counts.
pub open spec fn has_active_child(data: ScreenData, id: TaskId) -> bool {
    exists|i: int|
        0 <= i < data.tasks@.len() && task_active(data.tasks@[i], data.projects@) && #[trigger] data.tasks@[i].parent_task_id
            == Some(id)
}

/// Opens the selected task to show its subtasks, where it has a subtask
/// that counts; the set of open tasks holds each task once.
pub fn expand_selected_task(data: &ScreenData, selected: Option<&Task>, expanded: &mut Vec<TaskId>)
    requires
        crate::references::no_duplicates(old(expanded)@),
    ensures
        crate::references::no_duplicates(final(expanded)@),
        match selected {
            Some(t) => if has_active_child(*data, t.id) {
                final(expanded)@.to_set() == old(expanded)@.to_set().insert(t.id)
            } else {
                final(expanded)@ == old(expanded)@
            },
            None => final(expanded)@ == old(expanded)@,
        },
{
    let task = match selected {
        Some(t) => t,
        None => {
            return;
        },
    };
    let mut found = false;
    let mut i: usize = 0;
    while i < data.tasks.len()
        invariant
            i <= data.tasks.len(),
            found ==> has_active_child(*data, task.id),
            !found ==> forall|j: int|
                0 <= j < i ==> !(task_active(data.tasks@[j], data.projects@) && #[trigger] data.tasks@[j].parent_task_id
                    == Some(task.id)),
            expanded@ == old(expanded)@,
            selected == Some(task),
        decreases data.tasks.len() - i,
    {
        let c = &data.tasks[i];
        let is_child = match c.parent_task_id {
            Some(p) => p == task.id,
            None => false,
        };
        if !found && is_child && task_is_active(data.projects.as_slice(), c) {
            found = true;
        }
        i += 1;
    }
    if !found {
        return;
    }
    let mut k: usize = 0;
    while k < expanded.len()
        invariant
            k <= expanded.len(),
            expanded@ == old(expanded)@,
            crate::references::no_duplicates(expanded@),
            selected == Some(task),
            has_active_child(*data, task.id),
            forall|j: int| 0 <= j < k ==> expanded@[j] != task.id,
        decreases expanded.len() - k,
    {
        if expanded[k] == task.id {
            proof {
                assert(expanded@.to_set().insert(task.id) =~= expanded@.to_set());
            }
            return;
        }
        k += 1;
    }
    let ghost before = expanded@;
    expanded.push(task.id);
    proof {
        assert forall|x: TaskId| #[trigger] expanded@.contains(x) == (before.contains(x) || x == task.id) by {
            if before.contains(x) {
                let j = choose|j: int| 0 <= j < before.len() && before[j] == x;
                assert(expanded@[j] == x);
            }
            if x == task.id {
                assert(expanded@[before.len() as int] == x);
            }
            if expanded@.contains(x) {
                let j = choose|j: int| 0 <= j < expanded@.len() && expanded@[j] == x;
                if j < before.len() {
                    assert(before[j] == x);
                }
            }
        }
        assert(expanded@.to_set() =~= before.to_set().insert(task.id));
        assert forall|a: int, b: int| 0 <= a < b < expanded@.len() implies expanded@[a] != expanded@[b] by {
            if b == before.len() {
                assert(before[a] != task.id);
            }
        }
    }
}

/// Closes the selected task where it is open; otherwise moves the
/// selection to its parent: the task to select instead, if any. The set of
/// open tasks holds each task once.
pub fn collapse_selected_task(selected: Option<&Task>, expanded: &mut Vec<TaskId>) -> (r: Option<TaskId>)
    requires
        crate::references::no_duplicates(old(expanded)@),
    ensures
        crate::references::no_duplicates(final(expanded)@),
        match selected {
            None => r is None && final(expanded)@ == old(expanded)@,
            Some(t) => if old(expanded)@.contains(t.id) {
                r is None && final(expanded)@.to_set() == old(expanded)@.to_set().remove(t.id)
            } else {
                r == t.parent_task_id && final(expanded)@ == old(expanded)@
            },
        },
{
    let task = match selected {
        Some(t) => t,
        None => {
            return None;
        },
    };
    let mut k: usize = 0;
    while k < expanded.len()
        invariant
            k <= expanded.len(),
            expanded@ == old(expanded)@,
            crate::references::no_duplicates(expanded@),
            selected == Some(task),
            forall|j: int| 0 <= j < k ==> expanded@[j] != task.id,
        decreases expanded.len() - k,
    {
        if expanded[k] == task.id {
            let ghost before = expanded@;
            expanded.remove(k);
            proof {
                assert forall|x: TaskId| #[trigger] expanded@.to_set().contains(x) == before.to_set().remove(task.id).contains(x) by {
                    if x == task.id {
                        if expanded@.contains(x) {
                            let j = choose|j: int| 0 <= j < expanded@.len() && expanded@[j] == x;
                            if j < k {
                                assert(before[j] == x);
                            } else {
                                assert(before[j + 1] == x);
                                assert(before[k as int] == x);
                            }
                        }
                    } else {
                        if before.contains(x) {
                            let j = choose|j: int| 0 <= j < before.len() && before[j] == x;
                            if j < k {
                                assert(expanded@[j] == x);
                            } else {
                                assert(j != k);
                                assert(expanded@[j - 1] == x);
                            }
                        }
                        if expanded@.contains(x) {
                            let j = choose|j: int| 0 <= j < expanded@.len() && expanded@[j] == x;
                            if j < k {
                                assert(before[j] == x);
                            } else {
                                assert(before[j + 1] == x);
                            }
                        }
                    }
                }
                assert(expanded@.to_set() =~= before.to_set().remove(task.id));
                assert forall|a: int, b: int| 0 <= a < b < expanded@.len() implies expanded@[a] != expanded@[b] by {
                    let a2 = if a < k { a } else { a + 1 };
                    let b2 = if b < k { b } else { b + 1 };
                    assert(expanded@[a] == before[a2]);
                    assert(expanded@[b] == before[b2]);
                }
            }
            return None;
        }
        k += 1;
    }
    task.parent_task_id
}

/// What toggling the selected task asks of the store: its new status and
/// completion time, and, where an occurrence is to follow (see
/// `successor_due_spec`), a new task with the same title and project that
/// falls due then, under the same parent.
#[derive(Debug, Clone, PartialEq, Eq)]
pub struct StatusToggle {
    pub task_id: TaskId,
    pub status: TaskStatus,
    pub completed_at: Option<i64>,
    pub successor_due: Option<TaskDue>,
    pub successor_parent: Option<TaskId>,
}

/// Toggles the selected task (none where nothing is selected): its status
/// and stamp (see `toggle_spec`) and the occurrence to create; the next due
/// date of a recurring task is worked out elsewhere and given.
pub fn toggle_selected_task_status(
    data: &ScreenData,
    selected: Option<&Task>,
    now: i64,
    next_due: Option<TaskDue>,
) -> (r: Option<StatusToggle>)
    ensures
        match selected {
            None => r is None,
            Some(task) => r matches Some(t) && {
                &&& t.task_id == task.id
                &&& (t.status, t.completed_at) == toggle_spec(task.status, now)
                &&& t.successor_due == successor_due_spec(data.tasks@, *task, t.status, next_due)
                &&& t.successor_parent == task.parent_task_id
            },
        },
{
    let task = selected?;
    let (status, completed_at) = toggled_status(task.status, now);
    let successor_due = recurring_successor_due(data, task, status, next_due);
    Some(StatusToggle { task_id: task.id, status, completed_at, successor_due, successor_parent: task.parent_task_id })
}

/// The task the focus timer follows once `completed` is done and `next`
/// follows it: the new occurrence where it followed the completed task.
pub fn focus_after_completion(active_focus: Option<TaskId>, completed: TaskId, next: TaskId) -> (r: Option<TaskId>)
    ensures
        r == (if active_focus == Some(completed) {
            Some(next)
        } else {
            active_focus
        }),
{
    if active_focus == Some(completed) {
        Some(next)
    } else {
        active_focus
    }
}

} // verus!
