//! The history panel and the task details: which focus session of today is
//! selected, the task it worked on, the task assigned to the timer, the
//! tasks a search offers, and how far the details are scrolled.
use vstd::prelude::*;

use crate::app::{
    fuzzy_match_spec, fuzzy_matches, HistoryPanelTab, ScreenData, SessionNoteEditorView, TaskSearchResultView,
    TaskSearchView,
};
use crate::text::{chars_of, slice_chars, string_from, string_of};
use crate::text_area::{TextArea, TextAreaModel};
use crate::app::{PanelFocus, SessionNoteViewerView};
use crate::task_editor::without_trailing_newlines;
use crate::domain::{SessionEntry, SessionKind, Task, TaskId};
use crate::listing::{task_active, task_is_active};
use crate::references::task_with_id;

verus! {

/// The places of the focus sessions among the first `upto` entries, in
/// order.
pub open spec fn focus_places(entries: Seq<SessionEntry>, upto: int) -> Seq<usize>
    decreases upto,
{
    if upto <= 0 {
        Seq::empty()
    } else {
        let rest = focus_places(entries, upto - 1);
        if entries[upto - 1].kind == SessionKind::Focus {
            rest.push((upto - 1) as usize)
        } else {
            rest
        }
    }
}

pub proof fn lemma_focus_places(entries: Seq<SessionEntry>, upto: int)
    requires
        0 <= upto <= entries.len(),
    ensures
        focus_places(entries, upto).len() <= upto,
        forall|k: int|
            0 <= k < focus_places(entries, upto).len() ==> #[trigger] focus_places(entries, upto)[k] < upto,
    decreases upto,
{
    if upto > 0 {
        lemma_focus_places(entries, upto - 1);
    }
}

/// How far the list of focus sessions scrolls: one less than their number,
/// and zero where there are none.
pub fn max_history_scroll(entries: &[SessionEntry]) -> (r: usize)
    ensures
        r == (if focus_places(entries@, entries@.len() as int).len() > 0 {
            focus_places(entries@, entries@.len() as int).len() - 1
        } else {
            0
        }),
{
    let mut count: usize = 0;
    let mut i: usize = 0;
    while i < entries.len()
        invariant
            i <= entries.len(),
            count == focus_places(entries@, i as int).len(),
            count <= i,
        decreases entries.len() - i,
    {
        if entries[i].kind == SessionKind::Focus {
            count += 1;
        }
        i += 1;
    }
    count.saturating_sub(1)
}

/// The focus session the history panel selects: the one at `scroll` among
/// today's focus sessions, as a place among the entries; none on the other
/// tab.
pub open spec fn selected_focus_spec(entries: Seq<SessionEntry>, tab: HistoryPanelTab, scroll: int) -> Option<usize> {
    let places = focus_places(entries, entries.len() as int);
    if tab != HistoryPanelTab::Today || scroll >= places.len() {
        None
    } else {
        Some(places[scroll])
    }
}

/// The focus session the history panel selects, as a place among the
/// entries (see `selected_focus_spec`).
pub fn selected_history_focus_entry(entries: &[SessionEntry], tab: HistoryPanelTab, scroll: usize) -> (r: Option<usize>)
    ensures
        r == selected_focus_spec(entries@, tab, scroll as int),
        r matches Some(i) ==> i < entries@.len() && entries@[i as int].kind == SessionKind::Focus,
{
    proof {
        lemma_focus_places(entries@, entries@.len() as int);
    }
    if tab != HistoryPanelTab::Today {
        return None;
    }
    let mut seen: usize = 0;
    let mut i: usize = 0;
    while i < entries.len()
        invariant
            i <= entries.len(),
            seen == focus_places(entries@, i as int).len(),
            seen <= scroll,
            tab == HistoryPanelTab::Today,
            focus_places(entries@, i as int) == focus_places(entries@, entries@.len() as int).take(
                seen as int,
            ),
        decreases entries.len() - i,
    {
        if entries[i].kind == SessionKind::Focus {
            if seen == scroll {
                proof {
                    lemma_focus_prefix(entries@, i + 1, entries@.len() as int);
                    let p = focus_places(entries@, i + 1);
                    assert(p == focus_places(entries@, i as int).push(i as usize));
                    let places = focus_places(entries@, entries@.len() as int);
                    assert(p[seen as int] == i);
                    assert(places.take(p.len() as int)[seen as int] == places[seen as int]);
                }
                return Some(i);
            }
            seen += 1;
        }
        proof {
            lemma_focus_prefix(entries@, i + 1, entries@.len() as int);
        }
        i += 1;
    }
    None
}

/// The focus places among the first `a` entries begin those among the first
/// `b`.
pub proof fn lemma_focus_prefix(entries: Seq<SessionEntry>, a: int, b: int)
    requires
        0 <= a <= b <= entries.len(),
    ensures
        focus_places(entries, a) == focus_places(entries, b).take(focus_places(entries, a).len() as int),
        focus_places(entries, a).len() <= focus_places(entries, b).len(),
    decreases b - a,
{
    if a < b {
        lemma_focus_prefix(entries, a, b - 1);
        let pb = focus_places(entries, b - 1);
        let pa = focus_places(entries, a);
        if entries[b - 1].kind == SessionKind::Focus {
            assert(pb.push((b - 1) as usize).take(pa.len() as int) =~= pb.take(pa.len() as int));
        }
    } else {
        assert(focus_places(entries, b).take(focus_places(entries, b).len() as int) =~= focus_places(entries, b));
    }
}

fn task_place(tasks: &[Task], id: TaskId) -> (r: Option<usize>)
    ensures
        match r {
            Some(i) => i < tasks@.len() && task_with_id(tasks@, id) == Some(tasks@[i as int]),
            None => task_with_id(tasks@, id) is None,
        },
{
    let mut i: usize = 0;
    assert(tasks@.skip(0) =~= tasks@);
    while i < tasks.len()
        invariant
            i <= tasks.len(),
            task_with_id(tasks@, id) == task_with_id(tasks@.skip(i as int), id),
        decreases tasks.len() - i,
    {
        assert(tasks@.skip(i as int).drop_first() =~= tasks@.skip(i + 1));
        if tasks[i].id == id {
            return Some(i);
        }
        i += 1;
    }
    None
}

/// The task of the focus session the history panel selects.
pub fn selected_history_task(data: &ScreenData, tab: HistoryPanelTab, scroll: usize) -> (r: Option<usize>)
    ensures
        match r {
            Some(i) => i < data.tasks@.len() && (selected_focus_spec(data.history_entries@, tab, scroll as int) matches Some(e)
                && data.history_entries@[e as int].task_id matches Some(id) && task_with_id(data.tasks@, id) == Some(
                data.tasks@[i as int],
            )),
            None => !(selected_focus_spec(data.history_entries@, tab, scroll as int) matches Some(e)
                && data.history_entries@[e as int].task_id matches Some(id) && task_with_id(data.tasks@, id) is Some),
        },
{
    let entry = match selected_history_focus_entry(data.history_entries.as_slice(), tab, scroll) {
        Some(e) => e,
        None => {
            return None;
        },
    };
    let task_id = match data.history_entries[entry].task_id {
        Some(id) => id,
        None => {
            return None;
        },
    };
    task_place(data.tasks.as_slice(), task_id)
}

/// The task assigned to the timer, where it exists.
pub fn assigned_task(data: &ScreenData, assigned_task_id: Option<TaskId>) -> (r: Option<usize>)
    ensures
        match r {
            Some(i) => i < data.tasks@.len() && (assigned_task_id matches Some(id) && task_with_id(data.tasks@, id)
                == Some(data.tasks@[i as int])),
            None => !(assigned_task_id matches Some(id) && task_with_id(data.tasks@, id) is Some),
        },
{
    match assigned_task_id {
        Some(id) => task_place(data.tasks.as_slice(), id),
        None => None,
    }
}

/// The places of the tasks that count and whose titles the query fuzzily
/// matches, among the first `upto`, in order.
pub open spec fn searchable_places(data: ScreenData, query: Seq<char>, upto: int) -> Seq<usize>
    decreases upto,
{
    if upto <= 0 {
        Seq::empty()
    } else {
        let rest = searchable_places(data, query, upto - 1);
        let t = data.tasks@[upto - 1];
        if task_active(t, data.projects@) && fuzzy_match_spec(query, t.title@) {
            rest.push((upto - 1) as usize)
        } else {
            rest
        }
    }
}

/// The tasks a task search offers, as places among the tasks: those that
/// count and whose titles the query fuzzily matches, in order.
pub fn searchable_tasks(data: &ScreenData, query: &str) -> (r: Vec<usize>)
    ensures
        r@ == searchable_places(*data, query@, data.tasks@.len() as int),
{
    let mut r: Vec<usize> = Vec::new();
    let mut i: usize = 0;
    while i < data.tasks.len()
        invariant
            i <= data.tasks.len(),
            r@ == searchable_places(*data, query@, i as int),
        decreases data.tasks.len() - i,
    {
        if task_is_active(data.projects.as_slice(), &data.tasks[i]) && fuzzy_matches(query, data.tasks[i].title.as_str()) {
            r.push(i);
        }
        i += 1;
    }
    r
}

/// How far the task details scroll after a scroll by `amount` lines: back
/// to the top where no task is shown, else moved and kept between zero and
/// the largest offset.
pub fn scroll_task_details(scroll: usize, amount: isize, has_task: bool) -> (r: usize)
    ensures
        r == (if !has_task {
            0
        } else if amount < 0 {
            if scroll + amount < 0 {
                0
            } else {
                scroll + amount
            }
        } else if scroll + amount > usize::MAX {
            usize::MAX as int
        } else {
            scroll + amount
        }),
{
    if !has_task {
        return 0;
    }
    if amount < 0 {
        let back: usize = if amount == isize::MIN {
            (isize::MAX as usize) + 1
        } else {
            (-amount) as usize
        };
        scroll.saturating_sub(back)
    } else {
        scroll.saturating_add(amount as usize)
    }
}

/// What a task search assigns its choice to: the timer, or a session of
/// the history.
#[derive(Debug, Clone, Copy, PartialEq, Eq)]
pub enum TaskSearchMode {
    TimerAssignment,
    HistoryAssignment(i64),
}

/// A task search being typed: its purpose, the query and its cursor, and
/// the highlighted result.
#[derive(Debug, Clone, PartialEq, Eq)]
pub struct TaskSearchState {
    pub mode: TaskSearchMode,
    pub query: String,
    pub cursor: usize,
    pub selected_index: usize,
}

/// What the task search popup shows: a title by purpose, the query, and the
/// tasks it offers with their identifiers and titles.
pub fn task_search_view(data: &ScreenData, search: &TaskSearchState) -> (r: TaskSearchView)
    ensures
        r.title@ == match search.mode {
            TaskSearchMode::TimerAssignment => "Assign Task"@,
            TaskSearchMode::HistoryAssignment(_) => "Assign Session Task"@,
        },
        r.query@ == search.query@,
        r.cursor == search.cursor,
        r.selected_index == search.selected_index,
        r.results@.len() == searchable_places(*data, search.query@, data.tasks@.len() as int).len(),
        forall|k: int|
            0 <= k < r.results@.len() ==> {
                let t = data.tasks@[searchable_places(*data, search.query@, data.tasks@.len() as int)[k] as int];
                #[trigger] r.results@[k].task_id == t.id && r.results@[k].title@ == t.title@
            },
{
    let places = searchable_tasks(data, search.query.as_str());
    proof {
        lemma_searchable_places(*data, search.query@, data.tasks@.len() as int);
    }
    let mut results: Vec<TaskSearchResultView> = Vec::new();
    let mut k: usize = 0;
    while k < places.len()
        invariant
            k <= places.len(),
            places@ == searchable_places(*data, search.query@, data.tasks@.len() as int),
            forall|j: int| 0 <= j < places@.len() ==> #[trigger] places@[j] < data.tasks@.len(),
            results@.len() == k,
            forall|j: int|
                0 <= j < k ==> {
                    let t = data.tasks@[places@[j] as int];
                    #[trigger] results@[j].task_id == t.id && results@[j].title@ == t.title@
                },
        decreases places.len() - k,
    {
        let task = &data.tasks[places[k]];
        results.push(TaskSearchResultView { task_id: task.id, title: string_of(task.title.as_str()) });
        k += 1;
    }
    TaskSearchView {
        title: match search.mode {
            TaskSearchMode::TimerAssignment => "Assign Task",
            TaskSearchMode::HistoryAssignment(_) => "Assign Session Task",
        },
        query: string_of(search.query.as_str()),
        cursor: search.cursor,
        selected_index: search.selected_index,
        results,
    }
}

pub proof fn lemma_searchable_places(data: ScreenData, query: Seq<char>, upto: int)
    requires
        0 <= upto <= data.tasks@.len(),
    ensures
        forall|k: int|
            0 <= k < searchable_places(data, query, upto).len() ==> #[trigger] searchable_places(data, query, upto)[k]
                < upto,
    decreases upto,
{
    if upto > 0 {
        lemma_searchable_places(data, query, upto - 1);
        let rest = searchable_places(data, query, upto - 1);
        let t = data.tasks@[upto - 1];
        if task_active(t, data.projects@) && fuzzy_match_spec(query, t.title@) {
            assert(searchable_places(data, query, upto) == rest.push((upto - 1) as usize));
            assert forall|k: int| 0 <= k < rest.len() + 1 implies #[trigger] rest.push((upto - 1) as usize)[k] < upto by {
                if k < rest.len() {
                    assert(rest.push((upto - 1) as usize)[k] == rest[k]);
                }
            }
        }
    }
}

/// Whose note the note editor edits: the focus session about to be
/// recorded, or a session of the history.
#[derive(Debug, Clone, Copy, PartialEq, Eq)]
pub enum SessionNoteTarget {
    PendingFocus,
    HistoryEntry(i64),
}

/// What the note editor shows: a title by whose note it is, the text, the
/// cursor and the scroll offset.
pub fn session_note_editor_view(target: SessionNoteTarget, area: &TextArea) -> (r: SessionNoteEditorView)
    ensures
        r.title@ == match target {
            SessionNoteTarget::PendingFocus => "Edit Focus Note"@,
            SessionNoteTarget::HistoryEntry(_) => "Edit Session Note"@,
        },
        r.value@ == area.value@,
        r.cursor == area.cursor,
        r.scroll == area.scroll,
{
    SessionNoteEditorView {
        title: match target {
            SessionNoteTarget::PendingFocus => "Edit Focus Note",
            SessionNoteTarget::HistoryEntry(_) => "Edit Session Note",
        },
        value: crate::text::string_from(area.value.as_slice()),
        cursor: area.cursor,
        scroll: area.scroll,
    }
}

/// What the note keys act on: the note of the focus session about to be
/// recorded from the timer panel, the note of the selected focus session of
/// today's history from the history panel, and nothing elsewhere (or where
/// the history selects no session).
pub open spec fn note_target(entries: Seq<SessionEntry>, focused: PanelFocus, tab: HistoryPanelTab, scroll: int) -> Option<SessionNoteTarget> {
    if focused == PanelFocus::Timer {
        Some(SessionNoteTarget::PendingFocus)
    } else if focused == PanelFocus::History {
        match selected_focus_spec(entries, tab, scroll) {
            Some(i) => Some(SessionNoteTarget::HistoryEntry(entries[i as int].id)),
            None => None,
        }
    } else {
        None
    }
}

/// The note the target holds now.
pub open spec fn target_note(entries: Seq<SessionEntry>, tab: HistoryPanelTab, scroll: int, pending: Seq<char>, target: SessionNoteTarget) -> Seq<char> {
    match target {
        SessionNoteTarget::PendingFocus => pending,
        SessionNoteTarget::HistoryEntry(_) => entries[selected_focus_spec(entries, tab, scroll)->0 as int].notes@,
    }
}

fn note_target_of(entries: &[SessionEntry], focused: PanelFocus, tab: HistoryPanelTab, scroll: usize) -> (r: Option<(SessionNoteTarget, Option<usize>)>)
    ensures
        match r {
            None => note_target(entries@, focused, tab, scroll as int) is None,
            Some((t, place)) => note_target(entries@, focused, tab, scroll as int) == Some(t) && match t {
                SessionNoteTarget::PendingFocus => place is None,
                SessionNoteTarget::HistoryEntry(_) => place == selected_focus_spec(entries@, tab, scroll as int)
                    && (place matches Some(i) && i < entries@.len()),
            },
        },
{
    if focused == PanelFocus::Timer {
        Some((SessionNoteTarget::PendingFocus, None))
    } else if focused == PanelFocus::History {
        match selected_history_focus_entry(entries, tab, scroll) {
            Some(i) => Some((SessionNoteTarget::HistoryEntry(entries[i].id), Some(i))),
            None => None,
        }
    } else {
        None
    }
}

/// Opens the note editor on the focused panel's note (see `note_target`):
/// its text, the cursor at the end, the view at the top.
pub fn open_note_editor_for_focused_panel(
    entries: &[SessionEntry],
    focused: PanelFocus,
    tab: HistoryPanelTab,
    scroll: usize,
    pending_note: &str,
) -> (r: Option<(SessionNoteTarget, TextArea)>)
    ensures
        match note_target(entries@, focused, tab, scroll as int) {
            None => r is None,
            Some(t) => r matches Some((rt, area)) && rt == t && area@ == (TextAreaModel {
                value: target_note(entries@, tab, scroll as int, pending_note@, t),
                cursor: target_note(entries@, tab, scroll as int, pending_note@, t).len(),
                scroll: 0,
            }),
        },
{
    let (target, place) = note_target_of(entries, focused, tab, scroll)?;
    let value = match place {
        Some(i) => chars_of(entries[i].notes.as_str()),
        None => chars_of(pending_note),
    };
    let cursor = value.len();
    Some((target, TextArea { value, cursor, scroll: 0 }))
}

/// Opens the note viewer on the focused panel's note (see `note_target`),
/// titled by whose note it is, at the top.
pub fn open_note_viewer_for_focused_panel(
    entries: &[SessionEntry],
    focused: PanelFocus,
    tab: HistoryPanelTab,
    scroll: usize,
    pending_note: &str,
) -> (r: Option<SessionNoteViewerView>)
    ensures
        match note_target(entries@, focused, tab, scroll as int) {
            None => r is None,
            Some(t) => r matches Some(v) && v.title@ == (match t {
                SessionNoteTarget::PendingFocus => "Focus Note"@,
                SessionNoteTarget::HistoryEntry(_) => "Session Note"@,
            }) && v.value@ == target_note(entries@, tab, scroll as int, pending_note@, t) && v.scroll == 0,
        },
{
    let (target, place) = note_target_of(entries, focused, tab, scroll)?;
    match place {
        Some(i) => Some(SessionNoteViewerView { title: "Session Note", value: string_of(entries[i].notes.as_str()), scroll: 0 }),
        None => Some(SessionNoteViewerView { title: "Focus Note", value: string_of(pending_note), scroll: 0 }),
    }
}

/// The note the clear key empties: that of the focused panel (see
/// `note_target`).
pub fn clear_note_for_focused_panel(
    entries: &[SessionEntry],
    focused: PanelFocus,
    tab: HistoryPanelTab,
    scroll: usize,
) -> (r: Option<SessionNoteTarget>)
    ensures
        r == note_target(entries@, focused, tab, scroll as int),
{
    match note_target_of(entries, focused, tab, scroll) {
        Some((t, _)) => Some(t),
        None => None,
    }
}

/// The note the editor saves: its text without the line breaks at its end,
/// for its target.
pub fn submit_session_note_editor(target: SessionNoteTarget, area: &TextArea) -> (r: (SessionNoteTarget, String))
    ensures
        r.0 == target,
        r.1@ == without_trailing_newlines(area.value@),
{
    let mut end: usize = area.value.len();
    assert(area.value@.take(end as int) =~= area.value@);
    while end > 0 && area.value[end - 1] == '\n'
        invariant
            end <= area.value.len(),
            without_trailing_newlines(area.value@.take(end as int)) == without_trailing_newlines(area.value@),
        decreases end,
    {
        assert(area.value@.take(end as int).drop_last() =~= area.value@.take(end - 1));
        end -= 1;
    }
    let kept = slice_chars(area.value.as_slice(), 0, end);
    assert(kept@ =~= area.value@.take(end as int));
    (target, string_from(kept.as_slice()))
}

/// The session whose task the clear key takes off: the focus session the
/// history panel selects, if any.
pub fn clear_selected_history_task(entries: &[SessionEntry], tab: HistoryPanelTab, scroll: usize) -> (r: Option<i64>)
    ensures
        r == match selected_focus_spec(entries@, tab, scroll as int) {
            Some(i) => Some(entries@[i as int].id),
            None => None,
        },
{
    match selected_history_focus_entry(entries, tab, scroll) {
        Some(i) => Some(entries[i].id),
        None => None,
    }
}

/// The task the timer is assigned after the assign key on the selected
/// task: none where that task was assigned, else it (nothing changes where
/// no task is selected).
pub fn toggle_selected_task_assignment(selected: Option<TaskId>, assigned: Option<TaskId>) -> (r: Option<TaskId>)
    ensures
        r == match selected {
            None => assigned,
            Some(id) => if assigned == Some(id) {
                None
            } else {
                Some(id)
            },
        },
{
    match selected {
        None => assigned,
        Some(id) => if assigned == Some(id) {
            None
        } else {
            Some(id)
        },
    }
}

} // verus!
