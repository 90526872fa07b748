//! The full task editor: nine fields, each a line of text with a cursor but
//! the description, which spans lines and scrolls, the project and parent
//! the fields name, and the date picker. Positions are counted in
//! characters.
//!
//! Reading a due date out of words ("tomorrow at 9") is done elsewhere; the
//! functions here that need such a reading take it as an argument, with the
//! date and time already written out as text.
use vstd::prelude::*;

use crate::app::{
    CalendarPickerView, ScreenData, TaskDuePreviewView, TaskEditorField, TaskEditorFocusView,
    TaskEditorView,
};
use crate::previews::{editor_preview_plan, lines_show, task_editor_preview_panel, task_editor_tip};
use crate::project_editor::{first_four_names, names_of_first_four};
use crate::references::{
    active_priority_query, active_priority_query_spec, active_project_query,
    active_project_query_spec, active_tag_field_query, active_tag_query, active_tag_query_spec,
    parent_task_base, parent_task_suggestions, parent_task_suggestions_spec, project_suggestions,
    parent_task_resolution, ranked_projects, resolve_parent_task_input, tag_suggestions,
    tag_suggestions_spec, task_chain_ends,
};
use crate::task_input::{
    accept_priority_word, accept_project_word, accept_tag_word, first_four, first_four_tag_names,
    first_four_words, highlighted, highlighted_index, priority_accept_spec, project_word_accept,
    replace_range, splice, tag_names_of_first_four, tag_word_accept, TagTokenStep,
};
use crate::filters::strs_view;
use crate::text::{
    ascii_lower_seq, eq_ignore_ascii_case, eq_ignore_case, string_from, string_of, trim_chars, trim_spec,
};
use crate::title_tokens::{
    last_priority, last_priority_token, parse_priority_input, priority_input_spec,
    priority_suggestions, priority_suggestions_spec, words,
};
use crate::config::{joined_with, TagSortOrder};
use crate::domain::{
    CalendarDate, ProjectId, Tag, TagId, Task, TaskDue, TaskId, TaskPriority,
    TaskUpdate,
};
use crate::listing::tasks_for_tag_filter;
use crate::previews::DuePreviewText;
use crate::project_editor::{project_name, project_name_of};
use crate::project_tree::ProjectCountScope;
use crate::references::{
    contains_string, field_queries_from, parse_tags_field_queries, project_resolution, push_new,
    resolve_project_input, strings_view, task_by_id, task_with_id,
};
use crate::task_input::{draft_spec, task_input_draft, TaskDraft};
use crate::side_lists::{name_item_key, tag_count_of, tag_sort_key};
use crate::sorting::{key_view, keys_view, pick, stable_order_spec};
use crate::task_order::arrange;
use crate::text::{chars_of, concat_chars, slice_chars};
use crate::text_area::{
    area_wf, delete_session_note_char_at_cursor, delete_session_note_char_before_cursor,
    insert_session_note_char, line_end_spec, line_start_spec, move_session_note_cursor_end,
    move_session_note_cursor_home, move_session_note_cursor_left, move_session_note_cursor_right,
    move_session_note_cursor_vertical, scrolled, sync_session_note_scroll, vertical_target,
    TextArea, TextAreaModel, DESCRIPTION_VIEWPORT_LINES,
};
use crate::references::{extract_project_reference_for_title_cleanup, project_reference_split};
use crate::title_tokens::{extract_priority_reference, non_priority_words};
use crate::text::{chars_eq, is_white_space};
use crate::references::{has_exact_tag_name, tag_query_name};
use crate::calendar::{
    date_after_days, date_minus_months, date_plus_months, date_text, days_added_day, first_day_of_month,
    iso_date_reading, iso_date_text, month_start_day, months_added_day, months_subtracted_day,
    parse_iso_date,
};

verus! {

/// A line of text being typed and the place of the cursor in it.
#[derive(Debug, Clone, PartialEq, Eq)]
pub struct LineInput {
    pub value: Vec<char>,
    pub cursor: usize,
}

/// The text of a line and its cursor.
pub struct LineModel {
    pub value: Seq<char>,
    pub cursor: nat,
}

impl View for LineInput {
    type V = LineModel;

    open spec fn view(&self) -> LineModel {
        LineModel { value: self.value@, cursor: self.cursor as nat }
    }
}

/// A line holding the given text, the cursor at its end.
pub open spec fn line_at_end(v: Seq<char>) -> LineModel {
    LineModel { value: v, cursor: v.len() }
}

/// The month the date picker shows and the day picked in it.
#[derive(Debug, Clone, Copy, PartialEq, Eq, Structural)]
pub struct CalendarState {
    pub display_date: CalendarDate,
    pub selected_date: CalendarDate,
}

/// What the task editor holds: the task edited (none for a new one), its
/// fields, the project and parent they name, the highlighted suggestion,
/// the due date in words where one was read, whether the due fields were
/// filled from the title, the focused field and the date picker if open.
#[derive(Debug, Clone, PartialEq, Eq)]
pub struct TaskEditorState {
    pub task_id: Option<TaskId>,
    pub title: LineInput,
    pub description: TextArea,
    pub project: LineInput,
    pub project_id: ProjectId,
    pub tags: LineInput,
    pub suggestion_index: usize,
    pub due_date: LineInput,
    pub priority: LineInput,
    pub due_time: LineInput,
    pub recurrence: LineInput,
    pub parent: LineInput,
    pub parent_task_id: Option<TaskId>,
    pub due_natural: Vec<char>,
    pub due_from_title: bool,
    pub focused_field: TaskEditorField,
    pub calendar: Option<CalendarState>,
}

/// The task editor as values.
pub struct TaskEditorModel {
    pub task_id: Option<TaskId>,
    pub title: LineModel,
    pub description: TextAreaModel,
    pub project: LineModel,
    pub project_id: ProjectId,
    pub tags: LineModel,
    pub suggestion_index: nat,
    pub due_date: LineModel,
    pub priority: LineModel,
    pub due_time: LineModel,
    pub recurrence: LineModel,
    pub parent: LineModel,
    pub parent_task_id: Option<TaskId>,
    pub due_natural: Seq<char>,
    pub due_from_title: bool,
    pub focused_field: TaskEditorField,
    pub calendar: Option<CalendarState>,
}

impl View for TaskEditorState {
    type V = TaskEditorModel;

    open spec fn view(&self) -> TaskEditorModel {
        TaskEditorModel {
            task_id: self.task_id,
            title: self.title@,
            description: self.description@,
            project: self.project@,
            project_id: self.project_id,
            tags: self.tags@,
            suggestion_index: self.suggestion_index as nat,
            due_date: self.due_date@,
            priority: self.priority@,
            due_time: self.due_time@,
            recurrence: self.recurrence@,
            parent: self.parent@,
            parent_task_id: self.parent_task_id,
            due_natural: self.due_natural@,
            due_from_title: self.due_from_title,
            focused_field: self.focused_field,
            calendar: self.calendar,
        }
    }
}

fn line_with(value: Vec<char>) -> (r: LineInput)
    ensures
        r@ == line_at_end(value@),
{
    let cursor = value.len();
    LineInput { value, cursor }
}

fn empty_line() -> (r: LineInput)
    ensures
        r@ == line_at_end(Seq::empty()),
{
    line_with(Vec::new())
}

/// The priority field's text for a priority: `p` and its level.
pub open spec fn priority_word(p: TaskPriority) -> Seq<char> {
    match p {
        TaskPriority::P1 => "p1"@,
        TaskPriority::P2 => "p2"@,
        TaskPriority::P3 => "p3"@,
        TaskPriority::P4 => "p4"@,
    }
}

fn priority_word_of(p: TaskPriority) -> (r: Vec<char>)
    ensures
        r@ == priority_word(p),
{
    match p {
        TaskPriority::P1 => chars_of("p1"),
        TaskPriority::P2 => chars_of("p2"),
        TaskPriority::P3 => chars_of("p3"),
        TaskPriority::P4 => chars_of("p4"),
    }
}

/// The name of a project, `Inbox` where it is not found.
pub open spec fn project_label(data: ScreenData, id: ProjectId) -> Seq<char> {
    match project_name_of(data.projects@, id) {
        Some(n) => n,
        None => "Inbox"@,
    }
}

fn project_label_of(data: &ScreenData, id: ProjectId) -> (r: Vec<char>)
    ensures
        r@ == project_label(*data, id),
{
    match project_name(data, id) {
        Some(n) => n,
        None => chars_of("Inbox"),
    }
}

/// Names written as `@name`, joined by single spaces.
pub open spec fn at_words(names: Seq<Seq<char>>) -> Seq<char> {
    joined_with(Seq::new(names.len(), |k: int| seq!['@'] + names[k]), seq![' '])
}

fn at_words_of(names: &Vec<Vec<char>>) -> (r: Vec<char>)
    ensures
        r@ == at_words(Seq::new(names@.len(), |k: int| names@[k]@)),
{
    let ghost ns = Seq::new(names@.len(), |k: int| names@[k]@);
    let ghost ws = Seq::new(ns.len(), |k: int| seq!['@'] + ns[k]);
    let mut out: Vec<char> = Vec::new();
    let mut i: usize = 0;
    assert(ws.take(0) =~= Seq::<Seq<char>>::empty());
    while i < names.len()
        invariant
            i <= names.len(),
            ns == Seq::new(names@.len(), |k: int| names@[k]@),
            ws == Seq::new(ns.len(), |k: int| seq!['@'] + ns[k]),
            out@ == joined_with(ws.take(i as int), seq![' ']),
        decreases names.len() - i,
    {
        let ghost before = out@;
        if i > 0 {
            out.push(' ');
        }
        out.push('@');
        let joined = concat_chars(out.as_slice(), names[i].as_slice());
        out = joined;
        proof {
            let next = ws.take(i + 1);
            assert(next.drop_last() =~= ws.take(i as int));
            assert(next.last() == ws[i as int]);
            assert(ws[i as int] =~= seq!['@'] + names@[i as int]@);
            if i == 0 {
                assert(out@ =~= ws[0]);
            } else {
                assert(out@ =~= before + seq![' '] + ws[i as int]);
            }
        }
        i += 1;
    }
    assert(ws.take(names.len() as int) =~= ws);
    out
}

/// The first place at or after `i` of a tag with the given identifier.
pub open spec fn first_tag_place(tags: Seq<Tag>, id: TagId, i: int) -> Option<int>
    decreases tags.len() - i,
{
    if i < 0 || i >= tags.len() {
        None
    } else if tags[i].id == id {
        Some(i)
    } else {
        first_tag_place(tags, id, i + 1)
    }
}

pub proof fn lemma_first_tag_place(tags: Seq<Tag>, id: TagId, i: int)
    requires
        0 <= i,
    ensures
        first_tag_place(tags, id, i) matches Some(k) ==> i <= k < tags.len() && tags[k].id == id,
    decreases tags.len() - i,
{
    if i < tags.len() {
        lemma_first_tag_place(tags, id, i + 1);
    }
}

fn tag_place(tags: &[Tag], id: TagId) -> (r: Option<usize>)
    ensures
        match r {
            Some(k) => first_tag_place(tags@, id, 0) == Some(k as int),
            None => first_tag_place(tags@, id, 0) is None,
        },
{
    let mut i: usize = 0;
    while i < tags.len()
        invariant
            i <= tags.len(),
            first_tag_place(tags@, id, 0) == first_tag_place(tags@, id, i as int),
        decreases tags.len() - i,
    {
        if tags[i].id == id {
            return Some(i);
        }
        i += 1;
    }
    None
}

/// The places of the tags linked to a task among its first `n` links, in
/// the order of the links: for each link the first tag with its
/// identifier, where there is one and it is not deleted.
pub open spec fn task_tag_places(data: ScreenData, task_id: TaskId, n: int) -> Seq<usize>
    decreases n,
{
    if n <= 0 || n > data.task_tag_links@.len() {
        Seq::empty()
    } else {
        let rest = task_tag_places(data, task_id, n - 1);
        let link = data.task_tag_links@[n - 1];
        if link.0 != task_id {
            rest
        } else {
            match first_tag_place(data.tags@, link.1, 0) {
                Some(p) => if data.tags@[p].deleted_at is None {
                    rest.push(p as usize)
                } else {
                    rest
                },
                None => rest,
            }
        }
    }
}

proof fn lemma_task_tag_places_bounded(data: ScreenData, task_id: TaskId, n: int)
    ensures
        forall|k: int|
            0 <= k < task_tag_places(data, task_id, n).len() ==> #[trigger] task_tag_places(
                data,
                task_id,
                n,
            )[k] < data.tags@.len(),
    decreases n,
{
    if n > 0 && n <= data.task_tag_links@.len() {
        lemma_task_tag_places_bounded(data, task_id, n - 1);
        lemma_first_tag_place(data.tags@, data.task_tag_links@[n - 1].1, 0);
        let rest = task_tag_places(data, task_id, n - 1);
        let all = task_tag_places(data, task_id, n);
        assert forall|k: int| 0 <= k < all.len() implies #[trigger] all[k] < data.tags@.len() by {
            if k < rest.len() {
                assert(all[k] == rest[k]);
            }
        }
    }
}

/// The tags of a task, as places in the tag list, in the order of the tag
/// sort order.
pub open spec fn task_tags_spec(
    data: ScreenData,
    task_id: TaskId,
    order: TagSortOrder,
    scope: ProjectCountScope,
) -> Seq<usize> {
    let places = task_tag_places(data, task_id, data.task_tag_links@.len() as int);
    pick(
        places,
        stable_order_spec(
            Seq::new(
                places.len(),
                |k: int|
                    tag_sort_key(
                        order,
                        data.tags@[places[k] as int],
                        tag_count_of(data, Some(data.tags@[places[k] as int].id), scope),
                    ),
            ),
            places.len(),
        ),
    )
}

/// The tags linked to a task that exist and are not deleted, as places in
/// the tag list, in the order of the tag sort order (ties keep the order of
/// the links).
pub fn task_tags(data: &ScreenData, task_id: TaskId, order: TagSortOrder, scope: &ProjectCountScope) -> (r: Vec<usize>)
    ensures
        r@ == task_tags_spec(*data, task_id, order, *scope),
        forall|k: int| 0 <= k < r@.len() ==> #[trigger] r@[k] < data.tags@.len(),
{
    let ghost tags = data.tags@;
    let mut listed: Vec<usize> = Vec::new();
    let mut keys: Vec<Vec<i128>> = Vec::new();
    let mut i: usize = 0;
    while i < data.task_tag_links.len()
        invariant
            i <= data.task_tag_links.len(),
            tags == data.tags@,
            listed@ == task_tag_places(*data, task_id, i as int),
            keys@.len() == listed@.len(),
            keys_view(keys@) == Seq::new(
                listed@.len(),
                |k: int|
                    tag_sort_key(
                        order,
                        tags[listed@[k] as int],
                        tag_count_of(*data, Some(tags[listed@[k] as int].id), *scope),
                    ),
            ),
        decreases data.task_tag_links.len() - i,
    {
        let (linked_task, tag_id) = data.task_tag_links[i];
        if linked_task == task_id {
            match tag_place(data.tags.as_slice(), tag_id) {
                Some(p) => {
                    proof {
                        lemma_first_tag_place(tags, tag_id, 0);
                    }
                    let tag = &data.tags[p];
                    if tag.deleted_at.is_none() {
                        let count = tasks_for_tag_filter(
                            data,
                            Some(tag.id),
                            scope.view,
                            scope.today,
                            scope.hide_completed,
                        );
                        let key = name_item_key(
                            tag.item_order,
                            tag.name.as_str(),
                            tag.id.0,
                            count,
                            order == TagSortOrder::Manual,
                            order == TagSortOrder::NameDesc,
                            order == TagSortOrder::TaskCountAsc || order == TagSortOrder::TaskCountDesc,
                            order == TagSortOrder::TaskCountDesc,
                        );
                        assert(key_view(key@) =~= tag_sort_key(order, *tag, count as nat));
                        let ghost new_key = key_view(key@);
                        let ghost before_keys = keys@;
                        let ghost before_listed = listed@;
                        listed.push(p);
                        keys.push(key);
                        proof {
                            let kn = keys_view(keys@);
                            let sk = Seq::new(
                                listed@.len(),
                                |k: int|
                                    tag_sort_key(
                                        order,
                                        tags[listed@[k] as int],
                                        tag_count_of(*data, Some(tags[listed@[k] as int].id), *scope),
                                    ),
                            );
                            assert forall|k: int| 0 <= k < kn.len() implies #[trigger] kn[k] == sk[k] by {
                                assert(kn[k] == key_view(keys@[k]@));
                                if k < before_keys.len() {
                                    assert(keys@[k] == before_keys[k]);
                                    assert(listed@[k] == before_listed[k]);
                                    assert(keys_view(before_keys)[k] == key_view(before_keys[k]@));
                                } else {
                                    assert(key_view(keys@[k]@) == new_key);
                                    assert(listed@[k] == p);
                                }
                            }
                            assert(kn =~= sk);
                        }
                    }
                },
                None => {},
            }
        }
        i += 1;
    }
    proof {
        lemma_task_tag_places_bounded(*data, task_id, data.task_tag_links@.len() as int);
    }
    let r = arrange(&listed, &keys);
    proof {
        let positions = stable_order_spec(keys_view(keys@), keys.len() as nat);
        assert forall|k: int| 0 <= k < r@.len() implies #[trigger] r@[k] < data.tags.len() by {
            assert(r@[k] == listed@[positions[k] as int]);
        }
    }
    r
}

/// A description holding the given text, the cursor at its end, the view
/// at its first line.
pub open spec fn area_at_end(v: Seq<char>) -> TextAreaModel {
    TextAreaModel { value: v, cursor: v.len(), scroll: 0 }
}

fn area_with(value: Vec<char>) -> (r: TextArea)
    ensures
        r@ == area_at_end(value@),
{
    let cursor = value.len();
    TextArea { value, cursor, scroll: 0 }
}

/// The due fields for a due date (or none) written out: the date, the
/// time (empty without one), the recurrence (its words where it recurs,
/// else empty) and its words.
pub open spec fn due_fields(due: Option<TaskDue>, text: DuePreviewText) -> (Seq<char>, Seq<char>, Seq<char>, Seq<char>) {
    match due {
        Some(d) => (
            text.date@,
            match text.time {
                Some(t) => t@,
                None => Seq::empty(),
            },
            if d.is_recurring {
                d.string@
            } else {
                Seq::empty()
            },
            d.string@,
        ),
        None => (Seq::empty(), Seq::empty(), Seq::empty(), Seq::empty()),
    }
}

fn due_fields_of(due: Option<&TaskDue>, text: &DuePreviewText) -> (r: (Vec<char>, Vec<char>, Vec<char>, Vec<char>))
    ensures
        (r.0@, r.1@, r.2@, r.3@) == due_fields(
            match due {
                Some(d) => Some(*d),
                None => None,
            },
            *text,
        ),
{
    match due {
        Some(d) => {
            let time = match &text.time {
                Some(t) => chars_of(t.as_str()),
                None => Vec::new(),
            };
            let recurrence = if d.is_recurring {
                chars_of(d.string.as_str())
            } else {
                Vec::new()
            };
            (chars_of(text.date.as_str()), time, recurrence, chars_of(d.string.as_str()))
        },
        None => (Vec::new(), Vec::new(), Vec::new(), Vec::new()),
    }
}

/// The editor for a new subtask: empty but for the parent's project (its
/// name, `Inbox` where it is not found), priority `p4` and the parent's
/// title; the title focused.
pub open spec fn child_editor(data: ScreenData, parent: Task) -> TaskEditorModel {
    TaskEditorModel {
        task_id: None,
        title: line_at_end(Seq::empty()),
        description: area_at_end(Seq::empty()),
        project: line_at_end(project_label(data, parent.project_id)),
        project_id: parent.project_id,
        tags: line_at_end(Seq::empty()),
        suggestion_index: 0,
        due_date: line_at_end(Seq::empty()),
        priority: line_at_end("p4"@),
        due_time: line_at_end(Seq::empty()),
        recurrence: line_at_end(Seq::empty()),
        parent: line_at_end(parent.title@),
        parent_task_id: Some(parent.id),
        due_natural: Seq::empty(),
        due_from_title: false,
        focused_field: TaskEditorField::Title,
        calendar: None,
    }
}

/// Opens the editor for a new subtask of the given (selected) task.
pub fn open_create_child_task_popup(data: &ScreenData, parent_task: &Task) -> (r: TaskEditorState)
    ensures
        r@ == child_editor(*data, *parent_task),
{
    TaskEditorState {
        task_id: None,
        title: empty_line(),
        description: area_with(Vec::new()),
        project: line_with(project_label_of(data, parent_task.project_id)),
        project_id: parent_task.project_id,
        tags: empty_line(),
        suggestion_index: 0,
        due_date: empty_line(),
        priority: line_with(chars_of("p4")),
        due_time: empty_line(),
        recurrence: empty_line(),
        parent: line_with(chars_of(parent_task.title.as_str())),
        parent_task_id: Some(parent_task.id),
        due_natural: Vec::new(),
        due_from_title: false,
        focused_field: TaskEditorField::Title,
        calendar: None,
    }
}

/// The tags field for a task: its tags (see `task_tags_spec`) as `@name`.
pub open spec fn task_tags_text(data: ScreenData, task_id: TaskId, order: TagSortOrder, scope: ProjectCountScope) -> Seq<char> {
    let places = task_tags_spec(data, task_id, order, scope);
    at_words(Seq::new(places.len(), |k: int| data.tags@[places[k] as int].name@))
}

/// The parent field for a task: the title of the first task with its
/// parent's identifier, empty where it has none or none is found.
pub open spec fn parent_title(data: ScreenData, t: Task) -> Seq<char> {
    match t.parent_task_id {
        Some(id) => match task_with_id(data.tasks@, id) {
            Some(p) => p.title@,
            None => Seq::empty(),
        },
        None => Seq::empty(),
    }
}

/// The editor for a task: its title, description, project (by name,
/// `Inbox` where not found), tags, due fields, priority and parent; the
/// title focused.
pub open spec fn edit_editor(
    data: ScreenData,
    t: Task,
    text: DuePreviewText,
    order: TagSortOrder,
    scope: ProjectCountScope,
) -> TaskEditorModel {
    let due = due_fields(t.due, text);
    TaskEditorModel {
        task_id: Some(t.id),
        title: line_at_end(t.title@),
        description: area_at_end(t.description@),
        project: line_at_end(project_label(data, t.project_id)),
        project_id: t.project_id,
        tags: line_at_end(task_tags_text(data, t.id, order, scope)),
        suggestion_index: 0,
        due_date: line_at_end(due.0),
        priority: line_at_end(priority_word(t.priority)),
        due_time: line_at_end(due.1),
        recurrence: line_at_end(due.2),
        parent: line_at_end(parent_title(data, t)),
        parent_task_id: t.parent_task_id,
        due_natural: due.3,
        due_from_title: false,
        focused_field: TaskEditorField::Title,
        calendar: None,
    }
}

fn tag_names_at(data: &ScreenData, places: &Vec<usize>) -> (r: Vec<Vec<char>>)
    requires
        forall|k: int| 0 <= k < places@.len() ==> #[trigger] places@[k] < data.tags@.len(),
    ensures
        Seq::new(r@.len(), |k: int| r@[k]@) == Seq::new(places@.len(), |k: int| data.tags@[places@[k] as int].name@),
{
    let mut r: Vec<Vec<char>> = Vec::new();
    let mut k: usize = 0;
    while k < places.len()
        invariant
            k <= places.len(),
            forall|j: int| 0 <= j < places@.len() ==> #[trigger] places@[j] < data.tags@.len(),
            r@.len() == k,
            forall|j: int| 0 <= j < k ==> #[trigger] r@[j]@ == data.tags@[places@[j] as int].name@,
        decreases places.len() - k,
    {
        r.push(chars_of(data.tags[places[k]].name.as_str()));
        k += 1;
    }
    assert(Seq::new(r@.len(), |k: int| r@[k]@) =~= Seq::new(places@.len(), |k: int| data.tags@[places@[k] as int].name@));
    r
}

/// Opens the editor on the given (selected) task. Its due date, where it
/// has one, is given written out; the time is written where the due date
/// has a moment.
pub fn open_edit_task_popup(
    data: &ScreenData,
    task: &Task,
    due_text: &DuePreviewText,
    tag_order: TagSortOrder,
    scope: &ProjectCountScope,
) -> (r: TaskEditorState)
    requires
        task.due matches Some(d) ==> (d.datetime is Some <==> due_text.time is Some),
    ensures
        r@ == edit_editor(*data, *task, *due_text, tag_order, *scope),
{
    let (due_date, due_time, recurrence, due_natural) = due_fields_of(
        match &task.due {
            Some(d) => Some(d),
            None => None,
        },
        due_text,
    );
    let parent = match task.parent_task_id {
        Some(id) => match task_by_id(data.tasks.as_slice(), id) {
            Some(p) => chars_of(p.title.as_str()),
            None => Vec::new(),
        },
        None => Vec::new(),
    };
    let places = task_tags(data, task.id, tag_order, scope);
    let names = tag_names_at(data, &places);
    let tags = at_words_of(&names);
    TaskEditorState {
        task_id: Some(task.id),
        title: line_with(chars_of(task.title.as_str())),
        description: area_with(chars_of(task.description.as_str())),
        project: line_with(project_label_of(data, task.project_id)),
        project_id: task.project_id,
        tags: line_with(tags),
        suggestion_index: 0,
        due_date: line_with(due_date),
        priority: line_with(priority_word_of(task.priority)),
        due_time: line_with(due_time),
        recurrence: line_with(recurrence),
        parent: line_with(parent),
        parent_task_id: task.parent_task_id,
        due_natural,
        due_from_title: false,
        focused_field: TaskEditorField::Title,
        calendar: None,
    }
}

/// The editor a quick-add text opens into: the title with its references
/// and due words taken out (given, as the due words are read elsewhere),
/// the draft's project (by name, `Inbox` where not found), tags as `@name`
/// and priority, and the due date read from the text, written out; the
/// title focused.
pub open spec fn full_add_editor(
    data: ScreenData,
    draft: TaskDraft,
    cleaned_title: Seq<char>,
    due: Option<TaskDue>,
    text: DuePreviewText,
) -> TaskEditorModel {
    let d = due_fields(due, text);
    TaskEditorModel {
        task_id: None,
        title: line_at_end(cleaned_title),
        description: area_at_end(Seq::empty()),
        project: line_at_end(project_label(data, draft.project_id)),
        project_id: draft.project_id,
        tags: line_at_end(at_words(strings_view(draft.tag_queries@))),
        suggestion_index: 0,
        due_date: line_at_end(d.0),
        priority: line_at_end(priority_word(draft.priority)),
        due_time: line_at_end(d.1),
        recurrence: line_at_end(d.2),
        parent: line_at_end(Seq::empty()),
        parent_task_id: None,
        due_natural: d.3,
        due_from_title: false,
        focused_field: TaskEditorField::Title,
        calendar: None,
    }
}

/// Opens the full editor from the quick-add popup's text, read into a
/// draft, with the title cleaned of its due words and the due date they
/// name (both read elsewhere).
pub fn open_full_add_task_popup_from_input(
    data: &ScreenData,
    draft: &TaskDraft,
    cleaned_title: &str,
    due: Option<&TaskDue>,
    due_text: &DuePreviewText,
) -> (r: TaskEditorState)
    requires
        due matches Some(d) ==> (d.datetime is Some <==> due_text.time is Some),
    ensures
        r@ == full_add_editor(
            *data,
            *draft,
            cleaned_title@,
            match due {
                Some(d) => Some(*d),
                None => None,
            },
            *due_text,
        ),
{
    let (due_date, due_time, recurrence, due_natural) = due_fields_of(due, due_text);
    let mut names: Vec<Vec<char>> = Vec::new();
    let mut k: usize = 0;
    while k < draft.tag_queries.len()
        invariant
            k <= draft.tag_queries.len(),
            names@.len() == k,
            forall|j: int| 0 <= j < k ==> #[trigger] names@[j]@ == draft.tag_queries@[j]@,
        decreases draft.tag_queries.len() - k,
    {
        names.push(chars_of(draft.tag_queries[k].as_str()));
        k += 1;
    }
    assert(Seq::new(names@.len(), |j: int| names@[j]@) =~= strings_view(draft.tag_queries@));
    let tags = at_words_of(&names);
    TaskEditorState {
        task_id: None,
        title: line_with(chars_of(cleaned_title)),
        description: area_with(Vec::new()),
        project: line_with(project_label_of(data, draft.project_id)),
        project_id: draft.project_id,
        tags: line_with(tags),
        suggestion_index: 0,
        due_date: line_with(due_date),
        priority: line_with(priority_word_of(draft.priority)),
        due_time: line_with(due_time),
        recurrence: line_with(recurrence),
        parent: empty_line(),
        parent_task_id: None,
        due_natural,
        due_from_title: false,
        focused_field: TaskEditorField::Title,
        calendar: None,
    }
}

/// The projects a project query suggests (none for a blank one).
pub open spec fn project_query_places(data: ScreenData, q: Seq<char>) -> Seq<usize> {
    if trim_spec(q).len() == 0 {
        Seq::empty()
    } else {
        ranked_projects(data.projects@, trim_spec(q), false, None)
    }
}

/// The project names the editor suggests: for the `#project` word the
/// cursor is typing in the title, or, in the project field, for its text
/// where it is not blank and not the current project's name (ASCII case
/// aside); at most four.
pub open spec fn editor_project_suggestions(data: ScreenData, e: TaskEditorModel) -> Seq<Seq<char>> {
    let in_title = if e.focused_field == TaskEditorField::Title {
        active_project_query_spec(data.projects@, e.title.value, e.title.cursor as int)
    } else {
        None
    };
    match in_title {
        Some((_s, _e, q)) => first_four_names(data.projects@, project_query_places(data, q)),
        None => if e.focused_field == TaskEditorField::Project && trim_spec(e.project.value).len() > 0
            && !eq_ignore_ascii_case(trim_spec(e.project.value), project_label(data, e.project_id)) {
            first_four_names(data.projects@, project_query_places(data, e.project.value))
        } else {
            Seq::empty()
        },
    }
}

/// The tag names the editor suggests: for the `@tag` word the cursor is
/// typing in the title, or in the tags field; at most four.
pub open spec fn editor_tag_suggestions(data: ScreenData, e: TaskEditorModel) -> Seq<Seq<char>> {
    let in_title = if e.focused_field == TaskEditorField::Title {
        active_tag_query_spec(e.title.value, e.title.cursor as int, false)
    } else {
        None
    };
    match in_title {
        Some((_s, _e, q)) => first_four_tag_names(data.tags@, tag_suggestions_spec(data.tags@, q)),
        None => if e.focused_field == TaskEditorField::Tags {
            match active_tag_query_spec(e.tags.value, e.tags.cursor as int, true) {
                Some((_s, _e, q)) => first_four_tag_names(data.tags@, tag_suggestions_spec(data.tags@, q)),
                None => Seq::empty(),
            }
        } else {
            Seq::empty()
        },
    }
}

/// The priority words the editor suggests: for the word the cursor is
/// typing in the title, or for the priority field's text; at most four.
pub open spec fn editor_priority_suggestions(e: TaskEditorModel) -> Seq<Seq<char>> {
    let in_title = if e.focused_field == TaskEditorField::Title {
        active_priority_query_spec(e.title.value, e.title.cursor as int)
    } else {
        None
    };
    match in_title {
        Some((_s, _e, q)) => first_four(priority_suggestions_spec(q)),
        None => if e.focused_field == TaskEditorField::Priority {
            first_four(priority_suggestions_spec(e.priority.value))
        } else {
            Seq::empty()
        },
    }
}

/// The titles of at most the first four tasks at the given places.
pub open spec fn first_four_titles(tasks: Seq<Task>, places: Seq<usize>) -> Seq<Seq<char>> {
    let shown = if places.len() > 4 {
        places.take(4)
    } else {
        places
    };
    Seq::new(shown.len(), |k: int| tasks[shown[k] as int].title@)
}

/// The parent titles the editor suggests while the parent field is
/// focused; at most four.
pub open spec fn editor_parent_suggestions(data: ScreenData, e: TaskEditorModel) -> Seq<Seq<char>> {
    if e.focused_field == TaskEditorField::Parent {
        first_four_titles(data.tasks@, parent_task_suggestions_spec(data, e.parent.value, e.task_id, e.project_id))
    } else {
        Seq::empty()
    }
}

/// The priority the editor would save: the last priority word of the
/// title, else the priority field's, else P4.
pub open spec fn editor_priority(e: TaskEditorModel) -> TaskPriority {
    match last_priority(words(e.title.value)) {
        Some(p) => p,
        None => match priority_input_spec(e.priority.value) {
            Some(p) => p,
            None => TaskPriority::P4,
        },
    }
}

/// Which field has the keyboard, one flag per field.
pub open spec fn focus_flags(f: TaskEditorField) -> TaskEditorFocusView {
    TaskEditorFocusView {
        title: f == TaskEditorField::Title,
        description: f == TaskEditorField::Description,
        project: f == TaskEditorField::Project,
        tags: f == TaskEditorField::Tags,
        due_date: f == TaskEditorField::DueDate,
        priority: f == TaskEditorField::Priority,
        due_time: f == TaskEditorField::DueTime,
        recurrence: f == TaskEditorField::Recurrence,
        parent: f == TaskEditorField::Parent,
    }
}

fn titles_of_first_four(data: &ScreenData, places: &Vec<usize>) -> (r: Vec<String>)
    requires
        forall|k: int| 0 <= k < places@.len() ==> #[trigger] places@[k] < data.tasks@.len(),
    ensures
        strings_view(r@) == first_four_titles(data.tasks@, places@),
{
    let n = if places.len() > 4 {
        4
    } else {
        places.len()
    };
    let mut r: Vec<String> = Vec::new();
    let mut k: usize = 0;
    while k < n
        invariant
            k <= n <= places.len(),
            n == (if places.len() > 4 {
                4
            } else {
                places.len()
            }),
            forall|j: int| 0 <= j < places@.len() ==> #[trigger] places@[j] < data.tasks@.len(),
            r@.len() == k,
            forall|j: int| 0 <= j < k ==> #[trigger] r@[j]@ == data.tasks@[places@[j] as int].title@,
        decreases n - k,
    {
        r.push(string_of(data.tasks[places[k]].title.as_str()));
        k += 1;
    }
    assert(strings_view(r@) =~= first_four_titles(data.tasks@, places@));
    r
}

fn highlighted_of(len: usize, index: usize) -> (r: usize)
    ensures
        r == highlighted(len as int, index as int),
{
    if len == 0 {
        0
    } else {
        highlighted_index(len, index)
    }
}

/// What the task editor shows: each field and its cursor, the suggestions
/// for the focused field (see the `editor_*_suggestions` functions) with
/// the highlighted one of each, which field is focused, the due date the
/// editor would save (given, as it is read elsewhere), the date picker, and
/// the preview panel over the project, tags, the priority it would save,
/// the due date and the parent.
pub fn task_editor_view(
    data: &ScreenData,
    editor: &TaskEditorState,
    due_preview: Option<TaskDuePreviewView>,
    due_text: &DuePreviewText,
) -> (r: TaskEditorView)
    requires
        editor.focused_field == TaskEditorField::Parent && editor.task_id is Some ==> forall|i: int|
            0 <= i < data.tasks@.len() && #[trigger] parent_task_base(
                data.tasks@[i],
                data.projects@,
                editor.task_id,
                editor.project_id,
            ) ==> task_chain_ends(data.tasks@, data.tasks@[i].id),
    ensures
        r.title@ == (if editor.task_id is Some {
            "Edit Task"@
        } else {
            "New Task"@
        }),
        r.title_value@ == editor.title.value@,
        r.title_cursor == editor.title.cursor,
        r.description_value@ == editor.description.value@,
        r.description_cursor == editor.description.cursor,
        r.description_scroll == editor.description.scroll,
        r.project_value@ == editor.project.value@,
        r.project_cursor == editor.project.cursor,
        strings_view(r.project_suggestions@) == editor_project_suggestions(*data, editor@),
        r.selected_project_suggestion == highlighted(
            r.project_suggestions@.len() as int,
            editor.suggestion_index as int,
        ),
        r.tags_value@ == editor.tags.value@,
        r.tags_cursor == editor.tags.cursor,
        strings_view(r.tag_suggestions@) == editor_tag_suggestions(*data, editor@),
        r.selected_tag_suggestion == highlighted(r.tag_suggestions@.len() as int, editor.suggestion_index as int),
        r.due_date_value@ == editor.due_date.value@,
        r.due_date_cursor == editor.due_date.cursor,
        r.priority_value@ == editor.priority.value@,
        r.priority_cursor == editor.priority.cursor,
        strings_view(r.priority_suggestions@) == editor_priority_suggestions(editor@),
        r.selected_priority_suggestion == highlighted(
            r.priority_suggestions@.len() as int,
            editor.suggestion_index as int,
        ),
        r.due_time_value@ == editor.due_time.value@,
        r.due_time_cursor == editor.due_time.cursor,
        r.recurrence_value@ == editor.recurrence.value@,
        r.recurrence_cursor == editor.recurrence.cursor,
        r.parent_value@ == editor.parent.value@,
        r.parent_cursor == editor.parent.cursor,
        strings_view(r.parent_suggestions@) == editor_parent_suggestions(*data, editor@),
        r.selected_parent_suggestion == highlighted(
            r.parent_suggestions@.len() as int,
            editor.suggestion_index as int,
        ),
        r.focus == focus_flags(editor.focused_field),
        r.due_preview == due_preview,
        r.calendar == match editor.calendar {
            Some(c) => Some(CalendarPickerView { display_date: c.display_date, selected_date: c.selected_date }),
            None => None,
        },
        lines_show(
            r.preview_panel.preview_lines@,
            editor_preview_plan(
                editor.project.value@,
                editor.tags.value@,
                editor_priority(editor@),
                due_preview,
                *due_text,
                editor.parent.value@,
            ),
        ),
        r.preview_panel.tips@.len() == 1,
        r.preview_panel.tips@[0]@ == task_editor_tip(editor.focused_field),
{
    let title = string_from(editor.title.value.as_slice());
    let in_title = editor.focused_field == TaskEditorField::Title;
    let project_text = string_from(editor.project.value.as_slice());
    let title_project = if in_title {
        active_project_query(data, title.as_str(), editor.title.cursor)
    } else {
        None
    };
    let current_project = project_label_of(data, editor.project_id);
    let project_trimmed = trim_chars(editor.project.value.as_slice());
    let project_suggestions = match title_project {
        Some((_s, _e, query)) => {
            let places = project_suggestions(data, query.as_str());
            names_of_first_four(data, &places)
        },
        None => {
            if editor.focused_field == TaskEditorField::Project && project_trimmed.len() > 0
                && !eq_ignore_case(project_trimmed.as_slice(), current_project.as_slice()) {
                let places = project_suggestions(data, project_text.as_str());
                names_of_first_four(data, &places)
            } else {
                Vec::new()
            }
        },
    };
    let title_tag = if in_title {
        active_tag_query(title.as_str(), editor.title.cursor)
    } else {
        None
    };
    let tag_suggestions = match title_tag {
        Some((_s, _e, query)) => {
            let places = tag_suggestions(data, query.as_str());
            tag_names_of_first_four(data, &places)
        },
        None => {
            if editor.focused_field == TaskEditorField::Tags {
                let tags_text = string_from(editor.tags.value.as_slice());
                match active_tag_field_query(tags_text.as_str(), editor.tags.cursor) {
                    Some((_s, _e, query)) => {
                        let places = tag_suggestions(data, query.as_str());
                        tag_names_of_first_four(data, &places)
                    },
                    None => Vec::new(),
                }
            } else {
                Vec::new()
            }
        },
    };
    let title_priority = if in_title {
        active_priority_query(title.as_str(), editor.title.cursor)
    } else {
        None
    };
    let priority_text = string_from(editor.priority.value.as_slice());
    let priority_suggestions = match title_priority {
        Some((_s, _e, query)) => {
            let words = priority_suggestions(query.as_str());
            first_four_words(&words)
        },
        None => {
            if editor.focused_field == TaskEditorField::Priority {
                let words = priority_suggestions(priority_text.as_str());
                first_four_words(&words)
            } else {
                Vec::new()
            }
        },
    };
    let effective_priority = match last_priority_token(title.as_str()) {
        Some(p) => p,
        None => match parse_priority_input(priority_text.as_str()) {
            Some(p) => p,
            None => TaskPriority::P4,
        },
    };
    let parent_text = string_from(editor.parent.value.as_slice());
    let parent_suggestions = if editor.focused_field == TaskEditorField::Parent {
        let places = parent_task_suggestions(data, parent_text.as_str(), editor.task_id, editor.project_id);
        titles_of_first_four(data, &places)
    } else {
        Vec::new()
    };
    let focus = TaskEditorFocusView {
        title: editor.focused_field == TaskEditorField::Title,
        description: editor.focused_field == TaskEditorField::Description,
        project: editor.focused_field == TaskEditorField::Project,
        tags: editor.focused_field == TaskEditorField::Tags,
        due_date: editor.focused_field == TaskEditorField::DueDate,
        priority: editor.focused_field == TaskEditorField::Priority,
        due_time: editor.focused_field == TaskEditorField::DueTime,
        recurrence: editor.focused_field == TaskEditorField::Recurrence,
        parent: editor.focused_field == TaskEditorField::Parent,
    };
    let tags_value = string_from(editor.tags.value.as_slice());
    let preview_panel = task_editor_preview_panel(
        project_text.as_str(),
        tags_value.as_str(),
        effective_priority,
        match &due_preview {
            Some(d) => Some(d),
            None => None,
        },
        due_text,
        parent_text.as_str(),
        editor.focused_field,
    );
    let selected_project_suggestion = highlighted_of(project_suggestions.len(), editor.suggestion_index);
    let selected_tag_suggestion = highlighted_of(tag_suggestions.len(), editor.suggestion_index);
    let selected_priority_suggestion = highlighted_of(priority_suggestions.len(), editor.suggestion_index);
    let selected_parent_suggestion = highlighted_of(parent_suggestions.len(), editor.suggestion_index);
    TaskEditorView {
        title: if editor.task_id.is_some() {
            "Edit Task"
        } else {
            "New Task"
        },
        title_value: title,
        title_cursor: editor.title.cursor,
        description_value: string_from(editor.description.value.as_slice()),
        description_cursor: editor.description.cursor,
        description_scroll: editor.description.scroll,
        project_value: project_text,
        project_cursor: editor.project.cursor,
        project_suggestions,
        selected_project_suggestion,
        tags_value,
        tags_cursor: editor.tags.cursor,
        tag_suggestions,
        selected_tag_suggestion,
        due_date_value: string_from(editor.due_date.value.as_slice()),
        due_date_cursor: editor.due_date.cursor,
        priority_value: priority_text,
        priority_cursor: editor.priority.cursor,
        priority_suggestions,
        selected_priority_suggestion,
        due_time_value: string_from(editor.due_time.value.as_slice()),
        due_time_cursor: editor.due_time.cursor,
        recurrence_value: string_from(editor.recurrence.value.as_slice()),
        recurrence_cursor: editor.recurrence.cursor,
        parent_value: parent_text,
        parent_cursor: editor.parent.cursor,
        parent_suggestions,
        selected_parent_suggestion,
        focus,
        due_preview,
        calendar: match editor.calendar {
            Some(c) => Some(CalendarPickerView { display_date: c.display_date, selected_date: c.selected_date }),
            None => None,
        },
        preview_panel,
    }
}

/// The editor with its title and cursor replaced.
pub open spec fn with_title(e: TaskEditorModel, v: Seq<char>, c: int) -> TaskEditorModel {
    TaskEditorModel { title: LineModel { value: v, cursor: c as nat }, suggestion_index: 0, ..e }
}

/// Accepts, in the title, the highlighted project suggestion for the
/// `#project` word the cursor is typing (see `project_word_accept`): the
/// word becomes `#Name `, and the project field names the project. False,
/// with the editor unchanged, where there is none.
pub fn accept_task_editor_title_project_suggestion(data: &ScreenData, editor: &mut TaskEditorState) -> (r: bool)
    ensures
        match project_word_accept(*data, old(editor)@.title.value, old(editor)@.title.cursor as int, old(editor)@.suggestion_index as int) {
            None => !r && final(editor)@ == old(editor)@,
            Some((v, c, k)) => r && final(editor)@ == (TaskEditorModel {
                project: line_at_end(data.projects@[k as int].name@),
                project_id: data.projects@[k as int].id,
                ..with_title(old(editor)@, v, c)
            }),
        },
{
    match accept_project_word(data, &editor.title.value, editor.title.cursor, editor.suggestion_index) {
        Some((value, cursor, k)) => {
            let project = &data.projects[k];
            editor.title = LineInput { value, cursor };
            editor.project = line_with(chars_of(project.name.as_str()));
            editor.project_id = project.id;
            editor.suggestion_index = 0;
            true
        },
        None => false,
    }
}

/// What accepting a priority suggestion in the title does: as in the
/// quick-add text (see `priority_accept_spec`), except that nothing happens
/// where the word already names a priority and is the one suggestion.
pub open spec fn title_priority_accept(v: Seq<char>, cursor: int, index: int) -> Option<(Seq<char>, int)> {
    match active_priority_query_spec(v, cursor) {
        None => None,
        Some((_s, _e, q)) => {
            let suggestions = priority_suggestions_spec(q);
            if priority_input_spec(q) is Some && suggestions.len() == 1 && eq_ignore_ascii_case(
                suggestions[0],
                trim_spec(q),
            ) {
                None
            } else {
                priority_accept_spec(v, cursor, index)
            }
        },
    }
}

/// Accepts, in the title, the highlighted priority suggestion for the word
/// the cursor is typing (see `title_priority_accept`); false, with the
/// editor unchanged, where there is none.
pub fn accept_task_editor_title_priority_suggestion(editor: &mut TaskEditorState) -> (r: bool)
    ensures
        match title_priority_accept(old(editor)@.title.value, old(editor)@.title.cursor as int, old(editor)@.suggestion_index as int) {
            None => !r && final(editor)@ == old(editor)@,
            Some((v, c)) => r && final(editor)@ == with_title(old(editor)@, v, c),
        },
{
    let title = string_from(editor.title.value.as_slice());
    match active_priority_query(title.as_str(), editor.title.cursor) {
        None => {
            return false;
        },
        Some((_s, _e, query)) => {
            let suggestions = priority_suggestions(query.as_str());
            if parse_priority_input(query.as_str()).is_some() && suggestions.len() == 1 {
                let q = chars_of(query.as_str());
                let trimmed = trim_chars(q.as_slice());
                let first = chars_of(suggestions[0]);
                assert(first@ == strs_view(suggestions@)[0]);
                if eq_ignore_case(first.as_slice(), trimmed.as_slice()) {
                    return false;
                }
            }
        },
    }
    match accept_priority_word(&editor.title.value, editor.title.cursor, editor.suggestion_index) {
        Some((value, cursor)) => {
            editor.title = LineInput { value, cursor };
            editor.suggestion_index = 0;
            true
        },
        None => false,
    }
}

/// Accepts, in the title or in the tags field, the highlighted tag
/// suggestion for the tag word the cursor is typing (see
/// `tag_word_accept`).
pub fn accept_task_editor_tag_suggestion(data: &ScreenData, editor: &mut TaskEditorState, in_title: bool) -> (r: TagTokenStep)
    ensures
        match tag_word_accept(
            *data,
            if in_title { old(editor)@.title.value } else { old(editor)@.tags.value },
            if in_title { old(editor)@.title.cursor as int } else { old(editor)@.tags.cursor as int },
            old(editor)@.suggestion_index as int,
            !in_title,
        ) {
            None => r == TagTokenStep::NoToken && final(editor)@ == old(editor)@,
            Some(Ok((v, c))) => r == TagTokenStep::Accepted && final(editor)@ == (if in_title {
                with_title(old(editor)@, v, c)
            } else {
                TaskEditorModel { tags: LineModel { value: v, cursor: c as nat }, suggestion_index: 0, ..old(editor)@ }
            }),
            Some(Err((s, e, q))) => final(editor)@ == old(editor)@ && (r matches TagTokenStep::NeedsTag { start, end, query }
                && start == s && end == e && query@ == q),
        },
{
    let step = if in_title {
        accept_tag_word(data, &editor.title.value, editor.title.cursor, editor.suggestion_index, false)
    } else {
        accept_tag_word(data, &editor.tags.value, editor.tags.cursor, editor.suggestion_index, true)
    };
    match step {
        None => TagTokenStep::NoToken,
        Some(Ok((value, cursor))) => {
            if in_title {
                editor.title = LineInput { value, cursor };
            } else {
                editor.tags = LineInput { value, cursor };
            }
            editor.suggestion_index = 0;
            TagTokenStep::Accepted
        },
        Some(Err((start, end, query))) => TagTokenStep::NeedsTag { start, end, query },
    }
}

/// Puts a tag, once found or made, in place of the tag word from `start` to
/// `end` of the title or the tags field, as `@Name `, with the cursor after
/// its space.
pub fn complete_task_editor_tag_token(editor: &mut TaskEditorState, in_title: bool, start: usize, end: usize, tag_name: &str)
    requires
        start <= end <= (if in_title { old(editor)@.title.value.len() } else { old(editor)@.tags.value.len() }),
    ensures
        ({
            let v = if in_title { old(editor)@.title.value } else { old(editor)@.tags.value };
            let w = replace_range(v, start as int, end as int, seq!['@'] + tag_name@ + seq![' ']);
            let c = start + tag_name@.len() + 2;
            final(editor)@ == (if in_title {
                with_title(old(editor)@, w, c)
            } else {
                TaskEditorModel { tags: LineModel { value: w, cursor: c as nat }, suggestion_index: 0, ..old(editor)@ }
            })
        }),
{
    let name = chars_of(tag_name);
    let mut ins: Vec<char> = Vec::new();
    ins.push('@');
    let mut with_name = concat_chars(ins.as_slice(), name.as_slice());
    with_name.push(' ');
    assert(with_name@ =~= seq!['@'] + tag_name@ + seq![' ']);
    let value = if in_title {
        splice(&editor.title.value, start, end, with_name.as_slice())
    } else {
        splice(&editor.tags.value, start, end, with_name.as_slice())
    };
    let total = value.len();
    assert(total == start + name.len() + 2 + ((if in_title {
        editor.title.value.len()
    } else {
        editor.tags.value.len()
    }) - end));
    let cursor = start + name.len() + 2;
    if in_title {
        editor.title = LineInput { value, cursor };
    } else {
        editor.tags = LineInput { value, cursor };
    }
    editor.suggestion_index = 0;
}

/// What accepting a priority suggestion in the priority field does: the
/// highlighted suggestion for the field's text, unless the field already
/// holds it (ASCII case aside, spaces trimmed). None where the field is not
/// focused or nothing is suggested.
pub open spec fn priority_field_accept(e: TaskEditorModel) -> Option<Seq<char>> {
    let suggestions = priority_suggestions_spec(e.priority.value);
    if e.focused_field != TaskEditorField::Priority || suggestions.len() == 0 {
        None
    } else {
        let p = suggestions[highlighted(suggestions.len() as int, e.suggestion_index as int)];
        if eq_ignore_ascii_case(trim_spec(e.priority.value), p) {
            None
        } else {
            Some(p)
        }
    }
}

/// Accepts the highlighted priority suggestion in the priority field (see
/// `priority_field_accept`); false, with the editor unchanged, where there
/// is none.
pub fn accept_task_editor_priority_suggestion(editor: &mut TaskEditorState) -> (r: bool)
    ensures
        match priority_field_accept(old(editor)@) {
            None => !r && final(editor)@ == old(editor)@,
            Some(p) => r && final(editor)@ == (TaskEditorModel {
                priority: line_at_end(p),
                suggestion_index: 0,
                ..old(editor)@
            }),
        },
{
    if editor.focused_field != TaskEditorField::Priority {
        return false;
    }
    let text = string_from(editor.priority.value.as_slice());
    let suggestions = priority_suggestions(text.as_str());
    let trimmed = trim_chars(editor.priority.value.as_slice());
    if parse_priority_input(text.as_str()).is_some() && suggestions.len() == 1 {
        let first = chars_of(suggestions[0]);
        assert(first@ == strs_view(suggestions@)[0]);
        if eq_ignore_case(first.as_slice(), trimmed.as_slice()) {
            proof {
                assert(ascii_lower_seq(trimmed@) == ascii_lower_seq(first@));
            }
            return false;
        }
    }
    if suggestions.len() == 0 {
        return false;
    }
    let k = highlighted_index(suggestions.len(), editor.suggestion_index);
    let word = chars_of(suggestions[k]);
    assert(word@ == strs_view(suggestions@)[k as int]);
    if eq_ignore_case(trimmed.as_slice(), word.as_slice()) {
        return false;
    }
    editor.priority = line_with(word);
    editor.suggestion_index = 0;
    true
}

/// What accepting a project suggestion in the project field does: the
/// place of the highlighted project suggested for the field's trimmed
/// text, unless it is blank, nothing is suggested, or that project is
/// already the editor's and the field names it (ASCII case aside).
pub open spec fn project_field_accept(data: ScreenData, e: TaskEditorModel) -> Option<usize> {
    let q = trim_spec(e.project.value);
    let places = project_query_places(data, q);
    if q.len() == 0 || places.len() == 0 {
        None
    } else {
        let k = places[highlighted(places.len() as int, e.suggestion_index as int)];
        let p = data.projects@[k as int];
        if e.project_id == p.id && eq_ignore_ascii_case(q, p.name@) {
            None
        } else {
            Some(k)
        }
    }
}

/// Accepts the highlighted project suggestion in the project field (see
/// `project_field_accept`): the field names the project and the editor
/// files the task under it. False, with the editor unchanged, where there
/// is none or the field is not focused.
pub fn accept_task_editor_project_field_suggestion(data: &ScreenData, editor: &mut TaskEditorState) -> (r: bool)
    ensures
        old(editor)@.focused_field != TaskEditorField::Project ==> !r && final(editor)@ == old(editor)@,
        old(editor)@.focused_field == TaskEditorField::Project ==> match project_field_accept(*data, old(editor)@) {
            None => !r && final(editor)@ == old(editor)@,
            Some(k) => r && final(editor)@ == (TaskEditorModel {
                project: line_at_end(data.projects@[k as int].name@),
                project_id: data.projects@[k as int].id,
                suggestion_index: 0,
                ..old(editor)@
            }),
        },
{
    if editor.focused_field != TaskEditorField::Project {
        return false;
    }
    let trimmed = trim_chars(editor.project.value.as_slice());
    if trimmed.len() == 0 {
        return false;
    }
    let query = string_from(trimmed.as_slice());
    let places = project_suggestions(data, query.as_str());
    if places.len() == 0 {
        return false;
    }
    let k = highlighted_index(places.len(), editor.suggestion_index);
    let project = &data.projects[places[k]];
    let name = chars_of(project.name.as_str());
    if editor.project_id == project.id && eq_ignore_case(trimmed.as_slice(), name.as_slice()) {
        return false;
    }
    editor.project = line_with(name);
    editor.project_id = project.id;
    editor.suggestion_index = 0;
    true
}

/// Accepts the parent the parent field names (see
/// `parent_task_resolution`): the field takes the title of the first task
/// with that identifier and the editor its identifier. False, with the
/// editor unchanged, where none is named or the field is not focused.
pub fn accept_task_editor_parent_suggestion(data: &ScreenData, editor: &mut TaskEditorState) -> (r: bool)
    requires
        old(editor).task_id is Some ==> forall|i: int|
            0 <= i < data.tasks@.len() && #[trigger] parent_task_base(
                data.tasks@[i],
                data.projects@,
                old(editor).task_id,
                old(editor).project_id,
            ) ==> task_chain_ends(data.tasks@, data.tasks@[i].id),
    ensures
        old(editor)@.focused_field != TaskEditorField::Parent ==> !r && final(editor)@ == old(editor)@,
        old(editor)@.focused_field == TaskEditorField::Parent ==> match parent_task_resolution(
            *data,
            old(editor)@.parent.value,
            old(editor)@.task_id,
            old(editor)@.project_id,
        ) {
            Some(id) => match task_with_id(data.tasks@, id) {
                Some(t) => r && final(editor)@ == (TaskEditorModel {
                    parent: line_at_end(t.title@),
                    parent_task_id: Some(id),
                    suggestion_index: 0,
                    ..old(editor)@
                }),
                None => !r && final(editor)@ == old(editor)@,
            },
            None => !r && final(editor)@ == old(editor)@,
        },
{
    if editor.focused_field != TaskEditorField::Parent {
        return false;
    }
    let text = string_from(editor.parent.value.as_slice());
    let id = match resolve_parent_task_input(data, text.as_str(), editor.task_id, editor.project_id) {
        Some(id) => id,
        None => {
            return false;
        },
    };
    match task_by_id(data.tasks.as_slice(), id) {
        Some(t) => {
            editor.parent = line_with(chars_of(t.title.as_str()));
            editor.parent_task_id = Some(id);
            editor.suggestion_index = 0;
            true
        },
        None => false,
    }
}

/// A change typed into a field: the cursor to the start or end (of the
/// line, in the description), one character back or on, a character typed
/// at the cursor, or the character before or at the cursor deleted.
#[derive(Debug, Clone, Copy, PartialEq, Eq, Structural)]
pub enum LineEdit {
    Home,
    End,
    Left,
    Right,
    Insert(char),
    DeleteBefore,
    DeleteAt,
}

/// A line after a change.
pub open spec fn line_edited(l: LineModel, op: LineEdit) -> LineModel {
    match op {
        LineEdit::Home => LineModel { cursor: 0, ..l },
        LineEdit::End => LineModel { cursor: l.value.len(), ..l },
        LineEdit::Left => if l.cursor == 0 {
            l
        } else {
            LineModel { cursor: (l.cursor - 1) as nat, ..l }
        },
        LineEdit::Right => if l.cursor >= l.value.len() {
            l
        } else {
            LineModel { cursor: l.cursor + 1, ..l }
        },
        LineEdit::Insert(c) => LineModel { value: l.value.insert(l.cursor as int, c), cursor: l.cursor + 1 },
        LineEdit::DeleteBefore => if l.cursor == 0 {
            l
        } else {
            LineModel { value: l.value.remove(l.cursor - 1), cursor: (l.cursor - 1) as nat }
        },
        LineEdit::DeleteAt => if l.cursor >= l.value.len() {
            l
        } else {
            LineModel { value: l.value.remove(l.cursor as int), cursor: l.cursor }
        },
    }
}

/// The description after a change, scrolled so that the cursor's line is
/// in view; home and end go to the start and end of the cursor's line.
pub open spec fn area_edited(a: TextAreaModel, op: LineEdit) -> TextAreaModel {
    let vp = DESCRIPTION_VIEWPORT_LINES as nat;
    match op {
        LineEdit::Home => scrolled(a.value, line_start_spec(a.value, a.cursor as int) as nat, a.scroll, vp),
        LineEdit::End => scrolled(a.value, line_end_spec(a.value, a.cursor as int) as nat, a.scroll, vp),
        LineEdit::Left => if a.cursor == 0 {
            a
        } else {
            scrolled(a.value, (a.cursor - 1) as nat, a.scroll, vp)
        },
        LineEdit::Right => if a.cursor >= a.value.len() {
            a
        } else {
            scrolled(a.value, a.cursor + 1, a.scroll, vp)
        },
        LineEdit::Insert(c) => scrolled(a.value.insert(a.cursor as int, c), a.cursor + 1, a.scroll, vp),
        LineEdit::DeleteBefore => if a.cursor == 0 {
            a
        } else {
            scrolled(a.value.remove(a.cursor - 1), (a.cursor - 1) as nat, a.scroll, vp)
        },
        LineEdit::DeleteAt => if a.cursor >= a.value.len() {
            a
        } else {
            scrolled(a.value.remove(a.cursor as int), a.cursor, a.scroll, vp)
        },
    }
}

/// The text and cursor of the focused field.
pub open spec fn focused_text(e: TaskEditorModel) -> (Seq<char>, nat) {
    match e.focused_field {
        TaskEditorField::Title => (e.title.value, e.title.cursor),
        TaskEditorField::Description => (e.description.value, e.description.cursor),
        TaskEditorField::Project => (e.project.value, e.project.cursor),
        TaskEditorField::Tags => (e.tags.value, e.tags.cursor),
        TaskEditorField::DueDate => (e.due_date.value, e.due_date.cursor),
        TaskEditorField::Priority => (e.priority.value, e.priority.cursor),
        TaskEditorField::DueTime => (e.due_time.value, e.due_time.cursor),
        TaskEditorField::Recurrence => (e.recurrence.value, e.recurrence.cursor),
        TaskEditorField::Parent => (e.parent.value, e.parent.cursor),
    }
}

/// The editor after a change in its focused field.
pub open spec fn field_edited(e: TaskEditorModel, op: LineEdit) -> TaskEditorModel {
    match e.focused_field {
        TaskEditorField::Title => TaskEditorModel { title: line_edited(e.title, op), ..e },
        TaskEditorField::Description => TaskEditorModel { description: area_edited(e.description, op), ..e },
        TaskEditorField::Project => TaskEditorModel { project: line_edited(e.project, op), ..e },
        TaskEditorField::Tags => TaskEditorModel { tags: line_edited(e.tags, op), ..e },
        TaskEditorField::DueDate => TaskEditorModel { due_date: line_edited(e.due_date, op), ..e },
        TaskEditorField::Priority => TaskEditorModel { priority: line_edited(e.priority, op), ..e },
        TaskEditorField::DueTime => TaskEditorModel { due_time: line_edited(e.due_time, op), ..e },
        TaskEditorField::Recurrence => TaskEditorModel { recurrence: line_edited(e.recurrence, op), ..e },
        TaskEditorField::Parent => TaskEditorModel { parent: line_edited(e.parent, op), ..e },
    }
}

/// What a change needs of the focused field: a cursor within the text for
/// moving back, typing and deleting backwards, and room for one more
/// character for typing.
pub open spec fn edit_fits(e: TaskEditorModel, op: LineEdit) -> bool {
    let (v, c) = focused_text(e);
    &&& (op is Left || op is Insert || op is DeleteBefore) ==> c <= v.len()
    &&& op is Insert ==> v.len() < usize::MAX
}

pub(crate) fn edit_line(line: &mut LineInput, op: LineEdit)
    requires
        (op is Left || op is Insert || op is DeleteBefore) ==> old(line)@.cursor <= old(line)@.value.len(),
        op is Insert ==> old(line)@.value.len() < usize::MAX,
    ensures
        final(line)@ == line_edited(old(line)@, op),
{
    match op {
        LineEdit::Home => {
            line.cursor = 0;
        },
        LineEdit::End => {
            line.cursor = line.value.len();
        },
        LineEdit::Left => {
            if line.cursor > 0 {
                line.cursor = line.cursor - 1;
            }
        },
        LineEdit::Right => {
            if line.cursor < line.value.len() {
                line.cursor = line.cursor + 1;
            }
        },
        LineEdit::Insert(c) => {
            line.value.insert(line.cursor, c);
            line.cursor = line.cursor + 1;
        },
        LineEdit::DeleteBefore => {
            if line.cursor > 0 {
                let previous = line.cursor - 1;
                line.value.remove(previous);
                line.cursor = previous;
            }
        },
        LineEdit::DeleteAt => {
            if line.cursor < line.value.len() {
                line.value.remove(line.cursor);
            }
        },
    }
}

fn edit_area(area: &mut TextArea, op: LineEdit)
    requires
        (op is Left || op is Insert || op is DeleteBefore) ==> area_wf(old(area)@),
        op is Insert ==> old(area)@.value.len() < usize::MAX,
    ensures
        final(area)@ == area_edited(old(area)@, op),
{
    match op {
        LineEdit::Home => move_session_note_cursor_home(area, DESCRIPTION_VIEWPORT_LINES),
        LineEdit::End => move_session_note_cursor_end(area, DESCRIPTION_VIEWPORT_LINES),
        LineEdit::Left => move_session_note_cursor_left(area, DESCRIPTION_VIEWPORT_LINES),
        LineEdit::Right => move_session_note_cursor_right(area, DESCRIPTION_VIEWPORT_LINES),
        LineEdit::Insert(c) => insert_session_note_char(area, c, DESCRIPTION_VIEWPORT_LINES),
        LineEdit::DeleteBefore => delete_session_note_char_before_cursor(area, DESCRIPTION_VIEWPORT_LINES),
        LineEdit::DeleteAt => delete_session_note_char_at_cursor(area, DESCRIPTION_VIEWPORT_LINES),
    }
}

fn edit_focused_field(editor: &mut TaskEditorState, op: LineEdit)
    requires
        edit_fits(old(editor)@, op),
    ensures
        final(editor)@ == field_edited(old(editor)@, op),
{
    match editor.focused_field {
        TaskEditorField::Title => edit_line(&mut editor.title, op),
        TaskEditorField::Description => edit_area(&mut editor.description, op),
        TaskEditorField::Project => edit_line(&mut editor.project, op),
        TaskEditorField::Tags => edit_line(&mut editor.tags, op),
        TaskEditorField::DueDate => edit_line(&mut editor.due_date, op),
        TaskEditorField::Priority => edit_line(&mut editor.priority, op),
        TaskEditorField::DueTime => edit_line(&mut editor.due_time, op),
        TaskEditorField::Recurrence => edit_line(&mut editor.recurrence, op),
        TaskEditorField::Parent => edit_line(&mut editor.parent, op),
    }
}

/// Moves the cursor of the focused field to its start (to the start of its
/// line, in the description).
pub fn move_editor_cursor_home(editor: &mut TaskEditorState)
    ensures
        final(editor)@ == field_edited(old(editor)@, LineEdit::Home),
{
    edit_focused_field(editor, LineEdit::Home);
}

/// Moves the cursor of the focused field to its end (to the end of its
/// line, in the description).
pub fn move_editor_cursor_end(editor: &mut TaskEditorState)
    ensures
        final(editor)@ == field_edited(old(editor)@, LineEdit::End),
{
    edit_focused_field(editor, LineEdit::End);
}

/// Moves the cursor of the focused field one character back.
pub fn move_editor_cursor_left(editor: &mut TaskEditorState)
    requires
        edit_fits(old(editor)@, LineEdit::Left),
    ensures
        final(editor)@ == field_edited(old(editor)@, LineEdit::Left),
{
    edit_focused_field(editor, LineEdit::Left);
}

/// Moves the cursor of the focused field one character on.
pub fn move_editor_cursor_right(editor: &mut TaskEditorState)
    ensures
        final(editor)@ == field_edited(old(editor)@, LineEdit::Right),
{
    edit_focused_field(editor, LineEdit::Right);
}

/// Moves the description's cursor a line up (`direction` below zero) or
/// down, keeping its column where the line is long enough.
pub fn move_editor_description_cursor_vertical(editor: &mut TaskEditorState, direction: isize)
    ensures
        final(editor)@ == (TaskEditorModel {
            description: scrolled(
                old(editor)@.description.value,
                vertical_target(old(editor)@.description.value, old(editor)@.description.cursor as int, direction < 0) as nat,
                old(editor)@.description.scroll,
                DESCRIPTION_VIEWPORT_LINES as nat,
            ),
            ..old(editor)@
        }),
{
    move_session_note_cursor_vertical(&mut editor.description, direction, DESCRIPTION_VIEWPORT_LINES);
}

/// What, after a change of text, is still to be read from due words: the
/// title's, the recurrence field's, or nothing.
#[derive(Debug, Clone, Copy, PartialEq, Eq, Structural)]
pub enum DueRefresh {
    Nothing,
    FromTitle,
    FromRecurrence,
}

/// The priority field set from the last priority word of the title, where
/// there is one and the field does not already hold it.
pub open spec fn priority_synced(e: TaskEditorModel) -> TaskEditorModel {
    match last_priority(words(e.title.value)) {
        Some(p) => if e.priority.value == priority_word(p) {
            e
        } else {
            TaskEditorModel { priority: line_at_end(priority_word(p)), ..e }
        },
        None => e,
    }
}

/// The title replaced by a cleaned one, where they differ, with the cursor
/// kept within it; and whether it changed.
pub open spec fn title_cleaned(e: TaskEditorModel, cleaned: Seq<char>) -> (TaskEditorModel, bool) {
    if cleaned == e.title.value {
        (e, false)
    } else {
        (
            TaskEditorModel {
                title: LineModel {
                    value: cleaned,
                    cursor: if e.title.cursor < cleaned.len() {
                        e.title.cursor
                    } else {
                        cleaned.len()
                    },
                },
                ..e
            },
            true,
        )
    }
}

/// What follows a change of text in the focused field, but for reading due
/// words: in the title, the priority field follows its priority words (and
/// its due words are to be read); in the project field, a trailing
/// `#project` reference leaves the title; in the priority field, the
/// priority words leave the title (whose due words are then to be read);
/// in the due date and time fields, the due date no longer comes from the
/// title and its words are the recurrence's; in the recurrence field, the
/// due date no longer comes from the title, and its words are cleared where
/// the recurrence is blank (else read); in the parent field, the parent
/// chosen is dropped; in the description, the view follows the cursor.
pub open spec fn after_text_change(e: TaskEditorModel) -> (TaskEditorModel, DueRefresh) {
    match e.focused_field {
        TaskEditorField::Title => (priority_synced(e), DueRefresh::FromTitle),
        TaskEditorField::Description => (
            TaskEditorModel {
                description: scrolled(
                    e.description.value,
                    e.description.cursor,
                    e.description.scroll,
                    DESCRIPTION_VIEWPORT_LINES as nat,
                ),
                ..e
            },
            DueRefresh::Nothing,
        ),
        TaskEditorField::Project => (title_cleaned(e, project_reference_split(e.title.value).0).0, DueRefresh::Nothing),
        TaskEditorField::Tags => (e, DueRefresh::Nothing),
        TaskEditorField::Priority => {
            let (next, changed) = title_cleaned(
                e,
                joined_with(non_priority_words(words(e.title.value)), seq![' ']),
            );
            (
                next,
                if changed {
                    DueRefresh::FromTitle
                } else {
                    DueRefresh::Nothing
                },
            )
        },
        TaskEditorField::DueDate | TaskEditorField::DueTime => (
            TaskEditorModel { due_from_title: false, due_natural: trim_spec(e.recurrence.value), ..e },
            DueRefresh::Nothing,
        ),
        TaskEditorField::Recurrence => if trim_spec(e.recurrence.value).len() == 0 {
            (TaskEditorModel { due_from_title: false, due_natural: Seq::empty(), ..e }, DueRefresh::Nothing)
        } else {
            (TaskEditorModel { due_from_title: false, ..e }, DueRefresh::FromRecurrence)
        },
        TaskEditorField::Parent => (TaskEditorModel { parent_task_id: None, ..e }, DueRefresh::Nothing),
    }
}

/// Sets the priority field from the last priority word of the title (see
/// `priority_synced`).
pub fn sync_editor_priority_from_title(editor: &mut TaskEditorState)
    ensures
        final(editor)@ == priority_synced(old(editor)@),
{
    let title = string_from(editor.title.value.as_slice());
    match last_priority_token(title.as_str()) {
        Some(p) => {
            let word = priority_word_of(p);
            if !chars_eq(editor.priority.value.as_slice(), word.as_slice()) {
                editor.priority = line_with(word);
            }
        },
        None => {},
    }
}

fn replace_title(editor: &mut TaskEditorState, cleaned: Vec<char>) -> (r: bool)
    ensures
        (final(editor)@, r) == title_cleaned(old(editor)@, cleaned@),
{
    if chars_eq(cleaned.as_slice(), editor.title.value.as_slice()) {
        return false;
    }
    let cursor = if editor.title.cursor < cleaned.len() {
        editor.title.cursor
    } else {
        cleaned.len()
    };
    editor.title = LineInput { value: cleaned, cursor };
    true
}

/// Takes a trailing `#project` reference out of the title (the project
/// field now names the project).
pub fn sync_editor_title_from_project_field(editor: &mut TaskEditorState)
    ensures
        final(editor)@ == title_cleaned(old(editor)@, project_reference_split(old(editor)@.title.value).0).0,
{
    let title = string_from(editor.title.value.as_slice());
    let (cleaned, _) = extract_project_reference_for_title_cleanup(title.as_str());
    replace_title(editor, chars_of(cleaned.as_str()));
}

/// Takes the priority words out of the title (the priority field now names
/// the priority), the other words joined by single spaces; true where the
/// title changed, when its due words are to be read again.
pub fn sync_editor_title_from_priority_field(editor: &mut TaskEditorState) -> (r: bool)
    ensures
        (final(editor)@, r) == title_cleaned(
            old(editor)@,
            joined_with(non_priority_words(words(old(editor)@.title.value)), seq![' ']),
        ),
{
    let title = string_from(editor.title.value.as_slice());
    let (cleaned, _) = extract_priority_reference(title.as_str());
    replace_title(editor, chars_of(cleaned.as_str()))
}

/// What follows a change of text in the focused field, but for reading due
/// words (see `after_text_change`); says which due words are to be read.
pub fn after_editor_text_change(editor: &mut TaskEditorState) -> (r: DueRefresh)
    ensures
        (final(editor)@, r) == after_text_change(old(editor)@),
{
    match editor.focused_field {
        TaskEditorField::Title => {
            sync_editor_priority_from_title(editor);
            DueRefresh::FromTitle
        },
        TaskEditorField::Description => {
            sync_session_note_scroll(&mut editor.description, DESCRIPTION_VIEWPORT_LINES);
            DueRefresh::Nothing
        },
        TaskEditorField::Project => {
            sync_editor_title_from_project_field(editor);
            DueRefresh::Nothing
        },
        TaskEditorField::Tags => DueRefresh::Nothing,
        TaskEditorField::Priority => {
            if sync_editor_title_from_priority_field(editor) {
                DueRefresh::FromTitle
            } else {
                DueRefresh::Nothing
            }
        },
        TaskEditorField::DueDate | TaskEditorField::DueTime => {
            editor.due_from_title = false;
            editor.due_natural = trim_chars(editor.recurrence.value.as_slice());
            DueRefresh::Nothing
        },
        TaskEditorField::Recurrence => {
            editor.due_from_title = false;
            let recurrence = trim_chars(editor.recurrence.value.as_slice());
            if recurrence.len() == 0 {
                editor.due_natural = Vec::new();
                DueRefresh::Nothing
            } else {
                DueRefresh::FromRecurrence
            }
        },
        TaskEditorField::Parent => {
            editor.parent_task_id = None;
            DueRefresh::Nothing
        },
    }
}

/// Types a character at the cursor of the focused field, which then stands
/// after it, and what follows (see `after_text_change`).
pub fn insert_editor_char(editor: &mut TaskEditorState, character: char) -> (r: DueRefresh)
    requires
        edit_fits(old(editor)@, LineEdit::Insert(character)),
    ensures
        (final(editor)@, r) == after_text_change(field_edited(old(editor)@, LineEdit::Insert(character))),
{
    edit_focused_field(editor, LineEdit::Insert(character));
    after_editor_text_change(editor)
}

/// Starts a new line at the cursor of the focused field, and what follows.
pub fn insert_editor_newline(editor: &mut TaskEditorState) -> (r: DueRefresh)
    requires
        edit_fits(old(editor)@, LineEdit::Insert('\n')),
    ensures
        (final(editor)@, r) == after_text_change(field_edited(old(editor)@, LineEdit::Insert('\n'))),
{
    insert_editor_char(editor, '\n')
}

/// Deletes the character before the cursor of the focused field, and what
/// follows; nothing where the cursor is at the start.
pub fn delete_editor_char_before_cursor(editor: &mut TaskEditorState) -> (r: DueRefresh)
    requires
        edit_fits(old(editor)@, LineEdit::DeleteBefore),
    ensures
        focused_text(old(editor)@).1 == 0 ==> final(editor)@ == old(editor)@ && r == DueRefresh::Nothing,
        focused_text(old(editor)@).1 > 0 ==> (final(editor)@, r) == after_text_change(
            field_edited(old(editor)@, LineEdit::DeleteBefore),
        ),
{
    if focused_cursor(editor) == 0 {
        return DueRefresh::Nothing;
    }
    edit_focused_field(editor, LineEdit::DeleteBefore);
    after_editor_text_change(editor)
}

/// Deletes the character at the cursor of the focused field, and what
/// follows; nothing where the cursor is at the end.
pub fn delete_editor_char_at_cursor(editor: &mut TaskEditorState) -> (r: DueRefresh)
    ensures
        focused_text(old(editor)@).1 >= focused_text(old(editor)@).0.len() ==> final(editor)@ == old(editor)@
            && r == DueRefresh::Nothing,
        focused_text(old(editor)@).1 < focused_text(old(editor)@).0.len() ==> (final(editor)@, r)
            == after_text_change(field_edited(old(editor)@, LineEdit::DeleteAt)),
{
    let (len, cursor) = focused_extent(editor);
    if cursor >= len {
        return DueRefresh::Nothing;
    }
    edit_focused_field(editor, LineEdit::DeleteAt);
    after_editor_text_change(editor)
}

fn focused_cursor(editor: &TaskEditorState) -> (r: usize)
    ensures
        r == focused_text(editor@).1,
{
    focused_extent(editor).1
}

fn focused_extent(editor: &TaskEditorState) -> (r: (usize, usize))
    ensures
        r.0 == focused_text(editor@).0.len(),
        r.1 == focused_text(editor@).1,
{
    match editor.focused_field {
        TaskEditorField::Title => (editor.title.value.len(), editor.title.cursor),
        TaskEditorField::Description => (editor.description.value.len(), editor.description.cursor),
        TaskEditorField::Project => (editor.project.value.len(), editor.project.cursor),
        TaskEditorField::Tags => (editor.tags.value.len(), editor.tags.cursor),
        TaskEditorField::DueDate => (editor.due_date.value.len(), editor.due_date.cursor),
        TaskEditorField::Priority => (editor.priority.value.len(), editor.priority.cursor),
        TaskEditorField::DueTime => (editor.due_time.value.len(), editor.due_time.cursor),
        TaskEditorField::Recurrence => (editor.recurrence.value.len(), editor.recurrence.cursor),
        TaskEditorField::Parent => (editor.parent.value.len(), editor.parent.cursor),
    }
}

/// The editor with its due fields emptied (cursors at their start), no due
/// words, the due date not from the title, and the date picker closed.
pub open spec fn due_cleared(e: TaskEditorModel) -> TaskEditorModel {
    TaskEditorModel {
        due_date: line_at_end(Seq::empty()),
        due_time: line_at_end(Seq::empty()),
        recurrence: line_at_end(Seq::empty()),
        due_natural: Seq::empty(),
        due_from_title: false,
        calendar: None,
        ..e
    }
}

/// Empties the due fields (see `due_cleared`).
pub fn clear_editor_due(editor: &mut TaskEditorState)
    ensures
        final(editor)@ == due_cleared(old(editor)@),
{
    editor.due_date = empty_line();
    editor.due_time = empty_line();
    editor.recurrence = empty_line();
    editor.due_natural = Vec::new();
    editor.due_from_title = false;
    editor.calendar = None;
}

/// Gives the keyboard to a field.
pub fn focus_editor_field(editor: &mut TaskEditorState, field: TaskEditorField)
    ensures
        final(editor)@ == (TaskEditorModel { focused_field: field, ..old(editor)@ }),
{
    editor.focused_field = field;
}

/// The editor once the title's due words are read: where they name a due
/// date, the due fields hold it written out (their cursors stay), its
/// words are kept and the due date comes from the title; where they name
/// none, a due date that came from the title is cleared.
pub open spec fn due_from_title(e: TaskEditorModel, due: Option<TaskDue>, text: DuePreviewText) -> TaskEditorModel {
    match due {
        Some(d) => {
            let f = due_fields(Some(d), text);
            TaskEditorModel {
                due_date: LineModel { value: f.0, ..e.due_date },
                due_time: LineModel { value: f.1, ..e.due_time },
                recurrence: LineModel { value: f.2, ..e.recurrence },
                due_natural: f.3,
                due_from_title: true,
                ..e
            }
        },
        None => if e.due_from_title {
            due_cleared(e)
        } else {
            e
        },
    }
}

/// Takes in the due date read from the title's words (see
/// `due_from_title`); the reading is done elsewhere and given, written out.
pub fn sync_editor_due_from_title(editor: &mut TaskEditorState, due: Option<&TaskDue>, due_text: &DuePreviewText)
    requires
        due matches Some(d) ==> (d.datetime is Some <==> due_text.time is Some),
    ensures
        final(editor)@ == due_from_title(
            old(editor)@,
            match due {
                Some(d) => Some(*d),
                None => None,
            },
            *due_text,
        ),
{
    match due {
        Some(d) => {
            let (date, time, recurrence, natural) = due_fields_of(Some(d), due_text);
            editor.due_date.value = date;
            editor.due_time.value = time;
            editor.recurrence.value = recurrence;
            editor.due_natural = natural;
            editor.due_from_title = true;
        },
        None => {
            if editor.due_from_title {
                clear_editor_due(editor);
            }
        },
    }
}

/// The editor once the recurrence field's words are read: a blank
/// recurrence clears the due words; one read as recurring sets the due date
/// field (written out), keeps the trimmed recurrence as the due words, and
/// sets the due time where it has one, or empties a blank due time field
/// (cursors stay); otherwise nothing changes.
pub open spec fn due_from_recurrence(e: TaskEditorModel, due: Option<TaskDue>, text: DuePreviewText) -> TaskEditorModel {
    let r = trim_spec(e.recurrence.value);
    if r.len() == 0 {
        TaskEditorModel { due_natural: Seq::empty(), ..e }
    } else {
        match due {
            Some(d) => if !d.is_recurring {
                e
            } else {
                TaskEditorModel {
                    due_date: LineModel { value: text.date@, ..e.due_date },
                    due_natural: r,
                    due_time: if d.datetime is Some {
                        LineModel {
                            value: match text.time {
                                Some(t) => t@,
                                None => Seq::empty(),
                            },
                            ..e.due_time
                        }
                    } else if trim_spec(e.due_time.value).len() == 0 {
                        LineModel { value: Seq::empty(), ..e.due_time }
                    } else {
                        e.due_time
                    },
                    ..e
                }
            },
            None => e,
        }
    }
}

/// Takes in the due date read from the recurrence field's words (see
/// `due_from_recurrence`); the reading is done elsewhere and given, written
/// out.
pub fn sync_editor_due_from_recurrence(editor: &mut TaskEditorState, due: Option<&TaskDue>, due_text: &DuePreviewText)
    ensures
        final(editor)@ == due_from_recurrence(
            old(editor)@,
            match due {
                Some(d) => Some(*d),
                None => None,
            },
            *due_text,
        ),
{
    let recurrence = trim_chars(editor.recurrence.value.as_slice());
    if recurrence.len() == 0 {
        editor.due_natural = Vec::new();
        return;
    }
    match due {
        Some(d) => {
            if !d.is_recurring {
                return;
            }
            editor.due_date.value = chars_of(due_text.date.as_str());
            editor.due_natural = recurrence;
            if d.datetime.is_some() {
                editor.due_time.value = match &due_text.time {
                    Some(t) => chars_of(t.as_str()),
                    None => Vec::new(),
                };
            } else if trim_chars(editor.due_time.value.as_slice()).len() == 0 {
                editor.due_time.value = Vec::new();
            }
        },
        None => {},
    }
}

/// The first day of a day's month, or the day itself where `chrono` gives
/// none.
pub open spec fn month_start_or_self(d: CalendarDate) -> CalendarDate {
    match month_start_day(d.day_number as int) {
        Some(n) => CalendarDate { day_number: n as i32 },
        None => d,
    }
}

fn month_start_of(d: CalendarDate) -> (r: CalendarDate)
    ensures
        r == month_start_or_self(d),
{
    match first_day_of_month(d) {
        Some(first) => first,
        None => d,
    }
}

/// Opens the date picker on the day the due date field names as
/// `YYYY-MM-DD` (trimmed), else on the day of the due date the editor would
/// save (given, as it is read elsewhere), else on today; showing that day's
/// month.
pub fn open_editor_calendar(editor: &mut TaskEditorState, due_date: Option<CalendarDate>, today: CalendarDate)
    ensures
        ({
            let selected = match iso_date_reading(trim_spec(old(editor)@.due_date.value)) {
                Some(n) => CalendarDate { day_number: n as i32 },
                None => match due_date {
                    Some(d) => d,
                    None => today,
                },
            };
            final(editor)@ == (TaskEditorModel {
                calendar: Some(CalendarState { display_date: month_start_or_self(selected), selected_date: selected }),
                ..old(editor)@
            })
        }),
{
    let trimmed = trim_chars(editor.due_date.value.as_slice());
    let text = string_from(trimmed.as_slice());
    let selected_date = match parse_iso_date(text.as_str()) {
        Some(d) => d,
        None => match due_date {
            Some(d) => d,
            None => today,
        },
    };
    let display_date = month_start_of(selected_date);
    editor.calendar = Some(CalendarState { display_date, selected_date });
}

/// The day `days` days on from a day, or the day itself where `chrono`
/// gives none.
pub open spec fn days_on_or_self(d: CalendarDate, days: int) -> CalendarDate {
    match days_added_day(d.day_number as int, days) {
        Some(n) => CalendarDate { day_number: n as i32 },
        None => d,
    }
}

/// Moves the picked day `days` days on (back, where negative), showing its
/// month; nothing where the picker is closed.
pub fn move_calendar_selection(editor: &mut TaskEditorState, days: i64)
    ensures
        match old(editor)@.calendar {
            None => final(editor)@ == old(editor)@,
            Some(c) => {
                let next = days_on_or_self(c.selected_date, days as int);
                final(editor)@ == (TaskEditorModel {
                    calendar: Some(CalendarState { display_date: month_start_or_self(next), selected_date: next }),
                    ..old(editor)@
                })
            },
        },
{
    match editor.calendar {
        None => {},
        Some(c) => {
            let next = match date_after_days(c.selected_date, days) {
                Some(d) => d,
                None => c.selected_date,
            };
            editor.calendar = Some(CalendarState { display_date: month_start_of(next), selected_date: next });
        },
    }
}

/// A day `months` months on (back, where negative), or the day itself
/// where `chrono` gives none.
pub open spec fn months_on_or_self(d: CalendarDate, months: int) -> CalendarDate {
    let shifted = if months >= 0 {
        months_added_day(d.day_number as int, months)
    } else {
        months_subtracted_day(d.day_number as int, -months)
    };
    match shifted {
        Some(n) => CalendarDate { day_number: n as i32 },
        None => d,
    }
}

/// A day `months` months on (back, where negative), or the day itself
/// where there is none.
pub fn shift_calendar_month(date: CalendarDate, months: i32) -> (r: CalendarDate)
    ensures
        r == months_on_or_self(date, months as int),
{
    let shifted = if months >= 0 {
        date_plus_months(date, months as u32)
    } else {
        let back: i64 = -(months as i64);
        date_minus_months(date, back as u32)
    };
    match shifted {
        Some(d) => d,
        None => date,
    }
}

/// Turns the picker's page `months` months on (back, where negative): the
/// month shown and the day picked both move; nothing where it is closed.
pub fn shift_calendar_page(editor: &mut TaskEditorState, months: i32)
    ensures
        match old(editor)@.calendar {
            None => final(editor)@ == old(editor)@,
            Some(c) => final(editor)@ == (TaskEditorModel {
                calendar: Some(CalendarState {
                    display_date: month_start_or_self(months_on_or_self(c.display_date, months as int)),
                    selected_date: months_on_or_self(c.selected_date, months as int),
                }),
                ..old(editor)@
            }),
        },
{
    match editor.calendar {
        None => {},
        Some(c) => {
            let display_date = month_start_of(shift_calendar_month(c.display_date, months));
            let selected_date = shift_calendar_month(c.selected_date, months);
            editor.calendar = Some(CalendarState { display_date, selected_date });
        },
    }
}

/// Takes the picked day into the due date field (as `YYYY-MM-DD`, empty
/// where `chrono` cannot write it) and closes the picker; the due date no
/// longer comes from the title, and without a recurrence there are no due
/// words. Nothing where the picker is closed.
pub fn apply_calendar_selection(editor: &mut TaskEditorState)
    ensures
        match old(editor)@.calendar {
            None => final(editor)@ == old(editor)@,
            Some(c) => final(editor)@ == (TaskEditorModel {
                calendar: None,
                due_date: line_at_end(
                    match iso_date_text(c.selected_date.day_number as int) {
                        Some(t) => t,
                        None => Seq::empty(),
                    },
                ),
                due_from_title: false,
                due_natural: if trim_spec(old(editor)@.recurrence.value).len() == 0 {
                    Seq::empty()
                } else {
                    old(editor)@.due_natural
                },
                ..old(editor)@
            }),
        },
{
    let c = match editor.calendar {
        None => {
            return;
        },
        Some(c) => c,
    };
    editor.calendar = None;
    let text = match date_text(c.selected_date) {
        Some(t) => chars_of(t.as_str()),
        None => Vec::new(),
    };
    editor.due_date = line_with(text);
    editor.due_from_title = false;
    if trim_chars(editor.recurrence.value.as_slice()).len() == 0 {
        editor.due_natural = Vec::new();
    }
}

/// The project the editor's project field names, its own project as the
/// fallback (see `project_resolution`).
pub open spec fn editor_field_project(data: ScreenData, e: TaskEditorModel) -> ProjectId {
    project_resolution(data.projects@, e.project.value, Some(e.project_id))->0
}

/// The draft of the editor's title (see `draft_spec`), filed by default
/// under the project its project field names.
pub open spec fn editor_draft(data: ScreenData, e: TaskEditorModel) -> (Seq<char>, ProjectId, Seq<Seq<char>>, TaskPriority) {
    draft_spec(data, e.title.value, editor_field_project(data, e))
}

/// Reads the editor's title up to its dates (see `editor_draft`).
pub fn editor_title_draft(data: &ScreenData, editor: &TaskEditorState) -> (r: TaskDraft)
    ensures
        r.content@ == editor_draft(*data, editor@).0,
        r.project_id == editor_draft(*data, editor@).1,
        strings_view(r.tag_queries@) == editor_draft(*data, editor@).2,
        r.priority == editor_draft(*data, editor@).3,
{
    let project_text = string_from(editor.project.value.as_slice());
    let project = resolve_project_input(data, project_text.as_str(), Some(editor.project_id));
    let title = string_from(editor.title.value.as_slice());
    task_input_draft(data, title.as_str(), project)
}

/// A text with the line breaks at its end taken off.
pub open spec fn without_trailing_newlines(s: Seq<char>) -> Seq<char>
    decreases s.len(),
{
    if s.len() > 0 && s.last() == '\n' {
        without_trailing_newlines(s.drop_last())
    } else {
        s
    }
}

/// Names added after those of `acc`, each unless it is there already.
pub open spec fn merged_names(acc: Seq<Seq<char>>, more: Seq<Seq<char>>) -> Seq<Seq<char>>
    decreases more.len(),
{
    if more.len() == 0 {
        acc
    } else {
        push_new(merged_names(acc, more.drop_last()), more.last())
    }
}

/// What saving the editor asks of the store: the task to change (none for
/// a new one, which is first created in `create_project_id` with the title
/// and due date of `update`), the change, and the tag words to link it to
/// (each tag found or created).
#[derive(Debug, Clone, PartialEq, Eq)]
pub struct TaskEditorSubmission {
    pub task_id: Option<TaskId>,
    pub create_project_id: ProjectId,
    pub update: TaskUpdate,
    pub tag_queries: Vec<String>,
}

/// The project a saved task goes to: that of the parent the parent field
/// names, where it is found, else the draft's.
pub open spec fn submitted_project(data: ScreenData, parent: Option<TaskId>, draft_project: ProjectId) -> ProjectId {
    match parent {
        Some(id) => match task_with_id(data.tasks@, id) {
            Some(t) => t.project_id,
            None => draft_project,
        },
        None => draft_project,
    }
}

fn trim_trailing_newlines(s: &Vec<char>) -> (r: Vec<char>)
    ensures
        r@ == without_trailing_newlines(s@),
{
    let mut end: usize = s.len();
    assert(s@.take(end as int) =~= s@);
    while end > 0 && s[end - 1] == '\n'
        invariant
            end <= s.len(),
            without_trailing_newlines(s@.take(end as int)) == without_trailing_newlines(s@),
        decreases end,
    {
        assert(s@.take(end as int).drop_last() =~= s@.take(end - 1));
        end -= 1;
    }
    let r = slice_chars(s.as_slice(), 0, end);
    assert(r@ =~= s@.take(end as int));
    r
}

/// Saves the editor: the title's draft (see `editor_draft`), the title left
/// once its due words are taken out and the due date the due fields name
/// (both read elsewhere and given; an error where the due fields cannot be
/// read). None, with nothing saved and the editor kept open, where that
/// title is empty or the due fields cannot be read. Otherwise the task
/// takes the title, the description without line breaks at its end, the
/// project of the named parent (see `submitted_project`), that parent (see
/// `parent_task_resolution`, among tasks of the draft's project), the
/// priority the editor would save, the due date, and the draft's tags
/// followed by those of the tags field not among them.
pub fn submit_task_editor(
    data: &ScreenData,
    editor: &TaskEditorState,
    cleaned_title: &str,
    due: Result<Option<TaskDue>, String>,
) -> (r: Option<TaskEditorSubmission>)
    requires
        editor.task_id is Some ==> forall|i: int|
            0 <= i < data.tasks@.len() && #[trigger] parent_task_base(
                data.tasks@[i],
                data.projects@,
                editor.task_id,
                editor_draft(*data, editor@).1,
            ) ==> task_chain_ends(data.tasks@, data.tasks@[i].id),
    ensures
        r is None <==> (cleaned_title@.len() == 0 || due is Err),
        r matches Some(sub) ==> {
            let d = editor_draft(*data, editor@);
            let parent = parent_task_resolution(*data, editor.parent.value@, editor.task_id, d.1);
            &&& sub.task_id == editor.task_id
            &&& sub.create_project_id == d.1
            &&& sub.update.title@ == cleaned_title@
            &&& sub.update.description@ == without_trailing_newlines(editor.description.value@)
            &&& sub.update.project_id == submitted_project(*data, parent, d.1)
            &&& sub.update.parent_task_id == parent
            &&& sub.update.priority == editor_priority(editor@)
            &&& due == Ok::<Option<TaskDue>, String>(sub.update.due)
            &&& strings_view(sub.tag_queries@) == merged_names(d.2, field_queries_from(editor.tags.value@, 0, Seq::empty()))
        },
{
    let draft = editor_title_draft(data, editor);
    if chars_of(cleaned_title).len() == 0 {
        return None;
    }
    let due = match due {
        Ok(d) => d,
        Err(_) => {
            return None;
        },
    };
    let title = string_from(editor.title.value.as_slice());
    let priority_text = string_from(editor.priority.value.as_slice());
    let priority = match last_priority_token(title.as_str()) {
        Some(p) => p,
        None => match parse_priority_input(priority_text.as_str()) {
            Some(p) => p,
            None => TaskPriority::P4,
        },
    };
    let parent_text = string_from(editor.parent.value.as_slice());
    let parent = resolve_parent_task_input(data, parent_text.as_str(), editor.task_id, draft.project_id);
    let project_id = match parent {
        Some(id) => match task_by_id(data.tasks.as_slice(), id) {
            Some(t) => t.project_id,
            None => draft.project_id,
        },
        None => draft.project_id,
    };
    let description = trim_trailing_newlines(&editor.description.value);
    let tags_text = string_from(editor.tags.value.as_slice());
    let field_queries = parse_tags_field_queries(tags_text.as_str());
    let mut tag_queries = draft.tag_queries;
    let ghost start = strings_view(tag_queries@);
    let ghost more = strings_view(field_queries@);
    let mut i: usize = 0;
    while i < field_queries.len()
        invariant
            i <= field_queries.len(),
            more == strings_view(field_queries@),
            strings_view(tag_queries@) == merged_names(start, more.take(i as int)),
        decreases field_queries.len() - i,
    {
        let q = chars_of(field_queries[i].as_str());
        proof {
            assert(more.take(i + 1).drop_last() =~= more.take(i as int));
            assert(more.take(i + 1).last() == q@);
        }
        if !contains_string(&tag_queries, &q) {
            let ghost before = strings_view(tag_queries@);
            tag_queries.push(string_from(q.as_slice()));
            assert(strings_view(tag_queries@) =~= before.push(q@));
        }
        i += 1;
    }
    assert(more.take(field_queries.len() as int) =~= more);
    Some(TaskEditorSubmission {
        task_id: editor.task_id,
        create_project_id: draft.project_id,
        update: TaskUpdate {
            title: string_of(cleaned_title),
            description: string_from(description.as_slice()),
            project_id,
            parent_task_id: parent,
            priority,
            due,
        },
        tag_queries,
    })
}

/// A key pressed while the task editor is open (modifiers only matter for
/// Ctrl+E).
#[derive(Debug, Clone, Copy, PartialEq, Eq, Structural)]
pub enum EditorKey {
    Esc,
    Enter,
    Tab,
    BackTab,
    F(u8),
    Up,
    Down,
    Left,
    Right,
    Home,
    End,
    PageUp,
    PageDown,
    Backspace,
    Delete,
    Char(char),
    Ctrl(char),
    Other,
}

/// What a key leaves to be done outside the editor: nothing more; close
/// it; save it (the dates are read, then `submit_task_editor`); edit the
/// description in an outside editor; open the date picker (the due date
/// the editor would save is read, then `open_editor_calendar`); find or
/// create a tag, then `complete_task_editor_tag_token` (and, in the title,
/// `after_editor_text_change`); or read due words (see `DueRefresh`).
#[derive(Debug, Clone, PartialEq, Eq)]
pub enum EditorKeyOutcome {
    Kept,
    Closed,
    Submit,
    EditDescription,
    OpenCalendar,
    NeedsTag { in_title: bool, start: usize, end: usize, query: String },
    ReadDue(DueRefresh),
}

/// `EditorKeyOutcome` as values.
pub enum KeyResult {
    Kept,
    Closed,
    Submit,
    EditDescription,
    OpenCalendar,
    NeedsTag(bool, int, int, Seq<char>),
    ReadDue(DueRefresh),
}

/// Whether an outcome is the one described.
pub open spec fn outcome_is(o: EditorKeyOutcome, k: KeyResult) -> bool {
    match (o, k) {
        (EditorKeyOutcome::Kept, KeyResult::Kept) => true,
        (EditorKeyOutcome::Closed, KeyResult::Closed) => true,
        (EditorKeyOutcome::Submit, KeyResult::Submit) => true,
        (EditorKeyOutcome::EditDescription, KeyResult::EditDescription) => true,
        (EditorKeyOutcome::OpenCalendar, KeyResult::OpenCalendar) => true,
        (EditorKeyOutcome::NeedsTag { in_title, start, end, query }, KeyResult::NeedsTag(t, s, e, q)) => in_title
            == t && start == s && end == e && query@ == q,
        (EditorKeyOutcome::ReadDue(a), KeyResult::ReadDue(b)) => a == b,
        _ => false,
    }
}

/// The field after a field in Tab order; the last stays.
pub open spec fn field_after(f: TaskEditorField) -> TaskEditorField {
    match f {
        TaskEditorField::Title => TaskEditorField::Description,
        TaskEditorField::Description => TaskEditorField::Project,
        TaskEditorField::Project => TaskEditorField::Tags,
        TaskEditorField::Tags => TaskEditorField::DueDate,
        TaskEditorField::DueDate => TaskEditorField::Priority,
        TaskEditorField::Priority => TaskEditorField::DueTime,
        TaskEditorField::DueTime => TaskEditorField::Recurrence,
        TaskEditorField::Recurrence => TaskEditorField::Parent,
        TaskEditorField::Parent => TaskEditorField::Parent,
    }
}

/// The field before a field in Tab order; the first stays.
pub open spec fn field_before(f: TaskEditorField) -> TaskEditorField {
    match f {
        TaskEditorField::Title => TaskEditorField::Title,
        TaskEditorField::Description => TaskEditorField::Title,
        TaskEditorField::Project => TaskEditorField::Description,
        TaskEditorField::Tags => TaskEditorField::Project,
        TaskEditorField::DueDate => TaskEditorField::Tags,
        TaskEditorField::Priority => TaskEditorField::DueDate,
        TaskEditorField::DueTime => TaskEditorField::Priority,
        TaskEditorField::Recurrence => TaskEditorField::DueTime,
        TaskEditorField::Parent => TaskEditorField::Recurrence,
    }
}

/// The field a function key from F1 to F9 focuses.
pub open spec fn field_of_key(n: u8) -> Option<TaskEditorField> {
    if n == 1 {
        Some(TaskEditorField::Title)
    } else if n == 2 {
        Some(TaskEditorField::Description)
    } else if n == 3 {
        Some(TaskEditorField::Project)
    } else if n == 4 {
        Some(TaskEditorField::Tags)
    } else if n == 5 {
        Some(TaskEditorField::DueDate)
    } else if n == 6 {
        Some(TaskEditorField::Priority)
    } else if n == 7 {
        Some(TaskEditorField::DueTime)
    } else if n == 8 {
        Some(TaskEditorField::Recurrence)
    } else if n == 9 {
        Some(TaskEditorField::Parent)
    } else {
        None
    }
}

/// A key the date picker handles: Esc closes it, Enter takes its day,
/// left/right (or h/l) move a day, up/down (or k/j) a week, page up/down a
/// month; others do nothing.
pub open spec fn calendar_key_step(e: TaskEditorModel, c: CalendarState, key: EditorKey) -> TaskEditorModel {
    let moved = |days: int|
        {
            let next = days_on_or_self(c.selected_date, days);
            TaskEditorModel {
                calendar: Some(CalendarState { display_date: month_start_or_self(next), selected_date: next }),
                ..e
            }
        };
    let paged = |months: int|
        TaskEditorModel {
            calendar: Some(
                CalendarState {
                    display_date: month_start_or_self(months_on_or_self(c.display_date, months)),
                    selected_date: months_on_or_self(c.selected_date, months),
                },
            ),
            ..e
        };
    match key {
        EditorKey::Esc => TaskEditorModel { calendar: None, ..e },
        EditorKey::Enter => TaskEditorModel {
            calendar: None,
            due_date: line_at_end(
                match iso_date_text(c.selected_date.day_number as int) {
                    Some(t) => t,
                    None => Seq::empty(),
                },
            ),
            due_from_title: false,
            due_natural: if trim_spec(e.recurrence.value).len() == 0 {
                Seq::empty()
            } else {
                e.due_natural
            },
            ..e
        },
        EditorKey::Left => moved(-1),
        EditorKey::Right => moved(1),
        EditorKey::Up => moved(-7),
        EditorKey::Down => moved(7),
        EditorKey::Char(ch) => if ch == 'h' {
            moved(-1)
        } else if ch == 'l' {
            moved(1)
        } else if ch == 'k' {
            moved(-7)
        } else if ch == 'j' {
            moved(7)
        } else {
            e
        },
        EditorKey::Ctrl(ch) => if ch == 'h' {
            moved(-1)
        } else if ch == 'l' {
            moved(1)
        } else if ch == 'k' {
            moved(-7)
        } else if ch == 'j' {
            moved(7)
        } else {
            e
        },
        EditorKey::PageUp => paged(-1),
        EditorKey::PageDown => paged(1),
        _ => e,
    }
}

/// Whether the tag word in the title may be completed on Enter: it has no
/// white space and names no tag exactly.
pub open spec fn enter_completes_tag(data: ScreenData, e: TaskEditorModel) -> bool {
    match active_tag_query_spec(e.title.value, e.title.cursor as int, false) {
        Some((_s, _e, q)) => {
            &&& !(exists|i: int| 0 <= i < q.len() && is_white_space(#[trigger] q[i]))
            &&& !(tag_query_name(q).len() > 0 && exists|i: int|
                0 <= i < data.tags@.len() && data.tags@[i].deleted_at is None && #[trigger] eq_ignore_ascii_case(
                    data.tags@[i].name@,
                    tag_query_name(q),
                ))
        },
        None => false,
    }
}

/// Enter or Tab in the title: the project suggestion, else (on Enter only
/// where `enter_completes_tag`) the tag suggestion, else the priority
/// suggestion for the word under the cursor; each followed by
/// `after_text_change`.
pub open spec fn title_attempts(data: ScreenData, e: TaskEditorModel, on_enter: bool) -> Option<(TaskEditorModel, KeyResult)> {
    match project_word_accept(data, e.title.value, e.title.cursor as int, e.suggestion_index as int) {
        Some((v, c, k)) => {
            let (m, r) = after_text_change(
                TaskEditorModel {
                    project: line_at_end(data.projects@[k as int].name@),
                    project_id: data.projects@[k as int].id,
                    ..with_title(e, v, c)
                },
            );
            Some((m, KeyResult::ReadDue(r)))
        },
        None => {
            let tag = if !on_enter || enter_completes_tag(data, e) {
                tag_word_accept(data, e.title.value, e.title.cursor as int, e.suggestion_index as int, false)
            } else {
                None
            };
            match tag {
                Some(Ok((v, c))) => {
                    let (m, r) = after_text_change(with_title(e, v, c));
                    Some((m, KeyResult::ReadDue(r)))
                },
                Some(Err((s, en, q))) => Some((e, KeyResult::NeedsTag(true, s, en, q))),
                None => match title_priority_accept(e.title.value, e.title.cursor as int, e.suggestion_index as int) {
                    Some((v, c)) => {
                        let (m, r) = after_text_change(with_title(e, v, c));
                        Some((m, KeyResult::ReadDue(r)))
                    },
                    None => None,
                },
            }
        },
    }
}

/// The parent the parent field names, taken into the editor (see
/// `accept_task_editor_parent_suggestion`), where it is focused.
pub open spec fn parent_accepted(data: ScreenData, e: TaskEditorModel) -> Option<TaskEditorModel> {
    if e.focused_field != TaskEditorField::Parent {
        None
    } else {
        match parent_task_resolution(data, e.parent.value, e.task_id, e.project_id) {
            Some(id) => match task_with_id(data.tasks@, id) {
                Some(t) => Some(
                    TaskEditorModel { parent: line_at_end(t.title@), parent_task_id: Some(id), suggestion_index: 0, ..e },
                ),
                None => None,
            },
            None => None,
        }
    }
}

/// Enter or Tab outside the description: the first suggestion that the
/// focused field takes (see the `accept_task_editor_*` functions), if any.
pub open spec fn accept_chain(data: ScreenData, e: TaskEditorModel, on_enter: bool) -> Option<(TaskEditorModel, KeyResult)> {
    let title = if e.focused_field == TaskEditorField::Title {
        title_attempts(data, e, on_enter)
    } else {
        None
    };
    match title {
        Some(x) => Some(x),
        None => if e.focused_field == TaskEditorField::Project && project_field_accept(data, e) is Some {
            let k = project_field_accept(data, e)->0;
            Some(
                (
                    TaskEditorModel {
                        project: line_at_end(data.projects@[k as int].name@),
                        project_id: data.projects@[k as int].id,
                        suggestion_index: 0,
                        ..e
                    },
                    KeyResult::Kept,
                ),
            )
        } else {
            let tags = if e.focused_field == TaskEditorField::Tags {
                tag_word_accept(data, e.tags.value, e.tags.cursor as int, e.suggestion_index as int, true)
            } else {
                None
            };
            match tags {
                Some(Ok((v, c))) => Some(
                    (
                        TaskEditorModel { tags: LineModel { value: v, cursor: c as nat }, suggestion_index: 0, ..e },
                        KeyResult::Kept,
                    ),
                ),
                Some(Err((s, en, q))) => Some((e, KeyResult::NeedsTag(false, s, en, q))),
                None => match priority_field_accept(e) {
                    Some(p) => Some((TaskEditorModel { priority: line_at_end(p), suggestion_index: 0, ..e }, KeyResult::Kept)),
                    None => match parent_accepted(data, e) {
                        Some(m) => Some((m, KeyResult::Kept)),
                        None => None,
                    },
                },
            }
        },
    }
}

/// The highlighted suggestion one further down (at most the last) or up
/// (at least the first).
pub open spec fn moved_index(i: nat, len: nat, down: bool) -> nat {
    if down {
        let last: nat = if len == 0 {
            0
        } else {
            (len - 1) as nat
        };
        if i + 1 <= last {
            i + 1
        } else {
            last
        }
    } else if i == 0 {
        0
    } else {
        (i - 1) as nat
    }
}

/// How many suggestions the word under the title's cursor has, where it is
/// a project, tag or priority word.
pub open spec fn title_suggestion_count(data: ScreenData, e: TaskEditorModel) -> Option<nat> {
    match active_project_query_spec(data.projects@, e.title.value, e.title.cursor as int) {
        Some((_s, _e, q)) => Some(project_query_places(data, q).len()),
        None => match active_tag_query_spec(e.title.value, e.title.cursor as int, false) {
            Some((_s, _e, q)) => Some(tag_suggestions_spec(data.tags@, q).len()),
            None => match active_priority_query_spec(e.title.value, e.title.cursor as int) {
                Some((_s, _e, q)) => Some(priority_suggestions_spec(q).len()),
                None => None,
            },
        },
    }
}

/// Up or down: a line up or down in the description, else the highlighted
/// suggestion of the focused field's list one up or down (in the title and
/// the tags field only while a word with suggestions is typed).
pub open spec fn navigated(data: ScreenData, e: TaskEditorModel, down: bool) -> TaskEditorModel {
    let i = e.suggestion_index;
    match e.focused_field {
        TaskEditorField::Description => TaskEditorModel {
            description: scrolled(
                e.description.value,
                vertical_target(e.description.value, e.description.cursor as int, !down) as nat,
                e.description.scroll,
                DESCRIPTION_VIEWPORT_LINES as nat,
            ),
            ..e
        },
        TaskEditorField::Project => TaskEditorModel {
            suggestion_index: moved_index(i, project_query_places(data, e.project.value).len(), down),
            ..e
        },
        TaskEditorField::Title => match title_suggestion_count(data, e) {
            Some(n) => TaskEditorModel { suggestion_index: moved_index(i, n, down), ..e },
            None => e,
        },
        TaskEditorField::Priority => TaskEditorModel {
            suggestion_index: moved_index(i, priority_suggestions_spec(e.priority.value).len(), down),
            ..e
        },
        TaskEditorField::Tags => match active_tag_query_spec(e.tags.value, e.tags.cursor as int, true) {
            Some((_s, _e, q)) => TaskEditorModel {
                suggestion_index: moved_index(i, tag_suggestions_spec(data.tags@, q).len(), down),
                ..e
            },
            None => e,
        },
        TaskEditorField::Parent => TaskEditorModel {
            suggestion_index: moved_index(
                i,
                parent_task_suggestions_spec(data, e.parent.value, e.task_id, e.project_id).len(),
                down,
            ),
            ..e
        },
        _ => e,
    }
}

/// Whether j and k move through the focused field rather than being typed:
/// in the description, project and parent fields.
pub open spec fn navigates_with_letters(e: TaskEditorModel, ch: char) -> bool {
    (ch == 'j' || ch == 'k') && (e.focused_field == TaskEditorField::Description || e.focused_field
        == TaskEditorField::Project || e.focused_field == TaskEditorField::Parent)
}

/// A character typed into the focused field, what follows, and no
/// suggestion highlighted past the first.
pub open spec fn typed(e: TaskEditorModel, ch: char) -> (TaskEditorModel, KeyResult) {
    let (m, r) = after_text_change(field_edited(e, LineEdit::Insert(ch)));
    (TaskEditorModel { suggestion_index: 0, ..m }, KeyResult::ReadDue(r))
}

/// The change a key makes to the text of the focused field, if any.
pub open spec fn key_edit(e: TaskEditorModel, key: EditorKey) -> Option<LineEdit> {
    if e.calendar is Some {
        None
    } else {
        match key {
            EditorKey::Left => Some(LineEdit::Left),
            EditorKey::Backspace => Some(LineEdit::DeleteBefore),
            EditorKey::Enter => if e.focused_field == TaskEditorField::Description {
                Some(LineEdit::Insert('\n'))
            } else {
                None
            },
            EditorKey::Char(ch) => if navigates_with_letters(e, ch) {
                None
            } else {
                Some(LineEdit::Insert(ch))
            },
            EditorKey::Ctrl(ch) => if (ch == 'e' && e.focused_field == TaskEditorField::Description)
                || navigates_with_letters(e, ch) {
                None
            } else {
                Some(LineEdit::Insert(ch))
            },
            _ => None,
        }
    }
}

/// What a key does to the task editor and what it leaves to be done.
pub open spec fn editor_key_step(data: ScreenData, e: TaskEditorModel, key: EditorKey) -> (TaskEditorModel, KeyResult) {
    match e.calendar {
        Some(c) => (calendar_key_step(e, c, key), KeyResult::Kept),
        None => match key {
            EditorKey::Esc => (e, KeyResult::Closed),
            EditorKey::F(n) => if n == 12 {
                (e, KeyResult::Submit)
            } else if field_of_key(n) is Some {
                if n <= 6 {
                    (TaskEditorModel { focused_field: field_of_key(n)->0, suggestion_index: 0, ..e }, KeyResult::Kept)
                } else {
                    (TaskEditorModel { focused_field: field_of_key(n)->0, ..e }, KeyResult::Kept)
                }
            } else if n == 10 && e.focused_field == TaskEditorField::DueDate {
                (e, KeyResult::OpenCalendar)
            } else if n == 11 {
                (due_cleared(e), KeyResult::Kept)
            } else {
                (e, KeyResult::Kept)
            },
            EditorKey::Enter => if e.focused_field == TaskEditorField::Description {
                let (m, r) = after_text_change(field_edited(e, LineEdit::Insert('\n')));
                (m, KeyResult::ReadDue(r))
            } else {
                match accept_chain(data, e, true) {
                    Some(x) => x,
                    None => (e, KeyResult::Submit),
                }
            },
            EditorKey::Tab => match accept_chain(data, e, false) {
                Some(x) => x,
                None => (
                    TaskEditorModel { focused_field: field_after(e.focused_field), suggestion_index: 0, ..e },
                    KeyResult::Kept,
                ),
            },
            EditorKey::BackTab => (
                TaskEditorModel { focused_field: field_before(e.focused_field), suggestion_index: 0, ..e },
                KeyResult::Kept,
            ),
            EditorKey::Down => (navigated(data, e, true), KeyResult::Kept),
            EditorKey::Up => (navigated(data, e, false), KeyResult::Kept),
            EditorKey::Char(ch) => if navigates_with_letters(e, ch) {
                (navigated(data, e, ch == 'j'), KeyResult::Kept)
            } else {
                typed(e, ch)
            },
            EditorKey::Ctrl(ch) => if ch == 'e' && e.focused_field == TaskEditorField::Description {
                (e, KeyResult::EditDescription)
            } else if navigates_with_letters(e, ch) {
                (navigated(data, e, ch == 'j'), KeyResult::Kept)
            } else {
                typed(e, ch)
            },
            EditorKey::Home => (field_edited(e, LineEdit::Home), KeyResult::Kept),
            EditorKey::Left => (field_edited(e, LineEdit::Left), KeyResult::Kept),
            EditorKey::Right => (field_edited(e, LineEdit::Right), KeyResult::Kept),
            EditorKey::End => (field_edited(e, LineEdit::End), KeyResult::Kept),
            EditorKey::Backspace => {
                let (m, r) = if focused_text(e).1 == 0 {
                    (e, DueRefresh::Nothing)
                } else {
                    after_text_change(field_edited(e, LineEdit::DeleteBefore))
                };
                (TaskEditorModel { suggestion_index: 0, ..m }, KeyResult::ReadDue(r))
            },
            EditorKey::Delete => {
                let (m, r) = if focused_text(e).1 >= focused_text(e).0.len() {
                    (e, DueRefresh::Nothing)
                } else {
                    after_text_change(field_edited(e, LineEdit::DeleteAt))
                };
                (TaskEditorModel { suggestion_index: 0, ..m }, KeyResult::ReadDue(r))
            },
            _ => (e, KeyResult::Kept),
        },
    }
}

fn calendar_key(editor: &mut TaskEditorState, key: EditorKey)
    requires
        old(editor)@.calendar is Some,
    ensures
        final(editor)@ == calendar_key_step(old(editor)@, old(editor)@.calendar->0, key),
{
    let (days, months): (i64, i32) = match key {
        EditorKey::Esc => {
            editor.calendar = None;
            return;
        },
        EditorKey::Enter => {
            apply_calendar_selection(editor);
            return;
        },
        EditorKey::Left => (-1, 0),
        EditorKey::Right => (1, 0),
        EditorKey::Up => (-7, 0),
        EditorKey::Down => (7, 0),
        EditorKey::Char(ch) | EditorKey::Ctrl(ch) => if ch == 'h' {
            (-1, 0)
        } else if ch == 'l' {
            (1, 0)
        } else if ch == 'k' {
            (-7, 0)
        } else if ch == 'j' {
            (7, 0)
        } else {
            return;
        },
        EditorKey::PageUp => (0, -1),
        EditorKey::PageDown => (0, 1),
        _ => {
            return;
        },
    };
    if months == 0 {
        move_calendar_selection(editor, days);
    } else {
        shift_calendar_page(editor, months);
    }
}

fn has_white(s: &[char]) -> (r: bool)
    ensures
        r == exists|i: int| 0 <= i < s@.len() && is_white_space(#[trigger] s@[i]),
{
    let mut i: usize = 0;
    while i < s.len()
        invariant
            i <= s.len(),
            forall|j: int| 0 <= j < i ==> !is_white_space(#[trigger] s@[j]),
        decreases s.len() - i,
    {
        if crate::text::is_whitespace(s[i]) {
            return true;
        }
        i += 1;
    }
    false
}

fn enter_may_complete_tag(data: &ScreenData, editor: &TaskEditorState) -> (r: bool)
    ensures
        r == enter_completes_tag(*data, editor@),
{
    let title = string_from(editor.title.value.as_slice());
    match active_tag_query(title.as_str(), editor.title.cursor) {
        Some((_s, _e, query)) => {
            let q = chars_of(query.as_str());
            !has_white(q.as_slice()) && !has_exact_tag_name(data, query.as_str())
        },
        None => false,
    }
}

fn title_key_attempts(data: &ScreenData, editor: &mut TaskEditorState, on_enter: bool) -> (r: Option<EditorKeyOutcome>)
    requires
        old(editor)@.focused_field == TaskEditorField::Title,
    ensures
        match title_attempts(*data, old(editor)@, on_enter) {
            None => r is None && final(editor)@ == old(editor)@,
            Some((m, k)) => r matches Some(o) && outcome_is(o, k) && final(editor)@ == m,
        },
{
    if accept_task_editor_title_project_suggestion(data, editor) {
        let refresh = after_editor_text_change(editor);
        return Some(EditorKeyOutcome::ReadDue(refresh));
    }
    let allowed = if on_enter {
        enter_may_complete_tag(data, editor)
    } else {
        true
    };
    if allowed {
        match accept_task_editor_tag_suggestion(data, editor, true) {
            TagTokenStep::Accepted => {
                let refresh = after_editor_text_change(editor);
                return Some(EditorKeyOutcome::ReadDue(refresh));
            },
            TagTokenStep::NeedsTag { start, end, query } => {
                return Some(EditorKeyOutcome::NeedsTag { in_title: true, start, end, query });
            },
            TagTokenStep::NoToken => {},
        }
    }
    if accept_task_editor_title_priority_suggestion(editor) {
        let refresh = after_editor_text_change(editor);
        return Some(EditorKeyOutcome::ReadDue(refresh));
    }
    None
}

fn accept_in_focused_field(data: &ScreenData, editor: &mut TaskEditorState, on_enter: bool) -> (r: Option<EditorKeyOutcome>)
    requires
        old(editor).focused_field == TaskEditorField::Parent && old(editor).task_id is Some ==> forall|i: int|
            0 <= i < data.tasks@.len() && #[trigger] parent_task_base(
                data.tasks@[i],
                data.projects@,
                old(editor).task_id,
                old(editor).project_id,
            ) ==> task_chain_ends(data.tasks@, data.tasks@[i].id),
    ensures
        match accept_chain(*data, old(editor)@, on_enter) {
            None => r is None && final(editor)@ == old(editor)@,
            Some((m, k)) => r matches Some(o) && outcome_is(o, k) && final(editor)@ == m,
        },
{
    if editor.focused_field == TaskEditorField::Title {
        match title_key_attempts(data, editor, on_enter) {
            Some(o) => {
                return Some(o);
            },
            None => {},
        }
    }
    if accept_task_editor_project_field_suggestion(data, editor) {
        return Some(EditorKeyOutcome::Kept);
    }
    if editor.focused_field == TaskEditorField::Tags {
        match accept_task_editor_tag_suggestion(data, editor, false) {
            TagTokenStep::Accepted => {
                return Some(EditorKeyOutcome::Kept);
            },
            TagTokenStep::NeedsTag { start, end, query } => {
                return Some(EditorKeyOutcome::NeedsTag { in_title: false, start, end, query });
            },
            TagTokenStep::NoToken => {},
        }
    }
    if accept_task_editor_priority_suggestion(editor) {
        return Some(EditorKeyOutcome::Kept);
    }
    if editor.focused_field == TaskEditorField::Parent {
        if accept_task_editor_parent_suggestion(data, editor) {
            return Some(EditorKeyOutcome::Kept);
        }
    }
    None
}

fn moved_index_of(i: usize, len: usize, down: bool) -> (r: usize)
    ensures
        r == moved_index(i as nat, len as nat, down),
{
    if down {
        let last = if len == 0 {
            0
        } else {
            len - 1
        };
        if i < last {
            i + 1
        } else {
            last
        }
    } else if i == 0 {
        0
    } else {
        i - 1
    }
}

fn navigate(data: &ScreenData, editor: &mut TaskEditorState, down: bool)
    requires
        old(editor).focused_field == TaskEditorField::Parent && old(editor).task_id is Some ==> forall|i: int|
            0 <= i < data.tasks@.len() && #[trigger] parent_task_base(
                data.tasks@[i],
                data.projects@,
                old(editor).task_id,
                old(editor).project_id,
            ) ==> task_chain_ends(data.tasks@, data.tasks@[i].id),
    ensures
        final(editor)@ == navigated(*data, old(editor)@, down),
{
    let i = editor.suggestion_index;
    match editor.focused_field {
        TaskEditorField::Description => {
            move_editor_description_cursor_vertical(editor, if down { 1 } else { -1 });
        },
        TaskEditorField::Project => {
            let text = string_from(editor.project.value.as_slice());
            let places = project_suggestions(data, text.as_str());
            editor.suggestion_index = moved_index_of(i, places.len(), down);
        },
        TaskEditorField::Title => {
            let title = string_from(editor.title.value.as_slice());
            let count = match active_project_query(data, title.as_str(), editor.title.cursor) {
                Some((_s, _e, q)) => Some(project_suggestions(data, q.as_str()).len()),
                None => match active_tag_query(title.as_str(), editor.title.cursor) {
                    Some((_s, _e, q)) => Some(tag_suggestions(data, q.as_str()).len()),
                    None => match active_priority_query(title.as_str(), editor.title.cursor) {
                        Some((_s, _e, q)) => Some(priority_suggestions(q.as_str()).len()),
                        None => None,
                    },
                },
            };
            match count {
                Some(n) => {
                    editor.suggestion_index = moved_index_of(i, n, down);
                },
                None => {},
            }
        },
        TaskEditorField::Priority => {
            let text = string_from(editor.priority.value.as_slice());
            let n = priority_suggestions(text.as_str()).len();
            editor.suggestion_index = moved_index_of(i, n, down);
        },
        TaskEditorField::Tags => {
            let text = string_from(editor.tags.value.as_slice());
            match active_tag_field_query(text.as_str(), editor.tags.cursor) {
                Some((_s, _e, q)) => {
                    let n = tag_suggestions(data, q.as_str()).len();
                    editor.suggestion_index = moved_index_of(i, n, down);
                },
                None => {},
            }
        },
        TaskEditorField::Parent => {
            let text = string_from(editor.parent.value.as_slice());
            let n = parent_task_suggestions(data, text.as_str(), editor.task_id, editor.project_id).len();
            editor.suggestion_index = moved_index_of(i, n, down);
        },
        _ => {},
    }
}

fn type_char(editor: &mut TaskEditorState, ch: char) -> (r: EditorKeyOutcome)
    requires
        edit_fits(old(editor)@, LineEdit::Insert(ch)),
    ensures
        final(editor)@ == typed(old(editor)@, ch).0,
        outcome_is(r, typed(old(editor)@, ch).1),
{
    let refresh = insert_editor_char(editor, ch);
    editor.suggestion_index = 0;
    EditorKeyOutcome::ReadDue(refresh)
}

fn focus_from_key(n: u8) -> (r: Option<TaskEditorField>)
    ensures
        r == field_of_key(n),
{
    if n == 1 {
        Some(TaskEditorField::Title)
    } else if n == 2 {
        Some(TaskEditorField::Description)
    } else if n == 3 {
        Some(TaskEditorField::Project)
    } else if n == 4 {
        Some(TaskEditorField::Tags)
    } else if n == 5 {
        Some(TaskEditorField::DueDate)
    } else if n == 6 {
        Some(TaskEditorField::Priority)
    } else if n == 7 {
        Some(TaskEditorField::DueTime)
    } else if n == 8 {
        Some(TaskEditorField::Recurrence)
    } else if n == 9 {
        Some(TaskEditorField::Parent)
    } else {
        None
    }
}

proof fn lemma_field_order_determines(a: TaskEditorField, b: TaskEditorField)
    requires
        crate::app::task_field_order(a) == crate::app::task_field_order(b),
    ensures
        a == b,
{
    match a {
        TaskEditorField::Title => {},
        TaskEditorField::Description => {},
        TaskEditorField::Project => {},
        TaskEditorField::Tags => {},
        TaskEditorField::DueDate => {},
        TaskEditorField::Priority => {},
        TaskEditorField::DueTime => {},
        TaskEditorField::Recurrence => {},
        TaskEditorField::Parent => {},
    }
}

/// Handles a key while the task editor is open (see `editor_key_step`):
/// the date picker takes the keys while it is open; otherwise Esc closes,
/// F12 saves, Enter and Tab take the focused field's suggestion (Enter
/// otherwise saves, Tab moves to the next field), F1 to F9 focus a field,
/// up and down move through suggestions (or lines of the description), F10
/// opens the date picker from the due date field, F11 clears the due date,
/// and the other keys edit the focused field.
#[verifier::rlimit(60)]
#[verifier::spinoff_prover]
pub fn handle_task_editor_key(data: &ScreenData, editor: &mut TaskEditorState, key: EditorKey) -> (r: EditorKeyOutcome)
    requires
        key_edit(old(editor)@, key) matches Some(op) ==> edit_fits(old(editor)@, op),
        old(editor).focused_field == TaskEditorField::Parent && old(editor).task_id is Some ==> forall|i: int|
            0 <= i < data.tasks@.len() && #[trigger] parent_task_base(
                data.tasks@[i],
                data.projects@,
                old(editor).task_id,
                old(editor).project_id,
            ) ==> task_chain_ends(data.tasks@, data.tasks@[i].id),
    ensures
        final(editor)@ == editor_key_step(*data, old(editor)@, key).0,
        outcome_is(r, editor_key_step(*data, old(editor)@, key).1),
{
    if editor.calendar.is_some() {
        calendar_key(editor, key);
        return EditorKeyOutcome::Kept;
    }
    match key {
        EditorKey::Esc => EditorKeyOutcome::Closed,
        EditorKey::F(n) => {
            if n == 12 {
                return EditorKeyOutcome::Submit;
            }
            match focus_from_key(n) {
                Some(field) => {
                    editor.focused_field = field;
                    if n <= 6 {
                        editor.suggestion_index = 0;
                    }
                    EditorKeyOutcome::Kept
                },
                None => {
                    if n == 10 && editor.focused_field == TaskEditorField::DueDate {
                        EditorKeyOutcome::OpenCalendar
                    } else {
                        if n == 11 {
                            clear_editor_due(editor);
                        }
                        EditorKeyOutcome::Kept
                    }
                },
            }
        },
        EditorKey::Enter => {
            if editor.focused_field == TaskEditorField::Description {
                let refresh = insert_editor_newline(editor);
                return EditorKeyOutcome::ReadDue(refresh);
            }
            match accept_in_focused_field(data, editor, true) {
                Some(o) => o,
                None => EditorKeyOutcome::Submit,
            }
        },
        EditorKey::Tab => {
            match accept_in_focused_field(data, editor, false) {
                Some(o) => o,
                None => {
                    let before = editor.focused_field;
                    let next = before.next();
                    proof {
                        lemma_field_order_determines(next, field_after(before));
                    }
                    editor.focused_field = next;
                    editor.suggestion_index = 0;
                    EditorKeyOutcome::Kept
                },
            }
        },
        EditorKey::BackTab => {
            let before = editor.focused_field;
            let previous = before.previous();
            proof {
                lemma_field_order_determines(previous, field_before(before));
            }
            editor.focused_field = previous;
            editor.suggestion_index = 0;
            EditorKeyOutcome::Kept
        },
        EditorKey::Down => {
            navigate(data, editor, true);
            EditorKeyOutcome::Kept
        },
        EditorKey::Up => {
            navigate(data, editor, false);
            EditorKeyOutcome::Kept
        },
        EditorKey::Char(ch) => {
            let letters = (ch == 'j' || ch == 'k') && (editor.focused_field == TaskEditorField::Description
                || editor.focused_field == TaskEditorField::Project || editor.focused_field
                == TaskEditorField::Parent);
            if letters {
                navigate(data, editor, ch == 'j');
                EditorKeyOutcome::Kept
            } else {
                type_char(editor, ch)
            }
        },
        EditorKey::Ctrl(ch) => {
            if ch == 'e' && editor.focused_field == TaskEditorField::Description {
                return EditorKeyOutcome::EditDescription;
            }
            let letters = (ch == 'j' || ch == 'k') && (editor.focused_field == TaskEditorField::Description
                || editor.focused_field == TaskEditorField::Project || editor.focused_field
                == TaskEditorField::Parent);
            if letters {
                navigate(data, editor, ch == 'j');
                EditorKeyOutcome::Kept
            } else {
                type_char(editor, ch)
            }
        },
        EditorKey::Home => {
            move_editor_cursor_home(editor);
            EditorKeyOutcome::Kept
        },
        EditorKey::Left => {
            move_editor_cursor_left(editor);
            EditorKeyOutcome::Kept
        },
        EditorKey::Right => {
            move_editor_cursor_right(editor);
            EditorKeyOutcome::Kept
        },
        EditorKey::End => {
            move_editor_cursor_end(editor);
            EditorKeyOutcome::Kept
        },
        EditorKey::Backspace => {
            let refresh = delete_editor_char_before_cursor(editor);
            editor.suggestion_index = 0;
            EditorKeyOutcome::ReadDue(refresh)
        },
        EditorKey::Delete => {
            let refresh = delete_editor_char_at_cursor(editor);
            editor.suggestion_index = 0;
            EditorKeyOutcome::ReadDue(refresh)
        },
        _ => EditorKeyOutcome::Kept,
    }
}

} // verus!
