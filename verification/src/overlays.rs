//! The popups and editors that take the keyboard while they are open: which
//! one handles a key, what the key changes in it, and which action on the
//! store it leaves to be done. Positions are counted in characters.
use vstd::prelude::*;

use crate::app::{FilterEditorField, ScreenData, SessionNoteViewerView, TagEditorField, tag_field_index, filter_field_index};
use crate::config::{
    filter_sort_orders, project_sort_orders, tag_sort_orders, task_sort_orders, FilterSortOrder,
    ProjectSortOrder, TagSortOrder, TaskSortOrder,
};
use crate::domain::{filter_colors, project_colors, tag_colors, FilterId, ProjectId, TagId, TaskId};
use crate::editors::{FilterEditorState, TagEditorState};
use crate::history::{searchable_places, searchable_tasks, SessionNoteTarget, TaskSearchMode, TaskSearchState};
use crate::project_editor::{
    inline_parent_accept_spec, parent_field_accept_spec, project_field_at, project_field_index,
    accept_project_editor_parent_field_suggestion, accept_project_editor_parent_suggestion,
    ProjectEditorField, ProjectEditorState,
};
use crate::references::{
    active_project_query, active_project_query_spec, extract_project_reference, parent_query_name,
    project_parent_suggestions, project_reference_take, ranked_projects,
};
use crate::task_editor::{
    edit_line, editor_key_step, handle_task_editor_key, key_edit, edit_fits, line_edited, outcome_is,
    EditorKey, EditorKeyOutcome, KeyResult, LineEdit, LineInput, LineModel, TaskEditorModel,
    TaskEditorState,
};
use crate::app::TaskEditorField;
use crate::task_input::{
    handle_task_input_key, input_key_edit, input_key_step, input_outcome_is, InputKey,
    InputKeyOutcome, InputKeyResult, TaskInputModel, TaskInputState,
};
use crate::text::{chars_of, is_white_space, string_from, trim_chars, trim_spec};
use crate::text_area::{
    area_wf, delete_session_note_char_at_cursor, delete_session_note_char_before_cursor,
    insert_session_note_char, line_end_spec, line_start_spec, move_session_note_cursor_end,
    move_session_note_cursor_home, move_session_note_cursor_left, move_session_note_cursor_right,
    move_session_note_cursor_vertical, scrolled, vertical_target, TextArea, TextAreaModel,
    SESSION_NOTE_VIEWPORT_LINES,
};
use crate::references::parent_task_base;
use crate::references::task_chain_ends;
use crate::history::submit_session_note_editor;
use crate::task_editor::without_trailing_newlines;

verus! {

/// Whether a key is the given letter (Ctrl held or not).
pub open spec fn is_letter(key: EditorKey, c: char) -> bool {
    key == EditorKey::Char(c) || key == EditorKey::Ctrl(c)
}

/// Down or `j`.
pub open spec fn goes_down(key: EditorKey) -> bool {
    key == EditorKey::Down || is_letter(key, 'j')
}

/// Up or `k`.
pub open spec fn goes_up(key: EditorKey) -> bool {
    key == EditorKey::Up || is_letter(key, 'k')
}

/// The character a key types, Ctrl held or not.
pub open spec fn typed_char(key: EditorKey) -> Option<char> {
    match key {
        EditorKey::Char(c) => Some(c),
        EditorKey::Ctrl(c) => Some(c),
        _ => None,
    }
}

/// A count moved up by `n`, staying within `usize`.
pub open spec fn plus_capped(s: nat, n: nat) -> nat {
    if s + n <= usize::MAX {
        s + n
    } else {
        usize::MAX as nat
    }
}

/// A count moved down by `n`, not below zero.
pub open spec fn minus_floored(s: nat, n: nat) -> nat {
    if s >= n {
        (s - n) as nat
    } else {
        0
    }
}

/// An index moved one on within a list of `len` items (not past the last).
pub open spec fn next_within(i: nat, len: nat) -> nat {
    let last: nat = if len == 0 {
        0
    } else {
        (len - 1) as nat
    };
    if i + 1 <= last {
        i + 1
    } else {
        last
    }
}

/// The note viewer as values.
pub struct ViewerModel {
    pub title: Seq<char>,
    pub value: Seq<char>,
    pub scroll: nat,
}

/// A task search as values.
pub struct SearchModel {
    pub mode: TaskSearchMode,
    pub query: LineModel,
    pub selected: nat,
}

/// The tag editor as values.
pub struct TagEditorModel {
    pub tag_id: Option<TagId>,
    pub name: LineModel,
    pub color_index: nat,
    pub is_favorite: bool,
    pub focused_field: TagEditorField,
}

/// The saved filter editor as values.
pub struct FilterEditorModel {
    pub filter_id: Option<FilterId>,
    pub name: LineModel,
    pub query: LineModel,
    pub color_index: nat,
    pub is_favorite: bool,
    pub focused_field: FilterEditorField,
    pub validation_error: Option<Seq<char>>,
}

/// The project editor as values.
pub struct ProjectEditorModel {
    pub project_id: Option<ProjectId>,
    pub name: LineModel,
    pub parent: LineModel,
    pub color_index: nat,
    pub is_favorite: bool,
    pub suggestion_index: nat,
    pub focused_field: ProjectEditorField,
}

pub open spec fn viewer_model(v: SessionNoteViewerView) -> ViewerModel {
    ViewerModel { title: v.title@, value: v.value@, scroll: v.scroll as nat }
}

pub open spec fn search_model(s: TaskSearchState) -> SearchModel {
    SearchModel { mode: s.mode, query: LineModel { value: s.query@, cursor: s.cursor as nat }, selected: s.selected_index as nat }
}

pub open spec fn tag_editor_model(e: TagEditorState) -> TagEditorModel {
    TagEditorModel {
        tag_id: e.tag_id,
        name: LineModel { value: e.name_input@, cursor: e.name_cursor as nat },
        color_index: e.color_index as nat,
        is_favorite: e.is_favorite,
        focused_field: e.focused_field,
    }
}

pub open spec fn filter_editor_model(e: FilterEditorState) -> FilterEditorModel {
    FilterEditorModel {
        filter_id: e.filter_id,
        name: LineModel { value: e.name_input@, cursor: e.name_cursor as nat },
        query: LineModel { value: e.query_input@, cursor: e.query_cursor as nat },
        color_index: e.color_index as nat,
        is_favorite: e.is_favorite,
        focused_field: e.focused_field,
        validation_error: match e.validation_error {
            Some(m) => Some(m@),
            None => None,
        },
    }
}

pub open spec fn project_editor_model(e: ProjectEditorState) -> ProjectEditorModel {
    ProjectEditorModel {
        project_id: e.project_id,
        name: LineModel { value: e.name_input@, cursor: e.name_cursor as nat },
        parent: LineModel { value: e.parent_input@, cursor: e.parent_cursor as nat },
        color_index: e.color_index as nat,
        is_favorite: e.is_favorite,
        suggestion_index: e.suggestion_index as nat,
        focused_field: e.focused_field,
    }
}

/// What a key leaves to be done outside the open popup or editor: nothing
/// (`NotOpen`: none is open, so the key goes on to the screen), nothing
/// more, or the popup closed; a sort order to apply; a note to save or to
/// edit outside; a task to assign to the timer or to a session; an item to
/// delete; an editor to save (it stays open for that step to read it); or
/// what the task editor or the quick-add popup leave to be done.
#[derive(Debug, Clone, PartialEq, Eq)]
pub enum OverlayOutcome {
    NotOpen,
    Kept,
    Closed,
    ApplyTaskSort(TaskSortOrder),
    ApplyProjectSort(ProjectSortOrder),
    ApplyTagSort(TagSortOrder),
    ApplyFilterSort(FilterSortOrder),
    SaveNote(SessionNoteTarget, String),
    EditNoteExternally,
    AssignTimerTask(TaskId),
    AssignSessionTask(i64, TaskId),
    DeleteTask(TaskId),
    DeleteProject(ProjectId),
    DeleteTag(TagId),
    DeleteFilter(FilterId),
    SubmitTagEditor,
    SubmitFilterEditor,
    SubmitProjectEditor,
    TaskEditor(EditorKeyOutcome),
    TaskInput(InputKeyOutcome),
}

/// `OverlayOutcome` as values.
pub enum OverlayResult {
    NotOpen,
    Kept,
    Closed,
    ApplyTaskSort(TaskSortOrder),
    ApplyProjectSort(ProjectSortOrder),
    ApplyTagSort(TagSortOrder),
    ApplyFilterSort(FilterSortOrder),
    SaveNote(SessionNoteTarget, Seq<char>),
    EditNoteExternally,
    AssignTimerTask(TaskId),
    AssignSessionTask(i64, TaskId),
    DeleteTask(TaskId),
    DeleteProject(ProjectId),
    DeleteTag(TagId),
    DeleteFilter(FilterId),
    SubmitTagEditor,
    SubmitFilterEditor,
    SubmitProjectEditor,
    TaskEditor(KeyResult),
    TaskInput(InputKeyResult),
}

/// Whether an outcome is the one described.
pub open spec fn overlay_outcome_is(o: OverlayOutcome, k: OverlayResult) -> bool {
    match (o, k) {
        (OverlayOutcome::NotOpen, OverlayResult::NotOpen) => true,
        (OverlayOutcome::Kept, OverlayResult::Kept) => true,
        (OverlayOutcome::Closed, OverlayResult::Closed) => true,
        (OverlayOutcome::ApplyTaskSort(a), OverlayResult::ApplyTaskSort(b)) => a == b,
        (OverlayOutcome::ApplyProjectSort(a), OverlayResult::ApplyProjectSort(b)) => a == b,
        (OverlayOutcome::ApplyTagSort(a), OverlayResult::ApplyTagSort(b)) => a == b,
        (OverlayOutcome::ApplyFilterSort(a), OverlayResult::ApplyFilterSort(b)) => a == b,
        (OverlayOutcome::SaveNote(t, v), OverlayResult::SaveNote(t2, v2)) => t == t2 && v@ == v2,
        (OverlayOutcome::EditNoteExternally, OverlayResult::EditNoteExternally) => true,
        (OverlayOutcome::AssignTimerTask(a), OverlayResult::AssignTimerTask(b)) => a == b,
        (OverlayOutcome::AssignSessionTask(s, a), OverlayResult::AssignSessionTask(s2, b)) => s == s2 && a == b,
        (OverlayOutcome::DeleteTask(a), OverlayResult::DeleteTask(b)) => a == b,
        (OverlayOutcome::DeleteProject(a), OverlayResult::DeleteProject(b)) => a == b,
        (OverlayOutcome::DeleteTag(a), OverlayResult::DeleteTag(b)) => a == b,
        (OverlayOutcome::DeleteFilter(a), OverlayResult::DeleteFilter(b)) => a == b,
        (OverlayOutcome::SubmitTagEditor, OverlayResult::SubmitTagEditor) => true,
        (OverlayOutcome::SubmitFilterEditor, OverlayResult::SubmitFilterEditor) => true,
        (OverlayOutcome::SubmitProjectEditor, OverlayResult::SubmitProjectEditor) => true,
        (OverlayOutcome::TaskEditor(a), OverlayResult::TaskEditor(b)) => outcome_is(a, b),
        (OverlayOutcome::TaskInput(a), OverlayResult::TaskInput(b)) => input_outcome_is(a, b),
        _ => false,
    }
}

fn next_within_of(i: usize, len: usize) -> (r: usize)
    ensures
        r == next_within(i as nat, len as nat),
{
    let last = if len == 0 {
        0
    } else {
        len - 1
    };
    if i < last {
        i + 1
    } else {
        last
    }
}

pub(crate) fn is_down_key(key: EditorKey) -> (r: bool)
    ensures
        r == goes_down(key),
{
    match key {
        EditorKey::Down => true,
        EditorKey::Char(c) => c == 'j',
        EditorKey::Ctrl(c) => c == 'j',
        _ => false,
    }
}

pub(crate) fn is_up_key(key: EditorKey) -> (r: bool)
    ensures
        r == goes_up(key),
{
    match key {
        EditorKey::Up => true,
        EditorKey::Char(c) => c == 'k',
        EditorKey::Ctrl(c) => c == 'k',
        _ => false,
    }
}

pub(crate) fn letter_key(key: EditorKey, c: char) -> (r: bool)
    ensures
        r == is_letter(key, c),
{
    match key {
        EditorKey::Char(d) => d == c,
        EditorKey::Ctrl(d) => d == c,
        _ => false,
    }
}

// The note viewer.

/// A key in the note viewer: Esc or `v` closes it; down/`j` and up/`k`
/// scroll a line, page down and up eight lines, Home to the top.
pub open spec fn viewer_key_step(v: ViewerModel, key: EditorKey) -> (Option<ViewerModel>, OverlayResult) {
    if key == EditorKey::Esc || is_letter(key, 'v') {
        (None, OverlayResult::Closed)
    } else if goes_down(key) {
        (Some(ViewerModel { scroll: plus_capped(v.scroll, 1), ..v }), OverlayResult::Kept)
    } else if goes_up(key) {
        (Some(ViewerModel { scroll: minus_floored(v.scroll, 1), ..v }), OverlayResult::Kept)
    } else if key == EditorKey::PageDown {
        (Some(ViewerModel { scroll: plus_capped(v.scroll, 8), ..v }), OverlayResult::Kept)
    } else if key == EditorKey::PageUp {
        (Some(ViewerModel { scroll: minus_floored(v.scroll, 8), ..v }), OverlayResult::Kept)
    } else if key == EditorKey::Home {
        (Some(ViewerModel { scroll: 0, ..v }), OverlayResult::Kept)
    } else {
        (Some(v), OverlayResult::Kept)
    }
}

fn viewer_key(viewer: &mut Option<SessionNoteViewerView>, key: EditorKey) -> (r: OverlayOutcome)
    requires
        *old(viewer) is Some,
    ensures
        match *final(viewer) {
            Some(v) => viewer_key_step(viewer_model((*old(viewer))->0), key).0 == Some(viewer_model(v)),
            None => viewer_key_step(viewer_model((*old(viewer))->0), key).0 is None,
        },
        overlay_outcome_is(r, viewer_key_step(viewer_model((*old(viewer))->0), key).1),
{
    let mut v = viewer.take().unwrap();
    if key == EditorKey::Esc || letter_key(key, 'v') {
        return OverlayOutcome::Closed;
    }
    if is_down_key(key) {
        v.scroll = v.scroll.saturating_add(1);
    } else if is_up_key(key) {
        v.scroll = v.scroll.saturating_sub(1);
    } else if key == EditorKey::PageDown {
        v.scroll = v.scroll.saturating_add(8);
    } else if key == EditorKey::PageUp {
        v.scroll = v.scroll.saturating_sub(8);
    } else if key == EditorKey::Home {
        v.scroll = 0;
    }
    *viewer = Some(v);
    OverlayOutcome::Kept
}

// The note editor.

/// A key in the note editor: Esc closes it; F12 saves its text without the
/// line breaks at its end; Ctrl+E edits it outside; F10 empties it; Enter
/// starts a line; Home, End, left and right move the cursor; down/`j` and
/// up/`k` move it a line; Backspace and Delete delete; other characters are
/// typed. The view follows the cursor.
pub open spec fn note_editor_key_step(t: SessionNoteTarget, a: TextAreaModel, key: EditorKey) -> (Option<(SessionNoteTarget, TextAreaModel)>, OverlayResult) {
    let vp = SESSION_NOTE_VIEWPORT_LINES as nat;
    let kept = |m: TextAreaModel| (Some((t, m)), OverlayResult::Kept);
    if key == EditorKey::Esc {
        (None, OverlayResult::Closed)
    } else if key == EditorKey::F(12) {
        (None, OverlayResult::SaveNote(t, without_trailing_newlines(a.value)))
    } else if key == EditorKey::Ctrl('e') {
        (Some((t, a)), OverlayResult::EditNoteExternally)
    } else if key == EditorKey::F(10) {
        kept(TextAreaModel { value: Seq::empty(), cursor: 0, scroll: 0 })
    } else if key == EditorKey::Enter {
        kept(scrolled(a.value.insert(a.cursor as int, '\n'), a.cursor + 1, a.scroll, vp))
    } else if key == EditorKey::Home {
        kept(scrolled(a.value, line_start_spec(a.value, a.cursor as int) as nat, a.scroll, vp))
    } else if key == EditorKey::End {
        kept(scrolled(a.value, line_end_spec(a.value, a.cursor as int) as nat, a.scroll, vp))
    } else if key == EditorKey::Left {
        kept(
            if a.cursor == 0 {
                a
            } else {
                scrolled(a.value, (a.cursor - 1) as nat, a.scroll, vp)
            },
        )
    } else if key == EditorKey::Right {
        kept(
            if a.cursor >= a.value.len() {
                a
            } else {
                scrolled(a.value, a.cursor + 1, a.scroll, vp)
            },
        )
    } else if goes_down(key) || goes_up(key) {
        kept(scrolled(a.value, vertical_target(a.value, a.cursor as int, goes_up(key)) as nat, a.scroll, vp))
    } else if key == EditorKey::Backspace {
        kept(
            if a.cursor == 0 {
                a
            } else {
                scrolled(a.value.remove(a.cursor - 1), (a.cursor - 1) as nat, a.scroll, vp)
            },
        )
    } else if key == EditorKey::Delete {
        kept(
            if a.cursor >= a.value.len() {
                a
            } else {
                scrolled(a.value.remove(a.cursor as int), a.cursor, a.scroll, vp)
            },
        )
    } else {
        match typed_char(key) {
            Some(c) => kept(scrolled(a.value.insert(a.cursor as int, c), a.cursor + 1, a.scroll, vp)),
            None => kept(a),
        }
    }
}

/// What a key needs of the note editor: the cursor within the text, and
/// room for one more character.
pub open spec fn note_editor_fits(a: TextAreaModel) -> bool {
    area_wf(a) && a.value.len() < usize::MAX
}

fn note_editor_key(editor: &mut Option<(SessionNoteTarget, TextArea)>, key: EditorKey) -> (r: OverlayOutcome)
    requires
        *old(editor) matches Some((_, a)) && note_editor_fits(a@),
    ensures
        ({
            let (t, a) = old(editor)->0;
            let step = note_editor_key_step(t, a@, key);
            &&& match *final(editor) {
                Some((t2, a2)) => step.0 == Some((t2, a2@)),
                None => step.0 is None,
            }
            &&& overlay_outcome_is(r, step.1)
        }),
{
    let (t, mut a) = editor.take().unwrap();
    let vp = SESSION_NOTE_VIEWPORT_LINES;
    if key == EditorKey::Esc {
        return OverlayOutcome::Closed;
    }
    if key == EditorKey::F(12) {
        let (target, value) = submit_session_note_editor(t, &a);
        return OverlayOutcome::SaveNote(target, value);
    }
    if key == EditorKey::Ctrl('e') {
        *editor = Some((t, a));
        return OverlayOutcome::EditNoteExternally;
    }
    if key == EditorKey::F(10) {
        a = TextArea { value: Vec::new(), cursor: 0, scroll: 0 };
    } else if key == EditorKey::Enter {
        insert_session_note_char(&mut a, '\n', vp);
    } else if key == EditorKey::Home {
        move_session_note_cursor_home(&mut a, vp);
    } else if key == EditorKey::End {
        move_session_note_cursor_end(&mut a, vp);
    } else if key == EditorKey::Left {
        move_session_note_cursor_left(&mut a, vp);
    } else if key == EditorKey::Right {
        move_session_note_cursor_right(&mut a, vp);
    } else if is_down_key(key) {
        move_session_note_cursor_vertical(&mut a, 1, vp);
    } else if is_up_key(key) {
        move_session_note_cursor_vertical(&mut a, -1, vp);
    } else if key == EditorKey::Backspace {
        delete_session_note_char_before_cursor(&mut a, vp);
    } else if key == EditorKey::Delete {
        delete_session_note_char_at_cursor(&mut a, vp);
    } else {
        match key {
            EditorKey::Char(c) => insert_session_note_char(&mut a, c, vp),
            EditorKey::Ctrl(c) => insert_session_note_char(&mut a, c, vp),
            _ => {},
        }
    }
    *editor = Some((t, a));
    OverlayOutcome::Kept
}

// The sort popups.

/// A key in a sort popup of `count` orders: Esc or `o` closes it; Enter
/// applies the highlighted order (or just closes where none is); down/`j`
/// and up/`k` move the highlight.
pub open spec fn sort_popup_step(i: nat, count: nat, key: EditorKey) -> (Option<nat>, Option<Option<nat>>) {
    if key == EditorKey::Esc || is_letter(key, 'o') {
        (None, None)
    } else if key == EditorKey::Enter {
        (None, Some(if i < count { Some(i) } else { None }))
    } else if goes_down(key) {
        (Some(next_within(i, count)), None)
    } else if goes_up(key) {
        (Some(minus_floored(i, 1)), None)
    } else {
        (Some(i), None)
    }
}

fn sort_popup_key(popup: &mut Option<usize>, count: usize, key: EditorKey) -> (r: Option<Option<usize>>)
    requires
        *old(popup) is Some,
    ensures
        ({
            let step = sort_popup_step((*old(popup))->0 as nat, count as nat, key);
            &&& match *final(popup) {
                Some(j) => step.0 == Some(j as nat),
                None => step.0 is None,
            }
            &&& match r {
                None => step.1 is None,
                Some(None) => step.1 == Some(None::<nat>),
                Some(Some(j)) => step.1 == Some(Some(j as nat)),
            }
        }),
{
    let i = popup.take().unwrap();
    if key == EditorKey::Esc || letter_key(key, 'o') {
        return None;
    }
    if key == EditorKey::Enter {
        return Some(if i < count { Some(i) } else { None });
    }
    if is_down_key(key) {
        *popup = Some(next_within_of(i, count));
    } else if is_up_key(key) {
        *popup = Some(i.saturating_sub(1));
    } else {
        *popup = Some(i);
    }
    None
}

// Task search.

/// A key in the task search: Esc closes it; Enter assigns the highlighted
/// task (to the timer, or to the session the search is for) and closes, or
/// does nothing where there is none; down/`j` and up/`k` move the
/// highlight; Backspace, Delete and typing edit the query and highlight the
/// first result; Home, End, left and right move the cursor.
pub open spec fn search_key_step(data: ScreenData, s: SearchModel, key: EditorKey) -> (Option<SearchModel>, OverlayResult) {
    let places = searchable_places(data, s.query.value, data.tasks@.len() as int);
    let edited = |op: LineEdit, reset: bool| (
        Some(SearchModel { query: line_edited(s.query, op), selected: if reset { 0 } else { s.selected }, ..s }),
        OverlayResult::Kept,
    );
    if key == EditorKey::Esc {
        (None, OverlayResult::Closed)
    } else if key == EditorKey::Enter {
        if s.selected < places.len() {
            let id = data.tasks@[places[s.selected as int] as int].id;
            (
                None,
                match s.mode {
                    TaskSearchMode::TimerAssignment => OverlayResult::AssignTimerTask(id),
                    TaskSearchMode::HistoryAssignment(session) => OverlayResult::AssignSessionTask(session, id),
                },
            )
        } else {
            (Some(s), OverlayResult::Kept)
        }
    } else if goes_down(key) {
        (Some(SearchModel { selected: next_within(s.selected, places.len()), ..s }), OverlayResult::Kept)
    } else if goes_up(key) {
        (Some(SearchModel { selected: minus_floored(s.selected, 1), ..s }), OverlayResult::Kept)
    } else if key == EditorKey::Backspace {
        edited(LineEdit::DeleteBefore, true)
    } else if key == EditorKey::Delete {
        edited(LineEdit::DeleteAt, true)
    } else if key == EditorKey::Home {
        edited(LineEdit::Home, false)
    } else if key == EditorKey::Left {
        edited(LineEdit::Left, false)
    } else if key == EditorKey::Right {
        edited(LineEdit::Right, false)
    } else if key == EditorKey::End {
        edited(LineEdit::End, false)
    } else {
        match typed_char(key) {
            Some(c) => edited(LineEdit::Insert(c), true),
            None => (Some(s), OverlayResult::Kept),
        }
    }
}

/// What a key needs of a line being typed: the cursor within the text, and
/// room for one more character.
pub open spec fn line_fits(l: LineModel) -> bool {
    l.cursor <= l.value.len() && l.value.len() < usize::MAX
}

fn edit_text(text: &String, cursor: usize, op: LineEdit) -> (r: (String, usize))
    requires
        line_fits(LineModel { value: text@, cursor: cursor as nat }),
    ensures
        line_edited(LineModel { value: text@, cursor: cursor as nat }, op) == (LineModel { value: r.0@, cursor: r.1 as nat }),
{
    let mut line = LineInput { value: chars_of(text.as_str()), cursor };
    edit_line(&mut line, op);
    (string_from(line.value.as_slice()), line.cursor)
}

fn search_key(data: &ScreenData, search: &mut Option<TaskSearchState>, key: EditorKey) -> (r: OverlayOutcome)
    requires
        *old(search) matches Some(s) && line_fits(search_model(s).query),
    ensures
        ({
            let step = search_key_step(*data, search_model((*old(search))->0), key);
            &&& match *final(search) {
                Some(s) => step.0 == Some(search_model(s)),
                None => step.0 is None,
            }
            &&& overlay_outcome_is(r, step.1)
        }),
{
    let mut s = search.take().unwrap();
    if key == EditorKey::Esc {
        return OverlayOutcome::Closed;
    }
    if key == EditorKey::Enter {
        let places = searchable_tasks(data, s.query.as_str());
        if s.selected_index < places.len() {
            proof {
                crate::history::lemma_searchable_places(*data, s.query@, data.tasks@.len() as int);
            }
            let id = data.tasks[places[s.selected_index]].id;
            return match s.mode {
                TaskSearchMode::TimerAssignment => OverlayOutcome::AssignTimerTask(id),
                TaskSearchMode::HistoryAssignment(session) => OverlayOutcome::AssignSessionTask(session, id),
            };
        }
        *search = Some(s);
        return OverlayOutcome::Kept;
    }
    if is_down_key(key) {
        let n = searchable_tasks(data, s.query.as_str()).len();
        s.selected_index = next_within_of(s.selected_index, n);
        *search = Some(s);
        return OverlayOutcome::Kept;
    }
    if is_up_key(key) {
        s.selected_index = s.selected_index.saturating_sub(1);
        *search = Some(s);
        return OverlayOutcome::Kept;
    }
    let op = match key {
        EditorKey::Backspace => LineEdit::DeleteBefore,
        EditorKey::Delete => LineEdit::DeleteAt,
        EditorKey::Home => LineEdit::Home,
        EditorKey::Left => LineEdit::Left,
        EditorKey::Right => LineEdit::Right,
        EditorKey::End => LineEdit::End,
        EditorKey::Char(c) => LineEdit::Insert(c),
        EditorKey::Ctrl(c) => LineEdit::Insert(c),
        _ => {
            *search = Some(s);
            return OverlayOutcome::Kept;
        },
    };
    let reset = match op {
        LineEdit::DeleteBefore | LineEdit::DeleteAt | LineEdit::Insert(_) => true,
        _ => false,
    };
    let (query, cursor) = edit_text(&s.query, s.cursor, op);
    s.query = query;
    s.cursor = cursor;
    if reset {
        s.selected_index = 0;
    }
    *search = Some(s);
    OverlayOutcome::Kept
}

// Delete confirmations.

/// A key while a deletion awaits confirmation: Enter or `y` confirms, Esc
/// or `n` cancels, other keys do nothing.
pub open spec fn confirmation_step(key: EditorKey) -> Option<bool> {
    if key == EditorKey::Enter || is_letter(key, 'y') {
        Some(true)
    } else if key == EditorKey::Esc || is_letter(key, 'n') {
        Some(false)
    } else {
        None
    }
}

fn confirmation_key(key: EditorKey) -> (r: Option<bool>)
    ensures
        r == confirmation_step(key),
{
    if key == EditorKey::Enter || letter_key(key, 'y') {
        Some(true)
    } else if key == EditorKey::Esc || letter_key(key, 'n') {
        Some(false)
    } else {
        None
    }
}

// The tag editor.

/// The tag editor field after a field; the last stays.
pub open spec fn tag_field_after(f: TagEditorField) -> TagEditorField {
    match f {
        TagEditorField::Name => TagEditorField::Color,
        _ => TagEditorField::Favorite,
    }
}

/// The tag editor field before a field; the first stays.
pub open spec fn tag_field_before(f: TagEditorField) -> TagEditorField {
    match f {
        TagEditorField::Favorite => TagEditorField::Color,
        _ => TagEditorField::Name,
    }
}

/// The change a key makes to a line being typed, where it is one: Backspace,
/// Delete, Home, left, right, End, or a character typed.
pub open spec fn line_key(key: EditorKey) -> Option<LineEdit> {
    match key {
        EditorKey::Backspace => Some(LineEdit::DeleteBefore),
        EditorKey::Delete => Some(LineEdit::DeleteAt),
        EditorKey::Home => Some(LineEdit::Home),
        EditorKey::Left => Some(LineEdit::Left),
        EditorKey::Right => Some(LineEdit::Right),
        EditorKey::End => Some(LineEdit::End),
        EditorKey::Char(c) => Some(LineEdit::Insert(c)),
        EditorKey::Ctrl(c) => Some(LineEdit::Insert(c)),
        _ => None,
    }
}

/// Left, `h`, up or `k`: a step back in a choice.
pub open spec fn steps_back(key: EditorKey) -> bool {
    key == EditorKey::Left || is_letter(key, 'h') || goes_up(key)
}

/// Right, `l`, down or `j`: a step on in a choice.
pub open spec fn steps_on(key: EditorKey) -> bool {
    key == EditorKey::Right || is_letter(key, 'l') || goes_down(key)
}

/// A key in the tag editor: Esc closes it; Enter saves it; Tab and
/// Shift+Tab move between fields and F1 to F3 focus one; in the name the
/// edit keys edit; in the colour a step back or on picks the colour before
/// or after; in the favorite field either turns the mark over.
pub open spec fn tag_editor_key_step(m: TagEditorModel, key: EditorKey) -> (Option<TagEditorModel>, OverlayResult) {
    let kept = |x: TagEditorModel| (Some(x), OverlayResult::Kept);
    if key == EditorKey::Esc {
        (None, OverlayResult::Closed)
    } else if key == EditorKey::Enter {
        (Some(m), OverlayResult::SubmitTagEditor)
    } else if key == EditorKey::Tab {
        kept(TagEditorModel { focused_field: tag_field_after(m.focused_field), ..m })
    } else if key == EditorKey::BackTab {
        kept(TagEditorModel { focused_field: tag_field_before(m.focused_field), ..m })
    } else if key == EditorKey::F(1) {
        kept(TagEditorModel { focused_field: TagEditorField::Name, ..m })
    } else if key == EditorKey::F(2) {
        kept(TagEditorModel { focused_field: TagEditorField::Color, ..m })
    } else if key == EditorKey::F(3) {
        kept(TagEditorModel { focused_field: TagEditorField::Favorite, ..m })
    } else if m.focused_field == TagEditorField::Name && line_key(key) is Some {
        kept(TagEditorModel { name: line_edited(m.name, line_key(key)->0), ..m })
    } else if m.focused_field == TagEditorField::Color && steps_back(key) {
        kept(TagEditorModel { color_index: minus_floored(m.color_index, 1), ..m })
    } else if m.focused_field == TagEditorField::Color && steps_on(key) {
        kept(TagEditorModel { color_index: next_within(m.color_index, tag_colors().len()), ..m })
    } else if m.focused_field == TagEditorField::Favorite && (steps_back(key) || steps_on(key)) {
        kept(TagEditorModel { is_favorite: !m.is_favorite, ..m })
    } else {
        kept(m)
    }
}

fn line_key_of(key: EditorKey) -> (r: Option<LineEdit>)
    ensures
        r == line_key(key),
{
    match key {
        EditorKey::Backspace => Some(LineEdit::DeleteBefore),
        EditorKey::Delete => Some(LineEdit::DeleteAt),
        EditorKey::Home => Some(LineEdit::Home),
        EditorKey::Left => Some(LineEdit::Left),
        EditorKey::Right => Some(LineEdit::Right),
        EditorKey::End => Some(LineEdit::End),
        EditorKey::Char(c) => Some(LineEdit::Insert(c)),
        EditorKey::Ctrl(c) => Some(LineEdit::Insert(c)),
        _ => None,
    }
}

fn steps_back_key(key: EditorKey) -> (r: bool)
    ensures
        r == steps_back(key),
{
    key == EditorKey::Left || letter_key(key, 'h') || is_up_key(key)
}

fn steps_on_key(key: EditorKey) -> (r: bool)
    ensures
        r == steps_on(key),
{
    key == EditorKey::Right || letter_key(key, 'l') || is_down_key(key)
}

fn edit_chars(value: &mut Vec<char>, cursor: &mut usize, op: LineEdit)
    requires
        line_fits(LineModel { value: old(value)@, cursor: *old(cursor) as nat }),
    ensures
        line_edited(LineModel { value: old(value)@, cursor: *old(cursor) as nat }, op) == (LineModel {
            value: final(value)@,
            cursor: *final(cursor) as nat,
        }),
{
    let mut taken: Vec<char> = Vec::new();
    std::mem::swap(&mut taken, value);
    let mut line = LineInput { value: taken, cursor: *cursor };
    edit_line(&mut line, op);
    *value = line.value;
    *cursor = line.cursor;
}

fn tag_editor_key(editor: &mut Option<TagEditorState>, key: EditorKey) -> (r: OverlayOutcome)
    requires
        *old(editor) matches Some(e) && line_fits(tag_editor_model(e).name),
    ensures
        ({
            let step = tag_editor_key_step(tag_editor_model((*old(editor))->0), key);
            &&& match *final(editor) {
                Some(e) => step.0 == Some(tag_editor_model(e)),
                None => step.0 is None,
            }
            &&& overlay_outcome_is(r, step.1)
        }),
{
    let mut e = editor.take().unwrap();
    if key == EditorKey::Esc {
        return OverlayOutcome::Closed;
    }
    if key == EditorKey::Enter {
        *editor = Some(e);
        return OverlayOutcome::SubmitTagEditor;
    }
    if key == EditorKey::Tab {
        let next = e.focused_field.next();
        proof {
            crate::app::editor_field_index_round_trip(crate::app::ProjectEditorField::Name, next, FilterEditorField::Name);
        }
        e.focused_field = next;
    } else if key == EditorKey::BackTab {
        let previous = e.focused_field.previous();
        proof {
            crate::app::editor_field_index_round_trip(crate::app::ProjectEditorField::Name, previous, FilterEditorField::Name);
        }
        e.focused_field = previous;
    } else if key == EditorKey::F(1) {
        e.focused_field = TagEditorField::Name;
    } else if key == EditorKey::F(2) {
        e.focused_field = TagEditorField::Color;
    } else if key == EditorKey::F(3) {
        e.focused_field = TagEditorField::Favorite;
    } else if e.focused_field == TagEditorField::Name && line_key_of(key).is_some() {
        let op = line_key_of(key).unwrap();
        edit_chars(&mut e.name_input, &mut e.name_cursor, op);
    } else if e.focused_field == TagEditorField::Color && steps_back_key(key) {
        e.color_index = e.color_index.saturating_sub(1);
    } else if e.focused_field == TagEditorField::Color && steps_on_key(key) {
        e.color_index = next_within_of(e.color_index, crate::domain::TagColor::all().len());
    } else if e.focused_field == TagEditorField::Favorite && (steps_back_key(key) || steps_on_key(key)) {
        e.is_favorite = !e.is_favorite;
    }
    *editor = Some(e);
    OverlayOutcome::Kept
}

// The saved filter editor.

/// The filter editor field after a field; the last stays.
pub open spec fn filter_field_after(f: FilterEditorField) -> FilterEditorField {
    match f {
        FilterEditorField::Name => FilterEditorField::Query,
        FilterEditorField::Query => FilterEditorField::Color,
        _ => FilterEditorField::Favorite,
    }
}

/// The filter editor field before a field; the first stays.
pub open spec fn filter_field_before(f: FilterEditorField) -> FilterEditorField {
    match f {
        FilterEditorField::Favorite => FilterEditorField::Color,
        FilterEditorField::Color => FilterEditorField::Query,
        _ => FilterEditorField::Name,
    }
}

/// Whether a line change edits the text (not only the cursor).
pub open spec fn changes_text(op: LineEdit) -> bool {
    op is DeleteBefore || op is DeleteAt || op is Insert
}

/// A key in the saved filter editor: as in the tag editor, with a query
/// field edited as the name is, F1 to F4 for the fields; moving between
/// fields and editing text drop the reason the last save was refused.
pub open spec fn filter_editor_key_step(m: FilterEditorModel, key: EditorKey) -> (Option<FilterEditorModel>, OverlayResult) {
    let kept = |x: FilterEditorModel| (Some(x), OverlayResult::Kept);
    let focused = |f: FilterEditorField| FilterEditorModel { focused_field: f, validation_error: None, ..m };
    if key == EditorKey::Esc {
        (None, OverlayResult::Closed)
    } else if key == EditorKey::Enter {
        (Some(m), OverlayResult::SubmitFilterEditor)
    } else if key == EditorKey::Tab {
        kept(focused(filter_field_after(m.focused_field)))
    } else if key == EditorKey::BackTab {
        kept(focused(filter_field_before(m.focused_field)))
    } else if key == EditorKey::F(1) {
        kept(focused(FilterEditorField::Name))
    } else if key == EditorKey::F(2) {
        kept(focused(FilterEditorField::Query))
    } else if key == EditorKey::F(3) {
        kept(focused(FilterEditorField::Color))
    } else if key == EditorKey::F(4) {
        kept(focused(FilterEditorField::Favorite))
    } else if m.focused_field == FilterEditorField::Name && line_key(key) is Some {
        let op = line_key(key)->0;
        kept(
            FilterEditorModel {
                name: line_edited(m.name, op),
                validation_error: if changes_text(op) { None } else { m.validation_error },
                ..m
            },
        )
    } else if m.focused_field == FilterEditorField::Query && line_key(key) is Some {
        let op = line_key(key)->0;
        kept(
            FilterEditorModel {
                query: line_edited(m.query, op),
                validation_error: if changes_text(op) { None } else { m.validation_error },
                ..m
            },
        )
    } else if m.focused_field == FilterEditorField::Color && steps_back(key) {
        kept(FilterEditorModel { color_index: minus_floored(m.color_index, 1), ..m })
    } else if m.focused_field == FilterEditorField::Color && steps_on(key) {
        kept(FilterEditorModel { color_index: next_within(m.color_index, filter_colors().len()), ..m })
    } else if m.focused_field == FilterEditorField::Favorite && (steps_back(key) || steps_on(key)) {
        kept(FilterEditorModel { is_favorite: !m.is_favorite, ..m })
    } else {
        kept(m)
    }
}

fn filter_editor_key(editor: &mut Option<FilterEditorState>, key: EditorKey) -> (r: OverlayOutcome)
    requires
        *old(editor) matches Some(e) && line_fits(filter_editor_model(e).name) && line_fits(filter_editor_model(e).query),
    ensures
        ({
            let step = filter_editor_key_step(filter_editor_model((*old(editor))->0), key);
            &&& match *final(editor) {
                Some(e) => step.0 == Some(filter_editor_model(e)),
                None => step.0 is None,
            }
            &&& overlay_outcome_is(r, step.1)
        }),
{
    let mut e = editor.take().unwrap();
    if key == EditorKey::Esc {
        return OverlayOutcome::Closed;
    }
    if key == EditorKey::Enter {
        *editor = Some(e);
        return OverlayOutcome::SubmitFilterEditor;
    }
    let focus = if key == EditorKey::Tab {
        let next = e.focused_field.next();
        proof {
            crate::app::editor_field_index_round_trip(crate::app::ProjectEditorField::Name, TagEditorField::Name, next);
        }
        Some(next)
    } else if key == EditorKey::BackTab {
        let previous = e.focused_field.previous();
        proof {
            crate::app::editor_field_index_round_trip(crate::app::ProjectEditorField::Name, TagEditorField::Name, previous);
        }
        Some(previous)
    } else if key == EditorKey::F(1) {
        Some(FilterEditorField::Name)
    } else if key == EditorKey::F(2) {
        Some(FilterEditorField::Query)
    } else if key == EditorKey::F(3) {
        Some(FilterEditorField::Color)
    } else if key == EditorKey::F(4) {
        Some(FilterEditorField::Favorite)
    } else {
        None
    };
    match focus {
        Some(f) => {
            e.focused_field = f;
            e.validation_error = None;
        },
        None => {
            let op = line_key_of(key);
            if e.focused_field == FilterEditorField::Name && op.is_some() {
                let op = op.unwrap();
                edit_chars(&mut e.name_input, &mut e.name_cursor, op);
                match op {
                    LineEdit::DeleteBefore | LineEdit::DeleteAt | LineEdit::Insert(_) => {
                        e.validation_error = None;
                    },
                    _ => {},
                }
            } else if e.focused_field == FilterEditorField::Query && op.is_some() {
                let op = op.unwrap();
                edit_chars(&mut e.query_input, &mut e.query_cursor, op);
                match op {
                    LineEdit::DeleteBefore | LineEdit::DeleteAt | LineEdit::Insert(_) => {
                        e.validation_error = None;
                    },
                    _ => {},
                }
            } else if e.focused_field == FilterEditorField::Color && steps_back_key(key) {
                e.color_index = e.color_index.saturating_sub(1);
            } else if e.focused_field == FilterEditorField::Color && steps_on_key(key) {
                e.color_index = next_within_of(e.color_index, crate::domain::FilterColor::all().len());
            } else if e.focused_field == FilterEditorField::Favorite && (steps_back_key(key) || steps_on_key(key)) {
                e.is_favorite = !e.is_favorite;
            }
        },
    }
    *editor = Some(e);
    OverlayOutcome::Kept
}

// The project editor.

/// Whether the project editor's name names a parent (`#parent`) and nothing
/// else.
pub open spec fn parent_without_name(data: ScreenData, name: Seq<char>) -> bool {
    let taken = project_reference_take(data.projects@, name, ProjectId(0));
    taken.1 != ProjectId(0) && trim_spec(taken.0).len() == 0
}

fn has_parent_without_name(data: &ScreenData, name: &Vec<char>) -> (r: bool)
    ensures
        r == parent_without_name(*data, name@),
{
    let text = string_from(name.as_slice());
    let (clean, id) = extract_project_reference(data, text.as_str(), ProjectId(0));
    id != ProjectId(0) && trim_chars(chars_of(clean.as_str()).as_slice()).len() == 0
}

/// How many parents a parent query suggests.
pub open spec fn parent_count(data: ScreenData, q: Seq<char>, project_id: Option<ProjectId>) -> nat {
    if parent_query_name(q).len() == 0 {
        0
    } else {
        ranked_projects(data.projects@, parent_query_name(q), true, project_id).len()
    }
}

/// The name after typing a character: where a `#` begins a parent that
/// stands alone, the name is cleared first; a `#` after a character that
/// is not white space gets a space before it.
pub open spec fn name_typed(data: ScreenData, name: LineModel, c: char) -> LineModel {
    let cleared = if c == '#' && parent_without_name(data, name.value) {
        LineModel { value: Seq::empty(), cursor: 0 }
    } else {
        name
    };
    let spaced = if c == '#' && cleared.cursor > 0 && !is_white_space(cleared.value[cleared.cursor - 1]) {
        line_edited(cleared, LineEdit::Insert(' '))
    } else {
        cleared
    };
    line_edited(spaced, LineEdit::Insert(c))
}

/// A key in the project editor: Esc closes it; Enter takes the parent
/// suggestion of the focused name or parent field, else saves; Tab does the
/// same, or, in a name that only names a parent, ends it with a space,
/// else moves on; Shift+Tab moves back and F1 to F4 focus a field (each
/// highlighting the first suggestion); the name and parent fields are
/// edited (typing and deleting highlight the first suggestion); colour and
/// favorite step as in the tag editor; up and down move through the parent
/// suggestions.
pub open spec fn project_editor_key_step(data: ScreenData, m: ProjectEditorModel, key: EditorKey) -> (Option<ProjectEditorModel>, OverlayResult) {
    let kept = |x: ProjectEditorModel| (Some(x), OverlayResult::Kept);
    let in_name = m.focused_field == ProjectEditorField::Name;
    let in_parent = m.focused_field == ProjectEditorField::Parent;
    let inline = inline_parent_accept_spec(data, m.name.value, m.name.cursor as int, m.project_id, m.suggestion_index as int);
    let field = parent_field_accept_spec(data, m.parent.value, m.project_id, m.suggestion_index as int);
    let (inline_name, inline_cursor) = match inline {
        Some(x) => x,
        None => (m.name.value, m.name.cursor as int),
    };
    let inline_taken = ProjectEditorModel {
        name: LineModel { value: inline_name, cursor: inline_cursor as nat },
        suggestion_index: 0,
        ..m
    };
    let field_taken = ProjectEditorModel {
        parent: LineModel { value: field->0, cursor: field->0.len() },
        suggestion_index: 0,
        ..m
    };
    let focused = |f: ProjectEditorField| ProjectEditorModel { focused_field: f, suggestion_index: 0, ..m };
    if key == EditorKey::Esc {
        (None, OverlayResult::Closed)
    } else if key == EditorKey::Enter {
        if in_name && inline is Some {
            kept(inline_taken)
        } else if in_parent && field is Some {
            kept(field_taken)
        } else {
            (Some(m), OverlayResult::SubmitProjectEditor)
        }
    } else if key == EditorKey::Tab {
        if in_name && inline is Some {
            kept(inline_taken)
        } else if in_name && parent_without_name(data, m.name.value) {
            let v = if m.name.value.len() > 0 && m.name.value.last() == ' ' {
                m.name.value
            } else {
                m.name.value.push(' ')
            };
            kept(ProjectEditorModel { name: LineModel { value: v, cursor: v.len() }, ..m })
        } else if in_parent && field is Some {
            kept(field_taken)
        } else {
            kept(focused(project_field_at(project_field_index(m.focused_field) + 1)))
        }
    } else if key == EditorKey::BackTab {
        kept(focused(project_field_at(project_field_index(m.focused_field) - 1)))
    } else if key == EditorKey::F(1) {
        kept(focused(ProjectEditorField::Name))
    } else if key == EditorKey::F(2) {
        kept(focused(ProjectEditorField::Parent))
    } else if key == EditorKey::F(3) {
        kept(focused(ProjectEditorField::Color))
    } else if key == EditorKey::F(4) {
        kept(focused(ProjectEditorField::Favorite))
    } else if (in_name || in_parent) && (key == EditorKey::Backspace || key == EditorKey::Delete || key
        == EditorKey::Home || key == EditorKey::Left || key == EditorKey::Right || key == EditorKey::End) {
        let op = line_key(key)->0;
        let index = if changes_text(op) { 0 } else { m.suggestion_index };
        if in_name {
            kept(ProjectEditorModel { name: line_edited(m.name, op), suggestion_index: index, ..m })
        } else {
            kept(ProjectEditorModel { parent: line_edited(m.parent, op), suggestion_index: index, ..m })
        }
    } else if m.focused_field == ProjectEditorField::Color && steps_back(key) {
        kept(ProjectEditorModel { color_index: minus_floored(m.color_index, 1), ..m })
    } else if m.focused_field == ProjectEditorField::Color && steps_on(key) {
        kept(ProjectEditorModel { color_index: next_within(m.color_index, project_colors().len()), ..m })
    } else if m.focused_field == ProjectEditorField::Favorite && (steps_back(key) || steps_on(key)) {
        kept(ProjectEditorModel { is_favorite: !m.is_favorite, ..m })
    } else if in_name && typed_char(key) is Some {
        kept(ProjectEditorModel { name: name_typed(data, m.name, typed_char(key)->0), suggestion_index: 0, ..m })
    } else if in_parent && typed_char(key) is Some {
        kept(ProjectEditorModel { parent: line_edited(m.parent, LineEdit::Insert(typed_char(key)->0)), suggestion_index: 0, ..m })
    } else if key == EditorKey::Down && in_name {
        match active_project_query_spec(data.projects@, m.name.value, m.name.cursor as int) {
            Some((_s, _e, q)) => kept(
                ProjectEditorModel { suggestion_index: next_within(m.suggestion_index, parent_count(data, q, m.project_id)), ..m },
            ),
            None => kept(m),
        }
    } else if key == EditorKey::Down && in_parent {
        if trim_spec(m.parent.value).len() > 0 {
            kept(
                ProjectEditorModel {
                    suggestion_index: next_within(
                        m.suggestion_index,
                        parent_count(data, trim_spec(m.parent.value), m.project_id),
                    ),
                    ..m
                },
            )
        } else {
            kept(m)
        }
    } else if key == EditorKey::Up && (in_name || in_parent) {
        kept(ProjectEditorModel { suggestion_index: minus_floored(m.suggestion_index, 1), ..m })
    } else {
        kept(m)
    }
}

/// What a key needs of the project editor: cursors within the texts, and
/// room for two more characters in the name and one in the parent.
pub open spec fn project_editor_fits(m: ProjectEditorModel) -> bool {
    &&& m.name.cursor <= m.name.value.len()
    &&& m.name.value.len() + 2 < usize::MAX
    &&& line_fits(m.parent)
}

fn type_into_name(data: &ScreenData, e: &mut ProjectEditorState, c: char)
    requires
        project_editor_fits(project_editor_model(*old(e))),
    ensures
        project_editor_model(*final(e)) == (ProjectEditorModel {
            name: name_typed(*data, project_editor_model(*old(e)).name, c),
            ..project_editor_model(*old(e))
        }),
{
    if c == '#' && has_parent_without_name(data, &e.name_input) {
        e.name_input = Vec::new();
        e.name_cursor = 0;
    }
    if c == '#' && e.name_cursor > 0 && !crate::text::is_whitespace(e.name_input[e.name_cursor - 1]) {
        edit_chars(&mut e.name_input, &mut e.name_cursor, LineEdit::Insert(' '));
    }
    edit_chars(&mut e.name_input, &mut e.name_cursor, LineEdit::Insert(c));
}

#[verifier::rlimit(40)]
fn project_editor_key(data: &ScreenData, editor: &mut Option<ProjectEditorState>, key: EditorKey) -> (r: OverlayOutcome)
    requires
        *old(editor) matches Some(e) && project_editor_fits(project_editor_model(e)),
    ensures
        ({
            let step = project_editor_key_step(*data, project_editor_model((*old(editor))->0), key);
            &&& match *final(editor) {
                Some(e) => step.0 == Some(project_editor_model(e)),
                None => step.0 is None,
            }
            &&& overlay_outcome_is(r, step.1)
        }),
{
    let mut e = editor.take().unwrap();
    let in_name = e.focused_field == ProjectEditorField::Name;
    let in_parent = e.focused_field == ProjectEditorField::Parent;
    if key == EditorKey::Esc {
        return OverlayOutcome::Closed;
    }
    if key == EditorKey::Enter {
        if in_name && accept_project_editor_parent_suggestion(data, &mut e) {
            *editor = Some(e);
            return OverlayOutcome::Kept;
        }
        if in_parent && accept_project_editor_parent_field_suggestion(data, &mut e) {
            *editor = Some(e);
            return OverlayOutcome::Kept;
        }
        *editor = Some(e);
        return OverlayOutcome::SubmitProjectEditor;
    }
    if key == EditorKey::Tab {
        if in_name {
            if accept_project_editor_parent_suggestion(data, &mut e) {
                *editor = Some(e);
                return OverlayOutcome::Kept;
            }
            if has_parent_without_name(data, &e.name_input) {
                let ends_with_space = e.name_input.len() > 0 && e.name_input[e.name_input.len() - 1] == ' ';
                if !ends_with_space {
                    e.name_input.push(' ');
                }
                e.name_cursor = e.name_input.len();
                *editor = Some(e);
                return OverlayOutcome::Kept;
            }
        }
        if in_parent && accept_project_editor_parent_field_suggestion(data, &mut e) {
            *editor = Some(e);
            return OverlayOutcome::Kept;
        }
        e.focused_field = e.focused_field.next();
        e.suggestion_index = 0;
        *editor = Some(e);
        return OverlayOutcome::Kept;
    }
    if key == EditorKey::BackTab {
        e.focused_field = e.focused_field.previous();
        e.suggestion_index = 0;
    } else if key == EditorKey::F(1) {
        e.focused_field = ProjectEditorField::Name;
        e.suggestion_index = 0;
    } else if key == EditorKey::F(2) {
        e.focused_field = ProjectEditorField::Parent;
        e.suggestion_index = 0;
    } else if key == EditorKey::F(3) {
        e.focused_field = ProjectEditorField::Color;
        e.suggestion_index = 0;
    } else if key == EditorKey::F(4) {
        e.focused_field = ProjectEditorField::Favorite;
        e.suggestion_index = 0;
    } else if (in_name || in_parent) && (key == EditorKey::Backspace || key == EditorKey::Delete || key
        == EditorKey::Home || key == EditorKey::Left || key == EditorKey::Right || key == EditorKey::End) {
        let op = line_key_of(key).unwrap();
        if in_name {
            edit_chars(&mut e.name_input, &mut e.name_cursor, op);
        } else {
            edit_chars(&mut e.parent_input, &mut e.parent_cursor, op);
        }
        match op {
            LineEdit::DeleteBefore | LineEdit::DeleteAt => {
                e.suggestion_index = 0;
            },
            _ => {},
        }
    } else if e.focused_field == ProjectEditorField::Color && steps_back_key(key) {
        e.color_index = e.color_index.saturating_sub(1);
    } else if e.focused_field == ProjectEditorField::Color && steps_on_key(key) {
        e.color_index = next_within_of(e.color_index, crate::domain::ProjectColor::all().len());
    } else if e.focused_field == ProjectEditorField::Favorite && (steps_back_key(key) || steps_on_key(key)) {
        e.is_favorite = !e.is_favorite;
    } else if in_name && (key matches EditorKey::Char(_) || key matches EditorKey::Ctrl(_)) {
        let c = match key {
            EditorKey::Char(c) => c,
            EditorKey::Ctrl(c) => c,
            _ => ' ',
        };
        type_into_name(data, &mut e, c);
        e.suggestion_index = 0;
    } else if in_parent && (key matches EditorKey::Char(_) || key matches EditorKey::Ctrl(_)) {
        let c = match key {
            EditorKey::Char(c) => c,
            EditorKey::Ctrl(c) => c,
            _ => ' ',
        };
        edit_chars(&mut e.parent_input, &mut e.parent_cursor, LineEdit::Insert(c));
        e.suggestion_index = 0;
    } else if key == EditorKey::Down && in_name {
        let text = string_from(e.name_input.as_slice());
        match active_project_query(data, text.as_str(), e.name_cursor) {
            Some((_s, _e, q)) => {
                let n = project_parent_suggestions(data, q.as_str(), e.project_id).len();
                e.suggestion_index = next_within_of(e.suggestion_index, n);
            },
            None => {},
        }
    } else if key == EditorKey::Down && in_parent {
        let trimmed = trim_chars(e.parent_input.as_slice());
        if trimmed.len() > 0 {
            let q = string_from(trimmed.as_slice());
            let n = project_parent_suggestions(data, q.as_str(), e.project_id).len();
            e.suggestion_index = next_within_of(e.suggestion_index, n);
        }
    } else if key == EditorKey::Up && (in_name || in_parent) {
        e.suggestion_index = e.suggestion_index.saturating_sub(1);
    }
    *editor = Some(e);
    OverlayOutcome::Kept
}

// All of them.

/// The popups and editors that may be open, in the order in which they
/// take a key: the note viewer and editor, the task, project, tag and
/// filter sort popups (each by its highlighted order), the task search,
/// the task, project, tag and filter delete confirmations, the tag, filter,
/// project and task editors, and the quick-add popup.
#[derive(Debug, Clone, PartialEq, Eq)]
pub struct OverlayState {
    pub note_viewer: Option<SessionNoteViewerView>,
    pub note_editor: Option<(SessionNoteTarget, TextArea)>,
    pub task_sort_popup: Option<usize>,
    pub project_sort_popup: Option<usize>,
    pub tag_sort_popup: Option<usize>,
    pub filter_sort_popup: Option<usize>,
    pub task_search: Option<TaskSearchState>,
    pub delete_confirmation: Option<TaskId>,
    pub project_delete_confirmation: Option<ProjectId>,
    pub tag_delete_confirmation: Option<TagId>,
    pub filter_delete_confirmation: Option<FilterId>,
    pub tag_editor: Option<TagEditorState>,
    pub filter_editor: Option<FilterEditorState>,
    pub project_editor: Option<ProjectEditorState>,
    pub task_editor: Option<TaskEditorState>,
    pub task_input: Option<TaskInputState>,
}

/// The open popups and editors as values.
pub struct OverlayModel {
    pub note_viewer: Option<ViewerModel>,
    pub note_editor: Option<(SessionNoteTarget, TextAreaModel)>,
    pub task_sort_popup: Option<nat>,
    pub project_sort_popup: Option<nat>,
    pub tag_sort_popup: Option<nat>,
    pub filter_sort_popup: Option<nat>,
    pub task_search: Option<SearchModel>,
    pub delete_confirmation: Option<TaskId>,
    pub project_delete_confirmation: Option<ProjectId>,
    pub tag_delete_confirmation: Option<TagId>,
    pub filter_delete_confirmation: Option<FilterId>,
    pub tag_editor: Option<TagEditorModel>,
    pub filter_editor: Option<FilterEditorModel>,
    pub project_editor: Option<ProjectEditorModel>,
    pub task_editor: Option<TaskEditorModel>,
    pub task_input: Option<TaskInputModel>,
}

impl View for OverlayState {
    type V = OverlayModel;

    open spec fn view(&self) -> OverlayModel {
        OverlayModel {
            note_viewer: match self.note_viewer {
                Some(v) => Some(viewer_model(v)),
                None => None,
            },
            note_editor: match self.note_editor {
                Some((t, a)) => Some((t, a@)),
                None => None,
            },
            task_sort_popup: match self.task_sort_popup {
                Some(i) => Some(i as nat),
                None => None,
            },
            project_sort_popup: match self.project_sort_popup {
                Some(i) => Some(i as nat),
                None => None,
            },
            tag_sort_popup: match self.tag_sort_popup {
                Some(i) => Some(i as nat),
                None => None,
            },
            filter_sort_popup: match self.filter_sort_popup {
                Some(i) => Some(i as nat),
                None => None,
            },
            task_search: match self.task_search {
                Some(s) => Some(search_model(s)),
                None => None,
            },
            delete_confirmation: self.delete_confirmation,
            project_delete_confirmation: self.project_delete_confirmation,
            tag_delete_confirmation: self.tag_delete_confirmation,
            filter_delete_confirmation: self.filter_delete_confirmation,
            tag_editor: match self.tag_editor {
                Some(e) => Some(tag_editor_model(e)),
                None => None,
            },
            filter_editor: match self.filter_editor {
                Some(e) => Some(filter_editor_model(e)),
                None => None,
            },
            project_editor: match self.project_editor {
                Some(e) => Some(project_editor_model(e)),
                None => None,
            },
            task_editor: match self.task_editor {
                Some(e) => Some(e@),
                None => None,
            },
            task_input: match self.task_input {
                Some(i) => Some(i@),
                None => None,
            },
        }
    }
}

/// The key as the quick-add popup knows it.
pub open spec fn input_key_of(key: EditorKey) -> InputKey {
    match key {
        EditorKey::Esc => InputKey::Esc,
        EditorKey::Enter => InputKey::Enter,
        EditorKey::Tab => InputKey::Tab,
        EditorKey::Up => InputKey::Up,
        EditorKey::Down => InputKey::Down,
        EditorKey::Left => InputKey::Left,
        EditorKey::Right => InputKey::Right,
        EditorKey::Home => InputKey::Home,
        EditorKey::End => InputKey::End,
        EditorKey::Backspace => InputKey::Backspace,
        EditorKey::Delete => InputKey::Delete,
        EditorKey::Char(c) => InputKey::Char(c),
        EditorKey::Ctrl(c) => InputKey::Ctrl(c),
        _ => InputKey::Other,
    }
}

fn input_key_from(key: EditorKey) -> (r: InputKey)
    ensures
        r == input_key_of(key),
{
    match key {
        EditorKey::Esc => InputKey::Esc,
        EditorKey::Enter => InputKey::Enter,
        EditorKey::Tab => InputKey::Tab,
        EditorKey::Up => InputKey::Up,
        EditorKey::Down => InputKey::Down,
        EditorKey::Left => InputKey::Left,
        EditorKey::Right => InputKey::Right,
        EditorKey::Home => InputKey::Home,
        EditorKey::End => InputKey::End,
        EditorKey::Backspace => InputKey::Backspace,
        EditorKey::Delete => InputKey::Delete,
        EditorKey::Char(c) => InputKey::Char(c),
        EditorKey::Ctrl(c) => InputKey::Ctrl(c),
        _ => InputKey::Other,
    }
}

/// What a sort popup's step asks: nothing, closing, or the order picked.
pub open spec fn sort_result<T>(p: Option<nat>, picked: Option<Option<nat>>, orders: Seq<T>, apply: spec_fn(T) -> OverlayResult) -> OverlayResult {
    match picked {
        None => if p is None {
            OverlayResult::Closed
        } else {
            OverlayResult::Kept
        },
        Some(None) => OverlayResult::Closed,
        Some(Some(j)) => apply(orders[j as int]),
    }
}

/// What a confirmation's step asks: nothing, cancelling, or the deletion.
pub open spec fn confirmed<T>(pending: T, answer: Option<bool>, delete: OverlayResult) -> (Option<T>, OverlayResult) {
    match answer {
        Some(true) => (None, delete),
        Some(false) => (None, OverlayResult::Closed),
        None => (Some(pending), OverlayResult::Kept),
    }
}

/// What a key does to the open popups and editors: the first open one in
/// the order of `OverlayState` takes it (see the `*_key_step` functions);
/// the task editor and the quick-add popup close where their key closes
/// them. Where none is open, nothing changes and the key is not taken.
pub open spec fn overlay_key_step(data: ScreenData, m: OverlayModel, key: EditorKey) -> (OverlayModel, OverlayResult) {
    if let Some(v) = m.note_viewer {
        let (n, r) = viewer_key_step(v, key);
        (OverlayModel { note_viewer: n, ..m }, r)
    } else if let Some((t, a)) = m.note_editor {
        let (n, r) = note_editor_key_step(t, a, key);
        (OverlayModel { note_editor: n, ..m }, r)
    } else if let Some(i) = m.task_sort_popup {
        let (p, picked) = sort_popup_step(i, task_sort_orders().len(), key);
        (
            OverlayModel { task_sort_popup: p, ..m },
            sort_result(p, picked, task_sort_orders(), |o: TaskSortOrder| OverlayResult::ApplyTaskSort(o)),
        )
    } else if let Some(i) = m.project_sort_popup {
        let (p, picked) = sort_popup_step(i, project_sort_orders().len(), key);
        (
            OverlayModel { project_sort_popup: p, ..m },
            sort_result(p, picked, project_sort_orders(), |o: ProjectSortOrder| OverlayResult::ApplyProjectSort(o)),
        )
    } else if let Some(i) = m.tag_sort_popup {
        let (p, picked) = sort_popup_step(i, tag_sort_orders().len(), key);
        (
            OverlayModel { tag_sort_popup: p, ..m },
            sort_result(p, picked, tag_sort_orders(), |o: TagSortOrder| OverlayResult::ApplyTagSort(o)),
        )
    } else if let Some(i) = m.filter_sort_popup {
        let (p, picked) = sort_popup_step(i, filter_sort_orders().len(), key);
        (
            OverlayModel { filter_sort_popup: p, ..m },
            sort_result(p, picked, filter_sort_orders(), |o: FilterSortOrder| OverlayResult::ApplyFilterSort(o)),
        )
    } else if let Some(sm) = m.task_search {
        let (n, r) = search_key_step(data, sm, key);
        (OverlayModel { task_search: n, ..m }, r)
    } else if let Some(id) = m.delete_confirmation {
        let (n, r) = confirmed(id, confirmation_step(key), OverlayResult::DeleteTask(id));
        (OverlayModel { delete_confirmation: n, ..m }, r)
    } else if let Some(id) = m.project_delete_confirmation {
        let (n, r) = confirmed(id, confirmation_step(key), OverlayResult::DeleteProject(id));
        (OverlayModel { project_delete_confirmation: n, ..m }, r)
    } else if let Some(id) = m.tag_delete_confirmation {
        let (n, r) = confirmed(id, confirmation_step(key), OverlayResult::DeleteTag(id));
        (OverlayModel { tag_delete_confirmation: n, ..m }, r)
    } else if let Some(id) = m.filter_delete_confirmation {
        let (n, r) = confirmed(id, confirmation_step(key), OverlayResult::DeleteFilter(id));
        (OverlayModel { filter_delete_confirmation: n, ..m }, r)
    } else if let Some(e) = m.tag_editor {
        let (n, r) = tag_editor_key_step(e, key);
        (OverlayModel { tag_editor: n, ..m }, r)
    } else if let Some(e) = m.filter_editor {
        let (n, r) = filter_editor_key_step(e, key);
        (OverlayModel { filter_editor: n, ..m }, r)
    } else if let Some(e) = m.project_editor {
        let (n, r) = project_editor_key_step(data, e, key);
        (OverlayModel { project_editor: n, ..m }, r)
    } else if let Some(e) = m.task_editor {
        let (n, r) = editor_key_step(data, e, key);
        (
            OverlayModel { task_editor: if r is Closed { None } else { Some(n) }, ..m },
            OverlayResult::TaskEditor(r),
        )
    } else if let Some(i) = m.task_input {
        let (n, r) = input_key_step(data, i, input_key_of(key));
        (
            OverlayModel { task_input: if r is Closed { None } else { Some(n) }, ..m },
            OverlayResult::TaskInput(r),
        )
    } else {
        (m, OverlayResult::NotOpen)
    }
}

/// No popup or editor is open.
pub open spec fn nothing_open(m: OverlayModel) -> bool {
    &&& m.note_viewer is None
    &&& m.note_editor is None
    &&& m.task_sort_popup is None
    &&& m.project_sort_popup is None
    &&& m.tag_sort_popup is None
    &&& m.filter_sort_popup is None
    &&& m.task_search is None
    &&& m.delete_confirmation is None
    &&& m.project_delete_confirmation is None
    &&& m.tag_delete_confirmation is None
    &&& m.filter_delete_confirmation is None
    &&& m.tag_editor is None
    &&& m.filter_editor is None
    &&& m.project_editor is None
    &&& m.task_editor is None
    &&& m.task_input is None
}

/// The popups take a key exactly when one of them is open; where none is,
/// the key changes nothing and goes on to the main screen.
#[verifier::rlimit(40)]
pub proof fn key_taken_exactly_when_open(data: ScreenData, m: OverlayModel, key: EditorKey)
    ensures
        overlay_key_step(data, m, key).1 is NotOpen <==> nothing_open(m),
        nothing_open(m) ==> overlay_key_step(data, m, key).0 == m,
{
}

/// What the popup or editor that takes a key needs of its state for it:
/// cursors within their texts and room to type (see the `*_fits`
/// functions), and, for the task editor, what `handle_task_editor_key`
/// requires.
pub open spec fn overlay_fits(data: ScreenData, s: OverlayState, key: EditorKey) -> bool {
    if s.note_viewer is Some {
        true
    } else if let Some((_, a)) = s.note_editor {
        note_editor_fits(a@)
    } else if s.task_sort_popup is Some || s.project_sort_popup is Some || s.tag_sort_popup is Some
        || s.filter_sort_popup is Some {
        true
    } else if let Some(sm) = s.task_search {
        line_fits(search_model(sm).query)
    } else if s.delete_confirmation is Some || s.project_delete_confirmation is Some
        || s.tag_delete_confirmation is Some || s.filter_delete_confirmation is Some {
        true
    } else if let Some(e) = s.tag_editor {
        line_fits(tag_editor_model(e).name)
    } else if let Some(e) = s.filter_editor {
        line_fits(filter_editor_model(e).name) && line_fits(filter_editor_model(e).query)
    } else if let Some(e) = s.project_editor {
        project_editor_fits(project_editor_model(e))
    } else if let Some(e) = s.task_editor {
        &&& (key_edit(e@, key) matches Some(op) ==> edit_fits(e@, op))
        &&& (e.focused_field == TaskEditorField::Parent && e.task_id is Some ==> forall|i: int|
            0 <= i < data.tasks@.len() && #[trigger] parent_task_base(
                data.tasks@[i],
                data.projects@,
                e.task_id,
                e.project_id,
            ) ==> task_chain_ends(data.tasks@, data.tasks@[i].id))
    } else if let Some(i) = s.task_input {
        &&& (input_key_edit(input_key_of(key)) matches Some(op) && (op is Left || op is Insert || op is DeleteBefore)
            ==> i@.cursor <= i@.value.len())
        &&& (input_key_edit(input_key_of(key)) matches Some(op) && op is Insert ==> i@.value.len() < usize::MAX)
    } else {
        true
    }
}

/// Handles a key while a popup or editor is open (see
/// `overlay_key_step`); `NotOpen` where none is.
#[verifier::rlimit(100)]
#[verifier::spinoff_prover]
pub fn handle_overlay_key(state: &mut OverlayState, data: &ScreenData, key: EditorKey) -> (r: OverlayOutcome)
    requires
        overlay_fits(*data, *old(state), key),
    ensures
        final(state)@ == overlay_key_step(*data, old(state)@, key).0,
        overlay_outcome_is(r, overlay_key_step(*data, old(state)@, key).1),
{
    if state.note_viewer.is_some() {
        return viewer_key(&mut state.note_viewer, key);
    }
    if state.note_editor.is_some() {
        return note_editor_key(&mut state.note_editor, key);
    }
    if state.task_sort_popup.is_some() {
        let picked = sort_popup_key(&mut state.task_sort_popup, TaskSortOrder::all().len(), key);
        return match picked {
            None => if state.task_sort_popup.is_none() { OverlayOutcome::Closed } else { OverlayOutcome::Kept },
            Some(None) => OverlayOutcome::Closed,
            Some(Some(j)) => OverlayOutcome::ApplyTaskSort(TaskSortOrder::all()[j]),
        };
    }
    if state.project_sort_popup.is_some() {
        let picked = sort_popup_key(&mut state.project_sort_popup, ProjectSortOrder::all().len(), key);
        return match picked {
            None => if state.project_sort_popup.is_none() { OverlayOutcome::Closed } else { OverlayOutcome::Kept },
            Some(None) => OverlayOutcome::Closed,
            Some(Some(j)) => OverlayOutcome::ApplyProjectSort(ProjectSortOrder::all()[j]),
        };
    }
    if state.tag_sort_popup.is_some() {
        let picked = sort_popup_key(&mut state.tag_sort_popup, TagSortOrder::all().len(), key);
        return match picked {
            None => if state.tag_sort_popup.is_none() { OverlayOutcome::Closed } else { OverlayOutcome::Kept },
            Some(None) => OverlayOutcome::Closed,
            Some(Some(j)) => OverlayOutcome::ApplyTagSort(TagSortOrder::all()[j]),
        };
    }
    if state.filter_sort_popup.is_some() {
        let picked = sort_popup_key(&mut state.filter_sort_popup, FilterSortOrder::all().len(), key);
        return match picked {
            None => if state.filter_sort_popup.is_none() { OverlayOutcome::Closed } else { OverlayOutcome::Kept },
            Some(None) => OverlayOutcome::Closed,
            Some(Some(j)) => OverlayOutcome::ApplyFilterSort(FilterSortOrder::all()[j]),
        };
    }
    if state.task_search.is_some() {
        return search_key(data, &mut state.task_search, key);
    }
    if let Some(id) = state.delete_confirmation {
        return match confirmation_key(key) {
            Some(true) => {
                state.delete_confirmation = None;
                OverlayOutcome::DeleteTask(id)
            },
            Some(false) => {
                state.delete_confirmation = None;
                OverlayOutcome::Closed
            },
            None => OverlayOutcome::Kept,
        };
    }
    if let Some(id) = state.project_delete_confirmation {
        return match confirmation_key(key) {
            Some(true) => {
                state.project_delete_confirmation = None;
                OverlayOutcome::DeleteProject(id)
            },
            Some(false) => {
                state.project_delete_confirmation = None;
                OverlayOutcome::Closed
            },
            None => OverlayOutcome::Kept,
        };
    }
    if let Some(id) = state.tag_delete_confirmation {
        return match confirmation_key(key) {
            Some(true) => {
                state.tag_delete_confirmation = None;
                OverlayOutcome::DeleteTag(id)
            },
            Some(false) => {
                state.tag_delete_confirmation = None;
                OverlayOutcome::Closed
            },
            None => OverlayOutcome::Kept,
        };
    }
    if let Some(id) = state.filter_delete_confirmation {
        return match confirmation_key(key) {
            Some(true) => {
                state.filter_delete_confirmation = None;
                OverlayOutcome::DeleteFilter(id)
            },
            Some(false) => {
                state.filter_delete_confirmation = None;
                OverlayOutcome::Closed
            },
            None => OverlayOutcome::Kept,
        };
    }
    if state.tag_editor.is_some() {
        return tag_editor_key(&mut state.tag_editor, key);
    }
    if state.filter_editor.is_some() {
        return filter_editor_key(&mut state.filter_editor, key);
    }
    if state.project_editor.is_some() {
        return project_editor_key(data, &mut state.project_editor, key);
    }
    if state.task_editor.is_some() {
        let mut editor = state.task_editor.take().unwrap();
        let outcome = handle_task_editor_key(data, &mut editor, key);
        match outcome {
            EditorKeyOutcome::Closed => {},
            _ => {
                state.task_editor = Some(editor);
            },
        }
        return OverlayOutcome::TaskEditor(outcome);
    }
    if state.task_input.is_some() {
        let mut input = state.task_input.take().unwrap();
        let outcome = handle_task_input_key(data, &mut input, input_key_from(key));
        match outcome {
            InputKeyOutcome::Closed => {},
            _ => {
                state.task_input = Some(input);
            },
        }
        return OverlayOutcome::TaskInput(outcome);
    }
    OverlayOutcome::NotOpen
}

} // verus!
