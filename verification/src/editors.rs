//! The tag editor and the saved filter editor: opening them for a new or an
//! existing item, what they show, and what saving them writes.
use vstd::prelude::*;

use crate::app::{
    DeleteConfirmationView, FilterDeleteConfirmationView, FilterEditorField, FilterEditorFocusView,
    FilterEditorView, FormPreviewPanelView, PreviewLineView, ProjectDeleteConfirmationView, ScreenData,
    TagDeleteConfirmationView, TagEditorField, TagEditorFocusView, TagEditorView,
};
use crate::domain::{
    ProjectId, TaskId, filter_color_label, filter_colors, tag_color_label, tag_colors, Filter, FilterColor, FilterId, Tag,
    TagColor, TagId,
};
use crate::filters::{parse_and_validate, parse_query};
use crate::listing::{filter_by_id, filter_with_id, project_by_id, project_with_id, tag_by_id, tag_with_id};
use crate::references::task_with_id;
use crate::references::strip_leading;
use crate::text::{chars_of, string_from, string_of, trim_chars, trim_spec};

verus! {

/// What the tag editor holds.
#[derive(Debug, Clone, PartialEq, Eq)]
pub struct TagEditorState {
    pub tag_id: Option<TagId>,
    pub name_input: Vec<char>,
    pub name_cursor: usize,
    pub color_index: usize,
    pub is_favorite: bool,
    pub focused_field: TagEditorField,
}

/// What the saved filter editor holds, with the reason the last save was
/// refused.
#[derive(Debug, Clone, PartialEq, Eq)]
pub struct FilterEditorState {
    pub filter_id: Option<FilterId>,
    pub name_input: Vec<char>,
    pub name_cursor: usize,
    pub query_input: Vec<char>,
    pub query_cursor: usize,
    pub color_index: usize,
    pub is_favorite: bool,
    pub focused_field: FilterEditorField,
    pub validation_error: Option<String>,
}

fn tag_color_position(color: TagColor) -> (r: usize)
    ensures
        r < tag_colors().len(),
        tag_colors()[r as int] == color,
{
    let all = TagColor::all();
    let mut i: usize = 0;
    while i < all.len()
        invariant
            i <= all.len(),
            all@ == tag_colors(),
            forall|j: int| 0 <= j < i ==> all@[j] != color,
        decreases all.len() - i,
    {
        if all[i] == color {
            return i;
        }
        i += 1;
    }
    proof {
        match color {
            TagColor::BerryRed => assert(all@[0] == color),
            TagColor::Red => assert(all@[1] == color),
            TagColor::Orange => assert(all@[2] == color),
            TagColor::Yellow => assert(all@[3] == color),
            TagColor::OliveGreen => assert(all@[4] == color),
            TagColor::LimeGreen => assert(all@[5] == color),
            TagColor::Green => assert(all@[6] == color),
            TagColor::MintGreen => assert(all@[7] == color),
            TagColor::Teal => assert(all@[8] == color),
            TagColor::SkyBlue => assert(all@[9] == color),
            TagColor::LightBlue => assert(all@[10] == color),
            TagColor::Blue => assert(all@[11] == color),
            TagColor::Grape => assert(all@[12] == color),
            TagColor::Violet => assert(all@[13] == color),
            TagColor::Lavender => assert(all@[14] == color),
            TagColor::Magenta => assert(all@[15] == color),
            TagColor::Salmon => assert(all@[16] == color),
            TagColor::Charcoal => assert(all@[17] == color),
            TagColor::Grey => assert(all@[18] == color),
            TagColor::Taupe => assert(all@[19] == color),
        }
    }
    0
}

fn filter_color_position(color: FilterColor) -> (r: usize)
    ensures
        r < filter_colors().len(),
        filter_colors()[r as int] == color,
{
    let all = FilterColor::all();
    let mut i: usize = 0;
    while i < all.len()
        invariant
            i <= all.len(),
            all@ == filter_colors(),
            forall|j: int| 0 <= j < i ==> all@[j] != color,
        decreases all.len() - i,
    {
        if all[i] == color {
            return i;
        }
        i += 1;
    }
    proof {
        match color {
            FilterColor::BerryRed => assert(all@[0] == color),
            FilterColor::Red => assert(all@[1] == color),
            FilterColor::Orange => assert(all@[2] == color),
            FilterColor::Yellow => assert(all@[3] == color),
            FilterColor::OliveGreen => assert(all@[4] == color),
            FilterColor::LimeGreen => assert(all@[5] == color),
            FilterColor::Green => assert(all@[6] == color),
            FilterColor::MintGreen => assert(all@[7] == color),
            FilterColor::Teal => assert(all@[8] == color),
            FilterColor::SkyBlue => assert(all@[9] == color),
            FilterColor::LightBlue => assert(all@[10] == color),
            FilterColor::Blue => assert(all@[11] == color),
            FilterColor::Grape => assert(all@[12] == color),
            FilterColor::Violet => assert(all@[13] == color),
            FilterColor::Lavender => assert(all@[14] == color),
            FilterColor::Magenta => assert(all@[15] == color),
            FilterColor::Salmon => assert(all@[16] == color),
            FilterColor::Charcoal => assert(all@[17] == color),
            FilterColor::Grey => assert(all@[18] == color),
            FilterColor::Taupe => assert(all@[19] == color),
        }
    }
    0
}

/// The tag editor for a new tag: empty name, charcoal, not a favorite, the
/// name focused.
pub fn open_create_tag_popup() -> (r: TagEditorState)
    ensures
        r.tag_id is None,
        r.name_input@ == Seq::<char>::empty(),
        r.name_cursor == 0,
        tag_colors()[r.color_index as int] == TagColor::Charcoal,
        !r.is_favorite,
        r.focused_field == TagEditorField::Name,
{
    TagEditorState {
        tag_id: None,
        name_input: Vec::new(),
        name_cursor: 0,
        color_index: tag_color_position(TagColor::Charcoal),
        is_favorite: false,
        focused_field: TagEditorField::Name,
    }
}

/// The tag editor for the selected tag: its name with the cursor at the
/// end, its colour and favorite mark. None where nothing is selected or the
/// tag is not found.
pub fn open_edit_tag_popup(data: &ScreenData, selected_tag_id: Option<TagId>) -> (r: Option<TagEditorState>)
    ensures
        match selected_tag_id {
            None => r is None,
            Some(id) => match crate::listing::tag_with_id(data.tags@, id) {
                None => r is None,
                Some(t) => r matches Some(e) && {
                    &&& e.tag_id == Some(t.id)
                    &&& e.name_input@ == t.name@
                    &&& e.name_cursor == t.name@.len()
                    &&& tag_colors()[e.color_index as int] == t.color
                    &&& e.is_favorite == t.is_favorite
                    &&& e.focused_field == TagEditorField::Name
                },
            },
        },
{
    let id = match selected_tag_id {
        Some(id) => id,
        None => {
            return None;
        },
    };
    let tag = match tag_by_id(data.tags.as_slice(), id) {
        Some(t) => t,
        None => {
            return None;
        },
    };
    let name = chars_of(tag.name.as_str());
    let cursor = name.len();
    Some(TagEditorState {
        tag_id: Some(tag.id),
        name_input: name,
        name_cursor: cursor,
        color_index: tag_color_position(tag.color),
        is_favorite: tag.is_favorite,
        focused_field: TagEditorField::Name,
    })
}

/// The colour at the editor's index, charcoal past the end.
pub open spec fn tag_editor_color(index: int) -> TagColor {
    if index < tag_colors().len() {
        tag_colors()[index]
    } else {
        TagColor::Charcoal
    }
}

/// The tips the tag editor gives for the focused field.
pub open spec fn tag_editor_tips(field: TagEditorField) -> Seq<Seq<char>> {
    match field {
        TagEditorField::Name => seq!["Type the tag name without @"@, "Use @name style only when typing task titles"@],
        TagEditorField::Color => seq!["Use ←/→ or h/l to change the color"@],
        TagEditorField::Favorite => seq!["Use ←/→ or h/l to toggle favorite"@],
    }
}

fn strings(items: &[&str]) -> (r: Vec<String>)
    ensures
        crate::references::strings_view(r@) == crate::filters::strs_view(items@),
{
    let mut r: Vec<String> = Vec::new();
    let mut i: usize = 0;
    while i < items.len()
        invariant
            i <= items.len(),
            crate::references::strings_view(r@) == crate::filters::strs_view(items@.take(i as int)),
        decreases items.len() - i,
    {
        let ghost before = r@;
        r.push(string_of(items[i]));
        proof {
            assert(crate::references::strings_view(r@) =~= crate::references::strings_view(before).push(items@[i as int]@));
            assert(crate::filters::strs_view(items@.take(i + 1)) =~= crate::filters::strs_view(items@.take(i as int)).push(items@[i as int]@));
        }
        i += 1;
    }
    assert(items@.take(items.len() as int) =~= items@);
    r
}

/// What the tag editor shows.
pub fn tag_editor_view(editor: &TagEditorState) -> (r: TagEditorView)
    ensures
        r.title@ == if editor.tag_id is Some {
            "Edit Tag"@
        } else {
            "New Tag"@
        },
        r.name_value@ == editor.name_input@,
        r.name_cursor == editor.name_cursor,
        r.color_value == tag_editor_color(editor.color_index as int),
        r.color_label@ == tag_color_label(tag_editor_color(editor.color_index as int)),
        r.is_favorite == editor.is_favorite,
        r.focus == (TagEditorFocusView {
            name: editor.focused_field == TagEditorField::Name,
            color: editor.focused_field == TagEditorField::Color,
            favorite: editor.focused_field == TagEditorField::Favorite,
        }),
        r.preview_panel.preview_lines@.len() == 0,
        crate::references::strings_view(r.preview_panel.tips@) == tag_editor_tips(editor.focused_field),
{
    let all = TagColor::all();
    let color = if editor.color_index < all.len() {
        all[editor.color_index]
    } else {
        TagColor::Charcoal
    };
    let tips = match editor.focused_field {
        TagEditorField::Name => strings(&["Type the tag name without @", "Use @name style only when typing task titles"]),
        TagEditorField::Color => strings(&["Use ←/→ or h/l to change the color"]),
        TagEditorField::Favorite => strings(&["Use ←/→ or h/l to toggle favorite"]),
    };
    let preview_lines: Vec<PreviewLineView> = Vec::new();
    TagEditorView {
        title: if editor.tag_id.is_some() {
            "Edit Tag"
        } else {
            "New Tag"
        },
        name_value: string_from(editor.name_input.as_slice()),
        name_cursor: editor.name_cursor,
        color_label: string_of(color.label()),
        color_value: color,
        is_favorite: editor.is_favorite,
        focus: TagEditorFocusView {
            name: editor.focused_field == TagEditorField::Name,
            color: editor.focused_field == TagEditorField::Color,
            favorite: editor.focused_field == TagEditorField::Favorite,
        },
        preview_panel: FormPreviewPanelView { preview_lines, tips },
    }
}

/// What saving the tag editor writes.
#[derive(Debug, Clone, PartialEq, Eq)]
pub struct TagSubmission {
    pub tag_id: Option<TagId>,
    pub name: String,
    pub color: TagColor,
    pub is_favorite: bool,
}

/// The name the tag editor saves: trimmed, leading `@` signs dropped, and
/// trimmed again.
pub open spec fn tag_editor_name(input: Seq<char>) -> Seq<char> {
    trim_spec(strip_leading(trim_spec(input), '@'))
}

/// What saving the tag editor writes; none where the name is blank, and
/// the editor stays open.
pub fn submit_tag_editor(editor: &TagEditorState) -> (r: Option<TagSubmission>)
    ensures
        tag_editor_name(editor.name_input@).len() == 0 ==> r is None,
        tag_editor_name(editor.name_input@).len() > 0 ==> (r matches Some(s) && s.tag_id == editor.tag_id
            && s.name@ == tag_editor_name(editor.name_input@) && s.color == tag_editor_color(
            editor.color_index as int,
        ) && s.is_favorite == editor.is_favorite),
{
    let trimmed = trim_chars(editor.name_input.as_slice());
    let text = string_from(trimmed.as_slice());
    let stripped = crate::references::tag_query_name_of(text.as_str());
    proof {
        crate::text::lemma_trim_idempotent(editor.name_input@);
    }
    let name = trim_chars(stripped.as_slice());
    if name.len() == 0 {
        return None;
    }
    let all = TagColor::all();
    let color = if editor.color_index < all.len() {
        all[editor.color_index]
    } else {
        TagColor::Charcoal
    };
    Some(TagSubmission {
        tag_id: editor.tag_id,
        name: string_from(name.as_slice()),
        color,
        is_favorite: editor.is_favorite,
    })
}

/// The filter editor for a new filter: empty fields, charcoal, not a
/// favorite, the name focused, no error.
pub fn open_create_filter_popup() -> (r: FilterEditorState)
    ensures
        r.filter_id is None,
        r.name_input@ == Seq::<char>::empty(),
        r.name_cursor == 0,
        r.query_input@ == Seq::<char>::empty(),
        r.query_cursor == 0,
        filter_colors()[r.color_index as int] == FilterColor::Charcoal,
        !r.is_favorite,
        r.focused_field == FilterEditorField::Name,
        r.validation_error is None,
{
    FilterEditorState {
        filter_id: None,
        name_input: Vec::new(),
        name_cursor: 0,
        query_input: Vec::new(),
        query_cursor: 0,
        color_index: filter_color_position(FilterColor::Charcoal),
        is_favorite: false,
        focused_field: FilterEditorField::Name,
        validation_error: None,
    }
}

/// The filter editor for the selected filter: its name and query with the
/// cursors at their ends, its colour and favorite mark. None where nothing
/// is selected or the filter is not found.
pub fn open_edit_filter_popup(data: &ScreenData, selected_filter_id: Option<FilterId>) -> (r: Option<FilterEditorState>)
    ensures
        match selected_filter_id {
            None => r is None,
            Some(id) => match crate::listing::filter_with_id(data.filters@, id) {
                None => r is None,
                Some(f) => r matches Some(e) && {
                    &&& e.filter_id == Some(f.id)
                    &&& e.name_input@ == f.name@
                    &&& e.name_cursor == f.name@.len()
                    &&& e.query_input@ == f.query@
                    &&& e.query_cursor == f.query@.len()
                    &&& filter_colors()[e.color_index as int] == f.color
                    &&& e.is_favorite == f.is_favorite
                    &&& e.focused_field == FilterEditorField::Name
                    &&& e.validation_error is None
                },
            },
        },
{
    let id = match selected_filter_id {
        Some(id) => id,
        None => {
            return None;
        },
    };
    let filter = match filter_by_id(data.filters.as_slice(), id) {
        Some(f) => f,
        None => {
            return None;
        },
    };
    let name = chars_of(filter.name.as_str());
    let query = chars_of(filter.query.as_str());
    let name_cursor = name.len();
    let query_cursor = query.len();
    Some(FilterEditorState {
        filter_id: Some(filter.id),
        name_input: name,
        name_cursor,
        query_input: query,
        query_cursor,
        color_index: filter_color_position(filter.color),
        is_favorite: filter.is_favorite,
        focused_field: FilterEditorField::Name,
        validation_error: None,
    })
}

/// The colour at the editor's index, charcoal past the end.
pub open spec fn filter_editor_color(index: int) -> FilterColor {
    if index < filter_colors().len() {
        filter_colors()[index]
    } else {
        FilterColor::Charcoal
    }
}

/// The tips the filter editor gives for the focused field.
pub open spec fn filter_editor_tips(field: FilterEditorField) -> Seq<Seq<char>> {
    match field {
        FilterEditorField::Name => seq!["Type a short filter name"@, "Name is used in sidebar and Todoist sync mapping"@],
        FilterEditorField::Query => seq!["Use Todoist-style syntax, for example: today & @work"@],
        FilterEditorField::Color => seq!["Use ←/→ or h/l to change the color"@],
        FilterEditorField::Favorite => seq!["Use ←/→ or h/l to toggle favorite"@],
    }
}

fn copy_error(e: &Option<String>) -> (r: Option<String>)
    ensures
        match (r, *e) {
            (Some(a), Some(b)) => a@ == b@,
            (None, None) => true,
            _ => false,
        },
{
    match e {
        Some(m) => Some(string_of(m.as_str())),
        None => None,
    }
}

/// What the filter editor shows.
pub fn filter_editor_view(editor: &FilterEditorState) -> (r: FilterEditorView)
    ensures
        r.title@ == if editor.filter_id is Some {
            "Edit Filter"@
        } else {
            "New Filter"@
        },
        r.name_value@ == editor.name_input@,
        r.name_cursor == editor.name_cursor,
        r.query_value@ == editor.query_input@,
        r.query_cursor == editor.query_cursor,
        r.color_value == filter_editor_color(editor.color_index as int),
        r.color_label@ == filter_color_label(filter_editor_color(editor.color_index as int)),
        r.is_favorite == editor.is_favorite,
        r.focus == (FilterEditorFocusView {
            name: editor.focused_field == FilterEditorField::Name,
            query: editor.focused_field == FilterEditorField::Query,
            color: editor.focused_field == FilterEditorField::Color,
            favorite: editor.focused_field == FilterEditorField::Favorite,
        }),
        match (r.validation_error, editor.validation_error) {
            (Some(a), Some(b)) => a@ == b@,
            (None, None) => true,
            _ => false,
        },
        r.preview_panel.preview_lines@.len() == 0,
        crate::references::strings_view(r.preview_panel.tips@) == filter_editor_tips(editor.focused_field),
{
    let all = FilterColor::all();
    let color = if editor.color_index < all.len() {
        all[editor.color_index]
    } else {
        FilterColor::Charcoal
    };
    let tips = match editor.focused_field {
        FilterEditorField::Name => strings(&["Type a short filter name", "Name is used in sidebar and Todoist sync mapping"]),
        FilterEditorField::Query => strings(&["Use Todoist-style syntax, for example: today & @work"]),
        FilterEditorField::Color => strings(&["Use ←/→ or h/l to change the color"]),
        FilterEditorField::Favorite => strings(&["Use ←/→ or h/l to toggle favorite"]),
    };
    let preview_lines: Vec<PreviewLineView> = Vec::new();
    FilterEditorView {
        title: if editor.filter_id.is_some() {
            "Edit Filter"
        } else {
            "New Filter"
        },
        name_value: string_from(editor.name_input.as_slice()),
        name_cursor: editor.name_cursor,
        query_value: string_from(editor.query_input.as_slice()),
        query_cursor: editor.query_cursor,
        color_label: string_of(color.label()),
        color_value: color,
        is_favorite: editor.is_favorite,
        focus: FilterEditorFocusView {
            name: editor.focused_field == FilterEditorField::Name,
            query: editor.focused_field == FilterEditorField::Query,
            color: editor.focused_field == FilterEditorField::Color,
            favorite: editor.focused_field == FilterEditorField::Favorite,
        },
        validation_error: copy_error(&editor.validation_error),
        preview_panel: FormPreviewPanelView { preview_lines, tips },
    }
}

/// What saving the filter editor writes.
#[derive(Debug, Clone, PartialEq, Eq)]
pub struct FilterSubmission {
    pub filter_id: Option<FilterId>,
    pub name: String,
    pub query: String,
    pub color: FilterColor,
    pub is_favorite: bool,
}

/// Why saving the filter editor is refused, if it is: a blank name, a
/// blank query, or the reason the trimmed query does not read.
pub open spec fn filter_editor_error(editor: FilterEditorState) -> Option<Seq<char>> {
    let name = trim_spec(editor.name_input@);
    let query = trim_spec(editor.query_input@);
    if name.len() == 0 {
        Some("Filter name cannot be empty"@)
    } else if query.len() == 0 {
        Some("Filter query cannot be empty"@)
    } else {
        match parse_query(query) {
            Err(message) => Some(message),
            Ok(_) => None,
        }
    }
}

/// Saves the filter editor: what to write, with the name and query
/// trimmed; where that is refused, none, with the reason put in the editor.
pub fn submit_filter_editor(editor: &mut FilterEditorState) -> (r: Option<FilterSubmission>)
    ensures
        match filter_editor_error(*old(editor)) {
            Some(message) => r is None && (final(editor).validation_error matches Some(m) && m@ == message)
                && final(editor).filter_id == old(editor).filter_id && final(editor).name_input == old(
                editor,
            ).name_input && final(editor).query_input == old(editor).query_input && final(editor).name_cursor
                == old(editor).name_cursor && final(editor).query_cursor == old(editor).query_cursor
                && final(editor).color_index == old(editor).color_index && final(editor).is_favorite == old(
                editor,
            ).is_favorite && final(editor).focused_field == old(editor).focused_field,
            None => *final(editor) == *old(editor) && (r matches Some(s) && s.filter_id == old(editor).filter_id
                && s.name@ == trim_spec(old(editor).name_input@) && s.query@ == trim_spec(
                old(editor).query_input@,
            ) && s.color == filter_editor_color(old(editor).color_index as int) && s.is_favorite == old(
                editor,
            ).is_favorite),
        },
{
    let name = trim_chars(editor.name_input.as_slice());
    if name.len() == 0 {
        editor.validation_error = Some(string_of("Filter name cannot be empty"));
        return None;
    }
    let query = trim_chars(editor.query_input.as_slice());
    if query.len() == 0 {
        editor.validation_error = Some(string_of("Filter query cannot be empty"));
        return None;
    }
    let query_text = string_from(query.as_slice());
    match parse_and_validate(query_text.as_str()) {
        Err(error) => {
            editor.validation_error = Some(error.message);
            return None;
        },
        Ok(_) => {},
    }
    let all = FilterColor::all();
    let color = if editor.color_index < all.len() {
        all[editor.color_index]
    } else {
        FilterColor::Charcoal
    };
    Some(FilterSubmission {
        filter_id: editor.filter_id,
        name: string_from(name.as_slice()),
        query: query_text,
        color,
        is_favorite: editor.is_favorite,
    })
}

fn task_by_id_ref(tasks: &[crate::domain::Task], id: TaskId) -> (r: Option<&crate::domain::Task>)
    ensures
        match r {
            Some(t) => task_with_id(tasks@, id) == Some(*t),
            None => task_with_id(tasks@, id) is None,
        },
{
    let mut i: usize = 0;
    assert(tasks@.skip(0) =~= tasks@);
    while i < tasks.len()
        invariant
            i <= tasks.len(),
            task_with_id(tasks@, id) == task_with_id(tasks@.skip(i as int), id),
        decreases tasks.len() - i,
    {
        assert(tasks@.skip(i as int).drop_first() =~= tasks@.skip(i + 1));
        if tasks[i].id == id {
            return Some(&tasks[i]);
        }
        i += 1;
    }
    None
}

/// The delete confirmation for a task: its identifier and title; none
/// where no task awaits confirmation or it is not found.
pub fn delete_confirmation_view(data: &ScreenData, pending: Option<TaskId>) -> (r: Option<DeleteConfirmationView>)
    ensures
        match pending {
            None => r is None,
            Some(id) => match task_with_id(data.tasks@, id) {
                None => r is None,
                Some(t) => r matches Some(v) && v.task_id == id && v.task_title@ == t.title@,
            },
        },
{
    let id = match pending {
        Some(id) => id,
        None => {
            return None;
        },
    };
    match task_by_id_ref(data.tasks.as_slice(), id) {
        Some(t) => Some(DeleteConfirmationView { task_id: id, task_title: string_of(t.title.as_str()) }),
        None => None,
    }
}

/// The delete confirmation for a project: its identifier and name.
pub fn project_delete_confirmation_view(data: &ScreenData, pending: Option<ProjectId>) -> (r: Option<ProjectDeleteConfirmationView>)
    ensures
        match pending {
            None => r is None,
            Some(id) => match project_with_id(data.projects@, id) {
                None => r is None,
                Some(p) => r matches Some(v) && v.project_id == id && v.project_name@ == p.name@,
            },
        },
{
    let id = match pending {
        Some(id) => id,
        None => {
            return None;
        },
    };
    match project_by_id(data.projects.as_slice(), id) {
        Some(p) => Some(ProjectDeleteConfirmationView { project_id: id, project_name: string_of(p.name.as_str()) }),
        None => None,
    }
}

/// The delete confirmation for a tag: its identifier and name.
pub fn tag_delete_confirmation_view(data: &ScreenData, pending: Option<TagId>) -> (r: Option<TagDeleteConfirmationView>)
    ensures
        match pending {
            None => r is None,
            Some(id) => match tag_with_id(data.tags@, id) {
                None => r is None,
                Some(t) => r matches Some(v) && v.tag_id == id && v.tag_name@ == t.name@,
            },
        },
{
    let id = match pending {
        Some(id) => id,
        None => {
            return None;
        },
    };
    match tag_by_id(data.tags.as_slice(), id) {
        Some(t) => Some(TagDeleteConfirmationView { tag_id: id, tag_name: string_of(t.name.as_str()) }),
        None => None,
    }
}

/// The delete confirmation for a saved filter: its identifier and name.
pub fn filter_delete_confirmation_view(data: &ScreenData, pending: Option<FilterId>) -> (r: Option<FilterDeleteConfirmationView>)
    ensures
        match pending {
            None => r is None,
            Some(id) => match filter_with_id(data.filters@, id) {
                None => r is None,
                Some(f) => r matches Some(v) && v.filter_id == id && v.filter_name@ == f.name@,
            },
        },
{
    let id = match pending {
        Some(id) => id,
        None => {
            return None;
        },
    };
    match filter_by_id(data.filters.as_slice(), id) {
        Some(f) => Some(FilterDeleteConfirmationView { filter_id: id, filter_name: string_of(f.name.as_str()) }),
        None => None,
    }
}

/// The project a delete confirmation opens for: the selected project,
/// where it exists and is not the inbox.
pub fn open_project_delete_confirmation(data: &ScreenData, selected: Option<ProjectId>) -> (r: Option<ProjectId>)
    ensures
        r == match selected {
            Some(id) => match project_with_id(data.projects@, id) {
                Some(p) => if p.is_inbox {
                    None
                } else {
                    Some(id)
                },
                None => None,
            },
            None => None,
        },
{
    let id = match selected {
        Some(id) => id,
        None => {
            return None;
        },
    };
    match project_by_id(data.projects.as_slice(), id) {
        Some(p) => if p.is_inbox {
            None
        } else {
            Some(id)
        },
        None => None,
    }
}

/// The tag a delete confirmation opens for: the selected tag, where it
/// exists.
pub fn open_tag_delete_confirmation(data: &ScreenData, selected: Option<TagId>) -> (r: Option<TagId>)
    ensures
        r == match selected {
            Some(id) => if tag_with_id(data.tags@, id) is Some {
                Some(id)
            } else {
                None
            },
            None => None,
        },
{
    let id = match selected {
        Some(id) => id,
        None => {
            return None;
        },
    };
    match tag_by_id(data.tags.as_slice(), id) {
        Some(_) => Some(id),
        None => None,
    }
}

/// The saved filter a delete confirmation opens for: the selected filter,
/// where it exists.
pub fn open_filter_delete_confirmation(data: &ScreenData, selected: Option<FilterId>) -> (r: Option<FilterId>)
    ensures
        r == match selected {
            Some(id) => if filter_with_id(data.filters@, id) is Some {
                Some(id)
            } else {
                None
            },
            None => None,
        },
{
    let id = match selected {
        Some(id) => id,
        None => {
            return None;
        },
    };
    match filter_by_id(data.filters.as_slice(), id) {
        Some(_) => Some(id),
        None => None,
    }
}

} // verus!
