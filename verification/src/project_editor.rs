//! The project editor: its fields, what it shows, how it completes a
//! `#parent` reference in the name or a name in the parent field, and what
//! it saves.
use vstd::prelude::*;

use crate::app::{FormPreviewPanelView, PreviewLineView, ProjectEditorFocusView, ProjectEditorView, ScreenData};
use crate::domain::{project_color_label, project_colors, Project, ProjectColor, ProjectId};
use crate::listing::{project_by_id, project_with_id};
use crate::references::{
    active_project_query, active_project_query_spec, extract_project_reference,
    parent_input_resolution, parent_query_name, project_parent_suggestions,
    project_reference_take, ranked_projects, resolve_project_parent_input,
};
use crate::task_input::{highlighted, replace_range};
use crate::text::{chars_of, eq_ignore_ascii_case, eq_ignore_case, string_from, trim_chars, trim_spec};

verus! {

/// The fields of the project editor, in the order the keyboard walks them.
#[derive(Debug, Clone, Copy, PartialEq, Eq, Structural)]
pub enum ProjectEditorField {
    Name,
    Parent,
    Color,
    Favorite,
}

pub open spec fn project_field_index(f: ProjectEditorField) -> int {
    match f {
        ProjectEditorField::Name => 0,
        ProjectEditorField::Parent => 1,
        ProjectEditorField::Color => 2,
        ProjectEditorField::Favorite => 3,
    }
}

pub open spec fn project_field_at(i: int) -> ProjectEditorField {
    if i <= 0 {
        ProjectEditorField::Name
    } else if i == 1 {
        ProjectEditorField::Parent
    } else if i == 2 {
        ProjectEditorField::Color
    } else {
        ProjectEditorField::Favorite
    }
}

impl ProjectEditorField {
    /// The place of the field in the walk.
    pub fn index(self) -> (r: usize)
        ensures
            r == project_field_index(self),
    {
        match self {
            ProjectEditorField::Name => 0,
            ProjectEditorField::Parent => 1,
            ProjectEditorField::Color => 2,
            ProjectEditorField::Favorite => 3,
        }
    }

    /// The field at a place of the walk, the last one past the end.
    pub fn from_index(index: usize) -> (r: Self)
        ensures
            r == project_field_at(index as int),
    {
        if index == 0 {
            ProjectEditorField::Name
        } else if index == 1 {
            ProjectEditorField::Parent
        } else if index == 2 {
            ProjectEditorField::Color
        } else {
            ProjectEditorField::Favorite
        }
    }

    /// The next field, staying on the last.
    pub fn next(self) -> (r: Self)
        ensures
            r == project_field_at(project_field_index(self) + 1),
    {
        Self::from_index(self.index() + 1)
    }

    /// The previous field, staying on the first.
    pub fn previous(self) -> (r: Self)
        ensures
            r == project_field_at(project_field_index(self) - 1),
    {
        let i = self.index();
        Self::from_index(if i == 0 {
            0
        } else {
            i - 1
        })
    }
}

/// What the project editor holds: the project edited (none for a new one),
/// the name and parent fields with their cursors, the colour, whether it is
/// a favorite, the highlighted suggestion and the focused field.
#[derive(Debug, Clone, PartialEq, Eq)]
pub struct ProjectEditorState {
    pub project_id: Option<ProjectId>,
    pub name_input: Vec<char>,
    pub name_cursor: usize,
    pub parent_input: Vec<char>,
    pub parent_cursor: usize,
    pub color_index: usize,
    pub is_favorite: bool,
    pub suggestion_index: usize,
    pub focused_field: ProjectEditorField,
}

/// The name of the project with the given identifier.
pub open spec fn project_name_of(projects: Seq<Project>, id: ProjectId) -> Option<Seq<char>> {
    match project_with_id(projects, id) {
        Some(p) => Some(p.name@),
        None => None,
    }
}

pub(crate) fn project_name(data: &ScreenData, id: ProjectId) -> (r: Option<Vec<char>>)
    ensures
        match r {
            Some(n) => project_name_of(data.projects@, id) == Some(n@),
            None => project_name_of(data.projects@, id) is None,
        },
{
    match project_by_id(data.projects.as_slice(), id) {
        Some(p) => Some(chars_of(p.name.as_str())),
        None => None,
    }
}

fn copy_chars(s: &Vec<char>) -> (r: Vec<char>)
    ensures
        r@ == s@,
{
    crate::text::slice_chars(s.as_slice(), 0, s.len())
}

/// The editor for a new project: empty name, the selected project's name
/// as the parent, charcoal, not a favorite, the name focused.
pub fn open_create_project_popup(data: &ScreenData, selected_project_id: Option<ProjectId>) -> (r: ProjectEditorState)
    ensures
        r.project_id is None,
        r.name_input@ == Seq::<char>::empty(),
        r.name_cursor == 0,
        r.parent_input@ == match selected_project_id {
            Some(id) => match project_name_of(data.projects@, id) {
                Some(n) => n,
                None => Seq::<char>::empty(),
            },
            None => Seq::<char>::empty(),
        },
        r.parent_cursor == r.parent_input@.len(),
        project_colors()[r.color_index as int] == ProjectColor::Charcoal,
        !r.is_favorite,
        r.suggestion_index == 0,
        r.focused_field == ProjectEditorField::Name,
{
    let parent = match selected_project_id {
        Some(id) => match project_name(data, id) {
            Some(n) => n,
            None => Vec::new(),
        },
        None => Vec::new(),
    };
    let parent_cursor = parent.len();
    ProjectEditorState {
        project_id: None,
        name_input: Vec::new(),
        name_cursor: 0,
        parent_input: parent,
        parent_cursor,
        color_index: 17,
        is_favorite: false,
        suggestion_index: 0,
        focused_field: ProjectEditorField::Name,
    }
}

fn color_position(color: ProjectColor) -> (r: usize)
    ensures
        r < project_colors().len(),
        project_colors()[r as int] == color,
{
    let all = ProjectColor::all();
    let mut i: usize = 0;
    while i < all.len()
        invariant
            i <= all.len(),
            all@ == project_colors(),
            forall|j: int| 0 <= j < i ==> all@[j] != color,
        decreases all.len() - i,
    {
        if all[i] == color {
            return i;
        }
        i += 1;
    }
    proof {
        assert(all@.contains(color)) by {
            match color {
                ProjectColor::BerryRed => assert(all@[0] == color),
                ProjectColor::Red => assert(all@[1] == color),
                ProjectColor::Orange => assert(all@[2] == color),
                ProjectColor::Yellow => assert(all@[3] == color),
                ProjectColor::OliveGreen => assert(all@[4] == color),
                ProjectColor::LimeGreen => assert(all@[5] == color),
                ProjectColor::Green => assert(all@[6] == color),
                ProjectColor::MintGreen => assert(all@[7] == color),
                ProjectColor::Teal => assert(all@[8] == color),
                ProjectColor::SkyBlue => assert(all@[9] == color),
                ProjectColor::LightBlue => assert(all@[10] == color),
                ProjectColor::Blue => assert(all@[11] == color),
                ProjectColor::Grape => assert(all@[12] == color),
                ProjectColor::Violet => assert(all@[13] == color),
                ProjectColor::Lavender => assert(all@[14] == color),
                ProjectColor::Magenta => assert(all@[15] == color),
                ProjectColor::Salmon => assert(all@[16] == color),
                ProjectColor::Charcoal => assert(all@[17] == color),
                ProjectColor::Grey => assert(all@[18] == color),
                ProjectColor::Taupe => assert(all@[19] == color),
            }
        }
    }
    0
}

/// The editor for the selected project: its name, its parent's name, its
/// colour and favorite mark, the name focused. None where nothing is
/// selected, the project is not found, or it is the inbox.
pub fn open_edit_project_popup(data: &ScreenData, selected_project_id: Option<ProjectId>) -> (r: Option<ProjectEditorState>)
    ensures
        match selected_project_id {
            None => r is None,
            Some(id) => match project_with_id(data.projects@, id) {
                None => r is None,
                Some(p) => if p.is_inbox {
                    r is None
                } else {
                    r matches Some(e) && {
                        &&& e.project_id == Some(p.id)
                        &&& e.name_input@ == p.name@
                        &&& e.name_cursor == p.name@.len()
                        &&& e.parent_input@ == match p.parent_project_id {
                            Some(parent) => match project_name_of(data.projects@, parent) {
                                Some(n) => n,
                                None => Seq::<char>::empty(),
                            },
                            None => Seq::<char>::empty(),
                        }
                        &&& e.parent_cursor == e.parent_input@.len()
                        &&& project_colors()[e.color_index as int] == p.color
                        &&& e.is_favorite == p.is_favorite
                        &&& e.suggestion_index == 0
                        &&& e.focused_field == ProjectEditorField::Name
                    }
                },
            },
        },
{
    let id = match selected_project_id {
        Some(id) => id,
        None => {
            return None;
        },
    };
    let project = match project_by_id(data.projects.as_slice(), id) {
        Some(p) => p,
        None => {
            return None;
        },
    };
    if project.is_inbox {
        return None;
    }
    let name = chars_of(project.name.as_str());
    let parent = match project.parent_project_id {
        Some(parent_id) => match project_name(data, parent_id) {
            Some(n) => n,
            None => Vec::new(),
        },
        None => Vec::new(),
    };
    let name_cursor = name.len();
    let parent_cursor = parent.len();
    Some(ProjectEditorState {
        project_id: Some(project.id),
        name_input: name,
        name_cursor,
        parent_input: parent,
        parent_cursor,
        color_index: color_position(project.color),
        is_favorite: project.is_favorite,
        suggestion_index: 0,
        focused_field: ProjectEditorField::Name,
    })
}

/// What accepting a parent suggestion in the name field does: the
/// highlighted project that the `#parent` word under the cursor suggests
/// replaces the word as `#Name `; the new name and the cursor after its
/// space. None where no such word is typed or nothing is suggested.
pub open spec fn inline_parent_accept_spec(
    data: ScreenData,
    name: Seq<char>,
    cursor: int,
    project_id: Option<ProjectId>,
    index: int,
) -> Option<(Seq<char>, int)> {
    match active_project_query_spec(data.projects@, name, cursor) {
        None => None,
        Some((s, e, q)) => {
            let suggestions = if parent_query_name(q).len() == 0 {
                Seq::empty()
            } else {
                ranked_projects(data.projects@, parent_query_name(q), true, project_id)
            };
            if suggestions.len() == 0 {
                None
            } else {
                let p = data.projects@[suggestions[highlighted(suggestions.len() as int, index)] as int];
                Some((replace_range(name, s, e, seq!['#'] + p.name@ + seq![' ']), s + p.name@.len() + 2))
            }
        },
    }
}

fn splice_chars(v: &Vec<char>, start: usize, end: usize, ins: &[char]) -> (r: Vec<char>)
    requires
        start <= end <= v.len(),
    ensures
        r@ == replace_range(v@, start as int, end as int, ins@),
{
    let head = crate::text::slice_chars(v.as_slice(), 0, start);
    let tail = crate::text::slice_chars(v.as_slice(), end, v.len());
    let first = crate::text::concat_chars(head.as_slice(), ins);
    let r = crate::text::concat_chars(first.as_slice(), tail.as_slice());
    assert(head@ == v@.take(start as int));
    assert(tail@ == v@.skip(end as int));
    r
}

/// Accepts the highlighted parent suggestion for the `#parent` word the
/// cursor is typing in the name field; false, with the editor unchanged,
/// where there is none.
pub fn accept_project_editor_parent_suggestion(data: &ScreenData, editor: &mut ProjectEditorState) -> (r: bool)
    ensures
        match inline_parent_accept_spec(
            *data,
            old(editor).name_input@,
            old(editor).name_cursor as int,
            old(editor).project_id,
            old(editor).suggestion_index as int,
        ) {
            None => !r && *final(editor) == *old(editor),
            Some((v, c)) => r && final(editor).name_input@ == v && final(editor).name_cursor == c
                && final(editor).suggestion_index == 0 && final(editor).project_id == old(editor).project_id
                && final(editor).parent_input == old(editor).parent_input && final(editor).parent_cursor
                == old(editor).parent_cursor && final(editor).color_index == old(editor).color_index
                && final(editor).is_favorite == old(editor).is_favorite && final(editor).focused_field
                == old(editor).focused_field,
        },
{
    let text = string_from(editor.name_input.as_slice());
    let (start, end, query) = match active_project_query(data, text.as_str(), editor.name_cursor) {
        Some(found) => found,
        None => {
            return false;
        },
    };
    let suggestions = project_parent_suggestions(data, query.as_str(), editor.project_id);
    if suggestions.len() == 0 {
        return false;
    }
    let k = if editor.suggestion_index < suggestions.len() - 1 {
        editor.suggestion_index
    } else {
        suggestions.len() - 1
    };
    let project = &data.projects[suggestions[k]];
    let name = chars_of(project.name.as_str());
    let mut ins: Vec<char> = Vec::new();
    ins.push('#');
    let mut with_name = crate::text::concat_chars(ins.as_slice(), name.as_slice());
    with_name.push(' ');
    assert(with_name@ =~= seq!['#'] + project.name@ + seq![' ']);
    proof {
        crate::references::lemma_active_query_bounds(editor.name_input@, editor.name_cursor as int, data.projects@, false);
    }
    let value = splice_chars(&editor.name_input, start, end, with_name.as_slice());
    let total = value.len();
    assert(total == start + name.len() + 2 + (editor.name_input@.len() - end));
    editor.name_input = value;
    editor.name_cursor = start + name.len() + 2;
    editor.suggestion_index = 0;
    true
}

/// What accepting a suggestion in the parent field does: the highlighted
/// project that the trimmed field suggests replaces the field, with the
/// cursor at its end. None for a blank field, where nothing is suggested, or
/// where the field already names that project, ASCII case aside.
pub open spec fn parent_field_accept_spec(
    data: ScreenData,
    parent: Seq<char>,
    project_id: Option<ProjectId>,
    index: int,
) -> Option<Seq<char>> {
    let q = trim_spec(parent);
    let suggestions = if parent_query_name(q).len() == 0 {
        Seq::empty()
    } else {
        ranked_projects(data.projects@, parent_query_name(q), true, project_id)
    };
    if q.len() == 0 || suggestions.len() == 0 {
        None
    } else {
        let p = data.projects@[suggestions[highlighted(suggestions.len() as int, index)] as int];
        if eq_ignore_ascii_case(q, p.name@) {
            None
        } else {
            Some(p.name@)
        }
    }
}

/// Accepts the highlighted suggestion in the parent field; false, with the
/// editor unchanged, where there is none.
pub fn accept_project_editor_parent_field_suggestion(data: &ScreenData, editor: &mut ProjectEditorState) -> (r: bool)
    ensures
        match parent_field_accept_spec(*data, old(editor).parent_input@, old(editor).project_id, old(editor).suggestion_index as int) {
            None => !r && *final(editor) == *old(editor),
            Some(v) => r && final(editor).parent_input@ == v && final(editor).parent_cursor == v.len()
                && final(editor).suggestion_index == 0 && final(editor).project_id == old(editor).project_id
                && final(editor).name_input == old(editor).name_input && final(editor).name_cursor
                == old(editor).name_cursor && final(editor).color_index == old(editor).color_index
                && final(editor).is_favorite == old(editor).is_favorite && final(editor).focused_field
                == old(editor).focused_field,
        },
{
    let trimmed = trim_chars(editor.parent_input.as_slice());
    if trimmed.len() == 0 {
        return false;
    }
    let query = string_from(trimmed.as_slice());
    let suggestions = project_parent_suggestions(data, query.as_str(), editor.project_id);
    if suggestions.len() == 0 {
        return false;
    }
    let k = if editor.suggestion_index < suggestions.len() - 1 {
        editor.suggestion_index
    } else {
        suggestions.len() - 1
    };
    let project = &data.projects[suggestions[k]];
    let name = chars_of(project.name.as_str());
    if eq_ignore_case(trimmed.as_slice(), name.as_slice()) {
        return false;
    }
    let cursor = name.len();
    editor.parent_input = name;
    editor.parent_cursor = cursor;
    editor.suggestion_index = 0;
    true
}

/// The tip the preview panel gives for the focused field.
pub open spec fn project_editor_tip(field: ProjectEditorField) -> Seq<char> {
    match field {
        ProjectEditorField::Name => "Press # for selecting a parent project"@,
        ProjectEditorField::Parent => "Type to fuzzy-match a parent project and use Enter/Tab to accept"@,
        ProjectEditorField::Color => "Use ←/→ or h/l to change the color"@,
        ProjectEditorField::Favorite => "Use ←/→ or h/l to toggle favorite"@,
    }
}

/// The preview panel of the project editor: a `Parent: ` line where a
/// parent is known, and the tip for the focused field.
pub fn project_editor_preview_panel(parent_label: Option<&str>, focused_field: ProjectEditorField) -> (r: FormPreviewPanelView)
    ensures
        r.preview_lines@.len() == if parent_label is Some {
            1int
        } else {
            0int
        },
        parent_label matches Some(l) ==> (r.preview_lines@[0] matches PreviewLineView::Text { text, dimmed } && text@
            == "Parent: "@ + l@ && !dimmed),
        r.tips@.len() == 1,
        r.tips@[0]@ == project_editor_tip(focused_field),
{
    let mut preview_lines: Vec<PreviewLineView> = Vec::new();
    match parent_label {
        Some(label) => {
            let prefix = chars_of("Parent: ");
            let body = chars_of(label);
            let line = crate::text::concat_chars(prefix.as_slice(), body.as_slice());
            proof {
                reveal_strlit("Parent: ");
            }
            preview_lines.push(PreviewLineView::text(string_from(line.as_slice())));
        },
        None => {},
    }
    let tip = match focused_field {
        ProjectEditorField::Name => "Press # for selecting a parent project",
        ProjectEditorField::Parent => "Type to fuzzy-match a parent project and use Enter/Tab to accept",
        ProjectEditorField::Color => "Use ←/→ or h/l to change the color",
        ProjectEditorField::Favorite => "Use ←/→ or h/l to toggle favorite",
    };
    let mut tips: Vec<String> = Vec::new();
    tips.push(crate::text::string_of(tip));
    FormPreviewPanelView { preview_lines, tips }
}

/// The colour at the editor's index, charcoal past the end.
pub open spec fn editor_color(index: int) -> ProjectColor {
    if index < project_colors().len() {
        project_colors()[index]
    } else {
        ProjectColor::Charcoal
    }
}

/// The parent the editor shows: the one the parent field names, else the
/// one a `#parent` reference in the name names.
pub open spec fn editor_parent_id(data: ScreenData, e: ProjectEditorState) -> Option<ProjectId> {
    let inline = project_reference_take(data.projects@, e.name_input@, ProjectId(0)).1;
    match parent_input_resolution(data.projects@, e.parent_input@, e.project_id) {
        Some(id) => Some(id),
        None => if inline == ProjectId(0) {
            None
        } else {
            Some(inline)
        },
    }
}

/// The names of at most the first four suggested projects.
pub open spec fn first_four_names(projects: Seq<Project>, places: Seq<usize>) -> Seq<Seq<char>> {
    let shown = if places.len() > 4 {
        places.take(4)
    } else {
        places
    };
    Seq::new(shown.len(), |k: int| projects[shown[k] as int].name@)
}

/// The parent suggestions the editor lists: for the parent field, those
/// its trimmed text suggests unless that already names the project it
/// resolves to; for the name field, those the `#parent` word under the
/// cursor suggests; none otherwise.
pub open spec fn editor_parent_suggestions(data: ScreenData, e: ProjectEditorState) -> Seq<Seq<char>> {
    let projects = data.projects@;
    match e.focused_field {
        ProjectEditorField::Parent => {
            let q = trim_spec(e.parent_input@);
            let shows = q.len() > 0 && match parent_input_resolution(projects, q, e.project_id) {
                Some(id) => match project_name_of(projects, id) {
                    Some(n) => !eq_ignore_ascii_case(q, n),
                    None => true,
                },
                None => true,
            };
            if shows && parent_query_name(q).len() > 0 {
                first_four_names(projects, ranked_projects(projects, parent_query_name(q), true, e.project_id))
            } else {
                Seq::empty()
            }
        },
        ProjectEditorField::Name => match active_project_query_spec(projects, e.name_input@, e.name_cursor as int) {
            Some((_s, _e, q)) => if parent_query_name(q).len() > 0 {
                first_four_names(projects, ranked_projects(projects, parent_query_name(q), true, e.project_id))
            } else {
                Seq::empty()
            },
            None => Seq::empty(),
        },
        _ => Seq::empty(),
    }
}

pub(crate) fn names_of_first_four(data: &ScreenData, places: &Vec<usize>) -> (r: Vec<String>)
    requires
        forall|k: int| 0 <= k < places@.len() ==> #[trigger] places@[k] < data.projects@.len(),
    ensures
        crate::references::strings_view(r@) == first_four_names(data.projects@, places@),
{
    let n = if places.len() > 4 {
        4
    } else {
        places.len()
    };
    let mut r: Vec<String> = Vec::new();
    let mut k: usize = 0;
    while k < n
        invariant
            k <= n <= places.len(),
            n == (if places.len() > 4 {
                4
            } else {
                places.len()
            }),
            forall|j: int| 0 <= j < places@.len() ==> #[trigger] places@[j] < data.projects@.len(),
            r@.len() == k,
            forall|j: int| 0 <= j < k ==> #[trigger] r@[j]@ == data.projects@[places@[j] as int].name@,
        decreases n - k,
    {
        let name = chars_of(data.projects[places[k]].name.as_str());
        r.push(string_from(name.as_slice()));
        k += 1;
    }
    assert(crate::references::strings_view(r@) =~= first_four_names(data.projects@, places@));
    r
}

/// What the project editor shows (see `editor_parent_id` and
/// `editor_parent_suggestions`): its title, the fields, the name without
/// its `#parent` reference, the parent's name, the suggestions, the colour,
/// the favorite mark, the focused field and the preview panel.
pub fn project_editor_view(data: &ScreenData, editor: &ProjectEditorState) -> (r: ProjectEditorView)
    ensures
        r.title@ == if editor.project_id is Some {
            "Edit Project"@
        } else {
            "New Project"@
        },
        r.name_value@ == editor.name_input@,
        r.name_cursor == editor.name_cursor,
        r.parent_value@ == editor.parent_input@,
        r.parent_cursor == editor.parent_cursor,
        r.parsed_name@ == project_reference_take(data.projects@, editor.name_input@, ProjectId(0)).0,
        match (r.parent_label, editor_parent_id(*data, *editor)) {
            (Some(l), Some(id)) => project_name_of(data.projects@, id) == Some(l@),
            (None, Some(id)) => project_name_of(data.projects@, id) is None,
            (None, None) => true,
            (Some(_), None) => false,
        },
        crate::references::strings_view(r.parent_suggestions@) == editor_parent_suggestions(*data, *editor),
        r.selected_parent_suggestion == editor.suggestion_index,
        r.color_value == editor_color(editor.color_index as int),
        r.color_label@ == project_color_label(editor_color(editor.color_index as int)),
        r.is_favorite == editor.is_favorite,
        r.focus == (ProjectEditorFocusView {
            name: editor.focused_field == ProjectEditorField::Name,
            parent: editor.focused_field == ProjectEditorField::Parent,
            color: editor.focused_field == ProjectEditorField::Color,
            favorite: editor.focused_field == ProjectEditorField::Favorite,
        }),
        r.preview_panel.tips@.len() == 1,
        r.preview_panel.tips@[0]@ == project_editor_tip(editor.focused_field),
        r.preview_panel.preview_lines@.len() == if r.parent_label is Some {
            1int
        } else {
            0int
        },
        r.parent_label matches Some(l) ==> (r.preview_panel.preview_lines@[0] matches PreviewLineView::Text {
            text,
            dimmed,
        } && text@ == "Parent: "@ + l@ && !dimmed),
{
    let name_text = string_from(editor.name_input.as_slice());
    let parent_text = string_from(editor.parent_input.as_slice());
    let (parsed_name, extracted_parent_id) = extract_project_reference(data, name_text.as_str(), ProjectId(0));
    let inline_parent_id = if extracted_parent_id == ProjectId(0) {
        None
    } else {
        Some(extracted_parent_id)
    };
    let direct_parent_id = resolve_project_parent_input(data, parent_text.as_str(), editor.project_id);
    let parent_id = match direct_parent_id {
        Some(id) => Some(id),
        None => inline_parent_id,
    };
    let parent_label: Option<String> = match parent_id {
        Some(id) => match project_name(data, id) {
            Some(n) => Some(string_from(n.as_slice())),
            None => None,
        },
        None => None,
    };
    let parent_suggestions: Vec<String> = match editor.focused_field {
        ProjectEditorField::Parent => {
            let trimmed = trim_chars(editor.parent_input.as_slice());
            if trimmed.len() == 0 {
                Vec::new()
            } else {
                let query = string_from(trimmed.as_slice());
                proof {
                    crate::text::lemma_trim_idempotent(editor.parent_input@);
                }
                let shows = match resolve_project_parent_input(data, query.as_str(), editor.project_id) {
                    Some(id) => match project_name(data, id) {
                        Some(n) => !eq_ignore_case(trimmed.as_slice(), n.as_slice()),
                        None => true,
                    },
                    None => true,
                };
                if shows {
                    let places = project_parent_suggestions(data, query.as_str(), editor.project_id);
                    names_of_first_four(data, &places)
                } else {
                    Vec::new()
                }
            }
        },
        ProjectEditorField::Name => match active_project_query(data, name_text.as_str(), editor.name_cursor) {
            Some((_s, _e, query)) => {
                let places = project_parent_suggestions(data, query.as_str(), editor.project_id);
                names_of_first_four(data, &places)
            },
            None => Vec::new(),
        },
        _ => Vec::new(),
    };
    let all = ProjectColor::all();
    let color = if editor.color_index < all.len() {
        all[editor.color_index]
    } else {
        ProjectColor::Charcoal
    };
    let title: &'static str = if editor.project_id.is_some() {
        "Edit Project"
    } else {
        "New Project"
    };
    let preview_panel = match &parent_label {
        Some(l) => project_editor_preview_panel(Some(l.as_str()), editor.focused_field),
        None => project_editor_preview_panel(None, editor.focused_field),
    };
    ProjectEditorView {
        title,
        name_value: string_from(editor.name_input.as_slice()),
        name_cursor: editor.name_cursor,
        parent_value: string_from(editor.parent_input.as_slice()),
        parent_cursor: editor.parent_cursor,
        parsed_name,
        parent_label,
        parent_suggestions,
        selected_parent_suggestion: editor.suggestion_index,
        color_label: crate::text::string_of(color.label()),
        color_value: color,
        is_favorite: editor.is_favorite,
        focus: ProjectEditorFocusView {
            name: editor.focused_field == ProjectEditorField::Name,
            parent: editor.focused_field == ProjectEditorField::Parent,
            color: editor.focused_field == ProjectEditorField::Color,
            favorite: editor.focused_field == ProjectEditorField::Favorite,
        },
        preview_panel,
    }
}

/// What saving the project editor writes: the project to update (none to
/// create one), its name, parent, colour and favorite mark.
#[derive(Debug, Clone, PartialEq, Eq)]
pub struct ProjectSubmission {
    pub project_id: Option<ProjectId>,
    pub name: String,
    pub parent_project_id: Option<ProjectId>,
    pub color: ProjectColor,
    pub is_favorite: bool,
}

/// What saving the project editor writes: the name without its `#parent`
/// reference, trimmed; as parent the project that reference names, else
/// the one the parent field names, else none; the colour at the editor's
/// index. None where the name is blank: the editor stays open.
pub fn submit_project_editor(data: &ScreenData, editor: &ProjectEditorState) -> (r: Option<ProjectSubmission>)
    ensures
        ({
            let (clean, inline) = project_reference_take(data.projects@, editor.name_input@, ProjectId(0));
            if trim_spec(clean).len() == 0 {
                r is None
            } else {
                r matches Some(s) && {
                    &&& s.project_id == editor.project_id
                    &&& s.name@ == trim_spec(clean)
                    &&& s.parent_project_id == if inline != ProjectId(0) {
                        Some(inline)
                    } else if trim_spec(editor.parent_input@).len() > 0 {
                        parent_input_resolution(data.projects@, editor.parent_input@, editor.project_id)
                    } else {
                        None
                    }
                    &&& s.color == editor_color(editor.color_index as int)
                    &&& s.is_favorite == editor.is_favorite
                }
            }
        }),
{
    let name_text = string_from(editor.name_input.as_slice());
    let (clean_name, inline_parent_id) = extract_project_reference(data, name_text.as_str(), ProjectId(0));
    let clean = chars_of(clean_name.as_str());
    let name = trim_chars(clean.as_slice());
    if name.len() == 0 {
        return None;
    }
    let parent_project_id = if inline_parent_id != ProjectId(0) {
        Some(inline_parent_id)
    } else if !crate::text::is_blank(editor.parent_input.as_slice()) {
        let parent_text = string_from(editor.parent_input.as_slice());
        resolve_project_parent_input(data, parent_text.as_str(), editor.project_id)
    } else {
        None
    };
    let all = ProjectColor::all();
    let color = if editor.color_index < all.len() {
        all[editor.color_index]
    } else {
        ProjectColor::Charcoal
    };
    Some(ProjectSubmission {
        project_id: editor.project_id,
        name: string_from(name.as_slice()),
        parent_project_id,
        color,
        is_favorite: editor.is_favorite,
    })
}

} // verus!
