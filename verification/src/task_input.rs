//! The quick-add popup: a line of text being typed for a new task, and how
//! accepting a suggestion rewrites the word under the cursor into a
//! `#project`, `@tag` or priority word. Positions are counted in
//! characters.
use vstd::prelude::*;

use crate::app::{ScreenData, TaskDuePreviewView, TaskInputView};
use crate::config::joined_with;
use crate::domain::TaskPriority;
use crate::previews::{input_preview_plan, lines_show, task_input_preview_panel, DuePreviewText};
use crate::project_editor::{first_four_names, names_of_first_four, project_name, project_name_of};
use crate::domain::{Tag, TagId};
use crate::listing::{tag_by_id, tag_with_id};
use crate::references::{extract_project_reference, extract_tag_references, inbox_position, project_reference_take, strings_view, tag_extraction};
use crate::title_tokens::{extract_priority_reference, last_priority, non_priority_words, words};
use crate::domain::ProjectId;
use crate::references::{
    active_priority_query, active_priority_query_spec, active_project_query,
    active_project_query_spec, active_tag_field_query, active_tag_query, active_tag_query_spec, matched_project_prefix,
    matched_project_prefix_spec, matched_tag_prefix, matched_tag_prefix_spec, project_suggestions,
    ranked_projects, tag_query_name, tag_suggestions, tag_suggestions_spec,
};
use crate::text::{chars_of, leading_white, slice_chars, string_from, trim_spec, trim_start_spec};
use crate::title_tokens::{priority_suggestions, priority_suggestions_spec};
use crate::filters::strs_view;
use crate::domain::TaskDue;
use crate::references::has_exact_tag_name;
use crate::task_editor::{edit_line, line_edited, moved_index, LineEdit, LineInput, LineModel};
use crate::text::{eq_ignore_ascii_case, is_white_space};

verus! {

/// The text of the quick-add popup, its cursor, the project it files the
/// task under, and which suggestion of the tag list and of the other lists
/// is highlighted.
#[derive(Debug, Clone, PartialEq, Eq)]
pub struct TaskInputState {
    pub value: Vec<char>,
    pub cursor: usize,
    pub project_id: ProjectId,
    pub tag_suggestion_index: usize,
    pub suggestion_index: usize,
}

pub struct TaskInputModel {
    pub value: Seq<char>,
    pub cursor: nat,
    pub project_id: ProjectId,
    pub tag_suggestion_index: nat,
    pub suggestion_index: nat,
}

impl View for TaskInputState {
    type V = TaskInputModel;

    open spec fn view(&self) -> TaskInputModel {
        TaskInputModel {
            value: self.value@,
            cursor: self.cursor as nat,
            project_id: self.project_id,
            tag_suggestion_index: self.tag_suggestion_index as nat,
            suggestion_index: self.suggestion_index as nat,
        }
    }
}

/// `v` with the characters from `start` to `end` replaced by `ins`.
pub open spec fn replace_range(v: Seq<char>, start: int, end: int, ins: Seq<char>) -> Seq<char> {
    v.take(start) + ins + v.skip(end)
}

/// `v` with the spaces that stand at `c` removed, one after another.
pub open spec fn drop_spaces_at(v: Seq<char>, c: int) -> Seq<char>
    decreases v.len(),
{
    if 0 <= c < v.len() && v[c] == ' ' {
        drop_spaces_at(v.remove(c), c)
    } else {
        v
    }
}

/// The highlighted suggestion: the index, or the last suggestion where the
/// index is past it.
pub open spec fn highlighted(len: int, index: int) -> int {
    if index < len - 1 {
        index
    } else if len > 0 {
        len - 1
    } else {
        0
    }
}

/// What accepting a project suggestion does: where the cursor is typing a
/// `#project` word that no project name begins, the highlighted project the
/// word suggests replaces it as `#Name ` and spaces after it are dropped;
/// the new text, the cursor after the name and its space, and the
/// project's place in the list. None where nothing is typed or suggested.
pub open spec fn project_word_accept(
    data: ScreenData,
    v: Seq<char>,
    cursor: int,
    index: int,
) -> Option<(Seq<char>, int, usize)> {
    match active_project_query_spec(data.projects@, v, cursor) {
        None => None,
        Some((s, e, q)) => if matched_project_prefix_spec(data.projects@, q, None) matches Some((_, m))
            && trim_start_spec(q.skip(m as int)).len() > 0 {
            None
        } else {
            let suggestions = if trim_spec(q).len() == 0 {
                Seq::empty()
            } else {
                ranked_projects(data.projects@, trim_spec(q), false, None)
            };
            if suggestions.len() == 0 {
                None
            } else {
                let k = suggestions[highlighted(suggestions.len() as int, index)];
                let p = data.projects@[k as int];
                let c = s + p.name@.len() + 2;
                Some((drop_spaces_at(replace_range(v, s, e, seq!['#'] + p.name@ + seq![' ']), c), c, k))
            }
        },
    }
}

/// The same, with the project's identifier in place of its place.
pub open spec fn project_accept_spec(
    data: ScreenData,
    v: Seq<char>,
    cursor: int,
    index: int,
) -> Option<(Seq<char>, int, ProjectId)> {
    match project_word_accept(data, v, cursor, index) {
        Some((w, c, k)) => Some((w, c, data.projects@[k as int].id)),
        None => None,
    }
}

pub(crate) fn splice(v: &Vec<char>, start: usize, end: usize, ins: &[char]) -> (r: Vec<char>)
    requires
        start <= end <= v.len(),
    ensures
        r@ == replace_range(v@, start as int, end as int, ins@),
{
    let head = slice_chars(v.as_slice(), 0, start);
    let tail = slice_chars(v.as_slice(), end, v.len());
    let mut out = crate::text::concat_chars(head.as_slice(), ins);
    let joined = crate::text::concat_chars(out.as_slice(), tail.as_slice());
    out = joined;
    assert(head@ == v@.take(start as int));
    assert(tail@ == v@.skip(end as int));
    out
}

fn remove_spaces_at(v: &mut Vec<char>, c: usize)
    ensures
        final(v)@ == drop_spaces_at(old(v)@, c as int),
{
    while c < v.len() && v[c] == ' '
        invariant
            drop_spaces_at(v@, c as int) == drop_spaces_at(old(v)@, c as int),
        decreases v.len(),
    {
        v.remove(c);
    }
}

pub(crate) fn highlighted_index(len: usize, index: usize) -> (r: usize)
    requires
        len > 0,
    ensures
        r == highlighted(len as int, index as int),
        r < len,
{
    if index < len - 1 {
        index
    } else {
        len - 1
    }
}

pub(crate) fn accept_project_word(data: &ScreenData, value: &Vec<char>, cursor: usize, index: usize) -> (r: Option<(Vec<char>, usize, usize)>)
    ensures
        match r {
            Some((w, c, k)) => project_word_accept(*data, value@, cursor as int, index as int) == Some((w@, c as int, k))
                && k < data.projects@.len(),
            None => project_word_accept(*data, value@, cursor as int, index as int) is None,
        },
{
    let text = string_from(value.as_slice());
    let (start, end, query) = match active_project_query(data, text.as_str(), cursor) {
        Some(found) => found,
        None => {
            return None;
        },
    };
    proof {
        crate::references::lemma_matched_project_prefix(data.projects@, query@, None);
    }
    match matched_project_prefix(data, query.as_str(), None) {
        Some((_p, m)) => {
            proof {
                crate::text::lemma_trim_start_idempotent(value@.subrange(start + 1, end as int));
            }
            let qc = chars_of(query.as_str());
            let rest = slice_chars(qc.as_slice(), m, qc.len());
            assert(rest@ == query@.skip(m as int));
            if leading_white(rest.as_slice()) < rest.len() {
                return None;
            }
        },
        None => {},
    }
    let suggestions = project_suggestions(data, query.as_str());
    if suggestions.len() == 0 {
        return None;
    }
    let k = highlighted_index(suggestions.len(), index);
    let project = &data.projects[suggestions[k]];
    let name = chars_of(project.name.as_str());
    let mut ins: Vec<char> = Vec::new();
    ins.push('#');
    let mut with_name = crate::text::concat_chars(ins.as_slice(), name.as_slice());
    with_name.push(' ');
    assert(with_name@ =~= seq!['#'] + project.name@ + seq![' ']);
    proof {
        crate::references::lemma_active_query_bounds(value@, cursor as int, data.projects@, false);
    }
    let mut out = splice(value, start, end, with_name.as_slice());
    let total = out.len();
    assert(total == start + name.len() + 2 + (value@.len() - end));
    let at = start + name.len() + 2;
    remove_spaces_at(&mut out, at);
    Some((out, at, suggestions[k]))
}

/// Accepts the highlighted project suggestion for the `#project` word the
/// cursor is typing (see `project_accept_spec`); false, with the input
/// unchanged, where there is none.
pub fn accept_task_input_project_suggestion(data: &ScreenData, input: &mut TaskInputState) -> (r: bool)
    ensures
        match project_accept_spec(*data, old(input)@.value, old(input)@.cursor as int, old(input)@.suggestion_index as int) {
            None => !r && final(input)@ == old(input)@,
            Some((v, c, id)) => r && final(input)@ == (TaskInputModel {
                value: v,
                cursor: c as nat,
                project_id: id,
                tag_suggestion_index: old(input)@.tag_suggestion_index,
                suggestion_index: 0,
            }),
        },
{
    match accept_project_word(data, &input.value, input.cursor, input.suggestion_index) {
        Some((value, cursor, k)) => {
            input.value = value;
            input.cursor = cursor;
            input.project_id = data.projects[k].id;
            input.suggestion_index = 0;
            true
        },
        None => false,
    }
}

/// What accepting a priority suggestion does: the highlighted priority
/// word suggested for the word the cursor is typing replaces it, followed by
/// a space; the new text and the cursor after that space.
pub open spec fn priority_accept_spec(v: Seq<char>, cursor: int, index: int) -> Option<(Seq<char>, int)> {
    match active_priority_query_spec(v, cursor) {
        None => None,
        Some((s, e, q)) => {
            let suggestions = priority_suggestions_spec(q);
            if suggestions.len() == 0 {
                None
            } else {
                let p = suggestions[highlighted(suggestions.len() as int, index)];
                Some((replace_range(v, s, e, p + seq![' ']), s + p.len() + 1))
            }
        },
    }
}

pub(crate) fn accept_priority_word(value: &Vec<char>, cursor: usize, index: usize) -> (r: Option<(Vec<char>, usize)>)
    ensures
        match r {
            Some((w, c)) => priority_accept_spec(value@, cursor as int, index as int) == Some((w@, c as int)),
            None => priority_accept_spec(value@, cursor as int, index as int) is None,
        },
{
    let text = string_from(value.as_slice());
    let (start, end, query) = match active_priority_query(text.as_str(), cursor) {
        Some(found) => found,
        None => {
            return None;
        },
    };
    let suggestions = priority_suggestions(query.as_str());
    if suggestions.len() == 0 {
        return None;
    }
    let k = highlighted_index(suggestions.len(), index);
    let word = chars_of(suggestions[k]);
    assert(word@ == strs_view(suggestions@)[k as int]);
    let mut ins = crate::text::concat_chars(word.as_slice(), &[]);
    ins.push(' ');
    assert(ins@ =~= word@ + seq![' ']);
    proof {
        crate::references::lemma_active_query_bounds(value@, cursor as int, Seq::empty(), false);
    }
    let out = splice(value, start, end, ins.as_slice());
    let total = out.len();
    assert(total == start + word.len() + 1 + (value@.len() - end));
    Some((out, start + word.len() + 1))
}

/// Accepts the highlighted priority suggestion for the word the cursor is
/// typing; false, with the input unchanged, where there is none.
pub fn accept_task_input_priority_suggestion(input: &mut TaskInputState) -> (r: bool)
    ensures
        match priority_accept_spec(old(input)@.value, old(input)@.cursor as int, old(input)@.suggestion_index as int) {
            None => !r && final(input)@ == old(input)@,
            Some((v, c)) => r && final(input)@ == (TaskInputModel {
                value: v,
                cursor: c as nat,
                suggestion_index: 0,
                ..old(input)@
            }),
        },
{
    match accept_priority_word(&input.value, input.cursor, input.suggestion_index) {
        Some((value, cursor)) => {
            input.value = value;
            input.cursor = cursor;
            input.suggestion_index = 0;
            true
        },
        None => false,
    }
}

/// What the `@tag` word under the cursor asks for on acceptance.
#[derive(Debug, Clone, PartialEq, Eq)]
pub enum TagTokenStep {
    /// No tag word to complete; nothing changed.
    NoToken,
    /// A suggested tag replaced the word.
    Accepted,
    /// No tag is suggested: the tag the words name is to be found or
    /// created, and then put in place of the word.
    NeedsTag { start: usize, end: usize, query: String },
}

/// The outcome of accepting the tag suggestion for the tag word under the
/// cursor (in a tags field, where an `@` may also follow a comma): none
/// where no tag word is typed or, outside a tags field, a tag name begins
/// it with more words after; the highlighted suggestion, put in as
/// `@Name `, with the cursor after its space; or, where nothing is
/// suggested and the words name something, the place and words of the tag
/// still to be found or made.
pub open spec fn tag_word_accept(
    data: ScreenData,
    v: Seq<char>,
    cursor: int,
    index: int,
    in_field: bool,
) -> Option<Result<(Seq<char>, int), (int, int, Seq<char>)>> {
    match active_tag_query_spec(v, cursor, in_field) {
        None => None,
        Some((s, e, q)) => if !in_field && (matched_tag_prefix_spec(data.tags@, q) matches Some(m)
            && trim_start_spec(q.skip(m as int)).len() > 0) {
            None
        } else {
            let suggestions = tag_suggestions_spec(data.tags@, q);
            if suggestions.len() > 0 {
                let t = data.tags@[suggestions[highlighted(suggestions.len() as int, index)] as int];
                Some(Ok((replace_range(v, s, e, seq!['@'] + t.name@ + seq![' ']), s + t.name@.len() + 2)))
            } else if tag_query_name(q).len() == 0 {
                None
            } else {
                Some(Err((s, e, q)))
            }
        },
    }
}

/// The same for the quick-add text.
pub open spec fn tag_accept_spec(
    data: ScreenData,
    v: Seq<char>,
    cursor: int,
    index: int,
) -> Option<Result<(Seq<char>, int), (int, int, Seq<char>)>> {
    tag_word_accept(data, v, cursor, index, false)
}

pub(crate) fn accept_tag_word(data: &ScreenData, value: &Vec<char>, cursor: usize, index: usize, in_field: bool) -> (r: Option<Result<(Vec<char>, usize), (usize, usize, String)>>)
    ensures
        match (r, tag_word_accept(*data, value@, cursor as int, index as int, in_field)) {
            (None, None) => true,
            (Some(Ok((w, c))), Some(Ok((w2, c2)))) => w@ == w2 && c == c2,
            (Some(Err((s, e, q))), Some(Err((s2, e2, q2)))) => s == s2 && e == e2 && q@ == q2,
            _ => false,
        },
{
    let text = string_from(value.as_slice());
    let found = if in_field {
        active_tag_field_query(text.as_str(), cursor)
    } else {
        active_tag_query(text.as_str(), cursor)
    };
    let (start, end, query) = match found {
        Some(found) => found,
        None => {
            return None;
        },
    };
    proof {
        crate::references::lemma_active_query_bounds(value@, cursor as int, Seq::empty(), in_field);
    }
    if !in_field {
        proof {
            crate::references::lemma_matched_tag_prefix(data.tags@, query@);
        }
        match matched_tag_prefix(data, query.as_str()) {
            Some(m) => {
                proof {
                    crate::text::lemma_trim_start_idempotent(value@.subrange(start + 1, end as int));
                    let i = choose|i: int|
                        0 <= i < data.tags@.len() && #[trigger] crate::references::tag_begins(data.tags@[i], query@)
                            && data.tags@[i].name@.len() == m;
                }
                let qc = chars_of(query.as_str());
                let rest = slice_chars(qc.as_slice(), m, qc.len());
                assert(rest@ == query@.skip(m as int));
                if leading_white(rest.as_slice()) < rest.len() {
                    return None;
                }
            },
            None => {},
        }
    }
    let suggestions = tag_suggestions(data, query.as_str());
    if suggestions.len() == 0 {
        if crate::references::tag_query_name_of(query.as_str()).len() == 0 {
            return None;
        }
        return Some(Err((start, end, query)));
    }
    let k = highlighted_index(suggestions.len(), index);
    let tag = &data.tags[suggestions[k]];
    let name = chars_of(tag.name.as_str());
    let mut ins: Vec<char> = Vec::new();
    ins.push('@');
    let mut with_name = crate::text::concat_chars(ins.as_slice(), name.as_slice());
    with_name.push(' ');
    assert(with_name@ =~= seq!['@'] + tag.name@ + seq![' ']);
    let out = splice(value, start, end, with_name.as_slice());
    let total = out.len();
    assert(total == start + name.len() + 2 + (value@.len() - end));
    Some(Ok((out, start + name.len() + 2)))
}

/// Accepts the highlighted tag suggestion for the `@tag` word the cursor is
/// typing (see `tag_accept_spec`).
pub fn accept_task_input_tag_suggestion(data: &ScreenData, input: &mut TaskInputState) -> (r: TagTokenStep)
    ensures
        match tag_accept_spec(*data, old(input)@.value, old(input)@.cursor as int, old(input)@.tag_suggestion_index as int) {
            None => r == TagTokenStep::NoToken && final(input)@ == old(input)@,
            Some(Ok((v, c))) => r == TagTokenStep::Accepted && final(input)@ == (TaskInputModel {
                value: v,
                cursor: c as nat,
                tag_suggestion_index: 0,
                ..old(input)@
            }),
            Some(Err((s, e, q))) => final(input)@ == old(input)@ && (r matches TagTokenStep::NeedsTag { start, end, query }
                && start == s && end == e && query@ == q),
        },
{
    match accept_tag_word(data, &input.value, input.cursor, input.tag_suggestion_index, false) {
        None => TagTokenStep::NoToken,
        Some(Ok((value, cursor))) => {
            input.value = value;
            input.cursor = cursor;
            input.tag_suggestion_index = 0;
            TagTokenStep::Accepted
        },
        Some(Err((start, end, query))) => TagTokenStep::NeedsTag { start, end, query },
    }
}

/// Puts a tag in place of the tag word from `start` to `end`, as
/// `@Name `, with the cursor after its space (kept within the text).
pub fn complete_task_input_tag_token(input: &mut TaskInputState, start: usize, end: usize, tag_name: &str)
    requires
        start <= end <= old(input)@.value.len(),
    ensures
        final(input)@ == (TaskInputModel {
            value: replace_range(old(input)@.value, start as int, end as int, seq!['@'] + tag_name@ + seq![' ']),
            cursor: (start + tag_name@.len() + 2) as nat,
            tag_suggestion_index: 0,
            ..old(input)@
        }),
{
    let name = chars_of(tag_name);
    let mut ins: Vec<char> = Vec::new();
    ins.push('@');
    let mut with_name = crate::text::concat_chars(ins.as_slice(), name.as_slice());
    with_name.push(' ');
    assert(with_name@ =~= seq!['@'] + tag_name@ + seq![' ']);
    let value = splice(&input.value, start, end, with_name.as_slice());
    let total = value.len();
    assert(total == start + name.len() + 2 + (input.value@.len() - end));
    input.value = value;
    input.cursor = start + name.len() + 2;
    input.tag_suggestion_index = 0;
}

/// What the quick-add text says before its dates are read: the words left
/// once the tag references, the trailing project reference and the
/// priority words are taken out, the project, the tag names and the
/// priority.
#[derive(Debug, Clone, PartialEq, Eq)]
pub struct TaskDraft {
    pub content: String,
    pub project_id: ProjectId,
    pub tag_queries: Vec<String>,
    pub priority: TaskPriority,
}

/// The draft of a quick-add text: tag references out first, then the
/// trailing project reference, then the priority words (the last one
/// counts; P4 where there is none).
pub open spec fn draft_spec(data: ScreenData, raw: Seq<char>, fallback: ProjectId) -> (Seq<char>, ProjectId, Seq<Seq<char>>, TaskPriority) {
    let (no_tags, tags) = tag_extraction(data.tags@, raw);
    let (no_project, project_id) = project_reference_take(data.projects@, no_tags, fallback);
    let ws = words(no_project);
    (
        joined_with(non_priority_words(ws), seq![' ']),
        project_id,
        tags,
        match last_priority(ws) {
            Some(p) => p,
            None => TaskPriority::P4,
        },
    )
}

/// Reads a quick-add text up to its dates (see `draft_spec`).
pub fn task_input_draft(data: &ScreenData, raw: &str, fallback_project_id: ProjectId) -> (r: TaskDraft)
    ensures
        r.content@ == draft_spec(*data, raw@, fallback_project_id).0,
        r.project_id == draft_spec(*data, raw@, fallback_project_id).1,
        strings_view(r.tag_queries@) == draft_spec(*data, raw@, fallback_project_id).2,
        r.priority == draft_spec(*data, raw@, fallback_project_id).3,
{
    let (without_tags, tag_queries) = extract_tag_references(data, raw);
    let (without_project, project_id) = extract_project_reference(data, without_tags.as_str(), fallback_project_id);
    let (content, priority) = extract_priority_reference(without_project.as_str());
    TaskDraft { content, project_id, tag_queries, priority }
}

/// The names of at most the first four suggested tags.
pub open spec fn first_four_tag_names(tags: Seq<Tag>, places: Seq<usize>) -> Seq<Seq<char>> {
    let shown = if places.len() > 4 {
        places.take(4)
    } else {
        places
    };
    Seq::new(shown.len(), |k: int| tags[shown[k] as int].name@)
}

/// At most the first four of a list.
pub open spec fn first_four(s: Seq<Seq<char>>) -> Seq<Seq<char>> {
    if s.len() > 4 {
        s.take(4)
    } else {
        s
    }
}

/// The project names the quick-add popup suggests for the `#project` word
/// under the cursor.
pub open spec fn input_project_suggestions(data: ScreenData, v: Seq<char>, cursor: int) -> Seq<Seq<char>> {
    match active_project_query_spec(data.projects@, v, cursor) {
        Some((_s, _e, q)) => first_four_names(
            data.projects@,
            if trim_spec(q).len() == 0 {
                Seq::empty()
            } else {
                ranked_projects(data.projects@, trim_spec(q), false, None)
            },
        ),
        None => Seq::empty(),
    }
}

/// The tag names the quick-add popup suggests for the `@tag` word under
/// the cursor.
pub open spec fn input_tag_suggestions(data: ScreenData, v: Seq<char>, cursor: int) -> Seq<Seq<char>> {
    match active_tag_query_spec(v, cursor, false) {
        Some((_s, _e, q)) => first_four_tag_names(data.tags@, tag_suggestions_spec(data.tags@, q)),
        None => Seq::empty(),
    }
}

/// The priority words the quick-add popup suggests for the word under the
/// cursor.
pub open spec fn input_priority_suggestions(v: Seq<char>, cursor: int) -> Seq<Seq<char>> {
    match active_priority_query_spec(v, cursor) {
        Some((_s, _e, q)) => first_four(priority_suggestions_spec(q)),
        None => Seq::empty(),
    }
}

/// The name of the popup's project, `Inbox` where it is not found.
pub open spec fn input_project_name(data: ScreenData, id: ProjectId) -> Seq<char> {
    match project_name_of(data.projects@, id) {
        Some(n) => n,
        None => "Inbox"@,
    }
}

pub(crate) fn tag_names_of_first_four(data: &ScreenData, places: &Vec<usize>) -> (r: Vec<String>)
    requires
        forall|k: int| 0 <= k < places@.len() ==> #[trigger] places@[k] < data.tags@.len(),
    ensures
        strings_view(r@) == first_four_tag_names(data.tags@, places@),
{
    let n = if places.len() > 4 {
        4
    } else {
        places.len()
    };
    let mut r: Vec<String> = Vec::new();
    let mut k: usize = 0;
    while k < n
        invariant
            k <= n <= places.len(),
            n == (if places.len() > 4 {
                4
            } else {
                places.len()
            }),
            forall|j: int| 0 <= j < places@.len() ==> #[trigger] places@[j] < data.tags@.len(),
            r@.len() == k,
            forall|j: int| 0 <= j < k ==> #[trigger] r@[j]@ == data.tags@[places@[j] as int].name@,
        decreases n - k,
    {
        let name = chars_of(data.tags[places[k]].name.as_str());
        r.push(string_from(name.as_slice()));
        k += 1;
    }
    assert(strings_view(r@) =~= first_four_tag_names(data.tags@, places@));
    r
}

pub(crate) fn first_four_words(words: &Vec<&'static str>) -> (r: Vec<String>)
    ensures
        strings_view(r@) == first_four(strs_view(words@)),
{
    let n = if words.len() > 4 {
        4
    } else {
        words.len()
    };
    let mut r: Vec<String> = Vec::new();
    let mut k: usize = 0;
    while k < n
        invariant
            k <= n <= words.len(),
            n == (if words.len() > 4 {
                4
            } else {
                words.len()
            }),
            r@.len() == k,
            forall|j: int| 0 <= j < k ==> #[trigger] r@[j]@ == words@[j]@,
        decreases n - k,
    {
        r.push(crate::text::string_of(words[k]));
        k += 1;
    }
    assert(strings_view(r@) =~= first_four(strs_view(words@)));
    r
}

/// What the quick-add popup shows: the text and cursor, the project and
/// whether it is other than the inbox, the suggestions for the word under
/// the cursor with the highlighted one of each, the due date read from the
/// text (given, as it is read elsewhere), and the preview panel.
pub fn task_input_view(
    data: &ScreenData,
    input: &TaskInputState,
    due_preview: Option<TaskDuePreviewView>,
    due_text: &DuePreviewText,
) -> (r: TaskInputView)
    requires
        inbox_position(data.projects@, 0) is Some,
        due_preview matches Some(d) ==> (d.datetime is Some <==> due_text.time is Some),
    ensures
        r.title@ == "New Task"@,
        r.value@ == input.value@,
        r.cursor == input.cursor,
        r.project_name@ == input_project_name(*data, input.project_id),
        r.show_project_assignment == (input.project_id != data.projects@[inbox_position(data.projects@, 0)->0].id),
        strings_view(r.project_suggestions@) == input_project_suggestions(*data, input.value@, input.cursor as int),
        r.selected_project_suggestion == highlighted(r.project_suggestions@.len() as int, input.suggestion_index as int),
        strings_view(r.tag_suggestions@) == input_tag_suggestions(*data, input.value@, input.cursor as int),
        r.selected_tag_suggestion == highlighted(r.tag_suggestions@.len() as int, input.tag_suggestion_index as int),
        strings_view(r.priority_suggestions@) == input_priority_suggestions(input.value@, input.cursor as int),
        r.selected_priority_suggestion == highlighted(
            r.priority_suggestions@.len() as int,
            input.suggestion_index as int,
        ),
        r.due_preview == due_preview,
        lines_show(
            r.preview_panel.preview_lines@,
            input_preview_plan(
                r.show_project_assignment,
                r.project_name@,
                draft_spec(*data, input.value@, input.project_id).2,
                draft_spec(*data, input.value@, input.project_id).3,
                due_preview,
                *due_text,
            ),
        ),
        r.preview_panel.tips@.len() == 1,
        r.preview_panel.tips@[0]@ == "Press # for selecting a project"@,
{
    let text = string_from(input.value.as_slice());
    let project_suggestions = match active_project_query(data, text.as_str(), input.cursor) {
        Some((_s, _e, query)) => {
            let places = project_suggestions(data, query.as_str());
            names_of_first_four(data, &places)
        },
        None => Vec::new(),
    };
    let tag_suggestions = match active_tag_query(text.as_str(), input.cursor) {
        Some((_s, _e, query)) => {
            let places = tag_suggestions(data, query.as_str());
            tag_names_of_first_four(data, &places)
        },
        None => Vec::new(),
    };
    let priority_suggestions = match active_priority_query(text.as_str(), input.cursor) {
        Some((_s, _e, query)) => {
            let words = priority_suggestions(query.as_str());
            first_four_words(&words)
        },
        None => Vec::new(),
    };
    let draft = task_input_draft(data, text.as_str(), input.project_id);
    let name = match project_name(data, input.project_id) {
        Some(n) => string_from(n.as_slice()),
        None => crate::text::string_of("Inbox"),
    };
    let inbox = crate::references::inbox_project_id(data);
    let show_project_assignment = input.project_id != inbox;
    let selected_project_suggestion = if project_suggestions.len() == 0 || input.suggestion_index < project_suggestions.len() - 1 {
        if project_suggestions.len() == 0 { 0 } else { input.suggestion_index }
    } else {
        project_suggestions.len() - 1
    };
    let selected_tag_suggestion = if tag_suggestions.len() == 0 || input.tag_suggestion_index < tag_suggestions.len() - 1 {
        if tag_suggestions.len() == 0 { 0 } else { input.tag_suggestion_index }
    } else {
        tag_suggestions.len() - 1
    };
    let selected_priority_suggestion = if priority_suggestions.len() == 0 || input.suggestion_index < priority_suggestions.len() - 1 {
        if priority_suggestions.len() == 0 { 0 } else { input.suggestion_index }
    } else {
        priority_suggestions.len() - 1
    };
    let preview_panel = task_input_preview_panel(
        show_project_assignment,
        name.as_str(),
        draft.tag_queries.as_slice(),
        draft.priority,
        match &due_preview {
            Some(d) => Some(d),
            None => None,
        },
        due_text,
    );
    TaskInputView {
        title: "New Task",
        value: text,
        cursor: input.cursor,
        project_name: name,
        show_project_assignment,
        project_suggestions,
        selected_project_suggestion,
        tag_suggestions,
        selected_tag_suggestion,
        priority_suggestions,
        selected_priority_suggestion,
        due_preview,
        preview_panel,
    }
}

/// The quick-add popup as it opens: `@Name ` of the selected tag where
/// there is one and it is found (else empty), the cursor at its end, the
/// selected project or else the inbox, no suggestion highlighted past the
/// first.
pub fn open_create_task_popup(
    data: &ScreenData,
    selected_tag_id: Option<TagId>,
    selected_project_id: Option<ProjectId>,
) -> (r: TaskInputState)
    requires
        selected_project_id is None ==> inbox_position(data.projects@, 0) is Some,
    ensures
        r.value@ == match selected_tag_id {
            Some(id) => match tag_with_id(data.tags@, id) {
                Some(t) => seq!['@'] + t.name@ + seq![' '],
                None => Seq::<char>::empty(),
            },
            None => Seq::<char>::empty(),
        },
        r.cursor == r.value@.len(),
        r.project_id == match selected_project_id {
            Some(id) => id,
            None => data.projects@[inbox_position(data.projects@, 0)->0].id,
        },
        r.tag_suggestion_index == 0,
        r.suggestion_index == 0,
{
    let value = match selected_tag_id {
        Some(id) => match tag_by_id(data.tags.as_slice(), id) {
            Some(t) => {
                let mut ins: Vec<char> = Vec::new();
                ins.push('@');
                let mut v = crate::text::concat_chars(ins.as_slice(), chars_of(t.name.as_str()).as_slice());
                v.push(' ');
                assert(v@ =~= seq!['@'] + t.name@ + seq![' ']);
                v
            },
            None => Vec::new(),
        },
        None => Vec::new(),
    };
    let project_id = match selected_project_id {
        Some(id) => id,
        None => crate::references::inbox_project_id(data),
    };
    let cursor = value.len();
    TaskInputState { value, cursor, project_id, tag_suggestion_index: 0, suggestion_index: 0 }
}

/// A key pressed while the quick-add popup is open.
#[derive(Debug, Clone, Copy, PartialEq, Eq, Structural)]
pub enum InputKey {
    Esc,
    Enter,
    Tab,
    Up,
    Down,
    Left,
    Right,
    Home,
    End,
    Backspace,
    Delete,
    Char(char),
    Ctrl(char),
    Other,
}

/// What a key leaves to be done outside the popup: nothing more; close it;
/// open the full editor on its text (see
/// `open_full_add_task_popup_from_input`); find or create a tag, then
/// `complete_task_input_tag_token`; or save the text as a task (its dates
/// are read, then `task_input_submission`).
#[derive(Debug, Clone, PartialEq, Eq)]
pub enum InputKeyOutcome {
    Kept,
    Closed,
    OpenFullEditor,
    NeedsTag { start: usize, end: usize, query: String },
    Submit,
}

/// `InputKeyOutcome` as values.
pub enum InputKeyResult {
    Kept,
    Closed,
    OpenFullEditor,
    NeedsTag(int, int, Seq<char>),
    Submit,
}

/// Whether an outcome is the one described.
pub open spec fn input_outcome_is(o: InputKeyOutcome, k: InputKeyResult) -> bool {
    match (o, k) {
        (InputKeyOutcome::Kept, InputKeyResult::Kept) => true,
        (InputKeyOutcome::Closed, InputKeyResult::Closed) => true,
        (InputKeyOutcome::OpenFullEditor, InputKeyResult::OpenFullEditor) => true,
        (InputKeyOutcome::NeedsTag { start, end, query }, InputKeyResult::NeedsTag(s, e, q)) => start == s && end
            == e && query@ == q,
        (InputKeyOutcome::Submit, InputKeyResult::Submit) => true,
        _ => false,
    }
}

/// Whether Enter may complete the tag word under the cursor: it has no
/// white space and names no tag exactly.
pub open spec fn enter_completes_input_tag(data: ScreenData, v: Seq<char>, cursor: int) -> bool {
    match active_tag_query_spec(v, cursor, false) {
        Some((_s, _e, q)) => {
            &&& !(exists|i: int| 0 <= i < q.len() && is_white_space(#[trigger] q[i]))
            &&& !(tag_query_name(q).len() > 0 && exists|i: int|
                0 <= i < data.tags@.len() && data.tags@[i].deleted_at is None && #[trigger] eq_ignore_ascii_case(
                    data.tags@[i].name@,
                    tag_query_name(q),
                ))
        },
        None => false,
    }
}

/// Enter or Tab: the project suggestion, else (on Enter only where
/// `enter_completes_input_tag`) the tag suggestion, else the priority
/// suggestion for the word under the cursor, if any.
pub open spec fn input_accept_chain(data: ScreenData, m: TaskInputModel, on_enter: bool) -> Option<(TaskInputModel, InputKeyResult)> {
    match project_accept_spec(data, m.value, m.cursor as int, m.suggestion_index as int) {
        Some((v, c, id)) => Some(
            (
                TaskInputModel { value: v, cursor: c as nat, project_id: id, suggestion_index: 0, ..m },
                InputKeyResult::Kept,
            ),
        ),
        None => {
            let tag = if !on_enter || enter_completes_input_tag(data, m.value, m.cursor as int) {
                tag_accept_spec(data, m.value, m.cursor as int, m.tag_suggestion_index as int)
            } else {
                None
            };
            match tag {
                Some(Ok((v, c))) => Some(
                    (
                        TaskInputModel { value: v, cursor: c as nat, tag_suggestion_index: 0, ..m },
                        InputKeyResult::Kept,
                    ),
                ),
                Some(Err((s, e, q))) => Some((m, InputKeyResult::NeedsTag(s, e, q))),
                None => match priority_accept_spec(m.value, m.cursor as int, m.suggestion_index as int) {
                    Some((v, c)) => Some(
                        (TaskInputModel { value: v, cursor: c as nat, suggestion_index: 0, ..m }, InputKeyResult::Kept),
                    ),
                    None => None,
                },
            }
        },
    }
}

/// Up or down: the highlighted suggestion of the word under the cursor one
/// down (at most the last) or up; the tag list keeps its own.
pub open spec fn input_navigated(data: ScreenData, m: TaskInputModel, down: bool) -> TaskInputModel {
    match active_project_query_spec(data.projects@, m.value, m.cursor as int) {
        Some((_s, _e, q)) => TaskInputModel {
            suggestion_index: moved_index(
                m.suggestion_index,
                (if trim_spec(q).len() == 0 {
                    Seq::empty()
                } else {
                    ranked_projects(data.projects@, trim_spec(q), false, None)
                }).len(),
                down,
            ),
            ..m
        },
        None => match active_tag_query_spec(m.value, m.cursor as int, false) {
            Some((_s, _e, q)) => TaskInputModel {
                tag_suggestion_index: moved_index(m.tag_suggestion_index, tag_suggestions_spec(data.tags@, q).len(), down),
                ..m
            },
            None => match active_priority_query_spec(m.value, m.cursor as int) {
                Some((_s, _e, q)) => TaskInputModel {
                    suggestion_index: moved_index(m.suggestion_index, priority_suggestions_spec(q).len(), down),
                    ..m
                },
                None => m,
            },
        },
    }
}

/// The popup after a change of its text or cursor, no suggestion
/// highlighted past the first.
pub open spec fn input_edited(m: TaskInputModel, op: LineEdit) -> TaskInputModel {
    let l = line_edited(LineModel { value: m.value, cursor: m.cursor }, op);
    TaskInputModel { value: l.value, cursor: l.cursor, suggestion_index: 0, tag_suggestion_index: 0, ..m }
}

/// The change a key makes to the text, if any.
pub open spec fn input_key_edit(key: InputKey) -> Option<LineEdit> {
    match key {
        InputKey::Left => Some(LineEdit::Left),
        InputKey::Right => Some(LineEdit::Right),
        InputKey::Home => Some(LineEdit::Home),
        InputKey::End => Some(LineEdit::End),
        InputKey::Backspace => Some(LineEdit::DeleteBefore),
        InputKey::Delete => Some(LineEdit::DeleteAt),
        InputKey::Char(c) => Some(LineEdit::Insert(c)),
        InputKey::Ctrl(c) => if c == 'e' {
            None
        } else {
            Some(LineEdit::Insert(c))
        },
        _ => None,
    }
}

/// What a key does to the quick-add popup and what it leaves to be done:
/// Esc closes it, Ctrl+E opens the full editor, Tab takes a suggestion,
/// Enter takes one or else saves, up and down move through suggestions,
/// and the other keys edit the text.
pub open spec fn input_key_step(data: ScreenData, m: TaskInputModel, key: InputKey) -> (TaskInputModel, InputKeyResult) {
    match key {
        InputKey::Esc => (m, InputKeyResult::Closed),
        InputKey::Ctrl(c) => if c == 'e' {
            (m, InputKeyResult::OpenFullEditor)
        } else {
            (input_edited(m, LineEdit::Insert(c)), InputKeyResult::Kept)
        },
        InputKey::Tab => match input_accept_chain(data, m, false) {
            Some(x) => x,
            None => (m, InputKeyResult::Kept),
        },
        InputKey::Enter => match input_accept_chain(data, m, true) {
            Some(x) => x,
            None => (m, InputKeyResult::Submit),
        },
        InputKey::Down => (input_navigated(data, m, true), InputKeyResult::Kept),
        InputKey::Up => (input_navigated(data, m, false), InputKeyResult::Kept),
        InputKey::Other => (m, InputKeyResult::Kept),
        _ => (input_edited(m, input_key_edit(key)->0), InputKeyResult::Kept),
    }
}

fn has_white_chars(s: &[char]) -> (r: bool)
    ensures
        r == exists|i: int| 0 <= i < s@.len() && is_white_space(#[trigger] s@[i]),
{
    let mut i: usize = 0;
    while i < s.len()
        invariant
            i <= s.len(),
            forall|j: int| 0 <= j < i ==> !is_white_space(#[trigger] s@[j]),
        decreases s.len() - i,
    {
        if crate::text::is_whitespace(s[i]) {
            return true;
        }
        i += 1;
    }
    false
}

fn input_accept(data: &ScreenData, input: &mut TaskInputState, on_enter: bool) -> (r: Option<InputKeyOutcome>)
    ensures
        match input_accept_chain(*data, old(input)@, on_enter) {
            None => r is None && final(input)@ == old(input)@,
            Some((m, k)) => r matches Some(o) && input_outcome_is(o, k) && final(input)@ == m,
        },
{
    if accept_task_input_project_suggestion(data, input) {
        return Some(InputKeyOutcome::Kept);
    }
    let allowed = if on_enter {
        let text = string_from(input.value.as_slice());
        match active_tag_query(text.as_str(), input.cursor) {
            Some((_s, _e, query)) => {
                let q = chars_of(query.as_str());
                !has_white_chars(q.as_slice()) && !has_exact_tag_name(data, query.as_str())
            },
            None => false,
        }
    } else {
        true
    };
    if allowed {
        match accept_task_input_tag_suggestion(data, input) {
            TagTokenStep::Accepted => {
                return Some(InputKeyOutcome::Kept);
            },
            TagTokenStep::NeedsTag { start, end, query } => {
                return Some(InputKeyOutcome::NeedsTag { start, end, query });
            },
            TagTokenStep::NoToken => {},
        }
    }
    if accept_task_input_priority_suggestion(input) {
        return Some(InputKeyOutcome::Kept);
    }
    None
}

fn input_navigate(data: &ScreenData, input: &mut TaskInputState, down: bool)
    ensures
        final(input)@ == input_navigated(*data, old(input)@, down),
{
    let text = string_from(input.value.as_slice());
    match active_project_query(data, text.as_str(), input.cursor) {
        Some((_s, _e, q)) => {
            let n = project_suggestions(data, q.as_str()).len();
            input.suggestion_index = moved_index_of(input.suggestion_index, n, down);
        },
        None => match active_tag_query(text.as_str(), input.cursor) {
            Some((_s, _e, q)) => {
                let n = tag_suggestions(data, q.as_str()).len();
                input.tag_suggestion_index = moved_index_of(input.tag_suggestion_index, n, down);
            },
            None => match active_priority_query(text.as_str(), input.cursor) {
                Some((_s, _e, q)) => {
                    let n = priority_suggestions(q.as_str()).len();
                    input.suggestion_index = moved_index_of(input.suggestion_index, n, down);
                },
                None => {},
            },
        },
    }
}

fn moved_index_of(i: usize, len: usize, down: bool) -> (r: usize)
    ensures
        r == moved_index(i as nat, len as nat, down),
{
    if down {
        let last = if len == 0 {
            0
        } else {
            len - 1
        };
        if i < last {
            i + 1
        } else {
            last
        }
    } else if i == 0 {
        0
    } else {
        i - 1
    }
}

/// Handles a key while the quick-add popup is open (see `input_key_step`).
pub fn handle_task_input_key(data: &ScreenData, input: &mut TaskInputState, key: InputKey) -> (r: InputKeyOutcome)
    requires
        input_key_edit(key) matches Some(op) && (op is Left || op is Insert || op is DeleteBefore) ==> old(input)@.cursor
            <= old(input)@.value.len(),
        input_key_edit(key) matches Some(op) && op is Insert ==> old(input)@.value.len() < usize::MAX,
    ensures
        final(input)@ == input_key_step(*data, old(input)@, key).0,
        input_outcome_is(r, input_key_step(*data, old(input)@, key).1),
{
    let op = match key {
        InputKey::Esc => {
            return InputKeyOutcome::Closed;
        },
        InputKey::Ctrl(c) => if c == 'e' {
            return InputKeyOutcome::OpenFullEditor;
        } else {
            LineEdit::Insert(c)
        },
        InputKey::Tab => {
            return match input_accept(data, input, false) {
                Some(o) => o,
                None => InputKeyOutcome::Kept,
            };
        },
        InputKey::Enter => {
            return match input_accept(data, input, true) {
                Some(o) => o,
                None => InputKeyOutcome::Submit,
            };
        },
        InputKey::Down => {
            input_navigate(data, input, true);
            return InputKeyOutcome::Kept;
        },
        InputKey::Up => {
            input_navigate(data, input, false);
            return InputKeyOutcome::Kept;
        },
        InputKey::Other => {
            return InputKeyOutcome::Kept;
        },
        InputKey::Left => LineEdit::Left,
        InputKey::Right => LineEdit::Right,
        InputKey::Home => LineEdit::Home,
        InputKey::End => LineEdit::End,
        InputKey::Backspace => LineEdit::DeleteBefore,
        InputKey::Delete => LineEdit::DeleteAt,
        InputKey::Char(c) => LineEdit::Insert(c),
    };
    let mut taken: Vec<char> = Vec::new();
    std::mem::swap(&mut taken, &mut input.value);
    let mut line = LineInput { value: taken, cursor: input.cursor };
    edit_line(&mut line, op);
    input.value = line.value;
    input.cursor = line.cursor;
    input.suggestion_index = 0;
    input.tag_suggestion_index = 0;
    InputKeyOutcome::Kept
}

/// What saving the quick-add text asks of the store: create a task with
/// the title, project and due date; give it the priority where it is not
/// P4; link it to the tags (each found or created).
#[derive(Debug, Clone, PartialEq, Eq)]
pub struct TaskInputSubmission {
    pub title: String,
    pub project_id: ProjectId,
    pub due: Option<TaskDue>,
    pub priority: TaskPriority,
    pub tag_queries: Vec<String>,
}

/// Saves the quick-add text: its draft (see `draft_spec`, filed by default
/// under the popup's project), with the title left once its due words are
/// taken out and the due date they name (both read elsewhere and given).
/// None, with nothing saved, where that title is empty.
pub fn task_input_submission(
    data: &ScreenData,
    input: &TaskInputState,
    cleaned_title: &str,
    due: Option<TaskDue>,
) -> (r: Option<TaskInputSubmission>)
    ensures
        r is None <==> cleaned_title@.len() == 0,
        r matches Some(sub) ==> {
            let d = draft_spec(*data, input.value@, input.project_id);
            &&& sub.title@ == cleaned_title@
            &&& sub.project_id == d.1
            &&& sub.due == due
            &&& sub.priority == d.3
            &&& strings_view(sub.tag_queries@) == d.2
        },
{
    if chars_of(cleaned_title).len() == 0 {
        return None;
    }
    let text = string_from(input.value.as_slice());
    let draft = task_input_draft(data, text.as_str(), input.project_id);
    Some(TaskInputSubmission {
        title: crate::text::string_of(cleaned_title),
        project_id: draft.project_id,
        due,
        priority: draft.priority,
        tag_queries: draft.tag_queries,
    })
}

} // verus!
