//! The preview panels of the quick-add popup and of the task editor: the
//! lines that sum up what will be saved, and the tip for the focused
//! field. Dates and times come written out: the date as `YYYY-MM-DD`, the
//! time of day in local time as `HH:MM`.
use vstd::prelude::*;

use crate::app::{FormPreviewPanelView, PreviewLineView, TaskDuePreviewView, TaskEditorField};
use crate::config::joined_with;
use crate::domain::{priority_label, TaskPriority};
use crate::text::{
    ascii_lower_seq, chars_of, concat_chars, string_from, string_of, to_ascii_lower_chars, trim_chars,
    trim_spec,
};

verus! {

/// A due date written out: the date as `YYYY-MM-DD`, and the time of day
/// in local time as `HH:MM` where it has one.
#[derive(Debug, Clone, PartialEq, Eq)]
pub struct DuePreviewText {
    pub date: String,
    pub time: Option<String>,
}

/// A line as planned: label, value, whether it stands out, whether it is
/// drawn faintly.
pub open spec fn line_shows(l: PreviewLineView, planned: (Seq<char>, Seq<char>, bool, bool)) -> bool {
    l matches PreviewLineView::KeyValue { label, value, emphasized, dimmed } && label@ == planned.0 && value@
        == planned.1 && emphasized == planned.2 && dimmed == planned.3
}

/// The lines are the planned ones, in order.
pub open spec fn lines_show(lines: Seq<PreviewLineView>, plan: Seq<(Seq<char>, Seq<char>, bool, bool)>) -> bool {
    &&& lines.len() == plan.len()
    &&& forall|i: int| 0 <= i < plan.len() ==> line_shows(#[trigger] lines[i], plan[i])
}

/// A plain line where `on`.
pub open spec fn line_if(on: bool, label: Seq<char>, value: Seq<char>) -> Seq<(Seq<char>, Seq<char>, bool, bool)> {
    if on {
        seq![(label, value, false, false)]
    } else {
        Seq::empty()
    }
}

/// The tags of the quick-add popup, each as `@name`, separated by spaces.
pub open spec fn tags_text(queries: Seq<Seq<char>>) -> Seq<char> {
    joined_with(Seq::new(queries.len(), |i: int| seq!['@'] + trim_spec(queries[i])), seq![' '])
}

/// The due date as written when it came from the date and time alone.
pub open spec fn plain_due_text(text: DuePreviewText) -> Seq<char> {
    match text.time {
        Some(t) => text.date@ + seq![' '] + t@,
        None => text.date@,
    }
}

pub open spec fn yes_no(b: bool) -> Seq<char> {
    if b {
        "yes"@
    } else {
        "no"@
    }
}

/// The lines of the quick-add preview: the project where it is shown, the
/// tags where there are any, the priority unless it is P4, and for a due
/// date its date, time, whether it recurs, and the words it was read from
/// where they say more than the date and time.
pub open spec fn input_preview_plan(
    show_project_assignment: bool,
    project_name: Seq<char>,
    tag_queries: Seq<Seq<char>>,
    priority: TaskPriority,
    due: Option<TaskDuePreviewView>,
    text: DuePreviewText,
) -> Seq<(Seq<char>, Seq<char>, bool, bool)> {
    line_if(show_project_assignment, "Project"@, project_name) + line_if(
        tag_queries.len() > 0,
        "Tags"@,
        tags_text(tag_queries),
    ) + line_if(priority != TaskPriority::P4, "Priority"@, priority_label(priority)) + match due {
        None => Seq::empty(),
        Some(d) => input_due_plan(d, text),
    }
}

/// The lines of a due date in the quick-add preview: date, time where it
/// has one, whether it recurs, and the words it was read from where they
/// say more than the date and time.
pub open spec fn input_due_plan(d: TaskDuePreviewView, text: DuePreviewText) -> Seq<(Seq<char>, Seq<char>, bool, bool)> {
    line_if(true, "Due Date"@, text.date@) + match text.time {
        Some(t) => line_if(true, "Due Time"@, t@),
        None => Seq::empty(),
    } + line_if(true, "Recurring"@, yes_no(d.is_recurring)) + if ascii_lower_seq(d.string@) != plain_due_text(text) {
        seq![("From"@, d.string@, false, true)]
    } else {
        Seq::empty()
    }
}

fn add_line(
    lines: &mut Vec<PreviewLineView>,
    label: &str,
    value: String,
    emphasized: bool,
    dimmed: bool,
    Ghost(plan): Ghost<Seq<(Seq<char>, Seq<char>, bool, bool)>>,
)
    requires
        lines_show(old(lines)@, plan),
        !(emphasized && dimmed),
    ensures
        lines_show(final(lines)@, plan.push((label@, value@, emphasized, dimmed))),
{
    let line = if dimmed {
        PreviewLineView::dimmed_key_value(label, value)
    } else if emphasized {
        PreviewLineView::emphasized_key_value(label, value)
    } else {
        PreviewLineView::key_value(label, value)
    };
    let ghost before = lines@;
    lines.push(line);
    proof {
        let next = plan.push((label@, value@, emphasized, dimmed));
        assert forall|i: int| 0 <= i < next.len() implies line_shows(#[trigger] lines@[i], next[i]) by {
            if i < plan.len() {
                assert(lines@[i] == before[i]);
            }
        }
    }
}

fn tags_line_text(tag_queries: &[String]) -> (r: Vec<char>)
    ensures
        r@ == tags_text(crate::references::strings_view(tag_queries@)),
{
    let ghost qs = crate::references::strings_view(tag_queries@);
    let ghost words = Seq::new(qs.len(), |i: int| seq!['@'] + trim_spec(qs[i]));
    let mut out: Vec<char> = Vec::new();
    let mut i: usize = 0;
    assert(words.take(0) =~= Seq::<Seq<char>>::empty());
    while i < tag_queries.len()
        invariant
            i <= tag_queries.len(),
            qs == crate::references::strings_view(tag_queries@),
            words == Seq::new(qs.len(), |i: int| seq!['@'] + trim_spec(qs[i])),
            out@ == joined_with(words.take(i as int), seq![' ']),
        decreases tag_queries.len() - i,
    {
        let ghost before = out@;
        if i > 0 {
            out.push(' ');
        }
        out.push('@');
        let q = chars_of(tag_queries[i].as_str());
        let t = trim_chars(q.as_slice());
        let joined = concat_chars(out.as_slice(), t.as_slice());
        out = joined;
        proof {
            let next = words.take(i + 1);
            assert(next.drop_last() =~= words.take(i as int));
            assert(next.last() == words[i as int]);
            assert(words[i as int] =~= seq!['@'] + t@);
            if i == 0 {
                assert(out@ =~= words[0]);
            } else {
                assert(out@ =~= before + seq![' '] + words[i as int]);
            }
        }
        i += 1;
    }
    assert(words.take(tag_queries.len() as int) =~= words);
    out
}

fn add_due_lines(
    lines: &mut Vec<PreviewLineView>,
    due: &TaskDuePreviewView,
    due_text: &DuePreviewText,
    Ghost(start): Ghost<Seq<(Seq<char>, Seq<char>, bool, bool)>>,
)
    requires
        lines_show(old(lines)@, start),
        due.datetime is Some <==> due_text.time is Some,
    ensures
        lines_show(final(lines)@, start + input_due_plan(*due, *due_text)),
{
    let ghost mut plan = start;
    let ghost p3 = start;

    add_line(lines, "Due Date", string_of(due_text.date.as_str()), false, false, Ghost(plan));
    proof {
        plan = plan.push(("Due Date"@, due_text.date@, false, false));
    }
    let ghost p4 = plan;
    match &due_text.time {
        Some(t) => {
            add_line(lines, "Due Time", string_of(t.as_str()), false, false, Ghost(plan));
            proof {
                plan = plan.push(("Due Time"@, t@, false, false));
            }
        },
        None => {},
    }
    let ghost p5 = plan;
    add_line(
        lines,
        "Recurring",
        string_of(if due.is_recurring {
            "yes"
        } else {
            "no"
        }),
        false,
        false,
        Ghost(plan),
    );
    proof {
        plan = plan.push(("Recurring"@, yes_no(due.is_recurring), false, false));
    }
    let ghost p6 = plan;
    let written = chars_of(due.string.as_str());
    let lowered = to_ascii_lower_chars(written.as_slice());
    let date = chars_of(due_text.date.as_str());
    let normalized = match &due_text.time {
        Some(t) => {
            let mut n = date;
            n.push(' ');
            let tc = chars_of(t.as_str());
            concat_chars(n.as_slice(), tc.as_slice())
        },
        None => date,
    };
    assert(normalized@ =~= plain_due_text(*due_text));
    if !crate::text::chars_eq(lowered.as_slice(), normalized.as_slice()) {
        add_line(lines, "From", string_of(due.string.as_str()), false, true, Ghost(plan));
        proof {
            plan = plan.push(("From"@, due.string@, false, true));
        }
    }
    proof {
        let d = *due;
        let dt = *due_text;
        let tail = line_if(true, "Due Date"@, dt.date@) + match dt.time {
            Some(t) => line_if(true, "Due Time"@, t@),
            None => Seq::empty(),
        } + line_if(true, "Recurring"@, yes_no(d.is_recurring)) + if ascii_lower_seq(d.string@)
            != plain_due_text(dt) {
            seq![("From"@, d.string@, false, true)]
        } else {
            Seq::empty()
        };
        assert(plan =~= p3 + tail);
        assert(tail =~= input_due_plan(d, dt));
    }
        }

/// The preview panel of the quick-add popup (see `input_preview_plan`),
/// with the tip on picking a project.
pub fn task_input_preview_panel(
    show_project_assignment: bool,
    project_name: &str,
    tag_queries: &[String],
    priority: TaskPriority,
    due_preview: Option<&TaskDuePreviewView>,
    due_text: &DuePreviewText,
) -> (r: FormPreviewPanelView)
    requires
        due_preview matches Some(d) ==> (d.datetime is Some <==> due_text.time is Some),
    ensures
        lines_show(
            r.preview_lines@,
            input_preview_plan(
                show_project_assignment,
                project_name@,
                crate::references::strings_view(tag_queries@),
                priority,
                match due_preview {
                    Some(d) => Some(*d),
                    None => None,
                },
                *due_text,
            ),
        ),
        r.tips@.len() == 1,
        r.tips@[0]@ == "Press # for selecting a project"@,
{
    let mut lines: Vec<PreviewLineView> = Vec::new();
    let ghost mut plan: Seq<(Seq<char>, Seq<char>, bool, bool)> = Seq::empty();
    if show_project_assignment {
        add_line(&mut lines, "Project", string_of(project_name), false, false, Ghost(plan));
        proof {
            plan = plan.push(("Project"@, project_name@, false, false));
        }
    }
    assert(plan =~= line_if(show_project_assignment, "Project"@, project_name@));
    let ghost p1 = plan;
    if tag_queries.len() > 0 {
        let text = tags_line_text(tag_queries);
        add_line(&mut lines, "Tags", string_from(text.as_slice()), false, false, Ghost(plan));
        proof {
            plan = plan.push(("Tags"@, text@, false, false));
        }
    }
    assert(plan =~= p1 + line_if(tag_queries.len() > 0, "Tags"@, tags_text(crate::references::strings_view(tag_queries@))));
    let ghost p2 = plan;
    if priority != TaskPriority::P4 {
        add_line(&mut lines, "Priority", string_of(priority.label()), false, false, Ghost(plan));
        proof {
            plan = plan.push(("Priority"@, priority_label(priority), false, false));
        }
    }
    assert(plan =~= p2 + line_if(priority != TaskPriority::P4, "Priority"@, priority_label(priority)));
    match due_preview {
        Some(due) => {
            add_due_lines(&mut lines, due, due_text, Ghost(plan));
            proof {
                plan = plan + input_due_plan(*due, *due_text);
            }
        },
        None => {
            assert(plan =~= plan + Seq::<(Seq<char>, Seq<char>, bool, bool)>::empty());
        },
    }
    let mut tips: Vec<String> = Vec::new();
    tips.push(string_of("Press # for selecting a project"));
    FormPreviewPanelView { preview_lines: lines, tips }
}

/// The tip the task editor gives for the focused field.
pub open spec fn task_editor_tip(field: TaskEditorField) -> Seq<char> {
    match field {
        TaskEditorField::Title => "Press # for selecting a project"@,
        TaskEditorField::Description => "Enter inserts line break, F12 saves, Ctrl+E opens external editor"@,
        TaskEditorField::Project => "Type in Project to fuzzy-match and use Enter/Tab to accept"@,
        TaskEditorField::Tags => "Type @ for selecting tags and use Enter/Tab to accept"@,
        TaskEditorField::DueDate => "Type YYYY-MM-DD or use F10 to pick from calendar"@,
        TaskEditorField::Priority => "Type p1-p4 and use Enter/Tab to accept suggestion"@,
        TaskEditorField::DueTime => "Type HH:MM (24h) or leave empty for all-day due date"@,
        TaskEditorField::Recurrence => "Type recurrence phrases like: every monday at 9am"@,
        TaskEditorField::Parent => "Type a task title to fuzzy-match and use Enter/Tab to accept"@,
    }
}

/// The lines of the task editor's preview: the project, the tags where
/// there are any, the priority unless it is P4, the due date's words
/// (standing out), date, time (`-` without one) and whether it recurs, or
/// that there is no due date, and the parent where one is typed.
pub open spec fn editor_preview_plan(
    project_value: Seq<char>,
    tags_value: Seq<char>,
    priority: TaskPriority,
    due: Option<TaskDuePreviewView>,
    text: DuePreviewText,
    parent_value: Seq<char>,
) -> Seq<(Seq<char>, Seq<char>, bool, bool)> {
    line_if(true, "Project"@, project_value) + line_if(trim_spec(tags_value).len() > 0, "Tags"@, trim_spec(tags_value))
        + line_if(priority != TaskPriority::P4, "Priority"@, priority_label(priority)) + match due {
        Some(d) => seq![("Summary"@, d.string@, true, false)] + line_if(true, "Date"@, text.date@) + line_if(
            true,
            "Time"@,
            match text.time {
                Some(t) => t@,
                None => "-"@,
            },
        ) + line_if(true, "Recurring"@, yes_no(d.is_recurring)),
        None => line_if(true, "Summary"@, "no due date"@),
    } + line_if(trim_spec(parent_value).len() > 0, "Parent"@, trim_spec(parent_value))
}

/// The preview panel of the task editor (see `editor_preview_plan`), with
/// the tip for the focused field.
pub fn task_editor_preview_panel(
    project_value: &str,
    tags_value: &str,
    priority: TaskPriority,
    due_preview: Option<&TaskDuePreviewView>,
    due_text: &DuePreviewText,
    parent_value: &str,
    focused_field: TaskEditorField,
) -> (r: FormPreviewPanelView)
    ensures
        lines_show(
            r.preview_lines@,
            editor_preview_plan(
                project_value@,
                tags_value@,
                priority,
                match due_preview {
                    Some(d) => Some(*d),
                    None => None,
                },
                *due_text,
                parent_value@,
            ),
        ),
        r.tips@.len() == 1,
        r.tips@[0]@ == task_editor_tip(focused_field),
{
    let mut lines: Vec<PreviewLineView> = Vec::new();
    let ghost mut plan: Seq<(Seq<char>, Seq<char>, bool, bool)> = Seq::empty();
    add_line(&mut lines, "Project", string_of(project_value), false, false, Ghost(plan));
    proof {
        plan = plan.push(("Project"@, project_value@, false, false));
    }
    assert(plan =~= line_if(true, "Project"@, project_value@));
    let ghost p1 = plan;
    let tags = trim_chars(chars_of(tags_value).as_slice());
    if tags.len() > 0 {
        add_line(&mut lines, "Tags", string_from(tags.as_slice()), false, false, Ghost(plan));
        proof {
            plan = plan.push(("Tags"@, tags@, false, false));
        }
    }
    assert(plan =~= p1 + line_if(trim_spec(tags_value@).len() > 0, "Tags"@, trim_spec(tags_value@)));
    let ghost p2 = plan;
    if priority != TaskPriority::P4 {
        add_line(&mut lines, "Priority", string_of(priority.label()), false, false, Ghost(plan));
        proof {
            plan = plan.push(("Priority"@, priority_label(priority), false, false));
        }
    }
    assert(plan =~= p2 + line_if(priority != TaskPriority::P4, "Priority"@, priority_label(priority)));
    let ghost p3 = plan;
    match due_preview {
        Some(due) => {
            add_line(&mut lines, "Summary", string_of(due.string.as_str()), true, false, Ghost(plan));
            proof {
                plan = plan.push(("Summary"@, due.string@, true, false));
            }
            add_line(&mut lines, "Date", string_of(due_text.date.as_str()), false, false, Ghost(plan));
            proof {
                plan = plan.push(("Date"@, due_text.date@, false, false));
            }
            let time = match &due_text.time {
                Some(t) => string_of(t.as_str()),
                None => string_of("-"),
            };
            let ghost time_view = time@;
            add_line(&mut lines, "Time", time, false, false, Ghost(plan));
            proof {
                plan = plan.push(("Time"@, time_view, false, false));
            }
            add_line(
                &mut lines,
                "Recurring",
                string_of(if due.is_recurring {
                    "yes"
                } else {
                    "no"
                }),
                false,
                false,
                Ghost(plan),
            );
            proof {
                plan = plan.push(("Recurring"@, yes_no(due.is_recurring), false, false));
                let d = *due;
                let dt = *due_text;
                assert(plan =~= p3 + (seq![("Summary"@, d.string@, true, false)] + line_if(true, "Date"@, dt.date@)
                    + line_if(
                    true,
                    "Time"@,
                    match dt.time {
                        Some(t) => t@,
                        None => "-"@,
                    },
                ) + line_if(true, "Recurring"@, yes_no(d.is_recurring))));
            }
        },
        None => {
            add_line(&mut lines, "Summary", string_of("no due date"), false, false, Ghost(plan));
            proof {
                plan = plan.push(("Summary"@, "no due date"@, false, false));
                assert(plan =~= p3 + line_if(true, "Summary"@, "no due date"@));
            }
        },
    }
    let ghost p4 = plan;
    let parent = trim_chars(chars_of(parent_value).as_slice());
    if parent.len() > 0 {
        add_line(&mut lines, "Parent", string_from(parent.as_slice()), false, false, Ghost(plan));
        proof {
            plan = plan.push(("Parent"@, parent@, false, false));
        }
    }
    assert(plan =~= p4 + line_if(trim_spec(parent_value@).len() > 0, "Parent"@, trim_spec(parent_value@)));
    let tip = match focused_field {
        TaskEditorField::Title => "Press # for selecting a project",
        TaskEditorField::Description => "Enter inserts line break, F12 saves, Ctrl+E opens external editor",
        TaskEditorField::Project => "Type in Project to fuzzy-match and use Enter/Tab to accept",
        TaskEditorField::Tags => "Type @ for selecting tags and use Enter/Tab to accept",
        TaskEditorField::DueDate => "Type YYYY-MM-DD or use F10 to pick from calendar",
        TaskEditorField::Priority => "Type p1-p4 and use Enter/Tab to accept suggestion",
        TaskEditorField::DueTime => "Type HH:MM (24h) or leave empty for all-day due date",
        TaskEditorField::Recurrence => "Type recurrence phrases like: every monday at 9am",
        TaskEditorField::Parent => "Type a task title to fuzzy-match and use Enter/Tab to accept",
    };
    let mut tips: Vec<String> = Vec::new();
    tips.push(string_of(tip));
    FormPreviewPanelView { preview_lines: lines, tips }
}

} // verus!
