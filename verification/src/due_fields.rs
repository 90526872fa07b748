//! The due date that the task editor's due fields name: which field wins,
//! and which field is at fault where they cannot be read. Reading a natural
//! phrase and placing a time of day in the local time zone are done
//! elsewhere; their results are given here.
use vstd::prelude::*;

use crate::calendar::{date_text, iso_date_reading, iso_date_text, parse_iso_date};
use crate::domain::{CalendarDate, TaskDue};
use crate::task_editor::{TaskEditorModel, TaskEditorState};
use crate::text::{chars_of, concat_chars, string_from, trim_chars, trim_spec};

verus! {

/// A due date as values: its day number, the moment it falls due where a
/// time of day was given, the time zone, the text it was given as, and
/// whether it recurs.
pub struct DueModel {
    pub day: int,
    pub datetime: Option<i64>,
    pub timezone: Option<Seq<char>>,
    pub string: Seq<char>,
    pub is_recurring: bool,
}

pub open spec fn opt_text(o: Option<String>) -> Option<Seq<char>> {
    match o {
        Some(s) => Some(s@),
        None => None,
    }
}

pub open spec fn due_model(d: TaskDue) -> DueModel {
    DueModel {
        day: d.date.day_number as int,
        datetime: d.datetime,
        timezone: opt_text(d.timezone),
        string: d.string@,
        is_recurring: d.is_recurring,
    }
}

/// The recurring due date that the recurrence field names, where it has
/// one: `read` is what reading that field as a phrase gave; only a
/// recurring reading counts.
pub open spec fn recurrence_choice(e: TaskEditorModel, read: Option<TaskDue>) -> Result<Option<TaskDue>, Seq<char>> {
    if trim_spec(e.recurrence.value).len() == 0 {
        Ok(None)
    } else {
        match read {
            Some(d) => if d.is_recurring {
                Ok(Some(d))
            } else {
                Err("recurring pattern must use a Todoist-style recurring phrase"@)
            },
            None => Err("recurring pattern must use a Todoist-style recurring phrase"@),
        }
    }
}

/// The day the due fields name, with the recurring due date where the
/// recurrence field names one; none where the date, time and recurrence
/// fields are all blank. The date field wins, read as `YYYY-MM-DD` or else
/// as a phrase (`phrase_day` is what reading it as one gave); a blank date
/// field takes the day of the recurrence, and is an error without one.
pub open spec fn due_day_choice(
    e: TaskEditorModel,
    recurrence_read: Option<TaskDue>,
    phrase_day: Option<CalendarDate>,
) -> Result<Option<(int, Option<TaskDue>)>, Seq<char>> {
    let d = trim_spec(e.due_date.value);
    let t = trim_spec(e.due_time.value);
    let r = trim_spec(e.recurrence.value);
    if d.len() == 0 && t.len() == 0 && r.len() == 0 {
        Ok(None)
    } else {
        match recurrence_choice(e, recurrence_read) {
            Err(m) => Err(m),
            Ok(recurring) => if d.len() == 0 {
                match recurring {
                    Some(x) => Ok(Some((x.date.day_number as int, recurring))),
                    None => Err("due date is required when a due time is set"@),
                }
            } else {
                match iso_date_reading(d) {
                    Some(n) => Ok(Some((n, recurring))),
                    None => match phrase_day {
                        Some(x) => Ok(Some((x.day_number as int, recurring))),
                        None => Err("invalid due date: "@ + d),
                    },
                }
            },
        }
    }
}

/// The due date on `day` that the fields name. A time typed in the time
/// field gives the moment and the time zone (`timed` is that moment and its
/// local clock text, none where the time could not be read; `zone` is the
/// local time zone's name); without one, the moment and zone come from the
/// recurrence where the date field is blank. The text is the phrase the due
/// date was typed as, else the recurrence, else the day and the typed time,
/// else the day (`YYYY-MM-DD`, empty where `chrono` cannot write it).
pub open spec fn due_from_fields(
    e: TaskEditorModel,
    day: int,
    recurring: Option<TaskDue>,
    timed: Option<(i64, Seq<char>)>,
    zone: Option<Seq<char>>,
) -> Result<DueModel, Seq<char>> {
    let d = trim_spec(e.due_date.value);
    let t = trim_spec(e.due_time.value);
    let r = trim_spec(e.recurrence.value);
    let n = trim_spec(e.due_natural);
    let day_text = match iso_date_text(day) {
        Some(s) => s,
        None => Seq::empty(),
    };
    if t.len() > 0 && timed is None {
        Err("invalid due time: "@ + t)
    } else {
        let moment = match timed {
            Some(p) => p.0,
            None => 0,
        };
        let clock = match timed {
            Some(p) => p.1,
            None => Seq::empty(),
        };
        let datetime = if t.len() > 0 {
            Some(moment)
        } else if d.len() == 0 {
            match recurring {
                Some(x) => x.datetime,
                None => None,
            }
        } else {
            None
        };
        let timezone = if t.len() > 0 {
            zone
        } else {
            match recurring {
                Some(x) => opt_text(x.timezone),
                None => None,
            }
        };
        let string = if n.len() > 0 {
            n
        } else if r.len() > 0 {
            r
        } else if t.len() > 0 {
            day_text + " at "@ + clock
        } else {
            day_text
        };
        Ok(
            DueModel {
                day,
                datetime,
                timezone,
                string,
                is_recurring: recurring is Some,
            },
        )
    }
}

/// The day the due fields name (see `due_day_choice`).
pub fn due_day_from_editor(
    editor: &TaskEditorState,
    recurrence_read: Option<TaskDue>,
    phrase_day: Option<CalendarDate>,
) -> (r: Result<Option<(CalendarDate, Option<TaskDue>)>, String>)
    ensures
        match r {
            Ok(Some((date, recurring))) => due_day_choice(editor@, recurrence_read, phrase_day) == Ok::<
                Option<(int, Option<TaskDue>)>,
                Seq<char>,
            >(Some((date.day_number as int, recurring))),
            Ok(None) => due_day_choice(editor@, recurrence_read, phrase_day) == Ok::<
                Option<(int, Option<TaskDue>)>,
                Seq<char>,
            >(None),
            Err(m) => due_day_choice(editor@, recurrence_read, phrase_day) == Err::<
                Option<(int, Option<TaskDue>)>,
                Seq<char>,
            >(m@),
        },
{
    let d = trim_chars(editor.due_date.value.as_slice());
    let t = trim_chars(editor.due_time.value.as_slice());
    let r = trim_chars(editor.recurrence.value.as_slice());
    if d.len() == 0 && t.len() == 0 && r.len() == 0 {
        return Ok(None);
    }
    let recurring = if r.len() == 0 {
        None
    } else {
        match recurrence_read {
            Some(x) => if x.is_recurring {
                Some(x)
            } else {
                return Err(string_from(
                    chars_of("recurring pattern must use a Todoist-style recurring phrase").as_slice(),
                ));
            },
            None => {
                return Err(string_from(
                    chars_of("recurring pattern must use a Todoist-style recurring phrase").as_slice(),
                ));
            },
        }
    };
    if d.len() == 0 {
        return match recurring {
            Some(x) => {
                let date = x.date;
                Ok(Some((date, Some(x))))
            },
            None => Err(string_from(chars_of("due date is required when a due time is set").as_slice())),
        };
    }
    let text = string_from(d.as_slice());
    match parse_iso_date(text.as_str()) {
        Some(date) => Ok(Some((date, recurring))),
        None => match phrase_day {
            Some(date) => Ok(Some((date, recurring))),
            None => {
                let message = concat_chars(chars_of("invalid due date: ").as_slice(), d.as_slice());
                Err(string_from(message.as_slice()))
            },
        },
    }
}

/// The due date on `date` that the fields name (see `due_from_fields`).
pub fn due_from_editor(
    editor: &TaskEditorState,
    date: CalendarDate,
    recurring: Option<TaskDue>,
    timed: Option<(i64, String)>,
    zone: Option<String>,
) -> (r: Result<TaskDue, String>)
    ensures
        match r {
            Ok(due) => due_from_fields(
                editor@,
                date.day_number as int,
                recurring,
                match timed {
                    Some((m, c)) => Some((m, c@)),
                    None => None,
                },
                opt_text(zone),
            ) == Ok::<DueModel, Seq<char>>(due_model(due)),
            Err(m) => due_from_fields(
                editor@,
                date.day_number as int,
                recurring,
                match timed {
                    Some((m, c)) => Some((m, c@)),
                    None => None,
                },
                opt_text(zone),
            ) == Err::<DueModel, Seq<char>>(m@),
        },
{
    let d = trim_chars(editor.due_date.value.as_slice());
    let t = trim_chars(editor.due_time.value.as_slice());
    let r = trim_chars(editor.recurrence.value.as_slice());
    let n = trim_chars(editor.due_natural.as_slice());
    let day_text = match date_text(date) {
        Some(s) => chars_of(s.as_str()),
        None => Vec::new(),
    };
    let is_recurring = recurring.is_some();
    let (datetime, clock) = if t.len() > 0 {
        match timed {
            Some((m, c)) => (Some(m), Some(c)),
            None => {
                let message = concat_chars(chars_of("invalid due time: ").as_slice(), t.as_slice());
                return Err(string_from(message.as_slice()));
            },
        }
    } else if d.len() == 0 {
        match &recurring {
            Some(x) => (x.datetime, None),
            None => (None, None),
        }
    } else {
        (None, None)
    };
    let timezone = if t.len() > 0 {
        zone
    } else {
        match recurring {
            Some(x) => x.timezone,
            None => None,
        }
    };
    let string = if n.len() > 0 {
        string_from(n.as_slice())
    } else if r.len() > 0 {
        string_from(r.as_slice())
    } else {
        match clock {
            Some(c) => {
                let head = concat_chars(day_text.as_slice(), chars_of(" at ").as_slice());
                string_from(concat_chars(head.as_slice(), chars_of(c.as_str()).as_slice()).as_slice())
            },
            None => string_from(day_text.as_slice()),
        }
    };
    Ok(TaskDue { date, datetime, timezone, string, is_recurring })
}

} // verus!
