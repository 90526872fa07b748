//! The things the task manager keeps: tasks, projects, tags, saved filters and
//! focus sessions, with the names under which their kinds are stored.
//!
//! Instants are counted in milliseconds since the Unix epoch and calendar
//! days by [`CalendarDate`]; both are plain integers so that the rules over
//! them can be stated and checked.
use vstd::prelude::*;

use chrono::Datelike;

use crate::text::str_eq;

verus! {

/// The identifier of a task.
#[derive(Debug, Clone, Copy, PartialEq, Eq, Hash, Structural)]
pub struct TaskId(pub i64);

/// The identifier of a project.
#[derive(Debug, Clone, Copy, PartialEq, Eq, Hash, Structural)]
pub struct ProjectId(pub i64);

/// The identifier of a tag.
#[derive(Debug, Clone, Copy, PartialEq, Eq, Hash, Structural)]
pub struct TagId(pub i64);

/// The identifier of a saved filter.
#[derive(Debug, Clone, Copy, PartialEq, Eq, Hash, Structural)]
pub struct FilterId(pub i64);

/// The identifier of a focus session.
#[derive(Debug, Clone, Copy, PartialEq, Eq, Hash, Structural)]
pub struct PomodoroId(pub i64);

/// The number that `chrono` gives a calendar day (`num_days_from_ce`) for a
/// year, month and day, or `None` where no such day exists or it lies outside
/// the range that `chrono` represents.
pub uninterp spec fn ymd_day_number(year: int, month: int, day: int) -> Option<int>;

/// `NaiveDate::from_ymd_opt(year, month, day)` read as its day number
/// (`num_days_from_ce`). Claimed: the result is `ymd_day_number` of the
/// arguments.
#[verifier::external_body]
fn day_number_from_ymd(year: i32, month: u32, day: u32) -> (r: Option<i32>)
    ensures
        match r {
            Some(n) => ymd_day_number(year as int, month as int, day as int) == Some(n as int),
            None => ymd_day_number(year as int, month as int, day as int) is None,
        },
{
    chrono::NaiveDate::from_ymd_opt(year, month, day).map(|date| date.num_days_from_ce())
}

/// A calendar day, counted as `chrono` counts days from the start of the
/// common era (1 January of year 1 is day 1). Later days have larger numbers.
#[derive(Debug, Clone, Copy, PartialEq, Eq, Hash, Structural)]
pub struct CalendarDate {
    pub day_number: i32,
}

impl CalendarDate {
    /// The day with the given year, month and day, where it exists.
    pub fn from_ymd(year: i32, month: u32, day: u32) -> (r: Option<CalendarDate>)
        ensures
            match r {
                Some(d) => ymd_day_number(year as int, month as int, day as int) == Some(
                    d.day_number as int,
                ),
                None => ymd_day_number(year as int, month as int, day as int) is None,
            },
    {
        match day_number_from_ymd(year, month, day) {
            Some(n) => Some(CalendarDate { day_number: n }),
            None => None,
        }
    }

    /// Whether this day comes before `other`.
    pub fn is_before(self, other: CalendarDate) -> (r: bool)
        ensures
            r == (self.day_number < other.day_number),
    {
        self.day_number < other.day_number
    }
}

/// Whether a task is still to do or done.
#[derive(Debug, Clone, Copy, PartialEq, Eq, Structural)]
pub enum TaskStatus {
    Todo,
    Done,
}

pub open spec fn task_status_db_name(s: TaskStatus) -> Seq<char> {
    match s {
        TaskStatus::Todo => "todo"@,
        TaskStatus::Done => "done"@,
    }
}

impl TaskStatus {
    /// The name under which the status is stored.
    pub fn as_str(&self) -> (r: &'static str)
        ensures
            r@ == task_status_db_name(*self),
    {
        match self {
            Self::Todo => "todo",
            Self::Done => "done",
        }
    }

    /// The status that a stored name stands for; anything but `done` is to do.
    pub fn from_db(value: &str) -> (r: Self)
        ensures
            r == (if value@ == "done"@ {
                TaskStatus::Done
            } else {
                TaskStatus::Todo
            }),
    {
        if str_eq(value, "done") {
            Self::Done
        } else {
            Self::Todo
        }
    }
}

/// Reading back the stored name of a status gives the status.
pub proof fn task_status_db_round_trip(s: TaskStatus)
    ensures
        (if task_status_db_name(s) == "done"@ {
            TaskStatus::Done
        } else {
            TaskStatus::Todo
        }) == s,
{
    reveal_strlit("todo");
    reveal_strlit("done");
    assert("todo"@[0] == 't' && "done"@[0] == 'd');
}

/// The urgency of a task: P1 is the most urgent, P4 the least.
#[derive(Debug, Clone, Copy, PartialEq, Eq, Hash, Structural)]
pub enum TaskPriority {
    P1,
    P2,
    P3,
    P4,
}

/// The name shown for a priority.
pub open spec fn priority_label(p: TaskPriority) -> Seq<char> {
    match p {
        TaskPriority::P1 => "P1"@,
        TaskPriority::P2 => "P2"@,
        TaskPriority::P3 => "P3"@,
        TaskPriority::P4 => "P4"@,
    }
}

pub open spec fn priority_level(p: TaskPriority) -> u8 {
    match p {
        TaskPriority::P1 => 1,
        TaskPriority::P2 => 2,
        TaskPriority::P3 => 3,
        TaskPriority::P4 => 4,
    }
}

/// The priority with a level; levels other than 1, 2 and 3 give P4.
pub open spec fn priority_from_level(level: int) -> TaskPriority {
    if level == 1 {
        TaskPriority::P1
    } else if level == 2 {
        TaskPriority::P2
    } else if level == 3 {
        TaskPriority::P3
    } else {
        TaskPriority::P4
    }
}

impl TaskPriority {
    /// The priority's level, from 1 (most urgent) to 4.
    pub fn level(self) -> (r: u8)
        ensures
            r == priority_level(self),
    {
        match self {
            Self::P1 => 1,
            Self::P2 => 2,
            Self::P3 => 3,
            Self::P4 => 4,
        }
    }

    /// The priority with a level; levels other than 1, 2 and 3 give P4.
    pub fn from_level(level: u8) -> (r: Self)
        ensures
            r == priority_from_level(level as int),
    {
        match level {
            1 => Self::P1,
            2 => Self::P2,
            3 => Self::P3,
            _ => Self::P4,
        }
    }

    /// The priority that a stored level stands for; unknown levels give P4.
    pub fn from_db(value: i64) -> (r: Self)
        ensures
            r == priority_from_level(value as int),
    {
        match value {
            1 => Self::P1,
            2 => Self::P2,
            3 => Self::P3,
            4 => Self::P4,
            _ => Self::P4,
        }
    }

    /// The level under which the priority is stored.
    pub fn to_db(self) -> (r: i64)
        ensures
            r == priority_level(self) as i64,
    {
        self.level() as i64
    }

    /// The name shown for the priority: `P1` to `P4`.
    pub fn label(self) -> (r: &'static str)
        ensures
            r@ == priority_label(self),
    {
        match self {
            Self::P1 => "P1",
            Self::P2 => "P2",
            Self::P3 => "P3",
            Self::P4 => "P4",
        }
    }
}

impl Default for TaskPriority {
    /// A task without an explicit priority has P4.
    fn default() -> (r: Self)
        ensures
            r == TaskPriority::P4,
    {
        Self::P4
    }
}

/// A priority's level leads back to the priority, both through `from_level`
/// and through the stored form.
pub proof fn priority_level_round_trip(p: TaskPriority)
    ensures
        priority_from_level(priority_level(p) as int) == p,
        1 <= priority_level(p) <= 4,
{
}

/// When a task falls due.
#[derive(Debug, Clone, PartialEq, Eq)]
pub struct TaskDue {
    pub date: CalendarDate,
    /// The moment it falls due, in milliseconds since the Unix epoch, where a
    /// time of day was given.
    pub datetime: Option<i64>,
    pub timezone: Option<String>,
    pub string: String,
    pub is_recurring: bool,
}

/// A task. Instants are in milliseconds since the Unix epoch.
#[derive(Debug, Clone, PartialEq, Eq)]
pub struct Task {
    pub id: TaskId,
    pub project_id: ProjectId,
    pub parent_task_id: Option<TaskId>,
    pub child_order: i64,
    pub title: String,
    pub description: String,
    pub status: TaskStatus,
    pub priority: TaskPriority,
    pub created_at: i64,
    pub completed_at: Option<i64>,
    pub deleted_at: Option<i64>,
    pub due: Option<TaskDue>,
}

/// The fields of a task that an edit can change.
#[derive(Debug, Clone, PartialEq, Eq)]
pub struct TaskUpdate {
    pub title: String,
    pub description: String,
    pub project_id: ProjectId,
    pub parent_task_id: Option<TaskId>,
    pub priority: TaskPriority,
    pub due: Option<TaskDue>,
}

/// A project. Instants are in milliseconds since the Unix epoch.
#[derive(Debug, Clone, PartialEq, Eq)]
pub struct Project {
    pub id: ProjectId,
    pub name: String,
    pub parent_project_id: Option<ProjectId>,
    pub color: ProjectColor,
    pub is_favorite: bool,
    pub is_inbox: bool,
    pub child_order: i64,
    pub created_at: i64,
    pub deleted_at: Option<i64>,
}

/// The fields of a project that an edit can change.
#[derive(Debug, Clone, PartialEq, Eq)]
pub struct ProjectUpdate {
    pub name: String,
    pub parent_project_id: Option<ProjectId>,
    pub color: ProjectColor,
    pub is_favorite: bool,
}

/// A tag. Instants are in milliseconds since the Unix epoch.
#[derive(Debug, Clone, PartialEq, Eq)]
pub struct Tag {
    pub id: TagId,
    pub name: String,
    pub color: TagColor,
    pub is_favorite: bool,
    pub item_order: i64,
    pub created_at: i64,
    pub deleted_at: Option<i64>,
}

/// The fields of a tag that an edit can change.
#[derive(Debug, Clone, PartialEq, Eq)]
pub struct TagUpdate {
    pub name: String,
    pub color: TagColor,
    pub is_favorite: bool,
}

/// A saved filter. Instants are in milliseconds since the Unix epoch.
#[derive(Debug, Clone, PartialEq, Eq)]
pub struct Filter {
    pub id: FilterId,
    pub name: String,
    pub query: String,
    pub color: FilterColor,
    pub is_favorite: bool,
    pub item_order: i64,
    pub created_at: i64,
    pub deleted_at: Option<i64>,
}

/// The fields of a saved filter that an edit can change.
#[derive(Debug, Clone, PartialEq, Eq)]
pub struct FilterUpdate {
    pub name: String,
    pub query: String,
    pub color: FilterColor,
    pub is_favorite: bool,
}

/// The kind of a recorded session.
#[derive(Debug, Clone, Copy, PartialEq, Eq, Structural)]
pub enum SessionKind {
    Focus,
    ShortBreak,
    LongBreak,
}

pub open spec fn session_kind_db_name(k: SessionKind) -> Seq<char> {
    match k {
        SessionKind::Focus => "focus"@,
        SessionKind::ShortBreak => "short_break"@,
        SessionKind::LongBreak => "long_break"@,
    }
}

/// The session kind that a stored name stands for; `work`, `focus` and
/// unknown names give a focus session.
pub open spec fn session_kind_from_db_name(value: Seq<char>) -> SessionKind {
    if value == "short_break"@ {
        SessionKind::ShortBreak
    } else if value == "long_break"@ {
        SessionKind::LongBreak
    } else {
        SessionKind::Focus
    }
}

impl SessionKind {
    /// The name under which the kind is stored.
    pub fn as_str(&self) -> (r: &'static str)
        ensures
            r@ == session_kind_db_name(*self),
    {
        match self {
            Self::Focus => "focus",
            Self::ShortBreak => "short_break",
            Self::LongBreak => "long_break",
        }
    }

    /// The kind that a stored name stands for.
    pub fn from_db(value: &str) -> (r: Self)
        ensures
            r == session_kind_from_db_name(value@),
    {
        if str_eq(value, "short_break") {
            Self::ShortBreak
        } else if str_eq(value, "long_break") {
            Self::LongBreak
        } else {
            Self::Focus
        }
    }
}

/// Reading back the stored name of a session kind gives the kind.
pub proof fn session_kind_db_round_trip(k: SessionKind)
    ensures
        session_kind_from_db_name(session_kind_db_name(k)) == k,
{
    reveal_strlit("focus");
    reveal_strlit("short_break");
    reveal_strlit("long_break");
    assert("focus"@.len() == 5 && "short_break"@.len() == 11 && "long_break"@.len() == 10);
}

/// How a recorded session ended.
#[derive(Debug, Clone, Copy, PartialEq, Eq, Structural)]
pub enum SessionOutcome {
    Completed,
    Voided,
}

pub open spec fn session_outcome_db_name(o: SessionOutcome) -> Seq<char> {
    match o {
        SessionOutcome::Completed => "completed"@,
        SessionOutcome::Voided => "voided"@,
    }
}

/// The outcome that a stored name stands for; anything but `voided` is
/// completed.
pub open spec fn session_outcome_from_db_name(value: Seq<char>) -> SessionOutcome {
    if value == "voided"@ {
        SessionOutcome::Voided
    } else {
        SessionOutcome::Completed
    }
}

impl SessionOutcome {
    /// The name under which the outcome is stored.
    pub fn as_str(&self) -> (r: &'static str)
        ensures
            r@ == session_outcome_db_name(*self),
    {
        match self {
            Self::Completed => "completed",
            Self::Voided => "voided",
        }
    }

    /// The outcome that a stored name stands for.
    pub fn from_db(value: &str) -> (r: Self)
        ensures
            r == session_outcome_from_db_name(value@),
    {
        if str_eq(value, "voided") {
            Self::Voided
        } else {
            Self::Completed
        }
    }
}

/// Reading back the stored name of an outcome gives the outcome.
pub proof fn session_outcome_db_round_trip(o: SessionOutcome)
    ensures
        session_outcome_from_db_name(session_outcome_db_name(o)) == o,
{
    reveal_strlit("completed");
    reveal_strlit("voided");
    assert("completed"@.len() == 9 && "voided"@.len() == 6);
}

/// A recorded focus or break session. Instants are in milliseconds since the
/// Unix epoch.
#[derive(Debug, Clone, PartialEq, Eq)]
pub struct SessionEntry {
    pub id: i64,
    pub task_id: Option<TaskId>,
    pub notes: String,
    pub kind: SessionKind,
    pub outcome: SessionOutcome,
    pub next_break_kind: Option<SessionKind>,
    pub started_at: i64,
    pub ended_at: i64,
    pub duration_seconds: u32,
}

/// What one day of history holds.
#[derive(Debug, Clone, PartialEq, Eq)]
pub struct DayHistorySummary {
    pub day: CalendarDate,
    pub completed_sessions: usize,
    pub voided_sessions: usize,
    pub focus_seconds: u32,
    pub break_seconds: u32,
}

/// The focus time of one day.
#[derive(Debug, Clone, PartialEq, Eq)]
pub struct FocusDaySummary {
    pub day: CalendarDate,
    pub focus_seconds: u32,
}

/// The focus time spent in one hour of the day.
#[derive(Debug, Clone, PartialEq, Eq)]
pub struct FocusHourSummary {
    pub hour: u8,
    pub focus_seconds: u32,
}

/// Totals over a span of history.
#[derive(Debug, Clone, PartialEq, Eq, Default)]
pub struct HistoryStats {
    pub total_sessions: usize,
    pub total_minutes: u32,
    pub total_work_seconds: u32,
    pub total_break_seconds: u32,
    pub completed_tasks: usize,
}

/// The colour of a project.
#[derive(Debug, Clone, Copy, PartialEq, Eq, Hash, Structural)]
pub enum ProjectColor {
    BerryRed,
    Red,
    Orange,
    Yellow,
    OliveGreen,
    LimeGreen,
    Green,
    MintGreen,
    Teal,
    SkyBlue,
    LightBlue,
    Blue,
    Grape,
    Violet,
    Lavender,
    Magenta,
    Salmon,
    Charcoal,
    Grey,
    Taupe,
}

/// The name under which a project colour is stored.
pub open spec fn project_color_db_name(c: ProjectColor) -> Seq<char> {
    match c {
        ProjectColor::BerryRed => "berry_red"@,
        ProjectColor::Red => "red"@,
        ProjectColor::Orange => "orange"@,
        ProjectColor::Yellow => "yellow"@,
        ProjectColor::OliveGreen => "olive_green"@,
        ProjectColor::LimeGreen => "lime_green"@,
        ProjectColor::Green => "green"@,
        ProjectColor::MintGreen => "mint_green"@,
        ProjectColor::Teal => "teal"@,
        ProjectColor::SkyBlue => "sky_blue"@,
        ProjectColor::LightBlue => "light_blue"@,
        ProjectColor::Blue => "blue"@,
        ProjectColor::Grape => "grape"@,
        ProjectColor::Violet => "violet"@,
        ProjectColor::Lavender => "lavender"@,
        ProjectColor::Magenta => "magenta"@,
        ProjectColor::Salmon => "salmon"@,
        ProjectColor::Charcoal => "charcoal"@,
        ProjectColor::Grey => "grey"@,
        ProjectColor::Taupe => "taupe"@,
    }
}

/// The name under which a project colour is shown.
/// The project colours, in the order the editor offers them.
pub open spec fn project_colors() -> Seq<ProjectColor> {
    seq![ProjectColor::BerryRed, ProjectColor::Red, ProjectColor::Orange, ProjectColor::Yellow, ProjectColor::OliveGreen, ProjectColor::LimeGreen, ProjectColor::Green, ProjectColor::MintGreen, ProjectColor::Teal, ProjectColor::SkyBlue, ProjectColor::LightBlue, ProjectColor::Blue, ProjectColor::Grape, ProjectColor::Violet, ProjectColor::Lavender, ProjectColor::Magenta, ProjectColor::Salmon, ProjectColor::Charcoal, ProjectColor::Grey, ProjectColor::Taupe]
}

pub open spec fn project_color_label(c: ProjectColor) -> Seq<char> {
    match c {
        ProjectColor::BerryRed => "Berry Red"@,
        ProjectColor::Red => "Red"@,
        ProjectColor::Orange => "Orange"@,
        ProjectColor::Yellow => "Yellow"@,
        ProjectColor::OliveGreen => "Olive Green"@,
        ProjectColor::LimeGreen => "Lime Green"@,
        ProjectColor::Green => "Green"@,
        ProjectColor::MintGreen => "Mint Green"@,
        ProjectColor::Teal => "Teal"@,
        ProjectColor::SkyBlue => "Sky Blue"@,
        ProjectColor::LightBlue => "Light Blue"@,
        ProjectColor::Blue => "Blue"@,
        ProjectColor::Grape => "Grape"@,
        ProjectColor::Violet => "Violet"@,
        ProjectColor::Lavender => "Lavender"@,
        ProjectColor::Magenta => "Magenta"@,
        ProjectColor::Salmon => "Salmon"@,
        ProjectColor::Charcoal => "Charcoal"@,
        ProjectColor::Grey => "Grey"@,
        ProjectColor::Taupe => "Taupe"@,
    }
}

/// No two project colours share a label.
pub proof fn project_color_labels_distinct(a: ProjectColor, b: ProjectColor)
    requires
        project_color_label(a) == project_color_label(b),
    ensures
        a == b,
{
    reveal_strlit("Berry Red");
    reveal_strlit("Red");
    reveal_strlit("Orange");
    reveal_strlit("Yellow");
    reveal_strlit("Olive Green");
    reveal_strlit("Lime Green");
    reveal_strlit("Green");
    reveal_strlit("Mint Green");
    reveal_strlit("Teal");
    reveal_strlit("Sky Blue");
    reveal_strlit("Light Blue");
    reveal_strlit("Blue");
    reveal_strlit("Grape");
    reveal_strlit("Violet");
    reveal_strlit("Lavender");
    reveal_strlit("Magenta");
    reveal_strlit("Salmon");
    reveal_strlit("Charcoal");
    reveal_strlit("Grey");
    reveal_strlit("Taupe");
    let s = project_color_label(a);
    assert(s.len() == project_color_label(b).len());
    assert(s.len() > 0 ==> s[0] == project_color_label(b)[0]);
    assert(s.len() > 0 ==> s[s.len() - 1] == project_color_label(b)[s.len() - 1]);
}

/// The project colour that a stored name stands for; an unknown name gives charcoal.
pub open spec fn project_color_from_db_name(value: Seq<char>) -> ProjectColor {
    if value == "berry_red"@ {
        ProjectColor::BerryRed
    } else if value == "red"@ {
        ProjectColor::Red
    } else if value == "orange"@ {
        ProjectColor::Orange
    } else if value == "yellow"@ {
        ProjectColor::Yellow
    } else if value == "olive_green"@ {
        ProjectColor::OliveGreen
    } else if value == "lime_green"@ {
        ProjectColor::LimeGreen
    } else if value == "green"@ {
        ProjectColor::Green
    } else if value == "mint_green"@ {
        ProjectColor::MintGreen
    } else if value == "teal"@ {
        ProjectColor::Teal
    } else if value == "sky_blue"@ {
        ProjectColor::SkyBlue
    } else if value == "light_blue"@ {
        ProjectColor::LightBlue
    } else if value == "blue"@ {
        ProjectColor::Blue
    } else if value == "grape"@ {
        ProjectColor::Grape
    } else if value == "violet"@ {
        ProjectColor::Violet
    } else if value == "lavender"@ {
        ProjectColor::Lavender
    } else if value == "magenta"@ {
        ProjectColor::Magenta
    } else if value == "salmon"@ {
        ProjectColor::Salmon
    } else if value == "charcoal"@ {
        ProjectColor::Charcoal
    } else if value == "grey"@ {
        ProjectColor::Grey
    } else if value == "taupe"@ {
        ProjectColor::Taupe
    } else {
        ProjectColor::Charcoal
    }
}

impl ProjectColor {
    /// Every colour, in the order the pickers offer them.
    pub fn all() -> (r: &'static [Self])
        ensures
            r@ == project_colors(),
    {
        &[Self::BerryRed, Self::Red, Self::Orange, Self::Yellow, Self::OliveGreen, Self::LimeGreen, Self::Green, Self::MintGreen, Self::Teal, Self::SkyBlue, Self::LightBlue, Self::Blue, Self::Grape, Self::Violet, Self::Lavender, Self::Magenta, Self::Salmon, Self::Charcoal, Self::Grey, Self::Taupe]
    }

    /// The name under which the colour is stored.
    pub fn as_str(self) -> (r: &'static str)
        ensures
            r@ == project_color_db_name(self),
    {
        match self {
            Self::BerryRed => "berry_red",
            Self::Red => "red",
            Self::Orange => "orange",
            Self::Yellow => "yellow",
            Self::OliveGreen => "olive_green",
            Self::LimeGreen => "lime_green",
            Self::Green => "green",
            Self::MintGreen => "mint_green",
            Self::Teal => "teal",
            Self::SkyBlue => "sky_blue",
            Self::LightBlue => "light_blue",
            Self::Blue => "blue",
            Self::Grape => "grape",
            Self::Violet => "violet",
            Self::Lavender => "lavender",
            Self::Magenta => "magenta",
            Self::Salmon => "salmon",
            Self::Charcoal => "charcoal",
            Self::Grey => "grey",
            Self::Taupe => "taupe",
        }
    }

    /// The name under which the colour is shown.
    pub fn label(self) -> (r: &'static str)
        ensures
            r@ == project_color_label(self),
    {
        match self {
            Self::BerryRed => "Berry Red",
            Self::Red => "Red",
            Self::Orange => "Orange",
            Self::Yellow => "Yellow",
            Self::OliveGreen => "Olive Green",
            Self::LimeGreen => "Lime Green",
            Self::Green => "Green",
            Self::MintGreen => "Mint Green",
            Self::Teal => "Teal",
            Self::SkyBlue => "Sky Blue",
            Self::LightBlue => "Light Blue",
            Self::Blue => "Blue",
            Self::Grape => "Grape",
            Self::Violet => "Violet",
            Self::Lavender => "Lavender",
            Self::Magenta => "Magenta",
            Self::Salmon => "Salmon",
            Self::Charcoal => "Charcoal",
            Self::Grey => "Grey",
            Self::Taupe => "Taupe",
        }
    }

    /// The colour that a stored name stands for; an unknown name gives charcoal.
    pub fn from_db(value: &str) -> (r: Self)
        ensures
            r == project_color_from_db_name(value@),
    {
        if str_eq(value, "berry_red") {
            Self::BerryRed
        } else if str_eq(value, "red") {
            Self::Red
        } else if str_eq(value, "orange") {
            Self::Orange
        } else if str_eq(value, "yellow") {
            Self::Yellow
        } else if str_eq(value, "olive_green") {
            Self::OliveGreen
        } else if str_eq(value, "lime_green") {
            Self::LimeGreen
        } else if str_eq(value, "green") {
            Self::Green
        } else if str_eq(value, "mint_green") {
            Self::MintGreen
        } else if str_eq(value, "teal") {
            Self::Teal
        } else if str_eq(value, "sky_blue") {
            Self::SkyBlue
        } else if str_eq(value, "light_blue") {
            Self::LightBlue
        } else if str_eq(value, "blue") {
            Self::Blue
        } else if str_eq(value, "grape") {
            Self::Grape
        } else if str_eq(value, "violet") {
            Self::Violet
        } else if str_eq(value, "lavender") {
            Self::Lavender
        } else if str_eq(value, "magenta") {
            Self::Magenta
        } else if str_eq(value, "salmon") {
            Self::Salmon
        } else if str_eq(value, "charcoal") {
            Self::Charcoal
        } else if str_eq(value, "grey") {
            Self::Grey
        } else if str_eq(value, "taupe") {
            Self::Taupe
        } else {
            Self::Charcoal
        }
    }
}

/// Reading back the stored name of a project colour gives the colour.
pub proof fn project_color_db_round_trip(c: ProjectColor)
    ensures
        project_color_from_db_name(project_color_db_name(c)) == c,
{
    reveal_strlit("berry_red");
    reveal_strlit("red");
    reveal_strlit("orange");
    reveal_strlit("yellow");
    reveal_strlit("olive_green");
    reveal_strlit("lime_green");
    reveal_strlit("green");
    reveal_strlit("mint_green");
    reveal_strlit("teal");
    reveal_strlit("sky_blue");
    reveal_strlit("light_blue");
    reveal_strlit("blue");
    reveal_strlit("grape");
    reveal_strlit("violet");
    reveal_strlit("lavender");
    reveal_strlit("magenta");
    reveal_strlit("salmon");
    reveal_strlit("charcoal");
    reveal_strlit("grey");
    reveal_strlit("taupe");
    assert("berry_red"@.len() == 9 && "berry_red"@[0] == 'b' && "berry_red"@[1] == 'e' && "berry_red"@[2] == 'r');
    assert("red"@.len() == 3 && "red"@[0] == 'r' && "red"@[1] == 'e' && "red"@[2] == 'd');
    assert("orange"@.len() == 6 && "orange"@[0] == 'o' && "orange"@[1] == 'r' && "orange"@[2] == 'a');
    assert("yellow"@.len() == 6 && "yellow"@[0] == 'y' && "yellow"@[1] == 'e' && "yellow"@[2] == 'l');
    assert("olive_green"@.len() == 11 && "olive_green"@[0] == 'o' && "olive_green"@[1] == 'l' && "olive_green"@[2] == 'i');
    assert("lime_green"@.len() == 10 && "lime_green"@[0] == 'l' && "lime_green"@[1] == 'i' && "lime_green"@[2] == 'm');
    assert("green"@.len() == 5 && "green"@[0] == 'g' && "green"@[1] == 'r' && "green"@[2] == 'e');
    assert("mint_green"@.len() == 10 && "mint_green"@[0] == 'm' && "mint_green"@[1] == 'i' && "mint_green"@[2] == 'n');
    assert("teal"@.len() == 4 && "teal"@[0] == 't' && "teal"@[1] == 'e' && "teal"@[2] == 'a');
    assert("sky_blue"@.len() == 8 && "sky_blue"@[0] == 's' && "sky_blue"@[1] == 'k' && "sky_blue"@[2] == 'y');
    assert("light_blue"@.len() == 10 && "light_blue"@[0] == 'l' && "light_blue"@[1] == 'i' && "light_blue"@[2] == 'g');
    assert("blue"@.len() == 4 && "blue"@[0] == 'b' && "blue"@[1] == 'l' && "blue"@[2] == 'u');
    assert("grape"@.len() == 5 && "grape"@[0] == 'g' && "grape"@[1] == 'r' && "grape"@[2] == 'a');
    assert("violet"@.len() == 6 && "violet"@[0] == 'v' && "violet"@[1] == 'i' && "violet"@[2] == 'o');
    assert("lavender"@.len() == 8 && "lavender"@[0] == 'l' && "lavender"@[1] == 'a' && "lavender"@[2] == 'v');
    assert("magenta"@.len() == 7 && "magenta"@[0] == 'm' && "magenta"@[1] == 'a' && "magenta"@[2] == 'g');
    assert("salmon"@.len() == 6 && "salmon"@[0] == 's' && "salmon"@[1] == 'a' && "salmon"@[2] == 'l');
    assert("charcoal"@.len() == 8 && "charcoal"@[0] == 'c' && "charcoal"@[1] == 'h' && "charcoal"@[2] == 'a');
    assert("grey"@.len() == 4 && "grey"@[0] == 'g' && "grey"@[1] == 'r' && "grey"@[2] == 'e');
    assert("taupe"@.len() == 5 && "taupe"@[0] == 't' && "taupe"@[1] == 'a' && "taupe"@[2] == 'u');
}

/// The colour of a tag.
#[derive(Debug, Clone, Copy, PartialEq, Eq, Hash, Structural)]
pub enum TagColor {
    BerryRed,
    Red,
    Orange,
    Yellow,
    OliveGreen,
    LimeGreen,
    Green,
    MintGreen,
    Teal,
    SkyBlue,
    LightBlue,
    Blue,
    Grape,
    Violet,
    Lavender,
    Magenta,
    Salmon,
    Charcoal,
    Grey,
    Taupe,
}

/// The name under which a tag colour is stored.
pub open spec fn tag_color_db_name(c: TagColor) -> Seq<char> {
    match c {
        TagColor::BerryRed => "berry_red"@,
        TagColor::Red => "red"@,
        TagColor::Orange => "orange"@,
        TagColor::Yellow => "yellow"@,
        TagColor::OliveGreen => "olive_green"@,
        TagColor::LimeGreen => "lime_green"@,
        TagColor::Green => "green"@,
        TagColor::MintGreen => "mint_green"@,
        TagColor::Teal => "teal"@,
        TagColor::SkyBlue => "sky_blue"@,
        TagColor::LightBlue => "light_blue"@,
        TagColor::Blue => "blue"@,
        TagColor::Grape => "grape"@,
        TagColor::Violet => "violet"@,
        TagColor::Lavender => "lavender"@,
        TagColor::Magenta => "magenta"@,
        TagColor::Salmon => "salmon"@,
        TagColor::Charcoal => "charcoal"@,
        TagColor::Grey => "grey"@,
        TagColor::Taupe => "taupe"@,
    }
}

/// The name under which a tag colour is shown.
/// The tag colours, in the order the editor offers them.
pub open spec fn tag_colors() -> Seq<TagColor> {
    seq![TagColor::BerryRed, TagColor::Red, TagColor::Orange, TagColor::Yellow, TagColor::OliveGreen, TagColor::LimeGreen, TagColor::Green, TagColor::MintGreen, TagColor::Teal, TagColor::SkyBlue, TagColor::LightBlue, TagColor::Blue, TagColor::Grape, TagColor::Violet, TagColor::Lavender, TagColor::Magenta, TagColor::Salmon, TagColor::Charcoal, TagColor::Grey, TagColor::Taupe]
}

pub open spec fn tag_color_label(c: TagColor) -> Seq<char> {
    match c {
        TagColor::BerryRed => "Berry Red"@,
        TagColor::Red => "Red"@,
        TagColor::Orange => "Orange"@,
        TagColor::Yellow => "Yellow"@,
        TagColor::OliveGreen => "Olive Green"@,
        TagColor::LimeGreen => "Lime Green"@,
        TagColor::Green => "Green"@,
        TagColor::MintGreen => "Mint Green"@,
        TagColor::Teal => "Teal"@,
        TagColor::SkyBlue => "Sky Blue"@,
        TagColor::LightBlue => "Light Blue"@,
        TagColor::Blue => "Blue"@,
        TagColor::Grape => "Grape"@,
        TagColor::Violet => "Violet"@,
        TagColor::Lavender => "Lavender"@,
        TagColor::Magenta => "Magenta"@,
        TagColor::Salmon => "Salmon"@,
        TagColor::Charcoal => "Charcoal"@,
        TagColor::Grey => "Grey"@,
        TagColor::Taupe => "Taupe"@,
    }
}

/// No two tag colours share a label.
pub proof fn tag_color_labels_distinct(a: TagColor, b: TagColor)
    requires
        tag_color_label(a) == tag_color_label(b),
    ensures
        a == b,
{
    reveal_strlit("Berry Red");
    reveal_strlit("Red");
    reveal_strlit("Orange");
    reveal_strlit("Yellow");
    reveal_strlit("Olive Green");
    reveal_strlit("Lime Green");
    reveal_strlit("Green");
    reveal_strlit("Mint Green");
    reveal_strlit("Teal");
    reveal_strlit("Sky Blue");
    reveal_strlit("Light Blue");
    reveal_strlit("Blue");
    reveal_strlit("Grape");
    reveal_strlit("Violet");
    reveal_strlit("Lavender");
    reveal_strlit("Magenta");
    reveal_strlit("Salmon");
    reveal_strlit("Charcoal");
    reveal_strlit("Grey");
    reveal_strlit("Taupe");
    let s = tag_color_label(a);
    assert(s.len() == tag_color_label(b).len());
    assert(s.len() > 0 ==> s[0] == tag_color_label(b)[0]);
    assert(s.len() > 0 ==> s[s.len() - 1] == tag_color_label(b)[s.len() - 1]);
}


/// The tag colour that a stored name stands for; an unknown name gives charcoal.
pub open spec fn tag_color_from_db_name(value: Seq<char>) -> TagColor {
    if value == "berry_red"@ {
        TagColor::BerryRed
    } else if value == "red"@ {
        TagColor::Red
    } else if value == "orange"@ {
        TagColor::Orange
    } else if value == "yellow"@ {
        TagColor::Yellow
    } else if value == "olive_green"@ {
        TagColor::OliveGreen
    } else if value == "lime_green"@ {
        TagColor::LimeGreen
    } else if value == "green"@ {
        TagColor::Green
    } else if value == "mint_green"@ {
        TagColor::MintGreen
    } else if value == "teal"@ {
        TagColor::Teal
    } else if value == "sky_blue"@ {
        TagColor::SkyBlue
    } else if value == "light_blue"@ {
        TagColor::LightBlue
    } else if value == "blue"@ {
        TagColor::Blue
    } else if value == "grape"@ {
        TagColor::Grape
    } else if value == "violet"@ {
        TagColor::Violet
    } else if value == "lavender"@ {
        TagColor::Lavender
    } else if value == "magenta"@ {
        TagColor::Magenta
    } else if value == "salmon"@ {
        TagColor::Salmon
    } else if value == "charcoal"@ {
        TagColor::Charcoal
    } else if value == "grey"@ {
        TagColor::Grey
    } else if value == "taupe"@ {
        TagColor::Taupe
    } else {
        TagColor::Charcoal
    }
}

impl TagColor {
    /// Every colour, in the order the pickers offer them.
    pub fn all() -> (r: &'static [Self])
        ensures
            r@ == tag_colors(),
    {
        &[Self::BerryRed, Self::Red, Self::Orange, Self::Yellow, Self::OliveGreen, Self::LimeGreen, Self::Green, Self::MintGreen, Self::Teal, Self::SkyBlue, Self::LightBlue, Self::Blue, Self::Grape, Self::Violet, Self::Lavender, Self::Magenta, Self::Salmon, Self::Charcoal, Self::Grey, Self::Taupe]
    }

    /// The name under which the colour is stored.
    pub fn as_str(self) -> (r: &'static str)
        ensures
            r@ == tag_color_db_name(self),
    {
        match self {
            Self::BerryRed => "berry_red",
            Self::Red => "red",
            Self::Orange => "orange",
            Self::Yellow => "yellow",
            Self::OliveGreen => "olive_green",
            Self::LimeGreen => "lime_green",
            Self::Green => "green",
            Self::MintGreen => "mint_green",
            Self::Teal => "teal",
            Self::SkyBlue => "sky_blue",
            Self::LightBlue => "light_blue",
            Self::Blue => "blue",
            Self::Grape => "grape",
            Self::Violet => "violet",
            Self::Lavender => "lavender",
            Self::Magenta => "magenta",
            Self::Salmon => "salmon",
            Self::Charcoal => "charcoal",
            Self::Grey => "grey",
            Self::Taupe => "taupe",
        }
    }

    /// The name under which the colour is shown.
    pub fn label(self) -> (r: &'static str)
        ensures
            r@ == tag_color_label(self),
    {
        match self {
            Self::BerryRed => "Berry Red",
            Self::Red => "Red",
            Self::Orange => "Orange",
            Self::Yellow => "Yellow",
            Self::OliveGreen => "Olive Green",
            Self::LimeGreen => "Lime Green",
            Self::Green => "Green",
            Self::MintGreen => "Mint Green",
            Self::Teal => "Teal",
            Self::SkyBlue => "Sky Blue",
            Self::LightBlue => "Light Blue",
            Self::Blue => "Blue",
            Self::Grape => "Grape",
            Self::Violet => "Violet",
            Self::Lavender => "Lavender",
            Self::Magenta => "Magenta",
            Self::Salmon => "Salmon",
            Self::Charcoal => "Charcoal",
            Self::Grey => "Grey",
            Self::Taupe => "Taupe",
        }
    }

    /// The colour that a stored name stands for; an unknown name gives charcoal.
    pub fn from_db(value: &str) -> (r: Self)
        ensures
            r == tag_color_from_db_name(value@),
    {
        if str_eq(value, "berry_red") {
            Self::BerryRed
        } else if str_eq(value, "red") {
            Self::Red
        } else if str_eq(value, "orange") {
            Self::Orange
        } else if str_eq(value, "yellow") {
            Self::Yellow
        } else if str_eq(value, "olive_green") {
            Self::OliveGreen
        } else if str_eq(value, "lime_green") {
            Self::LimeGreen
        } else if str_eq(value, "green") {
            Self::Green
        } else if str_eq(value, "mint_green") {
            Self::MintGreen
        } else if str_eq(value, "teal") {
            Self::Teal
        } else if str_eq(value, "sky_blue") {
            Self::SkyBlue
        } else if str_eq(value, "light_blue") {
            Self::LightBlue
        } else if str_eq(value, "blue") {
            Self::Blue
        } else if str_eq(value, "grape") {
            Self::Grape
        } else if str_eq(value, "violet") {
            Self::Violet
        } else if str_eq(value, "lavender") {
            Self::Lavender
        } else if str_eq(value, "magenta") {
            Self::Magenta
        } else if str_eq(value, "salmon") {
            Self::Salmon
        } else if str_eq(value, "charcoal") {
            Self::Charcoal
        } else if str_eq(value, "grey") {
            Self::Grey
        } else if str_eq(value, "taupe") {
            Self::Taupe
        } else {
            Self::Charcoal
        }
    }
}

/// Reading back the stored name of a tag colour gives the colour.
pub proof fn tag_color_db_round_trip(c: TagColor)
    ensures
        tag_color_from_db_name(tag_color_db_name(c)) == c,
{
    reveal_strlit("berry_red");
    reveal_strlit("red");
    reveal_strlit("orange");
    reveal_strlit("yellow");
    reveal_strlit("olive_green");
    reveal_strlit("lime_green");
    reveal_strlit("green");
    reveal_strlit("mint_green");
    reveal_strlit("teal");
    reveal_strlit("sky_blue");
    reveal_strlit("light_blue");
    reveal_strlit("blue");
    reveal_strlit("grape");
    reveal_strlit("violet");
    reveal_strlit("lavender");
    reveal_strlit("magenta");
    reveal_strlit("salmon");
    reveal_strlit("charcoal");
    reveal_strlit("grey");
    reveal_strlit("taupe");
    assert("berry_red"@.len() == 9 && "berry_red"@[0] == 'b' && "berry_red"@[1] == 'e' && "berry_red"@[2] == 'r');
    assert("red"@.len() == 3 && "red"@[0] == 'r' && "red"@[1] == 'e' && "red"@[2] == 'd');
    assert("orange"@.len() == 6 && "orange"@[0] == 'o' && "orange"@[1] == 'r' && "orange"@[2] == 'a');
    assert("yellow"@.len() == 6 && "yellow"@[0] == 'y' && "yellow"@[1] == 'e' && "yellow"@[2] == 'l');
    assert("olive_green"@.len() == 11 && "olive_green"@[0] == 'o' && "olive_green"@[1] == 'l' && "olive_green"@[2] == 'i');
    assert("lime_green"@.len() == 10 && "lime_green"@[0] == 'l' && "lime_green"@[1] == 'i' && "lime_green"@[2] == 'm');
    assert("green"@.len() == 5 && "green"@[0] == 'g' && "green"@[1] == 'r' && "green"@[2] == 'e');
    assert("mint_green"@.len() == 10 && "mint_green"@[0] == 'm' && "mint_green"@[1] == 'i' && "mint_green"@[2] == 'n');
    assert("teal"@.len() == 4 && "teal"@[0] == 't' && "teal"@[1] == 'e' && "teal"@[2] == 'a');
    assert("sky_blue"@.len() == 8 && "sky_blue"@[0] == 's' && "sky_blue"@[1] == 'k' && "sky_blue"@[2] == 'y');
    assert("light_blue"@.len() == 10 && "light_blue"@[0] == 'l' && "light_blue"@[1] == 'i' && "light_blue"@[2] == 'g');
    assert("blue"@.len() == 4 && "blue"@[0] == 'b' && "blue"@[1] == 'l' && "blue"@[2] == 'u');
    assert("grape"@.len() == 5 && "grape"@[0] == 'g' && "grape"@[1] == 'r' && "grape"@[2] == 'a');
    assert("violet"@.len() == 6 && "violet"@[0] == 'v' && "violet"@[1] == 'i' && "violet"@[2] == 'o');
    assert("lavender"@.len() == 8 && "lavender"@[0] == 'l' && "lavender"@[1] == 'a' && "lavender"@[2] == 'v');
    assert("magenta"@.len() == 7 && "magenta"@[0] == 'm' && "magenta"@[1] == 'a' && "magenta"@[2] == 'g');
    assert("salmon"@.len() == 6 && "salmon"@[0] == 's' && "salmon"@[1] == 'a' && "salmon"@[2] == 'l');
    assert("charcoal"@.len() == 8 && "charcoal"@[0] == 'c' && "charcoal"@[1] == 'h' && "charcoal"@[2] == 'a');
    assert("grey"@.len() == 4 && "grey"@[0] == 'g' && "grey"@[1] == 'r' && "grey"@[2] == 'e');
    assert("taupe"@.len() == 5 && "taupe"@[0] == 't' && "taupe"@[1] == 'a' && "taupe"@[2] == 'u');
}

/// The colour of a filter.
#[derive(Debug, Clone, Copy, PartialEq, Eq, Hash, Structural)]
pub enum FilterColor {
    BerryRed,
    Red,
    Orange,
    Yellow,
    OliveGreen,
    LimeGreen,
    Green,
    MintGreen,
    Teal,
    SkyBlue,
    LightBlue,
    Blue,
    Grape,
    Violet,
    Lavender,
    Magenta,
    Salmon,
    Charcoal,
    Grey,
    Taupe,
}

/// The name under which a filter colour is stored.
pub open spec fn filter_color_db_name(c: FilterColor) -> Seq<char> {
    match c {
        FilterColor::BerryRed => "berry_red"@,
        FilterColor::Red => "red"@,
        FilterColor::Orange => "orange"@,
        FilterColor::Yellow => "yellow"@,
        FilterColor::OliveGreen => "olive_green"@,
        FilterColor::LimeGreen => "lime_green"@,
        FilterColor::Green => "green"@,
        FilterColor::MintGreen => "mint_green"@,
        FilterColor::Teal => "teal"@,
        FilterColor::SkyBlue => "sky_blue"@,
        FilterColor::LightBlue => "light_blue"@,
        FilterColor::Blue => "blue"@,
        FilterColor::Grape => "grape"@,
        FilterColor::Violet => "violet"@,
        FilterColor::Lavender => "lavender"@,
        FilterColor::Magenta => "magenta"@,
        FilterColor::Salmon => "salmon"@,
        FilterColor::Charcoal => "charcoal"@,
        FilterColor::Grey => "grey"@,
        FilterColor::Taupe => "taupe"@,
    }
}

/// The name under which a filter colour is shown.
/// The filter colours, in the order the editor offers them.
pub open spec fn filter_colors() -> Seq<FilterColor> {
    seq![FilterColor::BerryRed, FilterColor::Red, FilterColor::Orange, FilterColor::Yellow, FilterColor::OliveGreen, FilterColor::LimeGreen, FilterColor::Green, FilterColor::MintGreen, FilterColor::Teal, FilterColor::SkyBlue, FilterColor::LightBlue, FilterColor::Blue, FilterColor::Grape, FilterColor::Violet, FilterColor::Lavender, FilterColor::Magenta, FilterColor::Salmon, FilterColor::Charcoal, FilterColor::Grey, FilterColor::Taupe]
}

pub open spec fn filter_color_label(c: FilterColor) -> Seq<char> {
    match c {
        FilterColor::BerryRed => "Berry Red"@,
        FilterColor::Red => "Red"@,
        FilterColor::Orange => "Orange"@,
        FilterColor::Yellow => "Yellow"@,
        FilterColor::OliveGreen => "Olive Green"@,
        FilterColor::LimeGreen => "Lime Green"@,
        FilterColor::Green => "Green"@,
        FilterColor::MintGreen => "Mint Green"@,
        FilterColor::Teal => "Teal"@,
        FilterColor::SkyBlue => "Sky Blue"@,
        FilterColor::LightBlue => "Light Blue"@,
        FilterColor::Blue => "Blue"@,
        FilterColor::Grape => "Grape"@,
        FilterColor::Violet => "Violet"@,
        FilterColor::Lavender => "Lavender"@,
        FilterColor::Magenta => "Magenta"@,
        FilterColor::Salmon => "Salmon"@,
        FilterColor::Charcoal => "Charcoal"@,
        FilterColor::Grey => "Grey"@,
        FilterColor::Taupe => "Taupe"@,
    }
}

/// No two filter colours share a label.
pub proof fn filter_color_labels_distinct(a: FilterColor, b: FilterColor)
    requires
        filter_color_label(a) == filter_color_label(b),
    ensures
        a == b,
{
    reveal_strlit("Berry Red");
    reveal_strlit("Red");
    reveal_strlit("Orange");
    reveal_strlit("Yellow");
    reveal_strlit("Olive Green");
    reveal_strlit("Lime Green");
    reveal_strlit("Green");
    reveal_strlit("Mint Green");
    reveal_strlit("Teal");
    reveal_strlit("Sky Blue");
    reveal_strlit("Light Blue");
    reveal_strlit("Blue");
    reveal_strlit("Grape");
    reveal_strlit("Violet");
    reveal_strlit("Lavender");
    reveal_strlit("Magenta");
    reveal_strlit("Salmon");
    reveal_strlit("Charcoal");
    reveal_strlit("Grey");
    reveal_strlit("Taupe");
    let s = filter_color_label(a);
    assert(s.len() == filter_color_label(b).len());
    assert(s.len() > 0 ==> s[0] == filter_color_label(b)[0]);
    assert(s.len() > 0 ==> s[s.len() - 1] == filter_color_label(b)[s.len() - 1]);
}


/// The filter colour that a stored name stands for; an unknown name gives charcoal.
pub open spec fn filter_color_from_db_name(value: Seq<char>) -> FilterColor {
    if value == "berry_red"@ {
        FilterColor::BerryRed
    } else if value == "red"@ {
        FilterColor::Red
    } else if value == "orange"@ {
        FilterColor::Orange
    } else if value == "yellow"@ {
        FilterColor::Yellow
    } else if value == "olive_green"@ {
        FilterColor::OliveGreen
    } else if value == "lime_green"@ {
        FilterColor::LimeGreen
    } else if value == "green"@ {
        FilterColor::Green
    } else if value == "mint_green"@ {
        FilterColor::MintGreen
    } else if value == "teal"@ {
        FilterColor::Teal
    } else if value == "sky_blue"@ {
        FilterColor::SkyBlue
    } else if value == "light_blue"@ {
        FilterColor::LightBlue
    } else if value == "blue"@ {
        FilterColor::Blue
    } else if value == "grape"@ {
        FilterColor::Grape
    } else if value == "violet"@ {
        FilterColor::Violet
    } else if value == "lavender"@ {
        FilterColor::Lavender
    } else if value == "magenta"@ {
        FilterColor::Magenta
    } else if value == "salmon"@ {
        FilterColor::Salmon
    } else if value == "charcoal"@ {
        FilterColor::Charcoal
    } else if value == "grey"@ {
        FilterColor::Grey
    } else if value == "taupe"@ {
        FilterColor::Taupe
    } else {
        FilterColor::Charcoal
    }
}

impl FilterColor {
    /// Every colour, in the order the pickers offer them.
    pub fn all() -> (r: &'static [Self])
        ensures
            r@ == filter_colors(),
    {
        &[Self::BerryRed, Self::Red, Self::Orange, Self::Yellow, Self::OliveGreen, Self::LimeGreen, Self::Green, Self::MintGreen, Self::Teal, Self::SkyBlue, Self::LightBlue, Self::Blue, Self::Grape, Self::Violet, Self::Lavender, Self::Magenta, Self::Salmon, Self::Charcoal, Self::Grey, Self::Taupe]
    }

    /// The name under which the colour is stored.
    pub fn as_str(self) -> (r: &'static str)
        ensures
            r@ == filter_color_db_name(self),
    {
        match self {
            Self::BerryRed => "berry_red",
            Self::Red => "red",
            Self::Orange => "orange",
            Self::Yellow => "yellow",
            Self::OliveGreen => "olive_green",
            Self::LimeGreen => "lime_green",
            Self::Green => "green",
            Self::MintGreen => "mint_green",
            Self::Teal => "teal",
            Self::SkyBlue => "sky_blue",
            Self::LightBlue => "light_blue",
            Self::Blue => "blue",
            Self::Grape => "grape",
            Self::Violet => "violet",
            Self::Lavender => "lavender",
            Self::Magenta => "magenta",
            Self::Salmon => "salmon",
            Self::Charcoal => "charcoal",
            Self::Grey => "grey",
            Self::Taupe => "taupe",
        }
    }

    /// The name under which the colour is shown.
    pub fn label(self) -> (r: &'static str)
        ensures
            r@ == filter_color_label(self),
    {
        match self {
            Self::BerryRed => "Berry Red",
            Self::Red => "Red",
            Self::Orange => "Orange",
            Self::Yellow => "Yellow",
            Self::OliveGreen => "Olive Green",
            Self::LimeGreen => "Lime Green",
            Self::Green => "Green",
            Self::MintGreen => "Mint Green",
            Self::Teal => "Teal",
            Self::SkyBlue => "Sky Blue",
            Self::LightBlue => "Light Blue",
            Self::Blue => "Blue",
            Self::Grape => "Grape",
            Self::Violet => "Violet",
            Self::Lavender => "Lavender",
            Self::Magenta => "Magenta",
            Self::Salmon => "Salmon",
            Self::Charcoal => "Charcoal",
            Self::Grey => "Grey",
            Self::Taupe => "Taupe",
        }
    }

    /// The colour that a stored name stands for; an unknown name gives charcoal.
    pub fn from_db(value: &str) -> (r: Self)
        ensures
            r == filter_color_from_db_name(value@),
    {
        if str_eq(value, "berry_red") {
            Self::BerryRed
        } else if str_eq(value, "red") {
            Self::Red
        } else if str_eq(value, "orange") {
            Self::Orange
        } else if str_eq(value, "yellow") {
            Self::Yellow
        } else if str_eq(value, "olive_green") {
            Self::OliveGreen
        } else if str_eq(value, "lime_green") {
            Self::LimeGreen
        } else if str_eq(value, "green") {
            Self::Green
        } else if str_eq(value, "mint_green") {
            Self::MintGreen
        } else if str_eq(value, "teal") {
            Self::Teal
        } else if str_eq(value, "sky_blue") {
            Self::SkyBlue
        } else if str_eq(value, "light_blue") {
            Self::LightBlue
        } else if str_eq(value, "blue") {
            Self::Blue
        } else if str_eq(value, "grape") {
            Self::Grape
        } else if str_eq(value, "violet") {
            Self::Violet
        } else if str_eq(value, "lavender") {
            Self::Lavender
        } else if str_eq(value, "magenta") {
            Self::Magenta
        } else if str_eq(value, "salmon") {
            Self::Salmon
        } else if str_eq(value, "charcoal") {
            Self::Charcoal
        } else if str_eq(value, "grey") {
            Self::Grey
        } else if str_eq(value, "taupe") {
            Self::Taupe
        } else {
            Self::Charcoal
        }
    }
}

/// Reading back the stored name of a filter colour gives the colour.
pub proof fn filter_color_db_round_trip(c: FilterColor)
    ensures
        filter_color_from_db_name(filter_color_db_name(c)) == c,
{
    reveal_strlit("berry_red");
    reveal_strlit("red");
    reveal_strlit("orange");
    reveal_strlit("yellow");
    reveal_strlit("olive_green");
    reveal_strlit("lime_green");
    reveal_strlit("green");
    reveal_strlit("mint_green");
    reveal_strlit("teal");
    reveal_strlit("sky_blue");
    reveal_strlit("light_blue");
    reveal_strlit("blue");
    reveal_strlit("grape");
    reveal_strlit("violet");
    reveal_strlit("lavender");
    reveal_strlit("magenta");
    reveal_strlit("salmon");
    reveal_strlit("charcoal");
    reveal_strlit("grey");
    reveal_strlit("taupe");
    assert("berry_red"@.len() == 9 && "berry_red"@[0] == 'b' && "berry_red"@[1] == 'e' && "berry_red"@[2] == 'r');
    assert("red"@.len() == 3 && "red"@[0] == 'r' && "red"@[1] == 'e' && "red"@[2] == 'd');
    assert("orange"@.len() == 6 && "orange"@[0] == 'o' && "orange"@[1] == 'r' && "orange"@[2] == 'a');
    assert("yellow"@.len() == 6 && "yellow"@[0] == 'y' && "yellow"@[1] == 'e' && "yellow"@[2] == 'l');
    assert("olive_green"@.len() == 11 && "olive_green"@[0] == 'o' && "olive_green"@[1] == 'l' && "olive_green"@[2] == 'i');
    assert("lime_green"@.len() == 10 && "lime_green"@[0] == 'l' && "lime_green"@[1] == 'i' && "lime_green"@[2] == 'm');
    assert("green"@.len() == 5 && "green"@[0] == 'g' && "green"@[1] == 'r' && "green"@[2] == 'e');
    assert("mint_green"@.len() == 10 && "mint_green"@[0] == 'm' && "mint_green"@[1] == 'i' && "mint_green"@[2] == 'n');
    assert("teal"@.len() == 4 && "teal"@[0] == 't' && "teal"@[1] == 'e' && "teal"@[2] == 'a');
    assert("sky_blue"@.len() == 8 && "sky_blue"@[0] == 's' && "sky_blue"@[1] == 'k' && "sky_blue"@[2] == 'y');
    assert("light_blue"@.len() == 10 && "light_blue"@[0] == 'l' && "light_blue"@[1] == 'i' && "light_blue"@[2] == 'g');
    assert("blue"@.len() == 4 && "blue"@[0] == 'b' && "blue"@[1] == 'l' && "blue"@[2] == 'u');
    assert("grape"@.len() == 5 && "grape"@[0] == 'g' && "grape"@[1] == 'r' && "grape"@[2] == 'a');
    assert("violet"@.len() == 6 && "violet"@[0] == 'v' && "violet"@[1] == 'i' && "violet"@[2] == 'o');
    assert("lavender"@.len() == 8 && "lavender"@[0] == 'l' && "lavender"@[1] == 'a' && "lavender"@[2] == 'v');
    assert("magenta"@.len() == 7 && "magenta"@[0] == 'm' && "magenta"@[1] == 'a' && "magenta"@[2] == 'g');
    assert("salmon"@.len() == 6 && "salmon"@[0] == 's' && "salmon"@[1] == 'a' && "salmon"@[2] == 'l');
    assert("charcoal"@.len() == 8 && "charcoal"@[0] == 'c' && "charcoal"@[1] == 'h' && "charcoal"@[2] == 'a');
    assert("grey"@.len() == 4 && "grey"@[0] == 'g' && "grey"@[1] == 'r' && "grey"@[2] == 'e');
    assert("taupe"@.len() == 5 && "taupe"@[0] == 't' && "taupe"@[1] == 'a' && "taupe"@[2] == 'u');
}

} // verus!
