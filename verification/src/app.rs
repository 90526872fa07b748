//! The state of the interface that does not depend on storage: panels, tabs
//! and views, editor fields, the focus timer, and fuzzy search.
//!
//! Instants are in milliseconds since the Unix epoch and timer lengths in
//! milliseconds, except where a field says seconds.
use vstd::prelude::*;

use crate::config::{
    AppConfig, FilterSortOrder, GlyphMode, ProjectSortOrder, TagSortOrder, TimerSettings, UiConfig,
};
use crate::domain::{
    CalendarDate, DayHistorySummary, Filter, FilterColor, FilterId, FocusDaySummary,
    FocusHourSummary, HistoryStats, Project, ProjectColor, ProjectId, SessionEntry, SessionKind,
    SessionOutcome, Tag, TagColor, TagId, Task, TaskId,
};
use crate::text::{
    char_lowercase, char_to_lowercase, chars_lowercase, chars_of, concat_chars, string_from,
    string_of,
};

verus! {

/// Switches that the command line gives.
#[derive(Debug, Clone, Copy, PartialEq, Eq, Default)]
pub struct RunOptions {
    pub force_ascii: bool,
    pub force_short_timer: bool,
    pub reset_data: bool,
}

/// The tab shown in the right pane.
#[derive(Debug, Clone, Copy, PartialEq, Eq, Structural)]
pub enum RightPanelTab {
    Tasks,
    Statistics,
}

/// The tab shown in the sidebar.
#[derive(Debug, Clone, Copy, PartialEq, Eq, Structural)]
pub enum SidebarTab {
    Navigation,
    Projects,
    Tags,
    Filters,
}

pub open spec fn sidebar_tab_label(t: SidebarTab) -> Seq<char> {
    match t {
        SidebarTab::Navigation => "Navigation"@,
        SidebarTab::Projects => "Projects"@,
        SidebarTab::Tags => "Tags"@,
        SidebarTab::Filters => "Filters"@,
    }
}

/// The tabs in the order the sidebar shows them; `next` and `previous` move
/// along it and wrap around.
pub open spec fn sidebar_tab_index(t: SidebarTab) -> int {
    match t {
        SidebarTab::Navigation => 0,
        SidebarTab::Projects => 1,
        SidebarTab::Tags => 2,
        SidebarTab::Filters => 3,
    }
}

impl SidebarTab {
    pub fn label(self) -> (r: &'static str)
        ensures
            r@ == sidebar_tab_label(self),
    {
        match self {
            Self::Navigation => "Navigation",
            Self::Projects => "Projects",
            Self::Tags => "Tags",
            Self::Filters => "Filters",
        }
    }

    /// The tab to the right, wrapping around to the first.
    pub fn next(self) -> (r: Self)
        ensures
            sidebar_tab_index(r) == (sidebar_tab_index(self) + 1) % 4,
    {
        match self {
            Self::Navigation => Self::Projects,
            Self::Projects => Self::Tags,
            Self::Tags => Self::Filters,
            Self::Filters => Self::Navigation,
        }
    }

    /// The tab to the left, wrapping around to the last.
    pub fn previous(self) -> (r: Self)
        ensures
            sidebar_tab_index(r) == (sidebar_tab_index(self) + 3) % 4,
    {
        match self {
            Self::Navigation => Self::Filters,
            Self::Projects => Self::Navigation,
            Self::Tags => Self::Projects,
            Self::Filters => Self::Tags,
        }
    }
}

/// Stepping to the next sidebar tab and back, or back and then on, returns
/// to the tab one started from; four steps either way go all around.
pub proof fn sidebar_tab_steps_undo(t: SidebarTab, n: SidebarTab, p: SidebarTab)
    requires
        sidebar_tab_index(n) == (sidebar_tab_index(t) + 1) % 4,
        sidebar_tab_index(p) == (sidebar_tab_index(t) + 3) % 4,
    ensures
        (sidebar_tab_index(n) + 3) % 4 == sidebar_tab_index(t),
        (sidebar_tab_index(p) + 1) % 4 == sidebar_tab_index(t),
        forall|a: SidebarTab, b: SidebarTab|
            sidebar_tab_index(a) == sidebar_tab_index(b) ==> a == b,
{
}

/// Which tasks the task list shows.
#[derive(Debug, Clone, Copy, PartialEq, Eq, Structural)]
pub enum TaskView {
    All,
    Inbox,
    Today,
    Soon,
}

pub open spec fn task_view_label(v: TaskView) -> Seq<char> {
    match v {
        TaskView::All => "All"@,
        TaskView::Inbox => "Inbox"@,
        TaskView::Today => "Today"@,
        TaskView::Soon => "Soon"@,
    }
}

impl TaskView {
    /// Every view, in the order the navigation panel lists them.
    pub fn all() -> (r: &'static [Self])
        ensures
            r@ == seq![TaskView::All, TaskView::Inbox, TaskView::Today, TaskView::Soon],
    {
        &[Self::All, Self::Inbox, Self::Today, Self::Soon]
    }

    pub fn label(self) -> (r: &'static str)
        ensures
            r@ == task_view_label(self),
    {
        match self {
            Self::All => "All",
            Self::Inbox => "Inbox",
            Self::Today => "Today",
            Self::Soon => "Soon",
        }
    }
}

/// The range of history shown.
#[derive(Debug, Clone, Copy, PartialEq, Eq, Structural)]
pub enum HistoryPanelTab {
    Today,
    Last7Days,
}

impl HistoryPanelTab {
    /// The other range.
    pub fn next(self) -> (r: Self)
        ensures
            r != self,
    {
        match self {
            Self::Today => Self::Last7Days,
            Self::Last7Days => Self::Today,
        }
    }

    /// The other range.
    pub fn previous(self) -> (r: Self)
        ensures
            r != self,
    {
        self.next()
    }
}

impl RightPanelTab {
    /// The other tab.
    pub fn next(self) -> (r: Self)
        ensures
            r != self,
    {
        match self {
            Self::Tasks => Self::Statistics,
            Self::Statistics => Self::Tasks,
        }
    }

    /// The other tab.
    pub fn previous(self) -> (r: Self)
        ensures
            r != self,
    {
        match self {
            Self::Tasks => Self::Statistics,
            Self::Statistics => Self::Tasks,
        }
    }

    /// The tab's position: tasks first, statistics second.
    pub fn index(self) -> (r: usize)
        ensures
            r == (match self {
                RightPanelTab::Tasks => 0usize,
                RightPanelTab::Statistics => 1usize,
            }),
    {
        match self {
            Self::Tasks => 0,
            Self::Statistics => 1,
        }
    }
}

/// The panel that has the keyboard.
#[derive(Debug, Clone, Copy, PartialEq, Eq, Structural)]
pub enum PanelFocus {
    Timer,
    History,
    Navigation,
    Favorites,
    RightPane,
}

/// The panels in the order Tab walks them; it wraps around.
pub open spec fn panel_index(p: PanelFocus) -> int {
    match p {
        PanelFocus::Timer => 0,
        PanelFocus::History => 1,
        PanelFocus::Navigation => 2,
        PanelFocus::Favorites => 3,
        PanelFocus::RightPane => 4,
    }
}

pub open spec fn panel_title(p: PanelFocus) -> Seq<char> {
    match p {
        PanelFocus::Timer => "Timer"@,
        PanelFocus::History => "Daily History"@,
        PanelFocus::Navigation => "Navigation"@,
        PanelFocus::Favorites => "Favorites"@,
        PanelFocus::RightPane => "Right Pane"@,
    }
}

/// The panel that a digit key focuses: 1 the timer, 2 the history, 3 to 6
/// the navigation, 7 the favorites and 8 the right pane.
pub open spec fn panel_for_shortcut(key: char) -> Option<PanelFocus> {
    if key == '1' {
        Some(PanelFocus::Timer)
    } else if key == '2' {
        Some(PanelFocus::History)
    } else if key == '7' {
        Some(PanelFocus::Favorites)
    } else if key == '8' {
        Some(PanelFocus::RightPane)
    } else if key == '3' || key == '4' || key == '5' || key == '6' {
        Some(PanelFocus::Navigation)
    } else {
        None
    }
}

impl PanelFocus {
    /// The panel after this one, wrapping around.
    pub fn next(self) -> (r: Self)
        ensures
            panel_index(r) == (panel_index(self) + 1) % 5,
    {
        match self {
            Self::Timer => Self::History,
            Self::History => Self::Navigation,
            Self::Navigation => Self::Favorites,
            Self::Favorites => Self::RightPane,
            Self::RightPane => Self::Timer,
        }
    }

    /// The panel before this one, wrapping around.
    pub fn previous(self) -> (r: Self)
        ensures
            panel_index(r) == (panel_index(self) + 4) % 5,
    {
        match self {
            Self::Timer => Self::RightPane,
            Self::History => Self::Timer,
            Self::Navigation => Self::History,
            Self::Favorites => Self::Navigation,
            Self::RightPane => Self::Favorites,
        }
    }

    /// The panel that a digit key focuses.
    pub fn from_shortcut(key: char) -> (r: Option<Self>)
        ensures
            r == panel_for_shortcut(key),
    {
        match key {
            '1' => Some(Self::Timer),
            '2' => Some(Self::History),
            '7' => Some(Self::Favorites),
            '8' => Some(Self::RightPane),
            '3' | '4' | '5' | '6' => Some(Self::Navigation),
            _ => None,
        }
    }

    /// The title of the panel.
    pub fn title(self) -> (r: &'static str)
        ensures
            r@ == panel_title(self),
    {
        match self {
            Self::Timer => "Timer",
            Self::History => "Daily History",
            Self::Navigation => "Navigation",
            Self::Favorites => "Favorites",
            Self::RightPane => "Right Pane",
        }
    }
}

/// Moving focus forward and then back, or back and then forward, returns to
/// the panel one started from; the order of panels is one to one.
pub proof fn panel_steps_undo(p: PanelFocus, n: PanelFocus, b: PanelFocus)
    requires
        panel_index(n) == (panel_index(p) + 1) % 5,
        panel_index(b) == (panel_index(p) + 4) % 5,
    ensures
        (panel_index(n) + 4) % 5 == panel_index(p),
        (panel_index(b) + 1) % 5 == panel_index(p),
        forall|x: PanelFocus, y: PanelFocus| panel_index(x) == panel_index(y) ==> x == y,
{
}

/// The phase the timer is in.
#[derive(Debug, Clone, Copy, PartialEq, Eq, Structural)]
pub enum TimerPhase {
    Focus,
    ShortBreak,
    LongBreak,
}

pub open spec fn timer_phase_label(p: TimerPhase) -> Seq<char> {
    match p {
        TimerPhase::Focus => "Pomodoro"@,
        TimerPhase::ShortBreak => "Short Break"@,
        TimerPhase::LongBreak => "Long Break"@,
    }
}

/// The length of a phase, in seconds.
pub open spec fn phase_seconds(p: TimerPhase, settings: TimerSettings) -> nat {
    match p {
        TimerPhase::Focus => settings.pomodoro_length as nat,
        TimerPhase::ShortBreak => settings.short_break_length as nat,
        TimerPhase::LongBreak => settings.long_break_length as nat,
    }
}

/// The length of a phase, in milliseconds.
pub open spec fn phase_millis(p: TimerPhase, settings: TimerSettings) -> int {
    (phase_seconds(p, settings) * 1000) as int
}

/// Every phase length is short enough to count in milliseconds.
pub open spec fn settings_in_range(settings: TimerSettings) -> bool {
    &&& settings.pomodoro_length * 1000 <= i64::MAX
    &&& settings.short_break_length * 1000 <= i64::MAX
    &&& settings.long_break_length * 1000 <= i64::MAX
}

impl TimerPhase {
    pub fn label(self) -> (r: &'static str)
        ensures
            r@ == timer_phase_label(self),
    {
        match self {
            Self::Focus => "Pomodoro",
            Self::ShortBreak => "Short Break",
            Self::LongBreak => "Long Break",
        }
    }

    /// The length of the phase, in milliseconds.
    pub fn duration(self, settings: &TimerSettings) -> (r: i64)
        requires
            settings_in_range(*settings),
        ensures
            r == phase_millis(self, *settings),
    {
        match self {
            Self::Focus => (settings.pomodoro_length * 1000) as i64,
            Self::ShortBreak => (settings.short_break_length * 1000) as i64,
            Self::LongBreak => (settings.long_break_length * 1000) as i64,
        }
    }
}

/// Whether the timer runs.
#[derive(Debug, Clone, Copy, PartialEq, Eq, Structural)]
pub enum TimerRunState {
    Idle,
    Running,
    Paused,
}

pub open spec fn run_state_label(s: TimerRunState, phase: TimerPhase) -> Seq<char> {
    match s {
        TimerRunState::Idle => "Ready"@,
        TimerRunState::Running => match phase {
            TimerPhase::Focus => "Focus"@,
            _ => "Break"@,
        },
        TimerRunState::Paused => "Paused"@,
    }
}

impl TimerRunState {
    /// What the timer shows it is doing.
    pub fn label(self, phase: TimerPhase) -> (r: &'static str)
        ensures
            r@ == run_state_label(self, phase),
    {
        match self {
            Self::Idle => "Ready",
            Self::Running => match phase {
                TimerPhase::Focus => "Focus",
                TimerPhase::ShortBreak | TimerPhase::LongBreak => "Break",
            },
            Self::Paused => "Paused",
        }
    }
}

/// What became of one focus slot of a round.
#[derive(Debug, Clone, Copy, PartialEq, Eq, Structural)]
pub enum CycleEntryState {
    NotStarted,
    Running,
    Break,
    Completed,
    Voided,
}

/// The focus timer: the phase, whether it runs, the time counted so far, and
/// the slots of the current round.
#[derive(Debug, Clone)]
pub struct TimerState {
    pub phase: TimerPhase,
    pub run_state: TimerRunState,
    /// Milliseconds counted before the timer last started running.
    pub elapsed: i64,
    pub current_phase_started_at: Option<i64>,
    pub running_since: Option<i64>,
    pub completed_cycles_in_round: u32,
    pub current_cycle_index: usize,
    pub cycle_entries: Vec<CycleEntryState>,
}

/// The timer as a mathematical value.
#[verifier::ext_equal]
pub struct TimerModel {
    pub phase: TimerPhase,
    pub run_state: TimerRunState,
    pub elapsed: int,
    pub current_phase_started_at: Option<int>,
    pub running_since: Option<int>,
    pub completed_cycles_in_round: nat,
    pub current_cycle_index: nat,
    pub cycle_entries: Seq<CycleEntryState>,
}

pub open spec fn opt_int(o: Option<i64>) -> Option<int> {
    match o {
        Some(v) => Some(v as int),
        None => None,
    }
}

impl View for TimerState {
    type V = TimerModel;

    open spec fn view(&self) -> TimerModel {
        TimerModel {
            phase: self.phase,
            run_state: self.run_state,
            elapsed: self.elapsed as int,
            current_phase_started_at: opt_int(self.current_phase_started_at),
            running_since: opt_int(self.running_since),
            completed_cycles_in_round: self.completed_cycles_in_round as nat,
            current_cycle_index: self.current_cycle_index as nat,
            cycle_entries: self.cycle_entries@,
        }
    }
}

/// A round of `n` slots that have not started.
pub open spec fn fresh_round(n: nat) -> Seq<CycleEntryState> {
    Seq::new(n, |i: int| CycleEntryState::NotStarted)
}

/// The timer as it is made: focus, idle, nothing counted, a fresh round.
pub open spec fn timer_new(long_break_interval: nat) -> TimerModel {
    TimerModel {
        phase: TimerPhase::Focus,
        run_state: TimerRunState::Idle,
        elapsed: 0,
        current_phase_started_at: None,
        running_since: None,
        completed_cycles_in_round: 0,
        current_cycle_index: 0,
        cycle_entries: fresh_round(long_break_interval),
    }
}

/// The time counted at `now`: while running, the time since it started
/// running is added.
pub open spec fn elapsed_at_spec(t: TimerModel, now: int) -> int {
    match (t.run_state, t.running_since) {
        (TimerRunState::Running, Some(since)) => t.elapsed + (now - since),
        _ => t.elapsed,
    }
}

/// The slots with one more, not started, where the current slot is past
/// the end.
pub open spec fn ensure_entry(t: TimerModel) -> TimerModel {
    if t.current_cycle_index >= t.cycle_entries.len() {
        TimerModel { cycle_entries: t.cycle_entries.push(CycleEntryState::NotStarted), ..t }
    } else {
        t
    }
}

/// The current slot set to `s`, where there is one.
pub open spec fn set_current(t: TimerModel, s: CycleEntryState) -> TimerModel {
    if t.current_cycle_index < t.cycle_entries.len() {
        TimerModel { cycle_entries: t.cycle_entries.update(t.current_cycle_index as int, s), ..t }
    } else {
        t
    }
}

pub open spec fn running_entry(p: TimerPhase) -> CycleEntryState {
    match p {
        TimerPhase::Focus => CycleEntryState::Running,
        _ => CycleEntryState::Break,
    }
}

/// Starting or resuming: a running timer is left alone; otherwise it runs
/// from `now`, the phase keeps its first start, and the current slot shows a
/// running focus or a break.
pub open spec fn start_spec(t: TimerModel, now: int) -> TimerModel {
    if t.run_state == TimerRunState::Running {
        t
    } else {
        let e = set_current(ensure_entry(t), running_entry(t.phase));
        TimerModel {
            current_phase_started_at: if t.current_phase_started_at is None {
                Some(now)
            } else {
                t.current_phase_started_at
            },
            running_since: Some(now),
            run_state: TimerRunState::Running,
            ..e
        }
    }
}

/// Pausing: a timer that does not run is left alone; otherwise the time
/// counted so far is kept and it stops.
pub open spec fn pause_spec(t: TimerModel, now: int) -> TimerModel {
    if t.run_state != TimerRunState::Running {
        t
    } else {
        TimerModel {
            elapsed: elapsed_at_spec(t, now),
            running_since: None,
            run_state: TimerRunState::Paused,
            ..t
        }
    }
}

/// The timer idle at the start of phase `p`, nothing counted.
pub open spec fn move_to_phase_spec(t: TimerModel, p: TimerPhase) -> TimerModel {
    TimerModel {
        phase: p,
        run_state: TimerRunState::Idle,
        elapsed: 0,
        current_phase_started_at: None,
        running_since: None,
        ..t
    }
}

/// The current slot voided, the timer back at an idle focus phase, and a new
/// slot added and made current.
pub open spec fn void_spec(t: TimerModel) -> TimerModel {
    let v = move_to_phase_spec(set_current(ensure_entry(t), CycleEntryState::Voided), TimerPhase::Focus);
    TimerModel {
        cycle_entries: v.cycle_entries.push(CycleEntryState::NotStarted),
        current_cycle_index: v.current_cycle_index + 1,
        ..v
    }
}

/// The current slot completed and counted.
pub open spec fn complete_break_spec(t: TimerModel) -> TimerModel {
    let c = set_current(ensure_entry(t), CycleEntryState::Completed);
    TimerModel { completed_cycles_in_round: c.completed_cycles_in_round + 1, ..c }
}

/// The next slot made current, added where needed.
pub open spec fn next_slot_spec(t: TimerModel) -> TimerModel {
    ensure_entry(TimerModel { current_cycle_index: t.current_cycle_index + 1, ..t })
}

/// A new round: nothing completed, a fresh set of slots, idle at focus.
pub open spec fn reset_round_spec(t: TimerModel, long_break_interval: nat) -> TimerModel {
    move_to_phase_spec(
        TimerModel {
            completed_cycles_in_round: 0,
            current_cycle_index: 0,
            cycle_entries: fresh_round(long_break_interval),
            ..t
        },
        TimerPhase::Focus,
    )
}

/// The kind of session a phase records.
pub open spec fn phase_kind(p: TimerPhase) -> SessionKind {
    match p {
        TimerPhase::Focus => SessionKind::Focus,
        TimerPhase::ShortBreak => SessionKind::ShortBreak,
        TimerPhase::LongBreak => SessionKind::LongBreak,
    }
}

/// What the timer asks to have recorded when a phase ends.
#[derive(Debug, Clone, Copy, PartialEq, Eq, Structural)]
pub enum TimerRecord {
    /// A focus session ran its full length; the break that follows is named.
    FocusCompleted {
        next_break: SessionKind,
        started_at: i64,
        ended_at: i64,
        stored_minutes: u32,
    },
    /// A session ended, completed or voided, after `duration_seconds`.
    Session {
        kind: SessionKind,
        outcome: SessionOutcome,
        started_at: i64,
        ended_at: i64,
        duration_seconds: u32,
    },
}

/// Whole seconds of a count of milliseconds, none when negative, cut to 32
/// bits.
pub open spec fn whole_seconds(ms: int) -> u32 {
    if ms <= 0 {
        0
    } else {
        (ms / 1000) as u32
    }
}

/// Minutes, rounded up, cut to 32 bits.
pub open spec fn stored_minutes_spec(seconds: nat) -> u32 {
    ((seconds + 59) / 60) as u32
}

/// The break that follows a completed focus session: the long one when it
/// completes the round.
pub open spec fn break_after_focus(t: TimerModel, settings: TimerSettings) -> TimerPhase {
    if t.completed_cycles_in_round + 1 == settings.long_break_interval {
        TimerPhase::LongBreak
    } else {
        TimerPhase::ShortBreak
    }
}

/// After a break ends: a long break starts a new round, a short one moves to
/// the next slot at an idle focus phase.
pub open spec fn after_break_spec(t: TimerModel, settings: TimerSettings) -> TimerModel {
    let c = complete_break_spec(t);
    if t.phase == TimerPhase::LongBreak {
        reset_round_spec(c, settings.long_break_interval as nat)
    } else {
        next_slot_spec(move_to_phase_spec(c, TimerPhase::Focus))
    }
}

/// A clock tick at `now`: nothing happens unless the timer runs and its phase
/// has run its length. A finished focus phase is recorded and the break
/// starts at once; a finished break is recorded as completed and the timer
/// moves on as `after_break_spec` says.
pub open spec fn tick_spec(t: TimerModel, now: int, settings: TimerSettings) -> (
    TimerModel,
    Option<TimerRecord>,
) {
    if t.run_state != TimerRunState::Running || elapsed_at_spec(t, now) < phase_millis(
        t.phase,
        settings,
    ) {
        (t, None)
    } else if t.phase == TimerPhase::Focus {
        let next = break_after_focus(t, settings);
        let started = match t.current_phase_started_at {
            Some(s) => s,
            None => now - phase_millis(TimerPhase::Focus, settings),
        };
        (
            start_spec(move_to_phase_spec(t, next), now),
            Some(
                TimerRecord::FocusCompleted {
                    next_break: phase_kind(next),
                    started_at: started as i64,
                    ended_at: now as i64,
                    stored_minutes: stored_minutes_spec(settings.pomodoro_length as nat),
                },
            ),
        )
    } else {
        let started = match t.current_phase_started_at {
            Some(s) => s,
            None => now - phase_millis(t.phase, settings),
        };
        (
            after_break_spec(t, settings),
            Some(
                TimerRecord::Session {
                    kind: phase_kind(t.phase),
                    outcome: SessionOutcome::Completed,
                    started_at: started as i64,
                    ended_at: now as i64,
                    duration_seconds: whole_seconds(elapsed_at_spec(t, now)),
                },
            ),
        )
    }
}

/// The current slot, or a slot not started where there is none.
pub open spec fn current_entry(t: TimerModel) -> CycleEntryState {
    if t.current_cycle_index < t.cycle_entries.len() {
        t.cycle_entries[t.current_cycle_index as int]
    } else {
        CycleEntryState::NotStarted
    }
}

/// Stopping the timer at `now`: an untouched focus slot is left alone; a
/// break ends early and is recorded as completed; a focus session is
/// recorded as voided and its slot voided.
pub open spec fn stop_spec(t: TimerModel, now: int, settings: TimerSettings) -> (
    TimerModel,
    Option<TimerRecord>,
) {
    let started = match t.current_phase_started_at {
        Some(s) => s,
        None => now,
    };
    if t.run_state == TimerRunState::Idle && t.phase == TimerPhase::Focus && current_entry(t)
        == CycleEntryState::NotStarted {
        (t, None)
    } else if t.phase != TimerPhase::Focus {
        (
            after_break_spec(t, settings),
            Some(
                TimerRecord::Session {
                    kind: phase_kind(t.phase),
                    outcome: SessionOutcome::Completed,
                    started_at: started as i64,
                    ended_at: now as i64,
                    duration_seconds: whole_seconds(elapsed_at_spec(t, now)),
                },
            ),
        )
    } else {
        (
            void_spec(t),
            Some(
                TimerRecord::Session {
                    kind: SessionKind::Focus,
                    outcome: SessionOutcome::Voided,
                    started_at: started as i64,
                    ended_at: now as i64,
                    duration_seconds: whole_seconds(elapsed_at_spec(t, now)),
                },
            ),
        )
    }
}

/// Every instant and count the timer holds is far enough from the limits of
/// its integers for the arithmetic of a step at `now`.
pub open spec fn timer_in_range(t: TimerModel, now: int) -> bool {
    &&& -0x4000_0000_0000_0000 <= now <= 0x4000_0000_0000_0000
    &&& -0x2000_0000_0000_0000 <= t.elapsed <= 0x2000_0000_0000_0000
    &&& (t.running_since matches Some(s) ==> -0x1000_0000_0000_0000 <= s <= 0x1000_0000_0000_0000)
    &&& t.completed_cycles_in_round < u32::MAX
    &&& t.current_cycle_index + 1 < usize::MAX
    &&& t.cycle_entries.len() + 2 < usize::MAX
}

/// The current slot is within the slots, or just past them; a phase that
/// has started knows when, and a running timer knows since when it runs.
pub open spec fn timer_wf(t: TimerModel) -> bool {
    &&& t.current_cycle_index <= t.cycle_entries.len()
    &&& t.run_state != TimerRunState::Idle ==> t.current_phase_started_at is Some
    &&& t.run_state == TimerRunState::Running ==> t.running_since is Some
}

impl TimerState {
    /// The timer at the start of a round of `long_break_interval` slots.
    pub fn new(long_break_interval: u32) -> (r: Self)
        ensures
            r@ == timer_new(long_break_interval as nat),
    {
        TimerState {
            phase: TimerPhase::Focus,
            run_state: TimerRunState::Idle,
            elapsed: 0,
            current_phase_started_at: None,
            running_since: None,
            completed_cycles_in_round: 0,
            current_cycle_index: 0,
            cycle_entries: fresh_entries(long_break_interval),
        }
    }

    /// The time counted at `now`, in milliseconds.
    pub fn elapsed_at(&self, now: i64) -> (r: i64)
        requires
            timer_in_range(self@, now as int),
        ensures
            r == elapsed_at_spec(self@, now as int),
    {
        match (self.run_state, self.running_since) {
            (TimerRunState::Running, Some(running_since)) => self.elapsed + (now - running_since),
            _ => self.elapsed,
        }
    }

    /// The length of the current phase, in milliseconds.
    pub fn duration(&self, settings: &TimerSettings) -> (r: i64)
        requires
            settings_in_range(*settings),
        ensures
            r == phase_millis(self.phase, *settings),
    {
        self.phase.duration(settings)
    }

    /// The time left of the current phase at `now`, none once it has run out.
    pub fn remaining_at(&self, now: i64, settings: &TimerSettings) -> (r: i64)
        requires
            timer_in_range(self@, now as int),
            settings_in_range(*settings),
            i64::MIN <= phase_millis(self.phase, *settings) - elapsed_at_spec(self@, now as int)
                <= i64::MAX,
        ensures
            r == (if phase_millis(self.phase, *settings) - elapsed_at_spec(self@, now as int) < 0 {
                0
            } else {
                phase_millis(self.phase, *settings) - elapsed_at_spec(self@, now as int)
            }),
    {
        let remaining = self.duration(settings) - self.elapsed_at(now);
        if remaining < 0 {
            0
        } else {
            remaining
        }
    }

    /// Starts or resumes the timer at `now`.
    pub fn start_or_resume(&mut self, now: i64)
        requires
            timer_in_range(old(self)@, now as int),
        ensures
            final(self)@ == start_spec(old(self)@, now as int),
    {
        if self.run_state == TimerRunState::Running {
            return;
        }
        self.ensure_current_entry();
        if self.current_phase_started_at.is_none() {
            self.current_phase_started_at = Some(now);
        }
        self.running_since = Some(now);
        self.run_state = TimerRunState::Running;
        let entry = match self.phase {
            TimerPhase::Focus => CycleEntryState::Running,
            TimerPhase::ShortBreak | TimerPhase::LongBreak => CycleEntryState::Break,
        };
        self.set_current_entry(entry);
    }

    /// Pauses the timer at `now`, keeping the time counted.
    pub fn pause(&mut self, now: i64)
        requires
            timer_in_range(old(self)@, now as int),
        ensures
            final(self)@ == pause_spec(old(self)@, now as int),
    {
        if self.run_state != TimerRunState::Running {
            return;
        }
        self.elapsed = self.elapsed_at(now);
        self.running_since = None;
        self.run_state = TimerRunState::Paused;
    }

    /// Back to an idle focus phase with nothing counted.
    pub fn reset_to_focus(&mut self)
        ensures
            final(self)@ == move_to_phase_spec(old(self)@, TimerPhase::Focus),
    {
        self.move_to_phase(TimerPhase::Focus);
    }

    /// To the start of phase `phase`, idle, with nothing counted.
    pub fn move_to_phase(&mut self, phase: TimerPhase)
        ensures
            final(self)@ == move_to_phase_spec(old(self)@, phase),
    {
        self.phase = phase;
        self.run_state = TimerRunState::Idle;
        self.elapsed = 0;
        self.current_phase_started_at = None;
        self.running_since = None;
    }

    /// Adds a slot, not started, where the current slot is past the end.
    pub fn ensure_current_entry(&mut self)
        requires
            old(self)@.cycle_entries.len() + 1 < usize::MAX,
        ensures
            final(self)@ == ensure_entry(old(self)@),
    {
        if self.current_cycle_index >= self.cycle_entries.len() {
            self.cycle_entries.push(CycleEntryState::NotStarted);
        }
    }

    fn set_current_entry(&mut self, s: CycleEntryState)
        ensures
            final(self)@ == set_current(old(self)@, s),
    {
        if self.current_cycle_index < self.cycle_entries.len() {
            let i = self.current_cycle_index;
            self.cycle_entries.set(i, s);
        }
    }

    /// Voids the current slot, returns to an idle focus phase and moves on to
    /// a new slot.
    pub fn void_current_and_prepare_next(&mut self)
        requires
            old(self)@.cycle_entries.len() + 2 < usize::MAX,
            old(self)@.current_cycle_index + 1 < usize::MAX,
        ensures
            final(self)@ == void_spec(old(self)@),
    {
        self.ensure_current_entry();
        self.set_current_entry(CycleEntryState::Voided);
        self.reset_to_focus();
        self.cycle_entries.push(CycleEntryState::NotStarted);
        self.current_cycle_index += 1;
    }

    /// Completes the current slot and counts it.
    pub fn complete_break(&mut self)
        requires
            old(self)@.cycle_entries.len() + 1 < usize::MAX,
            old(self)@.completed_cycles_in_round < u32::MAX,
        ensures
            final(self)@ == complete_break_spec(old(self)@),
    {
        self.ensure_current_entry();
        self.set_current_entry(CycleEntryState::Completed);
        self.completed_cycles_in_round += 1;
    }

    /// Moves on to the next slot, adding it where needed.
    pub fn prepare_next_focus_slot(&mut self)
        requires
            old(self)@.cycle_entries.len() + 1 < usize::MAX,
            old(self)@.current_cycle_index + 1 < usize::MAX,
        ensures
            final(self)@ == next_slot_spec(old(self)@),
    {
        self.current_cycle_index += 1;
        self.ensure_current_entry();
    }

    /// Starts a new round of `long_break_interval` slots at an idle focus
    /// phase.
    pub fn reset_round(&mut self, long_break_interval: u32)
        ensures
            final(self)@ == reset_round_spec(old(self)@, long_break_interval as nat),
    {
        self.completed_cycles_in_round = 0;
        self.current_cycle_index = 0;
        self.cycle_entries = fresh_entries(long_break_interval);
        self.reset_to_focus();
    }

    fn finish_break(&mut self, settings: &TimerSettings)
        requires
            old(self)@.cycle_entries.len() + 2 < usize::MAX,
            old(self)@.current_cycle_index + 1 < usize::MAX,
            old(self)@.completed_cycles_in_round < u32::MAX,
        ensures
            final(self)@ == after_break_spec(old(self)@, *settings),
    {
        let completed_long_break = self.phase == TimerPhase::LongBreak;
        self.complete_break();
        if completed_long_break {
            self.reset_round(settings.long_break_interval);
        } else {
            self.move_to_phase(TimerPhase::Focus);
            self.prepare_next_focus_slot();
        }
    }

    /// A clock tick at `now`: ends the phase once it has run its length and
    /// says what to record.
    pub fn tick(&mut self, now: i64, settings: &TimerSettings) -> (r: Option<TimerRecord>)
        requires
            timer_in_range(old(self)@, now as int),
            settings_in_range(*settings),
        ensures
            (final(self)@, r) == tick_spec(old(self)@, now as int, *settings),
    {
        if self.run_state != TimerRunState::Running {
            return None;
        }
        let elapsed = self.elapsed_at(now);
        if elapsed < self.duration(settings) {
            return None;
        }
        let phase_length = self.duration(settings);
        let started_at = match self.current_phase_started_at {
            Some(s) => s,
            None => now - phase_length,
        };
        match self.phase {
            TimerPhase::Focus => {
                let next_phase = if self.completed_cycles_in_round + 1
                    == settings.long_break_interval {
                    TimerPhase::LongBreak
                } else {
                    TimerPhase::ShortBreak
                };
                let record = TimerRecord::FocusCompleted {
                    next_break: session_kind_for_phase(next_phase),
                    started_at,
                    ended_at: now,
                    stored_minutes: duration_to_stored_minutes(settings.pomodoro_length),
                };
                self.move_to_phase(next_phase);
                self.start_or_resume(now);
                Some(record)
            },
            TimerPhase::ShortBreak | TimerPhase::LongBreak => {
                let record = TimerRecord::Session {
                    kind: session_kind_for_phase(self.phase),
                    outcome: SessionOutcome::Completed,
                    started_at,
                    ended_at: now,
                    duration_seconds: whole_seconds_of(elapsed),
                };
                self.finish_break(settings);
                Some(record)
            },
        }
    }

    /// Stops the timer at `now` and says what to record.
    pub fn stop(&mut self, now: i64, settings: &TimerSettings) -> (r: Option<TimerRecord>)
        requires
            timer_in_range(old(self)@, now as int),
        ensures
            (final(self)@, r) == stop_spec(old(self)@, now as int, *settings),
    {
        let current = if self.current_cycle_index < self.cycle_entries.len() {
            self.cycle_entries[self.current_cycle_index]
        } else {
            CycleEntryState::NotStarted
        };
        if self.run_state == TimerRunState::Idle && self.phase == TimerPhase::Focus && current
            == CycleEntryState::NotStarted {
            return None;
        }
        let started_at = match self.current_phase_started_at {
            Some(s) => s,
            None => now,
        };
        let seconds = whole_seconds_of(self.elapsed_at(now));
        if self.phase != TimerPhase::Focus {
            let record = TimerRecord::Session {
                kind: session_kind_for_phase(self.phase),
                outcome: SessionOutcome::Completed,
                started_at,
                ended_at: now,
                duration_seconds: seconds,
            };
            self.finish_break(settings);
            Some(record)
        } else {
            let record = TimerRecord::Session {
                kind: SessionKind::Focus,
                outcome: SessionOutcome::Voided,
                started_at,
                ended_at: now,
                duration_seconds: seconds,
            };
            self.void_current_and_prepare_next();
            Some(record)
        }
    }
}

/// What quitting at `now` asks to have recorded: a running session, voided
/// after the time counted so far; nothing where the timer does not run.
pub open spec fn quit_record_spec(t: TimerModel, now: int) -> Option<TimerRecord> {
    if t.run_state == TimerRunState::Running {
        Some(
            TimerRecord::Session {
                kind: phase_kind(t.phase),
                outcome: SessionOutcome::Voided,
                started_at: (match t.current_phase_started_at {
                    Some(s) => s,
                    None => now,
                }) as i64,
                ended_at: now as i64,
                duration_seconds: whole_seconds(elapsed_at_spec(t, now)),
            },
        )
    } else {
        None
    }
}

impl TimerState {
    /// What quitting at `now` asks to have recorded; the timer itself is
    /// left as it is.
    pub fn quit_record(&self, now: i64) -> (r: Option<TimerRecord>)
        requires
            timer_in_range(self@, now as int),
        ensures
            r == quit_record_spec(self@, now as int),
    {
        if self.run_state != TimerRunState::Running {
            return None;
        }
        let started_at = match self.current_phase_started_at {
            Some(s) => s,
            None => now,
        };
        Some(
            TimerRecord::Session {
                kind: session_kind_for_phase(self.phase),
                outcome: SessionOutcome::Voided,
                started_at,
                ended_at: now,
                duration_seconds: whole_seconds_of(self.elapsed_at(now)),
            },
        )
    }
}

/// Starting a timer that already runs changes nothing: a second start, at
/// any later instant, leaves the timer as the first start left it.
pub proof fn start_is_idempotent(t: TimerModel, first: int, second: int)
    ensures
        start_spec(start_spec(t, first), second) == start_spec(t, first),
{
}

/// Time does not pass for a paused timer: once paused at `now`, the time
/// counted is the same at every later instant, and resuming later goes on
/// from it; the phase keeps the instant it first started.
pub proof fn pause_keeps_elapsed(t: TimerModel, now: int, later: int)
    requires
        timer_wf(t),
        t.run_state == TimerRunState::Running,
    ensures
        elapsed_at_spec(pause_spec(t, now), later) == elapsed_at_spec(t, now),
        elapsed_at_spec(start_spec(pause_spec(t, now), later), later) == elapsed_at_spec(t, now),
        start_spec(pause_spec(t, now), later).current_phase_started_at
            == t.current_phase_started_at,
{
}

/// Every step of the timer keeps the current slot within the slots or just
/// past them.
pub proof fn timer_steps_keep_wf(t: TimerModel, now: int, settings: TimerSettings, p: TimerPhase)
    requires
        timer_wf(t),
    ensures
        timer_wf(start_spec(t, now)),
        timer_wf(pause_spec(t, now)),
        timer_wf(move_to_phase_spec(t, p)),
        timer_wf(void_spec(t)),
        timer_wf(complete_break_spec(t)),
        timer_wf(next_slot_spec(t)),
        timer_wf(reset_round_spec(t, settings.long_break_interval as nat)),
        timer_wf(after_break_spec(t, settings)),
        timer_wf(tick_spec(t, now, settings).0),
        timer_wf(stop_spec(t, now, settings).0),
        timer_wf(timer_new(settings.long_break_interval as nat)),
{
}

/// A short break that ends marks the slot it belonged to completed, counts
/// it, and makes the next slot current at an idle focus phase.
pub proof fn short_break_completes_slot(t: TimerModel, settings: TimerSettings)
    requires
        timer_wf(t),
        t.phase == TimerPhase::ShortBreak,
        t.current_cycle_index < t.cycle_entries.len(),
    ensures
        ({
            let a = after_break_spec(t, settings);
            &&& a.cycle_entries[t.current_cycle_index as int] == CycleEntryState::Completed
            &&& a.completed_cycles_in_round == t.completed_cycles_in_round + 1
            &&& a.current_cycle_index == t.current_cycle_index + 1
            &&& a.current_cycle_index < a.cycle_entries.len()
            &&& a.phase == TimerPhase::Focus
            &&& a.run_state == TimerRunState::Idle
            &&& a.elapsed == 0
        }),
{
}

/// A long break that ends starts a new round: nothing completed, the first
/// of a fresh set of slots current, idle at focus.
pub proof fn long_break_starts_round(t: TimerModel, settings: TimerSettings)
    requires
        t.phase == TimerPhase::LongBreak,
    ensures
        ({
            let a = after_break_spec(t, settings);
            &&& a.completed_cycles_in_round == 0
            &&& a.current_cycle_index == 0
            &&& a.cycle_entries == fresh_round(settings.long_break_interval as nat)
            &&& a.phase == TimerPhase::Focus
            &&& a.run_state == TimerRunState::Idle
        }),
{
}

/// A focus phase that has run its length is recorded, and the break after
/// it starts at once: the long break when this focus completes the round,
/// the short one otherwise.
pub proof fn focus_completion_starts_break(t: TimerModel, now: int, settings: TimerSettings)
    requires
        t.run_state == TimerRunState::Running,
        t.phase == TimerPhase::Focus,
        elapsed_at_spec(t, now) >= phase_millis(TimerPhase::Focus, settings),
    ensures
        ({
            let (a, r) = tick_spec(t, now, settings);
            &&& a.phase == (if t.completed_cycles_in_round + 1 == settings.long_break_interval {
                TimerPhase::LongBreak
            } else {
                TimerPhase::ShortBreak
            })
            &&& a.run_state == TimerRunState::Running
            &&& elapsed_at_spec(a, now) == 0
            &&& a.completed_cycles_in_round == t.completed_cycles_in_round
            &&& a.current_cycle_index == t.current_cycle_index
            &&& r matches Some(TimerRecord::FocusCompleted { ended_at, .. }) && ended_at == now as i64
        }),
{
}

/// A phase runs exactly its configured number of seconds: a tick before
/// that many milliseconds have been counted changes nothing and records
/// nothing; a tick once they have records the phase. A timer that does not
/// run is left alone by a tick.
pub proof fn ticks_follow_phase_lengths(t: TimerModel, now: int, settings: TimerSettings)
    ensures
        (t.run_state == TimerRunState::Running && elapsed_at_spec(t, now) < phase_seconds(t.phase, settings)
            * 1000) ==> tick_spec(t, now, settings) == (t, None::<TimerRecord>),
        (t.run_state == TimerRunState::Running && elapsed_at_spec(t, now) >= phase_seconds(t.phase, settings)
            * 1000) ==> tick_spec(t, now, settings).1 is Some,
        t.run_state != TimerRunState::Running ==> tick_spec(t, now, settings) == (t, None::<TimerRecord>),
{
}

/// Stored minutes round a number of seconds up to whole minutes, and whole
/// seconds round milliseconds down, none for a count that is not positive.
pub proof fn recorded_lengths_round(seconds: nat, ms: int)
    requires
        seconds <= 60 * 1_000_000,
        ms <= 1000 * 1_000_000,
    ensures
        stored_minutes_spec(seconds) * 60 >= seconds,
        seconds > 0 ==> (stored_minutes_spec(seconds) - 1) * 60 < seconds,
        seconds == 0 ==> stored_minutes_spec(seconds) == 0,
        ms <= 0 ==> whole_seconds(ms) == 0,
        ms > 0 ==> whole_seconds(ms) * 1000 <= ms < (whole_seconds(ms) + 1) * 1000,
{
    let q = (seconds + 59) / 60;
    assert(q * 60 <= seconds + 59 < q * 60 + 60) by (nonlinear_arith)
        requires
            q == (seconds + 59) / 60,
    ;
    assert(q <= 1_000_001) by (nonlinear_arith)
        requires
            q * 60 <= seconds + 59,
            seconds <= 60 * 1_000_000,
    ;
    assert(stored_minutes_spec(seconds) == q);
    if ms > 0 {
        let w = ms / 1000;
        assert(w * 1000 <= ms < w * 1000 + 1000) by (nonlinear_arith)
            requires
                ms > 0,
                w == ms / 1000,
        ;
        assert(0 <= w <= 1_000_000) by (nonlinear_arith)
            requires
                w * 1000 <= ms,
                ms < w * 1000 + 1000,
                ms <= 1000 * 1_000_000,
                ms > 0,
        ;
        assert(whole_seconds(ms) == w);
    }
}

fn fresh_entries(n: u32) -> (r: Vec<CycleEntryState>)
    ensures
        r@ == fresh_round(n as nat),
{
    let mut r: Vec<CycleEntryState> = Vec::new();
    let mut i: u32 = 0;
    while i < n
        invariant
            i <= n,
            r@ == fresh_round(i as nat),
        decreases n - i,
    {
        r.push(CycleEntryState::NotStarted);
        assert(r@ =~= fresh_round((i + 1) as nat));
        i += 1;
    }
    r
}

fn whole_seconds_of(ms: i64) -> (r: u32)
    ensures
        r == whole_seconds(ms as int),
{
    if ms <= 0 {
        0
    } else {
        (ms / 1000) as u32
    }
}

/// The kind of session a phase records.
pub fn session_kind_for_phase(phase: TimerPhase) -> (r: SessionKind)
    ensures
        r == phase_kind(phase),
{
    match phase {
        TimerPhase::Focus => SessionKind::Focus,
        TimerPhase::ShortBreak => SessionKind::ShortBreak,
        TimerPhase::LongBreak => SessionKind::LongBreak,
    }
}

/// A length in seconds as the whole minutes stored for it, rounded up and
/// cut to 32 bits.
pub fn duration_to_stored_minutes(seconds: u64) -> (r: u32)
    ensures
        r == stored_minutes_spec(seconds as nat),
{
    let minutes = seconds / 60 + if seconds % 60 == 0 {
        0
    } else {
        1
    };
    assert(minutes == (seconds + 59) / 60);
    minutes as u32
}

/// The database file and the journal files that SQLite may keep beside it,
/// which a reset of the local data removes; none unless a reset is asked for.
pub fn reset_data_paths(db_path: &str, options: RunOptions) -> (r: Vec<String>)
    ensures
        options.reset_data ==> r@.len() == 3 && r@[0]@ == db_path@ && r@[1]@ == db_path@
            + "-wal"@ && r@[2]@ == db_path@ + "-shm"@,
        !options.reset_data ==> r@.len() == 0,
{
    let mut r: Vec<String> = Vec::new();
    if options.reset_data {
        let path = chars_of(db_path);
        let wal = chars_of("-wal");
        let shm = chars_of("-shm");
        r.push(string_of(db_path));
        r.push(string_from(concat_chars(path.as_slice(), wal.as_slice()).as_slice()));
        r.push(string_from(concat_chars(path.as_slice(), shm.as_slice()).as_slice()));
    }
    r
}

/// The settings that the command-line switches ask for: ASCII glyphs, and
/// the short timer preset.
pub fn apply_debug_overrides(config: &mut AppConfig, options: RunOptions)
    ensures
        *final(config) == (AppConfig {
            ui: UiConfig {
                glyph_mode: if options.force_ascii {
                    GlyphMode::Ascii
                } else {
                    old(config).ui.glyph_mode
                },
                ..old(config).ui
            },
            timer: if options.force_short_timer {
                TimerSettings {
                    pomodoro_length: 30,
                    short_break_length: 10,
                    long_break_length: 20,
                    long_break_interval: 4,
                }
            } else {
                old(config).timer
            },
            ..*old(config)
        }),
{
    if options.force_ascii {
        config.ui.glyph_mode = GlyphMode::Ascii;
    }
    if options.force_short_timer {
        config.timer = TimerSettings::short_timer_preset();
    }
}

/// The sort orders of the project, tag and filter lists that the
/// configuration does not ask to keep are set back to the manual order as
/// the program starts; nothing else changes.
pub fn reset_unpersisted_sorts(config: &mut AppConfig)
    ensures
        *final(config) == (AppConfig {
            ui: UiConfig {
                project_list_sort: if old(config).ui.persist_project_list_sort {
                    old(config).ui.project_list_sort
                } else {
                    ProjectSortOrder::Manual
                },
                tag_list_sort: if old(config).ui.persist_tag_list_sort {
                    old(config).ui.tag_list_sort
                } else {
                    TagSortOrder::Manual
                },
                filter_list_sort: if old(config).ui.persist_filter_list_sort {
                    old(config).ui.filter_list_sort
                } else {
                    FilterSortOrder::Manual
                },
                ..old(config).ui
            },
            ..*old(config)
        }),
{
    if !config.ui.persist_project_list_sort {
        config.ui.project_list_sort = ProjectSortOrder::Manual;
    }
    if !config.ui.persist_tag_list_sort {
        config.ui.tag_list_sort = TagSortOrder::Manual;
    }
    if !config.ui.persist_filter_list_sort {
        config.ui.filter_list_sort = FilterSortOrder::Manual;
    }
}

/// The fields of the task editor, in the order Tab visits them.
#[derive(Debug, Clone, Copy, PartialEq, Eq, Structural)]
pub enum TaskEditorField {
    Title,
    Project,
    Tags,
    DueDate,
    Priority,
    DueTime,
    Recurrence,
    Description,
    Parent,
}

/// Where a field stands in the order Tab visits the task editor: title,
/// description, project, tags, due date, priority, due time, recurrence,
/// parent.
pub open spec fn task_field_order(f: TaskEditorField) -> int {
    match f {
        TaskEditorField::Title => 0,
        TaskEditorField::Description => 1,
        TaskEditorField::Project => 2,
        TaskEditorField::Tags => 3,
        TaskEditorField::DueDate => 4,
        TaskEditorField::Priority => 5,
        TaskEditorField::DueTime => 6,
        TaskEditorField::Recurrence => 7,
        TaskEditorField::Parent => 8,
    }
}

impl TaskEditorField {
    /// The following field; the last field stays.
    pub fn next(self) -> (r: Self)
        ensures
            task_field_order(r) == if task_field_order(self) < 8 {
                task_field_order(self) + 1
            } else {
                8
            },
    {
        match self {
            Self::Title => Self::Description,
            Self::Description => Self::Project,
            Self::Project => Self::Tags,
            Self::Tags => Self::DueDate,
            Self::DueDate => Self::Priority,
            Self::Priority => Self::DueTime,
            Self::DueTime => Self::Recurrence,
            Self::Recurrence => Self::Parent,
            Self::Parent => Self::Parent,
        }
    }

    /// The preceding field; the first field stays.
    pub fn previous(self) -> (r: Self)
        ensures
            task_field_order(r) == if task_field_order(self) > 0 {
                task_field_order(self) - 1
            } else {
                0
            },
    {
        match self {
            Self::Title => Self::Title,
            Self::Description => Self::Title,
            Self::Project => Self::Description,
            Self::Tags => Self::Project,
            Self::DueDate => Self::Tags,
            Self::Priority => Self::DueDate,
            Self::DueTime => Self::Priority,
            Self::Recurrence => Self::DueTime,
            Self::Parent => Self::Recurrence,
        }
    }
}

/// Moving to the next task editor field and back returns to the field one
/// started from, except from the last field; moving back and on returns to
/// it, except from the first.
pub proof fn task_field_steps_undo(f: TaskEditorField, n: TaskEditorField, p: TaskEditorField)
    requires
        task_field_order(n) == if task_field_order(f) < 8 {
            task_field_order(f) + 1
        } else {
            8
        },
        task_field_order(p) == if task_field_order(f) > 0 {
            task_field_order(f) - 1
        } else {
            0
        },
    ensures
        task_field_order(f) < 8 ==> (if task_field_order(n) > 0 {
            task_field_order(n) - 1
        } else {
            0
        }) == task_field_order(f),
        task_field_order(f) > 0 ==> (if task_field_order(p) < 8 {
            task_field_order(p) + 1
        } else {
            8
        }) == task_field_order(f),
        forall|a: TaskEditorField, b: TaskEditorField|
            task_field_order(a) == task_field_order(b) ==> a == b,
{
}

/// The fields of the project editor.
#[derive(Debug, Clone, Copy, PartialEq, Eq, Structural)]
pub enum ProjectEditorField {
    Name,
    Parent,
    Color,
    Favorite,
}

pub open spec fn project_field_index(f: ProjectEditorField) -> int {
    match f {
        ProjectEditorField::Name => 0,
        ProjectEditorField::Parent => 1,
        ProjectEditorField::Color => 2,
        ProjectEditorField::Favorite => 3,
    }
}

impl ProjectEditorField {
    /// The field's position.
    pub fn index(self) -> (r: usize)
        ensures
            r == project_field_index(self),
    {
        match self {
            Self::Name => 0,
            Self::Parent => 1,
            Self::Color => 2,
            Self::Favorite => 3,
        }
    }

    /// The field at a position; positions past the end give the last field.
    pub fn from_index(index: usize) -> (r: Self)
        ensures
            project_field_index(r) == if index < 3 {
                index as int
            } else {
                3
            },
    {
        match index {
            0 => Self::Name,
            1 => Self::Parent,
            2 => Self::Color,
            _ => Self::Favorite,
        }
    }

    /// The following field; the last field stays.
    pub fn next(self) -> (r: Self)
        ensures
            project_field_index(r) == if project_field_index(self) < 3 {
                project_field_index(self) + 1
            } else {
                3
            },
    {
        let i = self.index() + 1;
        Self::from_index(if i < 3 {
            i
        } else {
            3
        })
    }

    /// The preceding field; the first field stays.
    pub fn previous(self) -> (r: Self)
        ensures
            project_field_index(r) == if project_field_index(self) > 0 {
                project_field_index(self) - 1
            } else {
                0
            },
    {
        let i = self.index();
        Self::from_index(if i > 0 {
            i - 1
        } else {
            0
        })
    }
}

/// The fields of the tag editor.
#[derive(Debug, Clone, Copy, PartialEq, Eq, Structural)]
pub enum TagEditorField {
    Name,
    Color,
    Favorite,
}

pub open spec fn tag_field_index(f: TagEditorField) -> int {
    match f {
        TagEditorField::Name => 0,
        TagEditorField::Color => 1,
        TagEditorField::Favorite => 2,
    }
}

impl TagEditorField {
    /// The field's position.
    pub fn index(self) -> (r: usize)
        ensures
            r == tag_field_index(self),
    {
        match self {
            Self::Name => 0,
            Self::Color => 1,
            Self::Favorite => 2,
        }
    }

    /// The field at a position; positions past the end give the last field.
    pub fn from_index(index: usize) -> (r: Self)
        ensures
            tag_field_index(r) == if index < 2 {
                index as int
            } else {
                2
            },
    {
        match index {
            0 => Self::Name,
            1 => Self::Color,
            _ => Self::Favorite,
        }
    }

    /// The following field; the last field stays.
    pub fn next(self) -> (r: Self)
        ensures
            tag_field_index(r) == if tag_field_index(self) < 2 {
                tag_field_index(self) + 1
            } else {
                2
            },
    {
        let i = self.index() + 1;
        Self::from_index(if i < 2 {
            i
        } else {
            2
        })
    }

    /// The preceding field; the first field stays.
    pub fn previous(self) -> (r: Self)
        ensures
            tag_field_index(r) == if tag_field_index(self) > 0 {
                tag_field_index(self) - 1
            } else {
                0
            },
    {
        let i = self.index();
        Self::from_index(if i > 0 {
            i - 1
        } else {
            0
        })
    }
}

/// The fields of the filter editor.
#[derive(Debug, Clone, Copy, PartialEq, Eq, Structural)]
pub enum FilterEditorField {
    Name,
    Query,
    Color,
    Favorite,
}

pub open spec fn filter_field_index(f: FilterEditorField) -> int {
    match f {
        FilterEditorField::Name => 0,
        FilterEditorField::Query => 1,
        FilterEditorField::Color => 2,
        FilterEditorField::Favorite => 3,
    }
}

impl FilterEditorField {
    /// The field's position.
    pub fn index(self) -> (r: usize)
        ensures
            r == filter_field_index(self),
    {
        match self {
            Self::Name => 0,
            Self::Query => 1,
            Self::Color => 2,
            Self::Favorite => 3,
        }
    }

    /// The field at a position; positions past the end give the last field.
    pub fn from_index(index: usize) -> (r: Self)
        ensures
            filter_field_index(r) == if index < 3 {
                index as int
            } else {
                3
            },
    {
        match index {
            0 => Self::Name,
            1 => Self::Query,
            2 => Self::Color,
            _ => Self::Favorite,
        }
    }

    /// The following field; the last field stays.
    pub fn next(self) -> (r: Self)
        ensures
            filter_field_index(r) == if filter_field_index(self) < 3 {
                filter_field_index(self) + 1
            } else {
                3
            },
    {
        let i = self.index() + 1;
        Self::from_index(if i < 3 {
            i
        } else {
            3
        })
    }

    /// The preceding field; the first field stays.
    pub fn previous(self) -> (r: Self)
        ensures
            filter_field_index(r) == if filter_field_index(self) > 0 {
                filter_field_index(self) - 1
            } else {
                0
            },
    {
        let i = self.index();
        Self::from_index(if i > 0 {
            i - 1
        } else {
            0
        })
    }
}

/// A field's position leads back to the field, in each of the three small
/// editors.
pub proof fn editor_field_index_round_trip(
    p: ProjectEditorField,
    t: TagEditorField,
    f: FilterEditorField,
)
    ensures
        forall|q: ProjectEditorField|
            project_field_index(q) == project_field_index(p) ==> q == p,
        forall|q: TagEditorField| tag_field_index(q) == tag_field_index(t) ==> q == t,
        forall|q: FilterEditorField| filter_field_index(q) == filter_field_index(f) ==> q == f,
        0 <= project_field_index(p) < 4,
        0 <= tag_field_index(t) < 3,
        0 <= filter_field_index(f) < 4,
{
}

/// One line of the preview panel of an editor.
#[derive(Debug, Clone, PartialEq, Eq)]
pub enum PreviewLineView {
    KeyValue { label: String, value: String, emphasized: bool, dimmed: bool },
    Text { text: String, dimmed: bool },
}

impl PreviewLineView {
    /// A plain `label: value` line.
    pub fn key_value(label: &str, value: String) -> (r: Self)
        ensures
            r matches PreviewLineView::KeyValue { label: l, value: v, emphasized, dimmed } && l@
                == label@ && v@ == value@ && !emphasized && !dimmed,
    {
        PreviewLineView::KeyValue {
            label: string_of(label),
            value,
            emphasized: false,
            dimmed: false,
        }
    }

    /// A `label: value` line that stands out.
    pub fn emphasized_key_value(label: &str, value: String) -> (r: Self)
        ensures
            r matches PreviewLineView::KeyValue { label: l, value: v, emphasized, dimmed } && l@
                == label@ && v@ == value@ && emphasized && !dimmed,
    {
        PreviewLineView::KeyValue {
            label: string_of(label),
            value,
            emphasized: true,
            dimmed: false,
        }
    }

    /// A `label: value` line drawn faintly.
    pub fn dimmed_key_value(label: &str, value: String) -> (r: Self)
        ensures
            r matches PreviewLineView::KeyValue { label: l, value: v, emphasized, dimmed } && l@
                == label@ && v@ == value@ && !emphasized && dimmed,
    {
        PreviewLineView::KeyValue {
            label: string_of(label),
            value,
            emphasized: false,
            dimmed: true,
        }
    }

    /// A line of plain text.
    pub fn text(text: String) -> (r: Self)
        ensures
            r matches PreviewLineView::Text { text: t, dimmed } && t@ == text@ && !dimmed,
    {
        PreviewLineView::Text { text, dimmed: false }
    }
}

/// Whether `query` occurs in `candidate` as a subsequence: its characters
/// appear there in order, not necessarily side by side.
pub open spec fn is_subsequence(query: Seq<char>, candidate: Seq<char>) -> bool {
    exists|pos: Seq<int>|
        #![trigger pos.len()]
        pos.len() == query.len() && (forall|i: int|
            0 <= i < pos.len() ==> 0 <= #[trigger] pos[i] < candidate.len() && candidate[pos[i]]
                == query[i]) && (forall|i: int, j: int|
            0 <= i < j < pos.len() ==> #[trigger] pos[i] < #[trigger] pos[j])
}

/// Whether the characters of `query`, lowered, appear in order among the
/// characters of `candidate`, lowered. An empty query matches everything.
pub open spec fn fuzzy_match_spec(query: Seq<char>, candidate: Seq<char>) -> bool {
    is_subsequence(chars_lowercase(query), chars_lowercase(candidate))
}

/// The characters of a text, each lowered, one after another.
fn lowered_chars(s: &str) -> (r: Vec<char>)
    ensures
        r@ == chars_lowercase(s@),
{
    let chars = chars_of(s);
    let mut r: Vec<char> = Vec::new();
    let mut i: usize = 0;
    while i < chars.len()
        invariant
            i <= chars.len(),
            chars@ == s@,
            r@ == chars_lowercase(chars@.take(i as int)),
        decreases chars.len() - i,
    {
        let lowered = char_to_lowercase(chars[i]);
        let mut j: usize = 0;
        let ghost before = r@;
        while j < lowered.len()
            invariant
                j <= lowered.len(),
                r@ == before + lowered@.take(j as int),
            decreases lowered.len() - j,
        {
            r.push(lowered[j]);
            assert(lowered@.take(j + 1) == lowered@.take(j as int).push(lowered@[j as int]));
            j += 1;
        }
        assert(lowered@.take(lowered.len() as int) == lowered@);
        assert(chars@.take(i + 1).drop_last() == chars@.take(i as int));
        i += 1;
    }
    assert(chars@.take(chars.len() as int) == chars@);
    r
}

proof fn lemma_subsequence_extend(q: Seq<char>, c: Seq<char>, k: int, pos: Seq<int>, at: int)
    requires
        0 <= k < q.len(),
        pos.len() == k,
        forall|i: int| 0 <= i < k ==> 0 <= #[trigger] pos[i] < at && c[pos[i]] == q[i],
        forall|i: int, j: int| 0 <= i < j < k ==> #[trigger] pos[i] < #[trigger] pos[j],
        0 <= at < c.len(),
        c[at] == q[k],
    ensures
        ({
            let p2 = pos.push(at);
            &&& p2.len() == k + 1
            &&& forall|i: int| 0 <= i < k + 1 ==> 0 <= #[trigger] p2[i] <= at && c[p2[i]] == q[i]
            &&& forall|i: int, j: int| 0 <= i < j < k + 1 ==> #[trigger] p2[i] < #[trigger] p2[j]
        }),
{
    let p2 = pos.push(at);
    assert forall|i: int, j: int| 0 <= i < j < k + 1 implies #[trigger] p2[i] < #[trigger] p2[j] by {
        if j == k {
            assert(p2[i] == pos[i]);
        } else {
            assert(p2[i] == pos[i] && p2[j] == pos[j]);
        }
    }
}

/// How many query characters the greedy scan has matched after the first
/// `m` candidate characters.
pub open spec fn greedy_prefix(q: Seq<char>, c: Seq<char>, m: int) -> int
    decreases m,
{
    if m <= 0 {
        0
    } else {
        let k = greedy_prefix(q, c, m - 1);
        if k < q.len() && m - 1 < c.len() && c[m - 1] == q[k] {
            k + 1
        } else {
            k
        }
    }
}

proof fn lemma_greedy_monotone(q: Seq<char>, c: Seq<char>, a: int, b: int)
    requires
        0 <= a <= b,
    ensures
        greedy_prefix(q, c, a) <= greedy_prefix(q, c, b),
    decreases b - a,
{
    if a < b {
        lemma_greedy_monotone(q, c, a, b - 1);
    }
}

/// Whatever embedding of the query exists, the greedy scan has matched the
/// `i`-th query character once it has read up to that character's place.
proof fn lemma_greedy_step_bound(q: Seq<char>, c: Seq<char>, pos: Seq<int>, i: int)
    requires
        pos.len() == q.len(),
        forall|t: int| 0 <= t < pos.len() ==> 0 <= #[trigger] pos[t] < c.len() && c[pos[t]] == q[t],
        forall|s: int, t: int| 0 <= s < t < pos.len() ==> #[trigger] pos[s] < #[trigger] pos[t],
        0 <= i < q.len(),
    ensures
        greedy_prefix(q, c, pos[i] + 1) >= i + 1,
    decreases i,
{
    let m = pos[i];
    if i == 0 {
        lemma_greedy_monotone(q, c, 0, m);
    } else {
        lemma_greedy_step_bound(q, c, pos, i - 1);
        assert(pos[i - 1] < pos[i]);
        lemma_greedy_monotone(q, c, pos[i - 1] + 1, m);
    }
    let k = greedy_prefix(q, c, m);
    if k == i {
        assert(c[m] == q[i]);
    }
}

/// When the greedy scan over the whole candidate stops short of the end of
/// the query, the query is no subsequence of the candidate.
proof fn lemma_greedy_complete(q: Seq<char>, c: Seq<char>, k: int)
    requires
        0 <= k < q.len(),
        greedy_prefix(q, c, c.len() as int) == k,
    ensures
        !is_subsequence(q, c),
{
    if is_subsequence(q, c) {
        let pos = choose|pos: Seq<int>|
            #![trigger pos.len()]
            pos.len() == q.len() && (forall|i: int|
                0 <= i < pos.len() ==> 0 <= #[trigger] pos[i] < c.len() && c[pos[i]] == q[i]) && (
            forall|i: int, j: int| 0 <= i < j < pos.len() ==> #[trigger] pos[i] < #[trigger] pos[j]);
        let last = q.len() - 1;
        lemma_greedy_step_bound(q, c, pos, last);
        lemma_greedy_monotone(q, c, pos[last] + 1, c.len() as int);
    }
}
/// Whether the characters of `query`, lowered, appear in order among those of
/// `candidate`, lowered.
pub fn fuzzy_matches(query: &str, candidate: &str) -> (r: bool)
    ensures
        r == fuzzy_match_spec(query@, candidate@),
{
    let q = lowered_chars(query);
    let c = lowered_chars(candidate);
    if q.len() == 0 {
        proof {
            let pos = Seq::<int>::empty();
            assert(pos.len() == q@.len());
        }
        return true;
    }
    let mut k: usize = 0;
    let mut m: usize = 0;
    let ghost mut pos: Seq<int> = Seq::empty();
    while m < c.len()
        invariant
            q@ == chars_lowercase(query@),
            c@ == chars_lowercase(candidate@),
            0 <= k < q.len(),
            m <= c.len(),
            k == greedy_prefix(q@, c@, m as int),
            pos.len() == k,
            forall|i: int| 0 <= i < k ==> 0 <= #[trigger] pos[i] < m && c@[pos[i]] == q@[i],
            forall|i: int, j: int| 0 <= i < j < k ==> #[trigger] pos[i] < #[trigger] pos[j],
        decreases c.len() - m,
    {
        if c[m] == q[k] {
            proof {
                lemma_subsequence_extend(q@, c@, k as int, pos, m as int);
                pos = pos.push(m as int);
            }
            k += 1;
            if k == q.len() {
                proof {
                    assert(pos.len() == q@.len());
                    assert(forall|i: int|
                        0 <= i < pos.len() ==> 0 <= #[trigger] pos[i] < c@.len() && c@[pos[i]]
                            == q@[i]);
                    assert(is_subsequence(q@, c@));
                }
                return true;
            }
        }
        m += 1;
    }
    proof {
        lemma_greedy_complete(q@, c@, k as int);
    }
    false
}


/// An empty query matches every text, and every text matches itself.
pub proof fn fuzzy_match_laws(query: Seq<char>, candidate: Seq<char>)
    ensures
        query.len() == 0 ==> fuzzy_match_spec(query, candidate),
        fuzzy_match_spec(candidate, candidate),
{
    let lq = chars_lowercase(query);
    let lc = chars_lowercase(candidate);
    if query.len() == 0 {
        assert(lq.len() == 0);
        let pos = Seq::<int>::empty();
        assert(pos.len() == lq.len());
    }
    let ident = Seq::new(lc.len(), |i: int| i);
    assert(ident.len() == lc.len());
    assert(forall|i: int| 0 <= i < ident.len() ==> 0 <= #[trigger] ident[i] < lc.len() && lc[ident[i]] == lc[i]);
    assert(is_subsequence(lc, lc));
}


/// The lines the help takes: each section's title and tips, and a blank
/// line between sections.
pub open spec fn help_lines(sections: Seq<ShortcutSection>) -> nat
    decreases sections.len(),
{
    if sections.len() == 0 {
        0
    } else {
        help_lines(sections.drop_last()) + sections.last().tips@.len() + 1 + if sections.len() > 1 {
            1nat
        } else {
            0nat
        }
    }
}

/// The number of lines the help takes.
pub fn help_line_count(sections: &[ShortcutSection]) -> (r: usize)
    requires
        help_lines(sections@) <= usize::MAX,
    ensures
        r == help_lines(sections@),
{
    let mut total: usize = 0;
    let mut i: usize = 0;
    while i < sections.len()
        invariant
            i <= sections.len(),
            help_lines(sections@) <= usize::MAX,
            total == help_lines(sections@.take(i as int)),
        decreases sections.len() - i,
    {
        proof {
            assert(sections@.take(i + 1).drop_last() =~= sections@.take(i as int));
            lemma_help_lines_prefix(sections@, i + 1);
        }
        total = total + sections[i].tips.len() + 1 + if i > 0 {
            1
        } else {
            0
        };
        i += 1;
    }
    assert(sections@.take(sections.len() as int) =~= sections@);
    total
}

proof fn lemma_help_lines_prefix(s: Seq<ShortcutSection>, k: int)
    requires
        0 <= k <= s.len(),
    ensures
        help_lines(s.take(k)) <= help_lines(s),
    decreases s.len() - k,
{
    if k < s.len() {
        lemma_help_lines_prefix(s.drop_last(), k);
        assert(s.drop_last().take(k) =~= s.take(k));
    } else {
        assert(s.take(k) =~= s);
    }
}

/// How many lines of help the popup shows in a terminal of the given
/// height: the help and its border where they fit, leaving four rows of
/// the screen (two on a very small screen), at least one line.
pub open spec fn help_viewport_spec(total_lines: nat, terminal_height: u16) -> nat {
    let padded: int = if total_lines + 2 > usize::MAX {
        usize::MAX as int
    } else {
        (total_lines + 2) as int
    };
    let wanted = (padded as u16) as int;
    let room = if terminal_height >= 8 {
        terminal_height - 4
    } else if terminal_height >= 3 {
        terminal_height - 2
    } else {
        1
    };
    let popup = if wanted < room {
        wanted
    } else {
        room
    };
    if popup >= 3 {
        (popup - 2) as nat
    } else {
        1
    }
}

/// How many lines of help the popup shows.
pub fn help_viewport_lines(total_lines: usize, terminal_height: u16) -> (r: usize)
    ensures
        r == help_viewport_spec(total_lines as nat, terminal_height),
{
    let wanted: u16 = total_lines.saturating_add(2) as u16;
    let room: u16 = if terminal_height >= 8 {
        terminal_height - 4
    } else if terminal_height >= 3 {
        terminal_height - 2
    } else {
        1
    };
    let popup = if wanted < room {
        wanted
    } else {
        room
    };
    if popup >= 3 {
        (popup - 2) as usize
    } else {
        1
    }
}

/// The help scroll kept within what can be scrolled: no further than the
/// last screenful.
pub fn clamp_help_scroll(scroll: usize, total_lines: usize, viewport_lines: usize) -> (r: usize)
    ensures
        r == if scroll < total_lines - (if viewport_lines == 0 { 1 } else { viewport_lines }) {
            scroll as int
        } else if total_lines >= (if viewport_lines == 0 { 1 } else { viewport_lines }) {
            total_lines - (if viewport_lines == 0 { 1 } else { viewport_lines })
        } else {
            0
        },
{
    let shown = if viewport_lines == 0 {
        1
    } else {
        viewport_lines
    };
    let max_scroll = total_lines.saturating_sub(shown);
    if scroll < max_scroll {
        scroll
    } else {
        max_scroll
    }
}

/// The command to jump to a panel, or the tips of a panel, as shown in help.
#[derive(Debug, Clone, Copy, PartialEq, Eq)]
pub struct ShortcutTip {
    pub keys: &'static str,
    pub description: &'static str,
}

/// A titled group of shortcut tips.
#[derive(Debug, Clone, Copy, PartialEq, Eq)]
pub struct ShortcutSection {
    pub title: &'static str,
    pub tips: &'static [ShortcutTip],
}

/// The data the screens are drawn from.
#[derive(Debug, Clone, Default)]
pub struct ScreenData {
    pub tasks: Vec<Task>,
    pub projects: Vec<Project>,
    pub tags: Vec<Tag>,
    pub filters: Vec<Filter>,
    pub task_tag_links: Vec<(TaskId, TagId)>,
    pub history_entries: Vec<SessionEntry>,
    pub today_stats: HistoryStats,
    pub weekly_summaries: Vec<DayHistorySummary>,
    pub weekly_stats: HistoryStats,
    pub completed_focus_days_30: Vec<FocusDaySummary>,
    pub completed_focus_hours_30: Vec<FocusHourSummary>,
}

/// What the task input popup shows.
#[derive(Debug, Clone, PartialEq, Eq)]
pub struct TaskInputView {
    pub title: &'static str,
    pub value: String,
    pub cursor: usize,
    pub project_name: String,
    pub show_project_assignment: bool,
    pub project_suggestions: Vec<String>,
    pub selected_project_suggestion: usize,
    pub tag_suggestions: Vec<String>,
    pub selected_tag_suggestion: usize,
    pub priority_suggestions: Vec<String>,
    pub selected_priority_suggestion: usize,
    pub due_preview: Option<TaskDuePreviewView>,
    pub preview_panel: FormPreviewPanelView,
}

/// The month the date picker shows and the day picked.
#[derive(Debug, Clone, Copy, PartialEq, Eq)]
pub struct CalendarPickerView {
    pub display_date: CalendarDate,
    pub selected_date: CalendarDate,
}

/// Which field of the task editor has the keyboard.
#[derive(Debug, Clone, Copy, PartialEq, Eq)]
pub struct TaskEditorFocusView {
    pub title: bool,
    pub description: bool,
    pub project: bool,
    pub tags: bool,
    pub due_date: bool,
    pub priority: bool,
    pub due_time: bool,
    pub recurrence: bool,
    pub parent: bool,
}

/// What the task editor shows.
#[derive(Debug, Clone, PartialEq, Eq)]
pub struct TaskEditorView {
    pub title: &'static str,
    pub title_value: String,
    pub title_cursor: usize,
    pub description_value: String,
    pub description_cursor: usize,
    pub description_scroll: usize,
    pub project_value: String,
    pub project_cursor: usize,
    pub project_suggestions: Vec<String>,
    pub selected_project_suggestion: usize,
    pub tags_value: String,
    pub tags_cursor: usize,
    pub tag_suggestions: Vec<String>,
    pub selected_tag_suggestion: usize,
    pub due_date_value: String,
    pub due_date_cursor: usize,
    pub priority_value: String,
    pub priority_cursor: usize,
    pub priority_suggestions: Vec<String>,
    pub selected_priority_suggestion: usize,
    pub due_time_value: String,
    pub due_time_cursor: usize,
    pub recurrence_value: String,
    pub recurrence_cursor: usize,
    pub parent_value: String,
    pub parent_cursor: usize,
    pub parent_suggestions: Vec<String>,
    pub selected_parent_suggestion: usize,
    pub focus: TaskEditorFocusView,
    pub due_preview: Option<TaskDuePreviewView>,
    pub calendar: Option<CalendarPickerView>,
    pub preview_panel: FormPreviewPanelView,
}

/// One row of the task list.
#[derive(Debug, Clone, Copy, PartialEq, Eq)]
pub struct TaskListRowView {
    pub task_id: TaskId,
    pub depth: usize,
    pub has_children: bool,
    pub is_expanded: bool,
}

/// The due date an editor would store, as shown before saving.
#[derive(Debug, Clone, PartialEq, Eq)]
pub struct TaskDuePreviewView {
    pub date: CalendarDate,
    pub datetime: Option<i64>,
    pub string: String,
    pub is_recurring: bool,
}

/// The preview panel of an editor: lines and tips.
#[derive(Debug, Clone, PartialEq, Eq)]
pub struct FormPreviewPanelView {
    pub preview_lines: Vec<PreviewLineView>,
    pub tips: Vec<String>,
}

/// The task a delete confirmation asks about.
#[derive(Debug, Clone, PartialEq, Eq)]
pub struct DeleteConfirmationView {
    pub task_id: TaskId,
    pub task_title: String,
}

/// One result of the task search popup.
#[derive(Debug, Clone, PartialEq, Eq)]
pub struct TaskSearchResultView {
    pub task_id: TaskId,
    pub title: String,
}

/// What the task search popup shows.
#[derive(Debug, Clone, PartialEq, Eq)]
pub struct TaskSearchView {
    pub title: &'static str,
    pub query: String,
    pub cursor: usize,
    pub selected_index: usize,
    pub results: Vec<TaskSearchResultView>,
}

/// What the session note editor shows.
#[derive(Debug, Clone, PartialEq, Eq)]
pub struct SessionNoteEditorView {
    pub title: &'static str,
    pub value: String,
    pub cursor: usize,
    pub scroll: usize,
}

/// What the session note viewer shows.
#[derive(Debug, Clone, PartialEq, Eq)]
pub struct SessionNoteViewerView {
    pub title: &'static str,
    pub value: String,
    pub scroll: usize,
}

/// The search typed into a panel.
#[derive(Debug, Clone, PartialEq, Eq)]
pub struct PanelSearchStatusView {
    pub query: String,
    pub cursor: usize,
    pub is_editing: bool,
}

/// One row of the project tree.
#[derive(Debug, Clone, PartialEq, Eq)]
pub struct ProjectTreeRowView {
    pub project_id: Option<ProjectId>,
    pub name: String,
    pub depth: usize,
    pub tree_prefix: String,
    pub is_favorite: bool,
    pub color: Option<ProjectColor>,
    pub task_count: usize,
    pub is_selected: bool,
}

/// Which field of the project editor has the keyboard.
#[derive(Debug, Clone, PartialEq, Eq)]
pub struct ProjectEditorFocusView {
    pub name: bool,
    pub parent: bool,
    pub color: bool,
    pub favorite: bool,
}

/// What the project editor shows.
#[derive(Debug, Clone, PartialEq, Eq)]
pub struct ProjectEditorView {
    pub title: &'static str,
    pub name_value: String,
    pub name_cursor: usize,
    pub parent_value: String,
    pub parent_cursor: usize,
    pub parsed_name: String,
    pub parent_label: Option<String>,
    pub parent_suggestions: Vec<String>,
    pub selected_parent_suggestion: usize,
    pub color_label: String,
    pub color_value: ProjectColor,
    pub is_favorite: bool,
    pub focus: ProjectEditorFocusView,
    pub preview_panel: FormPreviewPanelView,
}

/// The project a delete confirmation asks about.
#[derive(Debug, Clone, PartialEq, Eq)]
pub struct ProjectDeleteConfirmationView {
    pub project_id: ProjectId,
    pub project_name: String,
}

/// One choice of the task sort popup.
#[derive(Debug, Clone, PartialEq, Eq)]
pub struct TaskSortOptionView {
    pub label: &'static str,
    pub is_active: bool,
}

/// What the task sort popup shows.
#[derive(Debug, Clone, PartialEq, Eq)]
pub struct TaskSortPopupView {
    pub title: &'static str,
    pub selected_index: usize,
    pub options: Vec<TaskSortOptionView>,
}

/// One choice of the project sort popup.
#[derive(Debug, Clone, PartialEq, Eq)]
pub struct ProjectSortOptionView {
    pub label: &'static str,
    pub is_active: bool,
}

/// What the project sort popup shows.
#[derive(Debug, Clone, PartialEq, Eq)]
pub struct ProjectSortPopupView {
    pub title: &'static str,
    pub selected_index: usize,
    pub options: Vec<ProjectSortOptionView>,
}

/// One row of the tag list.
#[derive(Debug, Clone, PartialEq, Eq)]
pub struct TagListRowView {
    pub tag_id: Option<TagId>,
    pub name: String,
    pub is_favorite: bool,
    pub color: Option<TagColor>,
    pub task_count: usize,
    pub is_selected: bool,
}

/// Which field of the tag editor has the keyboard.
#[derive(Debug, Clone, PartialEq, Eq)]
pub struct TagEditorFocusView {
    pub name: bool,
    pub color: bool,
    pub favorite: bool,
}

/// What the tag editor shows.
#[derive(Debug, Clone, PartialEq, Eq)]
pub struct TagEditorView {
    pub title: &'static str,
    pub name_value: String,
    pub name_cursor: usize,
    pub color_label: String,
    pub color_value: TagColor,
    pub is_favorite: bool,
    pub focus: TagEditorFocusView,
    pub preview_panel: FormPreviewPanelView,
}

/// The tag a delete confirmation asks about.
#[derive(Debug, Clone, PartialEq, Eq)]
pub struct TagDeleteConfirmationView {
    pub tag_id: TagId,
    pub tag_name: String,
}

/// One choice of the tag sort popup.
#[derive(Debug, Clone, PartialEq, Eq)]
pub struct TagSortOptionView {
    pub label: &'static str,
    pub is_active: bool,
}

/// What the tag sort popup shows.
#[derive(Debug, Clone, PartialEq, Eq)]
pub struct TagSortPopupView {
    pub title: &'static str,
    pub selected_index: usize,
    pub options: Vec<TagSortOptionView>,
}

/// One row of the filter list.
#[derive(Debug, Clone, PartialEq, Eq)]
pub struct FilterListRowView {
    pub filter_id: Option<FilterId>,
    pub name: String,
    pub query: Option<String>,
    pub is_favorite: bool,
    pub color: Option<FilterColor>,
    pub task_count: usize,
    pub is_selected: bool,
}

/// What a favorite stands for.
#[derive(Debug, Clone, Copy, PartialEq, Eq, Structural)]
pub enum FavoriteItemKind {
    Project(ProjectId),
    Tag(TagId),
    Filter(FilterId),
}

/// The colour of a favorite.
#[derive(Debug, Clone, Copy, PartialEq, Eq, Structural)]
pub enum FavoriteItemColor {
    Project(ProjectColor),
    Tag(TagColor),
    Filter(FilterColor),
}

/// One row of the favorites panel.
#[derive(Debug, Clone, PartialEq, Eq)]
pub struct FavoriteListRowView {
    pub item: FavoriteItemKind,
    pub name: String,
    pub color: FavoriteItemColor,
    pub task_count: usize,
    pub is_selected: bool,
}

/// Which field of the filter editor has the keyboard.
#[derive(Debug, Clone, PartialEq, Eq)]
pub struct FilterEditorFocusView {
    pub name: bool,
    pub query: bool,
    pub color: bool,
    pub favorite: bool,
}

/// What the filter editor shows.
#[derive(Debug, Clone, PartialEq, Eq)]
pub struct FilterEditorView {
    pub title: &'static str,
    pub name_value: String,
    pub name_cursor: usize,
    pub query_value: String,
    pub query_cursor: usize,
    pub color_label: String,
    pub color_value: FilterColor,
    pub is_favorite: bool,
    pub focus: FilterEditorFocusView,
    pub validation_error: Option<String>,
    pub preview_panel: FormPreviewPanelView,
}

/// The filter a delete confirmation asks about.
#[derive(Debug, Clone, PartialEq, Eq)]
pub struct FilterDeleteConfirmationView {
    pub filter_id: FilterId,
    pub filter_name: String,
}

/// One choice of the filter sort popup.
#[derive(Debug, Clone, PartialEq, Eq)]
pub struct FilterSortOptionView {
    pub label: &'static str,
    pub is_active: bool,
}

/// What the filter sort popup shows.
#[derive(Debug, Clone, PartialEq, Eq)]
pub struct FilterSortPopupView {
    pub title: &'static str,
    pub selected_index: usize,
    pub options: Vec<FilterSortOptionView>,
}

} // verus!
