//! The user's settings: list orders, timer lengths, statistics targets and
//! the sync integration; the rules a configuration must meet; how durations
//! are written in a configuration file; and where the files live.
//!
//! Durations are counted in whole seconds.
use vstd::prelude::*;

use crate::text::{
    all_ascii_digits, chars_eq, chars_of, concat_chars, decimal_digits, decimal_string,
    decimal_value, is_blank, is_whitespace, lemma_decimal_round_trip, parse_digits_u64, slice_chars,
    string_from, string_of, trim_chars, trim_spec, is_white_space, lemma_trim_of_solid,
    lemma_trim_start_suffix, trim_start_spec, trim_end_spec,
};

verus! {

/// Why a configuration, or a piece of one, is refused.
#[derive(Debug, Clone, PartialEq, Eq)]
pub struct ConfigError {
    pub message: String,
}

impl ConfigError {
    fn of(message: &str) -> (r: Self)
        ensures
            r.message@ == message@,
    {
        ConfigError { message: string_of(message) }
    }

    fn from_chars(message: &[char]) -> (r: Self)
        ensures
            r.message@ == message@,
    {
        ConfigError { message: string_from(message) }
    }
}

/// Which glyphs the interface draws with.
#[derive(Debug, Clone, Copy, PartialEq, Eq, Structural)]
pub enum GlyphMode {
    Ascii,
    NerdFonts,
}

impl Default for GlyphMode {
    fn default() -> (r: Self)
        ensures
            r == GlyphMode::NerdFonts,
    {
        GlyphMode::NerdFonts
    }
}

/// How the task list is ordered.
#[derive(Debug, Clone, Copy, PartialEq, Eq, Structural)]
pub enum TaskSortOrder {
    DueAsc,
    DueDesc,
    TitleAsc,
    TitleDesc,
    CreatedNewest,
    CreatedOldest,
    PriorityHigh,
    PriorityLow,
}

/// The task sort orders, in the order the sort popup lists them.
pub open spec fn task_sort_orders() -> Seq<TaskSortOrder> {
    seq![TaskSortOrder::DueAsc, TaskSortOrder::DueDesc, TaskSortOrder::TitleAsc, TaskSortOrder::TitleDesc, TaskSortOrder::CreatedNewest, TaskSortOrder::CreatedOldest, TaskSortOrder::PriorityHigh, TaskSortOrder::PriorityLow]
}

pub open spec fn task_sort_label(o: TaskSortOrder) -> Seq<char> {
    match o {
        TaskSortOrder::DueAsc => "Due Date ↑"@,
        TaskSortOrder::DueDesc => "Due Date ↓"@,
        TaskSortOrder::TitleAsc => "Title A-Z"@,
        TaskSortOrder::TitleDesc => "Title Z-A"@,
        TaskSortOrder::CreatedNewest => "Created Newest"@,
        TaskSortOrder::CreatedOldest => "Created Oldest"@,
        TaskSortOrder::PriorityHigh => "Priority High-Low"@,
        TaskSortOrder::PriorityLow => "Priority Low-High"@,
    }
}

pub open spec fn task_sort_short_label(o: TaskSortOrder) -> Seq<char> {
    match o {
        TaskSortOrder::DueAsc => "due ↑"@,
        TaskSortOrder::DueDesc => "due ↓"@,
        TaskSortOrder::TitleAsc => "title ↑"@,
        TaskSortOrder::TitleDesc => "title ↓"@,
        TaskSortOrder::CreatedNewest => "newest"@,
        TaskSortOrder::CreatedOldest => "oldest"@,
        TaskSortOrder::PriorityHigh => "prio ↑"@,
        TaskSortOrder::PriorityLow => "prio ↓"@,
    }
}

impl TaskSortOrder {
    /// Every order, in the order the sort popup offers them.
    pub fn all() -> (r: &'static [Self])
        ensures
            r@ == task_sort_orders(),
    {
        &[Self::DueAsc, Self::DueDesc, Self::TitleAsc, Self::TitleDesc, Self::CreatedNewest, Self::CreatedOldest, Self::PriorityHigh, Self::PriorityLow]
    }

    /// The name shown in the sort popup.
    pub fn label(self) -> (r: &'static str)
        ensures
            r@ == task_sort_label(self),
    {
        match self {
            Self::DueAsc => "Due Date ↑",
            Self::DueDesc => "Due Date ↓",
            Self::TitleAsc => "Title A-Z",
            Self::TitleDesc => "Title Z-A",
            Self::CreatedNewest => "Created Newest",
            Self::CreatedOldest => "Created Oldest",
            Self::PriorityHigh => "Priority High-Low",
            Self::PriorityLow => "Priority Low-High",
        }
    }

    /// The short name shown in the panel title.
    pub fn short_label(self) -> (r: &'static str)
        ensures
            r@ == task_sort_short_label(self),
    {
        match self {
            Self::DueAsc => "due ↑",
            Self::DueDesc => "due ↓",
            Self::TitleAsc => "title ↑",
            Self::TitleDesc => "title ↓",
            Self::CreatedNewest => "newest",
            Self::CreatedOldest => "oldest",
            Self::PriorityHigh => "prio ↑",
            Self::PriorityLow => "prio ↓",
        }
    }
}

impl Default for TaskSortOrder {
    fn default() -> (r: Self)
        ensures
            r == TaskSortOrder::DueAsc,
    {
        Self::DueAsc
    }
}

/// How the project list is ordered.
#[derive(Debug, Clone, Copy, PartialEq, Eq, Structural)]
pub enum ProjectSortOrder {
    NameAsc,
    NameDesc,
    TaskCountAsc,
    TaskCountDesc,
    Manual,
}

/// The project sort orders, in the order the sort popup lists them.
pub open spec fn project_sort_orders() -> Seq<ProjectSortOrder> {
    seq![ProjectSortOrder::NameAsc, ProjectSortOrder::NameDesc, ProjectSortOrder::TaskCountAsc, ProjectSortOrder::TaskCountDesc, ProjectSortOrder::Manual]
}

pub open spec fn project_sort_label(o: ProjectSortOrder) -> Seq<char> {
    match o {
        ProjectSortOrder::NameAsc => "Name A-Z"@,
        ProjectSortOrder::NameDesc => "Name Z-A"@,
        ProjectSortOrder::TaskCountAsc => "Task Count ↑"@,
        ProjectSortOrder::TaskCountDesc => "Task Count ↓"@,
        ProjectSortOrder::Manual => "Manual"@,
    }
}

pub open spec fn project_sort_short_label(o: ProjectSortOrder) -> Seq<char> {
    match o {
        ProjectSortOrder::NameAsc => "name ↑"@,
        ProjectSortOrder::NameDesc => "name ↓"@,
        ProjectSortOrder::TaskCountAsc => "tasks ↑"@,
        ProjectSortOrder::TaskCountDesc => "tasks ↓"@,
        ProjectSortOrder::Manual => "manual"@,
    }
}

impl ProjectSortOrder {
    /// Every order, in the order the sort popup offers them.
    pub fn all() -> (r: &'static [Self])
        ensures
            r@ == project_sort_orders(),
    {
        &[Self::NameAsc, Self::NameDesc, Self::TaskCountAsc, Self::TaskCountDesc, Self::Manual]
    }

    /// The name shown in the sort popup.
    pub fn label(self) -> (r: &'static str)
        ensures
            r@ == project_sort_label(self),
    {
        match self {
            Self::NameAsc => "Name A-Z",
            Self::NameDesc => "Name Z-A",
            Self::TaskCountAsc => "Task Count ↑",
            Self::TaskCountDesc => "Task Count ↓",
            Self::Manual => "Manual",
        }
    }

    /// The short name shown in the panel title.
    pub fn short_label(self) -> (r: &'static str)
        ensures
            r@ == project_sort_short_label(self),
    {
        match self {
            Self::NameAsc => "name ↑",
            Self::NameDesc => "name ↓",
            Self::TaskCountAsc => "tasks ↑",
            Self::TaskCountDesc => "tasks ↓",
            Self::Manual => "manual",
        }
    }
}

impl Default for ProjectSortOrder {
    fn default() -> (r: Self)
        ensures
            r == ProjectSortOrder::Manual,
    {
        Self::Manual
    }
}

/// How the tag list is ordered.
#[derive(Debug, Clone, Copy, PartialEq, Eq, Structural)]
pub enum TagSortOrder {
    NameAsc,
    NameDesc,
    TaskCountAsc,
    TaskCountDesc,
    Manual,
}

/// The tag sort orders, in the order the sort popup lists them.
pub open spec fn tag_sort_orders() -> Seq<TagSortOrder> {
    seq![TagSortOrder::NameAsc, TagSortOrder::NameDesc, TagSortOrder::TaskCountAsc, TagSortOrder::TaskCountDesc, TagSortOrder::Manual]
}

pub open spec fn tag_sort_label(o: TagSortOrder) -> Seq<char> {
    match o {
        TagSortOrder::NameAsc => "Name A-Z"@,
        TagSortOrder::NameDesc => "Name Z-A"@,
        TagSortOrder::TaskCountAsc => "Task Count ↑"@,
        TagSortOrder::TaskCountDesc => "Task Count ↓"@,
        TagSortOrder::Manual => "Manual"@,
    }
}

pub open spec fn tag_sort_short_label(o: TagSortOrder) -> Seq<char> {
    match o {
        TagSortOrder::NameAsc => "name ↑"@,
        TagSortOrder::NameDesc => "name ↓"@,
        TagSortOrder::TaskCountAsc => "tasks ↑"@,
        TagSortOrder::TaskCountDesc => "tasks ↓"@,
        TagSortOrder::Manual => "manual"@,
    }
}

impl TagSortOrder {
    /// Every order, in the order the sort popup offers them.
    pub fn all() -> (r: &'static [Self])
        ensures
            r@ == tag_sort_orders(),
    {
        &[Self::NameAsc, Self::NameDesc, Self::TaskCountAsc, Self::TaskCountDesc, Self::Manual]
    }

    /// The name shown in the sort popup.
    pub fn label(self) -> (r: &'static str)
        ensures
            r@ == tag_sort_label(self),
    {
        match self {
            Self::NameAsc => "Name A-Z",
            Self::NameDesc => "Name Z-A",
            Self::TaskCountAsc => "Task Count ↑",
            Self::TaskCountDesc => "Task Count ↓",
            Self::Manual => "Manual",
        }
    }

    /// The short name shown in the panel title.
    pub fn short_label(self) -> (r: &'static str)
        ensures
            r@ == tag_sort_short_label(self),
    {
        match self {
            Self::NameAsc => "name ↑",
            Self::NameDesc => "name ↓",
            Self::TaskCountAsc => "tasks ↑",
            Self::TaskCountDesc => "tasks ↓",
            Self::Manual => "manual",
        }
    }
}

impl Default for TagSortOrder {
    fn default() -> (r: Self)
        ensures
            r == TagSortOrder::Manual,
    {
        Self::Manual
    }
}

/// How the filter list is ordered.
#[derive(Debug, Clone, Copy, PartialEq, Eq, Structural)]
pub enum FilterSortOrder {
    NameAsc,
    NameDesc,
    TaskCountAsc,
    TaskCountDesc,
    Manual,
}

/// The filter sort orders, in the order the sort popup lists them.
pub open spec fn filter_sort_orders() -> Seq<FilterSortOrder> {
    seq![FilterSortOrder::NameAsc, FilterSortOrder::NameDesc, FilterSortOrder::TaskCountAsc, FilterSortOrder::TaskCountDesc, FilterSortOrder::Manual]
}

pub open spec fn filter_sort_label(o: FilterSortOrder) -> Seq<char> {
    match o {
        FilterSortOrder::NameAsc => "Name A-Z"@,
        FilterSortOrder::NameDesc => "Name Z-A"@,
        FilterSortOrder::TaskCountAsc => "Task Count ↑"@,
        FilterSortOrder::TaskCountDesc => "Task Count ↓"@,
        FilterSortOrder::Manual => "Manual"@,
    }
}

pub open spec fn filter_sort_short_label(o: FilterSortOrder) -> Seq<char> {
    match o {
        FilterSortOrder::NameAsc => "name ↑"@,
        FilterSortOrder::NameDesc => "name ↓"@,
        FilterSortOrder::TaskCountAsc => "tasks ↑"@,
        FilterSortOrder::TaskCountDesc => "tasks ↓"@,
        FilterSortOrder::Manual => "manual"@,
    }
}

impl FilterSortOrder {
    /// Every order, in the order the sort popup offers them.
    pub fn all() -> (r: &'static [Self])
        ensures
            r@ == filter_sort_orders(),
    {
        &[Self::NameAsc, Self::NameDesc, Self::TaskCountAsc, Self::TaskCountDesc, Self::Manual]
    }

    /// The name shown in the sort popup.
    pub fn label(self) -> (r: &'static str)
        ensures
            r@ == filter_sort_label(self),
    {
        match self {
            Self::NameAsc => "Name A-Z",
            Self::NameDesc => "Name Z-A",
            Self::TaskCountAsc => "Task Count ↑",
            Self::TaskCountDesc => "Task Count ↓",
            Self::Manual => "Manual",
        }
    }

    /// The short name shown in the panel title.
    pub fn short_label(self) -> (r: &'static str)
        ensures
            r@ == filter_sort_short_label(self),
    {
        match self {
            Self::NameAsc => "name ↑",
            Self::NameDesc => "name ↓",
            Self::TaskCountAsc => "tasks ↑",
            Self::TaskCountDesc => "tasks ↓",
            Self::Manual => "manual",
        }
    }
}

impl Default for FilterSortOrder {
    fn default() -> (r: Self)
        ensures
            r == FilterSortOrder::Manual,
    {
        Self::Manual
    }
}

/// The lengths of the timer's phases, in seconds, and how many focus
/// sessions make a round before the long break.
#[derive(Debug, Clone, PartialEq, Eq)]
pub struct TimerSettings {
    pub pomodoro_length: u64,
    pub short_break_length: u64,
    pub long_break_length: u64,
    pub long_break_interval: u32,
}

impl Default for TimerSettings {
    /// 25 minutes of focus, 5 and 15 minutes of break, a long break every
    /// fourth session.
    fn default() -> (r: Self)
        ensures
            r.pomodoro_length == 25 * 60,
            r.short_break_length == 5 * 60,
            r.long_break_length == 15 * 60,
            r.long_break_interval == 4,
    {
        TimerSettings {
            pomodoro_length: 25 * 60,
            short_break_length: 5 * 60,
            long_break_length: 15 * 60,
            long_break_interval: 4,
        }
    }
}

/// The first rule that timer settings break, if any.
pub open spec fn timer_settings_problem(s: TimerSettings) -> Option<Seq<char>> {
    if s.pomodoro_length == 0 {
        Some("timer.pomodoro-length must be greater than zero"@)
    } else if s.short_break_length == 0 {
        Some("timer.short-break-length must be greater than zero"@)
    } else if s.long_break_length == 0 {
        Some("timer.long-break-length must be greater than zero"@)
    } else if s.long_break_interval == 0 {
        Some("timer.long-break-interval must be greater than zero"@)
    } else {
        None
    }
}

/// `Ok` where nothing is wrong, else the error for the first rule broken.
pub open spec fn checked(problem: Option<Seq<char>>, r: Result<(), ConfigError>) -> bool {
    match problem {
        None => r is Ok,
        Some(m) => r matches Err(e) && e.message@ == m,
    }
}

impl TimerSettings {
    /// Short phases for trying the timer out: 30 seconds of focus, 10 and 20
    /// seconds of break, a long break every fourth session.
    pub fn short_timer_preset() -> (r: Self)
        ensures
            r.pomodoro_length == 30,
            r.short_break_length == 10,
            r.long_break_length == 20,
            r.long_break_interval == 4,
    {
        TimerSettings {
            pomodoro_length: 30,
            short_break_length: 10,
            long_break_length: 20,
            long_break_interval: 4,
        }
    }

    /// Every length and the interval must be greater than zero.
    pub fn validate(&self) -> (r: Result<(), ConfigError>)
        ensures
            checked(timer_settings_problem(*self), r),
    {
        if self.pomodoro_length == 0 {
            return Err(ConfigError::of("timer.pomodoro-length must be greater than zero"));
        }
        if self.short_break_length == 0 {
            return Err(ConfigError::of("timer.short-break-length must be greater than zero"));
        }
        if self.long_break_length == 0 {
            return Err(ConfigError::of("timer.long-break-length must be greater than zero"));
        }
        if self.long_break_interval == 0 {
            return Err(ConfigError::of("timer.long-break-interval must be greater than zero"));
        }
        Ok(())
    }
}

/// The daily focus target, in seconds.
#[derive(Debug, Clone, PartialEq, Eq)]
pub struct StatsSettings {
    pub daily_target: u64,
}

impl Default for StatsSettings {
    /// Two and a half hours.
    fn default() -> (r: Self)
        ensures
            r.daily_target == 150 * 60,
    {
        StatsSettings { daily_target: 150 * 60 }
    }
}

pub open spec fn stats_settings_problem(s: StatsSettings) -> Option<Seq<char>> {
    if s.daily_target == 0 {
        Some("stats.daily-target must be greater than zero"@)
    } else {
        None
    }
}

impl StatsSettings {
    /// The target must be greater than zero.
    pub fn validate(&self) -> (r: Result<(), ConfigError>)
        ensures
            checked(stats_settings_problem(*self), r),
    {
        if self.daily_target == 0 {
            return Err(ConfigError::of("stats.daily-target must be greater than zero"));
        }
        Ok(())
    }
}

/// Where the sync integration takes its access token from.
#[derive(Debug, Clone, Copy, PartialEq, Eq, Structural)]
pub enum TodoistTokenSource {
    Env,
    Command,
}

impl Default for TodoistTokenSource {
    fn default() -> (r: Self)
        ensures
            r == TodoistTokenSource::Env,
    {
        TodoistTokenSource::Env
    }
}

/// The command that prints the access token.
#[derive(Debug, Clone, PartialEq, Eq)]
pub struct TokenCommandConfig {
    pub program: String,
    pub args: Vec<String>,
    pub timeout_ms: u64,
}

impl Default for TokenCommandConfig {
    fn default() -> (r: Self)
        ensures
            r.program@.len() == 0,
            r.args@.len() == 0,
            r.timeout_ms == 5_000,
    {
        TokenCommandConfig { program: String::new(), args: Vec::new(), timeout_ms: 5_000 }
    }
}

/// How often and how much the integration syncs.
#[derive(Debug, Clone, PartialEq, Eq)]
pub struct TodoistSyncRuntimeConfig {
    pub push_debounce_ms: u64,
    pub poll_min_interval_seconds: u64,
    pub poll_max_interval_seconds: u64,
    pub max_batch_size: u32,
    pub max_retry_attempts: u32,
}

impl Default for TodoistSyncRuntimeConfig {
    fn default() -> (r: Self)
        ensures
            r.push_debounce_ms == 1_200,
            r.poll_min_interval_seconds == 30,
            r.poll_max_interval_seconds == 300,
            r.max_batch_size == 50,
            r.max_retry_attempts == 8,
    {
        TodoistSyncRuntimeConfig {
            push_debounce_ms: 1_200,
            poll_min_interval_seconds: 30,
            poll_max_interval_seconds: 300,
            max_batch_size: 50,
            max_retry_attempts: 8,
        }
    }
}

pub open spec fn sync_runtime_problem(s: TodoistSyncRuntimeConfig) -> Option<Seq<char>> {
    if s.push_debounce_ms == 0 {
        Some("integrations.todoist.sync-runtime.push-debounce-ms must be greater than zero"@)
    } else if s.poll_min_interval_seconds == 0 {
        Some(
            "integrations.todoist.sync-runtime.poll-min-interval-seconds must be greater than zero"@,
        )
    } else if s.poll_max_interval_seconds < s.poll_min_interval_seconds {
        Some(
            "integrations.todoist.sync-runtime.poll-max-interval-seconds must be greater than or equal to poll-min-interval-seconds"@,
        )
    } else if s.max_batch_size == 0 {
        Some("integrations.todoist.sync-runtime.max-batch-size must be greater than zero"@)
    } else if s.max_retry_attempts == 0 {
        Some("integrations.todoist.sync-runtime.max-retry-attempts must be greater than zero"@)
    } else {
        None
    }
}

impl TodoistSyncRuntimeConfig {
    /// Every interval, size and count must be greater than zero, and the
    /// longest poll interval no shorter than the shortest.
    pub fn validate(&self) -> (r: Result<(), ConfigError>)
        ensures
            checked(sync_runtime_problem(*self), r),
    {
        if self.push_debounce_ms == 0 {
            return Err(
                ConfigError::of(
                    "integrations.todoist.sync-runtime.push-debounce-ms must be greater than zero",
                ),
            );
        }
        if self.poll_min_interval_seconds == 0 {
            return Err(
                ConfigError::of(
                    "integrations.todoist.sync-runtime.poll-min-interval-seconds must be greater than zero",
                ),
            );
        }
        if self.poll_max_interval_seconds < self.poll_min_interval_seconds {
            return Err(
                ConfigError::of(
                    "integrations.todoist.sync-runtime.poll-max-interval-seconds must be greater than or equal to poll-min-interval-seconds",
                ),
            );
        }
        if self.max_batch_size == 0 {
            return Err(
                ConfigError::of(
                    "integrations.todoist.sync-runtime.max-batch-size must be greater than zero",
                ),
            );
        }
        if self.max_retry_attempts == 0 {
            return Err(
                ConfigError::of(
                    "integrations.todoist.sync-runtime.max-retry-attempts must be greater than zero",
                ),
            );
        }
        Ok(())
    }
}

/// The settings of the task sync integration.
#[derive(Debug, Clone, PartialEq, Eq)]
pub struct TodoistIntegrationConfig {
    pub enabled: bool,
    pub sync_on_startup: bool,
    pub token_source: TodoistTokenSource,
    pub token_env_var: String,
    pub token_command: Option<TokenCommandConfig>,
    pub sync_runtime: TodoistSyncRuntimeConfig,
}

impl Default for TodoistIntegrationConfig {
    /// Disabled, with the token read from `TRIGINTA_TODOIST_TOKEN`.
    fn default() -> (r: Self)
        ensures
            !r.enabled,
            !r.sync_on_startup,
            r.token_source == TodoistTokenSource::Env,
            r.token_env_var@ == "TRIGINTA_TODOIST_TOKEN"@,
            r.token_command is None,
            r.sync_runtime.push_debounce_ms == 1_200,
            r.sync_runtime.poll_min_interval_seconds == 30,
            r.sync_runtime.poll_max_interval_seconds == 300,
            r.sync_runtime.max_batch_size == 50,
            r.sync_runtime.max_retry_attempts == 8,
    {
        TodoistIntegrationConfig {
            enabled: false,
            sync_on_startup: false,
            token_source: TodoistTokenSource::Env,
            token_env_var: string_of("TRIGINTA_TODOIST_TOKEN"),
            token_command: None,
            sync_runtime: TodoistSyncRuntimeConfig::default(),
        }
    }
}

pub open spec fn todoist_problem(c: TodoistIntegrationConfig) -> Option<Seq<char>> {
    if trim_spec(c.token_env_var@).len() == 0 {
        Some("integrations.todoist.token-env-var cannot be empty"@)
    } else if c.token_source == TodoistTokenSource::Command && c.token_command is None {
        Some("integrations.todoist.token-command is required when token-source is command"@)
    } else if c.token_source == TodoistTokenSource::Command && trim_spec(
        c.token_command->0.program@,
    ).len() == 0 {
        Some("integrations.todoist.token-command.program cannot be empty"@)
    } else if c.token_source == TodoistTokenSource::Command && c.token_command->0.timeout_ms == 0 {
        Some("integrations.todoist.token-command.timeout-ms must be greater than zero"@)
    } else {
        sync_runtime_problem(c.sync_runtime)
    }
}

impl TodoistIntegrationConfig {
    /// The token variable must not be blank; a token command, where that is
    /// the source, must be given with a program and a timeout; and the sync
    /// runtime settings must hold.
    pub fn validate(&self) -> (r: Result<(), ConfigError>)
        ensures
            checked(todoist_problem(*self), r),
    {
        let var = chars_of(self.token_env_var.as_str());
        if is_blank(var.as_slice()) {
            return Err(ConfigError::of("integrations.todoist.token-env-var cannot be empty"));
        }
        if self.token_source == TodoistTokenSource::Command {
            match &self.token_command {
                None => {
                    return Err(
                        ConfigError::of(
                            "integrations.todoist.token-command is required when token-source is command",
                        ),
                    );
                },
                Some(command) => {
                    let program = chars_of(command.program.as_str());
                    if is_blank(program.as_slice()) {
                        return Err(
                            ConfigError::of(
                                "integrations.todoist.token-command.program cannot be empty",
                            ),
                        );
                    }
                    if command.timeout_ms == 0 {
                        return Err(
                            ConfigError::of(
                                "integrations.todoist.token-command.timeout-ms must be greater than zero",
                            ),
                        );
                    }
                },
            }
        }
        self.sync_runtime.validate()
    }
}

/// The settings of the integrations.
#[derive(Debug, Clone, PartialEq, Eq)]
pub struct IntegrationConfig {
    pub todoist: TodoistIntegrationConfig,
}

impl Default for IntegrationConfig {
    fn default() -> (r: Self)
        ensures
            !r.todoist.enabled,
            r.todoist.token_source == TodoistTokenSource::Env,
            r.todoist.token_env_var@ == "TRIGINTA_TODOIST_TOKEN"@,
            r.todoist.token_command is None,
    {
        IntegrationConfig { todoist: TodoistIntegrationConfig::default() }
    }
}

impl IntegrationConfig {
    /// The integration settings must hold.
    pub fn validate(&self) -> (r: Result<(), ConfigError>)
        ensures
            checked(todoist_problem(self.todoist), r),
    {
        self.todoist.validate()
    }
}

/// The settings of the interface.
#[derive(Debug, Clone, PartialEq, Eq)]
pub struct UiConfig {
    pub glyph_mode: GlyphMode,
    pub theme: String,
    pub task_list_sort: TaskSortOrder,
    pub project_list_sort: ProjectSortOrder,
    pub persist_project_list_sort: bool,
    pub tag_list_sort: TagSortOrder,
    pub persist_tag_list_sort: bool,
    pub filter_list_sort: FilterSortOrder,
    pub persist_filter_list_sort: bool,
    pub hide_completed_tasks: bool,
}

impl Default for UiConfig {
    /// Nerd Font glyphs, the `catppuccin-mocha` theme, tasks by due date,
    /// the other lists in manual order without keeping a chosen order, and
    /// completed tasks hidden.
    fn default() -> (r: Self)
        ensures
            r.glyph_mode == GlyphMode::NerdFonts,
            r.theme@ == "catppuccin-mocha"@,
            r.task_list_sort == TaskSortOrder::DueAsc,
            r.project_list_sort == ProjectSortOrder::Manual,
            !r.persist_project_list_sort,
            r.tag_list_sort == TagSortOrder::Manual,
            !r.persist_tag_list_sort,
            r.filter_list_sort == FilterSortOrder::Manual,
            !r.persist_filter_list_sort,
            r.hide_completed_tasks,
    {
        UiConfig {
            glyph_mode: GlyphMode::default(),
            theme: string_of("catppuccin-mocha"),
            task_list_sort: TaskSortOrder::default(),
            project_list_sort: ProjectSortOrder::default(),
            persist_project_list_sort: false,
            tag_list_sort: TagSortOrder::default(),
            persist_tag_list_sort: false,
            filter_list_sort: FilterSortOrder::default(),
            persist_filter_list_sort: false,
            hide_completed_tasks: true,
        }
    }
}

/// The whole configuration.
#[derive(Debug, Clone, PartialEq, Eq)]
pub struct AppConfig {
    pub ui: UiConfig,
    pub timer: TimerSettings,
    pub stats: StatsSettings,
    pub integrations: IntegrationConfig,
}

/// The configuration used where no file gives one.
pub open spec fn is_default_config(c: AppConfig) -> bool {
    &&& c.ui.glyph_mode == GlyphMode::NerdFonts
    &&& c.ui.theme@ == "catppuccin-mocha"@
    &&& c.ui.task_list_sort == TaskSortOrder::DueAsc
    &&& c.ui.project_list_sort == ProjectSortOrder::Manual
    &&& !c.ui.persist_project_list_sort
    &&& c.ui.tag_list_sort == TagSortOrder::Manual
    &&& !c.ui.persist_tag_list_sort
    &&& c.ui.filter_list_sort == FilterSortOrder::Manual
    &&& !c.ui.persist_filter_list_sort
    &&& c.ui.hide_completed_tasks
    &&& c.timer.pomodoro_length == 25 * 60
    &&& c.timer.short_break_length == 5 * 60
    &&& c.timer.long_break_length == 15 * 60
    &&& c.timer.long_break_interval == 4
    &&& c.stats.daily_target == 150 * 60
    &&& !c.integrations.todoist.enabled
    &&& !c.integrations.todoist.sync_on_startup
    &&& c.integrations.todoist.token_source == TodoistTokenSource::Env
    &&& c.integrations.todoist.token_env_var@ == "TRIGINTA_TODOIST_TOKEN"@
    &&& c.integrations.todoist.token_command is None
    &&& c.integrations.todoist.sync_runtime.push_debounce_ms == 1_200
    &&& c.integrations.todoist.sync_runtime.poll_min_interval_seconds == 30
    &&& c.integrations.todoist.sync_runtime.poll_max_interval_seconds == 300
    &&& c.integrations.todoist.sync_runtime.max_batch_size == 50
    &&& c.integrations.todoist.sync_runtime.max_retry_attempts == 8
}

impl Default for AppConfig {
    fn default() -> (r: Self)
        ensures
            is_default_config(r),
    {
        AppConfig {
            ui: UiConfig::default(),
            timer: TimerSettings::default(),
            stats: StatsSettings::default(),
            integrations: IntegrationConfig {
                todoist: TodoistIntegrationConfig::default(),
            },
        }
    }
}

/// The first rule that a configuration breaks, checking the timer, then the
/// statistics, then the integrations.
pub open spec fn config_problem(c: AppConfig) -> Option<Seq<char>> {
    if timer_settings_problem(c.timer) is Some {
        timer_settings_problem(c.timer)
    } else if stats_settings_problem(c.stats) is Some {
        stats_settings_problem(c.stats)
    } else {
        todoist_problem(c.integrations.todoist)
    }
}

/// Checks a configuration as it is checked after loading and before saving.
pub fn validate_app_config(config: &AppConfig) -> (r: Result<(), ConfigError>)
    ensures
        checked(config_problem(*config), r),
{
    config.timer.validate()?;
    config.stats.validate()?;
    config.integrations.validate()
}

/// The default configuration meets every rule.
pub proof fn default_config_is_valid(c: AppConfig)
    requires
        is_default_config(c),
    ensures
        config_problem(c) is None,
{
    reveal_strlit("TRIGINTA_TODOIST_TOKEN");
    let v = c.integrations.todoist.token_env_var@;
    assert(v.len() == 22);
    assert(v[0] == 'T' && v[21] == 'N');
    crate::text::lemma_trim_of_solid(v);
}

/// Where the run of ASCII digits that starts at `i` ends.
pub open spec fn digit_run_end(s: Seq<char>, i: int) -> int
    decreases s.len() - i,
{
    if i < 0 || i >= s.len() {
        s.len() as int
    } else if '0' <= s[i] <= '9' {
        digit_run_end(s, i + 1)
    } else {
        i
    }
}

/// How many seconds a unit of a duration stands for.
pub open spec fn duration_unit_scale(unit: Seq<char>) -> Option<nat> {
    if unit == ""@ || unit == "s"@ || unit == "sec"@ || unit == "secs"@ || unit == "second"@
        || unit == "seconds"@ {
        Some(1)
    } else if unit == "m"@ || unit == "min"@ || unit == "mins"@ || unit == "minute"@ || unit
        == "minutes"@ {
        Some(60)
    } else if unit == "h"@ || unit == "hr"@ || unit == "hrs"@ || unit == "hour"@ || unit
        == "hours"@ {
        Some(3600)
    } else {
        None
    }
}

/// The number and the unit scale a duration text is written with: after
/// trimming, a run of decimal digits that fits in 64 bits, then a unit.
pub open spec fn duration_parts(value: Seq<char>) -> Result<(nat, nat), Seq<char>> {
    let t = trim_spec(value);
    let k = digit_run_end(t, 0);
    let number = t.subrange(0, k);
    let unit = trim_spec(t.subrange(k, t.len() as int));
    if t.len() == 0 {
        Err("duration cannot be empty"@)
    } else if number.len() == 0 {
        Err("duration '"@ + t + "' is missing a numeric value"@)
    } else if decimal_value(number) > u64::MAX {
        Err("invalid duration value '"@ + t + "'"@)
    } else {
        match duration_unit_scale(unit) {
            None => Err("unsupported duration unit '"@ + unit + "' in '"@ + t + "'"@),
            Some(scale) => Ok((decimal_value(number), scale)),
        }
    }
}

/// What a duration text stands for, in seconds: `25m`, `2h`, `90` or
/// `30 seconds`; a zero duration is refused.
pub open spec fn parse_duration_spec(value: Seq<char>) -> Result<nat, Seq<char>> {
    match duration_parts(value) {
        Err(e) => Err(e),
        Ok((amount, scale)) => if amount * scale == 0 {
            Err("duration must be greater than zero"@)
        } else {
            Ok(amount * scale)
        },
    }
}

/// The duration text stands for a number of seconds that fits in 64 bits, or
/// is refused.
pub open spec fn duration_fits(value: Seq<char>) -> bool {
    match duration_parts(value) {
        Ok((amount, scale)) => amount * scale <= u64::MAX,
        Err(_) => true,
    }
}

proof fn lemma_digit_run_end(s: Seq<char>, k: int, i: int)
    requires
        0 <= i <= k < s.len(),
        forall|j: int| 0 <= j < k ==> '0' <= #[trigger] s[j] <= '9',
        !('0' <= s[k] <= '9'),
    ensures
        digit_run_end(s, i) == k,
    decreases k - i,
{
    if i < k {
        lemma_digit_run_end(s, k, i + 1);
    }
}

/// The number and scale read from a count written in digits, a separator
/// of nothing or one space, and a unit word with no white space at its ends
/// that does not start with a digit.
proof fn lemma_duration_parts_of(n: nat, sep: Seq<char>, unit: Seq<char>)
    requires
        n <= u64::MAX,
        sep == ""@ || sep == " "@,
        unit.len() > 0,
        !is_white_space(unit[0]),
        !is_white_space(unit.last()),
        !('0' <= unit[0] <= '9'),
    ensures
        duration_parts(decimal_digits(n) + sep + unit) == match duration_unit_scale(unit) {
            Some(scale) => Ok::<(nat, nat), Seq<char>>((n, scale)),
            None => duration_parts(decimal_digits(n) + sep + unit),
        },
{
    reveal_strlit(" ");
    reveal_strlit("");
    lemma_decimal_round_trip(n);
    let d = decimal_digits(n);
    let rest = sep + unit;
    let t = d + rest;
    assert(t =~= d + sep + unit);
    assert(t[0] == d[0]);
    assert(t.last() == unit.last());
    assert(!is_white_space(t[0]));
    lemma_trim_of_solid(t);
    assert(forall|j: int| 0 <= j < d.len() ==> '0' <= #[trigger] t[j] <= '9') by {
        assert forall|j: int| 0 <= j < d.len() implies '0' <= #[trigger] t[j] <= '9' by {
            assert(t[j] == d[j]);
        }
    }
    assert(t[d.len() as int] == rest[0]);
    lemma_digit_run_end(t, d.len() as int, 0);
    let k = d.len() as int;
    assert(t.subrange(0, k) =~= d);
    let tail = t.subrange(k, t.len() as int);
    assert(tail =~= rest);
    if sep.len() == 0 {
        assert(rest =~= unit);
        lemma_trim_of_solid(unit);
    } else {
        assert(rest[0] == ' ');
        lemma_trim_start_suffix(rest, 1);
        assert(rest.subrange(1, rest.len() as int) =~= unit);
        lemma_trim_of_solid(unit);
        assert(trim_start_spec(unit) == unit) by {
            lemma_trim_start_suffix(unit, 0);
            assert(unit.subrange(0, unit.len() as int) =~= unit);
        }
    }
}

/// The unit words of seconds, minutes and hours.
pub open spec fn second_units() -> Seq<Seq<char>> {
    seq![""@, "s"@, "sec"@, "secs"@, "second"@, "seconds"@]
}

pub open spec fn minute_units() -> Seq<Seq<char>> {
    seq!["m"@, "min"@, "mins"@, "minute"@, "minutes"@]
}

pub open spec fn hour_units() -> Seq<Seq<char>> {
    seq!["h"@, "hr"@, "hrs"@, "hour"@, "hours"@]
}

proof fn lemma_duration_of(n: nat, sep: Seq<char>, unit: Seq<char>, scale: nat)
    requires
        0 < n <= u64::MAX,
        0 < scale,
        sep == ""@ || sep == " "@,
        unit.len() > 0,
        !is_white_space(unit[0]),
        !is_white_space(unit.last()),
        !('0' <= unit[0] <= '9'),
        duration_unit_scale(unit) == Some(scale),
    ensures
        parse_duration_spec(decimal_digits(n) + sep + unit) == Ok::<nat, Seq<char>>(n * scale),
{
    lemma_duration_parts_of(n, sep, unit);
    assert(n * scale > 0) by (nonlinear_arith)
        requires
            n > 0,
            scale > 0,
    ;
}

/// A count written with no unit is a count of seconds.
pub proof fn bare_count_is_seconds(n: nat)
    requires
        0 < n <= u64::MAX,
    ensures
        parse_duration_spec(decimal_digits(n)) == Ok::<nat, Seq<char>>(n),
{
    reveal_strlit("");
    lemma_decimal_round_trip(n);
    let d = decimal_digits(n);
    assert(crate::text::is_ascii_digit(d[0]) && crate::text::is_ascii_digit(d[d.len() - 1]));
    assert(!is_white_space(d[0]) && !is_white_space(d.last()));
    lemma_trim_of_solid(d);
    assert forall|j: int| 0 <= j < d.len() implies '0' <= #[trigger] d[j] <= '9' by {
        assert(crate::text::is_ascii_digit(d[j]));
    }
    lemma_digit_run_end_of_digits(d, 0);
    assert(d.subrange(0, d.len() as int) =~= d);
    assert(d.subrange(d.len() as int, d.len() as int) =~= Seq::<char>::empty());
    assert(trim_spec(Seq::<char>::empty()) =~= Seq::<char>::empty());
    assert(""@ =~= Seq::<char>::empty());
    assert(duration_unit_scale(Seq::<char>::empty()) == Some(1nat));
    assert(trim_spec(d) == d);
    assert(digit_run_end(d, 0) == d.len());
    assert(duration_parts(d) == Ok::<(nat, nat), Seq<char>>((n, 1nat)));
    assert(n * 1nat == n);
}

/// A count of minutes is that many times sixty seconds, and a count of hours
/// that many times 3600, whichever spelling of the unit is used, with or
/// without a space before it; a count of seconds is itself.
#[verifier::spinoff_prover]
pub proof fn duration_units_scale(n: nat, sep: Seq<char>)
    requires
        0 < n <= u64::MAX,
        sep == ""@ || sep == " "@,
    ensures
        forall|i: int| 0 <= i < minute_units().len() ==> parse_duration_spec(
            decimal_digits(n) + sep + #[trigger] minute_units()[i],
        ) == Ok::<nat, Seq<char>>(60 * n),
        forall|i: int| 0 <= i < hour_units().len() ==> parse_duration_spec(
            decimal_digits(n) + sep + #[trigger] hour_units()[i],
        ) == Ok::<nat, Seq<char>>(3600 * n),
        forall|i: int| 1 <= i < second_units().len() ==> parse_duration_spec(
            decimal_digits(n) + sep + #[trigger] second_units()[i],
        ) == Ok::<nat, Seq<char>>(n),
{
    reveal_strlit("");
    reveal_strlit("s");
    reveal_strlit("sec");
    reveal_strlit("secs");
    reveal_strlit("second");
    reveal_strlit("seconds");
    reveal_strlit("m");
    reveal_strlit("min");
    reveal_strlit("mins");
    reveal_strlit("minute");
    reveal_strlit("minutes");
    reveal_strlit("h");
    reveal_strlit("hr");
    reveal_strlit("hrs");
    reveal_strlit("hour");
    reveal_strlit("hours");
    assert forall|i: int| 0 <= i < minute_units().len() implies parse_duration_spec(
        decimal_digits(n) + sep + #[trigger] minute_units()[i],
    ) == Ok::<nat, Seq<char>>(60 * n) by {
        let u = minute_units()[i];
        assert(u.len() > 0 && u[0] == 'm');
        lemma_duration_of(n, sep, u, 60);
    }
    assert forall|i: int| 0 <= i < hour_units().len() implies parse_duration_spec(
        decimal_digits(n) + sep + #[trigger] hour_units()[i],
    ) == Ok::<nat, Seq<char>>(3600 * n) by {
        let u = hour_units()[i];
        assert(u.len() > 0 && u[0] == 'h');
        lemma_duration_of(n, sep, u, 3600);
    }
    assert forall|i: int| 1 <= i < second_units().len() implies parse_duration_spec(
        decimal_digits(n) + sep + #[trigger] second_units()[i],
    ) == Ok::<nat, Seq<char>>(n) by {
        let u = second_units()[i];
        assert(u.len() > 0 && u[0] == 's');
        lemma_duration_of(n, sep, u, 1);
    }
}

/// A duration written in the largest unit of hours, minutes or seconds that
/// divides it.
pub open spec fn format_duration_spec(seconds: nat) -> Seq<char> {
    if seconds % 3600 == 0 {
        decimal_digits(seconds / 3600) + "h"@
    } else if seconds % 60 == 0 {
        decimal_digits(seconds / 60) + "m"@
    } else {
        decimal_digits(seconds) + "s"@
    }
}

fn duration_scale(unit: &[char]) -> (r: Option<u64>)
    ensures
        match r {
            Some(s) => duration_unit_scale(unit@) == Some(s as nat),
            None => duration_unit_scale(unit@) is None,
        },
{
    let unit_is = |lit: &str| -> (b: bool)
        ensures
            b == (unit@ == lit@),
        {
            let c = chars_of(lit);
            chars_eq(unit, c.as_slice())
        };
    if unit_is("") || unit_is("s") || unit_is("sec") || unit_is("secs") || unit_is("second")
        || unit_is("seconds") {
        Some(1)
    } else if unit_is("m") || unit_is("min") || unit_is("mins") || unit_is("minute") || unit_is(
        "minutes",
    ) {
        Some(60)
    } else if unit_is("h") || unit_is("hr") || unit_is("hrs") || unit_is("hour") || unit_is(
        "hours",
    ) {
        Some(3600)
    } else {
        None
    }
}

/// Three pieces of text, one after another, as an error.
fn error_around(a: &str, b: &[char], c: &str) -> (r: ConfigError)
    ensures
        r.message@ == a@ + b@ + c@,
{
    let ac = chars_of(a);
    let cc = chars_of(c);
    let ab = concat_chars(ac.as_slice(), b);
    let abc = concat_chars(ab.as_slice(), cc.as_slice());
    ConfigError::from_chars(abc.as_slice())
}

fn read_duration(value: &str) -> (r: Result<(u64, u64), ConfigError>)
    ensures
        match duration_parts(value@) {
            Ok((amount, scale)) => r matches Ok((a, s)) && a == amount && s == scale,
            Err(m) => r matches Err(e) && e.message@ == m,
        },
{
    let chars = chars_of(value);
    let t = trim_chars(chars.as_slice());
    if t.len() == 0 {
        return Err(ConfigError::of("duration cannot be empty"));
    }
    let mut k: usize = 0;
    while k < t.len() && '0' <= t[k] && t[k] <= '9'
        invariant
            k <= t.len(),
            digit_run_end(t@, 0) == digit_run_end(t@, k as int),
            forall|j: int| 0 <= j < k ==> '0' <= #[trigger] t@[j] <= '9',
        decreases t.len() - k,
    {
        k += 1;
    }
    let number = slice_chars(t.as_slice(), 0, k);
    let unit_raw = slice_chars(t.as_slice(), k, t.len());
    let unit = trim_chars(unit_raw.as_slice());
    if number.len() == 0 {
        return Err(error_around("duration '", t.as_slice(), "' is missing a numeric value"));
    }
    assert(all_ascii_digits(number@));
    let amount = match parse_digits_u64(number.as_slice()) {
        Some(a) => a,
        None => {
            return Err(error_around("invalid duration value '", t.as_slice(), "'"));
        },
    };
    match duration_scale(unit.as_slice()) {
        Some(scale) => Ok((amount, scale)),
        None => {
            let head = chars_of("unsupported duration unit '");
            let middle = chars_of("' in '");
            let tail = chars_of("'");
            let a = concat_chars(head.as_slice(), unit.as_slice());
            let b = concat_chars(a.as_slice(), middle.as_slice());
            let c = concat_chars(b.as_slice(), t.as_slice());
            let d = concat_chars(c.as_slice(), tail.as_slice());
            Err(ConfigError::from_chars(d.as_slice()))
        },
    }
}

/// Whether a duration text stands for a number of seconds that fits in 64
/// bits, or is refused anyway.
pub fn duration_string_fits(value: &str) -> (r: bool)
    ensures
        r == duration_fits(value@),
{
    match read_duration(value) {
        Ok((amount, scale)) => amount <= u64::MAX / scale,
        Err(_) => true,
    }
}

/// Reads a duration text, as a configuration file writes it, into seconds.
pub fn parse_duration_string(value: &str) -> (r: Result<u64, ConfigError>)
    requires
        duration_fits(value@),
    ensures
        match parse_duration_spec(value@) {
            Ok(n) => r == Ok::<u64, ConfigError>(n as u64),
            Err(m) => r matches Err(e) && e.message@ == m,
        },
{
    let (amount, scale) = read_duration(value)?;
    let seconds = amount * scale;
    if seconds == 0 {
        return Err(ConfigError::of("duration must be greater than zero"));
    }
    Ok(seconds)
}

/// Writes a duration as a configuration file holds it.
pub fn format_duration_string(seconds: u64) -> (r: String)
    ensures
        r@ == format_duration_spec(seconds as nat),
{
    let (number, unit) = if seconds % 3600 == 0 {
        (seconds / 3600, "h")
    } else if seconds % 60 == 0 {
        (seconds / 60, "m")
    } else {
        (seconds, "s")
    };
    let digits = decimal_string(number);
    let unit_chars = chars_of(unit);
    let all = concat_chars(digits.as_slice(), unit_chars.as_slice());
    string_from(all.as_slice())
}

proof fn lemma_digit_run_end_of_digits(s: Seq<char>, i: int)
    requires
        0 <= i <= s.len(),
        forall|j: int| i <= j < s.len() ==> '0' <= #[trigger] s[j] <= '9',
    ensures
        digit_run_end(s, i) == s.len(),
    decreases s.len() - i,
{
    if i < s.len() {
        lemma_digit_run_end_of_digits(s, i + 1);
    }
}

/// A duration written by `format_duration_string` reads back as the same
/// number of seconds.
#[verifier::spinoff_prover]
pub proof fn duration_round_trip(seconds: nat)
    requires
        0 < seconds <= u64::MAX,
    ensures
        parse_duration_spec(format_duration_spec(seconds)) == Ok::<nat, Seq<char>>(seconds),
        duration_fits(format_duration_spec(seconds)),
{
    reveal_strlit("h");
    reveal_strlit("m");
    reveal_strlit("s");
    let (q, u, scale) = if seconds % 3600 == 0 {
        (seconds / 3600, "h"@, 3600nat)
    } else if seconds % 60 == 0 {
        (seconds / 60, "m"@, 60nat)
    } else {
        (seconds, "s"@, 1nat)
    };
    assert(u.len() == 1);
    assert(u[0] == 'h' || u[0] == 'm' || u[0] == 's');
    assert(q * scale == seconds) by {
        if seconds % 3600 == 0 {
            assert((seconds / 3600) * 3600 == seconds) by (nonlinear_arith)
                requires
                    seconds % 3600 == 0,
            ;
        } else if seconds % 60 == 0 {
            assert((seconds / 60) * 60 == seconds) by (nonlinear_arith)
                requires
                    seconds % 60 == 0,
            ;
        }
    }
    assert(q <= seconds) by (nonlinear_arith)
        requires
            q * scale == seconds,
            scale >= 1,
    ;
    lemma_decimal_round_trip(q);
    let d = decimal_digits(q);
    let text = d + u;
    assert(text == format_duration_spec(seconds));
    assert(text[0] == d[0]);
    assert(!crate::text::is_white_space(text[0]));
    assert(text.last() == u[0]);
    crate::text::lemma_trim_of_solid(text);
    assert forall|j: int| 0 <= j < d.len() implies '0' <= #[trigger] text[j] <= '9' by {
        assert(text[j] == d[j]);
        assert(crate::text::is_ascii_digit(d[j]));
    }
    lemma_digit_run_prefix(text, d.len() as int);
    assert(text.subrange(0, d.len() as int) == d);
    assert(text.subrange(d.len() as int, text.len() as int) == u);
    crate::text::lemma_trim_of_solid(u);
    reveal_strlit("sec");
    reveal_strlit("secs");
    reveal_strlit("second");
    reveal_strlit("seconds");
    reveal_strlit("min");
    reveal_strlit("mins");
    reveal_strlit("minute");
    reveal_strlit("minutes");
    reveal_strlit("hr");
    reveal_strlit("hrs");
    reveal_strlit("hour");
    reveal_strlit("hours");
    reveal_strlit("");
    assert(""@.len() == 0);
    assert("sec"@.len() == 3 && "secs"@.len() == 4 && "second"@.len() == 6 && "seconds"@.len()
        == 7);
    assert("min"@.len() == 3 && "mins"@.len() == 4 && "minute"@.len() == 6 && "minutes"@.len()
        == 7);
    assert("hr"@.len() == 2 && "hrs"@.len() == 3 && "hour"@.len() == 4 && "hours"@.len() == 5);
    assert("s"@[0] == 's' && "m"@[0] == 'm' && "h"@[0] == 'h');
    assert(duration_unit_scale(u) == Some(scale));
}

proof fn lemma_digit_run_prefix(s: Seq<char>, k: int)
    requires
        0 <= k <= s.len(),
        forall|j: int| 0 <= j < k ==> '0' <= #[trigger] s[j] <= '9',
        k == s.len() || !('0' <= s[k] <= '9'),
    ensures
        digit_run_end(s, 0) == k,
{
    lemma_digit_run_from(s, 0, k);
}

proof fn lemma_digit_run_from(s: Seq<char>, i: int, k: int)
    requires
        0 <= i <= k <= s.len(),
        forall|j: int| i <= j < k ==> '0' <= #[trigger] s[j] <= '9',
        k == s.len() || !('0' <= s[k] <= '9'),
    ensures
        digit_run_end(s, i) == k,
    decreases k - i,
{
    if i < k {
        lemma_digit_run_from(s, i + 1, k);
    }
}

/// The path `part` joined onto `base`, as `Path::join` makes it.
pub uninterp spec fn joined_path(base: Seq<char>, part: Seq<char>) -> Seq<char>;

/// Whether two paths have the same components, as `==` on `Path` decides.
pub uninterp spec fn same_path(a: Seq<char>, b: Seq<char>) -> bool;

/// The extension of the path's file name, as `Path::extension` gives it.
pub uninterp spec fn path_extension(p: Seq<char>) -> Option<Seq<char>>;

/// `Path::new(base).join(part)`, as text. Claimed: the result is
/// `joined_path` of the arguments.
#[verifier::external_body]
fn join_path(base: &str, part: &str) -> (r: String)
    ensures
        r@ == joined_path(base@, part@),
{
    std::path::Path::new(base).join(part).to_string_lossy().into_owned()
}

/// `Path::new(a) == Path::new(b)`. Claimed: the result is `same_path` of the
/// arguments.
#[verifier::external_body]
fn paths_equal(a: &str, b: &str) -> (r: bool)
    ensures
        r == same_path(a@, b@),
{
    std::path::Path::new(a) == std::path::Path::new(b)
}

/// `Path::new(p).extension()`, as text. Claimed: the result is
/// `path_extension` of the argument.
#[verifier::external_body]
fn extension_of(p: &str) -> (r: Option<String>)
    ensures
        match r {
            Some(e) => path_extension(p@) == Some(e@),
            None => path_extension(p@) is None,
        },
{
    std::path::Path::new(p).extension().map(|e| e.to_string_lossy().into_owned())
}

/// The name of the database file.
pub open spec fn db_file_name() -> Seq<char> {
    "triginta.sqlite3"@
}

/// The name of the database file.
pub fn db_filename() -> (r: &'static str)
    ensures
        r@ == db_file_name(),
{
    "triginta.sqlite3"
}

/// Where the application keeps its files.
#[derive(Debug, Clone)]
pub struct AppPaths {
    pub config_dir: String,
    pub config_search_dirs: Vec<String>,
    pub data_dir: String,
    pub db_path: String,
    pub log_path: String,
    pub config_toml_path: String,
    pub config_yaml_path: String,
    pub config_yml_path: String,
    pub themes_dir: String,
}

/// `dirs` followed by each of `extra` that names no directory already there,
/// in order.
pub open spec fn with_distinct(dirs: Seq<Seq<char>>, extra: Seq<Seq<char>>) -> Seq<Seq<char>>
    decreases extra.len(),
{
    if extra.len() == 0 {
        dirs
    } else if exists|i: int| 0 <= i < dirs.len() && same_path(#[trigger] dirs[i], extra[0]) {
        with_distinct(dirs, extra.drop_first())
    } else {
        with_distinct(dirs.push(extra[0]), extra.drop_first())
    }
}

pub open spec fn strings_model(v: Seq<String>) -> Seq<Seq<char>> {
    v.map_values(|s: String| s@)
}

/// The paths under a configuration directory and a data directory.
pub open spec fn paths_under(p: AppPaths, config_dir: Seq<char>, data_dir: Seq<char>) -> bool {
    &&& p.config_dir@ == config_dir
    &&& p.data_dir@ == data_dir
    &&& p.db_path@ == joined_path(data_dir, db_file_name())
    &&& p.log_path@ == joined_path(joined_path(data_dir, "logs"@), "triginta.log"@)
    &&& p.config_toml_path@ == joined_path(config_dir, "config.toml"@)
    &&& p.config_yaml_path@ == joined_path(config_dir, "config.yaml"@)
    &&& p.config_yml_path@ == joined_path(config_dir, "config.yml"@)
    &&& p.themes_dir@ == joined_path(config_dir, "themes"@)
}

impl AppPaths {
    /// The paths under one data directory, with the configuration in its
    /// `config` directory.
    pub fn from_data_dir(data_dir: String) -> (r: Result<Self, ConfigError>)
        ensures
            r matches Ok(p) && paths_under(p, joined_path(data_dir@, "config"@), data_dir@)
                && strings_model(p.config_search_dirs@) == seq![joined_path(data_dir@, "config"@)],
    {
        let config_dir = join_path(data_dir.as_str(), "config");
        Self::from_project_dirs(config_dir.as_str(), data_dir.as_str())
    }

    fn from_project_dirs(config_dir: &str, data_dir: &str) -> (r: Result<Self, ConfigError>)
        ensures
            r matches Ok(p) && paths_under(p, config_dir@, data_dir@) && strings_model(
                p.config_search_dirs@,
            ) == seq![config_dir@],
    {
        let r = Self::from_project_dirs_with_extra_config_dirs(config_dir, data_dir, Vec::new());
        proof {
            let ghost empty = strings_model(Seq::<String>::empty());
            assert(empty.len() == 0);
        }
        r
    }

    /// The paths under a configuration directory and a data directory; the
    /// configuration is also looked for in each extra directory that is not
    /// already among the places to look.
    pub fn from_project_dirs_with_extra_config_dirs(
        config_dir: &str,
        data_dir: &str,
        extra_config_dirs: Vec<String>,
    ) -> (r: Result<Self, ConfigError>)
        ensures
            r matches Ok(p) && paths_under(p, config_dir@, data_dir@) && strings_model(
                p.config_search_dirs@,
            ) == with_distinct(seq![config_dir@], strings_model(extra_config_dirs@)),
    {
        let mut config_search_dirs: Vec<String> = Vec::new();
        config_search_dirs.push(string_of(config_dir));
        let ghost extra = strings_model(extra_config_dirs@);
        let mut i: usize = 0;
        proof {
            assert(strings_model(config_search_dirs@) =~= seq![config_dir@]);
            assert(extra.skip(0) =~= extra);
        }
        while i < extra_config_dirs.len()
            invariant
                i <= extra_config_dirs.len(),
                extra == strings_model(extra_config_dirs@),
                with_distinct(seq![config_dir@], extra) == with_distinct(
                    strings_model(config_search_dirs@),
                    extra.skip(i as int),
                ),
            decreases extra_config_dirs.len() - i,
        {
            let candidate = &extra_config_dirs[i];
            let mut j: usize = 0;
            let mut present = false;
            while j < config_search_dirs.len()
                invariant
                    j <= config_search_dirs.len(),
                    present == exists|k: int|
                        0 <= k < j && same_path(
                            #[trigger] strings_model(config_search_dirs@)[k],
                            candidate@,
                        ),
                decreases config_search_dirs.len() - j,
            {
                let same = paths_equal(config_search_dirs[j].as_str(), candidate.as_str());
                assert(strings_model(config_search_dirs@)[j as int] == config_search_dirs@[j as int]@);
                if same {
                    present = true;
                }
                j += 1;
            }
            let ghost before = strings_model(config_search_dirs@);
            proof {
                assert(extra.skip(i as int).drop_first() =~= extra.skip(i + 1));
                assert(extra.skip(i as int)[0] == candidate@);
            }
            if !present {
                config_search_dirs.push(string_of(candidate.as_str()));
                assert(strings_model(config_search_dirs@) =~= before.push(candidate@));
            }
            i += 1;
        }
        proof {
            assert(extra.skip(extra.len() as int) =~= Seq::<Seq<char>>::empty());
        }
        let logs = join_path(data_dir, "logs");
        Ok(
            AppPaths {
                config_dir: string_of(config_dir),
                config_search_dirs,
                data_dir: string_of(data_dir),
                db_path: join_path(data_dir, db_filename()),
                log_path: join_path(logs.as_str(), "triginta.log"),
                config_toml_path: join_path(config_dir, "config.toml"),
                config_yaml_path: join_path(config_dir, "config.yaml"),
                config_yml_path: join_path(config_dir, "config.yml"),
                themes_dir: join_path(config_dir, "themes"),
            },
        )
    }

    /// Every place a configuration file may be: `config.toml`, `config.yaml`
    /// and `config.yml` in each directory searched, in that order.
    pub fn config_candidates(&self) -> (r: Vec<String>)
        ensures
            r@.len() == 3 * self.config_search_dirs@.len(),
            forall|i: int|
                0 <= i < self.config_search_dirs@.len() ==> #[trigger] candidates_at(
                    r@,
                    self.config_search_dirs@,
                    i,
                ),
    {
        let mut r: Vec<String> = Vec::new();
        let mut i: usize = 0;
        while i < self.config_search_dirs.len()
            invariant
                i <= self.config_search_dirs@.len(),
                r@.len() == 3 * i,
                forall|k: int|
                    0 <= k < i ==> #[trigger] candidates_at(r@, self.config_search_dirs@, k),
            decreases self.config_search_dirs.len() - i,
        {
            let dir = self.config_search_dirs[i].as_str();
            let ghost prev = r@;
            r.push(join_path(dir, "config.toml"));
            r.push(join_path(dir, "config.yaml"));
            r.push(join_path(dir, "config.yml"));
            proof {
                assert(candidates_at(r@, self.config_search_dirs@, i as int));
                assert forall|k: int| 0 <= k < i + 1 implies #[trigger] candidates_at(
                    r@,
                    self.config_search_dirs@,
                    k,
                ) by {
                    if k < i {
                        assert(candidates_at(prev, self.config_search_dirs@, k));
                        assert(r@[3 * k] == prev[3 * k]);
                        assert(r@[3 * k + 1] == prev[3 * k + 1]);
                        assert(r@[3 * k + 2] == prev[3 * k + 2]);
                    }
                }
            }
            i += 1;
        }
        r
    }
}

/// The three candidate files of the `i`-th directory searched stand at
/// `3 * i`, `3 * i + 1` and `3 * i + 2`.
pub open spec fn candidates_at(r: Seq<String>, dirs: Seq<String>, i: int) -> bool {
    &&& r[3 * i]@ == joined_path(dirs[i]@, "config.toml"@)
    &&& r[3 * i + 1]@ == joined_path(dirs[i]@, "config.yaml"@)
    &&& r[3 * i + 2]@ == joined_path(dirs[i]@, "config.yml"@)
}

/// The format of a configuration file.
#[derive(Debug, Clone, Copy, PartialEq, Eq, Structural)]
pub enum ConfigFormat {
    Toml,
    Yaml,
}

/// `names` written one after another with `sep` between them.
pub open spec fn joined_with(names: Seq<Seq<char>>, sep: Seq<char>) -> Seq<char>
    decreases names.len(),
{
    if names.len() == 0 {
        Seq::empty()
    } else if names.len() == 1 {
        names[0]
    } else {
        joined_with(names.drop_last(), sep) + sep + names.last()
    }
}

/// Which configuration file to read among those that exist: none gives the
/// defaults, more than one is refused, and the one file must be named
/// `.toml`, `.yaml` or `.yml`.
pub open spec fn config_file_choice(existing: Seq<Seq<char>>) -> Result<
    Option<(Seq<char>, ConfigFormat)>,
    Seq<char>,
> {
    if existing.len() == 0 {
        Ok(None)
    } else if existing.len() > 1 {
        Err("multiple config files found; keep only one of: "@ + joined_with(existing, ", "@))
    } else {
        match path_extension(existing[0]) {
            Some(ext) => if ext == "toml"@ {
                Ok(Some((existing[0], ConfigFormat::Toml)))
            } else if ext == "yaml"@ || ext == "yml"@ {
                Ok(Some((existing[0], ConfigFormat::Yaml)))
            } else {
                Err("unsupported config file extension: "@ + ext)
            },
            None => Err("config file "@ + existing[0] + " has no extension"@),
        }
    }
}

/// Picks the configuration file to read among the candidates that exist,
/// given in the order `AppPaths::config_candidates` lists them.
pub fn active_config_path(existing: &Vec<String>) -> (r: Result<
    Option<(String, ConfigFormat)>,
    ConfigError,
>)
    ensures
        match config_file_choice(strings_model(existing@)) {
            Ok(None) => r matches Ok(None),
            Ok(Some((path, format))) => r matches Ok(Some((p, f))) && p@ == path && f == format,
            Err(m) => r matches Err(e) && e.message@ == m,
        },
{
    let ghost names = strings_model(existing@);
    if existing.len() == 0 {
        return Ok(None);
    }
    if existing.len() > 1 {
        let sep = chars_of(", ");
        let mut joined = chars_of(existing[0].as_str());
        let mut i: usize = 1;
        proof {
            assert(names.take(1).drop_last().len() == 0);
            assert(joined_with(names.take(1), sep@) == names.take(1)[0]);
        }
        while i < existing.len()
            invariant
                1 <= i <= existing.len(),
                names == strings_model(existing@),
                sep@ == ", "@,
                joined@ == joined_with(names.take(i as int), sep@),
            decreases existing.len() - i,
        {
            let with_sep = concat_chars(joined.as_slice(), sep.as_slice());
            let name = chars_of(existing[i].as_str());
            joined = concat_chars(with_sep.as_slice(), name.as_slice());
            proof {
                let next = names.take(i + 1);
                assert(next.drop_last() =~= names.take(i as int));
                assert(next.last() == names[i as int]);
            }
            i += 1;
        }
        proof {
            assert(names.take(existing.len() as int) =~= names);
        }
        let head = chars_of("multiple config files found; keep only one of: ");
        let message = concat_chars(head.as_slice(), joined.as_slice());
        return Err(ConfigError::from_chars(message.as_slice()));
    }
    let path = existing[0].as_str();
    match extension_of(path) {
        Some(ext) => {
            let e = chars_of(ext.as_str());
            let toml = chars_of("toml");
            let yaml = chars_of("yaml");
            let yml = chars_of("yml");
            if chars_eq(e.as_slice(), toml.as_slice()) {
                Ok(Some((string_of(path), ConfigFormat::Toml)))
            } else if chars_eq(e.as_slice(), yaml.as_slice()) || chars_eq(
                e.as_slice(),
                yml.as_slice(),
            ) {
                Ok(Some((string_of(path), ConfigFormat::Yaml)))
            } else {
                let head = chars_of("unsupported config file extension: ");
                let message = concat_chars(head.as_slice(), e.as_slice());
                Err(ConfigError::from_chars(message.as_slice()))
            }
        },
        None => {
            let p = chars_of(path);
            Err(error_around("config file ", p.as_slice(), " has no extension"))
        },
    }
}

} // verus!
