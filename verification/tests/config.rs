use std::path::PathBuf;
use std::time::Duration;

use triginta::config::{
    db_filename, format_duration_string, parse_duration_string, active_config_path,
    validate_app_config, AppConfig, AppPaths, ConfigFormat, GlyphMode, ProjectSortOrder,
    TaskSortOrder, TimerSettings, TodoistTokenSource, TokenCommandConfig,
};

fn strings(items: &[&str]) -> Vec<String> {
    items.iter().map(|s| s.to_string()).collect()
}

#[test]
fn from_data_dir_builds_expected_paths() {
    let base = PathBuf::from("/tmp/triginta-test");
    let paths = AppPaths::from_data_dir(base.to_string_lossy().into_owned())
        .expect("paths should resolve");

    assert_eq!(PathBuf::from(&paths.data_dir), base);
    assert_eq!(
        PathBuf::from(&paths.config_dir),
        PathBuf::from("/tmp/triginta-test/config")
    );
    assert_eq!(
        paths.config_search_dirs.iter().map(PathBuf::from).collect::<Vec<_>>(),
        vec![PathBuf::from("/tmp/triginta-test/config")]
    );
    assert_eq!(
        PathBuf::from(&paths.db_path),
        PathBuf::from(format!("/tmp/triginta-test/{}", db_filename()))
    );
    assert_eq!(
        PathBuf::from(&paths.log_path),
        PathBuf::from("/tmp/triginta-test/logs/triginta.log")
    );
    assert_eq!(
        PathBuf::from(&paths.config_toml_path),
        PathBuf::from("/tmp/triginta-test/config/config.toml")
    );
    assert_eq!(
        PathBuf::from(&paths.themes_dir),
        PathBuf::from("/tmp/triginta-test/config/themes")
    );
}

#[test]
fn short_timer_preset_uses_expected_testing_durations() {
    let settings = TimerSettings::short_timer_preset();
    assert_eq!(Duration::from_secs(settings.pomodoro_length), Duration::from_secs(30));
    assert_eq!(Duration::from_secs(settings.short_break_length), Duration::from_secs(10));
    assert_eq!(Duration::from_secs(settings.long_break_length), Duration::from_secs(20));
    assert_eq!(settings.long_break_interval, 4);
}

#[test]
fn parse_duration_supports_seconds_and_minutes() {
    assert_eq!(
        Duration::from_secs(parse_duration_string("30s").expect("seconds should parse")),
        Duration::from_secs(30)
    );
    assert_eq!(
        Duration::from_secs(parse_duration_string("25m").expect("minutes should parse")),
        Duration::from_secs(25 * 60)
    );
}

#[test]
fn parse_duration_accepts_units_spaces_and_bare_seconds() {
    assert_eq!(parse_duration_string("2h"), Ok(7200));
    assert_eq!(parse_duration_string("1800"), Ok(1800));
    assert_eq!(parse_duration_string("  30 seconds "), Ok(30));
    assert_eq!(parse_duration_string("15 min"), Ok(900));
    assert_eq!(parse_duration_string("3 hrs"), Ok(10800));
}

#[test]
fn parse_duration_reports_each_error() {
    assert_eq!(
        parse_duration_string("   ").unwrap_err().message,
        "duration cannot be empty"
    );
    assert_eq!(
        parse_duration_string("m").unwrap_err().message,
        "duration 'm' is missing a numeric value"
    );
    assert_eq!(
        parse_duration_string("5 days").unwrap_err().message,
        "unsupported duration unit 'days' in '5 days'"
    );
    assert_eq!(
        parse_duration_string("0m").unwrap_err().message,
        "duration must be greater than zero"
    );
    assert_eq!(
        parse_duration_string("99999999999999999999s").unwrap_err().message,
        "invalid duration value '99999999999999999999s'"
    );
}

#[test]
fn format_duration_picks_largest_whole_unit() {
    assert_eq!(format_duration_string(150 * 60), "150m");
    assert_eq!(format_duration_string(2 * 3600), "2h");
    assert_eq!(format_duration_string(45), "45s");
    assert_eq!(format_duration_string(0), "0h");
}

#[test]
fn format_then_parse_gives_the_duration_back() {
    for seconds in [1u64, 59, 60, 61, 3599, 3600, 5400, 86400, 123456789] {
        let text = format_duration_string(seconds);
        assert_eq!(parse_duration_string(&text), Ok(seconds));
    }
}

#[test]
fn default_config_matches_documented_defaults() {
    let config = AppConfig::default();
    assert_eq!(config.ui.glyph_mode, GlyphMode::NerdFonts);
    assert_eq!(config.ui.theme, "catppuccin-mocha");
    assert_eq!(config.ui.task_list_sort, TaskSortOrder::DueAsc);
    assert_eq!(config.ui.project_list_sort, ProjectSortOrder::Manual);
    assert!(!config.ui.persist_project_list_sort);
    assert!(config.ui.hide_completed_tasks);
    assert_eq!(config.timer.pomodoro_length, 25 * 60);
    assert_eq!(config.timer.short_break_length, 5 * 60);
    assert_eq!(config.timer.long_break_length, 15 * 60);
    assert_eq!(config.timer.long_break_interval, 4);
    assert_eq!(config.stats.daily_target, 150 * 60);
    assert!(!config.integrations.todoist.enabled);
    assert_eq!(validate_app_config(&config), Ok(()));
}

#[test]
fn validation_rejects_zero_stats_daily_target() {
    let mut config = AppConfig::default();
    config.stats.daily_target = 0;
    let error = validate_app_config(&config).expect_err("zero target should fail validation");
    assert_eq!(error.message, "stats.daily-target must be greater than zero");
}

#[test]
fn validation_rejects_zero_timer_lengths_in_order() {
    let mut config = AppConfig::default();
    config.timer.long_break_interval = 0;
    assert_eq!(
        validate_app_config(&config).unwrap_err().message,
        "timer.long-break-interval must be greater than zero"
    );
    config.timer.short_break_length = 0;
    assert_eq!(
        validate_app_config(&config).unwrap_err().message,
        "timer.short-break-length must be greater than zero"
    );
    config.timer.pomodoro_length = 0;
    config.stats.daily_target = 0;
    assert_eq!(
        validate_app_config(&config).unwrap_err().message,
        "timer.pomodoro-length must be greater than zero"
    );
}

#[test]
fn validation_requires_command_settings_for_command_source() {
    let mut config = AppConfig::default();
    config.integrations.todoist.token_source = TodoistTokenSource::Command;
    let error = validate_app_config(&config).expect_err("command source should require command");
    assert!(error.message.contains("token-command"));

    config.integrations.todoist.token_command = Some(TokenCommandConfig {
        program: "/usr/bin/sops".to_string(),
        args: strings(&["-d", "/tmp/token.enc"]),
        timeout_ms: 1500,
    });
    assert_eq!(validate_app_config(&config), Ok(()));

    config.integrations.todoist.token_command = Some(TokenCommandConfig {
        program: "   ".to_string(),
        args: Vec::new(),
        timeout_ms: 1500,
    });
    assert_eq!(
        validate_app_config(&config).unwrap_err().message,
        "integrations.todoist.token-command.program cannot be empty"
    );
}

#[test]
fn validation_checks_sync_runtime_bounds() {
    let mut config = AppConfig::default();
    config.integrations.todoist.sync_runtime.poll_max_interval_seconds = 10;
    assert_eq!(
        validate_app_config(&config).unwrap_err().message,
        "integrations.todoist.sync-runtime.poll-max-interval-seconds must be greater than or equal to poll-min-interval-seconds"
    );
    let mut config = AppConfig::default();
    config.integrations.todoist.token_env_var = " ".to_string();
    assert_eq!(
        validate_app_config(&config).unwrap_err().message,
        "integrations.todoist.token-env-var cannot be empty"
    );
}

#[test]
fn config_file_selection_follows_what_exists() {
    assert_eq!(active_config_path(&Vec::new()), Ok(None));
    assert_eq!(
        active_config_path(&strings(&["/c/config.toml"])),
        Ok(Some(("/c/config.toml".to_string(), ConfigFormat::Toml)))
    );
    assert_eq!(
        active_config_path(&strings(&["/c/config.yml"])),
        Ok(Some(("/c/config.yml".to_string(), ConfigFormat::Yaml)))
    );
    let error = active_config_path(&strings(&["/c/config.toml", "/x/config.yaml"]))
        .expect_err("multiple config files should fail");
    assert!(error.message.contains("multiple config files found"));
    assert_eq!(
        error.message,
        "multiple config files found; keep only one of: /c/config.toml, /x/config.yaml"
    );
    assert_eq!(
        active_config_path(&strings(&["/c/config.json"])).unwrap_err().message,
        "unsupported config file extension: json"
    );
}

#[test]
fn extra_config_dirs_are_searched_after_the_primary_once() {
    let paths = AppPaths::from_project_dirs_with_extra_config_dirs(
        "/base/primary-config",
        "/base/data",
        strings(&["/base/xdg-config", "/base/primary-config", "/base/xdg-config/"]),
    )
    .expect("paths should resolve");
    assert_eq!(
        paths.config_search_dirs,
        strings(&["/base/primary-config", "/base/xdg-config"])
    );
    assert_eq!(
        paths.config_candidates(),
        strings(&[
            "/base/primary-config/config.toml",
            "/base/primary-config/config.yaml",
            "/base/primary-config/config.yml",
            "/base/xdg-config/config.toml",
            "/base/xdg-config/config.yaml",
            "/base/xdg-config/config.yml",
        ])
    );
    assert_eq!(paths.config_yaml_path, "/base/primary-config/config.yaml");
}
