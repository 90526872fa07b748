use triginta::app::{
    apply_debug_overrides, reset_unpersisted_sorts, duration_to_stored_minutes, fuzzy_matches, session_kind_for_phase,
    CycleEntryState, PanelFocus, ProjectEditorField, RunOptions, SidebarTab, TaskEditorField,
    TimerPhase, TimerRecord, TimerRunState, TimerState,
};
use triginta::config::{AppConfig, FilterSortOrder, GlyphMode, ProjectSortOrder, TagSortOrder, TimerSettings};
use triginta::domain::{SessionKind, SessionOutcome};

#[test]
fn debug_short_timer_override_replaces_timer_settings() {
    let mut config = AppConfig::default();
    apply_debug_overrides(
        &mut config,
        RunOptions {
            force_ascii: false,
            force_short_timer: true,
            reset_data: false,
        },
    );

    assert_eq!(config.timer, TimerSettings::short_timer_preset());
}

#[test]
fn debug_ascii_override_only_changes_glyphs() {
    let mut config = AppConfig::default();
    apply_debug_overrides(
        &mut config,
        RunOptions {
            force_ascii: true,
            force_short_timer: false,
            reset_data: false,
        },
    );
    assert_eq!(config.ui.glyph_mode, GlyphMode::Ascii);
    assert_eq!(config.timer, TimerSettings::default());
}

#[test]
fn sidebar_tabs_cycle_both_ways() {
    let order = [
        SidebarTab::Navigation,
        SidebarTab::Projects,
        SidebarTab::Tags,
        SidebarTab::Filters,
    ];
    for (i, tab) in order.iter().enumerate() {
        assert_eq!(tab.next(), order[(i + 1) % 4]);
        assert_eq!(tab.previous(), order[(i + 3) % 4]);
        assert_eq!(tab.next().previous(), *tab);
    }
    assert_eq!(SidebarTab::Filters.label(), "Filters");
}

#[test]
fn panels_cycle_and_answer_their_shortcuts() {
    assert_eq!(PanelFocus::Timer.next(), PanelFocus::History);
    assert_eq!(PanelFocus::RightPane.next(), PanelFocus::Timer);
    assert_eq!(PanelFocus::Timer.previous(), PanelFocus::RightPane);
    assert_eq!(PanelFocus::from_shortcut('1'), Some(PanelFocus::Timer));
    assert_eq!(PanelFocus::from_shortcut('5'), Some(PanelFocus::Navigation));
    assert_eq!(PanelFocus::from_shortcut('8'), Some(PanelFocus::RightPane));
    assert_eq!(PanelFocus::from_shortcut('9'), None);
    assert_eq!(PanelFocus::History.title(), "Daily History");
}

#[test]
fn editor_fields_stop_at_the_ends() {
    assert_eq!(TaskEditorField::Title.previous(), TaskEditorField::Title);
    assert_eq!(TaskEditorField::Title.next(), TaskEditorField::Description);
    assert_eq!(TaskEditorField::Description.next(), TaskEditorField::Project);
    assert_eq!(TaskEditorField::Parent.next(), TaskEditorField::Parent);
    assert_eq!(ProjectEditorField::from_index(2), ProjectEditorField::Color);
    assert_eq!(ProjectEditorField::from_index(9), ProjectEditorField::Favorite);
    assert_eq!(ProjectEditorField::Favorite.next(), ProjectEditorField::Favorite);
    assert_eq!(ProjectEditorField::Name.previous(), ProjectEditorField::Name);
    assert_eq!(ProjectEditorField::Name.index(), 0);
}

#[test]
fn fuzzy_match_is_case_blind_and_in_order() {
    assert!(fuzzy_matches("", "anything"));
    assert!(fuzzy_matches("wbr", "Website Revamp"));
    assert!(fuzzy_matches("WEB", "website"));
    assert!(!fuzzy_matches("rw", "Website Revamp x"));
    assert!(!fuzzy_matches("abc", "ab"));
}

#[test]
fn stored_minutes_round_up() {
    assert_eq!(duration_to_stored_minutes(25 * 60), 25);
    assert_eq!(duration_to_stored_minutes(30), 1);
    assert_eq!(duration_to_stored_minutes(0), 0);
    assert_eq!(duration_to_stored_minutes(61), 2);
}

#[test]
fn session_kinds_follow_phases() {
    assert_eq!(session_kind_for_phase(TimerPhase::Focus), SessionKind::Focus);
    assert_eq!(session_kind_for_phase(TimerPhase::LongBreak), SessionKind::LongBreak);
}

fn short_settings() -> TimerSettings {
    TimerSettings::short_timer_preset()
}

#[test]
fn timer_counts_only_while_running() {
    let settings = short_settings();
    let mut timer = TimerState::new(4);
    assert_eq!(timer.cycle_entries, vec![CycleEntryState::NotStarted; 4]);
    timer.start_or_resume(1_000);
    assert_eq!(timer.run_state, TimerRunState::Running);
    assert_eq!(timer.cycle_entries[0], CycleEntryState::Running);
    assert_eq!(timer.elapsed_at(6_000), 5_000);
    timer.pause(6_000);
    assert_eq!(timer.run_state, TimerRunState::Paused);
    assert_eq!(timer.elapsed_at(60_000), 5_000);
    assert_eq!(timer.remaining_at(60_000, &settings), 25_000);
    timer.start_or_resume(60_000);
    assert_eq!(timer.current_phase_started_at, Some(1_000));
    assert_eq!(timer.elapsed_at(61_000), 6_000);
    timer.start_or_resume(70_000);
    assert_eq!(timer.running_since, Some(60_000));
}

#[test]
fn finished_focus_is_recorded_and_break_starts() {
    let settings = short_settings();
    let mut timer = TimerState::new(4);
    timer.start_or_resume(0);
    assert_eq!(timer.tick(29_999, &settings), None);
    let record = timer.tick(30_000, &settings);
    assert_eq!(
        record,
        Some(TimerRecord::FocusCompleted {
            next_break: SessionKind::ShortBreak,
            started_at: 0,
            ended_at: 30_000,
            stored_minutes: 1,
        })
    );
    assert_eq!(timer.phase, TimerPhase::ShortBreak);
    assert_eq!(timer.run_state, TimerRunState::Running);
    assert_eq!(timer.cycle_entries[0], CycleEntryState::Break);

    let record = timer.tick(40_000, &settings);
    assert_eq!(
        record,
        Some(TimerRecord::Session {
            kind: SessionKind::ShortBreak,
            outcome: SessionOutcome::Completed,
            started_at: 30_000,
            ended_at: 40_000,
            duration_seconds: 10,
        })
    );
    assert_eq!(timer.phase, TimerPhase::Focus);
    assert_eq!(timer.run_state, TimerRunState::Idle);
    assert_eq!(timer.completed_cycles_in_round, 1);
    assert_eq!(timer.current_cycle_index, 1);
    assert_eq!(timer.cycle_entries[0], CycleEntryState::Completed);
}

#[test]
fn fourth_focus_earns_long_break_and_new_round() {
    let settings = short_settings();
    let mut timer = TimerState::new(4);
    let mut now = 0i64;
    for _ in 0..3 {
        timer.start_or_resume(now);
        now += 30_000;
        timer.tick(now, &settings);
        now += 10_000;
        timer.tick(now, &settings);
    }
    assert_eq!(timer.completed_cycles_in_round, 3);
    timer.start_or_resume(now);
    now += 30_000;
    match timer.tick(now, &settings) {
        Some(TimerRecord::FocusCompleted { next_break, .. }) => {
            assert_eq!(next_break, SessionKind::LongBreak)
        }
        other => panic!("unexpected record {:?}", other),
    }
    assert_eq!(timer.phase, TimerPhase::LongBreak);
    now += 20_000;
    timer.tick(now, &settings);
    assert_eq!(timer.completed_cycles_in_round, 0);
    assert_eq!(timer.current_cycle_index, 0);
    assert_eq!(timer.cycle_entries, vec![CycleEntryState::NotStarted; 4]);
    assert_eq!(timer.phase, TimerPhase::Focus);
}

#[test]
fn stopping_focus_voids_slot_and_stopping_idle_does_nothing() {
    let settings = short_settings();
    let mut timer = TimerState::new(4);
    assert_eq!(timer.stop(5_000, &settings), None);
    timer.start_or_resume(1_000);
    let record = timer.stop(13_500, &settings);
    assert_eq!(
        record,
        Some(TimerRecord::Session {
            kind: SessionKind::Focus,
            outcome: SessionOutcome::Voided,
            started_at: 1_000,
            ended_at: 13_500,
            duration_seconds: 12,
        })
    );
    assert_eq!(timer.cycle_entries[0], CycleEntryState::Voided);
    assert_eq!(timer.current_cycle_index, 1);
    assert_eq!(timer.cycle_entries.len(), 5);
    assert_eq!(timer.run_state, TimerRunState::Idle);
}

#[test]
fn stopping_a_break_completes_it_early() {
    let settings = short_settings();
    let mut timer = TimerState::new(4);
    timer.start_or_resume(0);
    timer.tick(30_000, &settings);
    let record = timer.stop(33_000, &settings);
    assert_eq!(
        record,
        Some(TimerRecord::Session {
            kind: SessionKind::ShortBreak,
            outcome: SessionOutcome::Completed,
            started_at: 30_000,
            ended_at: 33_000,
            duration_seconds: 3,
        })
    );
    assert_eq!(timer.completed_cycles_in_round, 1);
    assert_eq!(timer.phase, TimerPhase::Focus);
}

#[test]
fn labels_of_timer_states() {
    assert_eq!(TimerPhase::Focus.label(), "Pomodoro");
    assert_eq!(TimerRunState::Idle.label(TimerPhase::Focus), "Ready");
    assert_eq!(TimerPhase::LongBreak.duration(&short_settings()), 20_000);
}

#[test]
fn debug_ascii_override_keeps_the_list_sorts() {
    let mut config = AppConfig::default();
    config.ui.project_list_sort = ProjectSortOrder::NameAsc;
    config.ui.persist_project_list_sort = true;
    let before = config.clone();
    apply_debug_overrides(
        &mut config,
        RunOptions { force_ascii: true, force_short_timer: false, reset_data: false },
    );
    assert_eq!(config.ui.glyph_mode, GlyphMode::Ascii);
    assert_eq!(config.ui.project_list_sort, ProjectSortOrder::NameAsc);
    assert!(config.ui.persist_project_list_sort);
    assert_eq!(config.timer, before.timer);
}

#[test]
fn unpersisted_sort_orders_reset_to_manual() {
    let mut config = AppConfig::default();
    config.ui.project_list_sort = ProjectSortOrder::NameAsc;
    config.ui.persist_project_list_sort = true;
    config.ui.tag_list_sort = TagSortOrder::NameAsc;
    config.ui.filter_list_sort = FilterSortOrder::NameAsc;
    reset_unpersisted_sorts(&mut config);
    assert_eq!(config.ui.project_list_sort, ProjectSortOrder::NameAsc);
    assert_eq!(config.ui.tag_list_sort, TagSortOrder::Manual);
    assert_eq!(config.ui.filter_list_sort, FilterSortOrder::Manual);
}
