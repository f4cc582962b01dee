use zephyr::dashboard::{install_module_on_zephyr, App};
use zephyr::key::Key;
use zephyr::mood_journal::Mood;
use zephyr::pomodoro::{Phase, DEFAULT_WORK_MS};
use zephyr::state::InstalledModules;

#[test]
fn new_dashboard_has_the_fixed_catalog_and_initial_state() {
    let a = App::new(0);
    assert_eq!(
        a.modules,
        vec![
            InstalledModules::Pomodoro,
            InstalledModules::TodoList,
            InstalledModules::HabitTracker,
            InstalledModules::TimeLogger,
            InstalledModules::MoodJournal,
        ]
    );
    assert_eq!(a.cursor, 0);
    assert_eq!(a.running, None);
    assert_eq!(a.pomodoro.remaining, DEFAULT_WORK_MS);
    assert_eq!(a.mood.chosen, None);
}

#[test]
fn engine_slots_are_found_by_scanning_the_catalog() {
    let a = App::new(0);
    assert_eq!(a.pomodoro_idx(), 0);
    assert_eq!(a.mood_idx(), 4);
}

#[test]
fn previous_from_first_slot_wraps_to_last() {
    // five modules, cursor at 0: Previous wraps to 4
    let mut a = App::new(0);
    let quit = a.on_key(Key::Char(','), 0);
    assert!(!quit);
    assert_eq!(a.cursor, 4);
}

#[test]
fn next_five_times_walks_the_whole_row_back_to_start() {
    let mut a = App::new(0);
    for expected in [1, 2, 3, 4, 0] {
        let quit = a.on_key(Key::Char('.'), 0);
        assert!(!quit);
        assert_eq!(a.cursor, expected);
    }
}

#[test]
fn previous_undoes_next_at_every_position() {
    let mut a = App::new(0);
    for _ in 0..5 {
        let before = a.cursor;
        let _ = a.on_key(Key::Char('.'), 0);
        let _ = a.on_key(Key::Char(','), 0);
        assert_eq!(a.cursor, before);
        let _ = a.on_key(Key::Char('.'), 0);
    }
}

#[test]
fn navigation_does_not_touch_the_activated_slot() {
    let mut a = App::new(0);
    let _ = a.on_key(Key::Char('p'), 0);
    assert_eq!(a.running, Some(0));
    let _ = a.on_key(Key::Char('.'), 0);
    assert_eq!(a.running, Some(0));
}

#[test]
fn activation_targets_the_focused_card_and_retargets() {
    let mut a = App::new(0);
    let _ = a.on_key(Key::Char('p'), 0);
    assert_eq!(a.running, Some(0));
    let _ = a.on_key(Key::Char('.'), 0);
    let _ = a.on_key(Key::Char('p'), 0);
    assert_eq!(a.running, Some(1));
}

#[test]
fn start_reaches_the_pomodoro_only_while_it_is_activated() {
    let mut a = App::new(0);
    let _ = a.on_key(Key::Char('s'), 5);
    assert!(!a.pomodoro.running);
    let _ = a.on_key(Key::Char('p'), 5);
    let _ = a.on_key(Key::Char('s'), 7);
    assert!(a.pomodoro.running);
    assert_eq!(a.pomodoro.last_tick, 7);
}

#[test]
fn reset_reaches_the_pomodoro_only_while_it_is_activated() {
    let mut a = App::new(0);
    let _ = a.on_key(Key::Char('p'), 0);
    let _ = a.on_key(Key::Char('s'), 0);
    let _ = a.tick(60 * 1000);
    assert_eq!(a.pomodoro.remaining, 24 * 60 * 1000);
    // retarget activation away from the pomodoro: reset no longer reaches it
    let _ = a.on_key(Key::Char('.'), 0);
    let _ = a.on_key(Key::Char('p'), 0);
    let _ = a.on_key(Key::Char('r'), 0);
    assert_eq!(a.pomodoro.remaining, 24 * 60 * 1000);
    // back on the pomodoro card, reset restores the full work phase
    let _ = a.on_key(Key::Char(','), 0);
    let _ = a.on_key(Key::Char('p'), 0);
    let _ = a.on_key(Key::Char('r'), 0);
    assert_eq!(a.pomodoro.remaining, DEFAULT_WORK_MS);
    assert_eq!(a.pomodoro.phase, Phase::Work);
    assert!(!a.pomodoro.running);
}

#[test]
fn quit_key_reports_quit_and_changes_nothing() {
    let mut a = App::new(0);
    let quit = a.on_key(Key::Char('q'), 0);
    assert!(quit);
    assert_eq!(a.cursor, 0);
    assert_eq!(a.running, None);
}

#[test]
fn ticks_reach_the_pomodoro_only_while_it_is_activated() {
    let mut a = App::new(0);
    let _ = a.on_key(Key::Char('p'), 0);
    let _ = a.on_key(Key::Char('s'), 0);
    let rang = a.tick(60 * 1000);
    assert!(!rang);
    assert_eq!(a.pomodoro.remaining, 24 * 60 * 1000);
    // with another module activated the timer no longer advances
    let _ = a.on_key(Key::Char('.'), 0);
    let _ = a.on_key(Key::Char('p'), 0);
    let _ = a.tick(10 * 60 * 1000);
    assert_eq!(a.pomodoro.remaining, 24 * 60 * 1000);
}

#[test]
fn tick_reports_the_phase_boundary_bell() {
    let mut a = App::new(0);
    let _ = a.on_key(Key::Char('p'), 0);
    let _ = a.on_key(Key::Char('s'), 0);
    let rang = a.tick(DEFAULT_WORK_MS);
    assert!(rang);
    assert_eq!(a.pomodoro.phase, Phase::Break);
}

#[test]
fn keys_reach_the_mood_journal_while_it_is_activated() {
    let mut a = App::new(0);
    for _ in 0..4 {
        let _ = a.on_key(Key::Char('.'), 0);
    }
    assert_eq!(a.cursor, 4);
    let _ = a.on_key(Key::Char('p'), 0);
    assert_eq!(a.running, Some(4));
    let _ = a.on_key(Key::Right, 0);
    let _ = a.on_key(Key::Enter, 0);
    assert_eq!(a.mood.chosen, Some(Mood::Sad));
}

#[test]
fn digits_reach_the_mood_journal_while_it_is_activated() {
    let mut a = App::new(0);
    for _ in 0..4 {
        let _ = a.on_key(Key::Char('.'), 0);
    }
    let _ = a.on_key(Key::Char('p'), 0);
    let _ = a.on_key(Key::Char('3'), 0);
    assert_eq!(a.mood.chosen, Some(Mood::Neutral));
}

#[test]
fn mood_keys_are_ignored_while_the_journal_is_not_activated() {
    let mut a = App::new(0);
    let _ = a.on_key(Key::Right, 0);
    let _ = a.on_key(Key::Char('2'), 0);
    let _ = a.on_key(Key::Enter, 0);
    assert_eq!(a.mood.cursor, 0);
    assert_eq!(a.mood.chosen, None);
}

#[test]
fn global_keys_are_also_offered_to_the_activated_journal() {
    // deliberate passthrough: a navigation key still moves the dashboard
    // cursor, and the journal sees (and ignores) the same key
    let mut a = App::new(0);
    for _ in 0..4 {
        let _ = a.on_key(Key::Char('.'), 0);
    }
    let _ = a.on_key(Key::Char('p'), 0);
    let _ = a.on_key(Key::Char(','), 0);
    assert_eq!(a.cursor, 3);
    assert_eq!(a.running, Some(4));
    assert_eq!(a.mood.cursor, 0);
    assert_eq!(a.mood.chosen, None);
}

#[test]
fn install_hook_performs_nothing() {
    install_module_on_zephyr(InstalledModules::TodoList);
    let a = App::new(0);
    assert_eq!(a.modules.len(), 5);
}
