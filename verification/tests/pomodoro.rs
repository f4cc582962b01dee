use zephyr::pomodoro::{Phase, Pomodoro, PomodoroConfig, DEFAULT_BREAK_MS, DEFAULT_WORK_MS};

#[test]
fn default_config_is_25_and_5_minutes() {
    let c = PomodoroConfig::default();
    assert_eq!(c.work, 25 * 60 * 1000);
    assert_eq!(c.break_, 5 * 60 * 1000);
    assert_eq!(c.work, DEFAULT_WORK_MS);
    assert_eq!(c.break_, DEFAULT_BREAK_MS);
}

#[test]
fn new_timer_is_paused_work_with_full_duration() {
    let p = Pomodoro::new(PomodoroConfig::default(), 42);
    assert_eq!(p.phase, Phase::Work);
    assert_eq!(p.remaining, DEFAULT_WORK_MS);
    assert!(!p.running);
    assert_eq!(p.last_tick, 42);
}

#[test]
fn one_minute_tick_leaves_24_minutes_of_work() {
    // start, then tick one minute later: 24:00 remaining, still Work
    let mut p = Pomodoro::new(PomodoroConfig::default(), 0);
    p.start(0);
    let rang = p.tick(60 * 1000);
    assert!(!rang);
    assert_eq!(p.phase, Phase::Work);
    assert_eq!(p.remaining, 24 * 60 * 1000);
    assert_eq!(p.remaining_mm_ss(), (24, 0));
}

#[test]
fn twenty_six_minute_tick_switches_once_and_discards_excess() {
    // start, then tick 26 minutes later: one switch to Break at 5:00,
    // the extra minute beyond the boundary is discarded
    let mut p = Pomodoro::new(PomodoroConfig::default(), 0);
    p.start(0);
    let rang = p.tick(26 * 60 * 1000);
    assert!(rang);
    assert_eq!(p.phase, Phase::Break);
    assert_eq!(p.remaining, 5 * 60 * 1000);
    assert_eq!(p.remaining_mm_ss(), (5, 0));
}

#[test]
fn tick_at_exact_boundary_switches_phase() {
    let mut p = Pomodoro::new(PomodoroConfig::default(), 0);
    p.start(0);
    let rang = p.tick(DEFAULT_WORK_MS);
    assert!(rang);
    assert_eq!(p.phase, Phase::Break);
    assert_eq!(p.remaining, DEFAULT_BREAK_MS);
}

#[test]
fn huge_elapsed_never_underflows_remaining() {
    let mut p = Pomodoro::new(PomodoroConfig::default(), 0);
    p.start(0);
    let rang = p.tick(u64::MAX);
    assert!(rang);
    assert_eq!(p.phase, Phase::Break);
    assert_eq!(p.remaining, DEFAULT_BREAK_MS);
}

#[test]
fn phases_alternate_across_boundaries() {
    let mut p = Pomodoro::new(PomodoroConfig::default(), 0);
    p.start(0);
    assert!(p.tick(DEFAULT_WORK_MS));
    assert_eq!(p.phase, Phase::Break);
    assert!(p.tick(DEFAULT_WORK_MS + DEFAULT_BREAK_MS));
    assert_eq!(p.phase, Phase::Work);
    assert_eq!(p.remaining, DEFAULT_WORK_MS);
}

#[test]
fn paused_timer_ignores_ticks() {
    let mut p = Pomodoro::new(PomodoroConfig::default(), 0);
    let rang = p.tick(10 * 60 * 1000);
    assert!(!rang);
    assert_eq!(p.phase, Phase::Work);
    assert_eq!(p.remaining, DEFAULT_WORK_MS);
    assert!(!p.running);
}

#[test]
fn start_keeps_phase_and_remaining() {
    let mut p = Pomodoro::new(PomodoroConfig::default(), 0);
    p.start(0);
    let _ = p.tick(60 * 1000);
    p.start(90 * 1000);
    assert!(p.running);
    assert_eq!(p.last_tick, 90 * 1000);
    assert_eq!(p.phase, Phase::Work);
    assert_eq!(p.remaining, 24 * 60 * 1000);
}

#[test]
fn reset_from_any_state_restores_paused_work() {
    let mut p = Pomodoro::new(PomodoroConfig::default(), 0);
    p.start(0);
    let _ = p.tick(26 * 60 * 1000);
    assert_eq!(p.phase, Phase::Break);
    p.reset();
    assert_eq!(p.phase, Phase::Work);
    assert_eq!(p.remaining, DEFAULT_WORK_MS);
    assert!(!p.running);
}

#[test]
fn clock_moving_backwards_counts_as_no_elapsed_time() {
    let mut p = Pomodoro::new(PomodoroConfig::default(), 0);
    p.start(1000);
    let rang = p.tick(500);
    assert!(!rang);
    assert_eq!(p.remaining, DEFAULT_WORK_MS);
    assert_eq!(p.last_tick, 500);
}

#[test]
fn mm_ss_splits_milliseconds_into_display_figures() {
    let mut p = Pomodoro::new(PomodoroConfig::default(), 0);
    p.start(0);
    let _ = p.tick(1000);
    assert_eq!(p.remaining_mm_ss(), (24, 59));
}

#[test]
fn phase_labels_name_the_phase() {
    let mut p = Pomodoro::new(PomodoroConfig::default(), 0);
    assert_eq!(p.phase_label(), "WORK");
    p.start(0);
    let _ = p.tick(DEFAULT_WORK_MS);
    assert_eq!(p.phase_label(), "BREAK");
}
