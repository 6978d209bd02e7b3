use ram_monitor::{kib_to_bytes, Action, App, Event, MemoryInfo, MemoryQuery, SampleError, WatchdogState};

const GIB: u64 = 1024 * 1024 * 1024;

fn reading(installed: u64, visible: u64) -> MemoryInfo {
    MemoryInfo { installed_bytes: installed, visible_bytes: visible }
}

/// A watchdog whose latest sample, taken at `now`, shows the given memory.
fn sampled(duration: u64, now: u64, installed: u64, visible: u64) -> App {
    let mut app = App::new(duration);
    app.update_memory_info(now, Ok(visible), Ok(installed));
    app
}

#[test]
fn no_installed_memory_is_never_a_problem() {
    assert!(!reading(0, 0).has_problem());
    assert!(!reading(0, 12345).has_problem());
    assert!(!MemoryInfo::new().has_problem());
    assert!(!MemoryInfo::default().has_problem());
}

#[test]
fn problem_is_less_than_half_of_installed() {
    assert!(reading(100, 49).has_problem());
    assert!(!reading(100, 50).has_problem());
    assert!(!reading(100, 100).has_problem());
    assert!(!reading(u64::MAX, u64::MAX / 2).has_problem());
    assert!(reading(u64::MAX, u64::MAX / 2 - 1).has_problem());
}

#[test]
fn problem_threshold_boundary() {
    assert!(!reading(16, 8).has_problem());
    assert!(!reading(17, 8).has_problem());
    assert!(reading(16, 7).has_problem());
}

#[test]
fn healthy_machine_ratio() {
    let m = reading(16 * GIB, 15 * GIB);
    assert!(!m.has_problem());
    assert_eq!(m.ratio_hundredths(), 9375);
}

#[test]
fn degraded_machine_starts_countdown() {
    let m = reading(16 * GIB, 4 * GIB);
    assert!(m.has_problem());
    assert_eq!(m.ratio_hundredths(), 2500);
    let mut app = sampled(10_000, 0, 16 * GIB, 4 * GIB);
    assert_eq!(app.tick(0), Action::Continue);
    assert_eq!(app.state, WatchdogState::CountingDown { started_at: 0, deadline: 10_000 });
}

#[test]
fn ratio_without_installed_memory_is_zero() {
    assert_eq!(reading(0, 5).ratio_hundredths(), 0);
    assert_eq!(reading(1, u64::MAX).ratio_hundredths(), u64::MAX);
    assert_eq!(reading(3, 1).ratio_hundredths(), 3333);
}

#[test]
fn problem_tick_starts_countdown_once() {
    let mut app = sampled(10_000, 500, 16, 4);
    assert_eq!(app.tick(500), Action::Continue);
    let started = WatchdogState::CountingDown { started_at: 500, deadline: 10_500 };
    assert_eq!(app.state, started);
    assert_eq!(app.tick(600), Action::Continue);
    assert_eq!(app.tick(5_000), Action::Continue);
    assert_eq!(app.state, started);
}

#[test]
fn cancel_then_fresh_countdown() {
    let mut app = sampled(10_000, 0, 16, 4);
    app.tick(0);
    assert_eq!(app.handle_event(Event::Cancel), Action::Continue);
    assert_eq!(app.state, WatchdogState::Idle);
    assert_eq!(app.tick(7_000), Action::Continue);
    assert_eq!(app.state, WatchdogState::CountingDown { started_at: 7_000, deadline: 17_000 });
    assert_eq!(app.get_countdown_remaining(7_000), 10);
}

#[test]
fn remaining_seconds_count_down_to_zero() {
    let mut app = sampled(10_000, 0, 16, 4);
    assert_eq!(app.get_countdown_remaining(0), 10);
    app.tick(0);
    let mut last = app.get_countdown_remaining(0);
    assert_eq!(last, 10);
    let mut t: u64 = 0;
    while t <= 12_000 {
        let r = app.get_countdown_remaining(t);
        assert!(r <= last);
        last = r;
        t += 100;
    }
    assert_eq!(app.get_countdown_remaining(2_500), 8);
    assert_eq!(app.get_countdown_remaining(9_999), 1);
    assert_eq!(app.get_countdown_remaining(10_000), 0);
    assert_eq!(app.get_countdown_remaining(50_000), 0);
}

#[test]
fn elapsed_stays_within_countdown() {
    let mut app = sampled(10_000, 1_000, 16, 4);
    assert_eq!(app.countdown_elapsed(5_000), 0);
    app.tick(1_000);
    assert_eq!(app.countdown_elapsed(500), 0);
    assert_eq!(app.countdown_elapsed(1_000), 0);
    assert_eq!(app.countdown_elapsed(4_000), 3_000);
    assert_eq!(app.countdown_elapsed(11_000), 10_000);
    assert_eq!(app.countdown_elapsed(99_000), 10_000);
    let fraction = app.countdown_elapsed(99_000) as f64 / app.countdown_duration as f64;
    assert!((0.0..=1.0).contains(&fraction));
}

#[test]
fn triggering_happens_once() {
    let mut app = sampled(10_000, 0, 16, 4);
    app.tick(0);
    assert_eq!(app.tick(10_000), Action::FixAndShutdown);
    assert_eq!(app.state, WatchdogState::Triggered);
    assert_eq!(app.tick(10_100), Action::Continue);
    assert_eq!(app.handle_event(Event::ConfirmNow), Action::Continue);
    assert_eq!(app.handle_event(Event::Cancel), Action::Continue);
    assert_eq!(app.handle_event(Event::CloseNoFix), Action::Continue);
    assert_eq!(app.state, WatchdogState::Triggered);
    assert!(!app.execute_fix_action());
}

#[test]
fn persistent_problem_triggers_after_countdown() {
    let mut app = App::new(10_000);
    let mut fixes = 0;
    let mut t: u64 = 0;
    while t <= 10_500 {
        if app.sample_due(t) {
            app.update_memory_info(t, Ok(4 * GIB), Ok(16 * GIB));
        }
        if app.tick(t) == Action::FixAndShutdown {
            fixes += 1;
        }
        t += 100;
    }
    assert_eq!(app.state, WatchdogState::Triggered);
    assert_eq!(fixes, 1);
}

#[test]
fn confirm_now_skips_the_wait() {
    let mut app = sampled(10_000, 0, 16 * GIB, 4 * GIB);
    app.tick(0);
    app.tick(3_000);
    assert_eq!(app.get_countdown_remaining(3_000), 7);
    assert_eq!(app.handle_event(Event::ConfirmNow), Action::FixAndShutdown);
    assert_eq!(app.state, WatchdogState::Triggered);
    assert_eq!(app.get_countdown_remaining(3_000), 0);
}

#[test]
fn resolved_problem_returns_to_idle() {
    let mut app = App::new(10_000);
    let mut actions = Vec::new();
    let mut t: u64 = 0;
    while t <= 12_000 {
        if app.sample_due(t) {
            let visible = if t < 4_000 { 4 * GIB } else { 12 * GIB };
            app.update_memory_info(t, Ok(visible), Ok(16 * GIB));
        }
        actions.push(app.tick(t));
        if t == 3_900 {
            assert!(matches!(app.state, WatchdogState::CountingDown { .. }));
        }
        if t == 4_000 {
            assert_eq!(app.state, WatchdogState::Idle);
        }
        t += 100;
    }
    assert_eq!(app.state, WatchdogState::Idle);
    assert!(actions.iter().all(|a| *a == Action::Continue));
}

#[test]
fn close_without_fix_only_while_idle() {
    let mut app = App::default();
    assert_eq!(app.countdown_duration, 10_000);
    assert_eq!(app.handle_event(Event::CloseNoFix), Action::Shutdown);
    assert_eq!(app.handle_event(Event::ConfirmNow), Action::Continue);
    assert_eq!(app.handle_event(Event::Cancel), Action::Continue);
    assert_eq!(app.state, WatchdogState::Idle);
    app.update_memory_info(0, Ok(1), Ok(16));
    app.tick(0);
    assert_eq!(app.handle_event(Event::CloseNoFix), Action::Continue);
    assert!(matches!(app.state, WatchdogState::CountingDown { .. }));
}

#[test]
fn healthy_reading_keeps_idle() {
    let mut app = sampled(10_000, 0, 16, 15);
    assert_eq!(app.tick(0), Action::Continue);
    assert_eq!(app.state, WatchdogState::Idle);
    assert_eq!(app.countdown_elapsed(0), 0);
}

#[test]
fn failed_sample_drops_reading_and_records_error() {
    let mut app = sampled(10_000, 0, 16, 4);
    assert_eq!(app.error_message, None);
    let err = SampleError::QueryFailed { query: MemoryQuery::Installed, code: -5 };
    app.update_memory_info(1_000, Ok(4), Err(err));
    assert_eq!(app.error_message, Some(err));
    assert_eq!(app.memory_info, MemoryInfo::new());
    assert!(!app.memory_info.has_problem());
    app.update_memory_info(2_000, Ok(4), Ok(16));
    assert_eq!(app.error_message, None);
    assert_eq!(app.memory_info, reading(16, 4));
}

#[test]
fn visible_query_failure_comes_first() {
    let mut m = reading(16, 4);
    let ev = SampleError::QueryFailed { query: MemoryQuery::Visible, code: 1 };
    let ei = SampleError::QueryFailed { query: MemoryQuery::Installed, code: 2 };
    assert_eq!(m.update(Err(ev), Err(ei)), Err(ev));
    assert_eq!(m, MemoryInfo::new());
    assert_eq!(m.update(Ok(3), Ok(9)), Ok(()));
    assert_eq!(m, reading(9, 3));
}

#[test]
fn sampling_is_throttled_to_one_second() {
    let mut app = App::new(10_000);
    assert!(app.sample_due(0));
    app.update_memory_info(5_000, Ok(8), Ok(16));
    assert!(!app.sample_due(5_000));
    assert!(!app.sample_due(5_999));
    assert!(app.sample_due(6_000));
    assert!(!app.sample_due(4_000));
}

#[test]
fn kibibytes_become_bytes() {
    assert_eq!(kib_to_bytes(0), 0);
    assert_eq!(kib_to_bytes(16 * 1024 * 1024), 16 * GIB);
    assert_eq!(kib_to_bytes(u64::MAX), u64::MAX);
}

#[test]
fn zero_length_countdown_triggers_on_next_tick() {
    let mut app = sampled(0, 0, 16, 4);
    assert_eq!(app.get_countdown_remaining(0), 0);
    assert_eq!(app.tick(0), Action::Continue);
    assert_eq!(app.countdown_elapsed(0), 0);
    assert_eq!(app.tick(0), Action::FixAndShutdown);
}
