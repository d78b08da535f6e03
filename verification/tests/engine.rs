use pom::{Notify, Pom, TimerState, NANOS_PER_MINUTE, NANOS_PER_SEC};

fn secs(n: u128) -> u128 {
    n * NANOS_PER_SEC
}

#[test]
fn new_timer_is_ready_with_default_length() {
    let pom = Pom::new(42);
    assert_eq!(pom.state(), TimerState::Ready);
    assert_eq!(pom.last_update(), 42);
    assert_eq!(pom.remaining_time(), secs(1500));
    assert_eq!(pom.total_duration(), secs(1500));
    assert_eq!(pom.time_setting(), 25);
    assert_eq!(pom.break_time_setting(), 5);
    assert_eq!(pom.sessions_completed(), 0);
}

#[test]
fn start_begins_a_focus_phase() {
    let mut pom = Pom::new(0);
    pom.set_time_setting(10);
    let events = pom.start_timer(7);
    assert_eq!(events, vec![Notify::Started]);
    assert_eq!(pom.state(), TimerState::Running);
    assert_eq!(pom.total_duration(), 10 * NANOS_PER_MINUTE);
    assert_eq!(pom.remaining_time(), 10 * NANOS_PER_MINUTE);
    assert_eq!(pom.last_update(), 7);
}

#[test]
fn start_break_begins_a_break() {
    let mut pom = Pom::new(0);
    let events = pom.start_break(9);
    assert_eq!(events, vec![Notify::BreakStarted]);
    assert_eq!(pom.state(), TimerState::OnBreak);
    assert_eq!(pom.total_duration(), secs(300));
    assert_eq!(pom.remaining_time(), secs(300));
    assert_eq!(pom.last_update(), 9);
    assert_eq!(pom.sessions_completed(), 0);
}

#[test]
fn advance_while_running_counts_down() {
    let mut pom = Pom::new(0);
    pom.start_timer(secs(100));
    let events = pom.update_timer(secs(100) + 1_250_000_000);
    assert!(events.is_empty());
    assert_eq!(pom.state(), TimerState::Running);
    assert_eq!(pom.remaining_time(), secs(1500) - 1_250_000_000);
    assert_eq!(pom.total_duration(), secs(1500));
    assert_eq!(pom.last_update(), secs(100) + 1_250_000_000);
    assert_eq!(pom.sessions_completed(), 0);
}

#[test]
fn advance_counts_each_poll_from_the_last() {
    let mut pom = Pom::new(0);
    pom.start_timer(0);
    pom.update_timer(secs(10));
    pom.update_timer(secs(25));
    pom.update_timer(secs(25));
    pom.update_timer(secs(60));
    assert_eq!(pom.remaining_time(), secs(1440));
    assert_eq!(pom.state(), TimerState::Running);
}

#[test]
fn focus_end_starts_break() {
    let mut pom = Pom::new(0);
    pom.set_time_setting(25);
    pom.set_break_time_setting(5);
    pom.start_timer(secs(3));
    let events = pom.update_timer(secs(3) + secs(1500));
    assert_eq!(events, vec![Notify::Finished, Notify::BreakStarted]);
    assert_eq!(pom.sessions_completed(), 1);
    assert_eq!(pom.state(), TimerState::OnBreak);
    assert_eq!(pom.remaining_time(), secs(300));
    assert_eq!(pom.total_duration(), secs(300));
    assert_eq!(pom.last_update(), secs(3) + secs(1500));
}

#[test]
fn focus_end_long_overdue_starts_whole_break() {
    let mut pom = Pom::new(0);
    pom.start_timer(0);
    let events = pom.update_timer(secs(100_000));
    assert_eq!(events, vec![Notify::Finished, Notify::BreakStarted]);
    assert_eq!(pom.sessions_completed(), 1);
    assert_eq!(pom.state(), TimerState::OnBreak);
    assert_eq!(pom.remaining_time(), secs(300));
}

#[test]
fn one_nanosecond_short_does_not_end_the_phase() {
    let mut pom = Pom::new(0);
    pom.start_timer(0);
    let events = pom.update_timer(secs(1500) - 1);
    assert!(events.is_empty());
    assert_eq!(pom.state(), TimerState::Running);
    assert_eq!(pom.remaining_time(), 1);
    let events = pom.update_timer(secs(1500));
    assert_eq!(events, vec![Notify::Finished, Notify::BreakStarted]);
    assert_eq!(pom.state(), TimerState::OnBreak);
}

#[test]
fn break_end_restarts_focus() {
    let mut pom = Pom::new(0);
    pom.set_time_setting(20);
    pom.set_break_time_setting(1);
    pom.start_break(0);
    pom.update_timer(secs(59));
    assert_eq!(pom.state(), TimerState::OnBreak);
    assert_eq!(pom.remaining_time(), secs(1));
    let events = pom.update_timer(secs(61));
    assert_eq!(events, vec![Notify::Finished, Notify::Started]);
    assert_eq!(pom.state(), TimerState::Running);
    assert_eq!(pom.remaining_time(), 20 * 60 * NANOS_PER_SEC);
    assert_eq!(pom.total_duration(), 20 * 60 * NANOS_PER_SEC);
    assert_eq!(pom.last_update(), secs(61));
    assert_eq!(pom.sessions_completed(), 0);
}

#[test]
fn whole_cycle_counts_one_session_per_focus_phase() {
    let mut pom = Pom::new(0);
    pom.set_time_setting(2);
    pom.set_break_time_setting(1);
    pom.start_timer(0);
    let mut now = 0;
    for round in 1..=3u32 {
        now += 2 * NANOS_PER_MINUTE;
        let events = pom.update_timer(now);
        assert_eq!(events, vec![Notify::Finished, Notify::BreakStarted]);
        assert_eq!(pom.sessions_completed(), round);
        now += NANOS_PER_MINUTE;
        let events = pom.update_timer(now);
        assert_eq!(events, vec![Notify::Finished, Notify::Started]);
        assert_eq!(pom.sessions_completed(), round);
        assert_eq!(pom.state(), TimerState::Running);
    }
}

#[test]
fn reset_returns_to_ready_with_phase_total() {
    let mut fresh = Pom::new(0);
    fresh.reset_timer();
    assert_eq!(fresh.state(), TimerState::Ready);
    assert_eq!(fresh.remaining_time(), secs(1500));

    let mut running = Pom::new(0);
    running.set_time_setting(10);
    running.start_timer(0);
    running.update_timer(secs(30));
    running.set_time_setting(40);
    running.reset_timer();
    assert_eq!(running.state(), TimerState::Ready);
    assert_eq!(running.remaining_time(), secs(600));
    assert_eq!(running.total_duration(), secs(600));

    let mut paused = Pom::new(0);
    paused.start_timer(0);
    paused.update_timer(secs(30));
    paused.pause_timer();
    paused.reset_timer();
    assert_eq!(paused.state(), TimerState::Ready);
    assert_eq!(paused.remaining_time(), secs(1500));

    let mut resting = Pom::new(0);
    resting.start_timer(0);
    resting.update_timer(secs(1500));
    resting.update_timer(secs(1530));
    assert_eq!(resting.state(), TimerState::OnBreak);
    resting.reset_timer();
    assert_eq!(resting.state(), TimerState::Ready);
    assert_eq!(resting.remaining_time(), secs(300));
    assert_eq!(resting.total_duration(), secs(300));
    assert_eq!(resting.sessions_completed(), 1);
}

#[test]
fn pause_only_acts_while_running() {
    let mut pom = Pom::new(5);
    assert!(pom.pause_timer().is_empty());
    assert_eq!(pom.state(), TimerState::Ready);

    pom.start_timer(0);
    pom.update_timer(secs(10));
    assert_eq!(pom.pause_timer(), vec![Notify::Paused]);
    assert_eq!(pom.state(), TimerState::Paused);
    assert_eq!(pom.remaining_time(), secs(1490));

    assert!(pom.pause_timer().is_empty());
    assert_eq!(pom.state(), TimerState::Paused);

    let mut resting = Pom::new(0);
    resting.start_break(0);
    assert!(resting.pause_timer().is_empty());
    assert_eq!(resting.state(), TimerState::OnBreak);
}

#[test]
fn resume_only_acts_while_paused() {
    let mut pom = Pom::new(5);
    assert!(pom.resume_timer(100).is_empty());
    assert_eq!(pom.state(), TimerState::Ready);
    assert_eq!(pom.last_update(), 5);

    pom.start_timer(10);
    assert!(pom.resume_timer(100).is_empty());
    assert_eq!(pom.state(), TimerState::Running);
    assert_eq!(pom.last_update(), 10);

    pom.pause_timer();
    assert_eq!(pom.resume_timer(200), vec![Notify::Resume]);
    assert_eq!(pom.state(), TimerState::Running);
    assert_eq!(pom.last_update(), 200);
}

#[test]
fn time_spent_paused_is_not_counted() {
    let mut pom = Pom::new(0);
    pom.start_timer(0);
    pom.update_timer(secs(100));
    pom.pause_timer();
    assert!(pom.update_timer(secs(5000)).is_empty());
    assert_eq!(pom.state(), TimerState::Paused);
    assert_eq!(pom.remaining_time(), secs(1400));
    assert_eq!(pom.last_update(), secs(100));
    pom.resume_timer(secs(9000));
    pom.update_timer(secs(9001));
    assert_eq!(pom.remaining_time(), secs(1399));
}

#[test]
fn advance_while_ready_changes_nothing() {
    let mut pom = Pom::new(11);
    assert!(pom.update_timer(secs(99_999)).is_empty());
    assert_eq!(pom.state(), TimerState::Ready);
    assert_eq!(pom.remaining_time(), secs(1500));
    assert_eq!(pom.last_update(), 11);
    assert_eq!(pom.sessions_completed(), 0);
}

#[test]
fn second_advance_at_same_time_changes_nothing() {
    let mut pom = Pom::new(0);
    pom.start_timer(0);
    pom.update_timer(secs(40));
    let events = pom.update_timer(secs(40));
    assert!(events.is_empty());
    assert_eq!(pom.remaining_time(), secs(1460));
    assert_eq!(pom.state(), TimerState::Running);

    pom.update_timer(secs(2000));
    assert_eq!(pom.state(), TimerState::OnBreak);
    let events = pom.update_timer(secs(2000));
    assert!(events.is_empty());
    assert_eq!(pom.state(), TimerState::OnBreak);
    assert_eq!(pom.remaining_time(), secs(300));
    assert_eq!(pom.sessions_completed(), 1);
}

#[test]
fn second_advance_at_same_time_ends_a_zero_length_break() {
    let mut pom = Pom::new(0);
    pom.set_break_time_setting(0);
    pom.start_timer(0);
    pom.update_timer(secs(1500));
    assert_eq!(pom.state(), TimerState::OnBreak);
    assert_eq!(pom.remaining_time(), 0);
    let events = pom.update_timer(secs(1500));
    assert_eq!(events, vec![Notify::Finished, Notify::Started]);
    assert_eq!(pom.state(), TimerState::Running);
}

#[test]
fn clock_going_back_counts_as_no_time() {
    let mut pom = Pom::new(0);
    pom.start_timer(secs(500));
    let events = pom.update_timer(secs(20));
    assert!(events.is_empty());
    assert_eq!(pom.remaining_time(), secs(1500));
    assert_eq!(pom.state(), TimerState::Running);
    assert_eq!(pom.last_update(), secs(20));
}

#[test]
fn zero_focus_length_completes_at_next_advance() {
    let mut pom = Pom::new(0);
    pom.set_time_setting(0);
    pom.start_timer(secs(1));
    assert_eq!(pom.remaining_time(), 0);
    assert_eq!(pom.total_duration(), 0);
    assert_eq!(pom.state(), TimerState::Running);
    let events = pom.update_timer(secs(1) + 1);
    assert_eq!(events, vec![Notify::Finished, Notify::BreakStarted]);
    assert_eq!(pom.state(), TimerState::OnBreak);
    assert_eq!(pom.sessions_completed(), 1);
    assert_eq!(pom.remaining_time(), secs(300));
}

#[test]
fn settings_are_held_to_sixty_minutes() {
    let mut pom = Pom::new(0);
    pom.set_time_setting(61);
    assert_eq!(pom.time_setting(), 60);
    pom.set_time_setting(u64::MAX);
    assert_eq!(pom.time_setting(), 60);
    pom.set_time_setting(60);
    assert_eq!(pom.time_setting(), 60);
    pom.set_time_setting(0);
    assert_eq!(pom.time_setting(), 0);
    pom.set_break_time_setting(1000);
    assert_eq!(pom.break_time_setting(), 60);
    pom.set_break_time_setting(17);
    assert_eq!(pom.break_time_setting(), 17);
    pom.start_break(0);
    assert_eq!(pom.total_duration(), 17 * NANOS_PER_MINUTE);
}

#[test]
fn new_setting_waits_for_next_phase_start() {
    let mut pom = Pom::new(0);
    pom.start_timer(0);
    pom.update_timer(secs(60));
    pom.set_time_setting(50);
    pom.set_break_time_setting(2);
    assert_eq!(pom.total_duration(), secs(1500));
    assert_eq!(pom.remaining_time(), secs(1440));
    assert_eq!(pom.state(), TimerState::Running);
    pom.update_timer(secs(1500));
    assert_eq!(pom.state(), TimerState::OnBreak);
    assert_eq!(pom.total_duration(), secs(120));
    pom.update_timer(secs(1620));
    assert_eq!(pom.state(), TimerState::Running);
    assert_eq!(pom.total_duration(), secs(3000));
    assert_eq!(pom.remaining_time(), secs(3000));
}

#[test]
fn start_while_running_restarts_the_phase() {
    let mut pom = Pom::new(0);
    pom.start_timer(0);
    pom.update_timer(secs(700));
    let events = pom.start_timer(secs(700));
    assert_eq!(events, vec![Notify::Started]);
    assert_eq!(pom.remaining_time(), secs(1500));
    assert_eq!(pom.sessions_completed(), 0);
}
