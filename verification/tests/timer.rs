use pomodoro::percent::Percent;
use pomodoro::timer::{PhaseKind, PomodoroPhase};

#[test]
fn fresh_phase_is_paused_with_nothing_banked() {
    let p = PomodoroPhase::new_work(1500);
    assert_eq!(p.get_kind(), PhaseKind::Work);
    assert_eq!(p.get_duration(), 1500);
    assert!(p.is_paused());
    assert_eq!(p.get_start(), None);
    assert_eq!(p.time_elapsed(12345), Some(0));

    let b = PomodoroPhase::new_break(300);
    assert_eq!(b.get_kind(), PhaseKind::Break);
    assert_eq!(b.get_duration(), 300);
    assert!(b.is_paused());
}

#[test]
fn run_then_pause_banks_the_interval() {
    // Start at t=50, pause at t=53: exactly the 3 elapsed seconds are banked.
    let mut p = PomodoroPhase::new_work(100);
    p.start(50);
    assert!(!p.is_paused());
    assert_eq!(p.get_start(), Some(50));
    p.pause(53);
    assert!(p.is_paused());
    assert_eq!(p.time_elapsed(99), Some(3));
}

#[test]
fn resume_accumulates_intervals() {
    // Two separate running intervals of 4 and 5 seconds add up to 9.
    let mut p = PomodoroPhase::new_work(100);
    p.start(10);
    p.pause(14);
    assert_eq!(p.time_elapsed(14), Some(4));
    p.start(20);
    assert_eq!(p.get_start(), Some(16));
    p.pause(25);
    assert_eq!(p.time_elapsed(25), Some(9));
}

#[test]
fn start_while_running_is_a_no_op() {
    let mut p = PomodoroPhase::new_work(100);
    p.start(0);
    p.start(5);
    assert_eq!(p.get_start(), Some(0));
    assert_eq!(p.time_elapsed(10), Some(10));
}

#[test]
fn pause_while_paused_is_a_no_op() {
    let mut p = PomodoroPhase::new_work(100);
    p.start(0);
    p.pause(4);
    p.pause(9);
    assert_eq!(p.time_elapsed(9), Some(4));
}

#[test]
fn toggle_alternates_running_and_paused() {
    let mut p = PomodoroPhase::new_work(100);
    assert!(p.is_paused());
    p.toggle(0);
    assert!(!p.is_paused());
    p.toggle(6);
    assert!(p.is_paused());
    assert_eq!(p.time_elapsed(6), Some(6));
}

#[test]
fn percent_never_increases_and_hits_zero_at_duration() {
    let mut p = PomodoroPhase::new_work(200);
    p.start(0);
    let mut last = p.to_percent(0).unwrap().map_to_value(100);
    assert_eq!(last, 100);
    for t in 1..=200u64 {
        let current = p.to_percent(t).unwrap().map_to_value(100);
        assert!(current <= last);
        if t < 200 {
            assert!(current > 0);
        } else {
            assert_eq!(current, 0);
        }
        last = current;
    }
}

#[test]
fn percent_strictly_decreases_across_percent_quanta() {
    // One percent quantum of a 200-second phase is 200/100 + 1 = 3
    // seconds: every 3-second step strictly lowers the percentage.
    let mut p = PomodoroPhase::new_work(200);
    p.start(0);
    let mut last = p.to_percent(0).unwrap().map_to_value(100);
    let mut t = 3u64;
    while t < 200 {
        let current = p.to_percent(t).unwrap().map_to_value(100);
        assert!(current < last);
        last = current;
        t += 3;
    }
}

#[test]
fn percent_scenario_quarter_hour_work() {
    // A 25-minute work phase: full at the start, half way through at
    // t=750, expired exactly at t=1500.
    let mut p = PomodoroPhase::new_work(1500);
    assert_eq!(p.to_percent(0).unwrap(), Percent::new(100).unwrap());
    p.start(0);
    assert_eq!(p.to_percent(0).unwrap(), Percent::new(100).unwrap());
    assert_eq!(p.to_percent(750).unwrap(), Percent::new(50).unwrap());
    assert_eq!(p.to_percent(1500).unwrap(), Percent::new(0).unwrap());
    assert!(!p.is_expired(1499));
    assert!(p.is_expired(1500));
}

#[test]
fn zero_length_phase_counts_as_expired() {
    let mut p = PomodoroPhase::new_work(0);
    assert_eq!(p.to_percent(0).unwrap(), Percent::new(0).unwrap());
    p.start(7);
    assert!(p.is_expired(7));
    assert_eq!(p.to_percent(7).unwrap(), Percent::new(0).unwrap());
}

#[test]
fn paused_phase_is_not_expired() {
    let mut p = PomodoroPhase::new_work(5);
    p.start(0);
    p.pause(9);
    assert_eq!(p.time_elapsed(9), Some(9));
    assert!(!p.is_expired(9));
}

#[test]
fn colors_follow_kind_and_paused_state() {
    let mut w = PomodoroPhase::new_work(10);
    let c = w.to_color();
    assert!((c.red, c.green, c.blue) == (0x3a, 0xeb, 0x34));
    assert!(c.grayed);
    w.start(0);
    assert!(!w.to_color().grayed);

    let b = PomodoroPhase::new_break(10);
    let c = b.to_color();
    assert!((c.red, c.green, c.blue) == (0xdc, 0xeb, 0x34));
    assert!(c.grayed);
}

#[test]
fn labels_follow_kind() {
    assert_eq!(PomodoroPhase::new_work(10).label(), "Work");
    assert_eq!(PomodoroPhase::new_break(10).label(), "Break");
}

#[test]
fn countdown_text_is_mm_ss() {
    let mut p = PomodoroPhase::new_work(1500);
    assert_eq!(p.time_left_text(0), "25:00");
    p.start(0);
    assert_eq!(p.time_left_text(61), "23:59");
    assert_eq!(p.time_left_text(1500), "00:00");
    assert_eq!(p.time_left_text(9999), "00:00");
}
