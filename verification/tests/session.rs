use pomodoro::session::{Action, Session};
use pomodoro::timer::PhaseKind;

#[test]
fn natural_expiry_notifies_and_counts() {
    let mut session = Session::new(10, 5);
    session.toggle(0);
    assert!(!session.check_time(9));
    assert_eq!(session.notifications().len(), 0);

    // At t=10 the work phase has run its 10 seconds: the transition
    // happens, the counter grows by one, and the done-notification is
    // emitted.
    assert!(session.check_time(10));
    assert_eq!(session.get_phase_count(), (2, 2));
    assert_eq!(session.get_count(), 0);
    assert_eq!(session.notifications().len(), 1);
    assert_eq!(session.notifications()[0].text, "Work Done!");
    assert_eq!(session.notifications()[0].time_start, 10);

    // The new phase is a not-yet-started break of the configured length.
    assert_eq!(session.phase().get_kind(), PhaseKind::Break);
    assert_eq!(session.phase().get_duration(), 5);
    assert!(session.phase().is_paused());
    assert!(!session.check_time(100));
}

#[test]
fn skip_counts_but_does_not_notify() {
    let mut session = Session::new(10, 5);
    session.apply(Action::NextPhase, 3);
    assert_eq!(session.get_phase_count(), (2, 2));
    assert_eq!(session.notifications().len(), 0);
    assert_eq!(session.phase().get_kind(), PhaseKind::Break);

    session.apply(Action::NextPhase, 4);
    assert_eq!(session.get_phase_count(), (1, 2));
    assert_eq!(session.get_count(), 1);
    assert_eq!(session.notifications().len(), 0);
    assert_eq!(session.phase().get_kind(), PhaseKind::Work);
}

#[test]
fn break_expiry_notifies_with_break_text() {
    let mut session = Session::new(10, 5);
    session.apply(Action::NextPhase, 0);
    session.apply(Action::TogglePhase, 0);
    assert!(session.check_time(5));
    assert_eq!(session.notifications().len(), 1);
    assert_eq!(session.notifications()[0].text, "Break Done!");
    assert_eq!(session.phase().get_kind(), PhaseKind::Work);
}

#[test]
fn duration_changes_apply_to_the_next_phase_of_that_kind() {
    let mut session = Session::new(10, 5);
    session.apply(Action::ModifyWorkPhaseConfig(20), 0);
    session.apply(Action::ModifyBreakPhaseConfig(7), 0);
    assert_eq!(session.work_time(), 20);
    assert_eq!(session.break_time(), 7);

    // The running phase keeps its length; the next phases take the new
    // ones.
    assert_eq!(session.phase().get_duration(), 10);
    session.apply(Action::NextPhase, 0);
    assert_eq!(session.phase().get_duration(), 7);
    session.apply(Action::NextPhase, 0);
    assert_eq!(session.phase().get_duration(), 20);
}

#[test]
fn idle_action_changes_nothing() {
    let mut session = Session::new(10, 5);
    session.apply(Action::Idle, 42);
    assert_eq!(session.get_phase_count(), (1, 2));
    assert_eq!(session.notifications().len(), 0);
    assert!(session.phase().is_paused());
}

#[test]
fn notifications_expire_after_their_lifetime() {
    let mut session = Session::new(1, 1);
    session.toggle(0);
    assert!(session.check_time(1));
    session.toggle(1);
    assert!(session.check_time(2));
    assert_eq!(session.notifications().len(), 2);

    // At t=7 the notification from t=1 is over its 5-second lifetime, the
    // one from t=2 is not.
    session.expire_notifications(7);
    assert_eq!(session.notifications().len(), 1);
    assert_eq!(session.notifications()[0].text, "Break Done!");

    session.expire_notifications(8);
    assert_eq!(session.notifications().len(), 0);
}

#[test]
fn dismissing_removes_exactly_the_clicked_notification() {
    let mut session = Session::new(1, 1);
    session.toggle(0);
    assert!(session.check_time(1));
    session.toggle(1);
    assert!(session.check_time(2));
    assert_eq!(session.notifications().len(), 2);

    session.dismiss_notification(0);
    assert_eq!(session.notifications().len(), 1);
    assert_eq!(session.notifications()[0].text, "Break Done!");
    session.dismiss_notification(0);
    assert_eq!(session.notifications().len(), 0);
}

#[test]
fn toggle_pauses_and_resumes_the_clock() {
    let mut session = Session::new(100, 5);
    session.apply(Action::TogglePhase, 0);
    assert!(!session.phase().is_paused());
    session.apply(Action::TogglePhase, 30);
    assert!(session.phase().is_paused());
    assert_eq!(session.phase().time_elapsed(50), Some(30));
    session.apply(Action::TogglePhase, 60);
    assert_eq!(session.phase().time_elapsed(70), Some(40));
}
