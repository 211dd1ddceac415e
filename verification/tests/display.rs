use pomodoro::display::{decimal_string, format_mmss};
use pomodoro::notifications::Notification;

#[test]
fn decimal_rendering() {
    assert_eq!(decimal_string(0), "0");
    assert_eq!(decimal_string(7), "7");
    assert_eq!(decimal_string(10), "10");
    assert_eq!(decimal_string(1500), "1500");
    assert_eq!(decimal_string(u64::MAX), "18446744073709551615");
}

#[test]
fn mm_ss_rendering() {
    assert_eq!(format_mmss(0), "00:00");
    assert_eq!(format_mmss(59), "00:59");
    assert_eq!(format_mmss(60), "01:00");
    assert_eq!(format_mmss(61), "01:01");
    assert_eq!(format_mmss(1500), "25:00");
    assert_eq!(format_mmss(3600), "60:00");
    assert_eq!(format_mmss(3661), "61:01");
}

#[test]
fn notification_lifetime() {
    let n = Notification::new("Work Done!".to_string(), 100);
    assert_eq!(n.text, "Work Done!");
    assert_eq!(n.time_start, 100);
    assert!(!n.is_expired(0));
    assert!(!n.is_expired(100));
    assert!(!n.is_expired(105));
    assert!(n.is_expired(106));
}
