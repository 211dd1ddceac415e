use pomodoro::percent::Percent;

#[test]
fn percent_accepts_whole_range() {
    for p in 0..=100u8 {
        assert!(Percent::new(p).is_ok());
    }
}

#[test]
fn percent_rejects_out_of_range() {
    for p in 101..=255u8 {
        let r = Percent::new(p);
        assert!(r.is_err());
    }
    assert_eq!(Percent::new(101).unwrap_err(), "Out of bounds");
}

#[test]
fn map_to_value_bounds() {
    for p in 0..=100u8 {
        let pct = Percent::new(p).unwrap();
        assert!(pct.map_to_value(360) <= 360);
    }
    let zero = Percent::new(0).unwrap();
    assert_eq!(zero.map_to_value(360), 0);
    assert_eq!(zero.map_to_value(usize::MAX), 0);
    let full = Percent::new(100).unwrap();
    assert_eq!(full.map_to_value(360), 360);
    assert_eq!(full.map_to_value(usize::MAX), usize::MAX);
}

#[test]
fn map_to_value_rounds_down() {
    let third = Percent::new(33).unwrap();
    assert_eq!(third.map_to_value(10), 3);
    let half = Percent::new(50).unwrap();
    assert_eq!(half.map_to_value(10), 5);
    assert_eq!(half.map_to_value(7), 3);
    let one = Percent::new(1).unwrap();
    assert_eq!(one.map_to_value(50), 0);
}
