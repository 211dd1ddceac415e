use pomodoro::stats::Stats;

#[test]
fn phase_count_alternates_and_pairs_accumulate() {
    let mut stats = Stats::default();
    assert_eq!(stats.get_phase_count(), (1, 2));
    assert_eq!(stats.get_count(), 0);
    stats.increment();
    assert_eq!(stats.get_phase_count(), (2, 2));
    assert_eq!(stats.get_count(), 0);
    stats.increment();
    assert_eq!(stats.get_phase_count(), (1, 2));
    assert_eq!(stats.get_count(), 1);
    stats.increment();
    assert_eq!(stats.get_phase_count(), (2, 2));
    assert_eq!(stats.get_count(), 1);
    stats.increment();
    assert_eq!(stats.get_phase_count(), (1, 2));
    assert_eq!(stats.get_count(), 2);
}

#[test]
fn stats_bar_text() {
    let mut stats = Stats(0);
    assert_eq!(stats.to_text(), "1/2:0");
    stats.increment();
    stats.increment();
    stats.increment();
    assert_eq!(stats.to_text(), "2/2:1");
    let big = Stats(25);
    assert_eq!(big.to_text(), "2/2:12");
}
