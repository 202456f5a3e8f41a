use nes_bundler::fps::RateCounter;

#[test]
fn counts_per_name() {
    let mut counter = RateCounter::new();
    counter.tick("Frame").tick("Frame");
    counter.tick("Dropped Frame");
    assert_eq!(counter.counters.len(), 2);
    assert_eq!(counter.counters[0], ("Frame".to_string(), 2));
    assert_eq!(counter.counters[1], ("Dropped Frame".to_string(), 1));
}

#[test]
fn report_waits_for_the_window_then_starts_over() {
    let mut counter = RateCounter::new();
    counter.tick("Dropped Frame");
    counter.tick("Frame");
    counter.tick("Frame");
    assert_eq!(counter.report(), None);
    let start = std::time::Instant::now();
    while start.elapsed() < std::time::Duration::from_millis(1100) {}
    assert_eq!(counter.report().as_deref(), Some("Frame=2 Dropped Frame=1 "));
    assert!(counter.counters.is_empty());
    assert_eq!(counter.report(), None);
}

#[test]
fn report_due_reports_and_moves_the_window() {
    let mut counter = RateCounter::new();
    counter.tick("Frame");
    counter.tick("Dropped Frame").tick("Dropped Frame");
    let next = std::time::Instant::now() + std::time::Duration::from_secs(5);
    assert_eq!(counter.report_due(true, next).as_deref(), Some("Frame=1 Dropped Frame=2 "));
    assert!(counter.counters.is_empty());
    assert_eq!(counter.next_report, next);
}

#[test]
fn report_not_due_changes_nothing() {
    let mut counter = RateCounter::new();
    counter.tick("Frame");
    let before = counter.next_report;
    let later = before + std::time::Duration::from_secs(5);
    assert_eq!(counter.report_due(false, later), None);
    assert_eq!(counter.counters, vec![("Frame".to_string(), 1)]);
    assert_eq!(counter.next_report, before);
}

#[test]
fn tick_keeps_the_report_time() {
    let mut counter = RateCounter::new();
    let before = counter.next_report;
    counter.tick("Frame").tick("Frame");
    assert_eq!(counter.next_report, before);
    assert_eq!(counter.counters, vec![("Frame".to_string(), 2)]);
}
