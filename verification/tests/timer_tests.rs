use platformer_core::timer::Timer;

#[test]
fn timer_accumulates_and_saturates() {
    let mut t = Timer::new(500);
    assert!(!t.finished());
    t.tick(200);
    assert_eq!(t.elapsed_ms, 200);
    assert!(!t.finished());
    t.tick(400);
    assert_eq!(t.elapsed_ms, 500);
    assert!(t.finished());
    t.tick(100);
    assert_eq!(t.elapsed_ms, 500);
    assert!(t.finished());
}

#[test]
fn timer_reset_starts_over() {
    let mut t = Timer::new(300);
    t.tick(300);
    assert!(t.finished());
    t.reset();
    assert_eq!(t.elapsed_ms, 0);
    assert!(!t.finished());
    assert_eq!(t.duration_ms, 300);
}

#[test]
fn timer_percent_is_in_thousandths() {
    let mut t = Timer::new(400);
    assert_eq!(t.percent_milli(), 0);
    t.tick(100);
    assert_eq!(t.percent_milli(), 250);
    t.tick(100);
    assert_eq!(t.percent_milli(), 500);
    t.tick(300);
    assert_eq!(t.percent_milli(), 1000);
}
