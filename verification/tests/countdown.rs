use bevy::time::TimerMode;
use puppeteer::timer::Countdown;
use std::time::Duration;

#[test]
fn new_countdown_has_counted_nothing() {
    let c = Countdown::new(Duration::from_millis(100));
    assert!(!c.finished());
    assert_eq!(c.timer().elapsed(), Duration::ZERO);
    assert_eq!(c.timer().duration(), Duration::from_millis(100));
    assert_eq!(c.timer().mode(), TimerMode::Once);
    assert!(!c.timer().is_paused());
}

#[test]
fn tick_counts_up_below_the_window() {
    let mut c = Countdown::new(Duration::from_millis(100));
    c.tick(Duration::from_millis(30));
    assert!(!c.finished());
    assert_eq!(c.timer().elapsed(), Duration::from_millis(30));
    c.tick(Duration::from_millis(69));
    assert!(!c.finished());
    assert_eq!(c.timer().elapsed(), Duration::from_millis(99));
}

#[test]
fn tick_expires_on_reaching_the_window() {
    let mut c = Countdown::new(Duration::from_millis(100));
    c.tick(Duration::from_millis(40));
    c.tick(Duration::from_millis(60));
    assert!(c.finished());
    assert_eq!(c.timer().elapsed(), Duration::from_millis(100));
}

#[test]
fn tick_stops_at_the_window() {
    let mut c = Countdown::new(Duration::from_millis(100));
    c.tick(Duration::from_millis(250));
    assert!(c.finished());
    assert_eq!(c.timer().elapsed(), Duration::from_millis(100));
    c.tick(Duration::from_millis(10));
    assert!(c.finished());
    assert_eq!(c.timer().elapsed(), Duration::from_millis(100));
}

#[test]
fn tick_by_nothing_keeps_a_running_countdown() {
    let mut c = Countdown::new(Duration::from_millis(100));
    c.tick(Duration::from_millis(30));
    c.tick(Duration::ZERO);
    assert!(!c.finished());
    assert_eq!(c.timer().elapsed(), Duration::from_millis(30));
}

#[test]
fn tick_saturates_at_the_longest_duration() {
    let mut c = Countdown::new(Duration::MAX);
    c.tick(Duration::MAX - Duration::from_nanos(1));
    assert!(!c.finished());
    c.tick(Duration::from_secs(5));
    assert!(c.finished());
    assert_eq!(c.timer().elapsed(), Duration::MAX);
}

#[test]
fn spent_countdown_has_run_through_its_window() {
    let c = Countdown::spent(Duration::from_millis(150));
    assert!(c.finished());
    assert_eq!(c.timer().elapsed(), Duration::from_millis(150));
    assert_eq!(c.timer().duration(), Duration::from_millis(150));
}

#[test]
fn empty_window_expires_on_the_first_tick() {
    let mut c = Countdown::new(Duration::ZERO);
    assert!(!c.finished());
    c.tick(Duration::ZERO);
    assert!(c.finished());
    let spent = Countdown::spent(Duration::ZERO);
    assert!(spent.finished());
}

#[test]
fn countdown_ignores_the_tick_rate() {
    for total in [96_u64, 160, 320] {
        let mut slow = Countdown::new(Duration::from_millis(160));
        let mut fast = Countdown::new(Duration::from_millis(160));
        for _ in 0..total / 32 {
            slow.tick(Duration::from_millis(32));
        }
        for _ in 0..total / 8 {
            fast.tick(Duration::from_millis(8));
        }
        assert_eq!(slow.finished(), fast.finished());
        assert_eq!(slow.finished(), total >= 160);
        assert_eq!(slow.timer().elapsed(), fast.timer().elapsed());
        assert_eq!(slow.timer().elapsed(), Duration::from_millis(total.min(160)));
    }
}
