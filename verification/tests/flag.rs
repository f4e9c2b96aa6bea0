use expiring_bool::{ExpiringBool, SetAction, WatchAction, POLL_INTERVAL_MILLIS};
use std::time::{Duration, Instant};

const MS: u128 = 1_000_000;

fn spin_until(start: Instant, wait: Duration) {
    while start.elapsed() < wait {
        std::hint::spin_loop();
    }
}

#[test]
fn new_false_reads_false() {
    let flag = ExpiringBool::new(false, Duration::from_millis(100));
    assert!(!flag.is_true());
}

#[test]
fn new_true_reads_true() {
    let flag = ExpiringBool::new(true, Duration::from_millis(100));
    assert!(flag.is_true());
}

#[test]
fn new_false_stays_false_until_set() {
    let mut flag = ExpiringBool::new(false, Duration::from_millis(100));
    flag.set_false();
    assert!(!flag.is_true());
    assert_eq!(flag.poll_at(0), WatchAction::Sleep);
    assert!(!flag.is_true());
    assert_eq!(flag.poll_at(1_000 * MS), WatchAction::Stop);
    assert!(!flag.is_true());
    flag.set_false();
    assert!(!flag.is_true());
    assert_eq!(flag.set_at(2_000 * MS), SetAction::StartWatcher);
    assert!(flag.is_true());
}

#[test]
fn set_reads_true_at_once() {
    let mut flag = ExpiringBool::new(false, Duration::from_millis(100));
    assert_eq!(flag.set_at(7 * MS), SetAction::StartWatcher);
    assert!(flag.is_true());
}

#[test]
fn set_expires_after_the_window() {
    let mut flag = ExpiringBool::new(false, Duration::from_millis(100));
    assert_eq!(flag.set_at(10 * MS), SetAction::StartWatcher);
    assert_eq!(flag.poll_at(10 * MS), WatchAction::Sleep);
    assert_eq!(flag.poll_at(60 * MS), WatchAction::Sleep);
    assert!(flag.is_true());
    assert_eq!(flag.poll_at(110 * MS), WatchAction::Sleep);
    assert!(flag.is_true());
    assert_eq!(flag.poll_at(160 * MS), WatchAction::Stop);
    assert!(!flag.is_true());
}

#[test]
fn window_is_counted_in_nanoseconds() {
    let mut flag = ExpiringBool::new(false, Duration::from_millis(100));
    assert_eq!(flag.set_at(0), SetAction::StartWatcher);
    assert_eq!(flag.poll_at(100_000_000), WatchAction::Sleep);
    assert!(flag.is_true());
    assert_eq!(flag.poll_at(100_000_001), WatchAction::Stop);
    assert!(!flag.is_true());
}

#[test]
fn window_of_seconds_and_nanoseconds() {
    let mut flag = ExpiringBool::new(false, Duration::new(2, 5));
    assert_eq!(flag.set_at(1), SetAction::StartWatcher);
    assert_eq!(flag.poll_at(2_000_000_006), WatchAction::Sleep);
    assert_eq!(flag.poll_at(2_000_000_007), WatchAction::Stop);
}

#[test]
fn elapsed_equal_to_window_is_not_stale() {
    let mut flag = ExpiringBool::new(true, Duration::from_nanos(40));
    assert_eq!(flag.set_at(40), SetAction::Nothing);
    assert_eq!(flag.set_at(81), SetAction::StartWatcher);
}

#[test]
fn zero_window_expires_on_the_next_tick() {
    let mut flag = ExpiringBool::new(false, Duration::ZERO);
    assert_eq!(flag.set_at(5), SetAction::StartWatcher);
    assert_eq!(flag.poll_at(5), WatchAction::Sleep);
    assert!(flag.is_true());
    assert_eq!(flag.poll_at(6), WatchAction::Stop);
    assert!(!flag.is_true());
}

#[test]
fn clock_reading_before_the_last_set_counts_as_no_time() {
    let mut flag = ExpiringBool::new(false, Duration::from_nanos(10));
    assert_eq!(flag.set_at(1_000), SetAction::StartWatcher);
    assert_eq!(flag.poll_at(3), WatchAction::Sleep);
    assert_eq!(flag.set_at(3), SetAction::Nothing);
    assert_eq!(flag.poll_at(13), WatchAction::Sleep);
    assert_eq!(flag.poll_at(14), WatchAction::Stop);
}

#[test]
fn largest_clock_reading() {
    let mut flag = ExpiringBool::new(false, Duration::MAX);
    assert_eq!(flag.set_at(0), SetAction::StartWatcher);
    assert_eq!(flag.poll_at(Duration::MAX.as_nanos()), WatchAction::Sleep);
    assert_eq!(flag.poll_at(u128::MAX), WatchAction::Stop);
    assert_eq!(flag.set_at(u128::MAX), SetAction::StartWatcher);
    assert_eq!(flag.poll_at(0), WatchAction::Sleep);
    assert!(flag.is_true());
}

#[test]
fn repeated_set_keeps_true_with_one_watcher() {
    let mut flag = ExpiringBool::new(false, Duration::from_millis(100));
    let mut started = 0;
    let mut now = 0;
    for _ in 0..50 {
        if flag.set_at(now) == SetAction::StartWatcher {
            started += 1;
        }
        assert!(flag.is_true());
        assert_eq!(flag.poll_at(now + 50 * MS), WatchAction::Sleep);
        assert!(flag.is_true());
        now += 99 * MS;
    }
    assert_eq!(started, 1);
    let last = now - 99 * MS;
    assert_eq!(flag.poll_at(last + 100 * MS), WatchAction::Sleep);
    assert!(flag.is_true());
    assert_eq!(flag.poll_at(last + 100 * MS + 1), WatchAction::Stop);
    assert!(!flag.is_true());
}

#[test]
fn set_after_expiry_begins_a_new_episode() {
    let mut flag = ExpiringBool::new(false, Duration::from_millis(100));
    assert_eq!(flag.set_at(0), SetAction::StartWatcher);
    assert_eq!(flag.poll_at(101 * MS), WatchAction::Stop);
    assert_eq!(flag.set_at(102 * MS), SetAction::StartWatcher);
    assert!(flag.is_true());
}

#[test]
fn set_after_the_window_without_a_poll_begins_a_new_episode() {
    let mut flag = ExpiringBool::new(false, Duration::from_millis(100));
    assert_eq!(flag.set_at(0), SetAction::StartWatcher);
    assert_eq!(flag.set_at(101 * MS), SetAction::StartWatcher);
    assert!(flag.is_true());
    assert_eq!(flag.poll_at(201 * MS), WatchAction::Sleep);
}

#[test]
fn set_after_clear_begins_a_new_episode() {
    let mut flag = ExpiringBool::new(false, Duration::from_millis(100));
    assert_eq!(flag.set_at(0), SetAction::StartWatcher);
    flag.set_false();
    assert_eq!(flag.set_at(MS), SetAction::StartWatcher);
    assert!(flag.is_true());
}

#[test]
fn made_true_does_not_ask_for_a_watcher_on_refresh() {
    let mut flag = ExpiringBool::new(true, Duration::from_millis(100));
    assert!(flag.is_true());
    assert_eq!(flag.set_at(50 * MS), SetAction::Nothing);
    assert!(flag.is_true());
    assert_eq!(flag.set_at(151 * MS), SetAction::StartWatcher);
}

#[test]
fn set_false_clears_a_timed_flag() {
    let mut flag = ExpiringBool::new(false, Duration::from_millis(100));
    flag.set_at(0);
    assert!(flag.is_true());
    flag.set_false();
    assert!(!flag.is_true());
    flag.set_false();
    assert!(!flag.is_true());
}

#[test]
fn set_false_clears_a_flag_made_true() {
    let mut flag = ExpiringBool::new(true, Duration::from_millis(100));
    flag.set_false();
    assert!(!flag.is_true());
}

#[test]
fn set_false_does_not_unpin() {
    let mut flag = ExpiringBool::new(false, Duration::from_millis(100));
    assert!(flag.toggle());
    flag.set_false();
    assert!(flag.is_true());
    assert!(!flag.toggle());
    assert!(!flag.is_true());
}

#[test]
fn poll_after_clear_stops_only_when_stale() {
    let mut flag = ExpiringBool::new(false, Duration::from_millis(100));
    flag.set_at(0);
    flag.set_false();
    assert_eq!(flag.poll_at(50 * MS), WatchAction::Sleep);
    assert!(!flag.is_true());
    assert_eq!(flag.poll_at(150 * MS), WatchAction::Stop);
    assert!(!flag.is_true());
}

#[test]
fn toggle_cancels_a_timed_flag() {
    let mut flag = ExpiringBool::new(false, Duration::from_millis(100));
    flag.set_at(0);
    assert!(!flag.toggle());
    assert!(!flag.is_true());
    assert_eq!(flag.set_at(MS), SetAction::StartWatcher);
    assert!(flag.is_true());
}

#[test]
fn toggle_cancels_a_flag_made_true_without_pinning() {
    let mut flag = ExpiringBool::new(true, Duration::from_millis(100));
    assert!(!flag.toggle());
    assert!(!flag.is_true());
    assert!(flag.toggle());
    assert!(flag.is_true());
}

#[test]
fn toggle_alternates_on_an_unset_flag() {
    let mut flag = ExpiringBool::new(false, Duration::from_millis(100));
    for round in 0..10 {
        let pinned = flag.toggle();
        assert_eq!(pinned, round % 2 == 0);
        assert_eq!(flag.is_true(), round % 2 == 0);
    }
}

#[test]
fn pinned_flag_ignores_set_clear_and_polls() {
    let mut flag = ExpiringBool::new(false, Duration::from_millis(100));
    assert!(flag.toggle());
    assert_eq!(flag.set_at(0), SetAction::Nothing);
    assert!(flag.is_true());
    assert_eq!(flag.set_at(500 * MS), SetAction::Nothing);
    assert!(flag.is_true());
    flag.set_false();
    assert!(flag.is_true());
    assert_eq!(flag.poll_at(900 * MS), WatchAction::Stop);
    assert!(flag.is_true());
    assert_eq!(flag.set(), SetAction::Nothing);
    assert!(flag.is_true());
    assert!(!flag.toggle());
    assert!(!flag.is_true());
}

#[test]
fn set_while_pinned_leaves_no_value_behind() {
    let mut flag = ExpiringBool::new(false, Duration::from_millis(100));
    assert!(flag.toggle());
    flag.set_at(0);
    assert!(!flag.toggle());
    assert!(!flag.is_true());
    assert_eq!(flag.set_at(200 * MS), SetAction::StartWatcher);
}

#[test]
fn poll_interval_is_fifty_milliseconds() {
    assert_eq!(POLL_INTERVAL_MILLIS, 50);
}

#[test]
fn scenario_refresh_then_expiry() {
    let mut flag = ExpiringBool::new(false, Duration::from_millis(100));
    assert!(!flag.is_true());
    assert_eq!(flag.set_at(0), SetAction::StartWatcher);
    assert!(flag.is_true());
    assert_eq!(flag.poll_at(0), WatchAction::Sleep);
    assert_eq!(flag.set_at(50 * MS), SetAction::Nothing);
    assert!(flag.is_true());
    assert_eq!(flag.poll_at(50 * MS), WatchAction::Sleep);
    assert_eq!(flag.poll_at(100 * MS), WatchAction::Sleep);
    assert_eq!(flag.poll_at(150 * MS), WatchAction::Sleep);
    assert!(flag.is_true());
    assert_eq!(flag.poll_at(170 * MS), WatchAction::Stop);
    assert!(!flag.is_true());
}

#[test]
fn scenario_refresh_then_expiry_on_the_real_clock() {
    let window = Duration::from_millis(100);
    let mut flag = ExpiringBool::new(false, window);
    assert!(!flag.is_true());
    assert_eq!(flag.set(), SetAction::StartWatcher);
    assert!(flag.is_true());
    spin_until(Instant::now(), Duration::from_millis(50));
    let before_set = Instant::now();
    flag.set();
    let after_set = Instant::now();
    assert!(flag.is_true());
    let action = flag.poll();
    if before_set.elapsed() <= window {
        assert_eq!(action, WatchAction::Sleep);
        assert!(flag.is_true());
    }
    spin_until(after_set, Duration::from_millis(120));
    assert_eq!(flag.poll(), WatchAction::Stop);
    assert!(!flag.is_true());
}

#[test]
fn scenario_pin_and_unpin() {
    let window = Duration::from_millis(20);
    let mut flag = ExpiringBool::new(false, window);
    assert!(flag.toggle());
    assert!(flag.is_true());
    assert_eq!(flag.set(), SetAction::Nothing);
    assert!(flag.is_true());
    spin_until(Instant::now(), Duration::from_millis(25));
    assert!(flag.is_true());
    assert_eq!(flag.poll(), WatchAction::Stop);
    assert!(flag.is_true());
    assert!(!flag.toggle());
    assert!(!flag.is_true());
}

#[test]
fn real_clock_refresh_within_a_long_window() {
    let mut flag = ExpiringBool::new(false, Duration::from_secs(3600));
    assert_eq!(flag.set(), SetAction::StartWatcher);
    assert_eq!(flag.set(), SetAction::Nothing);
    assert_eq!(flag.poll(), WatchAction::Sleep);
    assert!(flag.is_true());
}

#[test]
fn real_clock_starts_at_the_construction() {
    let mut flag = ExpiringBool::new(true, Duration::from_millis(5));
    spin_until(Instant::now(), Duration::from_millis(10));
    assert!(flag.is_true());
    assert_eq!(flag.set(), SetAction::StartWatcher);
    assert!(flag.is_true());
}

#[test]
fn watcher_stops_within_one_interval_of_the_deadline() {
    let interval = u128::from(POLL_INTERVAL_MILLIS) * MS;
    let mut flag = ExpiringBool::new(false, Duration::from_millis(120));
    assert_eq!(flag.set_at(30 * MS), SetAction::StartWatcher);
    let deadline = 150 * MS;
    let start = 30 * MS;
    let mut polls = 0;
    let mut now = start;
    while flag.poll_at(now) == WatchAction::Sleep {
        assert!(flag.is_true());
        polls += 1;
        now += interval;
    }
    assert_eq!(polls, 3);
    assert_eq!(now, 180 * MS);
    assert!(deadline < now && now <= deadline + interval);
    assert!(!flag.is_true());
}
