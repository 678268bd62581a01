use masterpiece::clock::{millis, Clock};

#[test]
fn millis_of_a_duration() {
    assert_eq!(millis(3, 999_999_999), 3999);
    assert_eq!(millis(0, 1_000_000), 1);
    assert_eq!(millis(1_700_000_000, 500_000), 1_700_000_000_000);
}

#[test]
fn first_frame_counts_since_the_epoch() {
    let mut c = Clock::new();
    c.advance(1_700_000_123_456);
    assert_eq!(c, Clock { prev_tick: 1_700_000_123_456, tick_count: 1_700_000_123_456, start_time: 1_700_000_123 });
}

#[test]
fn time_adds_up_and_start_is_kept() {
    let mut c = Clock { prev_tick: 500, tick_count: 20, start_time: 7 };
    c.advance(600);
    c.advance(900);
    assert_eq!(c.tick_count, 420);
    assert_eq!(c.prev_tick, 900);
    assert_eq!(c.start_time, 7);
}

#[test]
fn start_time_waits_for_a_second() {
    let mut c = Clock::new();
    c.advance(400);
    assert_eq!(c.start_time, 0);
    c.advance(2500);
    assert_eq!(c.start_time, 2);
}

#[test]
fn intro_elapsed_after_three_seconds() {
    let c = Clock { prev_tick: 0, tick_count: 13_999, start_time: 10 };
    assert!(!c.intro_elapsed());
    let c = Clock { prev_tick: 0, tick_count: 14_000, start_time: 10 };
    assert!(c.intro_elapsed());
    let c = Clock { prev_tick: 0, tick_count: 5_000, start_time: 10 };
    assert!(!c.intro_elapsed());
}
