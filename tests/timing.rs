use ec_core::time::{
    delay_ms, delay_ticks, get_time_ticks, set_msleep_target_ticks, AlarmTarget, TimeMs,
    MAX_LOOP_ITERATIONS,
};
use std::cell::Cell;

#[test]
fn order_holds_across_low_word_wrap() {
    let t1 = TimeMs::now(0xffff_fff0, 4);
    let t2 = t1.add_ms(0x20);
    assert_eq!(t2, TimeMs { time0: 0x10, time1: 5 });
    assert!(t1 < t2);
    assert!(t2 > t1);
    assert!(t2.is_at_or_after(&t1));
    assert!(!t1.is_at_or_after(&t2));
}

#[test]
fn order_on_equal_high_words_follows_low_word() {
    let a = TimeMs::now(7, 3);
    let b = TimeMs::now(9, 3);
    assert!(a < b);
    assert!(a.is_at_or_after(&a));
    assert_eq!(a.partial_cmp(&a), Some(std::cmp::Ordering::Equal));
}

#[test]
fn now_keeps_eight_bits_of_high_word() {
    assert_eq!(TimeMs::now(5, 0x1ff), TimeMs { time0: 5, time1: 0xff });
}

#[test]
fn add_ms_without_carry() {
    let t = TimeMs::now(1000, 2).add_ms(500);
    assert_eq!(t, TimeMs { time0: 1500, time1: 2 });
}

#[test]
fn add_ms_wraps_past_forty_bits() {
    let t = TimeMs { time0: 0xffff_ffff, time1: 0xff }.add_ms(1);
    assert_eq!(t, TimeMs { time0: 0, time1: 0 });
}

fn ticking_clock(start: u32) -> impl Fn() -> TimeMs {
    let ms = Cell::new(start);
    move || {
        let t = ms.get();
        ms.set(t + 1);
        TimeMs::now(t, 0)
    }
}

#[test]
fn delay_waits_for_requested_time() {
    let r = delay_ms(20, &ticking_clock(100));
    assert!(r.reached);
    assert_eq!(r.stop, TimeMs { time0: 120, time1: 0 });
    assert_eq!(r.polls, 20);
}

#[test]
fn long_delay_is_clamped_to_ceiling() {
    let long = delay_ms(10_000, &ticking_clock(100));
    let ceiling = delay_ms(500, &ticking_clock(100));
    assert_eq!(long.stop, ceiling.stop);
    assert_eq!(long.polls, ceiling.polls);
    assert_eq!(long.reached, ceiling.reached);
    assert_eq!(long.stop, TimeMs { time0: 600, time1: 0 });
    assert_eq!(long.polls, 500);
    assert!(long.reached);
}

#[test]
fn delay_returns_at_first_reading_past_stop() {
    let r = delay_ms(0, &ticking_clock(7));
    assert!(r.reached);
    assert_eq!(r.polls, 1);
    assert_eq!(r.stop, TimeMs { time0: 7, time1: 0 });
}

#[test]
fn stuck_timer_ends_at_poll_bound() {
    let r = delay_ms(10, &|| TimeMs::now(42, 0));
    assert!(!r.reached);
    assert_eq!(r.polls, MAX_LOOP_ITERATIONS);
    assert_eq!(r.stop, TimeMs { time0: 52, time1: 0 });
}

#[test]
fn ticks_join_both_words() {
    assert_eq!(get_time_ticks(0x89ab_cdef, 0x12), 0x12_89ab_cdef);
    assert_eq!(get_time_ticks(0, 0), 0);
}

#[test]
fn alarm_target_carries_into_high_word() {
    assert_eq!(
        set_msleep_target_ticks(0x1_ffff_fff0, 0x20),
        AlarmTarget { target1: 2, target0: 0x10 }
    );
    assert_eq!(set_msleep_target_ticks(1000, 50), AlarmTarget { target1: 0, target0: 1050 });
}

#[test]
fn tick_delay_elapsed_rules() {
    assert!(!delay_ticks(100, 150, 50));
    assert!(delay_ticks(100, 151, 50));
    assert!(delay_ticks(0xffff_fff0, 0x40, 0x40));
    assert!(!delay_ticks(0xffff_fff0, 0x10, 0x40));
    assert!(!delay_ticks(5, 5, 0));
    assert!(!delay_ticks(0x1234, 0x1234, 100));
    assert!(delay_ticks(0xffff_ffff, 0, 0));
}
