use wgpu_surfaces::wgpu_simplified::fps::{time_since, NANOS_PER_SEC};
use wgpu_surfaces::wgpu_simplified::{truncate_to_u32, FpsCounter};

const SEC: u64 = NANOS_PER_SEC;

#[test]
fn a_second_is_a_billion_nanoseconds() {
    assert_eq!(NANOS_PER_SEC, 1_000_000_000);
}

#[test]
fn new_counter_has_an_empty_window() {
    let counter = FpsCounter::new(42);
    assert_eq!(counter.frame_count(), 0);
}

#[test]
fn no_report_before_the_interval_has_passed() {
    let mut counter = FpsCounter::new(0);
    assert_eq!(counter.print_fps(SEC, 5), None);
    assert_eq!(counter.print_fps(4 * SEC, 5), None);
    assert_eq!(counter.print_fps(5 * SEC - 1, 5), None);
}

#[test]
fn report_comes_exactly_when_the_interval_has_passed() {
    let mut counter = FpsCounter::new(7);
    assert_eq!(counter.print_fps(5 * SEC + 6, 5), None);
    assert_eq!(counter.print_fps(5 * SEC + 7, 5), Some(2));
}

#[test]
fn report_counts_the_frames_of_the_last_second() {
    let mut counter = FpsCounter::new(0);
    // Ten frames a second for five seconds: at 0.1 s, 0.2 s, .., 4.9 s.
    for i in 1..50u64 {
        assert_eq!(counter.print_fps(i * SEC / 10, 5), None);
    }
    // At 5.0 s the window holds the frames from 4.0 s to 5.0 s.
    assert_eq!(counter.print_fps(5 * SEC, 5), Some(11));
    assert_eq!(counter.frame_count(), 11);
}

#[test]
fn a_frame_exactly_one_second_old_stays() {
    let mut counter = FpsCounter::new(0);
    counter.print_fps(2 * SEC, 100);
    counter.print_fps(3 * SEC, 100);
    assert_eq!(counter.frame_count(), 2);
    counter.print_fps(3 * SEC + 1, 100);
    assert_eq!(counter.frame_count(), 2);
}

#[test]
fn frames_older_than_a_second_leave() {
    let mut counter = FpsCounter::new(0);
    counter.print_fps(10, 100);
    counter.print_fps(20, 100);
    counter.print_fps(SEC + 15, 100);
    // 10 is more than a second old, 20 is not.
    assert_eq!(counter.frame_count(), 2);
    counter.print_fps(3 * SEC, 100);
    assert_eq!(counter.frame_count(), 1);
}

#[test]
fn nothing_is_stale_in_the_first_second() {
    let mut counter = FpsCounter::new(0);
    counter.print_fps(0, 100);
    counter.print_fps(5, 100);
    counter.print_fps(SEC - 1, 100);
    assert_eq!(counter.frame_count(), 3);
}

#[test]
fn only_the_leading_stale_frames_leave() {
    let mut counter = FpsCounter::new(0);
    counter.print_fps(10 * SEC, 100);
    // A reading from before the last one: it is not in front, so it stays
    // until the frame before it has left.
    counter.print_fps(SEC, 100);
    counter.print_fps(10 * SEC + 5, 100);
    assert_eq!(counter.frame_count(), 3);
    counter.print_fps(12 * SEC, 100);
    assert_eq!(counter.frame_count(), 1);
}

#[test]
fn interval_zero_reports_every_frame() {
    let mut counter = FpsCounter::new(100);
    assert_eq!(counter.print_fps(100, 0), Some(1));
    assert_eq!(counter.print_fps(101, 0), Some(2));
    // Also when the clock reading lies before the last report.
    assert_eq!(counter.print_fps(50, 0), Some(3));
}

#[test]
fn a_reading_before_the_last_report_counts_as_no_time() {
    let mut counter = FpsCounter::new(10 * SEC);
    assert_eq!(counter.print_fps(SEC, 1), None);
    assert_eq!(counter.print_fps(11 * SEC, 1), Some(1));
}

#[test]
fn report_restarts_the_interval() {
    let mut counter = FpsCounter::new(0);
    assert_eq!(counter.print_fps(2 * SEC, 2), Some(1));
    assert_eq!(counter.print_fps(3 * SEC, 2), None);
    assert_eq!(counter.print_fps(4 * SEC, 2), Some(2));
}

#[test]
fn a_huge_interval_never_reports() {
    let mut counter = FpsCounter::new(0);
    assert_eq!(counter.print_fps(u64::MAX, u64::MAX), None);
    assert_eq!(counter.print_fps(u64::MAX, 18_446_744_074), None);
    assert_eq!(counter.print_fps(u64::MAX, 18_446_744_073), Some(3));
}

#[test]
fn time_since_is_the_difference_or_zero() {
    assert_eq!(time_since(3, 10), 7);
    assert_eq!(time_since(10, 10), 0);
    assert_eq!(time_since(10, 3), 0);
    assert_eq!(time_since(0, u64::MAX), u64::MAX);
}

#[test]
fn truncation_keeps_the_low_32_bits() {
    assert_eq!(truncate_to_u32(0), 0);
    assert_eq!(truncate_to_u32(65_535), 65_535);
    assert_eq!(truncate_to_u32(u32::MAX as usize), u32::MAX);
    if usize::BITS > 32 {
        let wide: u64 = (1u64 << 32) + 5;
        assert_eq!(truncate_to_u32(wide as usize), 5);
        assert_eq!(truncate_to_u32((1u64 << 32) as usize), 0);
    }
}
