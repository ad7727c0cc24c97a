use sok::frame_clock::FrameClock;

#[test]
fn fps_unchanged_within_window() {
    let mut c = FrameClock::new(0);
    let r1 = c.sample(100);
    let r2 = c.sample(500);
    let r3 = c.sample(999);
    assert_eq!(r1, 0);
    assert_eq!(r2, 0);
    assert_eq!(r3, 0);
    assert_eq!(c.current_fps_milli, 0);
    assert_eq!(c.last_sample_time, 0);
    assert_eq!(c.frame_count, 3);
}

#[test]
fn fps_recomputed_at_boundary() {
    let mut c = FrameClock::new(0);
    let r1 = c.sample(500);
    assert_eq!(r1, 0);
    // Two frames over two seconds: one frame per second, 1000 millihertz.
    let r2 = c.sample(2000);
    assert_eq!(r2, 1000);
    assert_eq!(c.current_fps_milli, 1000);
    assert_eq!(c.frame_count, 0);
    assert_eq!(c.last_sample_time, 2000);
}

#[test]
fn fps_stale_value_persists_into_next_window() {
    let mut c = FrameClock::new(0);
    c.sample(1000);
    // One frame over one second: 1000 millihertz.
    assert_eq!(c.current_fps_milli, 1000);
    // Within the next window the old rate is still reported.
    let r = c.sample(1500);
    assert_eq!(r, 1000);
    assert_eq!(c.frame_count, 1);
}

#[test]
fn fps_exact_formula() {
    // 120 frames over exactly two seconds: 60 fps, 60000 millihertz.
    let mut c = FrameClock::new(0);
    for i in 0..119u64 {
        c.sample(i);
    }
    assert_eq!(c.frame_count, 119);
    let r = c.sample(2000);
    assert_eq!(r, 60_000);
    assert_eq!(c.frame_count, 0);
}

#[test]
fn boundary_at_exactly_one_second() {
    let mut c = FrameClock::new(5);
    // 999 ms elapsed: still inside the window.
    c.sample(1004);
    assert_eq!(c.current_fps_milli, 0);
    assert_eq!(c.last_sample_time, 5);
    // 1000 ms elapsed: boundary. Two frames in one second, 2000 millihertz.
    let r = c.sample(1005);
    assert_eq!(r, 2000);
    assert_eq!(c.last_sample_time, 1005);
}

#[test]
fn clock_anomaly_is_not_a_boundary() {
    let mut c = FrameClock::new(5000);
    // A timestamp before the window start only counts the frame.
    let r = c.sample(10);
    assert_eq!(r, 0);
    assert_eq!(c.frame_count, 1);
    assert_eq!(c.last_sample_time, 5000);
}

#[test]
fn frame_counter_saturates() {
    let mut c = FrameClock {
        last_sample_time: 0,
        frame_count: u32::MAX,
        current_fps_milli: 7,
    };
    let r = c.sample(500);
    assert_eq!(r, 7);
    assert_eq!(c.frame_count, u32::MAX);
}
