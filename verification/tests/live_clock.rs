use sok::profiler::Profiler;

#[test]
fn fresh_profiler_reports_zero() {
    let p = Profiler::new();
    assert_eq!(p.clock.current_fps_milli, 0);
    assert_eq!(p.clock.frame_count, 0);
    let d = Profiler::default();
    assert_eq!(d.clock.current_fps_milli, 0);
}

#[test]
fn profiler_reports_rate_after_a_second() {
    let mut p = Profiler::new();
    let mut fps: u64 = p.update();
    let mut iterations: u64 = 0;
    // Sample continuously until the one-second window closes; the real
    // clock decides when, so bound the wait generously.
    while fps == 0 && iterations < 200_000_000 {
        fps = p.update();
        iterations += 1;
    }
    assert!(fps > 0);
    // The boundary advanced and the counter was reset there.
    assert!(p.clock.last_sample_time >= 1000);
    assert_eq!(p.clock.current_fps_milli, fps);
}
