use sok::coordinator::{Coordinator, Phase};
use sok::geometry::{Extent, SurfaceGeometry};

fn ext(width: u32, height: u32) -> Extent {
    Extent { width, height }
}

#[test]
fn resize_duplicate_is_noop() {
    let mut g = SurfaceGeometry::new(ext(800, 600));
    g.set_window_resized(ext(1024, 768));
    assert!(g.resize_pending);
    // Second notification with the same size changes nothing.
    g.set_window_resized(ext(1024, 768));
    assert_eq!(g.tracked_size, ext(1024, 768));
    // The surface is reconfigured at most once.
    assert_eq!(g.take_reconfigure(), Some(ext(1024, 768)));
    assert_eq!(g.take_reconfigure(), None);
}

#[test]
fn resize_to_tracked_size_never_sets_pending() {
    let mut g = SurfaceGeometry::new(ext(800, 600));
    g.set_window_resized(ext(800, 600));
    assert!(!g.resize_pending);
    assert_eq!(g.take_reconfigure(), None);
}

#[test]
fn degenerate_size_skips_drawing() {
    let mut g = SurfaceGeometry::new(ext(0, 300));
    let plan = g.begin_frame();
    assert!(!plan.draw);
    assert_eq!(plan.reconfigure, None);

    let mut g = SurfaceGeometry::new(ext(300, 0));
    let plan = g.begin_frame();
    assert!(!plan.draw);
    assert_eq!(plan.reconfigure, None);
    // The geometry is untouched.
    assert_eq!(g.tracked_size, ext(300, 0));
    assert!(!g.resize_pending);
}

#[test]
fn draw_reconfigures_once_when_pending() {
    let mut g = SurfaceGeometry::new(ext(800, 600));
    g.set_window_resized(ext(640, 480));
    let plan = g.begin_frame();
    assert!(plan.draw);
    assert_eq!(plan.reconfigure, Some(ext(640, 480)));
    let plan = g.begin_frame();
    assert!(plan.draw);
    assert_eq!(plan.reconfigure, None);
}

#[test]
fn missed_resize_keeps_last_nondegenerate() {
    let mut c = Coordinator::new();
    assert!(c.on_activation());
    // Notifications arriving before construction completes.
    c.on_resize(ext(800, 600));
    c.on_resize(ext(0, 0));
    c.on_resize(ext(400, 300));
    assert_eq!(c.missed_resize, Some(ext(400, 300)));
    let redraw = c.on_construction_complete(ext(800, 600));
    assert!(redraw);
    assert_eq!(c.phase, Phase::Ready);
    assert_eq!(c.missed_resize, None);
    let g = c.geometry.unwrap();
    assert_eq!(g.tracked_size, ext(400, 300));
    assert!(g.resize_pending);
}

#[test]
fn degenerate_resize_never_clears_stored_value() {
    let mut c = Coordinator::new();
    c.on_resize(ext(800, 600));
    c.on_resize(ext(0, 600));
    assert_eq!(c.missed_resize, Some(ext(800, 600)));
}

#[test]
fn missed_resize_applied_exactly_once_on_ready() {
    let mut c = Coordinator::new();
    assert!(c.on_activation());
    c.on_resize(ext(1024, 768));
    let mut redraws: u32 = 0;
    if c.on_construction_complete(ext(800, 600)) {
        redraws += 1;
    }
    assert_eq!(redraws, 1);
    assert_eq!(c.geometry.unwrap().tracked_size, ext(1024, 768));
    // The record is cleared and never reapplied.
    assert_eq!(c.missed_resize, None);
}

#[test]
fn completion_without_missed_resize_requests_no_redraw() {
    let mut c = Coordinator::new();
    assert!(c.on_activation());
    let redraw = c.on_construction_complete(ext(800, 600));
    assert!(!redraw);
    assert_eq!(c.geometry.unwrap().tracked_size, ext(800, 600));
}

#[test]
fn reentrant_activation_starts_one_construction() {
    let mut c = Coordinator::new();
    assert!(c.on_activation());
    // While Constructing: no second construction.
    assert!(!c.on_activation());
    assert!(!c.on_activation());
    assert_eq!(c.construction_starts, 1);
    c.on_construction_complete(ext(800, 600));
    // While Ready: still no second construction.
    assert!(!c.on_activation());
    assert_eq!(c.construction_starts, 1);
    assert_eq!(c.phase, Phase::Ready);
}

#[test]
fn resize_while_ready_goes_straight_to_context() {
    let mut c = Coordinator::new();
    c.on_activation();
    c.on_construction_complete(ext(800, 600));
    c.on_resize(ext(1280, 720));
    assert_eq!(c.missed_resize, None);
    let g = c.geometry.unwrap();
    assert_eq!(g.tracked_size, ext(1280, 720));
    assert!(g.resize_pending);
    // Degenerate notifications while Ready are ignored entirely.
    c.on_resize(ext(0, 720));
    assert_eq!(c.geometry.unwrap().tracked_size, ext(1280, 720));
}

#[test]
fn redraw_before_ready_does_nothing() {
    let mut c = Coordinator::new();
    let plan = c.on_redraw();
    assert!(!plan.draw);
    assert_eq!(plan.reconfigure, None);
    c.on_activation();
    let plan = c.on_redraw();
    assert!(!plan.draw);
}

#[test]
fn redraw_when_ready_draws_and_reconfigures_once() {
    let mut c = Coordinator::new();
    c.on_activation();
    c.on_resize(ext(1024, 768));
    c.on_construction_complete(ext(800, 600));
    let plan = c.on_redraw();
    assert!(plan.draw);
    assert_eq!(plan.reconfigure, Some(ext(1024, 768)));
    let plan = c.on_redraw();
    assert!(plan.draw);
    assert_eq!(plan.reconfigure, None);
}

#[test]
fn completion_signal_outside_constructing_changes_nothing() {
    let mut c = Coordinator::new();
    // Never started: a stray completion is ignored.
    assert!(!c.on_construction_complete(ext(800, 600)));
    assert_eq!(c.phase, Phase::Uninitialized);
    assert_eq!(c.geometry, None);
    c.on_activation();
    c.on_construction_complete(ext(800, 600));
    // Already Ready: a second completion is ignored.
    c.on_resize(ext(1024, 768));
    assert!(!c.on_construction_complete(ext(640, 480)));
    assert_eq!(c.geometry.unwrap().tracked_size, ext(1024, 768));
}

#[test]
fn default_coordinator_is_initial() {
    let c = Coordinator::default();
    assert_eq!(c.phase, Phase::Uninitialized);
    assert_eq!(c.missed_resize, None);
    assert_eq!(c.geometry, None);
    assert_eq!(c.construction_starts, 0);
}
