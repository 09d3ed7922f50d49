use cursor_animation::AnimatedCursorPosition;
use cursor_animation::CursorAnimationManager;
use cursor_animation::FrameRequest;
use cursor_animation::Point;
use cursor_animation::TickAction;
use cursor_animation::ANIMATION_DURATION_MS;
use cursor_animation::FRAME_INTERVAL_MS;

fn point(x: i64, y: i64) -> Point {
    Point::new(x, y)
}

#[test]
fn position_starts_at_start_point() {
    let a = AnimatedCursorPosition::new(point(3, -4), point(50, 60), 1000);
    assert_eq!(a.current_position(1000), point(3, -4));
    assert!(!a.is_complete(1000));
}

#[test]
fn scenario_horizontal_sweep() {
    let a = AnimatedCursorPosition::new(point(0, 0), point(120, 0), 0);
    assert_eq!(a.current_position(0), point(0, 0));
    // At half time the eased fraction is 1 - 0.5^3 = 0.875, so 120 * 0.875 = 105.
    assert_eq!(a.current_position(60), point(105, 0));
    assert_eq!(a.current_position(120), point(120, 0));
    assert!(a.is_complete(120));
    assert!(!a.is_complete(119));
}

#[test]
fn position_settles_exactly() {
    let a = AnimatedCursorPosition::new(point(120, -7), point(-33, 9), 500);
    assert_eq!(a.current_position(500 + ANIMATION_DURATION_MS), point(-33, 9));
    assert_eq!(a.current_position(10_000_000_000), point(-33, 9));
    assert!(a.is_complete(500 + ANIMATION_DURATION_MS));
}

#[test]
fn position_monotone_no_overshoot() {
    let a = AnimatedCursorPosition::new(point(0, 100), point(120, 0), 0);
    let mut prev = a.current_position(0);
    let mut t: u64 = 0;
    while t <= 130 {
        let cur = a.current_position(t);
        assert!(prev.x <= cur.x && cur.x <= 120);
        assert!(cur.y <= prev.y && cur.y >= 0);
        prev = cur;
        t += 1;
    }
    assert_eq!(prev, point(120, 0));
}

#[test]
fn query_idempotent_same_instant() {
    let a = AnimatedCursorPosition::new(point(-5, 11), point(40, -90), 2000);
    assert_eq!(a.current_position(2047), a.current_position(2047));

    let mut m = CursorAnimationManager::new();
    m.set_enabled(true);
    m.start_animation(point(-5, 11), point(40, -90), 2000);
    let sp = point(1, 2);
    assert_eq!(
        m.current_cursor_position(sp, 2047),
        m.current_cursor_position(sp, 2047)
    );
}

#[test]
fn clock_before_start_counts_as_zero() {
    let a = AnimatedCursorPosition::new(point(8, 8), point(80, 80), 5000);
    assert_eq!(a.current_position(4000), point(8, 8));
    assert!(!a.is_complete(4000));
}

#[test]
fn rounding_stays_on_start_side() {
    // A one-unit move must not leave the start value before the motion
    // mathematically reaches the end: the scaled offset rounds toward start.
    let right = AnimatedCursorPosition::new(point(0, 0), point(1, 0), 0);
    assert_eq!(right.current_position(60), point(0, 0));
    let left = AnimatedCursorPosition::new(point(0, 0), point(-1, 0), 0);
    assert_eq!(left.current_position(60), point(0, 0));
}

#[test]
fn eased_midpoint_on_each_axis() {
    let vertical = AnimatedCursorPosition::new(point(0, 0), point(0, 120), 0);
    assert_eq!(vertical.current_position(60), point(0, 105));
    let shifted = AnimatedCursorPosition::new(point(-60, 0), point(60, 0), 0);
    assert_eq!(shifted.current_position(60), point(45, 0));
}

#[test]
fn manager_new_is_idle() {
    let m = CursorAnimationManager::new();
    assert_eq!(m.current_epoch(), 0);
    assert!(!m.is_animating(0));
    assert_eq!(m.current_cursor_position(point(9, 9), 77), point(9, 9));
}

#[test]
fn start_while_disabled_is_noop() {
    let mut m = CursorAnimationManager::new();
    let frame = m.start_animation(point(0, 0), point(50, 50), 100);
    assert_eq!(frame, None);
    assert!(!m.is_animating(100));
    assert_eq!(m.current_epoch(), 0);
    assert_eq!(m.current_cursor_position(point(4, 4), 100), point(4, 4));
}

#[test]
fn start_with_equal_points_is_noop() {
    let mut m = CursorAnimationManager::new();
    m.set_enabled(true);
    let frame = m.start_animation(point(25, 25), point(25, 25), 100);
    assert_eq!(frame, None);
    assert!(!m.is_animating(100));
    assert_eq!(m.current_epoch(), 0);
    assert_eq!(m.current_cursor_position(point(25, 25), 100), point(25, 25));
}

#[test]
fn start_schedules_frame_and_shows_start() {
    let mut m = CursorAnimationManager::new();
    m.set_enabled(true);
    let frame = m.start_animation(point(0, 0), point(120, 0), 1000);
    assert_eq!(
        frame,
        Some(FrameRequest {
            epoch: 1,
            delay_ms: FRAME_INTERVAL_MS,
        })
    );
    assert!(m.is_animating(1000));
    assert_eq!(m.current_cursor_position(point(7, 7), 1000), point(0, 0));
    assert_eq!(m.current_cursor_position(point(7, 7), 1060), point(105, 0));
}

#[test]
fn cursor_passthrough_after_completion() {
    let mut m = CursorAnimationManager::new();
    m.set_enabled(true);
    m.start_animation(point(0, 0), point(120, 0), 1000);
    assert!(!m.is_animating(1000 + ANIMATION_DURATION_MS));
    let sp = point(120, 0);
    assert_eq!(m.current_cursor_position(sp, 1200), sp);
}

#[test]
fn disable_mid_animation_abandons_it() {
    let mut m = CursorAnimationManager::new();
    m.set_enabled(true);
    m.start_animation(point(0, 0), point(120, 0), 1000);
    assert!(m.is_animating(1030));
    m.set_enabled(false);
    assert!(!m.is_animating(1030));
    assert_eq!(m.current_cursor_position(point(64, 64), 1030), point(64, 64));
}

#[test]
fn reenable_does_not_resume() {
    let mut m = CursorAnimationManager::new();
    m.set_enabled(true);
    m.start_animation(point(0, 0), point(120, 0), 1000);
    m.set_enabled(false);
    m.set_enabled(true);
    assert!(!m.is_animating(1010));
    assert_eq!(m.current_cursor_position(point(2, 3), 1010), point(2, 3));
}

#[test]
fn second_start_supersedes_first() {
    let mut m = CursorAnimationManager::new();
    m.set_enabled(true);
    let first = m.start_animation(point(0, 0), point(120, 0), 1000);
    assert_eq!(first.unwrap().epoch, 1);
    let second = m.start_animation(point(500, 500), point(600, 600), 1050);
    assert_eq!(second.unwrap().epoch, 2);
    // The query now reflects the new animation's start point.
    assert_eq!(m.current_cursor_position(point(7, 7), 1050), point(500, 500));
    // The first animation's in-flight wake-up observes a stale epoch: no-op.
    assert_eq!(m.update_animation(1, 1058), TickAction::Inert);
    assert!(m.is_animating(1058));
    assert_eq!(
        m.update_animation(2, 1058),
        TickAction::RequestFrame(FrameRequest {
            epoch: 2,
            delay_ms: FRAME_INTERVAL_MS,
        })
    );
}

#[test]
fn tick_lifecycle_runs_to_completion() {
    let mut m = CursorAnimationManager::new();
    m.set_enabled(true);
    m.start_animation(point(0, 0), point(120, 0), 1000);
    assert_eq!(
        m.update_animation(1, 1008),
        TickAction::RequestFrame(FrameRequest {
            epoch: 1,
            delay_ms: FRAME_INTERVAL_MS,
        })
    );
    assert_eq!(
        m.update_animation(1, 1000 + ANIMATION_DURATION_MS),
        TickAction::Finished
    );
    assert!(!m.is_animating(1000 + ANIMATION_DURATION_MS));
    // The chain is over: a further wake-up with the same epoch finds nothing.
    assert_eq!(m.update_animation(1, 1200), TickAction::Inert);
}

#[test]
fn tick_while_disabled_is_inert() {
    let mut m = CursorAnimationManager::new();
    m.set_enabled(true);
    m.start_animation(point(0, 0), point(120, 0), 1000);
    m.set_enabled(false);
    assert_eq!(m.update_animation(1, 1008), TickAction::Inert);
}

#[test]
fn timing_constants() {
    assert_eq!(ANIMATION_DURATION_MS, 120);
    assert_eq!(FRAME_INTERVAL_MS, 8);
    let a = AnimatedCursorPosition::new(point(0, 0), point(1, 1), 0);
    assert_eq!(a.duration, ANIMATION_DURATION_MS);
    assert_eq!(a.start_time, 0);
}
