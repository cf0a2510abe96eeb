use voice_overlay::geometry::Geometry;
use voice_overlay::native_overlay::{
    animate_to, animation_frame, animation_settle, apply_geometry, collapse_after_dwell, configure,
    decode_mouse_coords, ensure_window, frame_applied, handle_hover_change, hide_overlay,
    pointer_inside_current, pointer_left, pointer_moved, set_hover, set_hover_platform, set_level,
    set_level_platform, show, window_created, window_destroyed, Animation, HoverChange,
    HoverRequest, Overlay, OverlayMetrics, PendingCollapse, Placement, WindowOwner, WindowPlan,
    ANIMATION_FRAME_MS, ANIMATION_STEPS, HOVER_DWELL_MS,
};

const SCALE_X: u64 = 0x3ff2_6666_6000_0000;
const SCALE_Y: u64 = 0x4014_0000_0000_0000;

fn configured() -> Overlay {
    let mut overlay = Overlay::new();
    let target = configure(&mut overlay, 90, 5, 100, 100, SCALE_X, SCALE_Y);
    frame_applied(&mut overlay, target);
    overlay
}

fn base() -> Geometry {
    Geometry::new(100, 100, 90, 5)
}

fn expanded() -> Geometry {
    Geometry::new(94, 90, 103, 25)
}

fn no_change() -> HoverChange {
    HoverChange { changed: false, animation: None }
}

fn run_animation(overlay: &mut Overlay, animation: &Animation) -> Vec<Geometry> {
    let mut applied = Vec::new();
    let mut step = 1;
    while step <= ANIMATION_STEPS {
        match animation_frame(overlay, animation, step) {
            Some(next) => {
                frame_applied(overlay, next);
                applied.push(next);
            }
            None => return applied,
        }
        step += 1;
    }
    if let Some(last) = animation_settle(overlay, animation) {
        frame_applied(overlay, last);
        applied.push(last);
    }
    applied
}

#[test]
fn a_new_overlay_is_collapsed_and_hidden() {
    let overlay = Overlay::new();
    assert_eq!(overlay.metrics, OverlayMetrics::new());
    assert_eq!(overlay.metrics.current, Geometry::new(0, 0, 0, 0));
    assert!(!overlay.metrics.hover);
    assert!(!overlay.force_hover);
    assert!(!overlay.last_pointer_inside);
    assert!(!overlay.visible);
    assert_eq!(overlay.animation_epoch, 0);
    assert_eq!(overlay.hover_dwell_seq, 0);
    assert_eq!(overlay.level_millis, 0);
    assert_eq!(overlay.level_tick, 0);
}

#[test]
fn configure_sets_base_and_centred_expanded_geometry() {
    let mut overlay = Overlay::new();
    let target = configure(&mut overlay, 90, 5, 100, 100, SCALE_X, SCALE_Y);
    assert_eq!(target, base());
    assert_eq!(overlay.metrics.base, base());
    assert_eq!(overlay.metrics.expanded, expanded());
    assert_eq!(overlay.metrics.current, Geometry::new(0, 0, 0, 0));
    frame_applied(&mut overlay, target);
    assert_eq!(overlay.metrics.current, base());
    assert_eq!(overlay.animation_epoch, 1);
    assert_eq!((1.15f32 as f64).to_bits(), SCALE_X);
    assert_eq!(5.0f64.to_bits(), SCALE_Y);
}

#[test]
fn configure_while_expanded_targets_the_expanded_geometry() {
    let mut overlay = configured();
    set_hover_platform(&mut overlay, true);
    let epoch = overlay.animation_epoch;
    let target = configure(&mut overlay, 40, 10, 0, 0, 2.0f64.to_bits(), 3.0f64.to_bits());
    assert_eq!(target, Geometry::new(-20, -10, 80, 30));
    assert_eq!(overlay.metrics.current, base());
    assert_eq!(overlay.metrics.expanded, target);
    assert_eq!(overlay.metrics.base, Geometry::new(0, 0, 40, 10));
    assert_eq!(overlay.animation_epoch, epoch + 1);
    assert!(overlay.metrics.hover);
}

#[test]
fn configure_leaves_the_recorded_geometry_until_it_is_applied() {
    let mut overlay = configured();
    let on_screen = overlay.metrics.current;
    let target = configure(&mut overlay, 40, 10, 7, 8, 2.0f64.to_bits(), 3.0f64.to_bits());
    assert_eq!(target, Geometry::new(7, 8, 40, 10));
    assert_eq!(overlay.metrics.current, on_screen);
    let again = configure(&mut overlay, 40, 10, 7, 8, 2.0f64.to_bits(), 3.0f64.to_bits());
    assert_eq!(again, target);
    assert_eq!(overlay.metrics.current, on_screen);
    frame_applied(&mut overlay, again);
    assert_eq!(overlay.metrics.current, target);
}

#[test]
fn configure_never_shrinks_the_footprint() {
    let mut overlay = Overlay::new();
    configure(&mut overlay, 90, 5, 10, 10, 0.5f64.to_bits(), (-4.0f64).to_bits());
    assert_eq!(overlay.metrics.expanded, Geometry::new(10, 10, 90, 5));
    configure(&mut overlay, 90, 5, 10, 10, f64::NAN.to_bits(), 1.0f64.to_bits());
    assert_eq!(overlay.metrics.expanded, Geometry::new(10, 10, 90, 5));
    configure(&mut overlay, -8, -2, 0, 0, 2.0f64.to_bits(), 2.0f64.to_bits());
    assert_eq!(overlay.metrics.expanded.width, -8);
    assert_eq!(overlay.metrics.expanded.height, -2);
}

#[test]
fn configure_saturates_at_the_ends_of_the_range() {
    let mut overlay = Overlay::new();
    configure(&mut overlay, i32::MAX, 1, i32::MAX, i32::MIN, 4.0f64.to_bits(), 1.0e30f64.to_bits());
    assert_eq!(overlay.metrics.expanded.width, i32::MAX);
    assert_eq!(overlay.metrics.expanded.height, i32::MAX);
    assert_eq!(overlay.metrics.expanded.x, i32::MAX);
    assert_eq!(overlay.metrics.expanded.y, i32::MIN);
}

#[test]
fn hover_animates_from_base_to_expanded() {
    let mut overlay = configured();
    let answer = set_hover(&mut overlay, true);
    let animation = Animation { start: base(), target: expanded(), epoch: 2 };
    assert_eq!(
        answer,
        HoverRequest::Applied(HoverChange { changed: true, animation: Some(animation) })
    );
    assert!(overlay.metrics.hover);
    assert!(overlay.force_hover);
    let applied = run_animation(&mut overlay, &animation);
    assert_eq!(
        applied,
        vec![
            Geometry::new(99, 99, 92, 8),
            Geometry::new(99, 98, 93, 10),
            Geometry::new(98, 96, 95, 13),
            Geometry::new(97, 95, 97, 15),
            Geometry::new(96, 94, 98, 18),
            Geometry::new(96, 93, 100, 20),
            Geometry::new(95, 91, 101, 23),
            Geometry::new(94, 90, 103, 25),
            Geometry::new(94, 90, 103, 25),
        ]
    );
    assert_eq!(overlay.metrics.current, expanded());
    assert_eq!(ANIMATION_STEPS as u64 * ANIMATION_FRAME_MS, 112);
}

#[test]
fn animate_to_the_current_geometry_is_a_no_op() {
    let mut overlay = configured();
    let before = overlay;
    assert_eq!(animate_to(&mut overlay, base()), None);
    assert_eq!(overlay, before);
}

#[test]
fn a_newer_animation_supersedes_an_older_one() {
    let mut overlay = configured();
    let a = Geometry::new(0, 0, 50, 50);
    let b = Geometry::new(200, 200, 10, 10);
    let first = animate_to(&mut overlay, a).unwrap();
    let frame = animation_frame(&overlay, &first, 1).unwrap();
    frame_applied(&mut overlay, frame);
    assert_eq!(frame, Geometry::new(88, 88, 85, 11));
    let second = animate_to(&mut overlay, b).unwrap();
    assert_eq!(second.start, frame);
    assert_eq!(second.epoch, first.epoch + 1);
    assert_eq!(animation_frame(&overlay, &first, 2), None);
    assert_eq!(animation_settle(&overlay, &first), None);
    assert!(run_animation(&mut overlay, &first).is_empty());
    let applied = run_animation(&mut overlay, &second);
    assert_eq!(applied.len(), 9);
    assert_eq!(overlay.metrics.current, b);
    assert!(run_animation(&mut overlay, &first).is_empty());
    assert_eq!(overlay.metrics.current, b);
}

#[test]
fn the_epoch_wraps_around() {
    let mut overlay = configured();
    overlay.animation_epoch = u64::MAX;
    let animation = animate_to(&mut overlay, expanded()).unwrap();
    assert_eq!(animation.epoch, 0);
    assert_eq!(overlay.animation_epoch, 0);
}

#[test]
fn hover_change_is_idempotent() {
    let mut overlay = configured();
    let first = handle_hover_change(&mut overlay, true);
    assert!(first.changed);
    assert!(first.animation.is_some());
    let after = overlay;
    let second = handle_hover_change(&mut overlay, true);
    assert_eq!(second, no_change());
    assert_eq!(overlay, after);
    let mut fresh = configured();
    assert_eq!(handle_hover_change(&mut fresh, false), no_change());
}

#[test]
fn hover_change_without_movement_still_reports_the_change() {
    let mut overlay = configured();
    frame_applied(&mut overlay, expanded());
    let change = handle_hover_change(&mut overlay, true);
    assert_eq!(change, HoverChange { changed: true, animation: None });
    assert_eq!(overlay.animation_epoch, 1);
}

#[test]
fn hover_off_then_on_within_the_dwell_does_not_collapse() {
    let mut overlay = configured();
    set_hover(&mut overlay, true);
    let pending = match set_hover(&mut overlay, false) {
        HoverRequest::Deferred(pending) => pending,
        other => panic!("unexpected answer {:?}", other),
    };
    assert_eq!(pending, PendingCollapse { sequence: 2, release_force: true });
    assert!(overlay.metrics.hover);
    set_hover(&mut overlay, true);
    let before = overlay;
    assert_eq!(collapse_after_dwell(&mut overlay, pending), None);
    assert_eq!(overlay, before);
    assert!(overlay.metrics.hover);
    assert!(overlay.force_hover);
}

#[test]
fn hover_off_alone_collapses_exactly_once() {
    let mut overlay = configured();
    let animation = match set_hover(&mut overlay, true) {
        HoverRequest::Applied(change) => change.animation.unwrap(),
        other => panic!("unexpected answer {:?}", other),
    };
    run_animation(&mut overlay, &animation);
    let pending = match set_hover(&mut overlay, false) {
        HoverRequest::Deferred(pending) => pending,
        other => panic!("unexpected answer {:?}", other),
    };
    let change = collapse_after_dwell(&mut overlay, pending).unwrap();
    assert!(change.changed);
    let back = change.animation.unwrap();
    assert_eq!(back.start, expanded());
    assert_eq!(back.target, base());
    assert!(!overlay.metrics.hover);
    assert!(!overlay.force_hover);
    let after = overlay;
    assert_eq!(collapse_after_dwell(&mut overlay, pending), Some(no_change()));
    assert_eq!(overlay, after);
    let applied = run_animation(&mut overlay, &back);
    assert_eq!(
        applied,
        vec![
            Geometry::new(95, 91, 101, 23),
            Geometry::new(96, 93, 100, 20),
            Geometry::new(96, 94, 98, 18),
            Geometry::new(97, 95, 97, 15),
            Geometry::new(98, 96, 95, 13),
            Geometry::new(99, 98, 93, 10),
            Geometry::new(99, 99, 92, 8),
            Geometry::new(100, 100, 90, 5),
            Geometry::new(100, 100, 90, 5),
        ]
    );
    assert_eq!(overlay.metrics.current, base());
    assert_eq!(HOVER_DWELL_MS, 30);
}

#[test]
fn rapid_hover_sequence_stays_expanded() {
    let mut overlay = configured();
    set_hover(&mut overlay, true);
    assert!(overlay.metrics.hover);
    let pending = match set_hover(&mut overlay, false) {
        HoverRequest::Deferred(pending) => pending,
        other => panic!("unexpected answer {:?}", other),
    };
    assert!(overlay.metrics.hover);
    let again = set_hover(&mut overlay, true);
    assert_eq!(again, HoverRequest::Applied(no_change()));
    assert!(overlay.metrics.hover);
    assert_eq!(collapse_after_dwell(&mut overlay, pending), None);
    assert!(overlay.metrics.hover);
    assert_eq!(overlay.metrics.expanded, expanded());
}

#[test]
fn releasing_a_forced_hover_lets_the_pointer_decide() {
    let mut overlay = configured();
    pointer_moved(&mut overlay, 3, 2);
    assert!(overlay.last_pointer_inside);
    set_hover_platform(&mut overlay, true);
    let change = set_hover_platform(&mut overlay, false);
    assert_eq!(change, no_change());
    assert!(overlay.metrics.hover);
    assert!(!overlay.force_hover);

    let mut away = configured();
    set_hover_platform(&mut away, true);
    let change = set_hover_platform(&mut away, false);
    assert!(change.changed);
    assert!(!away.metrics.hover);
}

#[test]
fn pointer_inside_expands_and_asks_for_leave_tracking() {
    let mut overlay = configured();
    let outcome = pointer_moved(&mut overlay, 10, 2);
    assert!(outcome.track_leave);
    assert!(outcome.change.changed);
    assert_eq!(outcome.change.animation.unwrap().target, expanded());
    assert_eq!(outcome.pending, None);
    assert!(overlay.metrics.hover);
    assert!(overlay.last_pointer_inside);
    assert_eq!(overlay.hover_dwell_seq, 1);
    let again = pointer_moved(&mut overlay, 11, 2);
    assert!(again.track_leave);
    assert_eq!(again.change, no_change());
    assert_eq!(overlay.hover_dwell_seq, 2);
}

#[test]
fn pointer_leaving_schedules_a_collapse() {
    let mut overlay = configured();
    pointer_moved(&mut overlay, 10, 2);
    let outcome = pointer_left(&mut overlay);
    assert!(!outcome.track_leave);
    assert_eq!(outcome.change, no_change());
    let pending = outcome.pending.unwrap();
    assert_eq!(pending, PendingCollapse { sequence: 2, release_force: false });
    assert!(overlay.metrics.hover);
    assert!(!overlay.last_pointer_inside);
    let change = collapse_after_dwell(&mut overlay, pending).unwrap();
    assert!(change.changed);
    assert!(!overlay.metrics.hover);
    assert_eq!(collapse_after_dwell(&mut overlay, pending), Some(no_change()));
}

#[test]
fn pointer_returning_cancels_the_collapse() {
    let mut overlay = configured();
    pointer_moved(&mut overlay, 10, 2);
    let pending = pointer_left(&mut overlay).pending.unwrap();
    pointer_moved(&mut overlay, 10, 2);
    assert_eq!(collapse_after_dwell(&mut overlay, pending), None);
    assert!(overlay.metrics.hover);
}

#[test]
fn pointer_outside_counts_as_leaving() {
    let mut overlay = configured();
    pointer_moved(&mut overlay, 10, 2);
    let outcome = pointer_moved(&mut overlay, 90, 2);
    assert!(!outcome.track_leave);
    assert!(outcome.pending.is_some());
    assert!(!overlay.last_pointer_inside);
    let mut collapsed = configured();
    let outcome = pointer_moved(&mut collapsed, -1, 0);
    assert_eq!(outcome.pending, None);
    assert_eq!(collapsed.hover_dwell_seq, 0);
}

#[test]
fn a_forced_hover_ignores_the_pointer() {
    let mut overlay = configured();
    set_hover(&mut overlay, true);
    let seq = overlay.hover_dwell_seq;
    let outcome = pointer_left(&mut overlay);
    assert_eq!(outcome.pending, None);
    assert!(overlay.metrics.hover);
    let outcome = pointer_moved(&mut overlay, 1, 1);
    assert!(outcome.track_leave);
    assert_eq!(outcome.change, no_change());
    assert!(overlay.last_pointer_inside);
    assert_eq!(overlay.hover_dwell_seq, seq);
}

#[test]
fn a_pointer_collapse_spares_a_hover_forced_meanwhile() {
    let mut overlay = configured();
    pointer_moved(&mut overlay, 10, 2);
    let pending = pointer_left(&mut overlay).pending.unwrap();
    set_hover_platform(&mut overlay, true);
    assert_eq!(collapse_after_dwell(&mut overlay, pending), Some(no_change()));
    assert!(overlay.metrics.hover);
    assert!(overlay.force_hover);
}

#[test]
fn pointer_inside_uses_the_current_geometry() {
    let overlay = configured();
    assert!(pointer_inside_current(&overlay, 0, 0));
    assert!(pointer_inside_current(&overlay, 89, 4));
    assert!(!pointer_inside_current(&overlay, 90, 4));
    assert!(!pointer_inside_current(&overlay, 89, 5));
    assert!(!pointer_inside_current(&overlay, -1, 0));
    assert!(!pointer_inside_current(&overlay, 0, -1));
    let empty = Overlay::new();
    assert!(pointer_inside_current(&empty, 0, 0));
    assert!(!pointer_inside_current(&empty, 1, 0));
}

#[test]
fn mouse_coordinates_are_signed_halves() {
    assert_eq!(decode_mouse_coords(0), (0, 0));
    assert_eq!(decode_mouse_coords(0x0005_000a), (10, 5));
    assert_eq!(decode_mouse_coords(0xffff_fffe), (-2, -1));
    assert_eq!(decode_mouse_coords(0x8000_7fff), (32767, -32768));
    assert_eq!(decode_mouse_coords(0x7fff_8000), (-32768, 32767));
}

#[test]
fn level_is_clamped_and_ticks() {
    let mut overlay = configured();
    set_level_platform(&mut overlay, 420);
    assert_eq!(overlay.level_millis, 420);
    assert_eq!(overlay.level_tick, 1);
    set_level_platform(&mut overlay, 5000);
    assert_eq!(overlay.level_millis, 1000);
    assert_eq!(overlay.level_tick, 2);
    set_level(&mut overlay, 0.5f64.to_bits());
    assert_eq!(overlay.level_millis, 500);
    assert_eq!(overlay.level_tick, 3);
    set_level(&mut overlay, (-1.0f64).to_bits());
    assert_eq!(overlay.level_millis, 0);
    set_level(&mut overlay, 7.0f64.to_bits());
    assert_eq!(overlay.level_millis, 1000);
    set_level(&mut overlay, (0.8f32 as f64).to_bits());
    assert_eq!(overlay.level_millis, 800);
    overlay.level_tick = u64::MAX;
    set_level_platform(&mut overlay, 1);
    assert_eq!(overlay.level_tick, 0);
}

#[test]
fn show_only_marks_the_overlay_visible() {
    let mut overlay = configured();
    let mut expected = overlay;
    expected.visible = true;
    show(&mut overlay);
    assert_eq!(overlay, expected);
}

#[test]
fn hide_resets_to_a_clean_collapsed_state() {
    let mut overlay = configured();
    show(&mut overlay);
    pointer_moved(&mut overlay, 1, 1);
    let animation = match set_hover(&mut overlay, true) {
        HoverRequest::Applied(change) => change.animation,
        other => panic!("unexpected answer {:?}", other),
    };
    assert_eq!(animation, None);
    let running = animate_to(&mut overlay, Geometry::new(1, 2, 3, 4)).unwrap();
    let epoch = overlay.animation_epoch;
    let on_screen = overlay.metrics.current;
    let target = hide_overlay(&mut overlay);
    assert_eq!(target, base());
    assert!(!overlay.visible);
    assert!(!overlay.metrics.hover);
    assert!(!overlay.force_hover);
    assert!(!overlay.last_pointer_inside);
    assert_eq!(overlay.metrics.current, on_screen);
    frame_applied(&mut overlay, target);
    assert_eq!(overlay.metrics.current, base());
    assert_eq!(overlay.animation_epoch, epoch + 1);
    assert_eq!(animation_frame(&overlay, &running, 1), None);
    assert_eq!(animation_settle(&overlay, &running), None);
}

#[test]
fn placement_is_at_least_one_pixel() {
    assert_eq!(
        apply_geometry(Geometry::new(5, 6, 0, -3)),
        Placement { x: 5, y: 6, width: 1, height: 1, corner_diameter: 6 }
    );
    assert_eq!(
        apply_geometry(Geometry::new(-5, 6, 90, 5)),
        Placement { x: -5, y: 6, width: 90, height: 5, corner_diameter: 6 }
    );
}

#[test]
fn the_window_owner_keeps_one_window() {
    let mut owner = WindowOwner::new();
    assert_eq!(ensure_window(&owner, false), WindowPlan::Create);
    assert_eq!(ensure_window(&owner, true), WindowPlan::Create);
    window_created(&mut owner, 0x1234);
    assert_eq!(ensure_window(&owner, true), WindowPlan::Reuse(0x1234));
    assert_eq!(ensure_window(&owner, false), WindowPlan::Create);
    window_created(&mut owner, 0x5678);
    assert_eq!(ensure_window(&owner, true), WindowPlan::Reuse(0x5678));
    window_destroyed(&mut owner);
    assert_eq!(ensure_window(&owner, true), WindowPlan::Create);
}
