use voice_overlay::engine_events::{
    classify_event, configure_overlay, decode_event, overlay_origin, route_event,
    set_overlay_visibility, EngineEvent, EventFields, Monitor, RouterAction, VisibilityChange,
    OVERLAY_HEIGHT_PX, OVERLAY_HOVER_SCALE_X_BITS, OVERLAY_HOVER_SCALE_Y_BITS, OVERLAY_WIDTH_PX,
};
use voice_overlay::geometry::Geometry;
use voice_overlay::native_overlay::{
    collapse_after_dwell, frame_applied, HoverChange, HoverRequest, Overlay, PendingCollapse,
};

fn monitor() -> Option<Monitor> {
    Some(Monitor { x: 0, y: 0, width: 1920 })
}

fn shown() -> Overlay {
    let mut overlay = Overlay::new();
    match route_event(&mut overlay, EngineEvent::Hover(true), monitor()) {
        RouterAction::Show(target) => frame_applied(&mut overlay, target),
        other => panic!("unexpected action {:?}", other),
    }
    overlay
}

#[test]
fn hover_lines_are_hover_events() {
    assert_eq!(decode_event(r#"{"type":"overlay","hover":true}"#), EngineEvent::Hover(true));
    assert_eq!(decode_event(r#"{"type":"overlay","hover":false}"#), EngineEvent::Hover(false));
    assert_eq!(
        decode_event(r#" { "hover" : true , "extra" : [1, 2] , "type" : "overlay" } "#),
        EngineEvent::Hover(true)
    );
}

#[test]
fn level_lines_carry_the_bits_of_the_number() {
    assert_eq!(
        decode_event(r#"{"type":"overlay_level","level":0.5}"#),
        EngineEvent::Level(0.5f64.to_bits())
    );
    assert_eq!(
        decode_event(r#"{"type":"overlay_level","level":1}"#),
        EngineEvent::Level(1.0f64.to_bits())
    );
    assert_eq!(
        decode_event(r#"{"type":"overlay_level","level":-3}"#),
        EngineEvent::Level((-3.0f64).to_bits())
    );
    assert_eq!(
        decode_event(r#"{"type":"overlay_level","level":0.37}"#),
        EngineEvent::Level(0x3fd7_ae14_7ae1_47ae)
    );
}

#[test]
fn transcript_lines_carry_the_text() {
    assert_eq!(
        decode_event(r#"{"type":"transcript","text":"hello \"world\"\n"}"#),
        EngineEvent::Transcript("hello \"world\"\n".to_string())
    );
    assert_eq!(
        decode_event(r#"{"type":"transcript","text":""}"#),
        EngineEvent::Transcript(String::new())
    );
}

#[test]
fn everything_else_is_log_output() {
    assert_eq!(decode_event("loading model"), EngineEvent::Log);
    assert_eq!(decode_event(""), EngineEvent::Log);
    assert_eq!(decode_event(r#"{"type":"overlay","hover":true"#), EngineEvent::Log);
    assert_eq!(decode_event(r#"{"type":"overlay"}"#), EngineEvent::Log);
    assert_eq!(decode_event(r#"{"type":"overlay","hover":"yes"}"#), EngineEvent::Log);
    assert_eq!(decode_event(r#"{"type":"overlay","hover":1}"#), EngineEvent::Log);
    assert_eq!(decode_event(r#"{"type":"overlay_level","level":"0.5"}"#), EngineEvent::Log);
    assert_eq!(decode_event(r#"{"type":"overlay_level","hover":true}"#), EngineEvent::Log);
    assert_eq!(decode_event(r#"{"type":"transcript","text":5}"#), EngineEvent::Log);
    assert_eq!(decode_event(r#"{"type":"status","text":"x"}"#), EngineEvent::Log);
    assert_eq!(decode_event(r#"{"type":7,"hover":true}"#), EngineEvent::Log);
    assert_eq!(decode_event(r#"{"hover":true}"#), EngineEvent::Log);
    assert_eq!(decode_event(r#"["overlay", true]"#), EngineEvent::Log);
    assert_eq!(decode_event(r#""overlay""#), EngineEvent::Log);
    assert_eq!(decode_event(r#"{"type":"Overlay","hover":true}"#), EngineEvent::Log);
}

#[test]
fn classification_looks_at_the_type_first() {
    let fields = EventFields {
        kind: Some("overlay".to_string()),
        hover: Some(true),
        level_bits: Some(0),
        text: Some("t".to_string()),
    };
    assert_eq!(classify_event(fields.clone()), EngineEvent::Hover(true));
    let level = EventFields { kind: Some("overlay_level".to_string()), ..fields.clone() };
    assert_eq!(classify_event(level), EngineEvent::Level(0));
    let text = EventFields { kind: Some("transcript".to_string()), ..fields.clone() };
    assert_eq!(classify_event(text), EngineEvent::Transcript("t".to_string()));
    let none = EventFields { kind: None, ..fields.clone() };
    assert_eq!(classify_event(none), EngineEvent::Log);
    let other = EventFields { kind: Some("overlay ".to_string()), ..fields };
    assert_eq!(classify_event(other), EngineEvent::Log);
}

#[test]
fn the_overlay_is_centred_at_the_top_of_the_monitor() {
    assert_eq!(overlay_origin(monitor()), (915, 16));
    assert_eq!(overlay_origin(Some(Monitor { x: -1920, y: 40, width: 1921 })), (-1005, 56));
    assert_eq!(overlay_origin(Some(Monitor { x: 10, y: 0, width: 91 })), (10, 16));
    assert_eq!(overlay_origin(Some(Monitor { x: 10, y: 0, width: 92 })), (11, 16));
    assert_eq!(overlay_origin(None), (0, 16));
}

#[test]
fn a_narrow_monitor_keeps_the_overlay_at_its_left_edge() {
    assert_eq!(overlay_origin(Some(Monitor { x: 300, y: -8, width: 50 })), (300, 8));
    assert_eq!(overlay_origin(Some(Monitor { x: 300, y: 0, width: 0 })), (300, 16));
    assert_eq!(overlay_origin(Some(Monitor { x: 300, y: 0, width: 90 })), (300, 16));
}

#[test]
fn the_origin_saturates() {
    assert_eq!(
        overlay_origin(Some(Monitor { x: i32::MAX, y: i32::MAX, width: u32::MAX })),
        (i32::MAX, i32::MAX)
    );
}

#[test]
fn configure_overlay_uses_the_fixed_size_and_growth() {
    let mut overlay = Overlay::new();
    let target = configure_overlay(&mut overlay, monitor());
    assert_eq!(target, Geometry::new(915, 16, OVERLAY_WIDTH_PX, OVERLAY_HEIGHT_PX));
    assert_eq!(overlay.metrics.base, Geometry::new(915, 16, 90, 5));
    assert_eq!(overlay.metrics.expanded, Geometry::new(909, 6, 103, 25));
    assert_eq!(overlay.metrics.current, Geometry::new(0, 0, 0, 0));
    assert_eq!(OVERLAY_HOVER_SCALE_X_BITS, (1.15f32 as f64).to_bits());
    assert_eq!(OVERLAY_HOVER_SCALE_Y_BITS, 5.0f64.to_bits());
}

#[test]
fn visibility_changes_only_when_asked_for_something_new() {
    let mut overlay = Overlay::new();
    assert_eq!(set_overlay_visibility(&mut overlay, false, monitor()), VisibilityChange::Unchanged);
    assert_eq!(overlay, Overlay::new());
    assert_eq!(
        set_overlay_visibility(&mut overlay, true, monitor()),
        VisibilityChange::Shown(Geometry::new(915, 16, 90, 5))
    );
    assert!(overlay.visible);
    assert_eq!(overlay.metrics.current, Geometry::new(0, 0, 0, 0));
    frame_applied(&mut overlay, Geometry::new(915, 16, 90, 5));
    let shown = overlay;
    assert_eq!(set_overlay_visibility(&mut overlay, true, None), VisibilityChange::Unchanged);
    assert_eq!(overlay, shown);
    assert_eq!(
        set_overlay_visibility(&mut overlay, false, monitor()),
        VisibilityChange::Hidden(Geometry::new(915, 16, 90, 5))
    );
    assert!(!overlay.visible);
    assert_eq!(overlay.animation_epoch, shown.animation_epoch + 1);
}

#[test]
fn hiding_an_expanded_overlay_sends_the_window_back_to_base() {
    let mut overlay = shown();
    let request = route_event(&mut overlay, EngineEvent::Hover(true), monitor());
    let animation = match request {
        RouterAction::Hover(HoverRequest::Applied(change)) => change.animation.unwrap(),
        other => panic!("unexpected action {:?}", other),
    };
    frame_applied(&mut overlay, animation.target);
    let change = set_overlay_visibility(&mut overlay, false, monitor());
    assert_eq!(change, VisibilityChange::Hidden(Geometry::new(915, 16, 90, 5)));
    assert_eq!(overlay.metrics.current, Geometry::new(909, 6, 103, 25));
    assert!(!overlay.metrics.hover);
    frame_applied(&mut overlay, Geometry::new(915, 16, 90, 5));
    assert_eq!(overlay.metrics.current, overlay.metrics.base);
}

#[test]
fn a_hover_on_event_shows_a_hidden_overlay_first() {
    let mut overlay = Overlay::new();
    let action = route_event(&mut overlay, EngineEvent::Hover(true), monitor());
    assert_eq!(action, RouterAction::Show(Geometry::new(915, 16, 90, 5)));
    assert!(overlay.visible);
    assert!(!overlay.metrics.hover);
    assert!(!overlay.force_hover);
    assert_eq!(overlay.hover_dwell_seq, 0);
    frame_applied(&mut overlay, Geometry::new(915, 16, 90, 5));

    let action = route_event(&mut overlay, EngineEvent::Hover(true), monitor());
    match action {
        RouterAction::Hover(HoverRequest::Applied(change)) => {
            assert!(change.changed);
            let animation = change.animation.unwrap();
            assert_eq!(animation.start, Geometry::new(915, 16, 90, 5));
            assert_eq!(animation.target, Geometry::new(909, 6, 103, 25));
        }
        other => panic!("unexpected action {:?}", other),
    }
    assert!(overlay.visible);
    assert!(overlay.metrics.hover);
    assert!(overlay.force_hover);
    assert_eq!(overlay.hover_dwell_seq, 1);
}

#[test]
fn a_hover_off_event_is_deferred() {
    let mut overlay = shown();
    route_event(&mut overlay, EngineEvent::Hover(true), monitor());
    let before = overlay;
    let action = route_event(&mut overlay, EngineEvent::Hover(false), monitor());
    let pending = PendingCollapse { sequence: 2, release_force: true };
    assert_eq!(action, RouterAction::Hover(HoverRequest::Deferred(pending)));
    assert!(overlay.metrics.hover);
    assert_eq!(overlay.hover_dwell_seq, before.hover_dwell_seq + 1);
    let change = collapse_after_dwell(&mut overlay, pending).unwrap();
    assert!(change.changed);
    assert!(!overlay.metrics.hover);
}

#[test]
fn a_hover_off_event_does_not_show_a_hidden_overlay() {
    let mut overlay = Overlay::new();
    let action = route_event(&mut overlay, EngineEvent::Hover(false), monitor());
    assert_eq!(
        action,
        RouterAction::Hover(HoverRequest::Deferred(PendingCollapse {
            sequence: 1,
            release_force: true
        }))
    );
    assert!(!overlay.visible);
}

#[test]
fn rapid_hover_events_leave_the_overlay_expanded() {
    let mut overlay = shown();
    route_event(&mut overlay, decode_event(r#"{"type":"overlay","hover":true}"#), monitor());
    let middle = route_event(&mut overlay, decode_event(r#"{"type":"overlay","hover":false}"#), monitor());
    let last = route_event(&mut overlay, decode_event(r#"{"type":"overlay","hover":true}"#), monitor());
    assert_eq!(
        last,
        RouterAction::Hover(HoverRequest::Applied(HoverChange { changed: false, animation: None }))
    );
    let pending = match middle {
        RouterAction::Hover(HoverRequest::Deferred(pending)) => pending,
        other => panic!("unexpected action {:?}", other),
    };
    assert_eq!(collapse_after_dwell(&mut overlay, pending), None);
    assert!(overlay.metrics.hover);
}

#[test]
fn a_level_event_is_stored_and_asks_for_a_repaint() {
    let mut overlay = Overlay::new();
    let event = decode_event(r#"{"type":"overlay_level","level":0.42}"#);
    assert_eq!(route_event(&mut overlay, event, None), RouterAction::Repaint);
    assert_eq!(overlay.level_millis, 420);
    assert_eq!(overlay.level_tick, 1);
    let event = decode_event(r#"{"type":"overlay_level","level":12}"#);
    assert_eq!(route_event(&mut overlay, event, None), RouterAction::Repaint);
    assert_eq!(overlay.level_millis, 1000);
    assert_eq!(overlay.level_tick, 2);
}

#[test]
fn text_and_log_lines_leave_the_overlay_alone() {
    let mut overlay = Overlay::new();
    let event = decode_event(r#"{"type":"transcript","text":"so it goes"}"#);
    assert_eq!(
        route_event(&mut overlay, event, None),
        RouterAction::EmitTranscript("so it goes".to_string())
    );
    assert_eq!(route_event(&mut overlay, decode_event("warming up"), None), RouterAction::EmitLog);
    assert_eq!(overlay, Overlay::new());
}
