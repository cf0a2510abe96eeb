//! Events of the speech engine and what they do to the overlay.
//!
//! The engine writes one JSON object per line. An object of type `overlay`
//! with a boolean `hover` is a hover signal, one of type `overlay_level` with
//! a number `level` carries the level to show, one of type `transcript` with
//! a string `text` carries recognised text. Every other line is log output.

use crate::binary64::clamp_i32;
use crate::geometry::Geometry;
use crate::native_overlay::{configure, expanded_geometry, hide_overlay, set_hover, set_level, show, HoverRequest, Overlay};
use vstd::prelude::*;

verus! {

/// Width of the overlay at rest, in pixels.
pub const OVERLAY_WIDTH_PX: i32 = 90;

/// Height of the overlay at rest, in pixels.
pub const OVERLAY_HEIGHT_PX: i32 = 5;

/// Distance of the overlay from the top edge of the monitor, in pixels.
pub const OVERLAY_VERTICAL_MARGIN_PX: i32 = 16;

/// Horizontal growth on hover: the bits of the double nearest to 1.15 in
/// single precision.
pub const OVERLAY_HOVER_SCALE_X_BITS: u64 = 0x3ff2_6666_6000_0000;

/// Vertical growth on hover: the bits of the double 5.0.
pub const OVERLAY_HOVER_SCALE_Y_BITS: u64 = 0x4014_0000_0000_0000;

/// Where the primary monitor is and how wide it is.
#[derive(Clone, Copy, Debug, PartialEq, Eq, Structural)]
pub struct Monitor {
    pub x: i32,
    pub y: i32,
    pub width: u32,
}

/// What a change of visibility asks the window for.
#[derive(Clone, Copy, Debug, PartialEq, Eq)]
pub enum VisibilityChange {
    /// The overlay is as visible as asked already.
    Unchanged,
    /// Apply the geometry, then show the window.
    Shown(Geometry),
    /// Apply the geometry, then hide the window.
    Hidden(Geometry),
}

/// The fields of an engine line that the router looks at, each empty if the
/// line is no JSON object, the field is missing, or it has another type.
#[derive(Clone, Debug, PartialEq, Eq)]
pub struct EventFields {
    pub kind: Option<String>,
    pub hover: Option<bool>,
    /// The level, as the bits of a double.
    pub level_bits: Option<u64>,
    pub text: Option<String>,
}

/// One line of the engine, understood.
#[derive(Clone, Debug, PartialEq, Eq)]
pub enum EngineEvent {
    Hover(bool),
    /// A level, as the bits of a double.
    Level(u64),
    Transcript(String),
    /// Anything else: the line is passed on as log output.
    Log,
}

/// An engine event over mathematical text.
pub enum EventModel {
    Hover(bool),
    Level(u64),
    Transcript(Seq<char>),
    Log,
}

impl View for EngineEvent {
    type V = EventModel;

    open spec fn view(&self) -> EventModel {
        match *self {
            EngineEvent::Hover(active) => EventModel::Hover(active),
            EngineEvent::Level(bits) => EventModel::Level(bits),
            EngineEvent::Transcript(text) => EventModel::Transcript(text@),
            EngineEvent::Log => EventModel::Log,
        }
    }
}

/// What the router asks its caller to do after an event.
#[derive(Clone, Debug, PartialEq, Eq)]
pub enum RouterAction {
    /// A hover-on signal found the overlay hidden. It was placed and marked
    /// visible, and nothing else was done: apply the geometry, report what
    /// the window took, show the window, and route the signal again.
    Show(Geometry),
    /// A hover signal was taken: run the animation of an applied request, or
    /// fire the collapse of a deferred one after the dwell time.
    Hover(HoverRequest),
    /// A level was stored: paint the window again.
    Repaint,
    /// Pass the text on as a transcript.
    EmitTranscript(String),
    /// Pass the line on as log output.
    EmitLog,
}

/// The text of a string field of the JSON object on a line: empty if the
/// line does not parse, is no object, has no such key, or holds something
/// other than a string under it.
pub uninterp spec fn json_text_field(line: Seq<char>, key: Seq<char>) -> Option<Seq<char>>;

/// The value of a boolean field of the JSON object on a line, empty in the
/// same cases.
pub uninterp spec fn json_bool_field(line: Seq<char>, key: Seq<char>) -> Option<bool>;

/// The bits of the double that a number field of the JSON object on a line
/// converts to, empty in the same cases.
pub uninterp spec fn json_number_field(line: Seq<char>, key: Seq<char>) -> Option<u64>;

/// The view of an optional text.
pub open spec fn text_view(text: Option<String>) -> Option<Seq<char>> {
    match text {
        Some(t) => Some(t@),
        None => None,
    }
}

/// Reads the four fields out of a line with `serde_json`: `from_str` parses
/// the line into a `Value`, `Value::get` looks each key up, and `as_str`,
/// `as_bool` and `as_f64` take the value out if it has the type. The contract
/// only gives each field's outcome its name; it claims nothing about what a
/// given line holds.
#[verifier::external_body]
fn read_event_fields(line: &str) -> (fields: EventFields)
    ensures
        text_view(fields.kind) == json_text_field(line@, "type"@),
        fields.hover == json_bool_field(line@, "hover"@),
        fields.level_bits == json_number_field(line@, "level"@),
        text_view(fields.text) == json_text_field(line@, "text"@),
{
    let value: serde_json::Value = match serde_json::from_str(line) {
        Ok(v) => v,
        Err(_) => return EventFields { kind: None, hover: None, level_bits: None, text: None },
    };
    EventFields {
        kind: value.get("type").and_then(|v| v.as_str()).map(|s| s.to_string()),
        hover: value.get("hover").and_then(|v| v.as_bool()),
        level_bits: value.get("level").and_then(|v| v.as_f64()).map(|x| x.to_bits()),
        text: value.get("text").and_then(|v| v.as_str()).map(|s| s.to_string()),
    }
}

/// The event that a line with the given fields stands for.
pub open spec fn classified(
    kind: Option<Seq<char>>,
    hover: Option<bool>,
    level_bits: Option<u64>,
    text: Option<Seq<char>>,
) -> EventModel {
    if kind == Some("overlay"@) && hover is Some {
        EventModel::Hover(hover->Some_0)
    } else if kind == Some("overlay_level"@) && level_bits is Some {
        EventModel::Level(level_bits->Some_0)
    } else if kind == Some("transcript"@) && text is Some {
        EventModel::Transcript(text->Some_0)
    } else {
        EventModel::Log
    }
}

/// Tells the event from the fields of a line. A line whose type is known but
/// whose payload is missing counts as log output.
pub fn classify_event(fields: EventFields) -> (event: EngineEvent)
    ensures
        event@ == classified(
            text_view(fields.kind),
            fields.hover,
            fields.level_bits,
            text_view(fields.text),
        ),
{
    proof {
        reveal_strlit("overlay");
        reveal_strlit("overlay_level");
        reveal_strlit("transcript");
        assert("overlay"@.len() == 7);
        assert("overlay_level"@.len() == 13);
        assert("transcript"@.len() == 10);
    }
    let kind: String = match fields.kind {
        Some(k) => k,
        None => {
            return EngineEvent::Log;
        },
    };
    if kind == "overlay".to_owned() {
        match fields.hover {
            Some(active) => EngineEvent::Hover(active),
            None => EngineEvent::Log,
        }
    } else if kind == "overlay_level".to_owned() {
        match fields.level_bits {
            Some(bits) => EngineEvent::Level(bits),
            None => EngineEvent::Log,
        }
    } else if kind == "transcript".to_owned() {
        match fields.text {
            Some(text) => EngineEvent::Transcript(text),
            None => EngineEvent::Log,
        }
    } else {
        EngineEvent::Log
    }
}

/// Understands one line of the engine.
pub fn decode_event(line: &str) -> (event: EngineEvent)
    ensures
        event@ == classified(
            json_text_field(line@, "type"@),
            json_bool_field(line@, "hover"@),
            json_number_field(line@, "level"@),
            json_text_field(line@, "text"@),
        ),
{
    classify_event(read_event_fields(line))
}

/// The top left corner of the overlay at rest: centred in the width of the
/// monitor, but never left of its left edge, and a fixed margin below its top
/// edge. Without a monitor the overlay stands at the left edge of the screen.
pub open spec fn overlay_origin_of(monitor: Option<Monitor>) -> (int, int) {
    match monitor {
        Some(m) => (
            clamp_i32(
                m.x + if m.width > 90 {
                    (m.width - 90) / 2
                } else {
                    0
                },
            ),
            clamp_i32(m.y + 16),
        ),
        None => (0, 16),
    }
}

pub fn overlay_origin(monitor: Option<Monitor>) -> (origin: (i32, i32))
    ensures
        origin.0 == overlay_origin_of(monitor).0,
        origin.1 == overlay_origin_of(monitor).1,
{
    match monitor {
        Some(m) => {
            let inset: u32 = if m.width > 90 { (m.width - 90) / 2 } else { 0 };
            let x: i64 = m.x as i64 + inset as i64;
            let y: i64 = m.y as i64 + OVERLAY_VERTICAL_MARGIN_PX as i64;
            (
                if x > i32::MAX as i64 { i32::MAX } else { x as i32 },
                if y > i32::MAX as i64 { i32::MAX } else { y as i32 },
            )
        },
        None => (0, OVERLAY_VERTICAL_MARGIN_PX),
    }
}

/// The base geometry of the overlay on a monitor.
pub open spec fn overlay_base_of(monitor: Option<Monitor>) -> Geometry {
    Geometry {
        x: overlay_origin_of(monitor).0 as i32,
        y: overlay_origin_of(monitor).1 as i32,
        width: 90,
        height: 5,
    }
}

/// The overlay after it was placed on a monitor.
pub open spec fn after_configure_overlay(overlay: Overlay, monitor: Option<Monitor>) -> Overlay {
    overlay.after_configure(
        overlay_base_of(monitor),
        expanded_geometry(
            overlay_base_of(monitor),
            OVERLAY_HOVER_SCALE_X_BITS,
            OVERLAY_HOVER_SCALE_Y_BITS,
        ),
    )
}

/// Places the overlay on the monitor, with its fixed size and growth, and
/// returns the geometry to apply. What the window took is to be reported with
/// `frame_applied`.
pub fn configure_overlay(overlay: &mut Overlay, monitor: Option<Monitor>) -> (target: Geometry)
    ensures
        *final(overlay) == after_configure_overlay(*old(overlay), monitor),
        target == final(overlay).resting_target(),
        old(overlay).wf() ==> final(overlay).wf(),
{
    let origin: (i32, i32) = overlay_origin(monitor);
    configure(
        overlay,
        OVERLAY_WIDTH_PX,
        OVERLAY_HEIGHT_PX,
        origin.0,
        origin.1,
        OVERLAY_HOVER_SCALE_X_BITS,
        OVERLAY_HOVER_SCALE_Y_BITS,
    )
}

/// The overlay after its visibility was asked to be `visible`.
pub open spec fn after_visibility(overlay: Overlay, visible: bool, monitor: Option<Monitor>) -> Overlay {
    if overlay.visible == visible {
        overlay
    } else if visible {
        Overlay { visible: true, ..after_configure_overlay(overlay, monitor) }
    } else {
        overlay.after_hide()
    }
}

/// What a request for the visibility `visible` asks the window for.
pub open spec fn visibility_change(overlay: Overlay, visible: bool, monitor: Option<Monitor>) -> VisibilityChange {
    if overlay.visible == visible {
        VisibilityChange::Unchanged
    } else if visible {
        VisibilityChange::Shown(after_configure_overlay(overlay, monitor).resting_target())
    } else {
        VisibilityChange::Hidden(overlay.metrics.base)
    }
}

/// Shows or hides the overlay. Asking for what holds already does nothing.
/// Showing places the overlay on the monitor first; hiding resets it to a
/// clean collapsed state. Either way the answer carries the geometry to
/// apply to the window, and what the window took is to be reported with
/// `frame_applied`.
pub fn set_overlay_visibility(overlay: &mut Overlay, visible: bool, monitor: Option<Monitor>) -> (change:
    VisibilityChange)
    ensures
        *final(overlay) == after_visibility(*old(overlay), visible, monitor),
        change == visibility_change(*old(overlay), visible, monitor),
        final(overlay).visible == visible,
        old(overlay).wf() ==> final(overlay).wf(),
{
    if overlay.visible == visible {
        return VisibilityChange::Unchanged;
    }
    if visible {
        let target: Geometry = configure_overlay(overlay, monitor);
        show(overlay);
        VisibilityChange::Shown(target)
    } else {
        let target: Geometry = hide_overlay(overlay);
        VisibilityChange::Hidden(target)
    }
}

/// The overlay after an event was routed.
pub open spec fn after_route(overlay: Overlay, event: EventModel, monitor: Option<Monitor>) -> Overlay {
    match event {
        EventModel::Hover(active) => if active && !overlay.visible {
            after_visibility(overlay, true, monitor)
        } else {
            overlay.after_set_hover(active)
        },
        EventModel::Level(bits) => overlay.after_set_level(
            crate::binary64::level_millis(bits) as u32,
        ),
        EventModel::Transcript(_) => overlay,
        EventModel::Log => overlay,
    }
}

/// Applies an engine event to the overlay and says what is left to do.
///
/// A hover-on signal expands a visible overlay at once. A hidden overlay is
/// made visible first, and the signal is to be routed again once the window
/// is in place, so that the expansion starts from where the window really
/// is. A hover-off signal only schedules the collapse. A level is stored.
/// Text and log lines leave the overlay alone and are handed back to be
/// passed on.
pub fn route_event(overlay: &mut Overlay, event: EngineEvent, monitor: Option<Monitor>) -> (action:
    RouterAction)
    ensures
        *final(overlay) == after_route(*old(overlay), event@, monitor),
        match event {
            EngineEvent::Hover(active) => if active && !old(overlay).visible {
                action == RouterAction::Show(
                    after_configure_overlay(*old(overlay), monitor).resting_target(),
                )
            } else {
                action == RouterAction::Hover(old(overlay).set_hover_answer(active))
            },
            EngineEvent::Level(_) => action == RouterAction::Repaint,
            EngineEvent::Transcript(text) => action == RouterAction::EmitTranscript(text),
            EngineEvent::Log => action == RouterAction::EmitLog,
        },
        old(overlay).wf() ==> final(overlay).wf(),
{
    match event {
        EngineEvent::Hover(active) => {
            if active && !overlay.visible {
                let target: Geometry = configure_overlay(overlay, monitor);
                show(overlay);
                RouterAction::Show(target)
            } else {
                RouterAction::Hover(set_hover(overlay, active))
            }
        },
        EngineEvent::Level(bits) => {
            set_level(overlay, bits);
            RouterAction::Repaint
        },
        EngineEvent::Transcript(text) => RouterAction::EmitTranscript(text),
        EngineEvent::Log => RouterAction::EmitLog,
    }
}

/// A hover-on signal that found the overlay hidden expands it when it is
/// routed again, and the expansion starts from the geometry that was
/// reported as applied in between.
pub proof fn lemma_hover_on_shows_then_expands(
    overlay: Overlay,
    monitor: Option<Monitor>,
    applied: Geometry,
)
    requires
        !overlay.visible,
        !overlay.metrics.hover,
    ensures
        ({
            let shown = after_route(overlay, EventModel::Hover(true), monitor);
            let placed = crate::native_overlay::with_current(shown, applied);
            let expanded = after_route(placed, EventModel::Hover(true), monitor);
            &&& shown.visible
            &&& !shown.metrics.hover
            &&& shown.metrics.current == overlay.metrics.current
            &&& expanded == placed.after_set_hover(true)
            &&& expanded.metrics.hover
            &&& placed.set_hover_answer(true) matches HoverRequest::Applied(change)
            &&& change.changed
            &&& change.animation matches Some(animation) ==> animation.start == applied
                && animation.target == shown.metrics.expanded
        }),
{
}

} // verus!
