//! The overlay window's state and its transitions.
//!
//! The overlay is a small always-on-top window that is collapsed to a thin
//! line at rest and expands while hovered. Nothing here touches a window:
//! each transition updates an [`Overlay`] value and returns what has to be
//! done to the live window, and the caller reports back what it applied.

use crate::binary64::{clamp_i32, level_millis, level_millis_from_bits, scale_length, scaled, LEVEL_FULL};
use crate::geometry::{round_div, round_div_i64, Geometry};
use vstd::prelude::*;

verus! {

/// Number of frames of one geometry animation.
pub const ANIMATION_STEPS: u32 = 8;

/// Pause after each animation frame, in milliseconds.
pub const ANIMATION_FRAME_MS: u64 = 14;

/// Delay between a hover-off signal and the collapse it asks for, in
/// milliseconds.
pub const HOVER_DWELL_MS: u64 = 30;

/// Radius of the window's rounded corners, in pixels.
pub const CORNER_RADIUS: i32 = 3;

/// The successor of a counter that wraps around at the end of its range.
pub open spec fn next_count(c: u64) -> u64 {
    if c == u64::MAX {
        0
    } else {
        (c + 1) as u64
    }
}

fn bump(c: u64) -> (r: u64)
    ensures
        r == next_count(c),
        r != c,
{
    if c == u64::MAX {
        0
    } else {
        c + 1
    }
}

/// The geometries the overlay moves between, and where it is now.
#[derive(Clone, Copy, Debug, PartialEq, Eq, Structural)]
pub struct OverlayMetrics {
    /// Geometry at rest.
    pub base: Geometry,
    /// Geometry while hovered.
    pub expanded: Geometry,
    /// The geometry that was last applied to the live window.
    pub current: Geometry,
    /// Whether the overlay is in its expanded state.
    pub hover: bool,
}

impl OverlayMetrics {
    pub fn new() -> (m: OverlayMetrics)
        ensures
            m == (OverlayMetrics {
                base: Geometry { x: 0, y: 0, width: 0, height: 0 },
                expanded: Geometry { x: 0, y: 0, width: 0, height: 0 },
                current: Geometry { x: 0, y: 0, width: 0, height: 0 },
                hover: false,
            }),
    {
        OverlayMetrics {
            base: Geometry::new(0, 0, 0, 0),
            expanded: Geometry::new(0, 0, 0, 0),
            current: Geometry::new(0, 0, 0, 0),
            hover: false,
        }
    }
}

/// Everything the overlay remembers between two events.
#[derive(Clone, Copy, Debug, PartialEq, Eq, Structural)]
pub struct Overlay {
    pub metrics: OverlayMetrics,
    /// Counts animation requests; an animation owns the value it was given.
    pub animation_epoch: u64,
    /// Counts hover signals; a pending collapse owns the value it was given.
    pub hover_dwell_seq: u64,
    /// The level shown by the meter, in thousandths.
    pub level_millis: u32,
    /// Counts level updates; it moves the phase of the bars' wobble.
    pub level_tick: u64,
    /// Set while an explicit signal pins the overlay expanded.
    pub force_hover: bool,
    /// Whether the pointer was inside the window when it last moved.
    pub last_pointer_inside: bool,
    /// Whether the window is meant to be on screen.
    pub visible: bool,
}

/// One animation request: where it starts, where it ends, and the epoch that
/// it must still find in the overlay to be allowed to go on.
#[derive(Clone, Copy, Debug, PartialEq, Eq, Structural)]
pub struct Animation {
    pub start: Geometry,
    pub target: Geometry,
    pub epoch: u64,
}

/// What a hover transition did.
#[derive(Clone, Copy, Debug, PartialEq, Eq)]
pub struct HoverChange {
    /// Whether the overlay went from collapsed to expanded or back, so that
    /// the window has to be painted again.
    pub changed: bool,
    /// The animation to run, if the window is not yet where it belongs.
    pub animation: Option<Animation>,
}

/// A collapse that waits for the dwell time to pass.
#[derive(Clone, Copy, Debug, PartialEq, Eq, Structural)]
pub struct PendingCollapse {
    /// Value of the hover sequence when the collapse was scheduled.
    pub sequence: u64,
    /// Whether the collapse also ends a forced hover.
    pub release_force: bool,
}

/// Answer to a hover request.
#[derive(Clone, Copy, Debug, PartialEq, Eq)]
pub enum HoverRequest {
    /// The overlay expanded at once.
    Applied(HoverChange),
    /// The collapse has to be fired once the dwell time has passed.
    Deferred(PendingCollapse),
}

/// Answer to a pointer event.
#[derive(Clone, Copy, Debug, PartialEq, Eq)]
pub struct PointerOutcome {
    /// Whether to ask the window system for a notice when the pointer leaves.
    pub track_leave: bool,
    pub change: HoverChange,
    /// A collapse to fire after the dwell time.
    pub pending: Option<PendingCollapse>,
}

/// What to hand to the window system for one geometry.
#[derive(Clone, Copy, Debug, PartialEq, Eq, Structural)]
pub struct Placement {
    pub x: i32,
    pub y: i32,
    pub width: i32,
    pub height: i32,
    /// Width and height of the ellipse that rounds the corners.
    pub corner_diameter: i32,
}

/// A hover change that changes nothing.
pub open spec fn no_change() -> HoverChange {
    HoverChange { changed: false, animation: None }
}

impl Overlay {
    /// The level is in range, and a forced hover keeps the overlay expanded.
    pub open spec fn wf(self) -> bool {
        &&& self.level_millis <= LEVEL_FULL
        &&& self.force_hover ==> self.metrics.hover
    }

    /// The geometry that belongs to the present hover state.
    pub open spec fn resting_target(self) -> Geometry {
        if self.metrics.hover {
            self.metrics.expanded
        } else {
            self.metrics.base
        }
    }

    /// State after a request to animate to `target`.
    pub open spec fn after_animate_to(self, target: Geometry) -> Overlay {
        if self.metrics.current == target {
            self
        } else {
            Overlay { animation_epoch: next_count(self.animation_epoch), ..self }
        }
    }

    /// The animation that a request to animate to `target` starts.
    pub open spec fn animation_to(self, target: Geometry) -> Option<Animation> {
        if self.metrics.current == target {
            None
        } else {
            Some(
                Animation {
                    start: self.metrics.current,
                    target,
                    epoch: next_count(self.animation_epoch),
                },
            )
        }
    }

    /// The overlay with its hover state set, before any animation is started.
    pub open spec fn with_hover(self, hover: bool) -> Overlay {
        Overlay { metrics: OverlayMetrics { hover, ..self.metrics }, ..self }
    }

    /// State after the hover state was asked to become `hover`.
    pub open spec fn after_hover_change(self, hover: bool) -> Overlay {
        if self.metrics.hover == hover {
            self
        } else {
            self.with_hover(hover).after_animate_to(self.with_hover(hover).resting_target())
        }
    }

    /// What asking for the hover state `hover` reports.
    pub open spec fn hover_change(self, hover: bool) -> HoverChange {
        if self.metrics.hover == hover {
            no_change()
        } else {
            HoverChange {
                changed: true,
                animation: self.with_hover(hover).animation_to(
                    self.with_hover(hover).resting_target(),
                ),
            }
        }
    }

    /// The hover state that holds once forcing is set to `active`: expanded
    /// if forced, else wherever the pointer was last seen.
    pub open spec fn forced_hover_state(self, active: bool) -> bool {
        active || self.last_pointer_inside
    }

    /// State after forcing was set to `active`.
    pub open spec fn after_set_hover_platform(self, active: bool) -> Overlay {
        (Overlay { force_hover: active, ..self }).after_hover_change(
            self.forced_hover_state(active),
        )
    }

    /// What setting forcing to `active` reports.
    pub open spec fn set_hover_platform_change(self, active: bool) -> HoverChange {
        (Overlay { force_hover: active, ..self }).hover_change(self.forced_hover_state(active))
    }

    /// The overlay after one more hover signal was counted.
    pub open spec fn with_signal(self) -> Overlay {
        Overlay { hover_dwell_seq: next_count(self.hover_dwell_seq), ..self }
    }

    /// State after a hover request.
    pub open spec fn after_set_hover(self, active: bool) -> Overlay {
        if active {
            self.with_signal().after_set_hover_platform(true)
        } else {
            self.with_signal()
        }
    }

    /// Answer to a hover request.
    pub open spec fn set_hover_answer(self, active: bool) -> HoverRequest {
        if active {
            HoverRequest::Applied(self.with_signal().set_hover_platform_change(true))
        } else {
            HoverRequest::Deferred(
                PendingCollapse {
                    sequence: next_count(self.hover_dwell_seq),
                    release_force: true,
                },
            )
        }
    }

    /// Whether a pending collapse is still the latest hover signal.
    pub open spec fn collapse_is_due(self, pending: PendingCollapse) -> bool {
        self.hover_dwell_seq == pending.sequence
    }

    /// State after a pending collapse fired.
    pub open spec fn after_collapse(self, pending: PendingCollapse) -> Overlay {
        if !self.collapse_is_due(pending) {
            self
        } else if pending.release_force {
            self.after_set_hover_platform(false)
        } else if self.force_hover {
            self
        } else {
            self.after_hover_change(false)
        }
    }

    /// What firing a pending collapse reports: nothing if it was superseded.
    pub open spec fn collapse_change(self, pending: PendingCollapse) -> Option<HoverChange> {
        if !self.collapse_is_due(pending) {
            None
        } else if pending.release_force {
            Some(self.set_hover_platform_change(false))
        } else if self.force_hover {
            Some(no_change())
        } else {
            Some(self.hover_change(false))
        }
    }

    /// Whether a point, in window coordinates, lies inside the window as it
    /// is now. A window counts as at least one pixel wide and high.
    pub open spec fn contains_pointer(self, x: i32, y: i32) -> bool {
        &&& 0 <= x
        &&& 0 <= y
        &&& x < crate::geometry::at_least_one(self.metrics.current.width as int)
        &&& y < crate::geometry::at_least_one(self.metrics.current.height as int)
    }

    /// State after the pointer left the window, or moved outside it.
    pub open spec fn after_pointer_off(self) -> Overlay {
        if !self.force_hover && self.metrics.hover {
            (Overlay { last_pointer_inside: false, ..self }).with_signal()
        } else {
            Overlay { last_pointer_inside: false, ..self }
        }
    }

    /// The collapse that is scheduled when the pointer leaves.
    pub open spec fn pointer_off_pending(self) -> Option<PendingCollapse> {
        if !self.force_hover && self.metrics.hover {
            Some(
                PendingCollapse {
                    sequence: next_count(self.hover_dwell_seq),
                    release_force: false,
                },
            )
        } else {
            None
        }
    }

    /// State after the pointer moved to a point inside the window.
    pub open spec fn after_pointer_on(self) -> Overlay {
        if self.force_hover {
            Overlay { last_pointer_inside: true, ..self }
        } else {
            (Overlay { last_pointer_inside: true, ..self }).with_signal().after_hover_change(true)
        }
    }

    /// What a pointer move to a point inside the window reports.
    pub open spec fn pointer_on_change(self) -> HoverChange {
        if self.force_hover {
            no_change()
        } else {
            self.hover_change(true)
        }
    }

    /// State after a new level was stored.
    pub open spec fn after_set_level(self, level: u32) -> Overlay {
        Overlay {
            level_millis: if level > LEVEL_FULL {
                LEVEL_FULL
            } else {
                level
            },
            level_tick: next_count(self.level_tick),
            ..self
        }
    }

    /// State after the overlay was hidden. The geometry on record stays: the
    /// window is where it was until the base geometry is applied to it.
    pub open spec fn after_hide(self) -> Overlay {
        Overlay {
            metrics: OverlayMetrics { hover: false, ..self.metrics },
            animation_epoch: next_count(self.animation_epoch),
            force_hover: false,
            last_pointer_inside: false,
            visible: false,
            ..self
        }
    }

    /// State after the overlay was given a new place and size. The geometry
    /// on record stays: the window is where it was until the new geometry is
    /// applied to it.
    pub open spec fn after_configure(self, base: Geometry, expanded: Geometry) -> Overlay {
        Overlay {
            metrics: OverlayMetrics {
                base,
                expanded,
                current: self.metrics.current,
                hover: self.metrics.hover,
            },
            animation_epoch: next_count(self.animation_epoch),
            ..self
        }
    }

    /// An overlay that was never configured: all geometries empty, collapsed,
    /// hidden, level 0.
    pub fn new() -> (s: Overlay)
        ensures
            s.wf(),
            s.metrics == (OverlayMetrics {
                base: Geometry { x: 0, y: 0, width: 0, height: 0 },
                expanded: Geometry { x: 0, y: 0, width: 0, height: 0 },
                current: Geometry { x: 0, y: 0, width: 0, height: 0 },
                hover: false,
            }),
            s.animation_epoch == 0,
            s.hover_dwell_seq == 0,
            s.level_millis == 0,
            s.level_tick == 0,
            !s.force_hover,
            !s.last_pointer_inside,
            !s.visible,
    {
        Overlay {
            metrics: OverlayMetrics::new(),
            animation_epoch: 0,
            hover_dwell_seq: 0,
            level_millis: 0,
            level_tick: 0,
            force_hover: false,
            last_pointer_inside: false,
            visible: false,
        }
    }
}

/// Keeps track of the one live window. The handle is the window system's,
/// kept as a plain number.
#[derive(Clone, Copy, Debug, PartialEq, Eq)]
pub struct WindowOwner {
    pub handle: Option<isize>,
}

/// How to come by a live window.
#[derive(Clone, Copy, Debug, PartialEq, Eq)]
pub enum WindowPlan {
    /// The window that is there can be used.
    Reuse(isize),
    /// There is none, or it was destroyed: a new one has to be created.
    Create,
}

impl WindowOwner {
    /// The plan for a window, given whether the one on record still exists.
    pub open spec fn plan(self, alive: bool) -> WindowPlan {
        match self.handle {
            Some(handle) => if alive {
                WindowPlan::Reuse(handle)
            } else {
                WindowPlan::Create
            },
            None => WindowPlan::Create,
        }
    }

    pub fn new() -> (owner: WindowOwner)
        ensures
            owner.handle is None,
    {
        WindowOwner { handle: None }
    }
}

/// Decides whether the window on record serves or a new one is needed.
/// `alive` says whether the window system still knows the recorded handle.
pub fn ensure_window(owner: &WindowOwner, alive: bool) -> (plan: WindowPlan)
    ensures
        plan == owner.plan(alive),
{
    match owner.handle {
        Some(handle) => if alive {
            WindowPlan::Reuse(handle)
        } else {
            WindowPlan::Create
        },
        None => WindowPlan::Create,
    }
}

/// Records the window that was created; it replaces whatever was on record.
pub fn window_created(owner: &mut WindowOwner, handle: isize)
    ensures
        final(owner).handle == Some(handle),
        final(owner).plan(true) == WindowPlan::Reuse(handle),
{
    owner.handle = Some(handle);
}

/// Records that the window was destroyed.
pub fn window_destroyed(owner: &mut WindowOwner)
    ensures
        final(owner).handle is None,
        final(owner).plan(true) == WindowPlan::Create,
{
    owner.handle = None;
}

/// A 16-bit pattern read as a signed number.
pub open spec fn signed_half(v: int) -> int {
    if v >= 0x8000 {
        v - 0x1_0000
    } else {
        v
    }
}

/// Splits the two signed 16-bit window coordinates out of the low 32 bits of
/// a pointer message's parameter: `x` in the low half, `y` in the high half.
pub fn decode_mouse_coords(raw: u32) -> (point: (i32, i32))
    ensures
        point.0 == signed_half(raw as int % 0x1_0000),
        point.1 == signed_half(raw as int / 0x1_0000),
{
    let low: u32 = raw % 0x1_0000;
    let high: u32 = raw / 0x1_0000;
    let x: i32 = if low >= 0x8000 { low as i32 - 0x1_0000 } else { low as i32 };
    let y: i32 = if high >= 0x8000 { high as i32 - 0x1_0000 } else { high as i32 };
    (x, y)
}

/// Whether the point lies inside the window as it is now.
pub fn pointer_inside_current(overlay: &Overlay, x: i32, y: i32) -> (inside: bool)
    ensures
        inside == overlay.contains_pointer(x, y),
{
    let width: i32 = if overlay.metrics.current.width < 1 { 1 } else { overlay.metrics.current.width };
    let height: i32 = if overlay.metrics.current.height < 1 { 1 } else { overlay.metrics.current.height };
    x >= 0 && y >= 0 && x < width && y < height
}

/// Asks for the window to move to `target`. Nothing happens if it is there
/// already. Otherwise the epoch advances, which ends every animation that is
/// still running, and the new animation is returned.
pub fn animate_to(overlay: &mut Overlay, target: Geometry) -> (animation: Option<Animation>)
    ensures
        *final(overlay) == old(overlay).after_animate_to(target),
        animation == old(overlay).animation_to(target),
        old(overlay).wf() ==> final(overlay).wf(),
{
    if overlay.metrics.current == target {
        return None;
    }
    overlay.animation_epoch = bump(overlay.animation_epoch);
    Some(Animation { start: overlay.metrics.current, target, epoch: overlay.animation_epoch })
}

impl Animation {
    /// The geometry of frame `step`, or nothing if the animation was
    /// superseded.
    pub open spec fn frame(self, overlay: Overlay, step: int) -> Option<Geometry> {
        if overlay.animation_epoch != self.epoch {
            None
        } else {
            Some(self.start.spec_lerp(self.target, step, ANIMATION_STEPS as int))
        }
    }

    /// The geometry to settle on after the last frame, or nothing if the
    /// animation was superseded.
    pub open spec fn settled(self, overlay: Overlay) -> Option<Geometry> {
        if overlay.animation_epoch != self.epoch {
            None
        } else {
            Some(self.target)
        }
    }
}

/// The geometry to apply for frame `step` of an animation, counted from 1.
/// An animation whose epoch is no longer the overlay's gets nothing to apply.
pub fn animation_frame(overlay: &Overlay, animation: &Animation, step: u32) -> (next: Option<
    Geometry,
>)
    requires
        1 <= step <= ANIMATION_STEPS,
    ensures
        next == animation.frame(*overlay, step as int),
{
    if overlay.animation_epoch != animation.epoch {
        return None;
    }
    Some(animation.start.lerp(animation.target, step, ANIMATION_STEPS))
}

/// The geometry to snap to once all frames are through: the exact target, if
/// the animation still owns the epoch.
pub fn animation_settle(overlay: &Overlay, animation: &Animation) -> (last: Option<Geometry>)
    ensures
        last == animation.settled(*overlay),
{
    if overlay.animation_epoch != animation.epoch {
        return None;
    }
    Some(animation.target)
}

/// Records a geometry that was applied to the live window.
pub fn frame_applied(overlay: &mut Overlay, geometry: Geometry)
    ensures
        *final(overlay) == (Overlay {
            metrics: OverlayMetrics { current: geometry, ..old(overlay).metrics },
            ..*old(overlay)
        }),
        old(overlay).wf() ==> final(overlay).wf(),
{
    overlay.metrics.current = geometry;
}

/// What to hand to the window system for a geometry: position as given,
/// size at least one pixel each way, corners rounded by the fixed radius.
pub fn apply_geometry(geometry: Geometry) -> (placement: Placement)
    ensures
        placement == (Placement {
            x: geometry.x,
            y: geometry.y,
            width: crate::geometry::at_least_one(geometry.width as int) as i32,
            height: crate::geometry::at_least_one(geometry.height as int) as i32,
            corner_diameter: 6,
        }),
        placement.width >= 1,
        placement.height >= 1,
{
    Placement {
        x: geometry.x,
        y: geometry.y,
        width: if geometry.width < 1 { 1 } else { geometry.width },
        height: if geometry.height < 1 { 1 } else { geometry.height },
        corner_diameter: CORNER_RADIUS * 2,
    }
}

/// Moves the overlay to the hover state `hover`. Asking for the state it is
/// in changes nothing. Otherwise the state flips and the window is sent
/// towards the geometry of the new state.
pub fn handle_hover_change(overlay: &mut Overlay, hover: bool) -> (change: HoverChange)
    ensures
        *final(overlay) == old(overlay).after_hover_change(hover),
        change == old(overlay).hover_change(hover),
        final(overlay).metrics.hover == hover,
        old(overlay).wf() && (hover || !old(overlay).force_hover) ==> final(overlay).wf(),
{
    if overlay.metrics.hover == hover {
        return HoverChange { changed: false, animation: None };
    }
    overlay.metrics.hover = hover;
    let target: Geometry = if hover { overlay.metrics.expanded } else { overlay.metrics.base };
    let animation: Option<Animation> = animate_to(overlay, target);
    HoverChange { changed: true, animation }
}

/// Sets or clears the forced hover, at once. While forced, the overlay is
/// expanded; once released, it is expanded exactly if the pointer was last
/// seen inside the window.
pub fn set_hover_platform(overlay: &mut Overlay, active: bool) -> (change: HoverChange)
    ensures
        *final(overlay) == old(overlay).after_set_hover_platform(active),
        change == old(overlay).set_hover_platform_change(active),
        final(overlay).force_hover == active,
        final(overlay).metrics.hover == (active || old(overlay).last_pointer_inside),
        old(overlay).level_millis <= LEVEL_FULL ==> final(overlay).wf(),
{
    overlay.force_hover = active;
    if active {
        handle_hover_change(overlay, true)
    } else {
        let inside: bool = overlay.last_pointer_inside;
        handle_hover_change(overlay, inside)
    }
}

/// A hover request. Every request counts as a hover signal, so it supersedes
/// any collapse that is still pending. A request to hover expands at once; a
/// request to stop hovering is only scheduled: the returned collapse is to be
/// fired after the dwell time.
pub fn set_hover(overlay: &mut Overlay, active: bool) -> (answer: HoverRequest)
    ensures
        *final(overlay) == old(overlay).after_set_hover(active),
        answer == old(overlay).set_hover_answer(active),
        final(overlay).hover_dwell_seq != old(overlay).hover_dwell_seq,
        old(overlay).wf() ==> final(overlay).wf(),
{
    overlay.hover_dwell_seq = bump(overlay.hover_dwell_seq);
    if active {
        HoverRequest::Applied(set_hover_platform(overlay, true))
    } else {
        HoverRequest::Deferred(
            PendingCollapse { sequence: overlay.hover_dwell_seq, release_force: true },
        )
    }
}

/// Fires a pending collapse whose dwell time has passed. A collapse that is
/// no longer the latest hover signal does nothing and reports nothing. One
/// that ends a forced hover releases it and lets the pointer decide; one that
/// the pointer asked for collapses the overlay unless a hover was forced
/// meanwhile.
pub fn collapse_after_dwell(overlay: &mut Overlay, pending: PendingCollapse) -> (change: Option<
    HoverChange,
>)
    ensures
        *final(overlay) == old(overlay).after_collapse(pending),
        change == old(overlay).collapse_change(pending),
        old(overlay).wf() ==> final(overlay).wf(),
{
    if overlay.hover_dwell_seq != pending.sequence {
        return None;
    }
    if pending.release_force {
        Some(set_hover_platform(overlay, false))
    } else if overlay.force_hover {
        Some(HoverChange { changed: false, animation: None })
    } else {
        Some(handle_hover_change(overlay, false))
    }
}

/// The pointer left the window. Unless a hover is forced or the overlay is
/// collapsed already, this counts as a hover signal and schedules a collapse.
pub fn pointer_left(overlay: &mut Overlay) -> (outcome: PointerOutcome)
    ensures
        *final(overlay) == old(overlay).after_pointer_off(),
        outcome == (PointerOutcome {
            track_leave: false,
            change: no_change(),
            pending: old(overlay).pointer_off_pending(),
        }),
        old(overlay).wf() ==> final(overlay).wf(),
{
    overlay.last_pointer_inside = false;
    let mut pending: Option<PendingCollapse> = None;
    if !overlay.force_hover && overlay.metrics.hover {
        overlay.hover_dwell_seq = bump(overlay.hover_dwell_seq);
        pending = Some(PendingCollapse { sequence: overlay.hover_dwell_seq, release_force: false });
    }
    PointerOutcome {
        track_leave: false,
        change: HoverChange { changed: false, animation: None },
        pending,
    }
}

/// The pointer moved to `(x, y)` in window coordinates. Inside the window it
/// asks for leave tracking and, unless a hover is forced, counts as a hover
/// signal and expands the overlay. Outside it is handled as a pointer that
/// left.
pub fn pointer_moved(overlay: &mut Overlay, x: i32, y: i32) -> (outcome: PointerOutcome)
    ensures
        old(overlay).contains_pointer(x, y) ==> {
            &&& *final(overlay) == old(overlay).after_pointer_on()
            &&& outcome == (PointerOutcome {
                track_leave: true,
                change: old(overlay).pointer_on_change(),
                pending: None,
            })
        },
        !old(overlay).contains_pointer(x, y) ==> {
            &&& *final(overlay) == old(overlay).after_pointer_off()
            &&& outcome == (PointerOutcome {
                track_leave: false,
                change: no_change(),
                pending: old(overlay).pointer_off_pending(),
            })
        },
        old(overlay).wf() ==> final(overlay).wf(),
{
    if !pointer_inside_current(overlay, x, y) {
        return pointer_left(overlay);
    }
    overlay.last_pointer_inside = true;
    if overlay.force_hover {
        return PointerOutcome {
            track_leave: true,
            change: HoverChange { changed: false, animation: None },
            pending: None,
        };
    }
    overlay.hover_dwell_seq = bump(overlay.hover_dwell_seq);
    let change: HoverChange = handle_hover_change(overlay, true);
    PointerOutcome { track_leave: true, change, pending: None }
}

/// Stores a level given in thousandths, held to at most 1000, and advances
/// the tick. The window is to be painted again afterwards.
pub fn set_level_platform(overlay: &mut Overlay, level: u32)
    ensures
        *final(overlay) == old(overlay).after_set_level(level),
        final(overlay).level_millis <= LEVEL_FULL,
        old(overlay).wf() ==> final(overlay).wf(),
{
    overlay.level_millis = if level > LEVEL_FULL { LEVEL_FULL } else { level };
    overlay.level_tick = bump(overlay.level_tick);
}

/// Stores a level given as the bits of a double. The number is held to
/// `[0, 1]` and kept in thousandths.
pub fn set_level(overlay: &mut Overlay, level_bits: u64)
    ensures
        *final(overlay) == old(overlay).after_set_level(level_millis(level_bits) as u32),
        final(overlay).level_millis == level_millis(level_bits),
        old(overlay).wf() ==> final(overlay).wf(),
{
    let level: u32 = level_millis_from_bits(level_bits);
    set_level_platform(overlay, level);
}

/// Marks the overlay as on screen. Geometry and hover state stay as they are.
pub fn show(overlay: &mut Overlay)
    ensures
        *final(overlay) == (Overlay { visible: true, ..*old(overlay) }),
        old(overlay).wf() ==> final(overlay).wf(),
{
    overlay.visible = true;
}

/// Marks the overlay as off screen and brings it back to a clean collapsed
/// state: no forced hover, no pointer inside, and every running animation
/// superseded. The base geometry is returned to be applied to the window;
/// the geometry on record changes once that is reported with
/// [`frame_applied`].
pub fn hide_overlay(overlay: &mut Overlay) -> (target: Geometry)
    ensures
        *final(overlay) == old(overlay).after_hide(),
        target == old(overlay).metrics.base,
        target == final(overlay).resting_target(),
        old(overlay).level_millis <= LEVEL_FULL ==> final(overlay).wf(),
{
    overlay.animation_epoch = bump(overlay.animation_epoch);
    overlay.force_hover = false;
    overlay.last_pointer_inside = false;
    overlay.metrics.hover = false;
    overlay.visible = false;
    overlay.metrics.base
}

/// The expanded extent of a base extent: scaled by a factor that is floored
/// at 1, and never smaller than the base.
pub open spec fn expanded_extent(extent: i32, scale_bits: u64) -> int {
    let grown = clamp_i32(scaled(extent as int, scale_bits));
    if grown < extent {
        extent as int
    } else {
        grown
    }
}

/// The origin that centres an expanded extent on the centre of the base
/// extent, rounded to whole pixels.
pub open spec fn centred_origin(origin: i32, extent: i32, expanded: int) -> int {
    clamp_i32(round_div(2 * origin + extent - expanded, 2))
}

/// The expanded geometry that belongs to a base geometry and two scale
/// factors, given as the bits of doubles.
pub open spec fn expanded_geometry(base: Geometry, scale_x_bits: u64, scale_y_bits: u64) -> Geometry {
    Geometry {
        x: centred_origin(base.x, base.width, expanded_extent(base.width, scale_x_bits)) as i32,
        y: centred_origin(base.y, base.height, expanded_extent(base.height, scale_y_bits)) as i32,
        width: expanded_extent(base.width, scale_x_bits) as i32,
        height: expanded_extent(base.height, scale_y_bits) as i32,
    }
}

fn expand_extent(extent: i32, scale_bits: u64) -> (r: i32)
    ensures
        r == expanded_extent(extent, scale_bits),
        r >= extent,
{
    let grown: i32 = scale_length(extent, scale_bits);
    if grown < extent {
        extent
    } else {
        grown
    }
}

fn centre_origin(origin: i32, extent: i32, expanded: i32) -> (r: i32)
    ensures
        r == centred_origin(origin, extent, expanded as int),
{
    let n: i64 = 2 * (origin as i64) + extent as i64 - expanded as i64;
    let r: i64 = round_div_i64(n, 2);
    if r > i32::MAX as i64 {
        i32::MAX
    } else if r < i32::MIN as i64 {
        i32::MIN
    } else {
        r as i32
    }
}

/// Gives the overlay its place and size. The base geometry is taken as given;
/// the expanded geometry has the same centre and is larger by the two scale
/// factors, which are doubles given by their bits and count as at least 1.
/// Every running animation is superseded, and the geometry of the present
/// hover state is returned, to be applied to the window at once, without any
/// animation. The geometry on record changes once that is reported with
/// [`frame_applied`], so that it never names a geometry that the window did
/// not take.
pub fn configure(
    overlay: &mut Overlay,
    width: i32,
    height: i32,
    x: i32,
    y: i32,
    hover_scale_x_bits: u64,
    hover_scale_y_bits: u64,
) -> (target: Geometry)
    ensures
        *final(overlay) == old(overlay).after_configure(
            Geometry { x, y, width, height },
            expanded_geometry(Geometry { x, y, width, height }, hover_scale_x_bits, hover_scale_y_bits),
        ),
        target == final(overlay).resting_target(),
        final(overlay).metrics.current == old(overlay).metrics.current,
        final(overlay).metrics.expanded.width >= width,
        final(overlay).metrics.expanded.height >= height,
        old(overlay).wf() ==> final(overlay).wf(),
{
    let expanded_width: i32 = expand_extent(width, hover_scale_x_bits);
    let expanded_height: i32 = expand_extent(height, hover_scale_y_bits);
    let base: Geometry = Geometry::new(x, y, width, height);
    let expanded: Geometry = Geometry::new(
        centre_origin(x, width, expanded_width),
        centre_origin(y, height, expanded_height),
        expanded_width,
        expanded_height,
    );
    let target: Geometry = if overlay.metrics.hover { expanded } else { base };
    overlay.metrics.base = base;
    overlay.metrics.expanded = expanded;
    overlay.animation_epoch = bump(overlay.animation_epoch);
    target
}

/// The overlay with `applied` recorded as the geometry on screen.
pub open spec fn with_current(overlay: Overlay, applied: Geometry) -> Overlay {
    Overlay { metrics: OverlayMetrics { current: applied, ..overlay.metrics }, ..overlay }
}

/// A newer animation supersedes an older one. After a request towards
/// `first` and then, with any frame `applied` in between, a request towards
/// `second`, the first animation gets no frame and no final geometry any
/// more, and the second one settles on `second`, whatever is recorded as
/// applied afterwards.
///
/// The second request must really start an animation: a request towards the
/// geometry that is on screen at that moment is a no-op and supersedes
/// nothing.
pub proof fn lemma_newer_animation_wins(
    overlay: Overlay,
    first: Geometry,
    applied: Geometry,
    second: Geometry,
    later: Geometry,
    step: int,
)
    requires
        overlay.metrics.current != first,
        applied != second,
    ensures
        ({
            let older = overlay.animation_to(first);
            let between = with_current(overlay.after_animate_to(first), applied);
            let newer = between.animation_to(second);
            let after = with_current(between.after_animate_to(second), later);
            &&& older is Some
            &&& newer is Some
            &&& older->Some_0.frame(after, step) is None
            &&& older->Some_0.settled(after) is None
            &&& newer->Some_0.settled(after) == Some(second)
            &&& newer->Some_0.frame(after, step) is Some
        }),
{
}

/// Of two animations with different epochs at most one is served by any
/// state of the overlay.
pub proof fn lemma_one_animation_at_a_time(
    overlay: Overlay,
    a: Animation,
    b: Animation,
    step_a: int,
    step_b: int,
)
    requires
        a.epoch != b.epoch,
    ensures
        a.frame(overlay, step_a) is None || b.frame(overlay, step_b) is None,
        a.settled(overlay) is None || b.settled(overlay) is None,
{
}

/// The last frame of an animation is its target, if the target is at least
/// one pixel wide and high, and every frame is.
pub proof fn lemma_frames_reach_target(overlay: Overlay, animation: Animation, step: int)
    requires
        overlay.animation_epoch == animation.epoch,
        1 <= step <= ANIMATION_STEPS,
    ensures
        animation.frame(overlay, step) is Some,
        animation.frame(overlay, step)->Some_0.width >= 1,
        animation.frame(overlay, step)->Some_0.height >= 1,
        animation.target.width >= 1 && animation.target.height >= 1 ==> animation.frame(
            overlay,
            ANIMATION_STEPS as int,
        ) == Some(animation.target),
{
    crate::geometry::lemma_lerp_bounds(animation.start, animation.target, step, 8);
    if animation.target.width >= 1 && animation.target.height >= 1 {
        crate::geometry::lemma_lerp_at_one(animation.start, animation.target, 8);
    }
}

/// A hover request that arrives while a collapse is pending cancels it: the
/// collapse finds a newer hover signal, reports nothing and changes nothing,
/// and the overlay is expanded.
pub proof fn lemma_hover_cancels_pending_collapse(overlay: Overlay)
    ensures
        ({
            let leaving = overlay.after_set_hover(false);
            let back = leaving.after_set_hover(true);
            &&& overlay.set_hover_answer(false) matches HoverRequest::Deferred(pending)
            &&& back.collapse_change(pending) is None
            &&& back.after_collapse(pending) == back
            &&& back.metrics.hover
            &&& leaving.metrics.hover == overlay.metrics.hover
        }),
{
}

/// The same for the pointer: if it leaves an expanded overlay and comes back
/// before the collapse fires, the collapse does nothing and the overlay
/// stays expanded all along.
pub proof fn lemma_pointer_return_cancels_collapse(overlay: Overlay)
    requires
        overlay.metrics.hover,
        !overlay.force_hover,
    ensures
        ({
            let leaving = overlay.after_pointer_off();
            let back = leaving.after_pointer_on();
            &&& overlay.pointer_off_pending() matches Some(pending)
            &&& leaving.metrics.hover
            &&& back.metrics.hover
            &&& back.collapse_change(pending) is None
            &&& back.after_collapse(pending) == back
        }),
{
}

/// A request to stop hovering that nothing follows collapses exactly once:
/// when its collapse fires, the forced hover ends and the overlay is expanded
/// only if the pointer rests on it; firing the same collapse again changes
/// nothing.
pub proof fn lemma_collapse_fires_once(overlay: Overlay)
    ensures
        ({
            let leaving = overlay.after_set_hover(false);
            let fired = leaving.after_collapse(overlay.set_hover_answer(false)->Deferred_0);
            &&& overlay.set_hover_answer(false) matches HoverRequest::Deferred(pending)
            &&& leaving.collapse_change(pending) matches Some(change)
            &&& change.changed == (overlay.metrics.hover != overlay.last_pointer_inside)
            &&& !fired.force_hover
            &&& fired.metrics.hover == overlay.last_pointer_inside
            &&& fired.collapse_change(pending) == Some(no_change())
            &&& fired.after_collapse(pending) == fired
        }),
{
}

/// The same for the pointer: a pointer that leaves an expanded overlay and
/// stays away collapses it when the dwell time has passed, and only once.
pub proof fn lemma_pointer_collapse_fires_once(overlay: Overlay)
    requires
        overlay.metrics.hover,
        !overlay.force_hover,
    ensures
        ({
            let leaving = overlay.after_pointer_off();
            let fired = leaving.after_collapse(overlay.pointer_off_pending()->Some_0);
            &&& overlay.pointer_off_pending() matches Some(pending)
            &&& leaving.collapse_change(pending) matches Some(change)
            &&& change.changed
            &&& !fired.metrics.hover
            &&& fired.collapse_change(pending) == Some(no_change())
            &&& fired.after_collapse(pending) == fired
        }),
{
}

/// Hover, stop, hover in quick succession leaves the overlay expanded, and it
/// is expanded after each of the three requests; the collapse that the middle
/// request scheduled does nothing when it fires.
pub proof fn lemma_rapid_hover_stays_expanded(overlay: Overlay)
    ensures
        ({
            let one = overlay.after_set_hover(true);
            let two = one.after_set_hover(false);
            let three = two.after_set_hover(true);
            &&& one.metrics.hover
            &&& two.metrics.hover
            &&& three.metrics.hover
            &&& three.force_hover
            &&& one.set_hover_answer(false) matches HoverRequest::Deferred(pending)
            &&& three.collapse_change(pending) is None
            &&& three.after_collapse(pending) == three
        }),
{
}

/// While a hover is forced, the pointer cannot collapse the overlay: neither
/// its leaving nor its moving changes the hover state or schedules anything.
pub proof fn lemma_forced_hover_ignores_pointer(overlay: Overlay)
    requires
        overlay.force_hover,
    ensures
        overlay.after_pointer_off().metrics.hover == overlay.metrics.hover,
        overlay.after_pointer_on().metrics.hover == overlay.metrics.hover,
        overlay.pointer_off_pending() is None,
        overlay.pointer_on_change() == no_change(),
        overlay.after_pointer_off().hover_dwell_seq == overlay.hover_dwell_seq,
        overlay.after_pointer_on().hover_dwell_seq == overlay.hover_dwell_seq,
{
}

/// Asking for the hover state that the overlay is in changes nothing.
pub proof fn lemma_hover_change_idempotent(overlay: Overlay, hover: bool)
    ensures
        overlay.after_hover_change(hover).after_hover_change(hover) == overlay.after_hover_change(
            hover,
        ),
        overlay.after_hover_change(hover).hover_change(hover) == no_change(),
{
}

/// Only a configuration moves the two geometries that the overlay rests at:
/// hover changes, pointer events, collapses, levels and hiding leave the base
/// and the expanded geometry where they are.
pub proof fn lemma_only_configure_moves_the_ends(
    overlay: Overlay,
    hover: bool,
    target: Geometry,
    pending: PendingCollapse,
    level: u32,
)
    ensures
        overlay.after_animate_to(target).metrics.base == overlay.metrics.base,
        overlay.after_animate_to(target).metrics.expanded == overlay.metrics.expanded,
        overlay.after_hover_change(hover).metrics.base == overlay.metrics.base,
        overlay.after_hover_change(hover).metrics.expanded == overlay.metrics.expanded,
        overlay.after_set_hover_platform(hover).metrics.base == overlay.metrics.base,
        overlay.after_set_hover_platform(hover).metrics.expanded == overlay.metrics.expanded,
        overlay.after_set_hover(hover).metrics.base == overlay.metrics.base,
        overlay.after_set_hover(hover).metrics.expanded == overlay.metrics.expanded,
        overlay.after_collapse(pending).metrics.base == overlay.metrics.base,
        overlay.after_collapse(pending).metrics.expanded == overlay.metrics.expanded,
        overlay.after_pointer_on().metrics.base == overlay.metrics.base,
        overlay.after_pointer_on().metrics.expanded == overlay.metrics.expanded,
        overlay.after_pointer_off().metrics.base == overlay.metrics.base,
        overlay.after_pointer_off().metrics.expanded == overlay.metrics.expanded,
        overlay.after_set_level(level).metrics == overlay.metrics,
        overlay.after_hide().metrics.base == overlay.metrics.base,
        overlay.after_hide().metrics.expanded == overlay.metrics.expanded,
{
}

/// The geometry on record changes only when an applied geometry is
/// reported: no hover change, pointer event, collapse, configuration or
/// hiding moves it, so it always names the geometry that the window took
/// last.
pub proof fn lemma_only_applied_frames_move_current(
    overlay: Overlay,
    hover: bool,
    pending: PendingCollapse,
    target: Geometry,
    base: Geometry,
    expanded: Geometry,
    level: u32,
)
    ensures
        overlay.after_animate_to(target).metrics.current == overlay.metrics.current,
        overlay.after_configure(base, expanded).metrics.current == overlay.metrics.current,
        overlay.after_hide().metrics.current == overlay.metrics.current,
        overlay.after_set_level(level).metrics.current == overlay.metrics.current,
        with_current(overlay, target).metrics.current == target,
        overlay.after_hover_change(hover).metrics.current == overlay.metrics.current,
        overlay.after_set_hover_platform(hover).metrics.current == overlay.metrics.current,
        overlay.after_set_hover(hover).metrics.current == overlay.metrics.current,
        overlay.after_collapse(pending).metrics.current == overlay.metrics.current,
        overlay.after_pointer_on().metrics.current == overlay.metrics.current,
        overlay.after_pointer_off().metrics.current == overlay.metrics.current,
{
}

/// A hover change that starts an animation sends the window from where it
/// is to the geometry of the new hover state.
pub proof fn lemma_hover_animates_to_resting_target(overlay: Overlay, hover: bool)
    requires
        overlay.metrics.hover != hover,
    ensures
        overlay.hover_change(hover).changed,
        overlay.hover_change(hover).animation matches Some(animation) ==> {
            &&& animation.start == overlay.metrics.current
            &&& animation.target == (if hover {
                overlay.metrics.expanded
            } else {
                overlay.metrics.base
            })
            &&& animation.epoch == overlay.after_hover_change(hover).animation_epoch
            &&& animation.settled(overlay.after_hover_change(hover)) == Some(animation.target)
        },
        overlay.hover_change(hover).animation is None <==> overlay.metrics.current == (if hover {
            overlay.metrics.expanded
        } else {
            overlay.metrics.base
        }),
{
}

/// After hiding, the overlay is collapsed, with the base geometry as the
/// one to rest at, no forced hover and no pointer inside, and whatever
/// animation was running is superseded.
pub proof fn lemma_hide_resets(overlay: Overlay, animation: Animation, step: int)
    requires
        animation.epoch == overlay.animation_epoch,
    ensures
        !overlay.after_hide().metrics.hover,
        !overlay.after_hide().force_hover,
        !overlay.after_hide().last_pointer_inside,
        !overlay.after_hide().visible,
        overlay.after_hide().resting_target() == overlay.metrics.base,
        animation.frame(overlay.after_hide(), step) is None,
        animation.settled(overlay.after_hide()) is None,
{
}

/// Where nothing saturates, the expanded extent has the centre of the base
/// extent, up to the half pixel that rounding may cost.
pub proof fn lemma_expanded_is_centred(origin: i32, extent: i32, expanded: int)
    requires
        i32::MIN <= round_div(2 * origin + extent - expanded, 2) <= i32::MAX,
    ensures
        -1 <= (2 * centred_origin(origin, extent, expanded) + expanded) - (2 * origin + extent)
            <= 1,
{
    crate::geometry::lemma_round_div_nearest(2 * origin + extent - expanded, 2);
}

/// The overlay after an animation ran to its end undisturbed: a superseded
/// animation leaves the overlay as it is, the one that owns the epoch leaves
/// the window at its target.
pub open spec fn after_animation(overlay: Overlay, animation: Animation) -> Overlay {
    match animation.settled(overlay) {
        Some(target) => with_current(overlay, target),
        None => overlay,
    }
}

/// Of two requests in a row the later one decides where the window ends up,
/// in whichever order the two animations come to their end.
pub proof fn lemma_last_request_settles(
    overlay: Overlay,
    first: Geometry,
    applied: Geometry,
    second: Geometry,
)
    requires
        overlay.metrics.current != first,
        applied != second,
    ensures
        ({
            let older = overlay.animation_to(first)->Some_0;
            let between = with_current(overlay.after_animate_to(first), applied);
            let newer = between.animation_to(second)->Some_0;
            let after = between.after_animate_to(second);
            &&& after_animation(after_animation(after, older), newer).metrics.current == second
            &&& after_animation(after_animation(after, newer), older).metrics.current == second
            &&& after_animation(after, older) == after
        }),
{
}

/// What can happen to an overlay.
pub enum Signal {
    /// A hover request.
    Hover(bool),
    /// The forced hover is set or cleared at once.
    Force(bool),
    /// A pending collapse fires.
    Collapse(PendingCollapse),
    /// The pointer moved to a point inside the window.
    PointerOn,
    /// The pointer left the window or moved outside it.
    PointerOff,
    /// A level was stored.
    Level(u32),
    /// The overlay was given a base and an expanded geometry.
    Configure(Geometry, Geometry),
    Show,
    Hide,
    /// A request to animate to a geometry.
    AnimateTo(Geometry),
    /// A geometry was applied to the window.
    FrameApplied(Geometry),
}

/// The overlay after one signal.
pub open spec fn after_signal(overlay: Overlay, signal: Signal) -> Overlay {
    match signal {
        Signal::Hover(active) => overlay.after_set_hover(active),
        Signal::Force(active) => overlay.after_set_hover_platform(active),
        Signal::Collapse(pending) => overlay.after_collapse(pending),
        Signal::PointerOn => overlay.after_pointer_on(),
        Signal::PointerOff => overlay.after_pointer_off(),
        Signal::Level(level) => overlay.after_set_level(level),
        Signal::Configure(base, expanded) => overlay.after_configure(base, expanded),
        Signal::Show => Overlay { visible: true, ..overlay },
        Signal::Hide => overlay.after_hide(),
        Signal::AnimateTo(target) => overlay.after_animate_to(target),
        Signal::FrameApplied(geometry) => with_current(overlay, geometry),
    }
}

/// The overlay after a sequence of signals, first to last.
pub open spec fn after_signals(overlay: Overlay, signals: Seq<Signal>) -> Overlay
    decreases signals.len(),
{
    if signals.len() == 0 {
        overlay
    } else {
        after_signal(after_signals(overlay, signals.drop_last()), signals.last())
    }
}

/// Whatever happens to a well-formed overlay, in whatever order, it stays
/// well-formed: the level stays in range, and while a hover is forced the
/// overlay is expanded.
pub proof fn lemma_signals_keep_wf(overlay: Overlay, signals: Seq<Signal>)
    requires
        overlay.wf(),
    ensures
        after_signals(overlay, signals).wf(),
    decreases signals.len(),
{
    if signals.len() > 0 {
        lemma_signals_keep_wf(overlay, signals.drop_last());
    }
}

/// A pending collapse does nothing once any hover request has followed it,
/// as long as the hover sequence has not gone all the way round: at the
/// moment it fires, the overlay is exactly as the later requests left it.
pub proof fn lemma_stale_collapse_is_ignored(overlay: Overlay, pending: PendingCollapse)
    requires
        overlay.hover_dwell_seq != pending.sequence,
    ensures
        overlay.after_collapse(pending) == overlay,
        overlay.collapse_change(pending) is None,
{
}

} // verus!
