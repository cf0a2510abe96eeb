//! Layout of the level meter: a row of vertical bars, centred in the window.
//!
//! How far each bar is driven is a number in thousandths that the caller
//! works out from the level, the tick and the bar's weight; where each bar
//! stands and how high it is for that number is decided here.

use crate::binary64::LEVEL_FULL;
use crate::geometry::{at_least_one, lemma_lerp_scalar_between, lerp_i32, lerp_scalar, round_div, round_div_i64};
use crate::native_overlay::Overlay;
use vstd::prelude::*;

verus! {

/// Number of bars.
pub const BAR_COUNT: u32 = 9;

/// Width of a bar, in pixels.
pub const BAR_WIDTH: i32 = 3;

/// Space between two bars, in pixels.
pub const BAR_GAP: i32 = 2;

/// Distance from one bar's left edge to the next one's, in pixels.
pub const BAR_PITCH: i32 = 5;

/// Space kept free above and below the bars, in pixels.
pub const BAR_PADDING_Y: i32 = 3;

/// Height of a bar at level 0, in pixels.
pub const MIN_BAR_HEIGHT: i32 = 2;

/// Width of the whole row of bars, in pixels.
pub const BAR_ROW_WIDTH: i32 = 43;

/// A window lower than this shows no bars.
pub const MIN_METER_HEIGHT: i32 = 12;

/// One bar, as the rectangle to fill.
#[derive(Clone, Copy, Debug, PartialEq, Eq, Structural)]
pub struct BarRect {
    pub left: i32,
    pub top: i32,
    pub right: i32,
    pub bottom: i32,
}

/// What the painter needs to draw the meter.
#[derive(Clone, Copy, Debug, PartialEq, Eq, Structural)]
pub struct MeterFrame {
    pub width: i32,
    pub height: i32,
    /// The level, in thousandths.
    pub level_millis: u32,
    /// The tick that phases the wobble.
    pub tick: u64,
}

/// The weight of a bar, in thousandths: a symmetric profile that rises
/// towards the bar in the middle. An index past the last bar weighs 1000.
pub open spec fn weight_of(index: int) -> int {
    if index == 0 || index == 8 {
        350
    } else if index == 1 || index == 7 {
        550
    } else if index == 2 || index == 6 {
        750
    } else if index == 3 || index == 5 {
        950
    } else {
        1000
    }
}

pub fn bar_weight(index: u32) -> (weight: u32)
    ensures
        weight == weight_of(index as int),
        350 <= weight <= 1000,
{
    if index == 0 || index == 8 {
        350
    } else if index == 1 || index == 7 {
        550
    } else if index == 2 || index == 6 {
        750
    } else if index == 3 || index == 5 {
        950
    } else {
        1000
    }
}

/// The profile is symmetric about the middle bar and does not fall on the
/// way to it.
pub proof fn lemma_weights_symmetric_and_rising(index: int)
    requires
        0 <= index < BAR_COUNT,
    ensures
        weight_of(index) == weight_of(BAR_COUNT - 1 - index),
        index < 4 ==> weight_of(index) < weight_of(index + 1),
        weight_of(index) <= weight_of(4),
{
}

/// The meter to paint, if any: bars show only while the overlay is expanded
/// and its window, taken as at least one pixel each way, is high enough.
pub open spec fn meter_of(overlay: Overlay) -> Option<MeterFrame> {
    if overlay.metrics.hover && at_least_one(overlay.metrics.current.height as int)
        >= MIN_METER_HEIGHT {
        Some(
            MeterFrame {
                width: at_least_one(overlay.metrics.current.width as int) as i32,
                height: at_least_one(overlay.metrics.current.height as int) as i32,
                level_millis: if overlay.level_millis > LEVEL_FULL {
                    LEVEL_FULL
                } else {
                    overlay.level_millis
                },
                tick: overlay.level_tick,
            },
        )
    } else {
        None
    }
}

pub fn meter_frame(overlay: &Overlay) -> (frame: Option<MeterFrame>)
    ensures
        frame == meter_of(*overlay),
{
    let width: i32 = if overlay.metrics.current.width < 1 { 1 } else { overlay.metrics.current.width };
    let height: i32 = if overlay.metrics.current.height < 1 { 1 } else { overlay.metrics.current.height };
    if overlay.metrics.hover && height >= MIN_METER_HEIGHT {
        Some(
            MeterFrame {
                width,
                height,
                level_millis: if overlay.level_millis > LEVEL_FULL {
                    LEVEL_FULL
                } else {
                    overlay.level_millis
                },
                tick: overlay.level_tick,
            },
        )
    } else {
        None
    }
}

/// How far bar `index` is driven, in thousandths: the product of the base
/// level, the bar's wobble and its weight, each in thousandths, held to at
/// most 1000.
pub open spec fn bar_level_of(base_level: int, wobble: int, index: int) -> int {
    clamp_level(round_div(clamp_level(base_level) * wobble * weight_of(index), 1_000_000))
}

pub fn bar_level(base_level: u32, wobble: u32, index: u32) -> (level: u32)
    ensures
        level == bar_level_of(base_level as int, wobble as int, index as int),
        level <= LEVEL_FULL,
{
    let held: u128 = if base_level > LEVEL_FULL { LEVEL_FULL as u128 } else { base_level as u128 };
    let weight: u128 = bar_weight(index) as u128;
    assert(held * wobble <= 1000 * 0xffff_ffff) by (nonlinear_arith)
        requires
            held <= 1000,
            wobble <= 0xffff_ffff,
    ;
    let driven: u128 = held * wobble as u128;
    assert(driven * weight <= 1000 * 0xffff_ffff * 1000) by (nonlinear_arith)
        requires
            driven <= 1000 * 0xffff_ffff,
            weight <= 1000,
    ;
    let rounded: u128 = crate::geometry::round_div_u128(driven * weight, 1_000_000);
    if rounded > LEVEL_FULL as u128 {
        LEVEL_FULL
    } else {
        rounded as u32
    }
}

/// The height that is left for a bar in a window of the given height.
pub open spec fn available_height(height: int) -> int {
    at_least_one(height - 6)
}

/// The height of a bar at level 0.
pub open spec fn lowest_bar(height: int) -> int {
    if available_height(height) < 2 {
        available_height(height)
    } else {
        2
    }
}

/// A bar level held to at most 1000 thousandths.
pub open spec fn clamp_level(level: int) -> int {
    if level > 1000 {
        1000
    } else {
        level
    }
}

/// The height of a bar that is driven to `level` thousandths: from the
/// lowest bar at 0 to the available height at 1000, in proportion, rounded.
pub open spec fn bar_height_of(height: int, level: int) -> int {
    lerp_scalar(lowest_bar(height), available_height(height), clamp_level(level), 1000)
}

/// The rectangle of bar `index` in a window of the given size. The row of
/// bars is centred in the width; each bar is centred on the middle line and
/// cut off at the top and bottom edges of the window.
pub open spec fn bar_rect_of(width: int, height: int, index: int, level: int) -> BarRect {
    let h = bar_height_of(height, level);
    let left = round_div(width - 43, 2) + index * 5;
    let middle = round_div(height, 2);
    BarRect {
        left: left as i32,
        top: (if middle - h / 2 < 0 {
            0
        } else {
            middle - h / 2
        }) as i32,
        right: (left + 3) as i32,
        bottom: (if middle + (h - h / 2) > height {
            height
        } else {
            middle + (h - h / 2)
        }) as i32,
    }
}

pub fn bar_height(height: i32, level: u32) -> (h: i32)
    ensures
        h == bar_height_of(height as int, level as int),
        1 <= h,
        h <= available_height(height as int),
{
    let room: i64 = height as i64 - 2 * BAR_PADDING_Y as i64;
    let available: i32 = if room < 1 { 1 } else { room as i32 };
    let lowest: i32 = if available < MIN_BAR_HEIGHT { available } else { MIN_BAR_HEIGHT };
    let held: u32 = if level > LEVEL_FULL { LEVEL_FULL } else { level };
    proof {
        lemma_lerp_scalar_between(lowest as int, available as int, held as int, 1000);
    }
    lerp_i32(lowest, available, held, LEVEL_FULL)
}

pub fn bar_rect(width: i32, height: i32, index: u32, level: u32) -> (rect: BarRect)
    requires
        index < BAR_COUNT,
    ensures
        rect == bar_rect_of(width as int, height as int, index as int, level as int),
        rect.right == rect.left + BAR_WIDTH,
        rect.top >= 0,
        rect.bottom <= height,
{
    let h: i64 = bar_height(height, level) as i64;
    proof {
        crate::geometry::lemma_round_div_magnitude(width - 43, 2);
        crate::geometry::lemma_round_div_magnitude(height as int, 2);
        crate::geometry::lemma_round_div_nearest(width - 43, 2);
        crate::geometry::lemma_round_div_nearest(height as int, 2);
    }
    let start: i64 = round_div_i64(width as i64 - BAR_ROW_WIDTH as i64, 2);
    let middle: i64 = round_div_i64(height as i64, 2);
    let pitch: i64 = BAR_PITCH as i64;
    assert(index as int * pitch as int == 5 * index) by (nonlinear_arith)
        requires
            pitch == 5,
    ;
    let left: i64 = start + index as i64 * pitch;
    let half: i64 = h / 2;
    let top: i64 = if middle - half < 0 { 0 } else { middle - half };
    let bottom: i64 = if middle + (h - half) > height as i64 { height as i64 } else { middle + (h - half) };
    BarRect {
        left: left as i32,
        top: top as i32,
        right: (left + BAR_WIDTH as i64) as i32,
        bottom: bottom as i32,
    }
}

/// The rectangles of all bars, from left to right. `base_level` is the level
/// after its response curve and `wobbles` holds one multiplier per bar, all in
/// thousandths; each bar is driven by their product with the bar's weight.
pub fn draw_level_bars(width: i32, height: i32, base_level: u32, wobbles: &Vec<u32>) -> (bars: Vec<
    BarRect,
>)
    requires
        wobbles.len() == BAR_COUNT,
    ensures
        bars.len() == BAR_COUNT,
        forall|i: int|
            0 <= i < BAR_COUNT ==> bars[i] == bar_rect_of(
                width as int,
                height as int,
                i,
                bar_level_of(base_level as int, wobbles[i] as int, i),
            ),
{
    let mut bars: Vec<BarRect> = Vec::new();
    let mut index: u32 = 0;
    while index < BAR_COUNT
        invariant
            index <= BAR_COUNT,
            wobbles.len() == BAR_COUNT,
            bars.len() == index,
            forall|i: int|
                0 <= i < index ==> bars[i] == bar_rect_of(
                    width as int,
                    height as int,
                    i,
                    bar_level_of(base_level as int, wobbles[i] as int, i),
                ),
        decreases BAR_COUNT - index,
    {
        let level: u32 = bar_level(base_level, wobbles[index as usize], index);
        let rect: BarRect = bar_rect(width, height, index, level);
        bars.push(rect);
        index = index + 1;
    }
    bars
}

/// The bars stand side by side with the fixed gap between them, all have the
/// fixed width, and the row is centred in the window up to the half pixel
/// that rounding may cost.
pub proof fn lemma_bars_evenly_spaced(width: i32, height: i32, index: int, level: int, next_level: int)
    requires
        0 <= index < BAR_COUNT - 1,
    ensures
        bar_rect_of(width as int, height as int, index, level).right == bar_rect_of(
            width as int,
            height as int,
            index,
            level,
        ).left + BAR_WIDTH,
        bar_rect_of(width as int, height as int, index + 1, next_level).left == bar_rect_of(
            width as int,
            height as int,
            index,
            level,
        ).right + BAR_GAP,
        -1 <= 2 * bar_rect_of(width as int, height as int, 0, level).left + BAR_ROW_WIDTH - width
            <= 1,
{
    crate::geometry::lemma_round_div_magnitude(width - 43, 2);
    crate::geometry::lemma_round_div_nearest(width - 43, 2);
}

/// A bar is never lower than one pixel nor higher than the window leaves
/// room for, and a higher level never gives a lower bar.
pub proof fn lemma_bar_height_grows_with_level(height: i32, level: int, higher: int)
    requires
        0 <= level <= higher,
    ensures
        1 <= bar_height_of(height as int, level) <= available_height(height as int),
        bar_height_of(height as int, level) <= bar_height_of(height as int, higher),
        bar_height_of(height as int, 0) == lowest_bar(height as int),
        higher >= 1000 ==> bar_height_of(height as int, higher) == available_height(height as int),
{
    let low = lowest_bar(height as int);
    let high = available_height(height as int);
    lemma_lerp_scalar_between(low, high, clamp_level(level), 1000);
    lemma_lerp_scalar_between(low, high, clamp_level(higher), 1000);
    assert((high - low) * clamp_level(level) <= (high - low) * clamp_level(higher)) by (nonlinear_arith)
        requires
            high - low >= 0,
            clamp_level(level) <= clamp_level(higher),
    ;
    crate::geometry::lemma_round_div_monotonic(
        (high - low) * clamp_level(level),
        (high - low) * clamp_level(higher),
        1000,
    );
}

} // verus!
