//! Sizes and positions of the lines on a drawn countdown surface.

use vstd::prelude::*;
use crate::config::clamped;

verus! {

/// Limits `v` to `[min, max]`: `min` below it, `max` above it.
pub fn clamp_i32(v: i32, min: i32, max: i32) -> (r: i32)
    ensures
        r == (if v < min {
            min
        } else if v > max {
            max
        } else {
            v
        }),
{
    if v < min {
        min
    } else if v > max {
        max
    } else {
        v
    }
}

/// Font sizes, in pixels, and vertical centres of the three lines of the
/// countdown surface: the title, the countdown and the hint.
#[derive(Clone, Copy, Debug, PartialEq, Eq, Structural)]
pub struct CountdownLayout {
    pub title_px: i32,
    pub countdown_px: i32,
    pub hint_px: i32,
    pub title_center_y: i32,
    pub countdown_center_y: i32,
    pub hint_center_y: i32,
}

/// The smaller side of a `width` by `height` area, at least one.
pub open spec fn base_side(width: int, height: int) -> int {
    let m = if width < height { width } else { height };
    if m < 1 { 1 } else { m }
}

/// The layout of the countdown surface on the client rectangle from
/// (`left`, `top`) to (`right`, `bottom`): font sizes scale with its
/// smaller side within fixed bounds, and the lines are centred at 32%, 50%
/// and 68% of its height.
pub fn countdown_layout(left: i32, top: i32, right: i32, bottom: i32) -> (r: CountdownLayout)
    requires
        left <= right,
        top <= bottom,
    ensures
        ({
            let base = base_side(right - left, bottom - top);
            let height = bottom - top;
            &&& r.title_px == clamped(base / 18, 28, 56)
            &&& r.countdown_px == clamped(base / 9, 64, 144)
            &&& r.hint_px == clamped(base / 28, 18, 36)
            &&& r.title_center_y == top + height * 32 / 100
            &&& r.countdown_center_y == top + height * 50 / 100
            &&& r.hint_center_y == top + height * 68 / 100
        }),
{
    let width: i64 = right as i64 - left as i64;
    let height: i64 = bottom as i64 - top as i64;
    let smaller = if width < height { width } else { height };
    let base = if smaller < 1 { 1 } else { smaller };
    assert(base <= 0xffff_ffff);
    let title_px = clamp_i32((base / 18) as i32, 28, 56);
    let countdown_px = clamp_i32((base / 9) as i32, 64, 144);
    let hint_px = clamp_i32((base / 28) as i32, 18, 36);
    assert(0 <= height * 32 / 100 <= height) by (nonlinear_arith)
        requires
            height >= 0,
    ;
    assert(0 <= height * 50 / 100 <= height) by (nonlinear_arith)
        requires
            height >= 0,
    ;
    assert(0 <= height * 68 / 100 <= height) by (nonlinear_arith)
        requires
            height >= 0,
    ;
    CountdownLayout {
        title_px,
        countdown_px,
        hint_px,
        title_center_y: (top as i64 + height * 32 / 100) as i32,
        countdown_center_y: (top as i64 + height * 50 / 100) as i32,
        hint_center_y: (top as i64 + height * 68 / 100) as i32,
    }
}

/// A rectangle by its edges, in pixels.
#[derive(Clone, Copy, Debug, PartialEq, Eq, Structural)]
pub struct Rect {
    pub left: i32,
    pub top: i32,
    pub right: i32,
    pub bottom: i32,
}

/// The band of `full` that is `line_height` tall (rounded down to an even
/// height) and centred at `center_y`.
pub fn line_rect(full: &Rect, center_y: i32, line_height: i32) -> (r: Rect)
    requires
        line_height >= 0,
        i32::MIN <= center_y - line_height / 2,
        center_y + line_height / 2 <= i32::MAX,
    ensures
        r == (Rect {
            left: full.left,
            top: (center_y - line_height / 2) as i32,
            right: full.right,
            bottom: (center_y + line_height / 2) as i32,
        }),
{
    Rect {
        left: full.left,
        top: center_y - line_height / 2,
        right: full.right,
        bottom: center_y + line_height / 2,
    }
}

} // verus!
