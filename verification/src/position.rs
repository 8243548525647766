//! HUD placement: from a screen's visible rectangle, a HUD size and a
//! placement preference, compute an on-screen origin, horizontally centered
//! and clamped into the screen bounds.
//!
//! Coordinates are in the same subunits as the layout: 1/10000 point.

use vstd::prelude::*;

use crate::layout::spec_clamped_scale;
use crate::settings::HudPosition;
use crate::{clamp_i64, spec_clamp, spec_imax};

verus! {

/// A screen's visible rectangle, in subunits. The origin is its lower-left
/// corner; width and height are nonnegative.
#[derive(Clone, Copy, Debug, PartialEq, Eq, Structural)]
pub struct ScreenFrame {
    pub x: i64,
    pub y: i64,
    pub width: i64,
    pub height: i64,
}

/// The top/bottom screen margin at 1.0 scale: 24 points, as a base constant
/// in tenths of a point.
pub const BASE_SCREEN_MARGIN_DECI: i64 = 240;

/// The margin never shrinks below 12 points nor grows past 80.
pub const MIN_SCREEN_MARGIN_SUBUNITS: i64 = 120000;

pub const MAX_SCREEN_MARGIN_SUBUNITS: i64 = 800000;

/// A generous bound on any screen coordinate or HUD size handed in: about
/// 1.1e8 points, far beyond any display, small enough that every sum below
/// stays within `i64`.
pub const COORDINATE_LIMIT: i64 = 0x100_0000_0000;

/// The scaled screen margin, clamped into [12, 80] points.
pub open spec fn spec_screen_margin(scale_millis: u32) -> int {
    spec_clamp(
        BASE_SCREEN_MARGIN_DECI * spec_clamped_scale(scale_millis),
        MIN_SCREEN_MARGIN_SUBUNITS as int,
        MAX_SCREEN_MARGIN_SUBUNITS as int,
    )
}

/// Where the HUD goes: `x` centers it horizontally; `y` follows the
/// placement preference (a margin below the top edge, the vertical center,
/// or a margin above the bottom edge); both are clamped so the HUD never
/// leaves the frame.
pub open spec fn spec_hud_origin(
    frame: ScreenFrame,
    width: int,
    height: int,
    position: HudPosition,
    scale_millis: u32,
) -> (int, int) {
    let min_x = frame.x as int;
    let max_x = frame.x + spec_imax(frame.width - width, 0);
    let x0 = if frame.width >= width {
        frame.x + (frame.width - width) / 2
    } else {
        frame.x as int
    };
    let min_y = frame.y as int;
    let max_y = frame.y + spec_imax(frame.height - height, 0);
    let margin = spec_screen_margin(scale_millis);
    let y0 = match position {
        HudPosition::Top => max_y - margin,
        HudPosition::Center => if frame.height >= height {
            frame.y + (frame.height - height) / 2
        } else {
            frame.y as int
        },
        HudPosition::Bottom => min_y + margin,
    };
    (spec_clamp(x0, min_x, max_x), spec_clamp(y0, min_y, max_y))
}

/// Compute the HUD origin for a screen frame.
pub fn hud_origin_for_frame(
    frame: ScreenFrame,
    width: i64,
    height: i64,
    position: HudPosition,
    scale_millis: u32,
) -> (r: (i64, i64))
    requires
        -COORDINATE_LIMIT <= frame.x <= COORDINATE_LIMIT,
        -COORDINATE_LIMIT <= frame.y <= COORDINATE_LIMIT,
        0 <= frame.width <= COORDINATE_LIMIT,
        0 <= frame.height <= COORDINATE_LIMIT,
        0 <= width <= COORDINATE_LIMIT,
        0 <= height <= COORDINATE_LIMIT,
    ensures
        r.0 == spec_hud_origin(frame, width as int, height as int, position, scale_millis).0,
        r.1 == spec_hud_origin(frame, width as int, height as int, position, scale_millis).1,
{
    let min_x = frame.x;
    let max_x = frame.x + if frame.width >= width {
        frame.width - width
    } else {
        0
    };
    let x0 = if frame.width >= width {
        frame.x + (frame.width - width) / 2
    } else {
        frame.x
    };
    let min_y = frame.y;
    let max_y = frame.y + if frame.height >= height {
        frame.height - height
    } else {
        0
    };
    let s = crate::layout::clamped_scale(scale_millis);
    let margin = clamp_i64(
        BASE_SCREEN_MARGIN_DECI * s,
        MIN_SCREEN_MARGIN_SUBUNITS,
        MAX_SCREEN_MARGIN_SUBUNITS,
    );
    let y0 = match position {
        HudPosition::Top => max_y - margin,
        HudPosition::Center => {
            if frame.height >= height {
                frame.y + (frame.height - height) / 2
            } else {
                frame.y
            }
        },
        HudPosition::Bottom => min_y + margin,
    };
    let x = clamp_i64(x0, min_x, max_x);
    let y = clamp_i64(y0, min_y, max_y);
    (x, y)
}

} // verus!
