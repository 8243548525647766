//! HUD layout: the scaled dimension set, the width estimate from text
//! content, and the solver that turns a requested width and a measured text
//! height into the final window geometry.
//!
//! Lengths are integer subunits of 1/10000 point: a base constant in tenths
//! of a point times a scale factor in thousandths. A scale of 1.0 (1000)
//! turns the 200.0-point minimum width into 2_000_000 subunits.

use vstd::arithmetic::mul::{lemma_mul_inequality, lemma_mul_upper_bound};
use vstd::prelude::*;
use vstd::string::StrSliceExecFns;

use crate::chars::{char_is_ascii, is_ascii_char};
use crate::settings::HudBackgroundColor;
use crate::text::{spec_clean_lines, split_non_trailing_lines};
use crate::{clamp_i64, spec_clamp, spec_imax, spec_imin};

verus! {

/// Subunits in one typographic point.
pub const SUBUNITS_PER_POINT: i64 = 10000;

pub const BASE_MIN_WIDTH_DECI: i64 = 2000;

pub const BASE_MAX_WIDTH_DECI: i64 = 8200;

pub const BASE_MIN_HEIGHT_DECI: i64 = 520;

pub const BASE_MAX_HEIGHT_DECI: i64 = 2800;

pub const BASE_HORIZONTAL_PADDING_DECI: i64 = 160;

pub const BASE_VERTICAL_PADDING_DECI: i64 = 100;

pub const BASE_ICON_WIDTH_DECI: i64 = 220;

pub const BASE_ICON_HEIGHT_DECI: i64 = 220;

pub const BASE_GAP_DECI: i64 = 80;

pub const BASE_LINE_HEIGHT_DECI: i64 = 220;

pub const BASE_CHAR_WIDTH_DECI: i64 = 96;

pub const MIN_SCALE_MILLIS: i64 = 500;

pub const MAX_SCALE_MILLIS: i64 = 2000;

/// All absolute HUD dimensions for one scale factor, in subunits.
#[derive(Clone, Copy, Debug, PartialEq, Eq, Structural)]
pub struct HudDimensions {
    pub min_width: i64,
    pub max_width: i64,
    pub min_height: i64,
    pub max_height: i64,
    pub horizontal_padding: i64,
    pub vertical_padding: i64,
    pub icon_width: i64,
    pub icon_height: i64,
    pub gap: i64,
    pub line_height_estimate: i64,
    pub char_width_estimate: i64,
}

/// The scale factor the engine actually uses: whatever arrives is clamped
/// into [0.5, 2.0] (in thousandths) first.
pub open spec fn spec_clamped_scale(scale_millis: u32) -> int {
    spec_clamp(scale_millis as int, MIN_SCALE_MILLIS as int, MAX_SCALE_MILLIS as int)
}

/// Every dimension is its base constant times the clamped scale.
pub open spec fn spec_hud_dimensions(scale_millis: u32) -> HudDimensions {
    let s = spec_clamped_scale(scale_millis);
    HudDimensions {
        min_width: (BASE_MIN_WIDTH_DECI * s) as i64,
        max_width: (BASE_MAX_WIDTH_DECI * s) as i64,
        min_height: (BASE_MIN_HEIGHT_DECI * s) as i64,
        max_height: (BASE_MAX_HEIGHT_DECI * s) as i64,
        horizontal_padding: (BASE_HORIZONTAL_PADDING_DECI * s) as i64,
        vertical_padding: (BASE_VERTICAL_PADDING_DECI * s) as i64,
        icon_width: (BASE_ICON_WIDTH_DECI * s) as i64,
        icon_height: (BASE_ICON_HEIGHT_DECI * s) as i64,
        gap: (BASE_GAP_DECI * s) as i64,
        line_height_estimate: (BASE_LINE_HEIGHT_DECI * s) as i64,
        char_width_estimate: (BASE_CHAR_WIDTH_DECI * s) as i64,
    }
}

/// Clamp a scale factor in thousandths into [0.5, 2.0].
pub fn clamped_scale(scale_millis: u32) -> (s: i64)
    ensures
        s == spec_clamped_scale(scale_millis),
        MIN_SCALE_MILLIS <= s <= MAX_SCALE_MILLIS,
{
    clamp_i64(scale_millis as i64, MIN_SCALE_MILLIS, MAX_SCALE_MILLIS)
}

/// Derive all absolute HUD dimensions from a scale factor.
pub fn hud_dimensions(scale_millis: u32) -> (d: HudDimensions)
    ensures
        d == spec_hud_dimensions(scale_millis),
{
    let s = clamped_scale(scale_millis);
    HudDimensions {
        min_width: BASE_MIN_WIDTH_DECI * s,
        max_width: BASE_MAX_WIDTH_DECI * s,
        min_height: BASE_MIN_HEIGHT_DECI * s,
        max_height: BASE_MAX_HEIGHT_DECI * s,
        horizontal_padding: BASE_HORIZONTAL_PADDING_DECI * s,
        vertical_padding: BASE_VERTICAL_PADDING_DECI * s,
        icon_width: BASE_ICON_WIDTH_DECI * s,
        icon_height: BASE_ICON_HEIGHT_DECI * s,
        gap: BASE_GAP_DECI * s,
        line_height_estimate: BASE_LINE_HEIGHT_DECI * s,
        char_width_estimate: BASE_CHAR_WIDTH_DECI * s,
    }
}

/// Display units of a line before the one-unit floor: 1 per ASCII character,
/// 2 per anything wider.
pub open spec fn spec_units_sum(l: Seq<char>) -> int
    decreases l.len(),
{
    if l.len() == 0 {
        0
    } else {
        spec_units_sum(l.drop_last()) + if is_ascii_char(l.last()) {
            1int
        } else {
            2int
        }
    }
}

/// Display units of a line: at least one, so even an empty line has width.
pub open spec fn spec_line_units(l: Seq<char>) -> int {
    spec_imax(spec_units_sum(l), 1)
}

/// The widest line of the text, in display units; one unit at minimum.
pub open spec fn spec_max_units(ls: Seq<Seq<char>>) -> int
    decreases ls.len(),
{
    if ls.len() == 0 {
        1
    } else {
        spec_imax(spec_max_units(ls.drop_last()), spec_line_units(ls.last()))
    }
}

/// The estimated width for a given display-unit count: character estimate
/// times units, plus the fixed padding, icon and gap, clamped into the
/// width bounds.
pub open spec fn spec_width_for_units(u: int, scale_millis: u32) -> int {
    let d = spec_hud_dimensions(scale_millis);
    spec_clamp(
        u * d.char_width_estimate + d.horizontal_padding * 2 + d.icon_width + d.gap,
        d.min_width as int,
        d.max_width as int,
    )
}

/// The estimated HUD width for a text.
pub open spec fn spec_hud_width(t: Seq<char>, scale_millis: u32) -> int {
    spec_width_for_units(spec_max_units(spec_clean_lines(t)), scale_millis)
}

/// Sums never shrink as a line grows.
pub proof fn lemma_units_sum_nonneg(l: Seq<char>)
    ensures
        spec_units_sum(l) >= 0,
        spec_units_sum(l) <= 2 * l.len(),
    decreases l.len(),
{
    if l.len() > 0 {
        lemma_units_sum_nonneg(l.drop_last());
    }
}

/// Display-unit count of one line, capped at `UNIT_CAP`: past the cap every
/// width estimate already clamps to the maximum, so nothing finer matters.
pub const UNIT_CAP: u64 = 1000000;

fn line_display_units(line: &str) -> (u: u64)
    ensures
        u as int == spec_imin(spec_line_units(line@), UNIT_CAP as int),
{
    let n = line.unicode_len();
    let mut sum: u64 = 0;
    let mut i: usize = 0;
    proof {
        assert(line@.take(0) =~= Seq::<char>::empty());
    }
    while i < n
        invariant
            i <= n,
            n == line@.len(),
            sum as int == spec_imin(spec_units_sum(line@.take(i as int)), UNIT_CAP as int),
            sum <= UNIT_CAP,
        decreases n - i,
    {
        let c = line.get_char(i);
        let delta: u64 = if char_is_ascii(c) {
            1
        } else {
            2
        };
        proof {
            assert(line@.take(i as int + 1).drop_last() =~= line@.take(i as int));
            assert(line@.take(i as int + 1).last() == line@[i as int]);
            lemma_units_sum_nonneg(line@.take(i as int));
        }
        if sum < UNIT_CAP {
            sum = sum + delta;
            if sum > UNIT_CAP {
                sum = UNIT_CAP;
            }
        }
        i = i + 1;
    }
    proof {
        assert(line@.take(n as int) =~= line@);
    }
    if sum == 0 {
        1
    } else {
        sum
    }
}

/// Estimate the HUD width a text needs at a given scale, in subunits.
pub fn hud_width_for_text_with_scale(text: &str, scale_millis: u32) -> (w: i64)
    ensures
        w == spec_hud_width(text@, scale_millis),
        spec_hud_dimensions(scale_millis).min_width <= w <= spec_hud_dimensions(
            scale_millis,
        ).max_width,
{
    let lines = split_non_trailing_lines(text);
    let ghost clean = spec_clean_lines(text@);
    let mut maxu: u64 = 1;
    let mut i: usize = 0;
    proof {
        assert(clean.take(0) =~= Seq::<Seq<char>>::empty());
    }
    while i < lines.len()
        invariant
            i <= lines@.len(),
            lines.deep_view() == clean,
            1 <= maxu <= UNIT_CAP,
            maxu as int == spec_imin(spec_max_units(clean.take(i as int)), UNIT_CAP as int),
        decreases lines@.len() - i,
    {
        let u = line_display_units(lines[i]);
        proof {
            assert(lines.deep_view()[i as int] == lines@[i as int]@);
            assert(clean.take(i as int + 1).drop_last() =~= clean.take(i as int));
            assert(clean.take(i as int + 1).last() == clean[i as int]);
        }
        if u > maxu {
            maxu = u;
        }
        i = i + 1;
    }
    proof {
        assert(lines.deep_view().len() == lines@.len());
        assert(clean.take(lines@.len() as int) =~= clean);
    }
    let d = hud_dimensions(scale_millis);
    let fixed = d.horizontal_padding * 2 + d.icon_width + d.gap;
    let units = maxu as i64;
    proof {
        assert(d.char_width_estimate <= 192000) by {
            assert(spec_clamped_scale(scale_millis) <= 2000);
        }
        assert(units * d.char_width_estimate <= 1000000 * 192000) by {
            lemma_mul_upper_bound(units as int, 1000000, d.char_width_estimate as int, 192000);
        }
        assert(units * d.char_width_estimate >= 0) by {
            lemma_mul_inequality(0, units as int, d.char_width_estimate as int);
        }
    }
    let raw = units * d.char_width_estimate + fixed;
    let w = clamp_i64(raw, d.min_width, d.max_width);
    proof {
        let m = spec_max_units(clean);
        let cw = d.char_width_estimate as int;
        if m > UNIT_CAP {
            // both the capped and the true unit count exceed every width bound
            assert(units == UNIT_CAP);
            assert(m * cw >= UNIT_CAP * cw) by {
                lemma_mul_inequality(UNIT_CAP as int, m, cw);
            }
            assert(UNIT_CAP * cw >= UNIT_CAP * 48000) by {
                lemma_mul_inequality(48000, cw, UNIT_CAP as int);
                assert(cw >= 48000);
                assert(UNIT_CAP * cw == cw * UNIT_CAP) by {
                    vstd::arithmetic::mul::lemma_mul_is_commutative(UNIT_CAP as int, cw);
                }
                assert(cw * UNIT_CAP >= 48000 * UNIT_CAP);
            }
            assert(w == d.max_width);
            assert(spec_hud_width(text@, scale_millis) == d.max_width);
        } else {
            assert(units == m);
        }
    }
    w
}

/// The final HUD geometry, in subunits.
#[derive(Clone, Copy, Debug, PartialEq, Eq, Structural)]
pub struct HudLayoutMetrics {
    pub width: i64,
    pub text_width: i64,
    pub height: i64,
    pub text_height: i64,
    pub label_y: i64,
    pub icon_y: i64,
}

/// The layout solution: the width is clamped into bounds; the text block is
/// never taller than the padded height budget nor shorter than one line; the
/// label is centered vertically; the icon sits at the bottom of the text
/// block but inside the padding box.
pub open spec fn spec_layout_metrics(w0: int, m0: int, scale_millis: u32) -> HudLayoutMetrics {
    let d = spec_hud_dimensions(scale_millis);
    let w = spec_clamp(w0, d.min_width as int, d.max_width as int);
    let tw = w - (d.horizontal_padding * 2 + d.icon_width + d.gap);
    let cap = spec_imax(d.max_height - d.vertical_padding * 2, d.line_height_estimate as int);
    let m = spec_imin(m0, cap);
    let h = spec_clamp(m + d.vertical_padding * 2, d.min_height as int, d.max_height as int);
    let th = spec_imax(spec_imin(h - d.vertical_padding * 2, m), d.line_height_estimate as int);
    let ly = (h - th) / 2;
    let iy = spec_imin(
        spec_imax(ly + th - d.icon_height, d.vertical_padding as int),
        h - d.icon_height - d.vertical_padding,
    );
    HudLayoutMetrics {
        width: w as i64,
        text_width: tw as i64,
        height: h as i64,
        text_height: th as i64,
        label_y: ly as i64,
        icon_y: iy as i64,
    }
}

/// Solve the HUD geometry from a requested width and the measured height of
/// the text block (both in subunits).
pub fn compute_hud_layout_metrics_with_scale(width: i64, measured_text_height: i64, scale_millis: u32) -> (m:
    HudLayoutMetrics)
    requires
        measured_text_height >= 0,
    ensures
        m == spec_layout_metrics(width as int, measured_text_height as int, scale_millis),
{
    let d = hud_dimensions(scale_millis);
    let w = clamp_i64(width, d.min_width, d.max_width);
    let tw = w - (d.horizontal_padding * 2 + d.icon_width + d.gap);
    let budget = d.max_height - d.vertical_padding * 2;
    let cap = if budget >= d.line_height_estimate {
        budget
    } else {
        d.line_height_estimate
    };
    let m0 = if measured_text_height <= cap {
        measured_text_height
    } else {
        cap
    };
    let h = clamp_i64(m0 + d.vertical_padding * 2, d.min_height, d.max_height);
    let inner = h - d.vertical_padding * 2;
    let th0 = if inner <= m0 {
        inner
    } else {
        m0
    };
    let th = if th0 >= d.line_height_estimate {
        th0
    } else {
        d.line_height_estimate
    };
    let ly = (h - th) / 2;
    let iy0 = ly + th - d.icon_height;
    let iy1 = if iy0 >= d.vertical_padding {
        iy0
    } else {
        d.vertical_padding
    };
    let iy_max = h - d.icon_height - d.vertical_padding;
    let iy = if iy1 <= iy_max {
        iy1
    } else {
        iy_max
    };
    HudLayoutMetrics { width: w, text_width: tw, height: h, text_height: th, label_y: ly, icon_y: iy }
}

/// The width estimate is monotone: more display units never ask for less
/// width.
pub proof fn lemma_width_monotone(u1: int, u2: int, scale_millis: u32)
    requires
        u1 <= u2,
    ensures
        spec_width_for_units(u1, scale_millis) <= spec_width_for_units(u2, scale_millis),
{
    let d = spec_hud_dimensions(scale_millis);
    lemma_mul_inequality(u1, u2, d.char_width_estimate as int);
}

/// The width estimate always lands within the scaled width bounds.
pub proof fn lemma_width_in_range(u: int, scale_millis: u32)
    ensures
        spec_hud_dimensions(scale_millis).min_width <= spec_width_for_units(u, scale_millis)
            <= spec_hud_dimensions(scale_millis).max_width,
{
}

/// So, in particular, the width estimated for any text lies within the
/// scaled width bounds.
pub proof fn lemma_hud_width_in_range(t: Seq<char>, scale_millis: u32)
    ensures
        spec_hud_dimensions(scale_millis).min_width <= spec_hud_width(t, scale_millis)
            <= spec_hud_dimensions(scale_millis).max_width,
{
    lemma_width_in_range(spec_max_units(spec_clean_lines(t)), scale_millis);
}

/// Solving is idempotent: feeding the solved width and text height back in
/// reproduces the same geometry, height included.
pub proof fn lemma_solve_idempotent(w0: int, m0: int, scale_millis: u32)
    ensures
        spec_layout_metrics(
            spec_layout_metrics(w0, m0, scale_millis).width as int,
            spec_layout_metrics(w0, m0, scale_millis).text_height as int,
            scale_millis,
        ) == spec_layout_metrics(w0, m0, scale_millis),
{
}

/// Structural bounds of a solved layout: width and height within their
/// scaled bounds, and the text block within the padded height budget.
pub proof fn lemma_layout_invariants(w0: int, m0: int, scale_millis: u32)
    ensures
        spec_hud_dimensions(scale_millis).min_width <= spec_layout_metrics(
            w0,
            m0,
            scale_millis,
        ).width <= spec_hud_dimensions(scale_millis).max_width,
        spec_hud_dimensions(scale_millis).min_height <= spec_layout_metrics(
            w0,
            m0,
            scale_millis,
        ).height <= spec_hud_dimensions(scale_millis).max_height,
        spec_layout_metrics(w0, m0, scale_millis).text_height <= spec_layout_metrics(
            w0,
            m0,
            scale_millis,
        ).height - 2 * spec_hud_dimensions(scale_millis).vertical_padding,
{
}

/// Background tints, RGBA in hundredths (0 to 100).
pub open spec fn spec_hud_background_rgba(color: HudBackgroundColor) -> (u8, u8, u8, u8) {
    match color {
        HudBackgroundColor::Default => (0, 0, 0, 78),
        HudBackgroundColor::Yellow => (43, 34, 4, 90),
        HudBackgroundColor::Blue => (8, 22, 53, 90),
        HudBackgroundColor::Green => (8, 35, 22, 90),
        HudBackgroundColor::Red => (47, 14, 14, 90),
        HudBackgroundColor::Purple => (36, 16, 47, 90),
    }
}

/// The background tint of each color choice, RGBA in hundredths.
pub fn hud_background_rgba(color: HudBackgroundColor) -> (r: (u8, u8, u8, u8))
    ensures
        r == spec_hud_background_rgba(color),
{
    match color {
        HudBackgroundColor::Default => (0, 0, 0, 78),
        HudBackgroundColor::Yellow => (43, 34, 4, 90),
        HudBackgroundColor::Blue => (8, 22, 53, 90),
        HudBackgroundColor::Green => (8, 35, 22, 90),
        HudBackgroundColor::Red => (47, 14, 14, 90),
        HudBackgroundColor::Purple => (36, 16, 47, 90),
    }
}

} // verus!
