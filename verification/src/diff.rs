//! Pixel-level comparison of two rendered snapshots: equal-sized grids of
//! 8-bit RGBA pixels are compared channel by channel with a small tolerance,
//! and an annotated grid marks where they differ.
//!
//! The host decodes images into 8-bit components (rounding each float
//! component in [0, 1] to `round(c * 255)`) and turns the annotated grid
//! back into an image; this module never sees a file format.

use vstd::prelude::*;

use crate::spec_imax;

verus! {

/// One pixel, 8 bits per channel.
#[derive(Clone, Copy, Debug, PartialEq, Eq, Structural)]
pub struct Rgba {
    pub r: u8,
    pub g: u8,
    pub b: u8,
    pub a: u8,
}

/// Channel differences up to this many 8-bit units are rendering noise, not
/// a difference.
pub const PIXEL_CHANNEL_TOLERANCE: u8 = 2;

/// The alpha of the neutral-gray ghost marker on unchanged pixels
/// (0.08 of full, in 8-bit units).
pub const GHOST_ALPHA: u8 = 20;

/// The alpha of the red highlight on changed pixels (0.9 of full, in 8-bit
/// units).
pub const HIGHLIGHT_ALPHA: u8 = 230;

/// How far two channel values lie apart.
pub open spec fn spec_channel_delta(a: u8, b: u8) -> int {
    if a >= b {
        a - b
    } else {
        b - a
    }
}

/// Two pixels count as the same when every channel, alpha included, lies
/// within the tolerance.
pub open spec fn spec_same_pixel(p: Rgba, q: Rgba) -> bool {
    &&& spec_channel_delta(p.r, q.r) <= PIXEL_CHANNEL_TOLERANCE
    &&& spec_channel_delta(p.g, q.g) <= PIXEL_CHANNEL_TOLERANCE
    &&& spec_channel_delta(p.b, q.b) <= PIXEL_CHANNEL_TOLERANCE
    &&& spec_channel_delta(p.a, q.a) <= PIXEL_CHANNEL_TOLERANCE
}

/// What the annotated grid shows at one coordinate: a faint gray ghost of
/// the current pixel where the images agree, and a red highlight whose
/// intensity follows the largest color-channel difference (always at least
/// half intensity) where they differ.
pub open spec fn spec_diff_pixel(p: Rgba, q: Rgba) -> Rgba {
    if spec_same_pixel(p, q) {
        let gray = ((q.r + q.g + q.b) as int / 3) as u8;
        Rgba { r: gray, g: gray, b: gray, a: GHOST_ALPHA }
    } else {
        let delta = spec_imax(
            spec_channel_delta(p.r, q.r),
            spec_imax(spec_channel_delta(p.g, q.g), spec_channel_delta(p.b, q.b)),
        );
        let intensity = spec_imax(delta, 128) as u8;
        Rgba { r: intensity, g: 0, b: 0, a: HIGHLIGHT_ALPHA }
    }
}

/// How many corresponding pixels differ.
pub open spec fn spec_diff_count(b: Seq<Rgba>, c: Seq<Rgba>) -> int
    decreases b.len(),
{
    if b.len() == 0 || c.len() == 0 {
        0
    } else {
        spec_diff_count(b.drop_last(), c.drop_last()) + if spec_same_pixel(
            b.last(),
            c.last(),
        ) {
            0int
        } else {
            1int
        }
    }
}

/// A pixel grid in row-major order; the buffer length is exactly
/// width times height.
#[derive(Debug)]
pub struct PixelGrid {
    pub width: usize,
    pub height: usize,
    pub pixels: Vec<Rgba>,
}

/// The grid's structural invariant.
pub open spec fn grid_wf(g: PixelGrid) -> bool {
    g.pixels@.len() == g.width * g.height
}

impl PixelGrid {
    /// Wrap a pixel buffer; the buffer must hold exactly width times height
    /// pixels, else nothing is built.
    pub fn new(width: usize, height: usize, pixels: Vec<Rgba>) -> (r: Option<PixelGrid>)
        ensures
            r is Some <==> pixels@.len() == width * height,
            r is Some ==> r->0 == (PixelGrid { width, height, pixels }),
            r is Some ==> grid_wf(r->0),
    {
        let len = pixels.len();
        match width.checked_mul(height) {
            Some(total) => {
                if len == total {
                    Some(PixelGrid { width, height, pixels })
                } else {
                    None
                }
            },
            None => None,
        }
    }
}

/// The outcome counts.
#[derive(Clone, Copy, Debug, PartialEq, Eq, Structural)]
pub struct DiffSummary {
    pub diff_pixels: usize,
    pub total_pixels: usize,
}

/// The one way a comparison can fail: the grids' declared dimensions differ.
#[derive(Clone, Copy, Debug, PartialEq, Eq, Structural)]
pub enum DiffError {
    SizeMismatch {
        baseline_width: usize,
        baseline_height: usize,
        current_width: usize,
        current_height: usize,
    },
}

/// Whether one channel pair lies within the tolerance.
fn channel_close(a: u8, b: u8) -> (r: bool)
    ensures
        r == (spec_channel_delta(a, b) <= PIXEL_CHANNEL_TOLERANCE),
{
    let d = if a >= b {
        a - b
    } else {
        b - a
    };
    d <= PIXEL_CHANNEL_TOLERANCE
}

/// The larger of two channel deltas.
fn channel_delta(a: u8, b: u8) -> (r: u8)
    ensures
        r as int == spec_channel_delta(a, b),
{
    if a >= b {
        a - b
    } else {
        b - a
    }
}

/// Compare two pixel grids. Equal dimensions yield the annotated diff grid
/// and the counts; unequal dimensions yield the mismatch, never a partial
/// result.
pub fn diff_images(baseline: &PixelGrid, current: &PixelGrid) -> (r: Result<
    (PixelGrid, DiffSummary),
    DiffError,
>)
    requires
        grid_wf(*baseline),
        grid_wf(*current),
    ensures
        r is Err <==> !(baseline.width == current.width && baseline.height == current.height),
        r is Err ==> r->Err_0 == (DiffError::SizeMismatch {
            baseline_width: baseline.width,
            baseline_height: baseline.height,
            current_width: current.width,
            current_height: current.height,
        }),
        r is Ok ==> ({
            let grid = r->Ok_0.0;
            let summary = r->Ok_0.1;
            &&& grid.width == baseline.width
            &&& grid.height == baseline.height
            &&& grid_wf(grid)
            &&& grid.pixels@.len() == baseline.pixels@.len()
            &&& forall|i: int|
                0 <= i < grid.pixels@.len() ==> #[trigger] grid.pixels@[i] == spec_diff_pixel(
                    baseline.pixels@[i],
                    current.pixels@[i],
                )
            &&& summary.total_pixels == baseline.width * baseline.height
            &&& summary.diff_pixels == spec_diff_count(baseline.pixels@, current.pixels@)
            &&& summary.diff_pixels <= summary.total_pixels
        }),
{
    if baseline.width != current.width || baseline.height != current.height {
        return Err(
            DiffError::SizeMismatch {
                baseline_width: baseline.width,
                baseline_height: baseline.height,
                current_width: current.width,
                current_height: current.height,
            },
        );
    }
    let n = baseline.pixels.len();
    let mut out: Vec<Rgba> = Vec::new();
    let mut diff_pixels: usize = 0;
    let mut i: usize = 0;
    proof {
        assert(baseline.pixels@.take(0) =~= Seq::<Rgba>::empty());
        assert(current.pixels@.take(0) =~= Seq::<Rgba>::empty());
    }
    while i < n
        invariant
            i <= n,
            n == baseline.pixels@.len(),
            n == current.pixels@.len(),
            out@.len() == i,
            diff_pixels <= i,
            diff_pixels == spec_diff_count(
                baseline.pixels@.take(i as int),
                current.pixels@.take(i as int),
            ),
            forall|j: int|
                0 <= j < i ==> #[trigger] out@[j] == spec_diff_pixel(
                    baseline.pixels@[j],
                    current.pixels@[j],
                ),
        decreases n - i,
    {
        let p = baseline.pixels[i];
        let q = current.pixels[i];
        let same = channel_close(p.r, q.r) && channel_close(p.g, q.g) && channel_close(p.b, q.b)
            && channel_close(p.a, q.a);
        proof {
            let bt = baseline.pixels@.take(i as int + 1);
            let ct = current.pixels@.take(i as int + 1);
            assert(bt.drop_last() =~= baseline.pixels@.take(i as int));
            assert(ct.drop_last() =~= current.pixels@.take(i as int));
            assert(bt.last() == p && ct.last() == q);
        }
        if same {
            let sum: u16 = (q.r as u16) + (q.g as u16) + (q.b as u16);
            let gray = (sum / 3) as u8;
            out.push(Rgba { r: gray, g: gray, b: gray, a: GHOST_ALPHA });
        } else {
            diff_pixels = diff_pixels + 1;
            let drg = channel_delta(p.r, q.r);
            let dgb = channel_delta(p.g, q.g);
            let dbb = channel_delta(p.b, q.b);
            let d1 = if dgb >= dbb {
                dgb
            } else {
                dbb
            };
            let delta = if drg >= d1 {
                drg
            } else {
                d1
            };
            let intensity = if delta >= 128 {
                delta
            } else {
                128
            };
            out.push(Rgba { r: intensity, g: 0, b: 0, a: HIGHLIGHT_ALPHA });
        }
        i = i + 1;
    }
    proof {
        assert(baseline.pixels@.take(n as int) =~= baseline.pixels@);
        assert(current.pixels@.take(n as int) =~= current.pixels@);
    }
    let grid = PixelGrid { width: baseline.width, height: baseline.height, pixels: out };
    let summary = DiffSummary {
        diff_pixels,
        total_pixels: baseline.width * baseline.height,
    };
    Ok((grid, summary))
}

/// Comparing pointwise-equal grids finds no difference.
pub proof fn lemma_diff_count_equal(b: Seq<Rgba>, c: Seq<Rgba>)
    requires
        b.len() == c.len(),
        forall|i: int| 0 <= i < b.len() ==> #[trigger] b[i] == c[i],
    ensures
        spec_diff_count(b, c) == 0,
    decreases b.len(),
{
    if b.len() > 0 {
        lemma_diff_count_equal(b.drop_last(), c.drop_last());
    }
}

/// An image compared with itself has no differing pixel.
pub proof fn lemma_diff_identical(p: Seq<Rgba>)
    ensures
        spec_diff_count(p, p) == 0,
{
    lemma_diff_count_equal(p, p);
}

/// Changing a single pixel past the tolerance in some channel yields a
/// count of exactly one.
pub proof fn lemma_diff_single_flip(b: Seq<Rgba>, c: Seq<Rgba>, k: int)
    requires
        b.len() == c.len(),
        0 <= k < b.len(),
        forall|i: int| 0 <= i < b.len() && i != k ==> #[trigger] b[i] == c[i],
        !spec_same_pixel(b[k], c[k]),
    ensures
        spec_diff_count(b, c) == 1,
    decreases b.len(),
{
    if k == b.len() - 1 {
        lemma_diff_count_equal(b.drop_last(), c.drop_last());
    } else {
        lemma_diff_single_flip(b.drop_last(), c.drop_last(), k);
    }
}

} // verus!
