use cliip_show::diff::{
    diff_images, DiffError, PixelGrid, Rgba, GHOST_ALPHA, HIGHLIGHT_ALPHA,
};

fn solid(width: usize, height: usize, pixel: Rgba) -> PixelGrid {
    let pixels = vec![pixel; width * height];
    PixelGrid::new(width, height, pixels).expect("buffer length matches")
}

#[test]
fn identical_images_have_no_diff_pixels() {
    let base = solid(4, 3, Rgba { r: 10, g: 20, b: 30, a: 255 });
    let current = solid(4, 3, Rgba { r: 10, g: 20, b: 30, a: 255 });
    let (grid, summary) = diff_images(&base, &current).expect("sizes match");
    assert_eq!(summary.diff_pixels, 0);
    assert_eq!(summary.total_pixels, 12);
    assert_eq!(grid.width, 4);
    assert_eq!(grid.height, 3);
    // every output pixel is the ghost gray of (10 + 20 + 30) / 3 = 20
    for p in &grid.pixels {
        assert_eq!(*p, Rgba { r: 20, g: 20, b: 20, a: GHOST_ALPHA });
    }
}

#[test]
fn single_flipped_pixel_counts_once() {
    let base = solid(4, 3, Rgba { r: 10, g: 20, b: 30, a: 255 });
    let mut pixels = base.pixels.clone();
    pixels[5] = Rgba { r: 210, g: 20, b: 30, a: 255 };
    let current = PixelGrid::new(4, 3, pixels).expect("buffer length matches");
    let (grid, summary) = diff_images(&base, &current).expect("sizes match");
    assert_eq!(summary.diff_pixels, 1);
    assert_eq!(summary.total_pixels, 12);
    // delta 200 exceeds the half-intensity floor of 128
    assert_eq!(grid.pixels[5], Rgba { r: 200, g: 0, b: 0, a: HIGHLIGHT_ALPHA });
}

#[test]
fn small_flip_highlights_at_half_intensity() {
    let base = solid(2, 2, Rgba { r: 100, g: 100, b: 100, a: 255 });
    let mut pixels = base.pixels.clone();
    pixels[0] = Rgba { r: 110, g: 100, b: 100, a: 255 };
    let current = PixelGrid::new(2, 2, pixels).expect("buffer length matches");
    let (grid, summary) = diff_images(&base, &current).expect("sizes match");
    assert_eq!(summary.diff_pixels, 1);
    assert_eq!(grid.pixels[0], Rgba { r: 128, g: 0, b: 0, a: HIGHLIGHT_ALPHA });
}

#[test]
fn differences_within_tolerance_are_noise() {
    let base = solid(2, 2, Rgba { r: 100, g: 100, b: 100, a: 255 });
    let mut pixels = base.pixels.clone();
    pixels[3] = Rgba { r: 102, g: 98, b: 101, a: 254 };
    let current = PixelGrid::new(2, 2, pixels).expect("buffer length matches");
    let (_, summary) = diff_images(&base, &current).expect("sizes match");
    assert_eq!(summary.diff_pixels, 0);
}

#[test]
fn alpha_changes_count_as_differences() {
    let base = solid(2, 1, Rgba { r: 100, g: 100, b: 100, a: 255 });
    let mut pixels = base.pixels.clone();
    pixels[0] = Rgba { r: 100, g: 100, b: 100, a: 100 };
    let current = PixelGrid::new(2, 1, pixels).expect("buffer length matches");
    let (grid, summary) = diff_images(&base, &current).expect("sizes match");
    assert_eq!(summary.diff_pixels, 1);
    // the color channels agree, so the highlight sits at the intensity floor
    assert_eq!(grid.pixels[0], Rgba { r: 128, g: 0, b: 0, a: HIGHLIGHT_ALPHA });
}

#[test]
fn size_mismatch_is_reported_not_computed() {
    let base = solid(4, 3, Rgba { r: 0, g: 0, b: 0, a: 255 });
    let current = solid(3, 4, Rgba { r: 0, g: 0, b: 0, a: 255 });
    let err = diff_images(&base, &current).expect_err("sizes differ");
    assert_eq!(
        err,
        DiffError::SizeMismatch {
            baseline_width: 4,
            baseline_height: 3,
            current_width: 3,
            current_height: 4,
        }
    );
}

#[test]
fn grid_construction_checks_the_buffer_length() {
    let pixels = vec![Rgba { r: 0, g: 0, b: 0, a: 0 }; 11];
    assert!(PixelGrid::new(4, 3, pixels).is_none());
    let pixels = vec![Rgba { r: 0, g: 0, b: 0, a: 0 }; 12];
    assert!(PixelGrid::new(4, 3, pixels).is_some());
}
