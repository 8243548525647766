use cliip_show::layout::{
    compute_hud_layout_metrics_with_scale, hud_background_rgba, hud_dimensions,
    hud_width_for_text_with_scale, SUBUNITS_PER_POINT,
};
use cliip_show::settings::HudBackgroundColor;

fn points(subunits: i64) -> f64 {
    subunits as f64 / SUBUNITS_PER_POINT as f64
}

#[test]
fn hud_width_regression_snapshot() {
    let cases = vec![
        ("ascii_short", "hello".to_string()),
        ("ascii_40", "a".repeat(40)),
        ("wide_20", "\u{3042}".repeat(20)),
        ("ascii_very_long", "a".repeat(300)),
    ];

    let snapshot = cases
        .iter()
        .map(|(name, text)| {
            format!("{name}: {:.1}", points(hud_width_for_text_with_scale(text, 1000)))
        })
        .collect::<Vec<_>>()
        .join("\n");

    let expected = "\
ascii_short: 200.0
ascii_40: 446.0
wide_20: 446.0
ascii_very_long: 820.0";

    assert_eq!(snapshot, expected);
}

#[test]
fn hud_layout_regression_snapshot() {
    let cases = [
        ("one_line", 600i64, 22i64),
        ("three_lines", 600, 88),
        ("overflow", 600, 400),
        ("narrow_clamped", 100, 22),
    ];

    let snapshot = cases
        .iter()
        .map(|(name, width, measured)| {
            let metrics = compute_hud_layout_metrics_with_scale(
                width * SUBUNITS_PER_POINT,
                measured * SUBUNITS_PER_POINT,
                1000,
            );
            format!(
                "{name}: w={:.1} text_w={:.1} h={:.1} text_h={:.1} label_y={:.1} icon_y={:.1}",
                points(metrics.width),
                points(metrics.text_width),
                points(metrics.height),
                points(metrics.text_height),
                points(metrics.label_y),
                points(metrics.icon_y)
            )
        })
        .collect::<Vec<_>>()
        .join("\n");

    let expected = "\
one_line: w=600.0 text_w=538.0 h=52.0 text_h=22.0 label_y=15.0 icon_y=15.0
three_lines: w=600.0 text_w=538.0 h=108.0 text_h=88.0 label_y=10.0 icon_y=76.0
overflow: w=600.0 text_w=538.0 h=280.0 text_h=260.0 label_y=10.0 icon_y=248.0
narrow_clamped: w=200.0 text_w=138.0 h=52.0 text_h=22.0 label_y=15.0 icon_y=15.0";

    assert_eq!(snapshot, expected);
}

#[test]
fn dimensions_scale_linearly_from_the_base_constants() {
    let d = hud_dimensions(1000);
    assert_eq!(d.min_width, 200 * SUBUNITS_PER_POINT);
    assert_eq!(d.max_width, 820 * SUBUNITS_PER_POINT);
    assert_eq!(d.min_height, 52 * SUBUNITS_PER_POINT);
    assert_eq!(d.max_height, 280 * SUBUNITS_PER_POINT);
    assert_eq!(d.horizontal_padding, 16 * SUBUNITS_PER_POINT);
    assert_eq!(d.vertical_padding, 10 * SUBUNITS_PER_POINT);
    assert_eq!(d.icon_width, 22 * SUBUNITS_PER_POINT);
    assert_eq!(d.icon_height, 22 * SUBUNITS_PER_POINT);
    assert_eq!(d.gap, 8 * SUBUNITS_PER_POINT);
    assert_eq!(d.line_height_estimate, 22 * SUBUNITS_PER_POINT);
    assert_eq!(d.char_width_estimate, 96000);

    let half = hud_dimensions(500);
    assert_eq!(half.min_width, 100 * SUBUNITS_PER_POINT);
    assert_eq!(half.char_width_estimate, 48000);
}

#[test]
fn out_of_range_scales_are_clamped_first() {
    assert_eq!(hud_dimensions(100), hud_dimensions(500));
    assert_eq!(hud_dimensions(9900), hud_dimensions(2000));
}

#[test]
fn width_estimate_is_monotone_and_bounded() {
    let narrow = hud_width_for_text_with_scale("aaaa", 1000);
    let wide = hud_width_for_text_with_scale("aaaaaaaa", 1000);
    assert!(narrow <= wide);
    for text in ["", "x", "a\nbb\nccc", "\u{3042}\u{3044}"] {
        let w = hud_width_for_text_with_scale(text, 1000);
        assert!(w >= 200 * SUBUNITS_PER_POINT);
        assert!(w <= 820 * SUBUNITS_PER_POINT);
    }
}

#[test]
fn width_counts_wide_characters_twice() {
    // 10 wide characters make 20 units; 20 ASCII characters match exactly.
    let wide = hud_width_for_text_with_scale(&"\u{3042}".repeat(10), 1000);
    let ascii = hud_width_for_text_with_scale(&"a".repeat(20), 1000);
    assert_eq!(wide, ascii);
    // 20 units * 9.6 + 32 + 22 + 8 = 254 points
    assert_eq!(points(wide), 254.0);
}

#[test]
fn solving_again_with_its_own_output_changes_nothing() {
    for (w, m) in [(600i64, 88i64), (600, 400), (100, 22), (300, 1)] {
        let first = compute_hud_layout_metrics_with_scale(
            w * SUBUNITS_PER_POINT,
            m * SUBUNITS_PER_POINT,
            1000,
        );
        let again = compute_hud_layout_metrics_with_scale(first.width, first.text_height, 1000);
        assert_eq!(again, first);
    }
}

#[test]
fn background_tints_match_the_palette() {
    assert_eq!(
        hud_background_rgba(HudBackgroundColor::Default),
        (0, 0, 0, 78)
    );
    assert_eq!(
        hud_background_rgba(HudBackgroundColor::Yellow),
        (43, 34, 4, 90)
    );
    assert_eq!(hud_background_rgba(HudBackgroundColor::Blue), (8, 22, 53, 90));
    assert_eq!(
        hud_background_rgba(HudBackgroundColor::Green),
        (8, 35, 22, 90)
    );
    assert_eq!(hud_background_rgba(HudBackgroundColor::Red), (47, 14, 14, 90));
    assert_eq!(
        hud_background_rgba(HudBackgroundColor::Purple),
        (36, 16, 47, 90)
    );
}
