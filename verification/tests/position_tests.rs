use cliip_show::layout::SUBUNITS_PER_POINT;
use cliip_show::position::{hud_origin_for_frame, ScreenFrame};
use cliip_show::settings::HudPosition;

fn frame_points(x: i64, y: i64, width: i64, height: i64) -> ScreenFrame {
    ScreenFrame {
        x: x * SUBUNITS_PER_POINT,
        y: y * SUBUNITS_PER_POINT,
        width: width * SUBUNITS_PER_POINT,
        height: height * SUBUNITS_PER_POINT,
    }
}

#[test]
fn hud_origin_for_frame_positions_by_setting() {
    let frame = frame_points(0, 0, 1000, 800);
    let w = 600 * SUBUNITS_PER_POINT;
    let h = 100 * SUBUNITS_PER_POINT;

    let (top_x, top_y) = hud_origin_for_frame(frame, w, h, HudPosition::Top, 1000);
    let (center_x, center_y) = hud_origin_for_frame(frame, w, h, HudPosition::Center, 1000);
    let (bottom_x, bottom_y) = hud_origin_for_frame(frame, w, h, HudPosition::Bottom, 1000);

    assert_eq!(top_x, 200 * SUBUNITS_PER_POINT);
    assert_eq!(center_x, 200 * SUBUNITS_PER_POINT);
    assert_eq!(bottom_x, 200 * SUBUNITS_PER_POINT);
    assert_eq!(top_y, 676 * SUBUNITS_PER_POINT);
    assert_eq!(center_y, 350 * SUBUNITS_PER_POINT);
    assert_eq!(bottom_y, 24 * SUBUNITS_PER_POINT);
}

#[test]
fn origin_respects_the_frame_offset() {
    let frame = frame_points(100, 50, 1000, 800);
    let w = 600 * SUBUNITS_PER_POINT;
    let h = 100 * SUBUNITS_PER_POINT;
    let (x, y) = hud_origin_for_frame(frame, w, h, HudPosition::Bottom, 1000);
    assert_eq!(x, 300 * SUBUNITS_PER_POINT);
    assert_eq!(y, 74 * SUBUNITS_PER_POINT);
}

#[test]
fn oversized_hud_is_pinned_to_the_frame_origin() {
    let frame = frame_points(0, 0, 500, 80);
    let w = 600 * SUBUNITS_PER_POINT;
    let h = 100 * SUBUNITS_PER_POINT;
    for position in [HudPosition::Top, HudPosition::Center, HudPosition::Bottom] {
        let (x, y) = hud_origin_for_frame(frame, w, h, position, 1000);
        assert_eq!(x, 0);
        assert_eq!(y, 0);
    }
}

#[test]
fn margin_scales_but_stays_within_its_band() {
    let frame = frame_points(0, 0, 1000, 800);
    let w = 600 * SUBUNITS_PER_POINT;
    let h = 100 * SUBUNITS_PER_POINT;
    // 24 * 0.5 = 12 points, the lower margin bound exactly
    let (_, y_half) = hud_origin_for_frame(frame, w, h, HudPosition::Bottom, 500);
    assert_eq!(y_half, 12 * SUBUNITS_PER_POINT);
    // 24 * 2.0 = 48 points, inside the band
    let (_, y_double) = hud_origin_for_frame(frame, w, h, HudPosition::Bottom, 2000);
    assert_eq!(y_double, 48 * SUBUNITS_PER_POINT);
}
