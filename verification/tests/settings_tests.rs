use cliip_show::settings::{
    apply_config_file, apply_env_overrides, clamp_count_setting, clamp_millis_setting,
    default_display_settings, parse_config_key, parse_count, parse_hud_background_color,
    parse_hud_background_color_setting, parse_hud_position, parse_hud_position_setting,
    parse_usize_setting, parse_usize_value, ConfigKey, ConfigOverrides, EnvOverrides,
    HudBackgroundColor, HudPosition,
};

#[test]
fn parse_usize_setting_clamps_and_fallbacks() {
    assert_eq!(parse_usize_setting("0", 10, 1, 20), 1);
    assert_eq!(parse_usize_setting("100", 10, 1, 20), 20);
    assert_eq!(parse_usize_setting("5", 10, 1, 20), 5);
    assert_eq!(parse_usize_setting("abc", 10, 1, 20), 10);
}

#[test]
fn parse_config_key_accepts_aliases() {
    assert_eq!(
        parse_config_key("poll_interval_secs"),
        Some(ConfigKey::PollIntervalSecs)
    );
    assert_eq!(
        parse_config_key("poll-interval-secs"),
        Some(ConfigKey::PollIntervalSecs)
    );
    assert_eq!(
        parse_config_key("hud_position"),
        Some(ConfigKey::HudPosition)
    );
    assert_eq!(parse_config_key("hud-scale"), Some(ConfigKey::HudScale));
    assert_eq!(parse_config_key("hub_background_color"), None);
    assert_eq!(parse_config_key("hub-background-color"), None);
    assert_eq!(parse_config_key("unknown"), None);
}

#[test]
fn parse_count_follows_std_parsing() {
    assert_eq!(parse_count("5"), Some(5));
    assert_eq!(parse_count("+5"), Some(5));
    assert_eq!(parse_count("007"), Some(7));
    assert_eq!(parse_count(""), None);
    assert_eq!(parse_count("+"), None);
    assert_eq!(parse_count("12a"), None);
    assert_eq!(parse_count(" 5"), None);
    assert_eq!(parse_count("-5"), None);
    assert_eq!(parse_count("18446744073709551615"), Some(usize::MAX));
    assert_eq!(parse_count("18446744073709551616"), None);
}

#[test]
fn parse_usize_value_clamps() {
    assert_eq!(parse_usize_value(0, 1, 20), 1);
    assert_eq!(parse_usize_value(999, 1, 20), 20);
    assert_eq!(parse_usize_value(7, 1, 20), 7);
}

#[test]
fn position_keywords_fold_case_and_whitespace() {
    assert_eq!(parse_hud_position("top"), Some(HudPosition::Top));
    assert_eq!(parse_hud_position(" TOP "), Some(HudPosition::Top));
    assert_eq!(parse_hud_position("Center"), Some(HudPosition::Center));
    assert_eq!(parse_hud_position("bottom"), Some(HudPosition::Bottom));
    assert_eq!(parse_hud_position("middle"), None);
    assert_eq!(
        parse_hud_position_setting("middle", HudPosition::Center),
        HudPosition::Center
    );
    assert_eq!(
        parse_hud_position_setting("bottom", HudPosition::Center),
        HudPosition::Bottom
    );
}

#[test]
fn color_keywords_fold_case_and_whitespace() {
    assert_eq!(
        parse_hud_background_color("blue"),
        Some(HudBackgroundColor::Blue)
    );
    assert_eq!(
        parse_hud_background_color(" Purple "),
        Some(HudBackgroundColor::Purple)
    );
    assert_eq!(
        parse_hud_background_color("default"),
        Some(HudBackgroundColor::Default)
    );
    assert_eq!(parse_hud_background_color("orange"), None);
    assert_eq!(
        parse_hud_background_color_setting("orange", HudBackgroundColor::Red),
        HudBackgroundColor::Red
    );
}

#[test]
fn position_strings_round_trip() {
    assert_eq!(HudPosition::Top.as_str(), "top");
    assert_eq!(HudPosition::Center.as_str(), "center");
    assert_eq!(HudPosition::Bottom.as_str(), "bottom");
    assert_eq!(parse_hud_position(HudPosition::Top.as_str()), Some(HudPosition::Top));
    assert_eq!(HudBackgroundColor::Yellow.as_str(), "yellow");
    assert_eq!(HudBackgroundColor::Green.as_str(), "green");
    assert_eq!(HudBackgroundColor::Red.as_str(), "red");
    assert_eq!(HudBackgroundColor::Blue.as_str(), "blue");
    assert_eq!(HudBackgroundColor::Purple.as_str(), "purple");
    assert_eq!(HudBackgroundColor::Default.as_str(), "default");
}

#[test]
fn defaults_match_the_documented_values() {
    let s = default_display_settings();
    assert_eq!(s.poll_interval_millis, 300);
    assert_eq!(s.hud_duration_millis, 1000);
    assert_eq!(s.truncate_max_width, 100);
    assert_eq!(s.truncate_max_lines, 5);
    assert_eq!(s.hud_position, HudPosition::Center);
    assert_eq!(s.hud_scale_millis, 1000);
    assert_eq!(s.hud_background_color, HudBackgroundColor::Default);
}

#[test]
fn config_file_values_are_clamped_into_range() {
    let base = default_display_settings();
    let config = ConfigOverrides {
        poll_interval_millis: Some(10),
        hud_duration_millis: Some(99999),
        max_chars_per_line: Some(0),
        max_lines: Some(999),
        hud_position: Some(HudPosition::Top),
        hud_scale_millis: Some(9900),
        hud_background_color: Some(HudBackgroundColor::Blue),
    };
    let s = apply_config_file(base, config);
    assert_eq!(s.poll_interval_millis, 50);
    assert_eq!(s.hud_duration_millis, 10000);
    assert_eq!(s.truncate_max_width, 1);
    assert_eq!(s.truncate_max_lines, 20);
    assert_eq!(s.hud_position, HudPosition::Top);
    assert_eq!(s.hud_scale_millis, 2000);
    assert_eq!(s.hud_background_color, HudBackgroundColor::Blue);
}

#[test]
fn absent_config_values_keep_the_base() {
    let base = default_display_settings();
    let config = ConfigOverrides {
        poll_interval_millis: None,
        hud_duration_millis: None,
        max_chars_per_line: None,
        max_lines: None,
        hud_position: None,
        hud_scale_millis: None,
        hud_background_color: None,
    };
    let s = apply_config_file(base, config);
    assert_eq!(s, base);
}

#[test]
fn env_overrides_take_precedence_and_tolerate_junk() {
    let base = default_display_settings();
    let env = EnvOverrides {
        poll_interval_millis: Some(25),
        hud_duration_millis: None,
        max_chars_per_line: Some(String::from("200")),
        max_lines: Some(String::from("abc")),
        hud_position: Some(String::from("BOTTOM")),
        hud_scale_millis: Some(1500),
        hud_background_color: Some(String::from("nope")),
    };
    let s = apply_env_overrides(base, &env);
    assert_eq!(s.poll_interval_millis, 50);
    assert_eq!(s.hud_duration_millis, 1000);
    assert_eq!(s.truncate_max_width, 200);
    assert_eq!(s.truncate_max_lines, 5);
    assert_eq!(s.hud_position, HudPosition::Bottom);
    assert_eq!(s.hud_scale_millis, 1500);
    assert_eq!(s.hud_background_color, HudBackgroundColor::Default);
}

#[test]
fn set_helpers_note_out_of_range_values() {
    assert_eq!(clamp_count_setting(999, 1, 20), (20, true));
    assert_eq!(clamp_count_setting(5, 1, 20), (5, false));
    assert_eq!(clamp_millis_setting(10, 50, 5000), (50, true));
    assert_eq!(clamp_millis_setting(9900, 500, 2000), (2000, true));
    assert_eq!(clamp_millis_setting(1500, 500, 2000), (1500, false));
}
