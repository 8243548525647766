//! Display settings: the clamped numeric ranges, the placement and background
//! keywords, and the parsers that read them from configuration and
//! environment text.
//!
//! Durations and the scale factor are held in thousandths (milli-units), so
//! a poll interval of 0.3 seconds is 300 and a scale of 1.0 is 1000.

use vstd::prelude::*;
use vstd::string::{StrSliceExecFns, StringExecFns};

use crate::chars::{
    digit_value, is_digit_char, is_space_char, norm_char, char_is_digit, char_digit_value,
    is_space, normalize_char,
};
use crate::{clamp_i64, spec_clamp};

verus! {

/// Where on the screen the HUD is placed.
#[derive(Clone, Copy, Debug, PartialEq, Eq, Structural)]
pub enum HudPosition {
    Top,
    Center,
    Bottom,
}

/// The HUD background tint.
#[derive(Clone, Copy, Debug, PartialEq, Eq, Structural)]
pub enum HudBackgroundColor {
    Default,
    Yellow,
    Blue,
    Green,
    Red,
    Purple,
}

/// A key of the persistent configuration file.
#[derive(Clone, Copy, Debug, PartialEq, Eq, Structural)]
pub enum ConfigKey {
    PollIntervalSecs,
    HudDurationSecs,
    MaxCharsPerLine,
    MaxLines,
    HudPosition,
    HudScale,
    HudBackgroundColor,
}

/// The keyword each position prints as.
pub open spec fn spec_position_str(p: HudPosition) -> Seq<char> {
    match p {
        HudPosition::Top => "top"@,
        HudPosition::Center => "center"@,
        HudPosition::Bottom => "bottom"@,
    }
}

/// The keyword each color prints as.
pub open spec fn spec_color_str(c: HudBackgroundColor) -> Seq<char> {
    match c {
        HudBackgroundColor::Default => "default"@,
        HudBackgroundColor::Yellow => "yellow"@,
        HudBackgroundColor::Blue => "blue"@,
        HudBackgroundColor::Green => "green"@,
        HudBackgroundColor::Red => "red"@,
        HudBackgroundColor::Purple => "purple"@,
    }
}

impl HudPosition {
    /// The keyword this position prints as.
    pub fn as_str(self) -> (r: &'static str)
        ensures
            r@ == spec_position_str(self),
    {
        match self {
            HudPosition::Top => "top",
            HudPosition::Center => "center",
            HudPosition::Bottom => "bottom",
        }
    }
}

impl HudBackgroundColor {
    /// The keyword this color prints as.
    pub fn as_str(self) -> (r: &'static str)
        ensures
            r@ == spec_color_str(self),
    {
        match self {
            HudBackgroundColor::Default => "default",
            HudBackgroundColor::Yellow => "yellow",
            HudBackgroundColor::Blue => "blue",
            HudBackgroundColor::Green => "green",
            HudBackgroundColor::Red => "red",
            HudBackgroundColor::Purple => "purple",
        }
    }
}

/// Leading whitespace stripped.
pub open spec fn spec_trim_start(s: Seq<char>) -> Seq<char>
    decreases s.len(),
{
    if s.len() > 0 && is_space_char(s[0]) {
        spec_trim_start(s.skip(1))
    } else {
        s
    }
}

/// Trailing whitespace stripped.
pub open spec fn spec_trim_end(s: Seq<char>) -> Seq<char>
    decreases s.len(),
{
    if s.len() > 0 && is_space_char(s.last()) {
        spec_trim_end(s.drop_last())
    } else {
        s
    }
}

/// What a keyword argument reads as: surrounding whitespace stripped, ASCII
/// uppercase folded to lowercase, and `-` read as `_`.
pub open spec fn spec_normalized(s: Seq<char>) -> Seq<char> {
    spec_trim_end(spec_trim_start(s)).map_values(|c: char| norm_char(c))
}

/// Surrounding whitespace stripped.
fn trim_str<'a>(raw: &'a str) -> (r: &'a str)
    ensures
        r@ == spec_trim_end(spec_trim_start(raw@)),
{
    let n = raw.unicode_len();
    let mut start: usize = 0;
    proof {
        assert(raw@.skip(0) =~= raw@);
    }
    loop
        invariant_except_break
            start <= n,
            n == raw@.len(),
            spec_trim_start(raw@) == spec_trim_start(raw@.skip(start as int)),
        ensures
            start <= n,
            n == raw@.len(),
            raw@.skip(start as int) == spec_trim_start(raw@),
        decreases n - start,
    {
        if start == n {
            break ;
        }
        let c = raw.get_char(start);
        proof {
            assert(raw@.skip(start as int)[0] == raw@[start as int]);
        }
        if !is_space(c) {
            break ;
        }
        proof {
            assert(raw@.skip(start as int).skip(1) =~= raw@.skip(start as int + 1));
        }
        start = start + 1;
    }
    let ghost t = raw@.skip(start as int);
    let mut end: usize = n;
    proof {
        assert(t.take(n - start as int) =~= t);
    }
    loop
        invariant_except_break
            start <= end <= n,
            n == raw@.len(),
            t == raw@.skip(start as int),
            spec_trim_end(t) == spec_trim_end(t.take(end - start as int)),
        ensures
            start <= end <= n,
            t.take(end - start as int) == spec_trim_end(t),
        decreases end,
    {
        if end == start {
            assert(t.take(0) =~= Seq::<char>::empty());
            break ;
        }
        let c = raw.get_char(end - 1);
        proof {
            assert(t.take(end - start as int).last() == raw@[end - 1]);
        }
        if !is_space(c) {
            break ;
        }
        proof {
            assert(t.take(end - start as int).drop_last() =~= t.take(end - 1 - start as int));
        }
        end = end - 1;
    }
    let r = raw.substring_char(start, end);
    proof {
        assert(r@ =~= t.take(end - start as int));
    }
    r
}

/// Normalize a keyword argument: trim, lowercase ASCII, fold `-` to `_`.
fn normalized_keyword(raw: &str) -> (r: String)
    ensures
        r@ == spec_normalized(raw@),
{
    let trimmed = trim_str(raw);
    let n = trimmed.unicode_len();
    let mut out = String::new();
    let mut i: usize = 0;
    while i < n
        invariant
            i <= n,
            n == trimmed@.len(),
            out@ =~= trimmed@.map_values(|c: char| norm_char(c)).take(i as int),
        decreases n - i,
    {
        let c = normalize_char(trimmed.get_char(i));
        out.push(c);
        proof {
            assert(out@ =~= trimmed@.map_values(|c: char| norm_char(c)).take(i as int + 1));
        }
        i = i + 1;
    }
    proof {
        let mapped = trimmed@.map_values(|c: char| norm_char(c));
        assert(mapped.take(mapped.len() as int) =~= mapped);
    }
    out
}

/// What parsing a position keyword yields.
pub open spec fn spec_parse_hud_position(s: Seq<char>) -> Option<HudPosition> {
    let n = spec_normalized(s);
    if n == "top"@ {
        Some(HudPosition::Top)
    } else if n == "center"@ {
        Some(HudPosition::Center)
    } else if n == "bottom"@ {
        Some(HudPosition::Bottom)
    } else {
        None
    }
}

/// Read a position keyword: `top`, `center` or `bottom`, in any ASCII case,
/// with surrounding whitespace ignored.
pub fn parse_hud_position(raw: &str) -> (r: Option<HudPosition>)
    ensures
        r == spec_parse_hud_position(raw@),
{
    let n = normalized_keyword(raw);
    if n == String::from_str("top") {
        Some(HudPosition::Top)
    } else if n == String::from_str("center") {
        Some(HudPosition::Center)
    } else if n == String::from_str("bottom") {
        Some(HudPosition::Bottom)
    } else {
        None
    }
}

/// Read a position keyword, falling back to `default` when it is not
/// recognized.
pub fn parse_hud_position_setting(raw: &str, default: HudPosition) -> (r: HudPosition)
    ensures
        r == match spec_parse_hud_position(raw@) {
            Some(p) => p,
            None => default,
        },
{
    match parse_hud_position(raw) {
        Some(p) => p,
        None => default,
    }
}

/// What parsing a background-color keyword yields.
pub open spec fn spec_parse_hud_background_color(s: Seq<char>) -> Option<HudBackgroundColor> {
    let n = spec_normalized(s);
    if n == "default"@ {
        Some(HudBackgroundColor::Default)
    } else if n == "yellow"@ {
        Some(HudBackgroundColor::Yellow)
    } else if n == "blue"@ {
        Some(HudBackgroundColor::Blue)
    } else if n == "green"@ {
        Some(HudBackgroundColor::Green)
    } else if n == "red"@ {
        Some(HudBackgroundColor::Red)
    } else if n == "purple"@ {
        Some(HudBackgroundColor::Purple)
    } else {
        None
    }
}

/// Read a background-color keyword, in any ASCII case, with surrounding
/// whitespace ignored.
pub fn parse_hud_background_color(raw: &str) -> (r: Option<HudBackgroundColor>)
    ensures
        r == spec_parse_hud_background_color(raw@),
{
    let n = normalized_keyword(raw);
    if n == String::from_str("default") {
        Some(HudBackgroundColor::Default)
    } else if n == String::from_str("yellow") {
        Some(HudBackgroundColor::Yellow)
    } else if n == String::from_str("blue") {
        Some(HudBackgroundColor::Blue)
    } else if n == String::from_str("green") {
        Some(HudBackgroundColor::Green)
    } else if n == String::from_str("red") {
        Some(HudBackgroundColor::Red)
    } else if n == String::from_str("purple") {
        Some(HudBackgroundColor::Purple)
    } else {
        None
    }
}

/// Read a background-color keyword, falling back to `default` when it is not
/// recognized.
pub fn parse_hud_background_color_setting(raw: &str, default: HudBackgroundColor) -> (r:
    HudBackgroundColor)
    ensures
        r == match spec_parse_hud_background_color(raw@) {
            Some(c) => c,
            None => default,
        },
{
    match parse_hud_background_color(raw) {
        Some(c) => c,
        None => default,
    }
}

/// What parsing a configuration key yields; keys match exactly, in either
/// `snake_case` or `kebab-case` spelling.
pub open spec fn spec_parse_config_key(s: Seq<char>) -> Option<ConfigKey> {
    if s == "poll_interval_secs"@ || s == "poll-interval-secs"@ {
        Some(ConfigKey::PollIntervalSecs)
    } else if s == "hud_duration_secs"@ || s == "hud-duration-secs"@ {
        Some(ConfigKey::HudDurationSecs)
    } else if s == "max_chars_per_line"@ || s == "max-chars-per-line"@ {
        Some(ConfigKey::MaxCharsPerLine)
    } else if s == "max_lines"@ || s == "max-lines"@ {
        Some(ConfigKey::MaxLines)
    } else if s == "hud_position"@ || s == "hud-position"@ {
        Some(ConfigKey::HudPosition)
    } else if s == "hud_scale"@ || s == "hud-scale"@ {
        Some(ConfigKey::HudScale)
    } else if s == "hud_background_color"@ || s == "hud-background-color"@ {
        Some(ConfigKey::HudBackgroundColor)
    } else {
        None
    }
}

/// Recognize a configuration key.
pub fn parse_config_key(raw: &str) -> (r: Option<ConfigKey>)
    ensures
        r == spec_parse_config_key(raw@),
{
    let s = raw.to_owned();
    if s == String::from_str("poll_interval_secs") || s == String::from_str("poll-interval-secs") {
        Some(ConfigKey::PollIntervalSecs)
    } else if s == String::from_str("hud_duration_secs") || s == String::from_str(
        "hud-duration-secs",
    ) {
        Some(ConfigKey::HudDurationSecs)
    } else if s == String::from_str("max_chars_per_line") || s == String::from_str(
        "max-chars-per-line",
    ) {
        Some(ConfigKey::MaxCharsPerLine)
    } else if s == String::from_str("max_lines") || s == String::from_str("max-lines") {
        Some(ConfigKey::MaxLines)
    } else if s == String::from_str("hud_position") || s == String::from_str("hud-position") {
        Some(ConfigKey::HudPosition)
    } else if s == String::from_str("hud_scale") || s == String::from_str("hud-scale") {
        Some(ConfigKey::HudScale)
    } else if s == String::from_str("hud_background_color") || s == String::from_str(
        "hud-background-color",
    ) {
        Some(ConfigKey::HudBackgroundColor)
    } else {
        None
    }
}

/// All characters are decimal digits.
pub open spec fn all_digits(s: Seq<char>) -> bool {
    forall|i: int| 0 <= i < s.len() ==> is_digit_char(#[trigger] s[i])
}

/// The number a digit string denotes.
pub open spec fn spec_digits_value(s: Seq<char>) -> int
    decreases s.len(),
{
    if s.len() == 0 {
        0
    } else {
        spec_digits_value(s.drop_last()) * 10 + digit_value(s.last())
    }
}

/// The digits of an unsigned decimal string: one optional leading `+` is
/// allowed, nothing else.
pub open spec fn spec_number_body(s: Seq<char>) -> Seq<char> {
    if s.len() > 0 && s[0] == '+' {
        s.skip(1)
    } else {
        s
    }
}

/// Whether `s` spells an unsigned decimal number at all.
pub open spec fn spec_valid_count_str(s: Seq<char>) -> bool {
    spec_number_body(s).len() >= 1 && all_digits(spec_number_body(s))
}

/// A digit string denotes a nonnegative number.
pub proof fn lemma_digits_value_nonneg(s: Seq<char>)
    requires
        all_digits(s),
    ensures
        spec_digits_value(s) >= 0,
    decreases s.len(),
{
    if s.len() > 0 {
        assert(all_digits(s.drop_last())) by {
            assert(forall|i: int|
                0 <= i < s.len() - 1 ==> #[trigger] s.drop_last()[i] == s[i]);
        }
        lemma_digits_value_nonneg(s.drop_last());
    }
}

/// More digits never denote a smaller number.
pub proof fn lemma_digits_value_prefix_le(s: Seq<char>, k: int)
    requires
        all_digits(s),
        0 <= k <= s.len(),
    ensures
        spec_digits_value(s.take(k)) <= spec_digits_value(s),
    decreases s.len() - k,
{
    if k < s.len() {
        lemma_digits_value_prefix_le(s, k + 1);
        let p = s.take(k + 1);
        assert(p.drop_last() =~= s.take(k));
        assert(all_digits(s.take(k))) by {
            assert(forall|i: int| 0 <= i < k ==> #[trigger] s.take(k)[i] == s[i]);
        }
        lemma_digits_value_nonneg(s.take(k));
        assert(spec_digits_value(p) == spec_digits_value(s.take(k)) * 10 + digit_value(p.last()));
    } else {
        assert(s.take(k) =~= s);
    }
}

/// Read an unsigned decimal count the way `str::parse::<usize>` does: an
/// optional `+`, then digits; anything else, or a value beyond `usize::MAX`,
/// is rejected.
pub fn parse_count(raw: &str) -> (r: Option<usize>)
    ensures
        r is Some <==> spec_valid_count_str(raw@) && spec_digits_value(spec_number_body(raw@))
            <= usize::MAX,
        r is Some ==> r->0 == spec_digits_value(spec_number_body(raw@)),
{
    let n = raw.unicode_len();
    let start: usize = if n >= 1 && raw.get_char(0) == '+' {
        1
    } else {
        0
    };
    let ghost body = spec_number_body(raw@);
    proof {
        if start == 1 {
            assert(body =~= raw@.skip(1));
        } else {
            assert(body =~= raw@);
        }
    }
    if start == n {
        return None;
    }
    let mut acc: usize = 0;
    let mut i: usize = start;
    proof {
        assert(body.take(0) =~= Seq::<char>::empty());
    }
    while i < n
        invariant
            start <= i <= n,
            n == raw@.len(),
            body == spec_number_body(raw@),
            body.len() == n - start,
            forall|j: int| 0 <= j < i - start ==> is_digit_char(#[trigger] body[j]),
            acc == spec_digits_value(body.take(i - start as int)),
        decreases n - i,
    {
        let c = raw.get_char(i);
        proof {
            assert(body[i - start as int] == raw@[i as int]);
        }
        if !char_is_digit(c) {
            return None;
        }
        let d = char_digit_value(c);
        let wide: u128 = (acc as u128) * 10 + (d as u128);
        proof {
            let m = i - start as int;
            assert(body.take(m + 1).drop_last() =~= body.take(m));
            assert(body.take(m + 1).last() == body[m]);
            assert(spec_digits_value(body.take(m + 1)) == acc * 10 + digit_value(body[m]));
        }
        if wide > (usize::MAX as u128) {
            proof {
                let m = i - start as int;
                assert(all_digits(body) ==> spec_digits_value(body) >= spec_digits_value(
                    body.take(m + 1),
                )) by {
                    if all_digits(body) {
                        lemma_digits_value_prefix_le(body, m + 1);
                    }
                }
            }
            return None;
        }
        acc = wide as usize;
        i = i + 1;
    }
    proof {
        assert(body.take(n - start as int) =~= body);
    }
    Some(acc)
}

/// Clamp a count into `[min, max]`.
pub fn parse_usize_value(value: usize, min: usize, max: usize) -> (r: usize)
    requires
        min <= max,
    ensures
        r == spec_clamp(value as int, min as int, max as int),
{
    if value < min {
        min
    } else if value > max {
        max
    } else {
        value
    }
}

/// Read a count setting: parse as `str::parse::<usize>` would and clamp into
/// `[min, max]`; an unreadable value keeps `default`.
pub fn parse_usize_setting(raw: &str, default: usize, min: usize, max: usize) -> (r: usize)
    requires
        min <= max,
    ensures
        r == spec_parse_usize_setting(raw@, default as int, min as int, max as int),
{
    match parse_count(raw) {
        Some(value) => parse_usize_value(value, min, max),
        None => default,
    }
}

/// What a count setting reads as.
pub open spec fn spec_parse_usize_setting(s: Seq<char>, default: int, min: int, max: int) -> int {
    if spec_valid_count_str(s) && spec_digits_value(spec_number_body(s)) <= usize::MAX {
        spec_clamp(spec_digits_value(spec_number_body(s)), min, max)
    } else {
        default
    }
}

pub const MIN_POLL_INTERVAL_MILLIS: i64 = 50;

pub const MAX_POLL_INTERVAL_MILLIS: i64 = 5000;

pub const DEFAULT_POLL_INTERVAL_MILLIS: u64 = 300;

pub const MIN_HUD_DURATION_MILLIS: i64 = 100;

pub const MAX_HUD_DURATION_MILLIS: i64 = 10000;

pub const DEFAULT_HUD_DURATION_MILLIS: u64 = 1000;

pub const MIN_HUD_SCALE_MILLIS: i64 = 500;

pub const MAX_HUD_SCALE_MILLIS: i64 = 2000;

pub const DEFAULT_HUD_SCALE_MILLIS: u32 = 1000;

pub const MIN_TRUNCATE_MAX_WIDTH: usize = 1;

pub const MAX_TRUNCATE_MAX_WIDTH: usize = 500;

pub const DEFAULT_TRUNCATE_MAX_WIDTH: usize = 100;

pub const MIN_TRUNCATE_MAX_LINES: usize = 1;

pub const MAX_TRUNCATE_MAX_LINES: usize = 20;

pub const DEFAULT_TRUNCATE_MAX_LINES: usize = 5;

/// The effective display settings, every numeric field already clamped into
/// its documented range. Durations are in milliseconds and the scale factor
/// in thousandths.
#[derive(Clone, Copy, Debug, PartialEq, Eq, Structural)]
pub struct DisplaySettings {
    pub poll_interval_millis: u64,
    pub hud_duration_millis: u64,
    pub truncate_max_width: usize,
    pub truncate_max_lines: usize,
    pub hud_position: HudPosition,
    pub hud_scale_millis: u32,
    pub hud_background_color: HudBackgroundColor,
}

/// Every numeric field within its documented range.
pub open spec fn spec_settings_wf(s: DisplaySettings) -> bool {
    &&& MIN_POLL_INTERVAL_MILLIS <= s.poll_interval_millis <= MAX_POLL_INTERVAL_MILLIS
    &&& MIN_HUD_DURATION_MILLIS <= s.hud_duration_millis <= MAX_HUD_DURATION_MILLIS
    &&& MIN_TRUNCATE_MAX_WIDTH <= s.truncate_max_width <= MAX_TRUNCATE_MAX_WIDTH
    &&& MIN_TRUNCATE_MAX_LINES <= s.truncate_max_lines <= MAX_TRUNCATE_MAX_LINES
    &&& MIN_HUD_SCALE_MILLIS <= s.hud_scale_millis <= MAX_HUD_SCALE_MILLIS
}

/// The built-in defaults.
pub open spec fn spec_default_settings() -> DisplaySettings {
    DisplaySettings {
        poll_interval_millis: DEFAULT_POLL_INTERVAL_MILLIS,
        hud_duration_millis: DEFAULT_HUD_DURATION_MILLIS,
        truncate_max_width: DEFAULT_TRUNCATE_MAX_WIDTH,
        truncate_max_lines: DEFAULT_TRUNCATE_MAX_LINES,
        hud_position: HudPosition::Center,
        hud_scale_millis: DEFAULT_HUD_SCALE_MILLIS,
        hud_background_color: HudBackgroundColor::Default,
    }
}

/// The built-in defaults: poll every 0.3 s, show for 1 s, 100 characters by
/// 5 lines, centered, unscaled, default background.
pub fn default_display_settings() -> (s: DisplaySettings)
    ensures
        s == spec_default_settings(),
        spec_settings_wf(s),
{
    DisplaySettings {
        poll_interval_millis: DEFAULT_POLL_INTERVAL_MILLIS,
        hud_duration_millis: DEFAULT_HUD_DURATION_MILLIS,
        truncate_max_width: DEFAULT_TRUNCATE_MAX_WIDTH,
        truncate_max_lines: DEFAULT_TRUNCATE_MAX_LINES,
        hud_position: HudPosition::Center,
        hud_scale_millis: DEFAULT_HUD_SCALE_MILLIS,
        hud_background_color: HudBackgroundColor::Default,
    }
}

/// What a configuration file provided, already reduced to plain values: a
/// duration or scale that the file spelled as a non-finite number is absent
/// here, exactly as an absent key would be.
#[derive(Clone, Copy, Debug)]
pub struct ConfigOverrides {
    pub poll_interval_millis: Option<i64>,
    pub hud_duration_millis: Option<i64>,
    pub max_chars_per_line: Option<usize>,
    pub max_lines: Option<usize>,
    pub hud_position: Option<HudPosition>,
    pub hud_scale_millis: Option<i64>,
    pub hud_background_color: Option<HudBackgroundColor>,
}

/// What applying a configuration file means: every present value is clamped
/// into range; absent values keep the base.
pub open spec fn spec_apply_config(base: DisplaySettings, c: ConfigOverrides) -> DisplaySettings {
    DisplaySettings {
        poll_interval_millis: match c.poll_interval_millis {
            Some(v) => spec_clamp(
                v as int,
                MIN_POLL_INTERVAL_MILLIS as int,
                MAX_POLL_INTERVAL_MILLIS as int,
            ) as u64,
            None => base.poll_interval_millis,
        },
        hud_duration_millis: match c.hud_duration_millis {
            Some(v) => spec_clamp(
                v as int,
                MIN_HUD_DURATION_MILLIS as int,
                MAX_HUD_DURATION_MILLIS as int,
            ) as u64,
            None => base.hud_duration_millis,
        },
        truncate_max_width: match c.max_chars_per_line {
            Some(v) => spec_clamp(
                v as int,
                MIN_TRUNCATE_MAX_WIDTH as int,
                MAX_TRUNCATE_MAX_WIDTH as int,
            ) as usize,
            None => base.truncate_max_width,
        },
        truncate_max_lines: match c.max_lines {
            Some(v) => spec_clamp(
                v as int,
                MIN_TRUNCATE_MAX_LINES as int,
                MAX_TRUNCATE_MAX_LINES as int,
            ) as usize,
            None => base.truncate_max_lines,
        },
        hud_position: match c.hud_position {
            Some(p) => p,
            None => base.hud_position,
        },
        hud_scale_millis: match c.hud_scale_millis {
            Some(v) => spec_clamp(
                v as int,
                MIN_HUD_SCALE_MILLIS as int,
                MAX_HUD_SCALE_MILLIS as int,
            ) as u32,
            None => base.hud_scale_millis,
        },
        hud_background_color: match c.hud_background_color {
            Some(col) => col,
            None => base.hud_background_color,
        },
    }
}

/// Lay the values of a configuration file over `base`, clamping each present
/// numeric value into its documented range.
pub fn apply_config_file(base: DisplaySettings, config: ConfigOverrides) -> (r: DisplaySettings)
    requires
        spec_settings_wf(base),
    ensures
        r == spec_apply_config(base, config),
        spec_settings_wf(r),
{
    let mut s = base;
    if let Some(v) = config.poll_interval_millis {
        s.poll_interval_millis = clamp_i64(
            v,
            MIN_POLL_INTERVAL_MILLIS,
            MAX_POLL_INTERVAL_MILLIS,
        ) as u64;
    }
    if let Some(v) = config.hud_duration_millis {
        s.hud_duration_millis = clamp_i64(v, MIN_HUD_DURATION_MILLIS, MAX_HUD_DURATION_MILLIS)
            as u64;
    }
    if let Some(v) = config.max_chars_per_line {
        s.truncate_max_width = parse_usize_value(v, MIN_TRUNCATE_MAX_WIDTH, MAX_TRUNCATE_MAX_WIDTH);
    }
    if let Some(v) = config.max_lines {
        s.truncate_max_lines = parse_usize_value(v, MIN_TRUNCATE_MAX_LINES, MAX_TRUNCATE_MAX_LINES);
    }
    if let Some(p) = config.hud_position {
        s.hud_position = p;
    }
    if let Some(v) = config.hud_scale_millis {
        s.hud_scale_millis = clamp_i64(v, MIN_HUD_SCALE_MILLIS, MAX_HUD_SCALE_MILLIS) as u32;
    }
    if let Some(col) = config.hud_background_color {
        s.hud_background_color = col;
    }
    s
}

/// What the environment provided: durations and the scale already parsed by
/// the host (absent when unset, unreadable or non-finite), counts and
/// keywords still as text, read and validated here.
#[derive(Debug)]
pub struct EnvOverrides {
    pub poll_interval_millis: Option<i64>,
    pub hud_duration_millis: Option<i64>,
    pub max_chars_per_line: Option<String>,
    pub max_lines: Option<String>,
    pub hud_position: Option<String>,
    pub hud_scale_millis: Option<i64>,
    pub hud_background_color: Option<String>,
}

/// What applying environment overrides means: a present duration or scale is
/// clamped; a present count or keyword is parsed, and keeps the base value
/// when unreadable.
pub open spec fn spec_apply_env(base: DisplaySettings, e: EnvOverrides) -> DisplaySettings {
    DisplaySettings {
        poll_interval_millis: match e.poll_interval_millis {
            Some(v) => spec_clamp(
                v as int,
                MIN_POLL_INTERVAL_MILLIS as int,
                MAX_POLL_INTERVAL_MILLIS as int,
            ) as u64,
            None => base.poll_interval_millis,
        },
        hud_duration_millis: match e.hud_duration_millis {
            Some(v) => spec_clamp(
                v as int,
                MIN_HUD_DURATION_MILLIS as int,
                MAX_HUD_DURATION_MILLIS as int,
            ) as u64,
            None => base.hud_duration_millis,
        },
        truncate_max_width: match e.max_chars_per_line {
            Some(v) => spec_parse_usize_setting(
                v@,
                base.truncate_max_width as int,
                MIN_TRUNCATE_MAX_WIDTH as int,
                MAX_TRUNCATE_MAX_WIDTH as int,
            ) as usize,
            None => base.truncate_max_width,
        },
        truncate_max_lines: match e.max_lines {
            Some(v) => spec_parse_usize_setting(
                v@,
                base.truncate_max_lines as int,
                MIN_TRUNCATE_MAX_LINES as int,
                MAX_TRUNCATE_MAX_LINES as int,
            ) as usize,
            None => base.truncate_max_lines,
        },
        hud_position: match e.hud_position {
            Some(v) => match spec_parse_hud_position(v@) {
                Some(p) => p,
                None => base.hud_position,
            },
            None => base.hud_position,
        },
        hud_scale_millis: match e.hud_scale_millis {
            Some(v) => spec_clamp(
                v as int,
                MIN_HUD_SCALE_MILLIS as int,
                MAX_HUD_SCALE_MILLIS as int,
            ) as u32,
            None => base.hud_scale_millis,
        },
        hud_background_color: match e.hud_background_color {
            Some(v) => match spec_parse_hud_background_color(v@) {
                Some(c) => c,
                None => base.hud_background_color,
            },
            None => base.hud_background_color,
        },
    }
}

/// Lay environment overrides over `base`; they take precedence over the
/// configuration file.
pub fn apply_env_overrides(base: DisplaySettings, env: &EnvOverrides) -> (r: DisplaySettings)
    requires
        spec_settings_wf(base),
    ensures
        r == spec_apply_env(base, *env),
        spec_settings_wf(r),
{
    let mut s = base;
    if let Some(v) = env.poll_interval_millis {
        s.poll_interval_millis = clamp_i64(
            v,
            MIN_POLL_INTERVAL_MILLIS,
            MAX_POLL_INTERVAL_MILLIS,
        ) as u64;
    }
    if let Some(v) = env.hud_duration_millis {
        s.hud_duration_millis = clamp_i64(v, MIN_HUD_DURATION_MILLIS, MAX_HUD_DURATION_MILLIS)
            as u64;
    }
    if let Some(v) = &env.max_chars_per_line {
        s.truncate_max_width = parse_usize_setting(
            v.as_str(),
            s.truncate_max_width,
            MIN_TRUNCATE_MAX_WIDTH,
            MAX_TRUNCATE_MAX_WIDTH,
        );
    }
    if let Some(v) = &env.max_lines {
        s.truncate_max_lines = parse_usize_setting(
            v.as_str(),
            s.truncate_max_lines,
            MIN_TRUNCATE_MAX_LINES,
            MAX_TRUNCATE_MAX_LINES,
        );
    }
    if let Some(v) = &env.hud_position {
        s.hud_position = parse_hud_position_setting(v.as_str(), s.hud_position);
    }
    if let Some(v) = env.hud_scale_millis {
        s.hud_scale_millis = clamp_i64(v, MIN_HUD_SCALE_MILLIS, MAX_HUD_SCALE_MILLIS) as u32;
    }
    if let Some(v) = &env.hud_background_color {
        s.hud_background_color = parse_hud_background_color_setting(
            v.as_str(),
            s.hud_background_color,
        );
    }
    s
}

/// Clamp a count for `--config set`, noting whether it was out of range (the
/// caller then warns).
pub fn clamp_count_setting(value: usize, min: usize, max: usize) -> (r: (usize, bool))
    requires
        min <= max,
    ensures
        r.0 == spec_clamp(value as int, min as int, max as int),
        r.1 == (value < min || value > max),
{
    let clamped = parse_usize_value(value, min, max);
    (clamped, value < min || value > max)
}

/// Clamp a duration or scale (in thousandths) for `--config set`, noting
/// whether it was out of range (the caller then warns).
pub fn clamp_millis_setting(value: i64, min: i64, max: i64) -> (r: (i64, bool))
    requires
        min <= max,
    ensures
        r.0 == spec_clamp(value as int, min as int, max as int),
        r.1 == (value < min || value > max),
{
    let clamped = clamp_i64(value, min, max);
    (clamped, value < min || value > max)
}

} // verus!
