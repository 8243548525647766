use cliip_show::text::{append_ellipsis, split_non_trailing_lines, truncate_line, truncate_text};

#[test]
fn truncates_single_long_line() {
    let input = "abcdefghijklmnopqrstuvwxyz";
    assert_eq!(truncate_text(input, 10, 5), "abcdefg...");
}

#[test]
fn truncates_lines_count_and_adds_ellipsis_to_last_line() {
    let input = "line1\nline2\nline3\nline4\nline5\nline6";
    assert_eq!(
        truncate_text(input, 100, 5),
        "line1\nline2\nline3\nline4\nline5..."
    );
}

#[test]
fn handles_utf8_by_char_count() {
    let input = "\u{3042}\u{3044}\u{3046}\u{3048}\u{304a}\u{304b}\u{304d}\u{304f}\u{3051}\u{3053}";
    assert_eq!(
        truncate_text(input, 6, 5),
        "\u{3042}\u{3044}\u{3046}..."
    );
}

#[test]
fn empty_input_yields_empty_output() {
    assert_eq!(truncate_text("", 6, 5), "");
}

#[test]
fn tiny_width_keeps_prefix_of_ellipsis() {
    assert_eq!(truncate_text("abcdef", 2, 5), "..");
    assert_eq!(truncate_text("abcdef", 3, 5), "...");
}

#[test]
fn crlf_lines_lose_their_carriage_returns() {
    assert_eq!(truncate_text("alpha\r\nbeta\r\n", 100, 5), "alpha\nbeta");
}

#[test]
fn trailing_blank_lines_are_dropped() {
    assert_eq!(truncate_text("alpha\n   \n\t\n\n", 100, 5), "alpha");
}

#[test]
fn blank_only_input_keeps_one_empty_line() {
    assert_eq!(truncate_text("   \n  \n", 100, 5), "");
}

#[test]
fn line_limit_without_overflow_adds_no_ellipsis() {
    assert_eq!(truncate_text("a\nb", 100, 2), "a\nb");
}

#[test]
fn truncate_line_keeps_short_lines() {
    assert_eq!(truncate_line("hello", 10), "hello");
    assert_eq!(truncate_line("hello", 5), "hello");
}

#[test]
fn truncate_line_cuts_long_lines() {
    assert_eq!(truncate_line("hello world", 8), "hello...");
    assert_eq!(truncate_line("hello", 2), "..");
}

#[test]
fn append_ellipsis_respects_width_budget() {
    assert_eq!(append_ellipsis("abc", 8), "abc...");
    assert_eq!(append_ellipsis("abcdefgh", 8), "abcde...");
    assert_eq!(append_ellipsis("abc", 6), "abc...");
    assert_eq!(append_ellipsis("abc", 5), "ab...");
    assert_eq!(append_ellipsis("abc", 3), "...");
    assert_eq!(append_ellipsis("abc", 0), "");
}

#[test]
fn split_keeps_interior_blank_lines() {
    let lines = split_non_trailing_lines("a\n\nb\n\n");
    assert_eq!(lines, vec!["a", "", "b"]);
}

#[test]
fn split_of_empty_text_is_one_empty_line() {
    let lines = split_non_trailing_lines("");
    assert_eq!(lines, vec![""]);
}
