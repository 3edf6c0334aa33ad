//! The logger's padding and line rendering, including the exact escape
//! sequences the color crate produces.

use logger_bro::Level;
use logger_bro::Logger;
use owo_colors::OwoColorize;
use logger_bro::pad_obj;

#[test]
fn level_tags() {
    assert_eq!(Level::Info.as_str(), "INFO");
    assert_eq!(Level::Warn.as_str(), "WARN");
    assert_eq!(Level::Crit.as_str(), "CRIT");
}

#[test]
fn pad_fills_short_objects() {
    assert_eq!(pad_obj("abc", 6), "abc   ");
    assert_eq!(pad_obj("", 3), "   ");
    assert_eq!(pad_obj("abcdef", 6), "abcdef");
}

#[test]
fn pad_truncates_long_objects() {
    assert_eq!(pad_obj("hello world", 5), "hello");
    assert_eq!(pad_obj("hello", 0), "");
}

#[test]
fn pad_measures_display_columns_not_chars() {
    // Each of these characters is two terminal columns wide; a padder that
    // counted characters would keep all three or pad too far.
    assert_eq!(pad_obj("\u{65e5}\u{672c}\u{8a9e}", 4), "\u{65e5}\u{672c}");
    assert_eq!(pad_obj("\u{65e5}", 4), "\u{65e5}  ");
}

#[test]
fn format_line_exact() {
    let logger = Logger::new(4);
    let line = logger.format_line(Level::Info, "sim", "hello");
    assert_eq!(line, "[\u{1b}[31mINFO\u{1b}[39m] [\u{1b}[32msim \u{1b}[39m]:    hello\n");
}

#[test]
fn format_line_truncates_object() {
    let logger = Logger::new(2);
    let line = logger.format_line(Level::Crit, "abcdef", "boom");
    assert_eq!(line, "[\u{1b}[31mCRIT\u{1b}[39m] [\u{1b}[32mab\u{1b}[39m]:    boom\n");
}

#[test]
fn colors_match_the_color_crate() {
    let logger = Logger::new(4);
    let line = logger.format_line(Level::Warn, "obj!", "msg");
    let expected_tag = "WARN".red().to_string();
    let expected_obj = "obj!".green().to_string();
    let expected = format!("[{}] [{}]:    msg\n", expected_tag, expected_obj);
    assert_eq!(line, expected);
}

#[test]
fn logging_prints_without_panicking() {
    let logger = Logger::new(8);
    logger.log(Level::Info, "sim", "starting");
    logger.info("sim", "one");
    logger.warn("sim", "two");
    logger.crit("sim", "three");
}
