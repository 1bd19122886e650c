// Every test here switches colouring off: what is left is the text itself.

use linepaint::{apply_styles, paint, render_document, style_line, StyleKind};

#[test]
fn paint_without_colours_is_the_character() {
    colored::control::set_override(false);
    assert_eq!(paint('a', StyleKind::Bold), "a");
    assert_eq!(paint('1', StyleKind::Number), "1");
    assert_eq!(paint('a', StyleKind::Highlight), "a");
    assert_eq!(paint('\'', StyleKind::SingleQuoteString), "'");
}

#[test]
fn silent_delimiters_are_dropped() {
    colored::control::set_override(false);
    assert_eq!(apply_styles("This is a _test_ line".to_string()), "This is a test line\n");
    assert_eq!(apply_styles("a ~b~ `c` *d* _e_".to_string()), "a b c d e\n");
}

#[test]
fn quotes_are_kept() {
    colored::control::set_override(false);
    assert_eq!(apply_styles("say 'hi' and \"ho\"".to_string()), "say 'hi' and \"ho\"\n");
}

#[test]
fn empty_line_is_a_line_feed() {
    colored::control::set_override(false);
    assert_eq!(apply_styles(String::new()), "\n");
    assert_eq!(style_line(""), "\n");
}

#[test]
fn exactly_one_line_feed_is_added() {
    colored::control::set_override(false);
    let out = apply_styles("_a_".to_string());
    assert_eq!(out, "a\n");
    let out = apply_styles("a\n".to_string());
    assert_eq!(out, "a\n\n");
}

#[test]
fn lone_delimiters_pass_through() {
    colored::control::set_override(false);
    assert_eq!(apply_styles("* ~ _ ` ' \"".to_string()), "* ~ _ ` ' \"\n");
    assert_eq!(apply_styles("snake_case".to_string()), "snake_case\n");
    assert_eq!(apply_styles("__".to_string()), "__\n");
}

#[test]
fn empty_document() {
    colored::control::set_override(false);
    assert_eq!(render_document(&Vec::new()), "");
}

#[test]
fn document_keeps_the_order_of_its_lines() {
    colored::control::set_override(false);
    let lines = vec![
        "first".to_string(),
        String::new(),
        "_second_".to_string(),
        "* third".to_string(),
    ];
    assert_eq!(render_document(&lines), "first\n\nsecond\n* third\n");
}
