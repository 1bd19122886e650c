// Every test here switches colouring on, so that the escape sequences show.

use colored::Colorize;
use linepaint::paint::{HIGHLIGHT_BLUE, HIGHLIGHT_GREEN, HIGHLIGHT_RED};
use linepaint::{apply_styles, paint, render_document, style_line, StyleKind};

const RESET: &str = "\x1b[0m";

fn wrap(code: &str, text: &str) -> String {
    let mut out = String::new();
    for c in text.chars() {
        out.push_str(&format!("\x1b[{}m{}{}", code, c, RESET));
    }
    out
}

// The background codes that may stand for the highlight colour: the colour
// itself, or one of the sixteen basic backgrounds.
fn highlight_codes() -> Vec<String> {
    let mut codes = vec![format!("48;2;{};{};{}", HIGHLIGHT_RED, HIGHLIGHT_GREEN, HIGHLIGHT_BLUE)];
    for n in 40..48 {
        codes.push(format!("{}", n));
    }
    for n in 100..108 {
        codes.push(format!("{}", n));
    }
    codes
}

#[test]
fn paint_number_is_cyan() {
    colored::control::set_override(true);
    assert_eq!(paint('7', StyleKind::Number), "\x1b[36m7\x1b[0m");
}

#[test]
fn paint_single_quote_is_yellow() {
    colored::control::set_override(true);
    assert_eq!(paint('a', StyleKind::SingleQuoteString), "\x1b[33ma\x1b[0m");
}

#[test]
fn paint_double_quote_is_bright_red() {
    colored::control::set_override(true);
    assert_eq!(paint('a', StyleKind::DoubleQuoteString), "\x1b[91ma\x1b[0m");
}

#[test]
fn paint_strikethrough() {
    colored::control::set_override(true);
    assert_eq!(paint('a', StyleKind::Strikethrough), "\x1b[9ma\x1b[0m");
}

#[test]
fn paint_italic() {
    colored::control::set_override(true);
    assert_eq!(paint('a', StyleKind::Italic), "\x1b[3ma\x1b[0m");
}

#[test]
fn paint_bold() {
    colored::control::set_override(true);
    assert_eq!(paint('a', StyleKind::Bold), "\x1b[1ma\x1b[0m");
}

#[test]
fn paint_highlight_is_a_background() {
    colored::control::set_override(true);
    let piece = paint('a', StyleKind::Highlight);
    assert_eq!(piece, "a".on_truecolor(135, 28, 167).to_string());
    assert!(highlight_codes().iter().any(|code| piece == wrap(code, "a")));
    assert!(piece == wrap("48;2;135;28;167", "a") || piece == wrap("45", "a"));
}

#[test]
fn paint_normal_is_the_character() {
    colored::control::set_override(true);
    assert_eq!(paint('a', StyleKind::Normal), "a");
}

#[test]
fn paint_keeps_a_wide_character() {
    colored::control::set_override(true);
    assert_eq!(paint('é', StyleKind::Bold), "\x1b[1mé\x1b[0m");
}

#[test]
fn highlight_colour() {
    assert_eq!((HIGHLIGHT_RED, HIGHLIGHT_GREEN, HIGHLIGHT_BLUE), (135, 28, 167));
}

#[test]
fn bold_span() {
    colored::control::set_override(true);
    assert_eq!(
        apply_styles("This is a _test_ line".to_string()),
        format!("This is a {} line\n", wrap("1", "test"))
    );
}

#[test]
fn italic_span() {
    colored::control::set_override(true);
    assert_eq!(
        apply_styles("This is a *test* line".to_string()),
        format!("This is a {} line\n", wrap("3", "test"))
    );
}

#[test]
fn strikethrough_span() {
    colored::control::set_override(true);
    assert_eq!(
        apply_styles("This is a ~test~ line".to_string()),
        format!("This is a {} line\n", wrap("9", "test"))
    );
}

#[test]
fn highlight_span() {
    colored::control::set_override(true);
    let out = apply_styles("This is a `test` line".to_string());
    assert!(highlight_codes()
        .iter()
        .any(|code| out == format!("This is a {} line\n", wrap(code, "test"))));
}

#[test]
fn formatting_with_colours_on() {
    colored::control::set_override(true);
    assert_eq!(
        apply_styles("This is a _test_ line".to_string()),
        format!("This is a {t}{e}{s}{t} line\n", t = "t".bold(), e = "e".bold(), s = "s".bold())
    );
    assert_eq!(
        apply_styles("This is a `test` line".to_string()),
        format!(
            "This is a {t}{e}{s}{t} line\n",
            t = "t".on_truecolor(135, 28, 167),
            e = "e".on_truecolor(135, 28, 167),
            s = "s".on_truecolor(135, 28, 167)
        )
    );
}

#[test]
fn quotes_are_painted_with_their_span() {
    colored::control::set_override(true);
    assert_eq!(
        apply_styles("say 'hi' now".to_string()),
        format!("say {} now\n", wrap("33", "'hi'"))
    );
    assert_eq!(
        apply_styles("say \"hi\" now".to_string()),
        format!("say {} now\n", wrap("91", "\"hi\""))
    );
}

#[test]
fn silent_delimiters_leave_the_output() {
    colored::control::set_override(true);
    let out = apply_styles("a _b_ c".to_string());
    assert!(!out.contains('_'));
    assert_eq!(out, format!("a {} c\n", wrap("1", "b")));
}

#[test]
fn digits_and_points_of_a_number() {
    colored::control::set_override(true);
    // Every digit is cyan, and so is each point while the number runs.
    assert_eq!(
        style_line("pi is 3.14."),
        format!("pi is {}\n", wrap("36", "3.14."))
    );
    // The pair of `*` lets the line through the prescan.
    assert_eq!(
        apply_styles("*pi* is 3.14".to_string()),
        format!("{} is {}\n", wrap("3", "pi"), wrap("36", "3.14"))
    );
}

#[test]
fn point_outside_a_number_is_plain() {
    colored::control::set_override(true);
    assert_eq!(
        apply_styles("*a*. b.c".to_string()),
        format!("{}. b.c\n", wrap("3", "a"))
    );
    // A delimiter ends the numeric run: the point after it is plain.
    assert_eq!(style_line("1*.").as_str(), format!("{}.\n", wrap("36", "1")));
    // Another character does not: the run stays active behind it.
    assert_eq!(
        style_line("1a.").as_str(),
        format!("{}a{}\n", wrap("36", "1"), wrap("36", "."))
    );
}

#[test]
fn digit_interrupts_a_span() {
    colored::control::set_override(true);
    // A digit replaces the active style, so the `_` that follows opens bold
    // anew instead of closing it.
    assert_eq!(
        apply_styles("_a1b_c".to_string()),
        format!("{}{}b{}\n", wrap("1", "a"), wrap("36", "1"), wrap("1", "c"))
    );
}

#[test]
fn a_new_style_replaces_the_open_one() {
    colored::control::set_override(true);
    // `*` replaces bold by italic; the second `_` then opens bold again
    // instead of closing it, and the second `*` opens italic again.
    assert_eq!(
        apply_styles("_a*b_c*d".to_string()),
        format!(
            "{}{}{}{}\n",
            wrap("1", "a"),
            wrap("3", "b"),
            wrap("1", "c"),
            wrap("3", "d")
        )
    );
}

#[test]
fn pair_around_another_delimiter_is_styled() {
    colored::control::set_override(true);
    assert_eq!(
        apply_styles("*a_b*".to_string()),
        format!("{}{}\n", wrap("3", "a"), wrap("1", "b"))
    );
}

#[test]
fn state_machine_alone_styles_behind_a_lone_delimiter() {
    colored::control::set_override(true);
    // The prescan keeps such a line from the state machine; run directly, the
    // machine drops the delimiter and paints what follows it.
    assert_eq!(apply_styles("ab *cd".to_string()), "ab *cd\n");
    assert_eq!(style_line("ab *cd"), format!("ab {}\n", wrap("3", "cd")));
}

#[test]
fn line_without_delimiters_is_not_painted() {
    colored::control::set_override(true);
    assert_eq!(apply_styles("route 66, 3.5 miles".to_string()), "route 66, 3.5 miles\n");
}

#[test]
fn style_does_not_cross_lines() {
    colored::control::set_override(true);
    let lines = vec!["_a_ _b".to_string(), "c".to_string(), "*d*".to_string()];
    assert_eq!(
        render_document(&lines),
        format!("{} {}\nc\n{}\n", wrap("1", "a"), wrap("1", "b"), wrap("3", "d"))
    );
}
