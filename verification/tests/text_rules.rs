use leptos_mdx::text::format_text;
use leptos_mdx::text::join_sp;
use leptos_mdx::text::split_ws;
use leptos_mdx::text::str_eq;
use leptos_mdx::view::Inline;

fn run(s: &str) -> Inline {
    Inline::Run(s.to_string())
}

#[test]
fn break_between_text() {
    assert_eq!(format_text("a\nb"), vec![run("a"), Inline::Break, run("b")]);
}

#[test]
fn leading_newline_is_literal() {
    assert_eq!(format_text("\na"), vec![run("\na")]);
}

#[test]
fn trailing_newline_is_literal() {
    assert_eq!(format_text("a\n"), vec![run("a\n")]);
}

#[test]
fn no_flanked_newline_is_identity() {
    assert_eq!(format_text("hello world"), vec![run("hello world")]);
    assert_eq!(format_text(""), vec![run("")]);
    assert_eq!(format_text("a\n\nb"), vec![run("a\n\nb")]);
    assert_eq!(format_text("\n\n"), vec![run("\n\n")]);
}

#[test]
fn every_flanked_newline_becomes_a_break() {
    assert_eq!(
        format_text("a\nb\nc"),
        vec![run("a"), Inline::Break, run("b"), Inline::Break, run("c")]
    );
}

#[test]
fn split_whitespace_tokens() {
    let toks = split_ws("  x   y\tz ");
    assert_eq!(toks, vec!["x".to_string(), "y".to_string(), "z".to_string()]);
    let none: Vec<String> = Vec::new();
    assert_eq!(split_ws("   "), none);
    assert_eq!(split_ws(""), none);
}

#[test]
fn join_with_single_spaces() {
    let toks = vec!["x".to_string(), "y".to_string()];
    assert_eq!(join_sp(&toks), "x y".to_string());
    let one = vec!["x".to_string()];
    assert_eq!(join_sp(&one), "x".to_string());
    let zero: Vec<String> = Vec::new();
    assert_eq!(join_sp(&zero), String::new());
}

#[test]
fn string_equality_by_characters() {
    assert!(str_eq("code", "code"));
    assert!(!str_eq("code", "pre"));
    assert!(!str_eq("code", "codes"));
}
