//! The pattern compiler: the exact rewritten sources, and the acceptance
//! behavior of the compiled matchers.

use myne_books::pattern::{compile, compile_command_source};

fn compile_command(pattern: &str, prefixes: &[char], username: Option<&str>) -> String {
    compile_command_source(pattern, &prefixes.to_vec(), &username.map(|u| u.to_string()))
}

#[test]
fn rewrites_anchored_keyword_with_username() {
    let src = compile_command("start$", &['/', '!'], Some("mybot"));
    assert_eq!(src, "^[/!]start(?:@mybot)?$");
}

#[test]
fn rewrites_anchored_keyword_without_username() {
    let src = compile_command("start$", &['/', '!'], None);
    assert_eq!(src, "^[/!]start(?:)$");
}

#[test]
fn rewrites_unanchored_keyword() {
    let src = compile_command("start", &['/'], Some("mybot"));
    assert_eq!(src, "^[/]start(?:@mybot)?");
}

#[test]
fn escapes_metacharacter_prefixes() {
    let src = compile_command("go$", &['^', ']', '-', '\\', '['], None);
    assert_eq!(src, "^[\\^\\]\\-\\\\\\[]go(?:)$");
}

#[test]
fn preserves_argument_fragments() {
    let src = compile_command("del  (.+) (\\d+)$", &['/'], Some("mybot"));
    assert_eq!(src, "^[/]del(?:@mybot)? (.+) (\\d+)$");
}

#[test]
fn single_token_has_no_trailing_fragment() {
    let src = compile_command("ping$", &['/'], None);
    assert_eq!(src, "^[/]ping(?:)$");
}

#[test]
fn command_matcher_accepts_each_prefix_and_rejects_others() {
    let src = compile_command("start$", &['/', '!'], Some("mybot"));
    let m = compile(src).expect("compiled command source must be a valid pattern");
    assert!(m.is_match("/start"));
    assert!(m.is_match("!start"));
    assert!(!m.is_match("start"));
    assert!(!m.is_match("?start"));
    assert!(!m.is_match(".start"));
}

#[test]
fn command_matcher_accepts_own_mention_only() {
    let src = compile_command("start$", &['/', '!'], Some("mybot"));
    let m = compile(src).expect("compiled command source must be a valid pattern");
    assert!(m.is_match("/start@mybot"));
    assert!(m.is_match("!start@mybot"));
    assert!(!m.is_match("/start@other"));
}

#[test]
fn command_matcher_enforces_anchor() {
    let src = compile_command("start$", &['/', '!'], Some("mybot"));
    let m = compile(src).expect("compiled command source must be a valid pattern");
    assert!(!m.is_match("/starting"));
}

#[test]
fn empty_mention_group_matches_nothing_extra() {
    let src = compile_command("start$", &['/'], None);
    let m = compile(src).expect("compiled command source must be a valid pattern");
    assert!(m.is_match("/start"));
    assert!(!m.is_match("/start@mybot"));
}

#[test]
fn escaped_prefix_matches_literally() {
    let src = compile_command("go$", &['^'], None);
    let m = compile(src).expect("compiled command source must be a valid pattern");
    assert!(m.is_match("^go"));
    assert!(!m.is_match("go"));
}

#[test]
fn argument_fragments_still_match_after_rewriting() {
    let src = compile_command("del (.+)$", &['/'], Some("mybot"));
    let m = compile(src).expect("compiled command source must be a valid pattern");
    assert!(m.is_match("/del book"));
    assert!(m.is_match("/del@mybot book"));
    assert!(!m.is_match("/del"));
    assert!(!m.is_match("del book"));
}

#[test]
fn malformed_pattern_is_refused() {
    assert!(compile("(".to_string()).is_none());
}
