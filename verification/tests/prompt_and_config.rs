use lth::config::Config;
use lth::paths::{join, parent_dir};
use lth::prompt::{answer_accepts, trim_line};

#[test]
fn affirmative_answers_with_default_yes() {
    assert!(answer_accepts("", true));
    assert!(answer_accepts("y", true));
    assert!(answer_accepts("Y", true));
    assert!(answer_accepts("yes", true));
    assert!(answer_accepts("Yes", true));
    assert!(answer_accepts("YES", true));
}

#[test]
fn negative_answers_with_default_yes() {
    assert!(!answer_accepts("n", true));
    assert!(!answer_accepts("no", true));
    assert!(!answer_accepts("maybe", true));
    assert!(!answer_accepts("yess", true));
    assert!(!answer_accepts("y e s", true));
    assert!(!answer_accepts("q", true));
}

#[test]
fn empty_answer_follows_the_default() {
    assert!(answer_accepts("", true));
    assert!(!answer_accepts("", false));
    assert!(answer_accepts("   \n", true));
    assert!(!answer_accepts(" \t ", false));
}

#[test]
fn answers_are_trimmed_and_case_insensitive() {
    assert!(answer_accepts(" y \n", false));
    assert!(answer_accepts("\tYES\n", false));
    assert!(answer_accepts("yEs", false));
    assert!(answer_accepts("YeS", false));
    assert!(!answer_accepts(" n \n", true));
}

#[test]
fn trim_line_strips_surrounding_whitespace() {
    assert_eq!(trim_line("  hello \n"), "hello");
    assert_eq!(trim_line("proj"), "proj");
    assert_eq!(trim_line(" \t\r\n"), "");
    assert_eq!(trim_line("a b"), "a b");
}

#[test]
fn join_and_parent_follow_the_slash_convention() {
    assert_eq!(join("/tmp/x", "main.tex"), "/tmp/x/main.tex");
    assert_eq!(parent_dir("/tmp/x/lib/preamble.tex"), "/tmp/x/lib");
    assert_eq!(parent_dir("/tmp/x"), "/tmp");
    assert_eq!(parent_dir("plain"), "");
}

fn args(v: &[&str]) -> Vec<String> {
    v.iter().map(|s| s.to_string()).collect()
}

#[test]
fn build_recognizes_version_requests() {
    assert!(matches!(Config::build(&args(&["lth", "-v"])), Err("version")));
    assert!(matches!(Config::build(&args(&["lth", "--version"])), Err("version")));
}

#[test]
fn build_recognizes_help_and_list_requests() {
    assert!(matches!(Config::build(&args(&["lth", "-h"])), Err("help")));
    assert!(matches!(Config::build(&args(&["lth", "math", "--help"])), Err("help")));
    assert!(matches!(Config::build(&args(&["lth", "-l"])), Err("list")));
    assert!(matches!(Config::build(&args(&["lth", "--list", "x"])), Err("list")));
}

#[test]
fn build_rejects_malformed_calls() {
    assert!(matches!(Config::build(&args(&["lth"])), Err("bad usage")));
    assert!(matches!(Config::build(&args(&["lth", "math"])), Err("bad usage")));
    assert!(matches!(Config::build(&args(&["lth", "math", "/tmp", "extra"])), Err("bad usage")));
}

#[test]
fn build_accepts_a_template_and_a_path() {
    let c = Config::build(&args(&["lth", "math", "/tmp/x"])).unwrap();
    assert_eq!(c.template, "math");
    assert_eq!(c.path, "/tmp/x");
}
