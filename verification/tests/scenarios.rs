use lth::engine::{FetchFailure, ScaffoldError};
use lth::script::{BinReply, BinRule, Script, TextReply, TextRule, run_scripted};

const BASE: &str = "https://raw.githubusercontent.com/Johanx22x/latex-templates/main";

fn text_rule(url: String, body: &str) -> TextRule {
    TextRule { url, reply: TextReply::Body { text: body.to_string() } }
}

fn math_script(answers: &[&str]) -> Script {
    Script {
        name: "proj".to_string(),
        texts: vec![
            text_rule(format!("{BASE}/math/main.tex"), "MAIN"),
            text_rule(format!("{BASE}/math/preamble.tex"), "PRE"),
            text_rule(format!("{BASE}/math/macros.tex"), "MAC"),
            text_rule(format!("{BASE}/math/letterfonts.tex"), "LETTER"),
            text_rule(format!("{BASE}/math/README.md"), "READ"),
            text_rule(format!("{BASE}/math/.gitignore"), "IGN"),
        ],
        bins: vec![],
        answers: answers.iter().map(|s| s.to_string()).collect(),
    }
}

#[test]
fn math_run_with_default_answers_builds_the_full_tree() {
    let script = math_script(&["", ""]);
    let (fs, outcome) = run_scripted("math", "/tmp/x", &script);
    assert!(outcome.is_ok());
    assert!(fs.has_dir("/tmp/x"));
    assert!(fs.has_dir("/tmp/x/proj"));
    assert!(fs.has_dir("/tmp/x/proj/lib"));
    assert!(fs.has_dir("/tmp/x/proj/images"));
    assert!(fs.has_dir("/tmp/x/proj/src"));
    assert_eq!(fs.text_of("/tmp/x/proj/main.tex"), Some("MAIN".to_string()));
    assert_eq!(fs.text_of("/tmp/x/proj/lib/preamble.tex"), Some("PRE".to_string()));
    assert_eq!(fs.text_of("/tmp/x/proj/lib/macros.tex"), Some("MAC".to_string()));
    assert_eq!(fs.text_of("/tmp/x/proj/lib/letterfonts.tex"), Some("LETTER".to_string()));
    assert_eq!(fs.text_of("/tmp/x/proj/src/chap01.tex"), Some("".to_string()));
    assert_eq!(fs.text_of("/tmp/x/proj/README.md"), Some("READ".to_string()));
    assert_eq!(fs.text_of("/tmp/x/proj/.gitignore"), Some("IGN".to_string()));
    assert!(fs.repo_initialized());
    assert_eq!(fs.files_len(), 7);
}

#[test]
fn math_run_refusing_git_leaves_the_same_tree_minus_the_repository() {
    let script = math_script(&["", "n"]);
    let (fs, outcome) = run_scripted("math", "/tmp/x", &script);
    assert!(outcome.is_ok());
    assert_eq!(fs.text_of("/tmp/x/proj/main.tex"), Some("MAIN".to_string()));
    assert_eq!(fs.text_of("/tmp/x/proj/lib/preamble.tex"), Some("PRE".to_string()));
    assert_eq!(fs.text_of("/tmp/x/proj/lib/macros.tex"), Some("MAC".to_string()));
    assert_eq!(fs.text_of("/tmp/x/proj/lib/letterfonts.tex"), Some("LETTER".to_string()));
    assert_eq!(fs.text_of("/tmp/x/proj/src/chap01.tex"), Some("".to_string()));
    assert_eq!(fs.text_of("/tmp/x/proj/README.md"), Some("READ".to_string()));
    assert_eq!(fs.text_of("/tmp/x/proj/.gitignore"), None);
    assert!(!fs.repo_initialized());
    assert_eq!(fs.files_len(), 6);
}

#[test]
fn math_run_refusing_the_readme_skips_only_the_readme() {
    let script = math_script(&["no", ""]);
    let (fs, outcome) = run_scripted("math", "/tmp/x", &script);
    assert!(outcome.is_ok());
    assert_eq!(fs.text_of("/tmp/x/proj/README.md"), None);
    assert_eq!(fs.text_of("/tmp/x/proj/.gitignore"), Some("IGN".to_string()));
    assert!(fs.repo_initialized());
    assert_eq!(fs.files_len(), 6);
}

fn ieee_script(makefile_reply: TextReply) -> Script {
    Script {
        name: "paper".to_string(),
        texts: vec![
            text_rule(format!("{BASE}/ieee/metadata.yaml"), "META"),
            text_rule(format!("{BASE}/ieee/lib/bibliography.csl"), "CSL"),
            text_rule(format!("{BASE}/ieee/lib/bibliography.bib"), "BIB"),
            text_rule(format!("{BASE}/ieee/lib/template.tex"), "TPL"),
            text_rule(format!("{BASE}/ieee/src/01.md"), "CH1"),
            TextRule { url: format!("{BASE}/ieee/Makefile"), reply: makefile_reply },
            text_rule(format!("{BASE}/ieee/README.md"), "READ"),
            text_rule(format!("{BASE}/ieee/.gitignore"), "IGN"),
        ],
        bins: vec![BinRule {
            url: format!("{BASE}/ieee/images/markdown.png"),
            reply: BinReply::Body { bytes: vec![1, 2, 3] },
        }],
        answers: vec!["".to_string(), "".to_string()],
    }
}

#[test]
fn ieee_run_with_default_answers_builds_the_full_tree() {
    let script = ieee_script(TextReply::Body { text: "MAKE".to_string() });
    let (fs, outcome) = run_scripted("ieee", "/d", &script);
    assert!(outcome.is_ok());
    assert_eq!(fs.text_of("/d/paper/metadata.yaml"), Some("META".to_string()));
    assert_eq!(fs.text_of("/d/paper/lib/bibliography.csl"), Some("CSL".to_string()));
    assert_eq!(fs.text_of("/d/paper/lib/bibliography.bib"), Some("BIB".to_string()));
    assert_eq!(fs.text_of("/d/paper/lib/template.tex"), Some("TPL".to_string()));
    assert_eq!(fs.bytes_of("/d/paper/images/markdown.png"), Some(vec![1, 2, 3]));
    assert_eq!(fs.text_of("/d/paper/src/01.md"), Some("CH1".to_string()));
    assert_eq!(fs.text_of("/d/paper/Makefile"), Some("MAKE".to_string()));
    assert!(fs.has_dir("/d/paper/build"));
    assert_eq!(fs.text_of("/d/paper/README.md"), Some("READ".to_string()));
    assert_eq!(fs.text_of("/d/paper/.gitignore"), Some("IGN".to_string()));
    assert!(fs.repo_initialized());
}

#[test]
fn ieee_run_aborts_at_a_failed_makefile_fetch() {
    let script = ieee_script(TextReply::Status { code: 404 });
    let (fs, outcome) = run_scripted("ieee", "/d", &script);
    match outcome {
        Err(ScaffoldError::RemoteFetchFailed { url, cause }) => {
            assert_eq!(url, format!("{BASE}/ieee/Makefile"));
            assert!(matches!(cause, FetchFailure::Status { code: 404 }));
        }
        other => panic!("expected a fetch failure, got {:?}", other.is_ok()),
    }
    // Everything before the Makefile step exists.
    assert_eq!(fs.text_of("/d/paper/metadata.yaml"), Some("META".to_string()));
    assert_eq!(fs.text_of("/d/paper/lib/template.tex"), Some("TPL".to_string()));
    assert_eq!(fs.bytes_of("/d/paper/images/markdown.png"), Some(vec![1, 2, 3]));
    assert_eq!(fs.text_of("/d/paper/src/01.md"), Some("CH1".to_string()));
    // Nothing from the Makefile step on was done.
    assert_eq!(fs.text_of("/d/paper/Makefile"), None);
    assert!(!fs.has_dir("/d/paper/build"));
    assert_eq!(fs.text_of("/d/paper/README.md"), None);
    assert_eq!(fs.text_of("/d/paper/.gitignore"), None);
    assert!(!fs.repo_initialized());
}

#[test]
fn a_fetch_for_an_unscripted_url_is_a_transport_failure() {
    let mut script = math_script(&["", ""]);
    script.texts.remove(0);
    let (fs, outcome) = run_scripted("math", "/tmp/x", &script);
    match outcome {
        Err(ScaffoldError::RemoteFetchFailed { url, cause }) => {
            assert_eq!(url, format!("{BASE}/math/main.tex"));
            assert!(matches!(cause, FetchFailure::Transport));
        }
        _ => panic!("expected a transport failure"),
    }
    assert!(fs.has_dir("/tmp/x/proj"));
    assert_eq!(fs.files_len(), 0);
}

#[test]
fn an_unknown_identifier_is_refused_before_any_mutation() {
    let script = math_script(&["", ""]);
    let (fs, outcome) = run_scripted("nope", "/tmp/x", &script);
    assert!(matches!(outcome, Err(ScaffoldError::UnknownTemplate)));
    assert!(fs.has_dir("/tmp/x"));
    assert!(!fs.has_dir("/tmp/x/proj"));
    assert_eq!(fs.files_len(), 0);
    assert!(!fs.repo_initialized());
}

#[test]
fn a_nested_root_name_fails_directory_creation() {
    let mut script = math_script(&["", ""]);
    script.name = "a/b".to_string();
    let (fs, outcome) = run_scripted("math", "/tmp/x", &script);
    match outcome {
        Err(ScaffoldError::DirectoryCreateFailed { path }) => {
            assert_eq!(path, "/tmp/x/a/b");
        }
        _ => panic!("expected directory creation to fail"),
    }
    assert_eq!(fs.files_len(), 0);
    assert!(!fs.has_dir("/tmp/x/a/b"));
}

#[test]
fn prompts_past_the_scripts_end_accept_the_default() {
    // No answer lines at all: both confirmations fall back to yes.
    let script = math_script(&[]);
    let (fs, outcome) = run_scripted("math", "/tmp/x", &script);
    assert!(outcome.is_ok());
    assert_eq!(fs.text_of("/tmp/x/proj/README.md"), Some("READ".to_string()));
    assert_eq!(fs.text_of("/tmp/x/proj/.gitignore"), Some("IGN".to_string()));
    assert!(fs.repo_initialized());
}

#[test]
fn apa7tec_run_with_default_answers_builds_the_full_tree() {
    let script = Script {
        name: "tec".to_string(),
        texts: vec![
            text_rule(format!("{BASE}/apa7tec/metadata.yaml"), "META"),
            text_rule(format!("{BASE}/apa7tec/lib/bibliography.bib"), "BIB"),
            text_rule(format!("{BASE}/apa7tec/lib/apa7tec.cls"), "CLS"),
            text_rule(format!("{BASE}/apa7tec/src/01.md"), "CH1"),
            text_rule(format!("{BASE}/apa7tec/Makefile"), "MAKE"),
            text_rule(format!("{BASE}/apa7tec/README.md"), "READ"),
            text_rule(format!("{BASE}/apa7tec/.gitignore"), "IGN"),
        ],
        bins: vec![BinRule {
            url: format!("{BASE}/apa7tec/images/logo.png"),
            reply: BinReply::Body { bytes: vec![0xff, 0x00] },
        }],
        answers: vec!["y".to_string(), "Yes".to_string()],
    };
    let (fs, outcome) = run_scripted("apa7tec", "/d", &script);
    assert!(outcome.is_ok());
    assert_eq!(fs.text_of("/d/tec/metadata.yaml"), Some("META".to_string()));
    assert_eq!(fs.text_of("/d/tec/lib/bibliography.bib"), Some("BIB".to_string()));
    assert_eq!(fs.text_of("/d/tec/lib/apa7tec.cls"), Some("CLS".to_string()));
    assert_eq!(fs.text_of("/d/tec/src/01.md"), Some("CH1".to_string()));
    assert_eq!(fs.text_of("/d/tec/Makefile"), Some("MAKE".to_string()));
    assert_eq!(fs.bytes_of("/d/tec/images/logo.png"), Some(vec![0xff, 0x00]));
    assert!(fs.has_dir("/d/tec/build"));
    assert_eq!(fs.text_of("/d/tec/README.md"), Some("READ".to_string()));
    assert_eq!(fs.text_of("/d/tec/.gitignore"), Some("IGN".to_string()));
    assert!(fs.repo_initialized());
}

#[test]
fn the_root_name_is_trimmed_like_operator_input() {
    let mut script = math_script(&["", ""]);
    script.name = " proj \n".to_string();
    let (fs, outcome) = run_scripted("math", "/tmp/x", &script);
    assert!(outcome.is_ok());
    assert!(fs.has_dir("/tmp/x/proj"));
}
