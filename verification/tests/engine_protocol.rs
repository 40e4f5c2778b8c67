use lth::engine::{Action, Engine, Event, Phase, ScaffoldError};
use lth::step::ScaffoldStep;

fn engine_with(steps: Vec<ScaffoldStep>) -> Engine {
    Engine { dest: "/d".to_string(), steps, phase: Phase::AskName }
}

fn expect_finished(eng: &Engine) -> Result<(), ScaffoldError> {
    match eng.next_action() {
        Action::Finished { result } => result,
        _ => panic!("expected the run to be finished"),
    }
}

#[test]
fn the_engine_asks_for_a_name_then_creates_the_root() {
    let mut eng = engine_with(vec![ScaffoldStep::CreateDirectory {
        relative_name: "lib".to_string(),
    }]);
    match eng.next_action() {
        Action::PromptLine { prompt_text } => {
            assert_eq!(prompt_text, "Enter the name of the new folder");
        }
        _ => panic!("expected the name prompt first"),
    }
    eng.handle_event(Event::Line { input: "proj\n".to_string() });
    match eng.next_action() {
        Action::CreateProjectRoot { path } => assert_eq!(path, "/d/proj"),
        _ => panic!("expected root creation next"),
    }
    eng.handle_event(Event::DirCreated);
    match eng.next_action() {
        Action::CreateDir { path } => assert_eq!(path, "/d/proj/lib"),
        _ => panic!("expected the step's directory next"),
    }
    eng.handle_event(Event::DirCreated);
    assert!(expect_finished(&eng).is_ok());
}

#[test]
fn a_failed_root_creation_ends_the_run_at_once() {
    let mut eng = engine_with(vec![ScaffoldStep::WriteLiteralFile {
        relative_name: "a.txt".to_string(),
        content: "A".to_string(),
    }]);
    eng.handle_event(Event::Line { input: "proj".to_string() });
    eng.handle_event(Event::DirCreateFailed);
    match expect_finished(&eng) {
        Err(ScaffoldError::DirectoryCreateFailed { path }) => assert_eq!(path, "/d/proj"),
        _ => panic!("expected the root failure to end the run"),
    }
}

#[test]
fn a_failed_write_reports_the_offending_path() {
    let mut eng = engine_with(vec![ScaffoldStep::WriteLiteralFile {
        relative_name: "lib/a.txt".to_string(),
        content: "A".to_string(),
    }]);
    eng.handle_event(Event::Line { input: "proj".to_string() });
    eng.handle_event(Event::DirCreated);
    match eng.next_action() {
        Action::WriteTextFile { path, content } => {
            assert_eq!(path, "/d/proj/lib/a.txt");
            assert_eq!(content, "A");
        }
        _ => panic!("expected the literal write next"),
    }
    eng.handle_event(Event::FileWriteFailed);
    match expect_finished(&eng) {
        Err(ScaffoldError::FileWriteFailed { path }) => assert_eq!(path, "/d/proj/lib/a.txt"),
        _ => panic!("expected the write failure to end the run"),
    }
}

#[test]
fn a_remote_file_is_fetched_then_written_verbatim() {
    let mut eng = engine_with(vec![ScaffoldStep::WriteRemoteFile {
        relative_name: "main.tex".to_string(),
        source_url: "https://example.test/main.tex".to_string(),
    }]);
    eng.handle_event(Event::Line { input: "proj".to_string() });
    eng.handle_event(Event::DirCreated);
    match eng.next_action() {
        Action::FetchText { url } => assert_eq!(url, "https://example.test/main.tex"),
        _ => panic!("expected the fetch next"),
    }
    eng.handle_event(Event::TextFetched { body: "BODY".to_string() });
    match eng.next_action() {
        Action::WriteTextFile { path, content } => {
            assert_eq!(path, "/d/proj/main.tex");
            assert_eq!(content, "BODY");
        }
        _ => panic!("expected the write of the fetched body"),
    }
    eng.handle_event(Event::FileWritten);
    assert!(expect_finished(&eng).is_ok());
}

#[test]
fn a_binary_asset_is_fetched_then_written_verbatim() {
    let mut eng = engine_with(vec![ScaffoldStep::FetchBinaryAsset {
        relative_name: "logo.png".to_string(),
        source_url: "https://example.test/logo.png".to_string(),
    }]);
    eng.handle_event(Event::Line { input: "proj".to_string() });
    eng.handle_event(Event::DirCreated);
    match eng.next_action() {
        Action::FetchBytes { url } => assert_eq!(url, "https://example.test/logo.png"),
        _ => panic!("expected the binary fetch next"),
    }
    eng.handle_event(Event::BytesFetched { body: vec![9, 8, 7] });
    match eng.next_action() {
        Action::WriteBinaryFile { path, content } => {
            assert_eq!(path, "/d/proj/logo.png");
            assert_eq!(content, vec![9, 8, 7]);
        }
        _ => panic!("expected the write of the fetched bytes"),
    }
    eng.handle_event(Event::FileWritten);
    assert!(expect_finished(&eng).is_ok());
}

#[test]
fn a_confirmed_git_step_writes_the_ignore_file_then_initializes() {
    let mut eng = engine_with(vec![ScaffoldStep::ConditionalGitInit {
        prompt_text: "Initialize a repository? (Y/n)".to_string(),
        default_yes: true,
        gitignore_name: ".gitignore".to_string(),
        gitignore_url: "https://example.test/.gitignore".to_string(),
    }]);
    eng.handle_event(Event::Line { input: "proj".to_string() });
    eng.handle_event(Event::DirCreated);
    match eng.next_action() {
        Action::PromptYesNo { prompt_text, default_yes } => {
            assert_eq!(prompt_text, "Initialize a repository? (Y/n)");
            assert!(default_yes);
        }
        _ => panic!("expected the confirmation prompt"),
    }
    eng.handle_event(Event::Line { input: "YES".to_string() });
    match eng.next_action() {
        Action::FetchText { url } => assert_eq!(url, "https://example.test/.gitignore"),
        _ => panic!("expected the ignore-file fetch"),
    }
    eng.handle_event(Event::TextFetched { body: "target/".to_string() });
    match eng.next_action() {
        Action::WriteTextFile { path, content } => {
            assert_eq!(path, "/d/proj/.gitignore");
            assert_eq!(content, "target/");
        }
        _ => panic!("expected the ignore-file write"),
    }
    eng.handle_event(Event::FileWritten);
    match eng.next_action() {
        Action::InitRepository { path } => assert_eq!(path, "/d/proj"),
        _ => panic!("expected repository initialization"),
    }
    eng.handle_event(Event::RepoInitFailed);
    match expect_finished(&eng) {
        Err(ScaffoldError::VcsInitFailed) => {}
        _ => panic!("expected the initialization failure to end the run"),
    }
}

#[test]
fn a_refused_readme_step_is_skipped() {
    let mut eng = engine_with(vec![ScaffoldStep::ConditionalReadme {
        prompt_text: "Create a README.md file? (Y/n)".to_string(),
        default_yes: true,
        readme_name: "README.md".to_string(),
        source: lth::step::ReadmeSource::Literal { content: "# hi".to_string() },
    }]);
    eng.handle_event(Event::Line { input: "proj".to_string() });
    eng.handle_event(Event::DirCreated);
    eng.handle_event(Event::Line { input: "no".to_string() });
    assert!(expect_finished(&eng).is_ok());
}

#[test]
fn a_confirmed_literal_readme_is_written_without_a_fetch() {
    let mut eng = engine_with(vec![ScaffoldStep::ConditionalReadme {
        prompt_text: "Create a README.md file? (Y/n)".to_string(),
        default_yes: true,
        readme_name: "README.md".to_string(),
        source: lth::step::ReadmeSource::Literal { content: "# hi".to_string() },
    }]);
    eng.handle_event(Event::Line { input: "proj".to_string() });
    eng.handle_event(Event::DirCreated);
    eng.handle_event(Event::Line { input: "".to_string() });
    match eng.next_action() {
        Action::WriteTextFile { path, content } => {
            assert_eq!(path, "/d/proj/README.md");
            assert_eq!(content, "# hi");
        }
        _ => panic!("expected the literal README write"),
    }
    eng.handle_event(Event::FileWritten);
    assert!(expect_finished(&eng).is_ok());
}

#[test]
fn config_run_starts_an_engine_for_a_known_template() {
    let c = lth::config::Config { template: "math".to_string(), path: "/tmp".to_string() };
    let eng = c.run().unwrap();
    assert!(matches!(eng.next_action(), Action::PromptLine { .. }));
    let bad = lth::config::Config { template: "nope".to_string(), path: "/tmp".to_string() };
    assert!(matches!(bad.run(), Err(ScaffoldError::UnknownTemplate)));
}
