//! The scaffold executor: an event-driven state machine.
//!
//! The engine performs no input or output itself.  `next_action` says
//! which outside action the caller must perform now (create a directory,
//! write a file, fetch a resource, ask the operator a question), and
//! `handle_event` consumes the outcome of that action and moves the
//! machine forward.  A run prompts for the project root's name, creates
//! the root under the destination directory, then executes the template's
//! steps in declared order; the first failure ends the run with the
//! matching error, and nothing already done is rolled back.
//!
//! The whole transition relation is specified by the spec functions
//! `engine_action` and `engine_step`: each exec method's contract pins
//! its result to them exactly.

use vstd::prelude::*;

use crate::paths::join;
use crate::paths::join_path;
use crate::prompt::answer_accepts;
use crate::prompt::answer_means_yes;
use crate::prompt::trim_line;
use crate::prompt::trimmed;
use crate::registry::find_template;
use crate::registry::lookup;
use crate::step::ScaffoldStep;
use crate::step::SourceV;
use crate::step::StepV;
use crate::step::step_target;
use crate::step::steps_view;
use crate::step::wf_template;

verus! {

/// Why a remote fetch failed: a response with a status other than 200,
/// or no usable response at all.
#[derive(Clone, Copy, PartialEq, Eq, Structural, Debug)]
pub enum FetchFailure {
    Status { code: u16 },
    Transport,
}

/// Everything that can end a run early.
#[derive(Debug)]
pub enum ScaffoldError {
    UnknownTemplate,
    DirectoryCreateFailed { path: String },
    RemoteFetchFailed { url: String, cause: FetchFailure },
    FileWriteFailed { path: String },
    VcsInitFailed,
}

/// Mathematical image of a `ScaffoldError`.
pub enum ErrorV {
    UnknownTemplate,
    DirectoryCreateFailed { path: Seq<char> },
    RemoteFetchFailed { url: Seq<char>, cause: FetchFailure },
    FileWriteFailed { path: Seq<char> },
    VcsInitFailed,
}

impl View for ScaffoldError {
    type V = ErrorV;

    open spec fn view(&self) -> ErrorV {
        match self {
            ScaffoldError::UnknownTemplate => ErrorV::UnknownTemplate,
            ScaffoldError::DirectoryCreateFailed { path } => ErrorV::DirectoryCreateFailed {
                path: path@,
            },
            ScaffoldError::RemoteFetchFailed { url, cause } => ErrorV::RemoteFetchFailed {
                url: url@,
                cause: *cause,
            },
            ScaffoldError::FileWriteFailed { path } => ErrorV::FileWriteFailed { path: path@ },
            ScaffoldError::VcsInitFailed => ErrorV::VcsInitFailed,
        }
    }
}

impl ScaffoldError {
    /// An equal error, rebuilt field by field.
    pub fn duplicate(&self) -> (r: ScaffoldError)
        ensures
            r@ == self@,
    {
        match self {
            ScaffoldError::UnknownTemplate => ScaffoldError::UnknownTemplate,
            ScaffoldError::DirectoryCreateFailed { path } => (
            ScaffoldError::DirectoryCreateFailed { path: path.clone() }),
            ScaffoldError::RemoteFetchFailed { url, cause } => ScaffoldError::RemoteFetchFailed {
                url: url.clone(),
                cause: *cause,
            },
            ScaffoldError::FileWriteFailed { path } => (ScaffoldError::FileWriteFailed {
                path: path.clone(),
            }),
            ScaffoldError::VcsInitFailed => ScaffoldError::VcsInitFailed,
        }
    }
}

/// The image of a run's outcome.
pub open spec fn outcome_view(r: Result<(), ScaffoldError>) -> Result<(), ErrorV> {
    match r {
        Ok(u) => Ok(()),
        Err(e) => Err(e@),
    }
}

/// What the engine asks its caller to do next.
pub enum Action {
    PromptLine { prompt_text: String },
    CreateProjectRoot { path: String },
    CreateDir { path: String },
    WriteTextFile { path: String, content: String },
    WriteBinaryFile { path: String, content: Vec<u8> },
    FetchText { url: String },
    FetchBytes { url: String },
    PromptYesNo { prompt_text: String, default_yes: bool },
    InitRepository { path: String },
    Finished { result: Result<(), ScaffoldError> },
}

/// Mathematical image of an `Action`.
pub enum ActionV {
    PromptLine { prompt_text: Seq<char> },
    CreateProjectRoot { path: Seq<char> },
    CreateDir { path: Seq<char> },
    WriteTextFile { path: Seq<char>, content: Seq<char> },
    WriteBinaryFile { path: Seq<char>, content: Seq<u8> },
    FetchText { url: Seq<char> },
    FetchBytes { url: Seq<char> },
    PromptYesNo { prompt_text: Seq<char>, default_yes: bool },
    InitRepository { path: Seq<char> },
    Finished { result: Result<(), ErrorV> },
}

impl View for Action {
    type V = ActionV;

    open spec fn view(&self) -> ActionV {
        match self {
            Action::PromptLine { prompt_text } => ActionV::PromptLine {
                prompt_text: prompt_text@,
            },
            Action::CreateProjectRoot { path } => ActionV::CreateProjectRoot { path: path@ },
            Action::CreateDir { path } => ActionV::CreateDir { path: path@ },
            Action::WriteTextFile { path, content } => ActionV::WriteTextFile {
                path: path@,
                content: content@,
            },
            Action::WriteBinaryFile { path, content } => ActionV::WriteBinaryFile {
                path: path@,
                content: content@,
            },
            Action::FetchText { url } => ActionV::FetchText { url: url@ },
            Action::FetchBytes { url } => ActionV::FetchBytes { url: url@ },
            Action::PromptYesNo { prompt_text, default_yes } => ActionV::PromptYesNo {
                prompt_text: prompt_text@,
                default_yes: *default_yes,
            },
            Action::InitRepository { path } => ActionV::InitRepository { path: path@ },
            Action::Finished { result } => ActionV::Finished { result: outcome_view(*result) },
        }
    }
}

/// The outcome of an action, reported back to the engine.
pub enum Event {
    Line { input: String },
    DirCreated,
    DirCreateFailed,
    TextFetched { body: String },
    BytesFetched { body: Vec<u8> },
    FetchFailed { cause: FetchFailure },
    FileWritten,
    FileWriteFailed,
    RepoInitialized,
    RepoInitFailed,
}

/// Mathematical image of an `Event`.
pub enum EventV {
    Line { input: Seq<char> },
    DirCreated,
    DirCreateFailed,
    TextFetched { body: Seq<char> },
    BytesFetched { body: Seq<u8> },
    FetchFailed { cause: FetchFailure },
    FileWritten,
    FileWriteFailed,
    RepoInitialized,
    RepoInitFailed,
}

impl View for Event {
    type V = EventV;

    open spec fn view(&self) -> EventV {
        match self {
            Event::Line { input } => EventV::Line { input: input@ },
            Event::DirCreated => EventV::DirCreated,
            Event::DirCreateFailed => EventV::DirCreateFailed,
            Event::TextFetched { body } => EventV::TextFetched { body: body@ },
            Event::BytesFetched { body } => EventV::BytesFetched { body: body@ },
            Event::FetchFailed { cause } => EventV::FetchFailed { cause: *cause },
            Event::FileWritten => EventV::FileWritten,
            Event::FileWriteFailed => EventV::FileWriteFailed,
            Event::RepoInitialized => EventV::RepoInitialized,
            Event::RepoInitFailed => EventV::RepoInitFailed,
        }
    }
}

/// Where the engine stands inside one step of the pipeline.
pub enum SubPhase {
    First,
    WriteFetchedText { body: String },
    WriteFetchedBytes { body: Vec<u8> },
    ReadmeFetch,
    ReadmeWrite { body: String },
    GitignoreFetch,
    GitignoreWrite { body: String },
    RepoInit,
}

/// Mathematical image of a `SubPhase`.
pub enum SubV {
    First,
    WriteFetchedText { body: Seq<char> },
    WriteFetchedBytes { body: Seq<u8> },
    ReadmeFetch,
    ReadmeWrite { body: Seq<char> },
    GitignoreFetch,
    GitignoreWrite { body: Seq<char> },
    RepoInit,
}

impl View for SubPhase {
    type V = SubV;

    open spec fn view(&self) -> SubV {
        match self {
            SubPhase::First => SubV::First,
            SubPhase::WriteFetchedText { body } => SubV::WriteFetchedText { body: body@ },
            SubPhase::WriteFetchedBytes { body } => SubV::WriteFetchedBytes { body: body@ },
            SubPhase::ReadmeFetch => SubV::ReadmeFetch,
            SubPhase::ReadmeWrite { body } => SubV::ReadmeWrite { body: body@ },
            SubPhase::GitignoreFetch => SubV::GitignoreFetch,
            SubPhase::GitignoreWrite { body } => SubV::GitignoreWrite { body: body@ },
            SubPhase::RepoInit => SubV::RepoInit,
        }
    }
}

/// Where the engine stands in a run.
pub enum Phase {
    AskName,
    MakeRoot { root: String },
    Run { root: String, index: usize, sub: SubPhase },
    Complete { result: Result<(), ScaffoldError> },
}

/// Mathematical image of a `Phase`.
pub enum PhaseV {
    AskName,
    MakeRoot { root: Seq<char> },
    Run { root: Seq<char>, index: int, sub: SubV },
    Complete { result: Result<(), ErrorV> },
}

impl View for Phase {
    type V = PhaseV;

    open spec fn view(&self) -> PhaseV {
        match self {
            Phase::AskName => PhaseV::AskName,
            Phase::MakeRoot { root } => PhaseV::MakeRoot { root: root@ },
            Phase::Run { root, index, sub } => PhaseV::Run {
                root: root@,
                index: *index as int,
                sub: sub@,
            },
            Phase::Complete { result } => PhaseV::Complete { result: outcome_view(*result) },
        }
    }
}

/// The scaffold executor.
pub struct Engine {
    pub dest: String,
    pub steps: Vec<ScaffoldStep>,
    pub phase: Phase,
}

/// Mathematical image of an `Engine`.
#[verifier::ext_equal]
pub struct EngineV {
    pub dest: Seq<char>,
    pub steps: Seq<StepV>,
    pub phase: PhaseV,
}

impl View for Engine {
    type V = EngineV;

    open spec fn view(&self) -> EngineV {
        EngineV { dest: self.dest@, steps: steps_view(self.steps@), phase: self.phase@ }
    }
}

/// The question that names the project root.
pub open spec fn name_prompt() -> Seq<char> {
    "Enter the name of the new folder"@
}

/// Whether a mid-step position makes sense for the step at hand.
pub open spec fn sub_fits(step: StepV, sub: SubV) -> bool {
    match sub {
        SubV::First => true,
        SubV::WriteFetchedText { .. } => step is WriteRemoteFile,
        SubV::WriteFetchedBytes { .. } => step is FetchBinaryAsset,
        SubV::ReadmeFetch => step matches StepV::ConditionalReadme {
            source: SourceV::Remote { .. },
            ..
        },
        SubV::ReadmeWrite { .. } => step is ConditionalReadme,
        SubV::GitignoreFetch => step is ConditionalGitInit,
        SubV::GitignoreWrite { .. } => step is ConditionalGitInit,
        SubV::RepoInit => step is ConditionalGitInit,
    }
}

/// Validity of an engine state: a running engine points at a real step,
/// in a mid-step position that fits that step.
pub open spec fn engine_wf(e: EngineV) -> bool {
    match e.phase {
        PhaseV::Run { root, index, sub } => 0 <= index < e.steps.len() && sub_fits(
            e.steps[index],
            sub,
        ),
        _ => true,
    }
}

/// The URL a conditional README step fetches from.
pub open spec fn readme_url_of(step: StepV) -> Seq<char> {
    match step {
        StepV::ConditionalReadme { source: SourceV::Remote { source_url }, .. } => source_url,
        _ => Seq::empty(),
    }
}

/// The URL a conditional git-init step fetches its ignore file from.
pub open spec fn gitignore_url_of(step: StepV) -> Seq<char> {
    match step {
        StepV::ConditionalGitInit { gitignore_url, .. } => gitignore_url,
        _ => Seq::empty(),
    }
}

/// The action the engine asks for in a given state.
pub open spec fn engine_action(e: EngineV) -> ActionV {
    match e.phase {
        PhaseV::AskName => ActionV::PromptLine { prompt_text: name_prompt() },
        PhaseV::MakeRoot { root } => ActionV::CreateProjectRoot { path: root },
        PhaseV::Complete { result } => ActionV::Finished { result },
        PhaseV::Run { root, index, sub } => {
            let step = e.steps[index];
            match sub {
                SubV::First => match step {
                    StepV::CreateDirectory { relative_name } => ActionV::CreateDir {
                        path: join_path(root, relative_name),
                    },
                    StepV::WriteLiteralFile { relative_name, content } => ActionV::WriteTextFile {
                        path: join_path(root, relative_name),
                        content: content,
                    },
                    StepV::WriteRemoteFile { relative_name, source_url } => ActionV::FetchText {
                        url: source_url,
                    },
                    StepV::FetchBinaryAsset { relative_name, source_url } => ActionV::FetchBytes {
                        url: source_url,
                    },
                    StepV::ConditionalGitInit { prompt_text, default_yes, .. } => (
                    ActionV::PromptYesNo { prompt_text, default_yes }),
                    StepV::ConditionalReadme { prompt_text, default_yes, .. } => (
                    ActionV::PromptYesNo { prompt_text, default_yes }),
                },
                SubV::WriteFetchedText { body } => ActionV::WriteTextFile {
                    path: join_path(root, step_target(step)),
                    content: body,
                },
                SubV::WriteFetchedBytes { body } => ActionV::WriteBinaryFile {
                    path: join_path(root, step_target(step)),
                    content: body,
                },
                SubV::ReadmeFetch => ActionV::FetchText { url: readme_url_of(step) },
                SubV::ReadmeWrite { body } => ActionV::WriteTextFile {
                    path: join_path(root, step_target(step)),
                    content: body,
                },
                SubV::GitignoreFetch => ActionV::FetchText { url: gitignore_url_of(step) },
                SubV::GitignoreWrite { body } => ActionV::WriteTextFile {
                    path: join_path(root, step_target(step)),
                    content: body,
                },
                SubV::RepoInit => ActionV::InitRepository { path: root },
            }
        },
    }
}

/// The state after the current step is done: the next step, or a
/// successful end of the run.
pub open spec fn advance(e: EngineV, root: Seq<char>, index: int) -> EngineV {
    if index + 1 < e.steps.len() {
        EngineV { phase: PhaseV::Run { root, index: index + 1, sub: SubV::First }, ..e }
    } else {
        EngineV { phase: PhaseV::Complete { result: Ok(()) }, ..e }
    }
}

/// The state after a fatal error.
pub open spec fn halt(e: EngineV, err: ErrorV) -> EngineV {
    EngineV { phase: PhaseV::Complete { result: Err(err) }, ..e }
}

/// The engine's whole transition relation: the state after `ev` arrives
/// in state `e`.  An event that does not answer the pending action
/// leaves the state unchanged.
pub open spec fn engine_step(e: EngineV, ev: EventV) -> EngineV {
    match e.phase {
        PhaseV::AskName => match ev {
            EventV::Line { input } => EngineV {
                phase: PhaseV::MakeRoot { root: join_path(e.dest, trimmed(input)) },
                ..e
            },
            _ => e,
        },
        PhaseV::MakeRoot { root } => match ev {
            EventV::DirCreated => {
                if e.steps.len() > 0 {
                    EngineV { phase: PhaseV::Run { root, index: 0, sub: SubV::First }, ..e }
                } else {
                    EngineV { phase: PhaseV::Complete { result: Ok(()) }, ..e }
                }
            },
            EventV::DirCreateFailed => halt(e, ErrorV::DirectoryCreateFailed { path: root }),
            _ => e,
        },
        PhaseV::Complete { .. } => e,
        PhaseV::Run { root, index, sub } => {
            let step = e.steps[index];
            match sub {
                SubV::First => match step {
                    StepV::CreateDirectory { relative_name } => match ev {
                        EventV::DirCreated => advance(e, root, index),
                        EventV::DirCreateFailed => halt(
                            e,
                            ErrorV::DirectoryCreateFailed {
                                path: join_path(root, relative_name),
                            },
                        ),
                        _ => e,
                    },
                    StepV::WriteLiteralFile { relative_name, .. } => match ev {
                        EventV::FileWritten => advance(e, root, index),
                        EventV::FileWriteFailed => halt(
                            e,
                            ErrorV::FileWriteFailed { path: join_path(root, relative_name) },
                        ),
                        _ => e,
                    },
                    StepV::WriteRemoteFile { source_url, .. } => match ev {
                        EventV::TextFetched { body } => EngineV {
                            phase: PhaseV::Run {
                                root,
                                index,
                                sub: SubV::WriteFetchedText { body },
                            },
                            ..e
                        },
                        EventV::FetchFailed { cause } => halt(
                            e,
                            ErrorV::RemoteFetchFailed { url: source_url, cause },
                        ),
                        _ => e,
                    },
                    StepV::FetchBinaryAsset { source_url, .. } => match ev {
                        EventV::BytesFetched { body } => EngineV {
                            phase: PhaseV::Run {
                                root,
                                index,
                                sub: SubV::WriteFetchedBytes { body },
                            },
                            ..e
                        },
                        EventV::FetchFailed { cause } => halt(
                            e,
                            ErrorV::RemoteFetchFailed { url: source_url, cause },
                        ),
                        _ => e,
                    },
                    StepV::ConditionalReadme { default_yes, source, .. } => match ev {
                        EventV::Line { input } => {
                            if answer_means_yes(input, default_yes) {
                                match source {
                                    SourceV::Literal { content } => EngineV {
                                        phase: PhaseV::Run {
                                            root,
                                            index,
                                            sub: SubV::ReadmeWrite { body: content },
                                        },
                                        ..e
                                    },
                                    SourceV::Remote { .. } => EngineV {
                                        phase: PhaseV::Run {
                                            root,
                                            index,
                                            sub: SubV::ReadmeFetch,
                                        },
                                        ..e
                                    },
                                }
                            } else {
                                advance(e, root, index)
                            }
                        },
                        _ => e,
                    },
                    StepV::ConditionalGitInit { default_yes, .. } => match ev {
                        EventV::Line { input } => {
                            if answer_means_yes(input, default_yes) {
                                EngineV {
                                    phase: PhaseV::Run {
                                        root,
                                        index,
                                        sub: SubV::GitignoreFetch,
                                    },
                                    ..e
                                }
                            } else {
                                advance(e, root, index)
                            }
                        },
                        _ => e,
                    },
                },
                SubV::WriteFetchedText { .. } => match ev {
                    EventV::FileWritten => advance(e, root, index),
                    EventV::FileWriteFailed => halt(
                        e,
                        ErrorV::FileWriteFailed { path: join_path(root, step_target(step)) },
                    ),
                    _ => e,
                },
                SubV::WriteFetchedBytes { .. } => match ev {
                    EventV::FileWritten => advance(e, root, index),
                    EventV::FileWriteFailed => halt(
                        e,
                        ErrorV::FileWriteFailed { path: join_path(root, step_target(step)) },
                    ),
                    _ => e,
                },
                SubV::ReadmeFetch => match ev {
                    EventV::TextFetched { body } => EngineV {
                        phase: PhaseV::Run { root, index, sub: SubV::ReadmeWrite { body } },
                        ..e
                    },
                    EventV::FetchFailed { cause } => halt(
                        e,
                        ErrorV::RemoteFetchFailed { url: readme_url_of(step), cause },
                    ),
                    _ => e,
                },
                SubV::ReadmeWrite { .. } => match ev {
                    EventV::FileWritten => advance(e, root, index),
                    EventV::FileWriteFailed => halt(
                        e,
                        ErrorV::FileWriteFailed { path: join_path(root, step_target(step)) },
                    ),
                    _ => e,
                },
                SubV::GitignoreFetch => match ev {
                    EventV::TextFetched { body } => EngineV {
                        phase: PhaseV::Run { root, index, sub: SubV::GitignoreWrite { body } },
                        ..e
                    },
                    EventV::FetchFailed { cause } => halt(
                        e,
                        ErrorV::RemoteFetchFailed { url: gitignore_url_of(step), cause },
                    ),
                    _ => e,
                },
                SubV::GitignoreWrite { .. } => match ev {
                    EventV::FileWritten => EngineV {
                        phase: PhaseV::Run { root, index, sub: SubV::RepoInit },
                        ..e
                    },
                    EventV::FileWriteFailed => halt(
                        e,
                        ErrorV::FileWriteFailed { path: join_path(root, step_target(step)) },
                    ),
                    _ => e,
                },
                SubV::RepoInit => match ev {
                    EventV::RepoInitialized => advance(e, root, index),
                    EventV::RepoInitFailed => halt(e, ErrorV::VcsInitFailed),
                    _ => e,
                },
            }
        },
    }
}

/// A transition from a valid state reaches a valid state.
pub proof fn lemma_step_preserves_wf(e: EngineV, ev: EventV)
    requires
        engine_wf(e),
    ensures
        engine_wf(engine_step(e, ev)),
{
}

impl Engine {
    /// Start a run: resolve the template and stand ready to ask for the
    /// project root's name.  An unregistered identifier is refused
    /// before anything else happens.
    pub fn new(identifier: &str, destination: &str) -> (r: Result<Engine, ScaffoldError>)
        ensures
            match r {
                Ok(eng) => {
                    &&& find_template(identifier@) is Some
                    &&& eng@.steps == find_template(identifier@)->Some_0.steps
                    &&& wf_template(find_template(identifier@)->Some_0)
                    &&& eng@.dest == destination@
                    &&& eng@.phase == PhaseV::AskName
                    &&& engine_wf(eng@)
                },
                Err(e) => e@ == ErrorV::UnknownTemplate && find_template(identifier@) is None,
            },
    {
        match lookup(identifier) {
            Some(t) => Ok(
                Engine { dest: destination.to_owned(), steps: t.steps, phase: Phase::AskName },
            ),
            None => Err(ScaffoldError::UnknownTemplate),
        }
    }

    /// The action the caller must perform now.
    pub fn next_action(&self) -> (a: Action)
        requires
            engine_wf(self@),
        ensures
            a@ == engine_action(self@),
    {
        match &self.phase {
            Phase::AskName => Action::PromptLine {
                prompt_text: String::from_str("Enter the name of the new folder"),
            },
            Phase::MakeRoot { root } => Action::CreateProjectRoot { path: root.clone() },
            Phase::Complete { result } => {
                let dup: Result<(), ScaffoldError> = match result {
                    Ok(_) => Ok(()),
                    Err(e) => Err(e.duplicate()),
                };
                Action::Finished { result: dup }
            },
            Phase::Run { root, index, sub } => {
                let step = &self.steps[*index];
                match sub {
                    SubPhase::First => match step {
                        ScaffoldStep::CreateDirectory { relative_name } => Action::CreateDir {
                            path: join(root.as_str(), relative_name.as_str()),
                        },
                        ScaffoldStep::WriteLiteralFile { relative_name, content } => (
                        Action::WriteTextFile {
                            path: join(root.as_str(), relative_name.as_str()),
                            content: content.clone(),
                        }),
                        ScaffoldStep::WriteRemoteFile { source_url, .. } => Action::FetchText {
                            url: source_url.clone(),
                        },
                        ScaffoldStep::FetchBinaryAsset { source_url, .. } => Action::FetchBytes {
                            url: source_url.clone(),
                        },
                        ScaffoldStep::ConditionalGitInit {
                            prompt_text,
                            default_yes,
                            ..
                        } => Action::PromptYesNo {
                            prompt_text: prompt_text.clone(),
                            default_yes: *default_yes,
                        },
                        ScaffoldStep::ConditionalReadme {
                            prompt_text,
                            default_yes,
                            ..
                        } => Action::PromptYesNo {
                            prompt_text: prompt_text.clone(),
                            default_yes: *default_yes,
                        },
                    },
                    SubPhase::WriteFetchedText { body } => Action::WriteTextFile {
                        path: join(root.as_str(), step.target().as_str()),
                        content: body.clone(),
                    },
                    SubPhase::WriteFetchedBytes { body } => Action::WriteBinaryFile {
                        path: join(root.as_str(), step.target().as_str()),
                        content: body.clone(),
                    },
                    SubPhase::ReadmeFetch => {
                        let url: String = match step {
                            ScaffoldStep::ConditionalReadme {
                                source: crate::step::ReadmeSource::Remote { source_url },
                                ..
                            } => source_url.clone(),
                            _ => String::new(),
                        };
                        Action::FetchText { url }
                    },
                    SubPhase::ReadmeWrite { body } => Action::WriteTextFile {
                        path: join(root.as_str(), step.target().as_str()),
                        content: body.clone(),
                    },
                    SubPhase::GitignoreFetch => {
                        let url: String = match step {
                            ScaffoldStep::ConditionalGitInit { gitignore_url, .. } => (
                            gitignore_url.clone()),
                            _ => String::new(),
                        };
                        Action::FetchText { url }
                    },
                    SubPhase::GitignoreWrite { body } => Action::WriteTextFile {
                        path: join(root.as_str(), step.target().as_str()),
                        content: body.clone(),
                    },
                    SubPhase::RepoInit => Action::InitRepository { path: root.clone() },
                }
            },
        }
    }

    /// Consume the outcome of the pending action and move forward.
    pub fn handle_event(&mut self, ev: Event)
        requires
            engine_wf(old(self)@),
        ensures
            final(self)@ == engine_step(old(self)@, ev@),
            engine_wf(final(self)@),
    {
        proof {
            lemma_step_preserves_wf(self@, ev@);
        }
        let new_phase: Phase = match &self.phase {
            Phase::AskName => match ev {
                Event::Line { input } => {
                    let name = trim_line(input.as_str());
                    Phase::MakeRoot { root: join(self.dest.as_str(), name.as_str()) }
                },
                _ => return,
            },
            Phase::MakeRoot { root } => match ev {
                Event::DirCreated => {
                    if self.steps.len() > 0 {
                        Phase::Run { root: root.clone(), index: 0, sub: SubPhase::First }
                    } else {
                        Phase::Complete { result: Ok(()) }
                    }
                },
                Event::DirCreateFailed => Phase::Complete {
                    result: Err(ScaffoldError::DirectoryCreateFailed { path: root.clone() }),
                },
                _ => return,
            },
            Phase::Complete { .. } => return,
            Phase::Run { root, index, sub } => {
                let i = *index;
                let step = &self.steps[i];
                match sub {
                    SubPhase::First => match step {
                        ScaffoldStep::CreateDirectory { relative_name } => match ev {
                            Event::DirCreated => self.advanced(root, i),
                            Event::DirCreateFailed => Phase::Complete {
                                result: Err(
                                    ScaffoldError::DirectoryCreateFailed {
                                        path: join(root.as_str(), relative_name.as_str()),
                                    },
                                ),
                            },
                            _ => return,
                        },
                        ScaffoldStep::WriteLiteralFile { relative_name, .. } => match ev {
                            Event::FileWritten => self.advanced(root, i),
                            Event::FileWriteFailed => Phase::Complete {
                                result: Err(
                                    ScaffoldError::FileWriteFailed {
                                        path: join(root.as_str(), relative_name.as_str()),
                                    },
                                ),
                            },
                            _ => return,
                        },
                        ScaffoldStep::WriteRemoteFile { source_url, .. } => match ev {
                            Event::TextFetched { body } => Phase::Run {
                                root: root.clone(),
                                index: i,
                                sub: SubPhase::WriteFetchedText { body },
                            },
                            Event::FetchFailed { cause } => Phase::Complete {
                                result: Err(
                                    ScaffoldError::RemoteFetchFailed {
                                        url: source_url.clone(),
                                        cause,
                                    },
                                ),
                            },
                            _ => return,
                        },
                        ScaffoldStep::FetchBinaryAsset { source_url, .. } => match ev {
                            Event::BytesFetched { body } => Phase::Run {
                                root: root.clone(),
                                index: i,
                                sub: SubPhase::WriteFetchedBytes { body },
                            },
                            Event::FetchFailed { cause } => Phase::Complete {
                                result: Err(
                                    ScaffoldError::RemoteFetchFailed {
                                        url: source_url.clone(),
                                        cause,
                                    },
                                ),
                            },
                            _ => return,
                        },
                        ScaffoldStep::ConditionalReadme { default_yes, source, .. } => match ev {
                            Event::Line { input } => {
                                if answer_accepts(input.as_str(), *default_yes) {
                                    match source {
                                        crate::step::ReadmeSource::Literal { content } => (
                                        Phase::Run {
                                            root: root.clone(),
                                            index: i,
                                            sub: SubPhase::ReadmeWrite { body: content.clone() },
                                        }),
                                        crate::step::ReadmeSource::Remote { .. } => Phase::Run {
                                            root: root.clone(),
                                            index: i,
                                            sub: SubPhase::ReadmeFetch,
                                        },
                                    }
                                } else {
                                    self.advanced(root, i)
                                }
                            },
                            _ => return,
                        },
                        ScaffoldStep::ConditionalGitInit { default_yes, .. } => match ev {
                            Event::Line { input } => {
                                if answer_accepts(input.as_str(), *default_yes) {
                                    Phase::Run {
                                        root: root.clone(),
                                        index: i,
                                        sub: SubPhase::GitignoreFetch,
                                    }
                                } else {
                                    self.advanced(root, i)
                                }
                            },
                            _ => return,
                        },
                    },
                    SubPhase::WriteFetchedText { .. } => match ev {
                        Event::FileWritten => self.advanced(root, i),
                        Event::FileWriteFailed => Phase::Complete {
                            result: Err(
                                ScaffoldError::FileWriteFailed {
                                    path: join(root.as_str(), step.target().as_str()),
                                },
                            ),
                        },
                        _ => return,
                    },
                    SubPhase::WriteFetchedBytes { .. } => match ev {
                        Event::FileWritten => self.advanced(root, i),
                        Event::FileWriteFailed => Phase::Complete {
                            result: Err(
                                ScaffoldError::FileWriteFailed {
                                    path: join(root.as_str(), step.target().as_str()),
                                },
                            ),
                        },
                        _ => return,
                    },
                    SubPhase::ReadmeFetch => match ev {
                        Event::TextFetched { body } => Phase::Run {
                            root: root.clone(),
                            index: i,
                            sub: SubPhase::ReadmeWrite { body },
                        },
                        Event::FetchFailed { cause } => {
                            let url: String = match step {
                                ScaffoldStep::ConditionalReadme {
                                    source: crate::step::ReadmeSource::Remote { source_url },
                                    ..
                                } => source_url.clone(),
                                _ => String::new(),
                            };
                            Phase::Complete {
                                result: Err(ScaffoldError::RemoteFetchFailed { url, cause }),
                            }
                        },
                        _ => return,
                    },
                    SubPhase::ReadmeWrite { .. } => match ev {
                        Event::FileWritten => self.advanced(root, i),
                        Event::FileWriteFailed => Phase::Complete {
                            result: Err(
                                ScaffoldError::FileWriteFailed {
                                    path: join(root.as_str(), step.target().as_str()),
                                },
                            ),
                        },
                        _ => return,
                    },
                    SubPhase::GitignoreFetch => match ev {
                        Event::TextFetched { body } => Phase::Run {
                            root: root.clone(),
                            index: i,
                            sub: SubPhase::GitignoreWrite { body },
                        },
                        Event::FetchFailed { cause } => {
                            let url: String = match step {
                                ScaffoldStep::ConditionalGitInit { gitignore_url, .. } => (
                                gitignore_url.clone()),
                                _ => String::new(),
                            };
                            Phase::Complete {
                                result: Err(ScaffoldError::RemoteFetchFailed { url, cause }),
                            }
                        },
                        _ => return,
                    },
                    SubPhase::GitignoreWrite { .. } => match ev {
                        Event::FileWritten => Phase::Run {
                            root: root.clone(),
                            index: i,
                            sub: SubPhase::RepoInit,
                        },
                        Event::FileWriteFailed => Phase::Complete {
                            result: Err(
                                ScaffoldError::FileWriteFailed {
                                    path: join(root.as_str(), step.target().as_str()),
                                },
                            ),
                        },
                        _ => return,
                    },
                    SubPhase::RepoInit => match ev {
                        Event::RepoInitialized => self.advanced(root, i),
                        Event::RepoInitFailed => Phase::Complete {
                            result: Err(ScaffoldError::VcsInitFailed),
                        },
                        _ => return,
                    },
                }
            },
        };
        self.phase = new_phase;
    }

    /// The phase after the step at `index` is done.
    fn advanced(&self, root: &String, index: usize) -> (p: Phase)
        requires
            index < self@.steps.len(),
        ensures
            p@ == advance(self@, root@, index as int).phase,
    {
        if index < self.steps.len() - 1 {
            Phase::Run { root: root.clone(), index: index + 1, sub: SubPhase::First }
        } else {
            Phase::Complete { result: Ok(()) }
        }
    }
}

} // verus!
