//! Scripted runs: the whole engine executed against given replies.
//!
//! A script fixes everything the outside world would contribute to a
//! run: the project root's name, the reply to each URL, and the
//! operator's answer lines.  `run_scripted` drives the engine with those
//! replies against the in-memory filesystem model and returns the model
//! and the run's outcome.  The spec function `sem` is the mathematical
//! meaning of such a run, and `run_scripted` is proved to return exactly
//! it.

use vstd::prelude::*;

use crate::engine::Action;
use crate::engine::ActionV;
use crate::engine::Engine;
use crate::engine::ErrorV;
use crate::engine::Event;
use crate::engine::EventV;
use crate::engine::FetchFailure;
use crate::engine::PhaseV;
use crate::engine::ScaffoldError;
use crate::engine::EngineV;
use crate::engine::engine_action;
use crate::engine::engine_step;
use crate::engine::engine_wf;
use crate::engine::outcome_view;
use crate::fsmodel::ContentV;
use crate::fsmodel::FsModel;
use crate::fsmodel::FsV;
use crate::fsmodel::init_fs;
use crate::paths::parent_of;
use crate::registry::find_template;
use crate::text::str_eq;

verus! {

/// What a scripted fetch of a text resource yields.
pub enum TextReply {
    Body { text: String },
    Status { code: u16 },
}

/// Mathematical image of a `TextReply`.
pub enum TextReplyV {
    Body { text: Seq<char> },
    Status { code: u16 },
}

impl View for TextReply {
    type V = TextReplyV;

    open spec fn view(&self) -> TextReplyV {
        match self {
            TextReply::Body { text } => TextReplyV::Body { text: text@ },
            TextReply::Status { code } => TextReplyV::Status { code: *code },
        }
    }
}

/// What a scripted fetch of a binary resource yields.
pub enum BinReply {
    Body { bytes: Vec<u8> },
    Status { code: u16 },
}

/// Mathematical image of a `BinReply`.
pub enum BinReplyV {
    Body { bytes: Seq<u8> },
    Status { code: u16 },
}

impl View for BinReply {
    type V = BinReplyV;

    open spec fn view(&self) -> BinReplyV {
        match self {
            BinReply::Body { bytes } => BinReplyV::Body { bytes: bytes@ },
            BinReply::Status { code } => BinReplyV::Status { code: *code },
        }
    }
}

/// One scripted reply: requests for `url` get `reply`.
pub struct TextRule {
    pub url: String,
    pub reply: TextReply,
}

/// One scripted binary reply.
pub struct BinRule {
    pub url: String,
    pub reply: BinReply,
}

/// Everything the outside world contributes to one run.
pub struct Script {
    pub name: String,
    pub texts: Vec<TextRule>,
    pub bins: Vec<BinRule>,
    pub answers: Vec<String>,
}

/// Mathematical image of a `Script`.
pub struct OracleV {
    pub name: Seq<char>,
    pub texts: Seq<(Seq<char>, TextReplyV)>,
    pub bins: Seq<(Seq<char>, BinReplyV)>,
    pub answers: Seq<Seq<char>>,
}

impl View for Script {
    type V = OracleV;

    open spec fn view(&self) -> OracleV {
        OracleV {
            name: self.name@,
            texts: self.texts@.map_values(|r: TextRule| (r.url@, r.reply@)),
            bins: self.bins@.map_values(|r: BinRule| (r.url@, r.reply@)),
            answers: self.answers@.map_values(|s: String| s@),
        }
    }
}

/// The first scripted text reply for `url`, if any.
pub open spec fn find_text(rules: Seq<(Seq<char>, TextReplyV)>, url: Seq<char>) -> Option<
    TextReplyV,
>
    decreases rules.len(),
{
    if rules.len() == 0 {
        None
    } else if rules[0].0 == url {
        Some(rules[0].1)
    } else {
        find_text(rules.drop_first(), url)
    }
}

/// The first scripted binary reply for `url`, if any.
pub open spec fn find_bin(rules: Seq<(Seq<char>, BinReplyV)>, url: Seq<char>) -> Option<BinReplyV>
    decreases rules.len(),
{
    if rules.len() == 0 {
        None
    } else if rules[0].0 == url {
        Some(rules[0].1)
    } else {
        find_bin(rules.drop_first(), url)
    }
}

/// The operator's answer line for the `i`-th yes/no question; past the
/// script's end, an empty line.
pub open spec fn answer_at(answers: Seq<Seq<char>>, i: int) -> Seq<char> {
    if 0 <= i < answers.len() {
        answers[i]
    } else {
        Seq::empty()
    }
}

/// The event a text fetch produces: the body on a scripted 200, the
/// status as a failure otherwise, and a transport failure for a URL the
/// script does not know.
pub open spec fn text_fetch_event(r: Option<TextReplyV>) -> EventV {
    match r {
        Some(TextReplyV::Body { text }) => EventV::TextFetched { body: text },
        Some(TextReplyV::Status { code }) => EventV::FetchFailed {
            cause: FetchFailure::Status { code },
        },
        None => EventV::FetchFailed { cause: FetchFailure::Transport },
    }
}

/// The event a binary fetch produces.
pub open spec fn bin_fetch_event(r: Option<BinReplyV>) -> EventV {
    match r {
        Some(BinReplyV::Body { bytes }) => EventV::BytesFetched { body: bytes },
        Some(BinReplyV::Status { code }) => EventV::FetchFailed {
            cause: FetchFailure::Status { code },
        },
        None => EventV::FetchFailed { cause: FetchFailure::Transport },
    }
}

/// The event the scripted world reports for an action: directory
/// creation succeeds when the directory is new and its parent exists,
/// file writes succeed when the parent exists, fetches follow the
/// script, prompts are answered from the script, and repository
/// initialization succeeds.
pub open spec fn event_for(a: ActionV, o: OracleV, aidx: int, fs: FsV) -> EventV {
    match a {
        ActionV::PromptLine { .. } => EventV::Line { input: o.name },
        ActionV::CreateProjectRoot { path } => {
            if !fs.dirs.contains(path) && fs.dirs.contains(parent_of(path)) {
                EventV::DirCreated
            } else {
                EventV::DirCreateFailed
            }
        },
        ActionV::CreateDir { path } => {
            if !fs.dirs.contains(path) && fs.dirs.contains(parent_of(path)) {
                EventV::DirCreated
            } else {
                EventV::DirCreateFailed
            }
        },
        ActionV::WriteTextFile { path, .. } => {
            if fs.dirs.contains(parent_of(path)) {
                EventV::FileWritten
            } else {
                EventV::FileWriteFailed
            }
        },
        ActionV::WriteBinaryFile { path, .. } => {
            if fs.dirs.contains(parent_of(path)) {
                EventV::FileWritten
            } else {
                EventV::FileWriteFailed
            }
        },
        ActionV::FetchText { url } => text_fetch_event(find_text(o.texts, url)),
        ActionV::FetchBytes { url } => bin_fetch_event(find_bin(o.bins, url)),
        ActionV::PromptYesNo { .. } => EventV::Line { input: answer_at(o.answers, aidx) },
        ActionV::InitRepository { .. } => EventV::RepoInitialized,
        ActionV::Finished { .. } => EventV::RepoInitialized,
    }
}

/// How many answer lines the action consumes: one for a yes/no
/// question, none otherwise, never moving past the script's end.
pub open spec fn next_aidx(a: ActionV, o: OracleV, aidx: int) -> int {
    if a is PromptYesNo && aidx < o.answers.len() {
        aidx + 1
    } else {
        aidx
    }
}

/// What an action's successful outcome does to the filesystem model.
pub open spec fn apply_effect(a: ActionV, ev: EventV, fs: FsV) -> FsV {
    match a {
        ActionV::CreateProjectRoot { path } => {
            if ev is DirCreated {
                FsV { dirs: fs.dirs.insert(path), ..fs }
            } else {
                fs
            }
        },
        ActionV::CreateDir { path } => {
            if ev is DirCreated {
                FsV { dirs: fs.dirs.insert(path), ..fs }
            } else {
                fs
            }
        },
        ActionV::WriteTextFile { path, content } => {
            if ev is FileWritten {
                FsV { files: fs.files.insert(path, ContentV::Text(content)), ..fs }
            } else {
                fs
            }
        },
        ActionV::WriteBinaryFile { path, content } => {
            if ev is FileWritten {
                FsV { files: fs.files.insert(path, ContentV::Binary(content)), ..fs }
            } else {
                fs
            }
        },
        ActionV::InitRepository { .. } => {
            if ev is RepoInitialized {
                FsV { repo: true, ..fs }
            } else {
                fs
            }
        },
        _ => fs,
    }
}

/// How far the engine still is from the end of a run.
pub open spec fn sub_rank(sub: crate::engine::SubV) -> int {
    match sub {
        crate::engine::SubV::First => 7,
        crate::engine::SubV::ReadmeFetch => 6,
        crate::engine::SubV::GitignoreFetch => 6,
        crate::engine::SubV::WriteFetchedText { .. } => 5,
        crate::engine::SubV::WriteFetchedBytes { .. } => 5,
        crate::engine::SubV::ReadmeWrite { .. } => 5,
        crate::engine::SubV::GitignoreWrite { .. } => 4,
        crate::engine::SubV::RepoInit => 3,
    }
}

/// A measure that every scripted transition strictly decreases.
pub open spec fn engine_measure(e: EngineV) -> int {
    match e.phase {
        PhaseV::Complete { .. } => 0,
        PhaseV::AskName => e.steps.len() as int * 8 + 10,
        PhaseV::MakeRoot { .. } => e.steps.len() as int * 8 + 9,
        PhaseV::Run { index, sub, .. } => (e.steps.len() as int - index) * 8 + sub_rank(sub),
    }
}

/// The meaning of a scripted run from state `e`: the final filesystem
/// model and the run's outcome, when every outside reply follows the
/// script.
pub open spec fn sem(e: EngineV, o: OracleV, aidx: int, fs: FsV) -> (FsV, Result<(), ErrorV>)
    decreases engine_measure(e),
        when engine_wf(e)
{
    match e.phase {
        PhaseV::Complete { result } => (fs, result),
        _ => {
            let a = engine_action(e);
            let ev = event_for(a, o, aidx, fs);
            sem(engine_step(e, ev), o, next_aidx(a, o, aidx), apply_effect(a, ev, fs))
        },
    }
}

/// The first scripted match decides a lookup that stops at index `i`.
proof fn lemma_find_text_at(rules: Seq<(Seq<char>, TextReplyV)>, url: Seq<char>, i: int)
    requires
        0 <= i < rules.len(),
        rules[i].0 == url,
        forall|k: int| 0 <= k < i ==> rules[k].0 != url,
    ensures
        find_text(rules, url) == Some(rules[i].1),
    decreases i,
{
    if i > 0 {
        lemma_find_text_at(rules.drop_first(), url, i - 1);
    }
}

/// A URL no rule mentions finds nothing.
proof fn lemma_find_text_absent(rules: Seq<(Seq<char>, TextReplyV)>, url: Seq<char>)
    requires
        forall|k: int| 0 <= k < rules.len() ==> rules[k].0 != url,
    ensures
        find_text(rules, url) is None,
    decreases rules.len(),
{
    if rules.len() > 0 {
        lemma_find_text_absent(rules.drop_first(), url);
    }
}

/// As `lemma_find_text_at`, for binary rules.
proof fn lemma_find_bin_at(rules: Seq<(Seq<char>, BinReplyV)>, url: Seq<char>, i: int)
    requires
        0 <= i < rules.len(),
        rules[i].0 == url,
        forall|k: int| 0 <= k < i ==> rules[k].0 != url,
    ensures
        find_bin(rules, url) == Some(rules[i].1),
    decreases i,
{
    if i > 0 {
        lemma_find_bin_at(rules.drop_first(), url, i - 1);
    }
}

/// As `lemma_find_text_absent`, for binary rules.
proof fn lemma_find_bin_absent(rules: Seq<(Seq<char>, BinReplyV)>, url: Seq<char>)
    requires
        forall|k: int| 0 <= k < rules.len() ==> rules[k].0 != url,
    ensures
        find_bin(rules, url) is None,
    decreases rules.len(),
{
    if rules.len() > 0 {
        lemma_find_bin_absent(rules.drop_first(), url);
    }
}

/// The event a scripted text fetch of `url` produces.
fn text_event(script: &Script, url: &str) -> (ev: Event)
    ensures
        ev@ == text_fetch_event(find_text(script@.texts, url@)),
{
    let n = script.texts.len();
    let mut i: usize = 0;
    while i < n
        invariant
            0 <= i <= n,
            n == script.texts@.len(),
            forall|k: int| 0 <= k < i ==> script@.texts[k].0 != url@,
        decreases n - i,
    {
        if str_eq(script.texts[i].url.as_str(), url) {
            proof {
                lemma_find_text_at(script@.texts, url@, i as int);
            }
            return match &script.texts[i].reply {
                TextReply::Body { text } => Event::TextFetched { body: text.clone() },
                TextReply::Status { code } => Event::FetchFailed {
                    cause: FetchFailure::Status { code: *code },
                },
            };
        }
        i = i + 1;
    }
    proof {
        lemma_find_text_absent(script@.texts, url@);
    }
    Event::FetchFailed { cause: FetchFailure::Transport }
}

/// The event a scripted binary fetch of `url` produces.
fn bin_event(script: &Script, url: &str) -> (ev: Event)
    ensures
        ev@ == bin_fetch_event(find_bin(script@.bins, url@)),
{
    let n = script.bins.len();
    let mut i: usize = 0;
    while i < n
        invariant
            0 <= i <= n,
            n == script.bins@.len(),
            forall|k: int| 0 <= k < i ==> script@.bins[k].0 != url@,
        decreases n - i,
    {
        if str_eq(script.bins[i].url.as_str(), url) {
            proof {
                lemma_find_bin_at(script@.bins, url@, i as int);
            }
            return match &script.bins[i].reply {
                BinReply::Body { bytes } => Event::BytesFetched { body: bytes.clone() },
                BinReply::Status { code } => Event::FetchFailed {
                    cause: FetchFailure::Status { code: *code },
                },
            };
        }
        i = i + 1;
    }
    proof {
        lemma_find_bin_absent(script@.bins, url@);
    }
    Event::FetchFailed { cause: FetchFailure::Transport }
}

/// Run a template against a script, mutating the filesystem model
/// instead of a disk.
///
/// An unknown identifier is refused with `UnknownTemplate` and the model
/// is returned untouched.  Otherwise the returned model and outcome are
/// exactly the run's meaning under the script, `sem`.
pub fn run_scripted(identifier: &str, destination: &str, script: &Script) -> (r: (
    FsModel,
    Result<(), ScaffoldError>,
))
    ensures
        find_template(identifier@) is None ==> outcome_view(r.1) == Err::<(), ErrorV>(
            ErrorV::UnknownTemplate,
        ) && r.0@ == init_fs(destination@),
        find_template(identifier@) matches Some(t) ==> {
            let end = sem(
                (EngineV { dest: destination@, steps: t.steps, phase: PhaseV::AskName }),
                script@,
                0,
                init_fs(destination@),
            );
            r.0@ == end.0 && outcome_view(r.1) == end.1
        },
{
    let mut fs = FsModel::new(destination);
    let mut eng: Engine = match Engine::new(identifier, destination) {
        Ok(en) => en,
        Err(e) => {
            return (fs, Err(e));
        },
    };
    proof {
        assert(eng@ =~= (EngineV {
            dest: destination@,
            steps: find_template(identifier@)->Some_0.steps,
            phase: PhaseV::AskName,
        }));
    }
    let ghost target = sem(eng@, script@, 0, init_fs(destination@));
    let mut aidx: usize = 0;
    loop
        invariant
            engine_wf(eng@),
            0 <= aidx <= script.answers@.len(),
            sem(eng@, script@, aidx as int, fs@) == target,
            find_template(identifier@) is Some,
            target == sem(
                (EngineV {
                    dest: destination@,
                    steps: find_template(identifier@)->Some_0.steps,
                    phase: PhaseV::AskName,
                }),
                script@,
                0,
                init_fs(destination@),
            ),
        decreases engine_measure(eng@),
    {
        let ghost pre_eng = eng@;
        let ghost pre_fs = fs@;
        let ghost pre_aidx = aidx as int;
        let a = eng.next_action();
        let ghost av = a@;
        match a {
            Action::Finished { result } => {
                proof {
                    assert(eng@.phase is Complete);
                    assert(sem(eng@, script@, aidx as int, fs@) == (
                        fs@,
                        eng@.phase->Complete_result,
                    ));
                    assert(outcome_view(result) == eng@.phase->Complete_result);
                }
                return (fs, result);
            },
            Action::PromptLine { .. } => {
                eng.handle_event(Event::Line { input: script.name.clone() });
            },
            Action::CreateProjectRoot { path } => {
                let ok = fs.create_dir(path.as_str());
                eng.handle_event(
                    if ok {
                        Event::DirCreated
                    } else {
                        Event::DirCreateFailed
                    },
                );
            },
            Action::CreateDir { path } => {
                let ok = fs.create_dir(path.as_str());
                eng.handle_event(
                    if ok {
                        Event::DirCreated
                    } else {
                        Event::DirCreateFailed
                    },
                );
            },
            Action::WriteTextFile { path, content } => {
                let ok = fs.write_text(path.as_str(), content);
                eng.handle_event(
                    if ok {
                        Event::FileWritten
                    } else {
                        Event::FileWriteFailed
                    },
                );
            },
            Action::WriteBinaryFile { path, content } => {
                let ok = fs.write_binary(path.as_str(), content);
                eng.handle_event(
                    if ok {
                        Event::FileWritten
                    } else {
                        Event::FileWriteFailed
                    },
                );
            },
            Action::FetchText { url } => {
                let ev = text_event(script, url.as_str());
                eng.handle_event(ev);
            },
            Action::FetchBytes { url } => {
                let ev = bin_event(script, url.as_str());
                eng.handle_event(ev);
            },
            Action::PromptYesNo { .. } => {
                let line: String = if aidx < script.answers.len() {
                    let l = script.answers[aidx].clone();
                    aidx = aidx + 1;
                    l
                } else {
                    String::new()
                };
                eng.handle_event(Event::Line { input: line });
            },
            Action::InitRepository { .. } => {
                fs.init_repo();
                eng.handle_event(Event::RepoInitialized);
            },
        }
        proof {
            assert(sem(pre_eng, script@, pre_aidx, pre_fs) == sem(
                eng@,
                script@,
                aidx as int,
                fs@,
            ));
        }
    }
}

} // verus!
