//! The library's laws: what whole runs guarantee.
//!
//! `pipeline_sem` gives a scripted run's meaning step by step, one
//! pipeline step at a time; the bridge theorem
//! `lemma_sem_runs_pipeline` proves that the engine's transition-level
//! meaning `sem` computes exactly it.  On top of the bridge stand the
//! run-level laws: what registered templates guarantee, that nothing
//! happens before the project root exists or under an unknown
//! identifier, that literal and fetched file contents arrive on disk
//! verbatim, and that a failed fetch aborts the run with nothing written
//! for that step or any later one.

use vstd::prelude::*;

use crate::engine::EngineV;
use crate::engine::ErrorV;
use crate::engine::EventV;
use crate::engine::FetchFailure;
use crate::engine::PhaseV;
use crate::engine::SubV;
use crate::engine::advance;
use crate::engine::engine_action;
use crate::engine::engine_step;
use crate::engine::engine_wf;
use crate::engine::halt;
use crate::engine::readme_url_of;
use crate::engine::gitignore_url_of;
use crate::fsmodel::ContentV;
use crate::fsmodel::FsV;
use crate::fsmodel::init_fs;
use crate::paths::join_path;
use crate::paths::lemma_join_path_injective;
use crate::paths::parent_of;
use crate::prompt::answer_means_yes;
use crate::prompt::trimmed;
use crate::registry::find_template;
use crate::registry::lemma_registry_wf;
use crate::script::OracleV;
use crate::script::TextReplyV;
use crate::script::BinReplyV;
use crate::script::answer_at;
use crate::script::apply_effect;
use crate::script::event_for;
use crate::script::find_bin;
use crate::script::find_text;
use crate::script::next_aidx;
use crate::script::sem;
use crate::step::SourceV;
use crate::step::StepV;
use crate::step::TemplateV;
use crate::step::distinct_targets;
use crate::step::step_target;
use crate::step::wf_template;

verus! {

/// Directory creation succeeds: the directory is new, its parent exists.
pub open spec fn dir_ok(fs: FsV, p: Seq<char>) -> bool {
    !fs.dirs.contains(p) && fs.dirs.contains(parent_of(p))
}

/// A file write succeeds: the parent directory exists.
pub open spec fn write_ok(fs: FsV, p: Seq<char>) -> bool {
    fs.dirs.contains(parent_of(p))
}

/// The filesystem with one more directory.
pub open spec fn add_dir(fs: FsV, p: Seq<char>) -> FsV {
    FsV { dirs: fs.dirs.insert(p), ..fs }
}

/// The filesystem with a text file written at `p`.
pub open spec fn put_text(fs: FsV, p: Seq<char>, c: Seq<char>) -> FsV {
    FsV { files: fs.files.insert(p, ContentV::Text(c)), ..fs }
}

/// The filesystem with a binary file written at `p`.
pub open spec fn put_bin(fs: FsV, p: Seq<char>, b: Seq<u8>) -> FsV {
    FsV { files: fs.files.insert(p, ContentV::Binary(b)), ..fs }
}

/// The filesystem with the repository initialized.
pub open spec fn set_repo(fs: FsV) -> FsV {
    FsV { repo: true, ..fs }
}

/// How many answer lines one prompt consumes, staying within bounds.
pub open spec fn bump(o: OracleV, aidx: int) -> int {
    if aidx < o.answers.len() {
        aidx + 1
    } else {
        aidx
    }
}

/// A scripted run's meaning, one pipeline step at a time, from step `i`
/// on, against a project root that already exists.
pub open spec fn pipeline_sem(
    steps: Seq<StepV>,
    i: int,
    root: Seq<char>,
    o: OracleV,
    aidx: int,
    fs: FsV,
) -> (FsV, Result<(), ErrorV>)
    decreases steps.len() - i,
        when 0 <= i
{
    if i >= steps.len() {
        (fs, Ok(()))
    } else {
        match steps[i] {
            StepV::CreateDirectory { relative_name } => {
                let p = join_path(root, relative_name);
                if dir_ok(fs, p) {
                    pipeline_sem(steps, i + 1, root, o, aidx, add_dir(fs, p))
                } else {
                    (fs, Err(ErrorV::DirectoryCreateFailed { path: p }))
                }
            },
            StepV::WriteLiteralFile { relative_name, content } => {
                let p = join_path(root, relative_name);
                if write_ok(fs, p) {
                    pipeline_sem(steps, i + 1, root, o, aidx, put_text(fs, p, content))
                } else {
                    (fs, Err(ErrorV::FileWriteFailed { path: p }))
                }
            },
            StepV::WriteRemoteFile { relative_name, source_url } => {
                let p = join_path(root, relative_name);
                match find_text(o.texts, source_url) {
                    Some(TextReplyV::Body { text }) => {
                        if write_ok(fs, p) {
                            pipeline_sem(steps, i + 1, root, o, aidx, put_text(fs, p, text))
                        } else {
                            (fs, Err(ErrorV::FileWriteFailed { path: p }))
                        }
                    },
                    Some(TextReplyV::Status { code }) => (
                        fs,
                        Err(
                            ErrorV::RemoteFetchFailed {
                                url: source_url,
                                cause: FetchFailure::Status { code },
                            },
                        ),
                    ),
                    None => (
                        fs,
                        Err(
                            ErrorV::RemoteFetchFailed {
                                url: source_url,
                                cause: FetchFailure::Transport,
                            },
                        ),
                    ),
                }
            },
            StepV::FetchBinaryAsset { relative_name, source_url } => {
                let p = join_path(root, relative_name);
                match find_bin(o.bins, source_url) {
                    Some(BinReplyV::Body { bytes }) => {
                        if write_ok(fs, p) {
                            pipeline_sem(steps, i + 1, root, o, aidx, put_bin(fs, p, bytes))
                        } else {
                            (fs, Err(ErrorV::FileWriteFailed { path: p }))
                        }
                    },
                    Some(BinReplyV::Status { code }) => (
                        fs,
                        Err(
                            ErrorV::RemoteFetchFailed {
                                url: source_url,
                                cause: FetchFailure::Status { code },
                            },
                        ),
                    ),
                    None => (
                        fs,
                        Err(
                            ErrorV::RemoteFetchFailed {
                                url: source_url,
                                cause: FetchFailure::Transport,
                            },
                        ),
                    ),
                }
            },
            StepV::ConditionalReadme { default_yes, readme_name, source, .. } => {
                let ans = answer_at(o.answers, aidx);
                let a2 = bump(o, aidx);
                let p = join_path(root, readme_name);
                if answer_means_yes(ans, default_yes) {
                    match source {
                        SourceV::Literal { content } => {
                            if write_ok(fs, p) {
                                pipeline_sem(steps, i + 1, root, o, a2, put_text(fs, p, content))
                            } else {
                                (fs, Err(ErrorV::FileWriteFailed { path: p }))
                            }
                        },
                        SourceV::Remote { source_url } => match find_text(o.texts, source_url) {
                            Some(TextReplyV::Body { text }) => {
                                if write_ok(fs, p) {
                                    pipeline_sem(steps, i + 1, root, o, a2, put_text(fs, p, text))
                                } else {
                                    (fs, Err(ErrorV::FileWriteFailed { path: p }))
                                }
                            },
                            Some(TextReplyV::Status { code }) => (
                                fs,
                                Err(
                                    ErrorV::RemoteFetchFailed {
                                        url: source_url,
                                        cause: FetchFailure::Status { code },
                                    },
                                ),
                            ),
                            None => (
                                fs,
                                Err(
                                    ErrorV::RemoteFetchFailed {
                                        url: source_url,
                                        cause: FetchFailure::Transport,
                                    },
                                ),
                            ),
                        },
                    }
                } else {
                    pipeline_sem(steps, i + 1, root, o, a2, fs)
                }
            },
            StepV::ConditionalGitInit { default_yes, gitignore_name, gitignore_url, .. } => {
                let ans = answer_at(o.answers, aidx);
                let a2 = bump(o, aidx);
                let p = join_path(root, gitignore_name);
                if answer_means_yes(ans, default_yes) {
                    match find_text(o.texts, gitignore_url) {
                        Some(TextReplyV::Body { text }) => {
                            if write_ok(fs, p) {
                                pipeline_sem(
                                    steps,
                                    i + 1,
                                    root,
                                    o,
                                    a2,
                                    set_repo(put_text(fs, p, text)),
                                )
                            } else {
                                (fs, Err(ErrorV::FileWriteFailed { path: p }))
                            }
                        },
                        Some(TextReplyV::Status { code }) => (
                            fs,
                            Err(
                                ErrorV::RemoteFetchFailed {
                                    url: gitignore_url,
                                    cause: FetchFailure::Status { code },
                                },
                            ),
                        ),
                        None => (
                            fs,
                            Err(
                                ErrorV::RemoteFetchFailed {
                                    url: gitignore_url,
                                    cause: FetchFailure::Transport,
                                },
                            ),
                        ),
                    }
                } else {
                    pipeline_sem(steps, i + 1, root, o, a2, fs)
                }
            },
        }
    }
}

/// After a step is done, the engine's meaning is the pipeline's meaning
/// from the next step on.
proof fn lemma_after_advance(e: EngineV, root: Seq<char>, index: int, o: OracleV, aidx: int, fs: FsV)
    requires
        0 <= index < e.steps.len(),
    ensures
        sem(advance(e, root, index), o, aidx, fs) == pipeline_sem(
            e.steps,
            index + 1,
            root,
            o,
            aidx,
            fs,
        ),
    decreases e.steps.len() - index, 0int,
{
    if index + 1 < e.steps.len() {
        lemma_sem_runs_pipeline(advance(e, root, index), root, index + 1, o, aidx, fs);
    } else {
        assert(sem(advance(e, root, index), o, aidx, fs) == (fs, Ok::<(), ErrorV>(())));
    }
}

/// The bridge theorem: from the start of any step, the engine's
/// transition-level meaning equals the step-by-step pipeline meaning.
proof fn lemma_sem_runs_pipeline(
    e: EngineV,
    root: Seq<char>,
    index: int,
    o: OracleV,
    aidx: int,
    fs: FsV,
)
    requires
        engine_wf(e),
        e.phase == (PhaseV::Run { root, index, sub: SubV::First }),
    ensures
        sem(e, o, aidx, fs) == pipeline_sem(e.steps, index, root, o, aidx, fs),
    decreases e.steps.len() - index, 1int,
{
    let step = e.steps[index];
    let a = engine_action(e);
    let ev = event_for(a, o, aidx, fs);
    let e1 = engine_step(e, ev);
    let fs1 = apply_effect(a, ev, fs);
    let aidx1 = next_aidx(a, o, aidx);
    assert(sem(e, o, aidx, fs) == sem(e1, o, aidx1, fs1));
    match step {
        StepV::CreateDirectory { relative_name } => {
            let p = join_path(root, relative_name);
            if dir_ok(fs, p) {
                assert(e1 == advance(e, root, index));
                lemma_after_advance(e, root, index, o, aidx, add_dir(fs, p));
            } else {
                assert(e1 == halt(e, ErrorV::DirectoryCreateFailed { path: p }));
            }
        },
        StepV::WriteLiteralFile { relative_name, content } => {
            let p = join_path(root, relative_name);
            if write_ok(fs, p) {
                lemma_after_advance(e, root, index, o, aidx, put_text(fs, p, content));
            } else {
                assert(e1 == halt(e, ErrorV::FileWriteFailed { path: p }));
            }
        },
        StepV::WriteRemoteFile { relative_name, source_url } => {
            let p = join_path(root, relative_name);
            match find_text(o.texts, source_url) {
                Some(TextReplyV::Body { text }) => {
                    assert(e1 == (EngineV {
                        phase: PhaseV::Run {
                            root,
                            index,
                            sub: SubV::WriteFetchedText { body: text },
                        },
                        ..e
                    }));
                    assert(engine_wf(e1));
                    let a1 = engine_action(e1);
                    assert(a1 == (crate::engine::ActionV::WriteTextFile { path: p, content: text }));
                    let ev1 = event_for(a1, o, aidx, fs);
                    let e2 = engine_step(e1, ev1);
                    assert(sem(e1, o, aidx, fs) == sem(e2, o, aidx, apply_effect(a1, ev1, fs)));
                    if write_ok(fs, p) {
                        assert(e2 == advance(e, root, index));
                        lemma_after_advance(e, root, index, o, aidx, put_text(fs, p, text));
                    } else {
                        assert(e2 == halt(e1, ErrorV::FileWriteFailed { path: p }));
                    }
                },
                _ => {
                },
            }
        },
        StepV::FetchBinaryAsset { relative_name, source_url } => {
            let p = join_path(root, relative_name);
            match find_bin(o.bins, source_url) {
                Some(BinReplyV::Body { bytes }) => {
                    assert(engine_wf(e1));
                    let a1 = engine_action(e1);
                    assert(a1 == (crate::engine::ActionV::WriteBinaryFile {
                        path: p,
                        content: bytes,
                    }));
                    let ev1 = event_for(a1, o, aidx, fs);
                    let e2 = engine_step(e1, ev1);
                    assert(sem(e1, o, aidx, fs) == sem(e2, o, aidx, apply_effect(a1, ev1, fs)));
                    if write_ok(fs, p) {
                        assert(e2 == advance(e, root, index));
                        lemma_after_advance(e, root, index, o, aidx, put_bin(fs, p, bytes));
                    } else {
                        assert(e2 == halt(e1, ErrorV::FileWriteFailed { path: p }));
                    }
                },
                _ => {
                },
            }
        },
        StepV::ConditionalReadme { default_yes, readme_name, source, .. } => {
            let ans = answer_at(o.answers, aidx);
            let p = join_path(root, readme_name);
            assert(ev == (EventV::Line { input: ans }));
            assert(aidx1 == bump(o, aidx));
            if answer_means_yes(ans, default_yes) {
                match source {
                    SourceV::Literal { content } => {
                        assert(engine_wf(e1));
                        let a1 = engine_action(e1);
                        assert(a1 == (crate::engine::ActionV::WriteTextFile {
                            path: p,
                            content: content,
                        }));
                        let ev1 = event_for(a1, o, aidx1, fs);
                        let e2 = engine_step(e1, ev1);
                        assert(sem(e1, o, aidx1, fs) == sem(
                            e2,
                            o,
                            aidx1,
                            apply_effect(a1, ev1, fs),
                        ));
                        if write_ok(fs, p) {
                            assert(e2 == advance(e, root, index));
                            lemma_after_advance(e, root, index, o, aidx1, put_text(fs, p, content));
                        } else {
                            assert(e2 == halt(e1, ErrorV::FileWriteFailed { path: p }));
                        }
                    },
                    SourceV::Remote { source_url } => {
                        assert(engine_wf(e1));
                        let a1 = engine_action(e1);
                        assert(readme_url_of(step) == source_url);
                        assert(a1 == (crate::engine::ActionV::FetchText { url: source_url }));
                        let ev1 = event_for(a1, o, aidx1, fs);
                        let e2 = engine_step(e1, ev1);
                        assert(sem(e1, o, aidx1, fs) == sem(
                            e2,
                            o,
                            aidx1,
                            apply_effect(a1, ev1, fs),
                        ));
                        match find_text(o.texts, source_url) {
                            Some(TextReplyV::Body { text }) => {
                                assert(engine_wf(e2));
                                let a2 = engine_action(e2);
                                assert(a2 == (crate::engine::ActionV::WriteTextFile {
                                    path: p,
                                    content: text,
                                }));
                                let ev2 = event_for(a2, o, aidx1, fs);
                                let e3 = engine_step(e2, ev2);
                                assert(sem(e2, o, aidx1, fs) == sem(
                                    e3,
                                    o,
                                    aidx1,
                                    apply_effect(a2, ev2, fs),
                                ));
                                if write_ok(fs, p) {
                                    assert(e3 == advance(e, root, index));
                                    lemma_after_advance(
                                        e,
                                        root,
                                        index,
                                        o,
                                        aidx1,
                                        put_text(fs, p, text),
                                    );
                                } else {
                                    assert(e3 == halt(e2, ErrorV::FileWriteFailed { path: p }));
                                }
                            },
                            _ => {
                            },
                        }
                    },
                }
            } else {
                assert(e1 == advance(e, root, index));
                lemma_after_advance(e, root, index, o, aidx1, fs);
            }
        },
        StepV::ConditionalGitInit { default_yes, gitignore_name, gitignore_url, .. } => {
            let ans = answer_at(o.answers, aidx);
            let p = join_path(root, gitignore_name);
            assert(ev == (EventV::Line { input: ans }));
            assert(aidx1 == bump(o, aidx));
            if answer_means_yes(ans, default_yes) {
                assert(engine_wf(e1));
                let a1 = engine_action(e1);
                assert(gitignore_url_of(step) == gitignore_url);
                assert(a1 == (crate::engine::ActionV::FetchText { url: gitignore_url }));
                let ev1 = event_for(a1, o, aidx1, fs);
                let e2 = engine_step(e1, ev1);
                assert(sem(e1, o, aidx1, fs) == sem(e2, o, aidx1, apply_effect(a1, ev1, fs)));
                match find_text(o.texts, gitignore_url) {
                    Some(TextReplyV::Body { text }) => {
                        assert(engine_wf(e2));
                        let a2 = engine_action(e2);
                        assert(a2 == (crate::engine::ActionV::WriteTextFile {
                            path: p,
                            content: text,
                        }));
                        let ev2 = event_for(a2, o, aidx1, fs);
                        let e3 = engine_step(e2, ev2);
                        assert(sem(e2, o, aidx1, fs) == sem(
                            e3,
                            o,
                            aidx1,
                            apply_effect(a2, ev2, fs),
                        ));
                        if write_ok(fs, p) {
                            let fsw = put_text(fs, p, text);
                            assert(e3 == (EngineV {
                                phase: PhaseV::Run { root, index, sub: SubV::RepoInit },
                                ..e
                            }));
                            assert(engine_wf(e3));
                            let a3 = engine_action(e3);
                            assert(a3 == (crate::engine::ActionV::InitRepository { path: root }));
                            let ev3 = event_for(a3, o, aidx1, fsw);
                            let e4 = engine_step(e3, ev3);
                            assert(sem(e3, o, aidx1, fsw) == sem(
                                e4,
                                o,
                                aidx1,
                                apply_effect(a3, ev3, fsw),
                            ));
                            assert(apply_effect(a3, ev3, fsw) == set_repo(fsw));
                            assert(e4 == advance(e, root, index));
                            lemma_after_advance(e, root, index, o, aidx1, set_repo(fsw));
                        } else {
                            assert(e3 == halt(e2, ErrorV::FileWriteFailed { path: p }));
                        }
                    },
                    _ => {
                    },
                }
            } else {
                assert(e1 == advance(e, root, index));
                lemma_after_advance(e, root, index, o, aidx1, fs);
            }
        },
    }
}

/// Steps that never aim at path `p` leave the file at `p` alone.
proof fn lemma_pipeline_frame(
    steps: Seq<StepV>,
    i: int,
    root: Seq<char>,
    o: OracleV,
    aidx: int,
    fs: FsV,
    p: Seq<char>,
)
    requires
        0 <= i,
        forall|k: int| i <= k < steps.len() ==> join_path(root, step_target(steps[k])) != p,
    ensures
        pipeline_sem(steps, i, root, o, aidx, fs).0.files.contains_key(p)
            == fs.files.contains_key(p),
        fs.files.contains_key(p) ==> pipeline_sem(steps, i, root, o, aidx, fs).0.files[p]
            == fs.files[p],
    decreases steps.len() - i,
{
    if i >= steps.len() {
    } else {
        let tp = join_path(root, step_target(steps[i]));
        match steps[i] {
            StepV::CreateDirectory { relative_name } => {
                if dir_ok(fs, tp) {
                    lemma_pipeline_frame(steps, i + 1, root, o, aidx, add_dir(fs, tp), p);
                }
            },
            StepV::WriteLiteralFile { relative_name, content } => {
                if write_ok(fs, tp) {
                    lemma_pipeline_frame(steps, i + 1, root, o, aidx, put_text(fs, tp, content), p);
                }
            },
            StepV::WriteRemoteFile { relative_name, source_url } => {
                match find_text(o.texts, source_url) {
                    Some(TextReplyV::Body { text }) => {
                        if write_ok(fs, tp) {
                            lemma_pipeline_frame(
                                steps,
                                i + 1,
                                root,
                                o,
                                aidx,
                                put_text(fs, tp, text),
                                p,
                            );
                        }
                    },
                    _ => {
                    },
                }
            },
            StepV::FetchBinaryAsset { relative_name, source_url } => {
                match find_bin(o.bins, source_url) {
                    Some(BinReplyV::Body { bytes }) => {
                        if write_ok(fs, tp) {
                            lemma_pipeline_frame(
                                steps,
                                i + 1,
                                root,
                                o,
                                aidx,
                                put_bin(fs, tp, bytes),
                                p,
                            );
                        }
                    },
                    _ => {
                    },
                }
            },
            StepV::ConditionalReadme { default_yes, readme_name, source, .. } => {
                let ans = answer_at(o.answers, aidx);
                let a2 = bump(o, aidx);
                if answer_means_yes(ans, default_yes) {
                    match source {
                        SourceV::Literal { content } => {
                            if write_ok(fs, tp) {
                                lemma_pipeline_frame(
                                    steps,
                                    i + 1,
                                    root,
                                    o,
                                    a2,
                                    put_text(fs, tp, content),
                                    p,
                                );
                            }
                        },
                        SourceV::Remote { source_url } => {
                            match find_text(o.texts, source_url) {
                                Some(TextReplyV::Body { text }) => {
                                    if write_ok(fs, tp) {
                                        lemma_pipeline_frame(
                                            steps,
                                            i + 1,
                                            root,
                                            o,
                                            a2,
                                            put_text(fs, tp, text),
                                            p,
                                        );
                                    }
                                },
                                _ => {
                                },
                            }
                        },
                    }
                } else {
                    lemma_pipeline_frame(steps, i + 1, root, o, a2, fs, p);
                }
            },
            StepV::ConditionalGitInit { default_yes, gitignore_name, gitignore_url, .. } => {
                let ans = answer_at(o.answers, aidx);
                let a2 = bump(o, aidx);
                if answer_means_yes(ans, default_yes) {
                    match find_text(o.texts, gitignore_url) {
                        Some(TextReplyV::Body { text }) => {
                            if write_ok(fs, tp) {
                                lemma_pipeline_frame(
                                    steps,
                                    i + 1,
                                    root,
                                    o,
                                    a2,
                                    set_repo(put_text(fs, tp, text)),
                                    p,
                                );
                            }
                        },
                        _ => {
                        },
                    }
                } else {
                    lemma_pipeline_frame(steps, i + 1, root, o, a2, fs, p);
                }
            },
        }
    }
}

/// No two distinct steps write under the same full path.
proof fn lemma_targets_stay_apart(steps: Seq<StepV>, root: Seq<char>, j: int, k: int)
    requires
        distinct_targets(steps),
        0 <= j < steps.len(),
        0 <= k < steps.len(),
        j != k,
    ensures
        join_path(root, step_target(steps[k])) != join_path(root, step_target(steps[j])),
{
    if join_path(root, step_target(steps[k])) == join_path(root, step_target(steps[j])) {
        lemma_join_path_injective(root, step_target(steps[k]), step_target(steps[j]));
    }
}

/// A literal write that succeeds stays on disk to the end of the run.
proof fn lemma_pipeline_literal(
    steps: Seq<StepV>,
    i: int,
    j: int,
    root: Seq<char>,
    o: OracleV,
    aidx: int,
    fs: FsV,
    n: Seq<char>,
    c: Seq<char>,
)
    requires
        0 <= i <= j < steps.len(),
        steps[j] == (StepV::WriteLiteralFile { relative_name: n, content: c }),
        distinct_targets(steps),
        pipeline_sem(steps, i, root, o, aidx, fs).1 == Ok::<(), ErrorV>(()),
    ensures
        pipeline_sem(steps, i, root, o, aidx, fs).0.files.contains_key(join_path(root, n)),
        pipeline_sem(steps, i, root, o, aidx, fs).0.files[join_path(root, n)] == ContentV::Text(c),
    decreases j - i,
{
    let p = join_path(root, n);
    if i == j {
        assert(write_ok(fs, p));
        let fs1 = put_text(fs, p, c);
        assert forall|k: int|
            i + 1 <= k < steps.len() implies join_path(root, step_target(steps[k])) != p by {
            lemma_targets_stay_apart(steps, root, j, k);
        }
        lemma_pipeline_frame(steps, i + 1, root, o, aidx, fs1, p);
    } else {
        let tp = join_path(root, step_target(steps[i]));
        match steps[i] {
            StepV::CreateDirectory { .. } => {
                lemma_pipeline_literal(steps, i + 1, j, root, o, aidx, add_dir(fs, tp), n, c);
            },
            StepV::WriteLiteralFile { content, .. } => {
                lemma_pipeline_literal(steps, i + 1, j, root, o, aidx, put_text(fs, tp, content), n, c);
            },
            StepV::WriteRemoteFile { source_url, .. } => {
                match find_text(o.texts, source_url) {
                    Some(TextReplyV::Body { text }) => {
                        lemma_pipeline_literal(
                            steps,
                            i + 1,
                            j,
                            root,
                            o,
                            aidx,
                            put_text(fs, tp, text),
                            n,
                            c,
                        );
                    },
                    _ => {
                    },
                }
            },
            StepV::FetchBinaryAsset { source_url, .. } => {
                match find_bin(o.bins, source_url) {
                    Some(BinReplyV::Body { bytes }) => {
                        lemma_pipeline_literal(
                            steps,
                            i + 1,
                            j,
                            root,
                            o,
                            aidx,
                            put_bin(fs, tp, bytes),
                            n,
                            c,
                        );
                    },
                    _ => {
                    },
                }
            },
            StepV::ConditionalReadme { default_yes, source, .. } => {
                let ans = answer_at(o.answers, aidx);
                let a2 = bump(o, aidx);
                if answer_means_yes(ans, default_yes) {
                    match source {
                        SourceV::Literal { content } => {
                            lemma_pipeline_literal(
                                steps,
                                i + 1,
                                j,
                                root,
                                o,
                                a2,
                                put_text(fs, tp, content),
                                n,
                                c,
                            );
                        },
                        SourceV::Remote { source_url } => {
                            match find_text(o.texts, source_url) {
                                Some(TextReplyV::Body { text }) => {
                                    lemma_pipeline_literal(
                                        steps,
                                        i + 1,
                                        j,
                                        root,
                                        o,
                                        a2,
                                        put_text(fs, tp, text),
                                        n,
                                        c,
                                    );
                                },
                                _ => {
                                },
                            }
                        },
                    }
                } else {
                    lemma_pipeline_literal(steps, i + 1, j, root, o, a2, fs, n, c);
                }
            },
            StepV::ConditionalGitInit { default_yes, gitignore_url, .. } => {
                let ans = answer_at(o.answers, aidx);
                let a2 = bump(o, aidx);
                if answer_means_yes(ans, default_yes) {
                    match find_text(o.texts, gitignore_url) {
                        Some(TextReplyV::Body { text }) => {
                            lemma_pipeline_literal(
                                steps,
                                i + 1,
                                j,
                                root,
                                o,
                                a2,
                                set_repo(put_text(fs, tp, text)),
                                n,
                                c,
                            );
                        },
                        _ => {
                        },
                    }
                } else {
                    lemma_pipeline_literal(steps, i + 1, j, root, o, a2, fs, n, c);
                }
            },
        }
    }
}

/// A fetched text that arrives with status 200 stays on disk verbatim
/// to the end of the run.
proof fn lemma_pipeline_remote(
    steps: Seq<StepV>,
    i: int,
    j: int,
    root: Seq<char>,
    o: OracleV,
    aidx: int,
    fs: FsV,
    n: Seq<char>,
    u: Seq<char>,
    text: Seq<char>,
)
    requires
        0 <= i <= j < steps.len(),
        steps[j] == (StepV::WriteRemoteFile { relative_name: n, source_url: u }),
        find_text(o.texts, u) == Some(TextReplyV::Body { text }),
        distinct_targets(steps),
        pipeline_sem(steps, i, root, o, aidx, fs).1 == Ok::<(), ErrorV>(()),
    ensures
        pipeline_sem(steps, i, root, o, aidx, fs).0.files.contains_key(join_path(root, n)),
        pipeline_sem(steps, i, root, o, aidx, fs).0.files[join_path(root, n)] == ContentV::Text(
            text,
        ),
    decreases j - i,
{
    let p = join_path(root, n);
    if i == j {
        assert(write_ok(fs, p));
        let fs1 = put_text(fs, p, text);
        assert forall|k: int|
            i + 1 <= k < steps.len() implies join_path(root, step_target(steps[k])) != p by {
            lemma_targets_stay_apart(steps, root, j, k);
        }
        lemma_pipeline_frame(steps, i + 1, root, o, aidx, fs1, p);
    } else {
        let tp = join_path(root, step_target(steps[i]));
        match steps[i] {
            StepV::CreateDirectory { .. } => {
                lemma_pipeline_remote(steps, i + 1, j, root, o, aidx, add_dir(fs, tp), n, u, text);
            },
            StepV::WriteLiteralFile { content, .. } => {
                lemma_pipeline_remote(
                    steps,
                    i + 1,
                    j,
                    root,
                    o,
                    aidx,
                    put_text(fs, tp, content),
                    n,
                    u,
                    text,
                );
            },
            StepV::WriteRemoteFile { source_url, .. } => {
                match find_text(o.texts, source_url) {
                    Some(TextReplyV::Body { text: text2 }) => {
                        lemma_pipeline_remote(
                            steps,
                            i + 1,
                            j,
                            root,
                            o,
                            aidx,
                            put_text(fs, tp, text2),
                            n,
                            u,
                            text,
                        );
                    },
                    _ => {
                    },
                }
            },
            StepV::FetchBinaryAsset { source_url, .. } => {
                match find_bin(o.bins, source_url) {
                    Some(BinReplyV::Body { bytes }) => {
                        lemma_pipeline_remote(
                            steps,
                            i + 1,
                            j,
                            root,
                            o,
                            aidx,
                            put_bin(fs, tp, bytes),
                            n,
                            u,
                            text,
                        );
                    },
                    _ => {
                    },
                }
            },
            StepV::ConditionalReadme { default_yes, source, .. } => {
                let ans = answer_at(o.answers, aidx);
                let a2 = bump(o, aidx);
                if answer_means_yes(ans, default_yes) {
                    match source {
                        SourceV::Literal { content } => {
                            lemma_pipeline_remote(
                                steps,
                                i + 1,
                                j,
                                root,
                                o,
                                a2,
                                put_text(fs, tp, content),
                                n,
                                u,
                                text,
                            );
                        },
                        SourceV::Remote { source_url } => {
                            match find_text(o.texts, source_url) {
                                Some(TextReplyV::Body { text: text2 }) => {
                                    lemma_pipeline_remote(
                                        steps,
                                        i + 1,
                                        j,
                                        root,
                                        o,
                                        a2,
                                        put_text(fs, tp, text2),
                                        n,
                                        u,
                                        text,
                                    );
                                },
                                _ => {
                                },
                            }
                        },
                    }
                } else {
                    lemma_pipeline_remote(steps, i + 1, j, root, o, a2, fs, n, u, text);
                }
            },
            StepV::ConditionalGitInit { default_yes, gitignore_url, .. } => {
                let ans = answer_at(o.answers, aidx);
                let a2 = bump(o, aidx);
                if answer_means_yes(ans, default_yes) {
                    match find_text(o.texts, gitignore_url) {
                        Some(TextReplyV::Body { text: text2 }) => {
                            lemma_pipeline_remote(
                                steps,
                                i + 1,
                                j,
                                root,
                                o,
                                a2,
                                set_repo(put_text(fs, tp, text2)),
                                n,
                                u,
                                text,
                            );
                        },
                        _ => {
                        },
                    }
                } else {
                    lemma_pipeline_remote(steps, i + 1, j, root, o, a2, fs, n, u, text);
                }
            },
        }
    }
}

/// A run whose pipeline holds a remote text step whose fetch does not
/// come back with status 200 never ends successfully.
proof fn lemma_pipeline_fetch_failure_not_ok(
    steps: Seq<StepV>,
    i: int,
    j: int,
    root: Seq<char>,
    o: OracleV,
    aidx: int,
    fs: FsV,
    n: Seq<char>,
    u: Seq<char>,
)
    requires
        0 <= i <= j < steps.len(),
        steps[j] == (StepV::WriteRemoteFile { relative_name: n, source_url: u }),
        !(find_text(o.texts, u) matches Some(TextReplyV::Body { .. })),
    ensures
        !(pipeline_sem(steps, i, root, o, aidx, fs).1 is Ok),
    decreases j - i,
{
    if i == j {
    } else {
        let tp = join_path(root, step_target(steps[i]));
        match steps[i] {
            StepV::CreateDirectory { .. } => {
                if dir_ok(fs, tp) {
                    lemma_pipeline_fetch_failure_not_ok(
                        steps, i + 1, j, root, o, aidx, add_dir(fs, tp), n, u,
                    );
                }
            },
            StepV::WriteLiteralFile { content, .. } => {
                if write_ok(fs, tp) {
                    lemma_pipeline_fetch_failure_not_ok(
                        steps, i + 1, j, root, o, aidx, put_text(fs, tp, content), n, u,
                    );
                }
            },
            StepV::WriteRemoteFile { source_url, .. } => {
                match find_text(o.texts, source_url) {
                    Some(TextReplyV::Body { text }) => {
                        if write_ok(fs, tp) {
                            lemma_pipeline_fetch_failure_not_ok(
                                steps, i + 1, j, root, o, aidx, put_text(fs, tp, text), n, u,
                            );
                        }
                    },
                    _ => {
                    },
                }
            },
            StepV::FetchBinaryAsset { source_url, .. } => {
                match find_bin(o.bins, source_url) {
                    Some(BinReplyV::Body { bytes }) => {
                        if write_ok(fs, tp) {
                            lemma_pipeline_fetch_failure_not_ok(
                                steps, i + 1, j, root, o, aidx, put_bin(fs, tp, bytes), n, u,
                            );
                        }
                    },
                    _ => {
                    },
                }
            },
            StepV::ConditionalReadme { default_yes, source, .. } => {
                let ans = answer_at(o.answers, aidx);
                let a2 = bump(o, aidx);
                if answer_means_yes(ans, default_yes) {
                    match source {
                        SourceV::Literal { content } => {
                            if write_ok(fs, tp) {
                                lemma_pipeline_fetch_failure_not_ok(
                                    steps, i + 1, j, root, o, a2, put_text(fs, tp, content), n, u,
                                );
                            }
                        },
                        SourceV::Remote { source_url } => {
                            match find_text(o.texts, source_url) {
                                Some(TextReplyV::Body { text }) => {
                                    if write_ok(fs, tp) {
                                        lemma_pipeline_fetch_failure_not_ok(
                                            steps, i + 1, j, root, o, a2, put_text(fs, tp, text), n, u,
                                        );
                                    }
                                },
                                _ => {
                                },
                            }
                        },
                    }
                } else {
                    lemma_pipeline_fetch_failure_not_ok(steps, i + 1, j, root, o, a2, fs, n, u);
                }
            },
            StepV::ConditionalGitInit { default_yes, gitignore_url, .. } => {
                let ans = answer_at(o.answers, aidx);
                let a2 = bump(o, aidx);
                if answer_means_yes(ans, default_yes) {
                    match find_text(o.texts, gitignore_url) {
                        Some(TextReplyV::Body { text }) => {
                            if write_ok(fs, tp) {
                                lemma_pipeline_fetch_failure_not_ok(
                                    steps,
                                    i + 1,
                                    j,
                                    root,
                                    o,
                                    a2,
                                    set_repo(put_text(fs, tp, text)),
                                    n,
                                    u,
                                );
                            }
                        },
                        _ => {
                        },
                    }
                } else {
                    lemma_pipeline_fetch_failure_not_ok(steps, i + 1, j, root, o, a2, fs, n, u);
                }
            },
        }
    }
}

/// When a remote text step's fetch fails, neither that step's file nor
/// any later step's file is ever written.
proof fn lemma_pipeline_abort_unwritten(
    steps: Seq<StepV>,
    i: int,
    j: int,
    k: int,
    root: Seq<char>,
    o: OracleV,
    aidx: int,
    fs: FsV,
    n: Seq<char>,
    u: Seq<char>,
)
    requires
        0 <= i <= j <= k < steps.len(),
        steps[j] == (StepV::WriteRemoteFile { relative_name: n, source_url: u }),
        !(find_text(o.texts, u) matches Some(TextReplyV::Body { .. })),
        distinct_targets(steps),
        !fs.files.contains_key(join_path(root, step_target(steps[k]))),
    ensures
        !pipeline_sem(steps, i, root, o, aidx, fs).0.files.contains_key(
            join_path(root, step_target(steps[k])),
        ),
    decreases j - i,
{
    let pk = join_path(root, step_target(steps[k]));
    if i == j {
    } else {
        let tp = join_path(root, step_target(steps[i]));
        assert(tp != pk) by {
            lemma_targets_stay_apart(steps, root, k, i);
        }
        match steps[i] {
            StepV::CreateDirectory { .. } => {
                if dir_ok(fs, tp) {
                    lemma_pipeline_abort_unwritten(
                        steps, i + 1, j, k, root, o, aidx, add_dir(fs, tp), n, u,
                    );
                }
            },
            StepV::WriteLiteralFile { content, .. } => {
                if write_ok(fs, tp) {
                    lemma_pipeline_abort_unwritten(
                        steps, i + 1, j, k, root, o, aidx, put_text(fs, tp, content), n, u,
                    );
                }
            },
            StepV::WriteRemoteFile { source_url, .. } => {
                match find_text(o.texts, source_url) {
                    Some(TextReplyV::Body { text }) => {
                        if write_ok(fs, tp) {
                            lemma_pipeline_abort_unwritten(
                                steps, i + 1, j, k, root, o, aidx, put_text(fs, tp, text), n, u,
                            );
                        }
                    },
                    _ => {
                    },
                }
            },
            StepV::FetchBinaryAsset { source_url, .. } => {
                match find_bin(o.bins, source_url) {
                    Some(BinReplyV::Body { bytes }) => {
                        if write_ok(fs, tp) {
                            lemma_pipeline_abort_unwritten(
                                steps, i + 1, j, k, root, o, aidx, put_bin(fs, tp, bytes), n, u,
                            );
                        }
                    },
                    _ => {
                    },
                }
            },
            StepV::ConditionalReadme { default_yes, source, .. } => {
                let ans = answer_at(o.answers, aidx);
                let a2 = bump(o, aidx);
                if answer_means_yes(ans, default_yes) {
                    match source {
                        SourceV::Literal { content } => {
                            if write_ok(fs, tp) {
                                lemma_pipeline_abort_unwritten(
                                    steps, i + 1, j, k, root, o, a2, put_text(fs, tp, content), n, u,
                                );
                            }
                        },
                        SourceV::Remote { source_url } => {
                            match find_text(o.texts, source_url) {
                                Some(TextReplyV::Body { text }) => {
                                    if write_ok(fs, tp) {
                                        lemma_pipeline_abort_unwritten(
                                            steps, i + 1, j, k, root, o, a2, put_text(fs, tp, text), n, u,
                                        );
                                    }
                                },
                                _ => {
                                },
                            }
                        },
                    }
                } else {
                    lemma_pipeline_abort_unwritten(steps, i + 1, j, k, root, o, a2, fs, n, u);
                }
            },
            StepV::ConditionalGitInit { default_yes, gitignore_url, .. } => {
                let ans = answer_at(o.answers, aidx);
                let a2 = bump(o, aidx);
                if answer_means_yes(ans, default_yes) {
                    match find_text(o.texts, gitignore_url) {
                        Some(TextReplyV::Body { text }) => {
                            if write_ok(fs, tp) {
                                lemma_pipeline_abort_unwritten(
                                    steps,
                                    i + 1,
                                    j,
                                    k,
                                    root,
                                    o,
                                    a2,
                                    set_repo(put_text(fs, tp, text)),
                                    n,
                                    u,
                                );
                            }
                        },
                        _ => {
                        },
                    }
                } else {
                    lemma_pipeline_abort_unwritten(steps, i + 1, j, k, root, o, a2, fs, n, u);
                }
            },
        }
    }
}

/// The project root an oracle's name answer gives a run.
pub open spec fn run_root(dest: Seq<char>, o: OracleV) -> Seq<char> {
    join_path(dest, trimmed(o.name))
}

/// The engine as a run starts.
pub open spec fn init_engine(t: TemplateV, dest: Seq<char>) -> EngineV {
    EngineV { dest, steps: t.steps, phase: PhaseV::AskName }
}

/// The meaning of a whole scripted run of template `t`.
pub open spec fn run_sem(t: TemplateV, dest: Seq<char>, o: OracleV) -> (FsV, Result<(), ErrorV>) {
    sem(init_engine(t, dest), o, 0, init_fs(dest))
}

/// A run is the root's creation followed by the pipeline: when the
/// root cannot be created the run ends at once with nothing done, and
/// otherwise the rest of the run is the pipeline's meaning.
pub proof fn lemma_run_prelude(t: TemplateV, dest: Seq<char>, o: OracleV)
    requires
        t.steps.len() > 0,
    ensures
        !dir_ok(init_fs(dest), run_root(dest, o)) ==> run_sem(t, dest, o) == (
            init_fs(dest),
            Err::<(), ErrorV>(ErrorV::DirectoryCreateFailed { path: run_root(dest, o) }),
        ),
        dir_ok(init_fs(dest), run_root(dest, o)) ==> run_sem(t, dest, o) == pipeline_sem(
            t.steps,
            0,
            run_root(dest, o),
            o,
            0,
            add_dir(init_fs(dest), run_root(dest, o)),
        ),
{
    let e0 = init_engine(t, dest);
    let fs0 = init_fs(dest);
    let root = run_root(dest, o);
    let a0 = engine_action(e0);
    let ev0 = event_for(a0, o, 0, fs0);
    let e1 = engine_step(e0, ev0);
    assert(ev0 == (EventV::Line { input: o.name }));
    assert(e1 == (EngineV { phase: PhaseV::MakeRoot { root }, ..e0 }));
    assert(sem(e0, o, 0, fs0) == sem(e1, o, 0, fs0));
    let a1 = engine_action(e1);
    let ev1 = event_for(a1, o, 0, fs0);
    let e2 = engine_step(e1, ev1);
    assert(sem(e1, o, 0, fs0) == sem(e2, o, 0, apply_effect(a1, ev1, fs0)));
    if dir_ok(fs0, root) {
        assert(e2 == (EngineV { phase: PhaseV::Run { root, index: 0, sub: SubV::First }, ..e0 }));
        lemma_sem_runs_pipeline(e2, root, 0, o, 0, add_dir(fs0, root));
    } else {
        assert(e2 == halt(e1, ErrorV::DirectoryCreateFailed { path: root }));
    }
}

/// Every registered template is well-formed: its pipeline is non-empty,
/// confirmation-gated steps stand last, and no two steps share a target.
pub proof fn law_registered_templates_wf(id: Seq<char>)
    ensures
        find_template(id) matches Some(t) ==> wf_template(t) && t.steps.len() > 0,
{
    lemma_registry_wf(id);
}

/// No step of the pipeline executes unless the project root was
/// created: when root creation fails, the run ends with
/// `DirectoryCreateFailed` and the filesystem is exactly as it was.
pub proof fn law_root_precedes_steps(t: TemplateV, dest: Seq<char>, o: OracleV)
    requires
        t.steps.len() > 0,
        !dir_ok(init_fs(dest), run_root(dest, o)),
    ensures
        run_sem(t, dest, o) == (
            init_fs(dest),
            Err::<(), ErrorV>(ErrorV::DirectoryCreateFailed { path: run_root(dest, o) }),
        ),
{
    lemma_run_prelude(t, dest, o);
}

/// A literal file's on-disk content after a completed run equals the
/// step's literal content, verbatim.
pub proof fn law_literal_round_trip(
    t: TemplateV,
    dest: Seq<char>,
    o: OracleV,
    j: int,
    n: Seq<char>,
    c: Seq<char>,
)
    requires
        wf_template(t),
        0 <= j < t.steps.len(),
        t.steps[j] == (StepV::WriteLiteralFile { relative_name: n, content: c }),
        run_sem(t, dest, o).1 == Ok::<(), ErrorV>(()),
    ensures
        run_sem(t, dest, o).0.files.contains_key(join_path(run_root(dest, o), n)),
        run_sem(t, dest, o).0.files[join_path(run_root(dest, o), n)] == ContentV::Text(c),
{
    lemma_run_prelude(t, dest, o);
    let root = run_root(dest, o);
    assert(dir_ok(init_fs(dest), root));
    lemma_pipeline_literal(t.steps, 0, j, root, o, 0, add_dir(init_fs(dest), root), n, c);
}

/// A remote file fetched with status 200 lands on disk verbatim: after
/// a completed run the file holds exactly the fetched text.
pub proof fn law_remote_round_trip(
    t: TemplateV,
    dest: Seq<char>,
    o: OracleV,
    j: int,
    n: Seq<char>,
    u: Seq<char>,
    text: Seq<char>,
)
    requires
        wf_template(t),
        0 <= j < t.steps.len(),
        t.steps[j] == (StepV::WriteRemoteFile { relative_name: n, source_url: u }),
        find_text(o.texts, u) == Some(TextReplyV::Body { text }),
        run_sem(t, dest, o).1 == Ok::<(), ErrorV>(()),
    ensures
        run_sem(t, dest, o).0.files.contains_key(join_path(run_root(dest, o), n)),
        run_sem(t, dest, o).0.files[join_path(run_root(dest, o), n)] == ContentV::Text(text),
{
    lemma_run_prelude(t, dest, o);
    let root = run_root(dest, o);
    assert(dir_ok(init_fs(dest), root));
    lemma_pipeline_remote(t.steps, 0, j, root, o, 0, add_dir(init_fs(dest), root), n, u, text);
}

/// A remote text step whose fetch does not come back with status 200
/// aborts the run: the outcome is never success, and neither that
/// step's file nor any later step's file is written.
pub proof fn law_fetch_failure_aborts(
    t: TemplateV,
    dest: Seq<char>,
    o: OracleV,
    j: int,
    k: int,
    n: Seq<char>,
    u: Seq<char>,
)
    requires
        wf_template(t),
        0 <= j <= k < t.steps.len(),
        t.steps[j] == (StepV::WriteRemoteFile { relative_name: n, source_url: u }),
        !(find_text(o.texts, u) matches Some(TextReplyV::Body { .. })),
    ensures
        !(run_sem(t, dest, o).1 is Ok),
        !run_sem(t, dest, o).0.files.contains_key(
            join_path(run_root(dest, o), step_target(t.steps[k])),
        ),
{
    lemma_run_prelude(t, dest, o);
    let root = run_root(dest, o);
    let fs0 = init_fs(dest);
    if dir_ok(fs0, root) {
        lemma_pipeline_fetch_failure_not_ok(t.steps, 0, j, root, o, 0, add_dir(fs0, root), n, u);
        lemma_pipeline_abort_unwritten(t.steps, 0, j, k, root, o, 0, add_dir(fs0, root), n, u);
    }
}

} // verus!
