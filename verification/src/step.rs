//! The scaffold step data model.
//!
//! A template is data: an identifier, a description, and an ordered
//! pipeline of scaffold steps that one generic executor interprets.
//! Each step names its target path relative to the project root created
//! for the run; a nested target relies on an earlier `CreateDirectory`
//! step for its parent, since the executor creates no intermediate
//! directories.

use vstd::prelude::*;

verus! {

/// Where a confirmation-gated README's content comes from.
pub enum ReadmeSource {
    Literal { content: String },
    Remote { source_url: String },
}

/// One atomic action of a template's pipeline.
///
/// The two conditional variants are gated by a yes/no question put to
/// the operator; a template places them after every unconditional step,
/// so that version control sees the complete initial file set.
pub enum ScaffoldStep {
    CreateDirectory { relative_name: String },
    WriteLiteralFile { relative_name: String, content: String },
    WriteRemoteFile { relative_name: String, source_url: String },
    FetchBinaryAsset { relative_name: String, source_url: String },
    ConditionalGitInit {
        prompt_text: String,
        default_yes: bool,
        gitignore_name: String,
        gitignore_url: String,
    },
    ConditionalReadme {
        prompt_text: String,
        default_yes: bool,
        readme_name: String,
        source: ReadmeSource,
    },
}

/// A named template: a fixed pipeline of scaffold steps.
pub struct TemplateDefinition {
    pub identifier: String,
    pub description: String,
    pub steps: Vec<ScaffoldStep>,
}

/// Mathematical image of a `ReadmeSource`.
pub enum SourceV {
    Literal { content: Seq<char> },
    Remote { source_url: Seq<char> },
}

/// Mathematical image of a `ScaffoldStep`.
pub enum StepV {
    CreateDirectory { relative_name: Seq<char> },
    WriteLiteralFile { relative_name: Seq<char>, content: Seq<char> },
    WriteRemoteFile { relative_name: Seq<char>, source_url: Seq<char> },
    FetchBinaryAsset { relative_name: Seq<char>, source_url: Seq<char> },
    ConditionalGitInit {
        prompt_text: Seq<char>,
        default_yes: bool,
        gitignore_name: Seq<char>,
        gitignore_url: Seq<char>,
    },
    ConditionalReadme {
        prompt_text: Seq<char>,
        default_yes: bool,
        readme_name: Seq<char>,
        source: SourceV,
    },
}

/// Mathematical image of a `TemplateDefinition`.
pub struct TemplateV {
    pub identifier: Seq<char>,
    pub description: Seq<char>,
    pub steps: Seq<StepV>,
}

impl View for ReadmeSource {
    type V = SourceV;

    open spec fn view(&self) -> SourceV {
        match self {
            ReadmeSource::Literal { content } => SourceV::Literal { content: content@ },
            ReadmeSource::Remote { source_url } => SourceV::Remote { source_url: source_url@ },
        }
    }
}

impl View for ScaffoldStep {
    type V = StepV;

    open spec fn view(&self) -> StepV {
        match self {
            ScaffoldStep::CreateDirectory { relative_name } => StepV::CreateDirectory {
                relative_name: relative_name@,
            },
            ScaffoldStep::WriteLiteralFile { relative_name, content } => StepV::WriteLiteralFile {
                relative_name: relative_name@,
                content: content@,
            },
            ScaffoldStep::WriteRemoteFile { relative_name, source_url } => StepV::WriteRemoteFile {
                relative_name: relative_name@,
                source_url: source_url@,
            },
            ScaffoldStep::FetchBinaryAsset { relative_name, source_url } => (
            StepV::FetchBinaryAsset { relative_name: relative_name@, source_url: source_url@ }),
            ScaffoldStep::ConditionalGitInit {
                prompt_text,
                default_yes,
                gitignore_name,
                gitignore_url,
            } => StepV::ConditionalGitInit {
                prompt_text: prompt_text@,
                default_yes: *default_yes,
                gitignore_name: gitignore_name@,
                gitignore_url: gitignore_url@,
            },
            ScaffoldStep::ConditionalReadme {
                prompt_text,
                default_yes,
                readme_name,
                source,
            } => StepV::ConditionalReadme {
                prompt_text: prompt_text@,
                default_yes: *default_yes,
                readme_name: readme_name@,
                source: source@,
            },
        }
    }
}

/// The image of a step sequence, element by element.
pub open spec fn steps_view(steps: Seq<ScaffoldStep>) -> Seq<StepV> {
    steps.map_values(|s: ScaffoldStep| s@)
}

impl View for TemplateDefinition {
    type V = TemplateV;

    open spec fn view(&self) -> TemplateV {
        TemplateV {
            identifier: self.identifier@,
            description: self.description@,
            steps: steps_view(self.steps@),
        }
    }
}

/// Whether a step is gated by an operator confirmation.
pub open spec fn is_conditional(s: StepV) -> bool {
    s is ConditionalGitInit || s is ConditionalReadme
}

/// The path, relative to the project root, that a step creates or writes.
pub open spec fn step_target(s: StepV) -> Seq<char> {
    match s {
        StepV::CreateDirectory { relative_name } => relative_name,
        StepV::WriteLiteralFile { relative_name, .. } => relative_name,
        StepV::WriteRemoteFile { relative_name, .. } => relative_name,
        StepV::FetchBinaryAsset { relative_name, .. } => relative_name,
        StepV::ConditionalGitInit { gitignore_name, .. } => gitignore_name,
        StepV::ConditionalReadme { readme_name, .. } => readme_name,
    }
}

impl ScaffoldStep {
    /// The path, relative to the project root, that this step creates or
    /// writes.
    pub fn target(&self) -> (r: &String)
        ensures
            r@ == step_target(self@),
    {
        match self {
            ScaffoldStep::CreateDirectory { relative_name } => relative_name,
            ScaffoldStep::WriteLiteralFile { relative_name, .. } => relative_name,
            ScaffoldStep::WriteRemoteFile { relative_name, .. } => relative_name,
            ScaffoldStep::FetchBinaryAsset { relative_name, .. } => relative_name,
            ScaffoldStep::ConditionalGitInit { gitignore_name, .. } => gitignore_name,
            ScaffoldStep::ConditionalReadme { readme_name, .. } => readme_name,
        }
    }
}

/// No two steps of the pipeline aim at the same target path.
pub open spec fn distinct_targets(steps: Seq<StepV>) -> bool {
    forall|i: int, j: int|
        0 <= i < j < steps.len() ==> step_target(steps[i]) != step_target(steps[j])
}

/// A well-formed template: its pipeline is non-empty, every
/// confirmation-gated step stands after every unconditional one, and no
/// two steps aim at the same target.
pub open spec fn wf_template(t: TemplateV) -> bool {
    &&& t.steps.len() > 0
    &&& forall|i: int, j: int|
        0 <= i < j < t.steps.len() && is_conditional(t.steps[i]) ==> is_conditional(t.steps[j])
    &&& distinct_targets(t.steps)
}

} // verus!
