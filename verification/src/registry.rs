//! The template registry: a fixed catalog of named scaffold pipelines.
//!
//! Each template constructor returns the same pipeline on every call; the
//! registry maps an identifier to its template by exact, case-sensitive
//! match, in registration order.  The catalog registers `math`, `ieee`
//! and `apa7tec`; the `ieee_tec` pipeline is defined but not registered.

use vstd::prelude::*;

use crate::step::{
    ReadmeSource, ScaffoldStep, SourceV, StepV, TemplateDefinition, TemplateV, is_conditional,
    step_target, wf_template,
};
use crate::text::str_eq;

verus! {

/// The pipeline of the `math` template.
pub open spec fn math_steps() -> Seq<StepV> {
    seq![
        StepV::WriteRemoteFile {
            relative_name: "main.tex"@,
            source_url: "https://raw.githubusercontent.com/Johanx22x/latex-templates/main/math/main.tex"@,
        },
        StepV::CreateDirectory { relative_name: "lib"@ },
        StepV::WriteRemoteFile {
            relative_name: "lib/preamble.tex"@,
            source_url: "https://raw.githubusercontent.com/Johanx22x/latex-templates/main/math/preamble.tex"@,
        },
        StepV::WriteRemoteFile {
            relative_name: "lib/macros.tex"@,
            source_url: "https://raw.githubusercontent.com/Johanx22x/latex-templates/main/math/macros.tex"@,
        },
        StepV::WriteRemoteFile {
            relative_name: "lib/letterfonts.tex"@,
            source_url: "https://raw.githubusercontent.com/Johanx22x/latex-templates/main/math/letterfonts.tex"@,
        },
        StepV::CreateDirectory { relative_name: "images"@ },
        StepV::CreateDirectory { relative_name: "src"@ },
        StepV::WriteLiteralFile { relative_name: "src/chap01.tex"@, content: ""@ },
        StepV::ConditionalReadme {
            prompt_text: "Do you want to create a README.md file? (Y/n)"@,
            default_yes: true,
            readme_name: "README.md"@,
            source: SourceV::Remote {
                source_url: "https://raw.githubusercontent.com/Johanx22x/latex-templates/main/math/README.md"@,
            },
        },
        StepV::ConditionalGitInit {
            prompt_text: "Do you want to initialize a git repository? (Y/n)"@,
            default_yes: true,
            gitignore_name: ".gitignore"@,
            gitignore_url: "https://raw.githubusercontent.com/Johanx22x/latex-templates/main/math/.gitignore"@,
        },
    ]
}

/// The `math` template: a LaTeX report focused on mathematics.
pub open spec fn math_spec() -> TemplateV {
    TemplateV {
        identifier: "math"@,
        description: "Latex report, template focused on math"@,
        steps: math_steps(),
    }
}

/// The pipeline of the `ieee` template.
pub open spec fn ieee_steps() -> Seq<StepV> {
    seq![
        StepV::WriteRemoteFile {
            relative_name: "metadata.yaml"@,
            source_url: "https://raw.githubusercontent.com/Johanx22x/latex-templates/main/ieee/metadata.yaml"@,
        },
        StepV::CreateDirectory { relative_name: "lib"@ },
        StepV::WriteRemoteFile {
            relative_name: "lib/bibliography.csl"@,
            source_url: "https://raw.githubusercontent.com/Johanx22x/latex-templates/main/ieee/lib/bibliography.csl"@,
        },
        StepV::WriteRemoteFile {
            relative_name: "lib/bibliography.bib"@,
            source_url: "https://raw.githubusercontent.com/Johanx22x/latex-templates/main/ieee/lib/bibliography.bib"@,
        },
        StepV::WriteRemoteFile {
            relative_name: "lib/template.tex"@,
            source_url: "https://raw.githubusercontent.com/Johanx22x/latex-templates/main/ieee/lib/template.tex"@,
        },
        StepV::CreateDirectory { relative_name: "images"@ },
        StepV::FetchBinaryAsset {
            relative_name: "images/markdown.png"@,
            source_url: "https://raw.githubusercontent.com/Johanx22x/latex-templates/main/ieee/images/markdown.png"@,
        },
        StepV::CreateDirectory { relative_name: "src"@ },
        StepV::WriteRemoteFile {
            relative_name: "src/01.md"@,
            source_url: "https://raw.githubusercontent.com/Johanx22x/latex-templates/main/ieee/src/01.md"@,
        },
        StepV::WriteRemoteFile {
            relative_name: "Makefile"@,
            source_url: "https://raw.githubusercontent.com/Johanx22x/latex-templates/main/ieee/Makefile"@,
        },
        StepV::CreateDirectory { relative_name: "build"@ },
        StepV::ConditionalReadme {
            prompt_text: "Do you want to create a README.md file? (Y/n)"@,
            default_yes: true,
            readme_name: "README.md"@,
            source: SourceV::Remote {
                source_url: "https://raw.githubusercontent.com/Johanx22x/latex-templates/main/ieee/README.md"@,
            },
        },
        StepV::ConditionalGitInit {
            prompt_text: "Do you want to initialize a git repository? (Y/n)"@,
            default_yes: true,
            gitignore_name: ".gitignore"@,
            gitignore_url: "https://raw.githubusercontent.com/Johanx22x/latex-templates/main/ieee/.gitignore"@,
        },
    ]
}

/// The `ieee` template: an IEEE paper built from markdown with pandoc.
pub open spec fn ieee_spec() -> TemplateV {
    TemplateV {
        identifier: "ieee"@,
        description: "Basic IEEE template, using pandoc & markdown"@,
        steps: ieee_steps(),
    }
}

/// The pipeline of the `apa7tec` template.
pub open spec fn apa7tec_steps() -> Seq<StepV> {
    seq![
        StepV::WriteRemoteFile {
            relative_name: "metadata.yaml"@,
            source_url: "https://raw.githubusercontent.com/Johanx22x/latex-templates/main/apa7tec/metadata.yaml"@,
        },
        StepV::CreateDirectory { relative_name: "lib"@ },
        StepV::WriteRemoteFile {
            relative_name: "lib/bibliography.bib"@,
            source_url: "https://raw.githubusercontent.com/Johanx22x/latex-templates/main/apa7tec/lib/bibliography.bib"@,
        },
        StepV::WriteRemoteFile {
            relative_name: "lib/apa7tec.cls"@,
            source_url: "https://raw.githubusercontent.com/Johanx22x/latex-templates/main/apa7tec/lib/apa7tec.cls"@,
        },
        StepV::CreateDirectory { relative_name: "src"@ },
        StepV::WriteRemoteFile {
            relative_name: "src/01.md"@,
            source_url: "https://raw.githubusercontent.com/Johanx22x/latex-templates/main/apa7tec/src/01.md"@,
        },
        StepV::WriteRemoteFile {
            relative_name: "Makefile"@,
            source_url: "https://raw.githubusercontent.com/Johanx22x/latex-templates/main/apa7tec/Makefile"@,
        },
        StepV::CreateDirectory { relative_name: "images"@ },
        StepV::FetchBinaryAsset {
            relative_name: "images/logo.png"@,
            source_url: "https://raw.githubusercontent.com/Johanx22x/latex-templates/main/apa7tec/images/logo.png"@,
        },
        StepV::CreateDirectory { relative_name: "build"@ },
        StepV::ConditionalReadme {
            prompt_text: "Do you want to create a README.md file? (Y/n)"@,
            default_yes: true,
            readme_name: "README.md"@,
            source: SourceV::Remote {
                source_url: "https://raw.githubusercontent.com/Johanx22x/latex-templates/main/apa7tec/README.md"@,
            },
        },
        StepV::ConditionalGitInit {
            prompt_text: "Do you want to initialize a git repository? (Y/n)"@,
            default_yes: true,
            gitignore_name: ".gitignore"@,
            gitignore_url: "https://raw.githubusercontent.com/Johanx22x/latex-templates/main/apa7tec/.gitignore"@,
        },
    ]
}

/// The `apa7tec` template: an APA paper variant built from markdown.
pub open spec fn apa7tec_spec() -> TemplateV {
    TemplateV {
        identifier: "apa7tec"@,
        description: "Custom template for TEC papers, using pandoc & markdown"@,
        steps: apa7tec_steps(),
    }
}

/// The pipeline of the unregistered `ieee_tec` template.
pub open spec fn ieee_tec_steps() -> Seq<StepV> {
    seq![
        StepV::WriteRemoteFile {
            relative_name: "main.tex"@,
            source_url: "https://raw.githubusercontent.com/Johanx22x/latex-templates/main/ieeetec/main.tex"@,
        },
        StepV::CreateDirectory { relative_name: "lib"@ },
        StepV::CreateDirectory { relative_name: "src"@ },
        StepV::WriteRemoteFile {
            relative_name: "lib/IEEEtran.cls"@,
            source_url: "https://raw.githubusercontent.com/Johanx22x/latex-templates/main/ieeetec/lib/IEEEtran.cls"@,
        },
        StepV::WriteRemoteFile {
            relative_name: "lib/preamble.tex"@,
            source_url: "https://raw.githubusercontent.com/Johanx22x/latex-templates/main/ieeetec/lib/preamble.tex"@,
        },
        StepV::WriteRemoteFile {
            relative_name: "lib/header.tex"@,
            source_url: "https://raw.githubusercontent.com/Johanx22x/latex-templates/main/ieeetec/lib/header.tex"@,
        },
        StepV::WriteRemoteFile {
            relative_name: "src/01.tex"@,
            source_url: "https://raw.githubusercontent.com/Johanx22x/latex-templates/main/ieeetec/src/01.tex"@,
        },
        StepV::WriteRemoteFile {
            relative_name: "src/abstract.tex"@,
            source_url: "https://raw.githubusercontent.com/Johanx22x/latex-templates/main/ieeetec/src/abstract.tex"@,
        },
        StepV::WriteRemoteFile {
            relative_name: "src/title.tex"@,
            source_url: "https://raw.githubusercontent.com/Johanx22x/latex-templates/main/ieeetec/src/title.tex"@,
        },
        StepV::CreateDirectory { relative_name: "figs"@ },
        StepV::FetchBinaryAsset {
            relative_name: "figs/logo.png"@,
            source_url: "https://raw.githubusercontent.com/Johanx22x/latex-templates/main/ieeetec/figs/logo.png"@,
        },
        StepV::CreateDirectory { relative_name: "build"@ },
        StepV::ConditionalReadme {
            prompt_text: "Do you want to create a README.md file? (Y/n)"@,
            default_yes: true,
            readme_name: "README.md"@,
            source: SourceV::Remote {
                source_url: "https://raw.githubusercontent.com/Johanx22x/latex-templates/main/ieeetec/README.md"@,
            },
        },
        StepV::ConditionalGitInit {
            prompt_text: "Do you want to initialize a git repository? (Y/n)"@,
            default_yes: true,
            gitignore_name: ".gitignore"@,
            gitignore_url: "https://raw.githubusercontent.com/Johanx22x/latex-templates/main/ieeetec/.gitignore"@,
        },
    ]
}

/// The `ieee_tec` template: an IEEE paper on the IEEEtran class.
pub open spec fn ieee_tec_spec() -> TemplateV {
    TemplateV {
        identifier: "ieee_tec"@,
        description: "IEEE template for TEC papers, using the IEEEtran class"@,
        steps: ieee_tec_steps(),
    }
}

/// The registered templates, in registration order.
pub open spec fn catalog() -> Seq<TemplateV> {
    seq![math_spec(), ieee_spec(), apa7tec_spec()]
}

/// The template registered under `id`, by exact, case-sensitive match.
pub open spec fn find_template(id: Seq<char>) -> Option<TemplateV> {
    if id == math_spec().identifier {
        Some(math_spec())
    } else if id == ieee_spec().identifier {
        Some(ieee_spec())
    } else if id == apa7tec_spec().identifier {
        Some(apa7tec_spec())
    } else {
        None
    }
}

/// The `math` pipeline is well-formed.
pub proof fn lemma_math_wf()
    ensures
        wf_template(math_spec()),
{
    let s = math_steps();
    assert(s.len() == 10);
    reveal_strlit("main.tex");
    reveal_strlit("lib");
    reveal_strlit("lib/preamble.tex");
    reveal_strlit("lib/macros.tex");
    reveal_strlit("lib/letterfonts.tex");
    reveal_strlit("images");
    reveal_strlit("src");
    reveal_strlit("src/chap01.tex");
    reveal_strlit("README.md");
    reveal_strlit(".gitignore");
    assert("lib"@[0] != "src"@[0]);
    assert("lib/macros.tex"@[0] != "src/chap01.tex"@[0]);
    assert(step_target(s[0]) == "main.tex"@ && "main.tex"@.len() == 8);
    assert(step_target(s[1]) == "lib"@ && "lib"@.len() == 3);
    assert(step_target(s[2]) == "lib/preamble.tex"@ && "lib/preamble.tex"@.len() == 16);
    assert(step_target(s[3]) == "lib/macros.tex"@ && "lib/macros.tex"@.len() == 14);
    assert(step_target(s[4]) == "lib/letterfonts.tex"@ && "lib/letterfonts.tex"@.len() == 19);
    assert(step_target(s[5]) == "images"@ && "images"@.len() == 6);
    assert(step_target(s[6]) == "src"@ && "src"@.len() == 3);
    assert(step_target(s[7]) == "src/chap01.tex"@ && "src/chap01.tex"@.len() == 14);
    assert(step_target(s[8]) == "README.md"@ && "README.md"@.len() == 9);
    assert(step_target(s[9]) == ".gitignore"@ && ".gitignore"@.len() == 10);
    assert forall|i: int, j: int|
        0 <= i < j < s.len() && is_conditional(s[i]) implies is_conditional(s[j]) by {
        assert(i == 0 || i == 1 || i == 2 || i == 3 || i == 4 || i == 5 || i == 6 || i == 7 || i
            == 8 || i == 9);
    }
    assert forall|i: int, j: int| 0 <= i < j < s.len() implies step_target(s[i]) != step_target(
        s[j],
    ) by {
        assert(i == 0 || i == 1 || i == 2 || i == 3 || i == 4 || i == 5 || i == 6 || i == 7 || i
            == 8);
        assert(j == 1 || j == 2 || j == 3 || j == 4 || j == 5 || j == 6 || j == 7 || j == 8 || j
            == 9);
    }
}

/// The `ieee` pipeline is well-formed.
#[verifier::rlimit(100)]
pub proof fn lemma_ieee_wf()
    ensures
        wf_template(ieee_spec()),
{
    let s = ieee_steps();
    assert(s.len() == 13);
    reveal_strlit("metadata.yaml");
    reveal_strlit("lib");
    reveal_strlit("lib/bibliography.csl");
    reveal_strlit("lib/bibliography.bib");
    reveal_strlit("lib/template.tex");
    reveal_strlit("images");
    reveal_strlit("images/markdown.png");
    reveal_strlit("src");
    reveal_strlit("src/01.md");
    reveal_strlit("Makefile");
    reveal_strlit("build");
    reveal_strlit("README.md");
    reveal_strlit(".gitignore");
    assert("lib"@[0] != "src"@[0]);
    assert("lib/bibliography.csl"@[17] != "lib/bibliography.bib"@[17]);
    assert("src/01.md"@[0] != "README.md"@[0]);
    assert(step_target(s[0]) == "metadata.yaml"@ && "metadata.yaml"@.len() == 13);
    assert(step_target(s[1]) == "lib"@ && "lib"@.len() == 3);
    assert(step_target(s[2]) == "lib/bibliography.csl"@ && "lib/bibliography.csl"@.len() == 20);
    assert(step_target(s[3]) == "lib/bibliography.bib"@ && "lib/bibliography.bib"@.len() == 20);
    assert(step_target(s[4]) == "lib/template.tex"@ && "lib/template.tex"@.len() == 16);
    assert(step_target(s[5]) == "images"@ && "images"@.len() == 6);
    assert(step_target(s[6]) == "images/markdown.png"@ && "images/markdown.png"@.len() == 19);
    assert(step_target(s[7]) == "src"@ && "src"@.len() == 3);
    assert(step_target(s[8]) == "src/01.md"@ && "src/01.md"@.len() == 9);
    assert(step_target(s[9]) == "Makefile"@ && "Makefile"@.len() == 8);
    assert(step_target(s[10]) == "build"@ && "build"@.len() == 5);
    assert(step_target(s[11]) == "README.md"@ && "README.md"@.len() == 9);
    assert(step_target(s[12]) == ".gitignore"@ && ".gitignore"@.len() == 10);
    assert forall|i: int, j: int|
        0 <= i < j < s.len() && is_conditional(s[i]) implies is_conditional(s[j]) by {
        assert(i == 0 || i == 1 || i == 2 || i == 3 || i == 4 || i == 5 || i == 6 || i == 7 || i
            == 8 || i == 9 || i == 10 || i == 11 || i == 12);
    }
    assert forall|j: int| 0 <= j < s.len() && j != 0 implies step_target(s[0]) != #[trigger] step_target(s[j]) by {
        assert(j == 1 || j == 2 || j == 3 || j == 4 || j == 5 || j == 6 || j == 7 || j == 8 || j
            == 9 || j == 10 || j == 11 || j == 12);
    }
    assert forall|j: int| 0 <= j < s.len() && j != 1 implies step_target(s[1]) != #[trigger] step_target(s[j]) by {
        assert(j == 0 || j == 2 || j == 3 || j == 4 || j == 5 || j == 6 || j == 7 || j == 8 || j
            == 9 || j == 10 || j == 11 || j == 12);
    }
    assert forall|j: int| 0 <= j < s.len() && j != 2 implies step_target(s[2]) != #[trigger] step_target(s[j]) by {
        assert(j == 0 || j == 1 || j == 3 || j == 4 || j == 5 || j == 6 || j == 7 || j == 8 || j
            == 9 || j == 10 || j == 11 || j == 12);
    }
    assert forall|j: int| 0 <= j < s.len() && j != 3 implies step_target(s[3]) != #[trigger] step_target(s[j]) by {
        assert(j == 0 || j == 1 || j == 2 || j == 4 || j == 5 || j == 6 || j == 7 || j == 8 || j
            == 9 || j == 10 || j == 11 || j == 12);
    }
    assert forall|j: int| 0 <= j < s.len() && j != 4 implies step_target(s[4]) != #[trigger] step_target(s[j]) by {
        assert(j == 0 || j == 1 || j == 2 || j == 3 || j == 5 || j == 6 || j == 7 || j == 8 || j
            == 9 || j == 10 || j == 11 || j == 12);
    }
    assert forall|j: int| 0 <= j < s.len() && j != 5 implies step_target(s[5]) != #[trigger] step_target(s[j]) by {
        assert(j == 0 || j == 1 || j == 2 || j == 3 || j == 4 || j == 6 || j == 7 || j == 8 || j
            == 9 || j == 10 || j == 11 || j == 12);
    }
    assert forall|j: int| 0 <= j < s.len() && j != 6 implies step_target(s[6]) != #[trigger] step_target(s[j]) by {
        assert(j == 0 || j == 1 || j == 2 || j == 3 || j == 4 || j == 5 || j == 7 || j == 8 || j
            == 9 || j == 10 || j == 11 || j == 12);
    }
    assert forall|j: int| 0 <= j < s.len() && j != 7 implies step_target(s[7]) != #[trigger] step_target(s[j]) by {
        assert(j == 0 || j == 1 || j == 2 || j == 3 || j == 4 || j == 5 || j == 6 || j == 8 || j
            == 9 || j == 10 || j == 11 || j == 12);
    }
    assert forall|j: int| 0 <= j < s.len() && j != 8 implies step_target(s[8]) != #[trigger] step_target(s[j]) by {
        assert(j == 0 || j == 1 || j == 2 || j == 3 || j == 4 || j == 5 || j == 6 || j == 7 || j
            == 9 || j == 10 || j == 11 || j == 12);
    }
    assert forall|j: int| 0 <= j < s.len() && j != 9 implies step_target(s[9]) != #[trigger] step_target(s[j]) by {
        assert(j == 0 || j == 1 || j == 2 || j == 3 || j == 4 || j == 5 || j == 6 || j == 7 || j
            == 8 || j == 10 || j == 11 || j == 12);
    }
    assert forall|j: int| 0 <= j < s.len() && j != 10 implies step_target(s[10]) != #[trigger] step_target(s[j]) by {
        assert(j == 0 || j == 1 || j == 2 || j == 3 || j == 4 || j == 5 || j == 6 || j == 7 || j
            == 8 || j == 9 || j == 11 || j == 12);
    }
    assert forall|j: int| 0 <= j < s.len() && j != 11 implies step_target(s[11]) != #[trigger] step_target(s[j]) by {
        assert(j == 0 || j == 1 || j == 2 || j == 3 || j == 4 || j == 5 || j == 6 || j == 7 || j
            == 8 || j == 9 || j == 10 || j == 12);
    }
    assert forall|i: int, j: int| 0 <= i < j < s.len() implies step_target(s[i]) != step_target(
        s[j],
    ) by {
        assert(i == 0 || i == 1 || i == 2 || i == 3 || i == 4 || i == 5 || i == 6 || i == 7 || i
            == 8 || i == 9 || i == 10 || i == 11);
    }
}

/// The `apa7tec` pipeline is well-formed.
#[verifier::rlimit(100)]
pub proof fn lemma_apa7tec_wf()
    ensures
        wf_template(apa7tec_spec()),
{
    let s = apa7tec_steps();
    assert(s.len() == 12);
    reveal_strlit("metadata.yaml");
    reveal_strlit("lib");
    reveal_strlit("lib/bibliography.bib");
    reveal_strlit("lib/apa7tec.cls");
    reveal_strlit("src");
    reveal_strlit("src/01.md");
    reveal_strlit("Makefile");
    reveal_strlit("images");
    reveal_strlit("images/logo.png");
    reveal_strlit("build");
    reveal_strlit("README.md");
    reveal_strlit(".gitignore");
    assert("lib"@[0] != "src"@[0]);
    assert("lib/apa7tec.cls"@[0] != "images/logo.png"@[0]);
    assert("src/01.md"@[0] != "README.md"@[0]);
    assert(step_target(s[0]) == "metadata.yaml"@ && "metadata.yaml"@.len() == 13);
    assert(step_target(s[1]) == "lib"@ && "lib"@.len() == 3);
    assert(step_target(s[2]) == "lib/bibliography.bib"@ && "lib/bibliography.bib"@.len() == 20);
    assert(step_target(s[3]) == "lib/apa7tec.cls"@ && "lib/apa7tec.cls"@.len() == 15);
    assert(step_target(s[4]) == "src"@ && "src"@.len() == 3);
    assert(step_target(s[5]) == "src/01.md"@ && "src/01.md"@.len() == 9);
    assert(step_target(s[6]) == "Makefile"@ && "Makefile"@.len() == 8);
    assert(step_target(s[7]) == "images"@ && "images"@.len() == 6);
    assert(step_target(s[8]) == "images/logo.png"@ && "images/logo.png"@.len() == 15);
    assert(step_target(s[9]) == "build"@ && "build"@.len() == 5);
    assert(step_target(s[10]) == "README.md"@ && "README.md"@.len() == 9);
    assert(step_target(s[11]) == ".gitignore"@ && ".gitignore"@.len() == 10);
    assert forall|i: int, j: int|
        0 <= i < j < s.len() && is_conditional(s[i]) implies is_conditional(s[j]) by {
        assert(i == 0 || i == 1 || i == 2 || i == 3 || i == 4 || i == 5 || i == 6 || i == 7 || i
            == 8 || i == 9 || i == 10 || i == 11);
    }
    assert forall|i: int, j: int| 0 <= i < j < s.len() implies step_target(s[i]) != step_target(
        s[j],
    ) by {
        assert(i == 0 || i == 1 || i == 2 || i == 3 || i == 4 || i == 5 || i == 6 || i == 7 || i
            == 8 || i == 9 || i == 10);
        assert(j == 1 || j == 2 || j == 3 || j == 4 || j == 5 || j == 6 || j == 7 || j == 8 || j
            == 9 || j == 10 || j == 11);
    }
}

/// The `ieee_tec` pipeline is well-formed.
#[verifier::rlimit(100)]
pub proof fn lemma_ieee_tec_wf()
    ensures
        wf_template(ieee_tec_spec()),
{
    let s = ieee_tec_steps();
    assert(s.len() == 14);
    reveal_strlit("main.tex");
    reveal_strlit("lib");
    reveal_strlit("src");
    reveal_strlit("lib/IEEEtran.cls");
    reveal_strlit("lib/preamble.tex");
    reveal_strlit("lib/header.tex");
    reveal_strlit("src/01.tex");
    reveal_strlit("src/abstract.tex");
    reveal_strlit("src/title.tex");
    reveal_strlit("figs");
    reveal_strlit("figs/logo.png");
    reveal_strlit("build");
    reveal_strlit("README.md");
    reveal_strlit(".gitignore");
    assert("lib"@[0] != "src"@[0]);
    assert("lib/IEEEtran.cls"@[4] != "lib/preamble.tex"@[4]);
    assert("lib/IEEEtran.cls"@[0] != "src/abstract.tex"@[0]);
    assert("lib/preamble.tex"@[0] != "src/abstract.tex"@[0]);
    assert("src/title.tex"@[0] != "figs/logo.png"@[0]);
    assert("src/01.tex"@[0] != ".gitignore"@[0]);
    assert(step_target(s[0]) == "main.tex"@ && "main.tex"@.len() == 8);
    assert(step_target(s[1]) == "lib"@ && "lib"@.len() == 3);
    assert(step_target(s[2]) == "src"@ && "src"@.len() == 3);
    assert(step_target(s[3]) == "lib/IEEEtran.cls"@ && "lib/IEEEtran.cls"@.len() == 16);
    assert(step_target(s[4]) == "lib/preamble.tex"@ && "lib/preamble.tex"@.len() == 16);
    assert(step_target(s[5]) == "lib/header.tex"@ && "lib/header.tex"@.len() == 14);
    assert(step_target(s[6]) == "src/01.tex"@ && "src/01.tex"@.len() == 10);
    assert(step_target(s[7]) == "src/abstract.tex"@ && "src/abstract.tex"@.len() == 16);
    assert(step_target(s[8]) == "src/title.tex"@ && "src/title.tex"@.len() == 13);
    assert(step_target(s[9]) == "figs"@ && "figs"@.len() == 4);
    assert(step_target(s[10]) == "figs/logo.png"@ && "figs/logo.png"@.len() == 13);
    assert(step_target(s[11]) == "build"@ && "build"@.len() == 5);
    assert(step_target(s[12]) == "README.md"@ && "README.md"@.len() == 9);
    assert(step_target(s[13]) == ".gitignore"@ && ".gitignore"@.len() == 10);
    assert forall|i: int, j: int|
        0 <= i < j < s.len() && is_conditional(s[i]) implies is_conditional(s[j]) by {
        assert(i == 0 || i == 1 || i == 2 || i == 3 || i == 4 || i == 5 || i == 6 || i == 7 || i
            == 8 || i == 9 || i == 10 || i == 11 || i == 12 || i == 13);
    }
    assert forall|i: int, j: int| 0 <= i < j < s.len() implies step_target(s[i]) != step_target(
        s[j],
    ) by {
        assert(i == 0 || i == 1 || i == 2 || i == 3 || i == 4 || i == 5 || i == 6 || i == 7 || i
            == 8 || i == 9 || i == 10 || i == 11 || i == 12);
        assert(j == 1 || j == 2 || j == 3 || j == 4 || j == 5 || j == 6 || j == 7 || j == 8 || j
            == 9 || j == 10 || j == 11 || j == 12 || j == 13);
    }
}

/// Every template that `find_template` returns is well-formed.
pub proof fn lemma_registry_wf(id: Seq<char>)
    ensures
        find_template(id) is Some ==> wf_template(find_template(id)->Some_0),
{
    lemma_math_wf();
    lemma_ieee_wf();
    lemma_apa7tec_wf();
}

/// Build the `math` template.
pub fn math() -> (t: TemplateDefinition)
    ensures
        t@ == math_spec(),
{
    let mut steps: Vec<ScaffoldStep> = Vec::new();
    steps.push(ScaffoldStep::WriteRemoteFile {
        relative_name: String::from_str("main.tex"),
        source_url: String::from_str("https://raw.githubusercontent.com/Johanx22x/latex-templates/main/math/main.tex"),
    });
    steps.push(ScaffoldStep::CreateDirectory { relative_name: String::from_str("lib") });
    steps.push(ScaffoldStep::WriteRemoteFile {
        relative_name: String::from_str("lib/preamble.tex"),
        source_url: String::from_str("https://raw.githubusercontent.com/Johanx22x/latex-templates/main/math/preamble.tex"),
    });
    steps.push(ScaffoldStep::WriteRemoteFile {
        relative_name: String::from_str("lib/macros.tex"),
        source_url: String::from_str("https://raw.githubusercontent.com/Johanx22x/latex-templates/main/math/macros.tex"),
    });
    steps.push(ScaffoldStep::WriteRemoteFile {
        relative_name: String::from_str("lib/letterfonts.tex"),
        source_url: String::from_str("https://raw.githubusercontent.com/Johanx22x/latex-templates/main/math/letterfonts.tex"),
    });
    steps.push(ScaffoldStep::CreateDirectory { relative_name: String::from_str("images") });
    steps.push(ScaffoldStep::CreateDirectory { relative_name: String::from_str("src") });
    steps.push(ScaffoldStep::WriteLiteralFile {
        relative_name: String::from_str("src/chap01.tex"),
        content: String::from_str(""),
    });
    steps.push(ScaffoldStep::ConditionalReadme {
        prompt_text: String::from_str("Do you want to create a README.md file? (Y/n)"),
        default_yes: true,
        readme_name: String::from_str("README.md"),
        source: ReadmeSource::Remote {
            source_url: String::from_str("https://raw.githubusercontent.com/Johanx22x/latex-templates/main/math/README.md"),
        },
    });
    steps.push(ScaffoldStep::ConditionalGitInit {
        prompt_text: String::from_str("Do you want to initialize a git repository? (Y/n)"),
        default_yes: true,
        gitignore_name: String::from_str(".gitignore"),
        gitignore_url: String::from_str("https://raw.githubusercontent.com/Johanx22x/latex-templates/main/math/.gitignore"),
    });
    let t = TemplateDefinition {
        identifier: String::from_str("math"),
        description: String::from_str("Latex report, template focused on math"),
        steps,
    };
    proof {
        assert(t@.steps =~= math_steps());
    }
    t
}

/// Build the `ieee` template.
pub fn ieee() -> (t: TemplateDefinition)
    ensures
        t@ == ieee_spec(),
{
    let mut steps: Vec<ScaffoldStep> = Vec::new();
    steps.push(ScaffoldStep::WriteRemoteFile {
        relative_name: String::from_str("metadata.yaml"),
        source_url: String::from_str("https://raw.githubusercontent.com/Johanx22x/latex-templates/main/ieee/metadata.yaml"),
    });
    steps.push(ScaffoldStep::CreateDirectory { relative_name: String::from_str("lib") });
    steps.push(ScaffoldStep::WriteRemoteFile {
        relative_name: String::from_str("lib/bibliography.csl"),
        source_url: String::from_str("https://raw.githubusercontent.com/Johanx22x/latex-templates/main/ieee/lib/bibliography.csl"),
    });
    steps.push(ScaffoldStep::WriteRemoteFile {
        relative_name: String::from_str("lib/bibliography.bib"),
        source_url: String::from_str("https://raw.githubusercontent.com/Johanx22x/latex-templates/main/ieee/lib/bibliography.bib"),
    });
    steps.push(ScaffoldStep::WriteRemoteFile {
        relative_name: String::from_str("lib/template.tex"),
        source_url: String::from_str("https://raw.githubusercontent.com/Johanx22x/latex-templates/main/ieee/lib/template.tex"),
    });
    steps.push(ScaffoldStep::CreateDirectory { relative_name: String::from_str("images") });
    steps.push(ScaffoldStep::FetchBinaryAsset {
        relative_name: String::from_str("images/markdown.png"),
        source_url: String::from_str("https://raw.githubusercontent.com/Johanx22x/latex-templates/main/ieee/images/markdown.png"),
    });
    steps.push(ScaffoldStep::CreateDirectory { relative_name: String::from_str("src") });
    steps.push(ScaffoldStep::WriteRemoteFile {
        relative_name: String::from_str("src/01.md"),
        source_url: String::from_str("https://raw.githubusercontent.com/Johanx22x/latex-templates/main/ieee/src/01.md"),
    });
    steps.push(ScaffoldStep::WriteRemoteFile {
        relative_name: String::from_str("Makefile"),
        source_url: String::from_str("https://raw.githubusercontent.com/Johanx22x/latex-templates/main/ieee/Makefile"),
    });
    steps.push(ScaffoldStep::CreateDirectory { relative_name: String::from_str("build") });
    steps.push(ScaffoldStep::ConditionalReadme {
        prompt_text: String::from_str("Do you want to create a README.md file? (Y/n)"),
        default_yes: true,
        readme_name: String::from_str("README.md"),
        source: ReadmeSource::Remote {
            source_url: String::from_str("https://raw.githubusercontent.com/Johanx22x/latex-templates/main/ieee/README.md"),
        },
    });
    steps.push(ScaffoldStep::ConditionalGitInit {
        prompt_text: String::from_str("Do you want to initialize a git repository? (Y/n)"),
        default_yes: true,
        gitignore_name: String::from_str(".gitignore"),
        gitignore_url: String::from_str("https://raw.githubusercontent.com/Johanx22x/latex-templates/main/ieee/.gitignore"),
    });
    let t = TemplateDefinition {
        identifier: String::from_str("ieee"),
        description: String::from_str("Basic IEEE template, using pandoc & markdown"),
        steps,
    };
    proof {
        assert(t@.steps =~= ieee_steps());
    }
    t
}

/// Build the `apa7tec` template.
pub fn apa7tec() -> (t: TemplateDefinition)
    ensures
        t@ == apa7tec_spec(),
{
    let mut steps: Vec<ScaffoldStep> = Vec::new();
    steps.push(ScaffoldStep::WriteRemoteFile {
        relative_name: String::from_str("metadata.yaml"),
        source_url: String::from_str("https://raw.githubusercontent.com/Johanx22x/latex-templates/main/apa7tec/metadata.yaml"),
    });
    steps.push(ScaffoldStep::CreateDirectory { relative_name: String::from_str("lib") });
    steps.push(ScaffoldStep::WriteRemoteFile {
        relative_name: String::from_str("lib/bibliography.bib"),
        source_url: String::from_str("https://raw.githubusercontent.com/Johanx22x/latex-templates/main/apa7tec/lib/bibliography.bib"),
    });
    steps.push(ScaffoldStep::WriteRemoteFile {
        relative_name: String::from_str("lib/apa7tec.cls"),
        source_url: String::from_str("https://raw.githubusercontent.com/Johanx22x/latex-templates/main/apa7tec/lib/apa7tec.cls"),
    });
    steps.push(ScaffoldStep::CreateDirectory { relative_name: String::from_str("src") });
    steps.push(ScaffoldStep::WriteRemoteFile {
        relative_name: String::from_str("src/01.md"),
        source_url: String::from_str("https://raw.githubusercontent.com/Johanx22x/latex-templates/main/apa7tec/src/01.md"),
    });
    steps.push(ScaffoldStep::WriteRemoteFile {
        relative_name: String::from_str("Makefile"),
        source_url: String::from_str("https://raw.githubusercontent.com/Johanx22x/latex-templates/main/apa7tec/Makefile"),
    });
    steps.push(ScaffoldStep::CreateDirectory { relative_name: String::from_str("images") });
    steps.push(ScaffoldStep::FetchBinaryAsset {
        relative_name: String::from_str("images/logo.png"),
        source_url: String::from_str("https://raw.githubusercontent.com/Johanx22x/latex-templates/main/apa7tec/images/logo.png"),
    });
    steps.push(ScaffoldStep::CreateDirectory { relative_name: String::from_str("build") });
    steps.push(ScaffoldStep::ConditionalReadme {
        prompt_text: String::from_str("Do you want to create a README.md file? (Y/n)"),
        default_yes: true,
        readme_name: String::from_str("README.md"),
        source: ReadmeSource::Remote {
            source_url: String::from_str("https://raw.githubusercontent.com/Johanx22x/latex-templates/main/apa7tec/README.md"),
        },
    });
    steps.push(ScaffoldStep::ConditionalGitInit {
        prompt_text: String::from_str("Do you want to initialize a git repository? (Y/n)"),
        default_yes: true,
        gitignore_name: String::from_str(".gitignore"),
        gitignore_url: String::from_str("https://raw.githubusercontent.com/Johanx22x/latex-templates/main/apa7tec/.gitignore"),
    });
    let t = TemplateDefinition {
        identifier: String::from_str("apa7tec"),
        description: String::from_str("Custom template for TEC papers, using pandoc & markdown"),
        steps,
    };
    proof {
        assert(t@.steps =~= apa7tec_steps());
    }
    t
}

/// Build the `ieee_tec` template.  It is defined but not registered, as
/// a pipeline kept outside the catalog.
pub fn ieee_tec() -> (t: TemplateDefinition)
    ensures
        t@ == ieee_tec_spec(),
{
    let mut steps: Vec<ScaffoldStep> = Vec::new();
    steps.push(ScaffoldStep::WriteRemoteFile {
        relative_name: String::from_str("main.tex"),
        source_url: String::from_str("https://raw.githubusercontent.com/Johanx22x/latex-templates/main/ieeetec/main.tex"),
    });
    steps.push(ScaffoldStep::CreateDirectory { relative_name: String::from_str("lib") });
    steps.push(ScaffoldStep::CreateDirectory { relative_name: String::from_str("src") });
    steps.push(ScaffoldStep::WriteRemoteFile {
        relative_name: String::from_str("lib/IEEEtran.cls"),
        source_url: String::from_str("https://raw.githubusercontent.com/Johanx22x/latex-templates/main/ieeetec/lib/IEEEtran.cls"),
    });
    steps.push(ScaffoldStep::WriteRemoteFile {
        relative_name: String::from_str("lib/preamble.tex"),
        source_url: String::from_str("https://raw.githubusercontent.com/Johanx22x/latex-templates/main/ieeetec/lib/preamble.tex"),
    });
    steps.push(ScaffoldStep::WriteRemoteFile {
        relative_name: String::from_str("lib/header.tex"),
        source_url: String::from_str("https://raw.githubusercontent.com/Johanx22x/latex-templates/main/ieeetec/lib/header.tex"),
    });
    steps.push(ScaffoldStep::WriteRemoteFile {
        relative_name: String::from_str("src/01.tex"),
        source_url: String::from_str("https://raw.githubusercontent.com/Johanx22x/latex-templates/main/ieeetec/src/01.tex"),
    });
    steps.push(ScaffoldStep::WriteRemoteFile {
        relative_name: String::from_str("src/abstract.tex"),
        source_url: String::from_str("https://raw.githubusercontent.com/Johanx22x/latex-templates/main/ieeetec/src/abstract.tex"),
    });
    steps.push(ScaffoldStep::WriteRemoteFile {
        relative_name: String::from_str("src/title.tex"),
        source_url: String::from_str("https://raw.githubusercontent.com/Johanx22x/latex-templates/main/ieeetec/src/title.tex"),
    });
    steps.push(ScaffoldStep::CreateDirectory { relative_name: String::from_str("figs") });
    steps.push(ScaffoldStep::FetchBinaryAsset {
        relative_name: String::from_str("figs/logo.png"),
        source_url: String::from_str("https://raw.githubusercontent.com/Johanx22x/latex-templates/main/ieeetec/figs/logo.png"),
    });
    steps.push(ScaffoldStep::CreateDirectory { relative_name: String::from_str("build") });
    steps.push(ScaffoldStep::ConditionalReadme {
        prompt_text: String::from_str("Do you want to create a README.md file? (Y/n)"),
        default_yes: true,
        readme_name: String::from_str("README.md"),
        source: ReadmeSource::Remote {
            source_url: String::from_str("https://raw.githubusercontent.com/Johanx22x/latex-templates/main/ieeetec/README.md"),
        },
    });
    steps.push(ScaffoldStep::ConditionalGitInit {
        prompt_text: String::from_str("Do you want to initialize a git repository? (Y/n)"),
        default_yes: true,
        gitignore_name: String::from_str(".gitignore"),
        gitignore_url: String::from_str("https://raw.githubusercontent.com/Johanx22x/latex-templates/main/ieeetec/.gitignore"),
    });
    let t = TemplateDefinition {
        identifier: String::from_str("ieee_tec"),
        description: String::from_str("IEEE template for TEC papers, using the IEEEtran class"),
        steps,
    };
    proof {
        assert(t@.steps =~= ieee_tec_steps());
    }
    t
}

/// Look a template identifier up in the registry.
///
/// Returns the registered template on an exact, case-sensitive match of
/// its identifier, and nothing otherwise; the returned template is
/// well-formed.
pub fn lookup(identifier: &str) -> (r: Option<TemplateDefinition>)
    ensures
        match r {
            Some(t) => find_template(identifier@) == Some(t@) && wf_template(t@),
            None => find_template(identifier@) is None,
        },
{
    proof {
        lemma_registry_wf(identifier@);
    }
    if str_eq(identifier, "math") {
        Some(math())
    } else if str_eq(identifier, "ieee") {
        Some(ieee())
    } else if str_eq(identifier, "apa7tec") {
        Some(apa7tec())
    } else {
        None
    }
}

/// All registered templates, in registration order.
pub fn all() -> (v: Vec<TemplateDefinition>)
    ensures
        v@.map_values(|t: TemplateDefinition| t@) =~= catalog(),
{
    let mut v: Vec<TemplateDefinition> = Vec::new();
    v.push(math());
    v.push(ieee());
    v.push(apa7tec());
    v
}

} // verus!
