use lth::registry::{all, apa7tec, ieee, ieee_tec, lookup, math};
use lth::step::ScaffoldStep;

#[test]
fn lookup_finds_each_registered_template() {
    let m = lookup("math").unwrap();
    assert_eq!(m.identifier, "math");
    assert!(m.steps.len() > 0);
    let i = lookup("ieee").unwrap();
    assert_eq!(i.identifier, "ieee");
    assert!(i.steps.len() > 0);
    let a = lookup("apa7tec").unwrap();
    assert_eq!(a.identifier, "apa7tec");
    assert!(a.steps.len() > 0);
}

#[test]
fn lookup_is_exact_and_case_sensitive() {
    assert!(lookup("MATH").is_none());
    assert!(lookup("Math").is_none());
    assert!(lookup("math ").is_none());
    assert!(lookup("mat").is_none());
    assert!(lookup("").is_none());
    assert!(lookup("latex").is_none());
}

#[test]
fn the_unregistered_pipeline_is_not_found() {
    assert!(lookup("ieee_tec").is_none());
    let t = ieee_tec();
    assert_eq!(t.identifier, "ieee_tec");
    assert!(t.steps.len() > 0);
}

#[test]
fn all_lists_templates_in_registration_order() {
    let v = all();
    assert_eq!(v.len(), 3);
    assert_eq!(v[0].identifier, "math");
    assert_eq!(v[1].identifier, "ieee");
    assert_eq!(v[2].identifier, "apa7tec");
    assert_eq!(v[0].description, "Latex report, template focused on math");
    assert_eq!(v[1].description, "Basic IEEE template, using pandoc & markdown");
    assert_eq!(v[2].description, "Custom template for TEC papers, using pandoc & markdown");
}

#[test]
fn conditional_steps_stand_last_in_every_pipeline() {
    for t in [math(), ieee(), apa7tec(), ieee_tec()] {
        let n = t.steps.len();
        assert!(n >= 2);
        for (k, s) in t.steps.iter().enumerate() {
            let conditional = matches!(
                s,
                ScaffoldStep::ConditionalGitInit { .. } | ScaffoldStep::ConditionalReadme { .. }
            );
            assert_eq!(conditional, k >= n - 2, "step {k} of {}", t.identifier);
        }
    }
}

#[test]
fn pipeline_targets_are_distinct() {
    for t in [math(), ieee(), apa7tec(), ieee_tec()] {
        for a in 0..t.steps.len() {
            for b in (a + 1)..t.steps.len() {
                assert_ne!(t.steps[a].target(), t.steps[b].target());
            }
        }
    }
}

#[test]
fn the_math_pipeline_matches_its_catalog_entry() {
    let t = math();
    assert_eq!(t.steps.len(), 10);
    match &t.steps[0] {
        ScaffoldStep::WriteRemoteFile { relative_name, source_url } => {
            assert_eq!(relative_name, "main.tex");
            assert_eq!(
                source_url,
                "https://raw.githubusercontent.com/Johanx22x/latex-templates/main/math/main.tex"
            );
        }
        _ => panic!("first math step should fetch main.tex"),
    }
    match &t.steps[7] {
        ScaffoldStep::WriteLiteralFile { relative_name, content } => {
            assert_eq!(relative_name, "src/chap01.tex");
            assert_eq!(content, "");
        }
        _ => panic!("eighth math step should write the empty first chapter"),
    }
}
