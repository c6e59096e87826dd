use entropy::poacher::local::select::{compile_pattern, extension_listed, is_file_selected};
use entropy::web::routes::rfcs::is_markdown_extension;
use entropy::web::site_build::is_scss_partial;

#[test]
fn default_pattern_selects_markdown() {
    let wanted = compile_pattern(&Some(r"\.(md|markdown)$".to_string()));
    assert!(wanted.is_some());
    let exclude = None;
    assert!(is_file_selected("./events/rustconf.md", &wanted, &exclude));
    assert!(is_file_selected("notes.markdown", &wanted, &exclude));
    assert!(!is_file_selected("notes.md.txt", &wanted, &exclude));
}

#[test]
fn exclude_wins_over_include() {
    let wanted = compile_pattern(&Some(r"\.md$".to_string()));
    let exclude = compile_pattern(&Some("draft".to_string()));
    assert!(!is_file_selected("draft-post.md", &wanted, &exclude));
    assert!(is_file_selected("post.md", &wanted, &exclude));
}

#[test]
fn no_patterns_select_everything() {
    assert!(is_file_selected("anything", &None, &None));
    assert!(compile_pattern(&None).is_none());
}

#[test]
fn invalid_pattern_counts_as_none() {
    assert!(compile_pattern(&Some("foo(bar".to_string())).is_none());
    let wanted = compile_pattern(&Some("(".to_string()));
    assert!(is_file_selected("x.txt", &wanted, &None));
}

#[test]
fn listed_extensions() {
    let exts = vec!["md".to_string(), "toml".to_string()];
    assert!(extension_listed(&Some("md".to_string()), &exts));
    assert!(!extension_listed(&Some("rs".to_string()), &exts));
    assert!(!extension_listed(&None, &exts));
}

#[test]
fn rfc_extensions() {
    assert!(is_markdown_extension("md"));
    assert!(is_markdown_extension("markdown"));
    assert!(!is_markdown_extension("MD"));
    assert!(!is_markdown_extension("txt"));
    assert!(!is_markdown_extension(""));
}

#[test]
fn scss_partials() {
    assert!(is_scss_partial("_variables.scss"));
    assert!(!is_scss_partial("main.scss"));
    assert!(!is_scss_partial(""));
}

#[test]
fn patterns_match_case_sensitively() {
    let wanted = compile_pattern(&Some("a".to_string()));
    assert!(is_file_selected("a.md", &wanted, &None));
    assert!(!is_file_selected("A.MD", &wanted, &None));
}
