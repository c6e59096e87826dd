use entropy::poacher::local::utils::{is_separator, split_frontmatter, split_lines, toml_fmatter_source};

fn chars(s: &str) -> Vec<char> {
    s.chars().collect()
}

fn lines_of(s: &str) -> Vec<String> {
    split_lines(&chars(s))
        .into_iter()
        .map(|l| l.into_iter().collect())
        .collect()
}

#[test]
fn frontmatter_then_content() {
    let doc = toml_fmatter_source("title = \"Meetup\"\nslug = \"m\"\n---\nHello\nWorld", "description");
    assert_eq!(
        doc,
        "title = \"Meetup\"\nslug = \"m\"\ndescription = \"Hello\\nWorld\""
    );
}

#[test]
fn no_separator_means_empty_content() {
    let doc = toml_fmatter_source("a = 1\nb = 2", "description");
    assert_eq!(doc, "a = 1\nb = 2\ndescription = \"\"");
}

#[test]
fn empty_input() {
    assert_eq!(toml_fmatter_source("", "body"), "\nbody = \"\"");
}

#[test]
fn crlf_line_endings_and_final_newline() {
    let doc = toml_fmatter_source("a = 1\r\n---\r\nbody\r\n", "description");
    assert_eq!(doc, "a = 1\ndescription = \"body\"");
}

#[test]
fn separator_with_surrounding_whitespace() {
    let doc = toml_fmatter_source("a = 1\n  ---\t\nx", "c");
    assert_eq!(doc, "a = 1\nc = \"x\"");
    let doc = toml_fmatter_source("a = 1\n\u{3000}---\u{a0}\nx", "c");
    assert_eq!(doc, "a = 1\nc = \"x\"");
}

#[test]
fn later_separators_stay_in_content() {
    let doc = toml_fmatter_source("a = 1\n---\none\n---\ntwo", "c");
    assert_eq!(doc, "a = 1\nc = \"one\\n---\\ntwo\"");
}

#[test]
fn not_a_separator() {
    assert!(!is_separator(&chars("----")));
    assert!(!is_separator(&chars("- --")));
    assert!(!is_separator(&chars("")));
    assert!(is_separator(&chars("---")));
    assert!(is_separator(&chars(" \t--- \r")));
}

#[test]
fn lines_match_std() {
    for s in ["", "\n", "a", "a\n", "a\r\n", "a\rb", "a\r", "\n\n", "x\r\n\r\ny", "a\nb\n\nc"] {
        let expected: Vec<String> = s.lines().map(|l| l.to_string()).collect();
        assert_eq!(lines_of(s), expected, "input {:?}", s);
    }
}

#[test]
fn frontmatter_split_by_first_separator() {
    let ls = split_lines(&chars("m1\nm2\n---\nc1\n ---\nc2"));
    let (meta, content) = split_frontmatter(&ls);
    let meta: Vec<String> = meta.into_iter().map(|l| l.into_iter().collect()).collect();
    let content: Vec<String> = content.into_iter().map(|l| l.into_iter().collect()).collect();
    assert_eq!(meta, vec!["m1", "m2"]);
    assert_eq!(content, vec!["c1", " ---", "c2"]);
}

#[test]
fn document_parses_as_toml() {
    let doc = toml_fmatter_source(
        "name = \"Rust Chandigarh\"\nslug = \"rust-chd\"\n---\n# About\nWe meet monthly.\n",
        "description",
    );
    let value: toml::Value = toml::from_str(&doc).unwrap();
    assert_eq!(value["name"].as_str(), Some("Rust Chandigarh"));
    assert_eq!(value["slug"].as_str(), Some("rust-chd"));
    assert_eq!(value["description"].as_str(), Some("# About\nWe meet monthly."));
}

#[test]
fn law_content_split_roundtrip() {
    let meta = ["x = 1", "", "y = \"two\""];
    let content = ["first", "", "last"];
    let input = format!("{}\n---\n{}", meta.join("\n"), content.join("\n"));
    let doc = toml_fmatter_source(&input, "d");
    assert_eq!(doc, format!("{}\nd = \"{}\"", meta.join("\n"), content.join("\\n")));
}

fn description_of(input: &str) -> String {
    let doc = toml_fmatter_source(input, "description");
    let table: toml::Table = toml::from_str(&doc).unwrap();
    table["description"].as_str().unwrap().to_string()
}

#[test]
fn content_after_front_matter_is_read_back_as_it_is() {
    assert_eq!(description_of("name = 'n'\nslug = 's'\n---\nx\n---\ny"), "x\n---\ny");
    assert_eq!(description_of("name = 'n'\nslug = 's'\n---\na\\qb"), "a\\qb");
    let content = "say \"hi\"\n\tindented \\n not a line feed\n\u{1}\u{7f} \"\"\" '''\n\nend";
    assert_eq!(description_of(&format!("name = 'n'\n---\n{}", content)), content);
}

#[test]
fn content_escapes() {
    let doc = toml_fmatter_source("---\na\\b\"c\td\u{1}e\u{7f}", "c");
    assert_eq!(doc, "\nc = \"a\\\\b\\\"c\\td\\u0001e\\u007F\"");
}
