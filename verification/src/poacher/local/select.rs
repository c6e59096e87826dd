//! Which local files are read: the include and exclude patterns of the
//! configuration, and the extensions of interest.
use vstd::prelude::*;

use regex::Regex;

use crate::text::{is_listed, list_contains};

verus! {

/// `regex::Regex`: a compiled regular expression.
#[verifier::external_type_specification]
#[verifier::external_body]
pub struct ExRegex(Regex);

/// `regex::Error`: a pattern that does not compile.
#[verifier::external_type_specification]
#[verifier::external_body]
pub struct ExRegexError(regex::Error);

/// The pattern a regex was compiled from, as `Regex::as_str` returns it.
pub uninterp spec fn regex_source(re: Regex) -> Seq<char>;

/// Whether `Regex::new(pattern)` succeeds: the pattern is valid and the
/// compiled regex stays within the default size limit.
pub uninterp spec fn regex_compiles(pattern: Seq<char>) -> bool;

/// Whether the regex that `Regex::new(pattern)` compiles matches somewhere
/// in `haystack`, as `Regex::is_match` answers.
pub uninterp spec fn regex_finds_match(pattern: Seq<char>, haystack: Seq<char>) -> bool;

/// `Regex::new`: compiles `pattern`; the regex remembers its pattern.
#[verifier::external_body]
fn regex_new(pattern: &str) -> (r: Result<Regex, regex::Error>)
    ensures
        r is Ok <==> regex_compiles(pattern@),
        r matches Ok(re) ==> regex_source(re) == pattern@,
{
    Regex::new(pattern)
}

/// A pattern of the configuration, compiled by `Regex::new`. Only
/// [`compile_pattern`] makes one, so the regex inside is always the one that
/// `Regex::new` compiled from the pattern it reports.
#[derive(Debug)]
pub struct CompiledPattern {
    regex: Regex,
}

impl View for CompiledPattern {
    type V = Seq<char>;

    /// The pattern that the regex was compiled from.
    closed spec fn view(&self) -> Seq<char> {
        regex_source(self.regex)
    }
}

/// `Regex::is_match` on the regex of a compiled pattern: whether it matches
/// anywhere in `haystack`.
#[verifier::external_body]
fn pattern_is_match(p: &CompiledPattern, haystack: &str) -> (b: bool)
    ensures
        b == regex_finds_match(p@, haystack@),
{
    p.regex.is_match(haystack)
}

/// The compiled pattern of an optional pattern of the configuration. A
/// pattern that does not compile counts as no pattern at all.
pub fn compile_pattern(pattern: &Option<String>) -> (r: Option<CompiledPattern>)
    ensures
        match pattern {
            None => r is None,
            Some(p) => (r is Some <==> regex_compiles(p@)) && (r matches Some(c) ==> c@ == p@),
        },
{
    match pattern {
        None => None,
        Some(p) => match regex_new(p.as_str()) {
            Ok(re) => Some(CompiledPattern { regex: re }),
            Err(_) => None,
        },
    }
}

/// A file is read when it matches the include pattern (if any) and does
/// not match the `exclude` pattern (if any).
pub open spec fn is_selected(
    include_regex: Option<CompiledPattern>,
    exclude_regex: Option<CompiledPattern>,
    path: Seq<char>,
) -> bool {
    &&& include_regex matches Some(re) ==> regex_finds_match(re@, path)
    &&& !(exclude_regex matches Some(re) && regex_finds_match(re@, path))
}

/// Whether the file at `path` is read.
pub fn is_file_selected(
    path: &str,
    include_regex: &Option<CompiledPattern>,
    exclude_regex: &Option<CompiledPattern>,
) -> (b: bool)
    ensures
        b == is_selected(*include_regex, *exclude_regex, path@),
{
    let included = match include_regex {
        Some(re) => pattern_is_match(re, path),
        None => true,
    };
    let excluded = match exclude_regex {
        Some(re) => pattern_is_match(re, path),
        None => false,
    };
    included && !excluded
}

/// If a file matches both include and `exclude`, it is excluded.
pub proof fn law_exclude_wins(
    include_regex: CompiledPattern,
    exclude_regex: CompiledPattern,
    path: Seq<char>,
)
    requires
        regex_finds_match(include_regex@, path),
        regex_finds_match(exclude_regex@, path),
    ensures
        !is_selected(Some(include_regex), Some(exclude_regex), path),
{
}

/// With neither pattern, every file is read.
pub proof fn law_no_pattern_reads_all(path: Seq<char>)
    ensures
        is_selected(None, None, path),
{
}

/// Whether a file's extension is one of `exts`; a file without extension
/// never is.
pub fn extension_listed(extension: &Option<String>, exts: &Vec<String>) -> (b: bool)
    ensures
        b == (extension matches Some(e) && is_listed(exts@, e@)),
{
    match extension {
        Some(e) => list_contains(exts, e),
        None => false,
    }
}

/// With an include pattern, a file that it does not match is never read.
pub proof fn law_include_required(
    include_regex: CompiledPattern,
    exclude_regex: Option<CompiledPattern>,
    path: Seq<char>,
)
    requires
        !regex_finds_match(include_regex@, path),
    ensures
        !is_selected(Some(include_regex), exclude_regex, path),
{
}

/// A file that the include pattern (if any) matches and the exclude pattern
/// (if any) does not is read.
pub proof fn law_matching_file_is_read(
    include_regex: Option<CompiledPattern>,
    exclude_regex: Option<CompiledPattern>,
    path: Seq<char>,
)
    requires
        include_regex matches Some(re) ==> regex_finds_match(re@, path),
        exclude_regex matches Some(re) ==> !regex_finds_match(re@, path),
    ensures
        is_selected(include_regex, exclude_regex, path),
{
}

} // verus!
