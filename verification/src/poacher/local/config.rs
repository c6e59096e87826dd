use vstd::prelude::*;

verus! {

/// Where the files of one kind of content are read from.
#[derive(Debug)]
pub struct CommonConfig {
    /// Directory which will be read recursively for files with toml frontmatter
    pub base_dir: String,
    /// Regex to which all files which should be read must match
    pub include_pattern: Option<String>,
    /// Regex to which all files which should not be read must match. If a file
    /// matches both patterns, it will be excluded
    pub exclude: Option<String>,
}

/// `./`, the default base directory.
pub open spec fn default_base_dir() -> Seq<char> {
    seq!['.', '/']
}

/// `\.(md|markdown)$`, the default pattern of files to read.
pub open spec fn markdown_files_pattern() -> Seq<char> {
    seq!['\\', '.', '(', 'm', 'd', '|', 'm', 'a', 'r', 'k', 'd', 'o', 'w', 'n', ')', '$']
}

/// The default configuration of one kind of local content.
pub open spec fn is_default_common_config(c: CommonConfig) -> bool {
    &&& c.base_dir@ == default_base_dir()
    &&& c.include_pattern matches Some(p) && p@ == markdown_files_pattern()
    &&& c.exclude is None
}

impl Default for CommonConfig {
    /// Markdown files under the working directory.
    fn default() -> (c: Self)
        ensures
            is_default_common_config(c),
    {
        let base_dir = "./".to_owned();
        let pattern = r"\.(md|markdown)$".to_owned();
        proof {
            reveal_strlit("./");
            reveal_strlit(r"\.(md|markdown)$");
            assert(base_dir@ =~= default_base_dir());
            assert(pattern@ =~= markdown_files_pattern());
        }
        Self { base_dir, include_pattern: Some(pattern), exclude: None }
    }
}

/// Where each kind of local content is read from.
#[derive(Debug)]
pub struct LocalPoacherConfig {
    pub events: CommonConfig,
    pub groups: CommonConfig,
    pub initiatives: CommonConfig,
}

impl Default for LocalPoacherConfig {
    /// The default configuration for each kind of content.
    fn default() -> (c: Self)
        ensures
            is_default_common_config(c.events),
            is_default_common_config(c.groups),
            is_default_common_config(c.initiatives),
    {
        Self {
            events: CommonConfig::default(),
            groups: CommonConfig::default(),
            initiatives: CommonConfig::default(),
        }
    }
}

} // verus!
