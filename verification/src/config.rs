//! Settings of a scan: what to skip, which languages to check, what to
//! show. Reading and writing the settings file is the caller's part.

use crate::text::{contains, has_substring, lowercase_of};
use vstd::prelude::*;
use vstd::string::*;

verus! {

/// The name of a project's settings file.
pub const CONFIG_FILE_NAME: &'static str = ".essentialscode.toml";

/// The name of the user's settings file, below the home directory.
pub const GLOBAL_CONFIG_FILE_NAME: &'static str = "essentialscode.toml";

/// How deep a scan descends unless told otherwise.
pub const DEFAULT_MAX_DEPTH: usize = 5;

/// What a scan looks at.
#[derive(Debug, Clone)]
pub struct ScanConfig {
    /// How deep the scan descends into the tree.
    pub max_depth: usize,
    /// Paths that hold one of these names are skipped.
    pub ignore: Vec<String>,
    /// Whether linters are run.
    pub run_linters: bool,
    /// Whether files are run to find errors that only show at run time.
    pub run_files: bool,
}

/// Which languages a scan checks.
#[derive(Debug, Clone)]
pub struct LanguagesConfig {
    /// The languages to check; none listed means all.
    pub enabled: Vec<String>,
    /// The languages to leave out.
    pub disabled: Vec<String>,
}

/// What is shown.
#[derive(Debug, Clone)]
pub struct OutputConfig {
    pub colors: bool,
    pub show_hints: bool,
    pub show_diffs: bool,
}

/// All settings.
#[derive(Debug, Clone)]
pub struct Config {
    pub scan: ScanConfig,
    pub languages: LanguagesConfig,
    pub output: OutputConfig,
}

/// The names that a scan skips unless told otherwise.
pub open spec fn default_ignore_names() -> Seq<Seq<char>> {
    seq![
        "node_modules"@,
        ".git"@,
        "target"@,
        ".venv"@,
        "venv"@,
        "__pycache__"@,
        "dist"@,
        "build"@,
        ".next"@,
    ]
}

/// How deep a scan descends unless told otherwise.
pub fn default_max_depth() -> (res: usize)
    ensures
        res == DEFAULT_MAX_DEPTH,
{
    DEFAULT_MAX_DEPTH
}

/// The names that a scan skips unless told otherwise.
pub fn default_ignore() -> (res: Vec<String>)
    ensures
        res.deep_view() == default_ignore_names(),
{
    let mut names: Vec<String> = Vec::new();
    names.push(String::from_str("node_modules"));
    names.push(String::from_str(".git"));
    names.push(String::from_str("target"));
    names.push(String::from_str(".venv"));
    names.push(String::from_str("venv"));
    names.push(String::from_str("__pycache__"));
    names.push(String::from_str("dist"));
    names.push(String::from_str("build"));
    names.push(String::from_str(".next"));
    assert(names.deep_view() =~= default_ignore_names());
    names
}

/// The default of every switch: on.
pub fn default_true() -> (res: bool)
    ensures
        res,
{
    true
}

impl Default for ScanConfig {
    fn default() -> (res: Self)
        ensures
            res.max_depth == DEFAULT_MAX_DEPTH,
            res.ignore.deep_view() == default_ignore_names(),
            res.run_linters,
            res.run_files,
    {
        ScanConfig {
            max_depth: default_max_depth(),
            ignore: default_ignore(),
            run_linters: true,
            run_files: true,
        }
    }
}

impl Default for LanguagesConfig {
    fn default() -> (res: Self)
        ensures
            res.enabled@.len() == 0,
            res.disabled@.len() == 0,
    {
        LanguagesConfig { enabled: Vec::new(), disabled: Vec::new() }
    }
}

impl Default for OutputConfig {
    fn default() -> (res: Self)
        ensures
            res.colors,
            res.show_hints,
            res.show_diffs,
    {
        OutputConfig { colors: true, show_hints: true, show_diffs: true }
    }
}

impl Default for Config {
    fn default() -> (res: Self)
        ensures
            res.scan.max_depth == DEFAULT_MAX_DEPTH,
            res.scan.ignore.deep_view() == default_ignore_names(),
            res.scan.run_linters,
            res.scan.run_files,
            res.languages.enabled@.len() == 0,
            res.languages.disabled@.len() == 0,
            res.output.colors,
            res.output.show_hints,
            res.output.show_diffs,
    {
        Config {
            scan: ScanConfig::default(),
            languages: LanguagesConfig::default(),
            output: OutputConfig::default(),
        }
    }
}

/// Some name of the list occurs in the path.
pub open spec fn names_in_path(names: Seq<Seq<char>>, path: Seq<char>) -> bool {
    exists|i: int| 0 <= i < names.len() && has_substring(path, #[trigger] names[i])
}

/// Some entry of the list is the language, case apart; `lower` is the
/// lower-cased name of the language.
pub open spec fn lists_language(list: Seq<Seq<char>>, lower: Seq<char>) -> bool {
    exists|i: int| 0 <= i < list.len() && lowercase_of(#[trigger] list[i]) == lower
}

/// Whether a language is checked: never when it is disabled; otherwise
/// always when no language is enabled by name, and else only when it is.
pub open spec fn language_enabled(
    enabled: Seq<Seq<char>>,
    disabled: Seq<Seq<char>>,
    lower: Seq<char>,
) -> bool {
    !lists_language(disabled, lower) && (enabled.len() == 0 || lists_language(enabled, lower))
}

/// Whether some entry of the list is the language, case apart.
pub fn list_has_language(list: &Vec<String>, lower: &str) -> (res: bool)
    ensures
        res == lists_language(list.deep_view(), lower@),
{
    let mut i: usize = 0;
    while i < list.len()
        invariant
            i <= list.len(),
            forall|k: int| 0 <= k < i ==> lowercase_of(#[trigger] list.deep_view()[k]) != lower@,
        decreases list.len() - i,
    {
        let entry = list[i].as_str().to_lowercase();
        assert(list.deep_view()[i as int] == list[i as int]@);
        if entry.as_str().eq(lower) {
            return true;
        }
        i = i + 1;
    }
    false
}

impl Config {
    /// Whether a scan skips the path: it does where the path holds one of
    /// the names to ignore.
    pub fn should_ignore(&self, path: &str) -> (res: bool)
        ensures
            res == names_in_path(self.scan.ignore.deep_view(), path@),
    {
        let mut i: usize = 0;
        while i < self.scan.ignore.len()
            invariant
                i <= self.scan.ignore.len(),
                forall|k: int|
                    0 <= k < i ==> !has_substring(path@, #[trigger] self.scan.ignore.deep_view()[k]),
            decreases self.scan.ignore.len() - i,
        {
            assert(self.scan.ignore.deep_view()[i as int] == self.scan.ignore[i as int]@);
            if contains(path, self.scan.ignore[i].as_str()) {
                return true;
            }
            i = i + 1;
        }
        false
    }

    /// Whether a language is checked; names are compared case apart.
    pub fn is_language_enabled(&self, lang: &str) -> (res: bool)
        ensures
            res == language_enabled(
                self.languages.enabled.deep_view(),
                self.languages.disabled.deep_view(),
                lowercase_of(lang@),
            ),
    {
        let lower = lang.to_lowercase();
        if list_has_language(&self.languages.disabled, lower.as_str()) {
            return false;
        }
        if self.languages.enabled.len() == 0 {
            return true;
        }
        list_has_language(&self.languages.enabled, lower.as_str())
    }

    /// A settings file with every setting at its default, and comments.
    pub fn example_config() -> (res: String)
        ensures
            res@ == EXAMPLE_CONFIG@,
    {
        String::from_str(EXAMPLE_CONFIG)
    }
}

/// The text of the example settings file.
pub const EXAMPLE_CONFIG: &'static str = r#"# EssentialsCode Configuration
# Place this file in your project root as .essentialscode.toml
# or in ~/.config/essentialscode.toml for global settings

[scan]
# Maximum directory depth for scanning
max_depth = 5

# Directories to ignore during scanning
ignore = [
    "node_modules",
    ".git",
    "target",
    ".venv",
    "venv",
    "__pycache__",
    "dist",
    "build",
    ".next",
]

# Run language-specific linters (e.g., pylint for Python)
run_linters = true

# Run files to detect runtime errors
run_files = true

[languages]
# Languages to check (empty = all supported)
# enabled = ["python", "rust", "typescript"]

# Languages to skip
# disabled = ["cpp"]

[output]
# Use colors in terminal output
colors = true

# Show hints for fixing errors
show_hints = true

# Show before/after diffs in fix suggestions
show_diffs = true
"#;

} // verus!
