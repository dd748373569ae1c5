//! What a project scan decides: which languages a tree holds, which files
//! each toolchain is run on, and what to make of what a toolchain printed.
//! Walking the tree and running the toolchains is the caller's part.

use crate::fixer::{analysis_of, analyze_error, Analysis, AnalysisView};
use crate::parser::Language;
use crate::pattern::{captures, compiles, regex_captures, regex_compiles};
use crate::parser::{check_patterns, found_group, found_text, patterns_compile};
use crate::text::{
    after_prefix, contains, has_substring, lines, lines_of, lowercase_of, strip_prefix, trimmed_of,
};
use vstd::prelude::*;
use vstd::string::*;

verus! {

// ------------------------------------------------- language names

/// The language that a lower-cased name given by a user stands for.
pub open spec fn language_named(lower: Seq<char>) -> Language {
    if lower == "cpp"@ || lower == "c++"@ || lower == "c"@ {
        Language::Cpp
    } else if lower == "python"@ || lower == "py"@ {
        Language::Python
    } else if lower == "javascript"@ || lower == "js"@ {
        Language::JavaScript
    } else if lower == "typescript"@ || lower == "ts"@ {
        Language::TypeScript
    } else if lower == "rust"@ || lower == "rs"@ {
        Language::Rust
    } else {
        Language::Unknown
    }
}

/// The language that a lower-cased name stands for.
pub fn language_from_lower(lower: &str) -> (res: Language)
    ensures
        res == language_named(lower@),
{
    if lower.eq("cpp") || lower.eq("c++") || lower.eq("c") {
        Language::Cpp
    } else if lower.eq("python") || lower.eq("py") {
        Language::Python
    } else if lower.eq("javascript") || lower.eq("js") {
        Language::JavaScript
    } else if lower.eq("typescript") || lower.eq("ts") {
        Language::TypeScript
    } else if lower.eq("rust") || lower.eq("rs") {
        Language::Rust
    } else {
        Language::Unknown
    }
}

/// The language that a name given by a user stands for, whatever its case.
pub fn detect_language_from_str(s: &str) -> (res: Language)
    ensures
        res == language_named(lowercase_of(s@)),
{
    let lower = s.to_lowercase();
    language_from_lower(lower.as_str())
}

// ------------------------------------------------ file extensions

/// The language of a file with the given lower-cased extension.
pub open spec fn extension_language(lower: Seq<char>) -> Option<Language> {
    if lower == "cpp"@ || lower == "cc"@ || lower == "cxx"@ || lower == "c"@ || lower == "h"@
        || lower == "hpp"@ {
        Some(Language::Cpp)
    } else if lower == "py"@ {
        Some(Language::Python)
    } else if lower == "js"@ || lower == "jsx"@ || lower == "mjs"@ {
        Some(Language::JavaScript)
    } else if lower == "ts"@ || lower == "tsx"@ {
        Some(Language::TypeScript)
    } else if lower == "rs"@ {
        Some(Language::Rust)
    } else {
        None
    }
}

/// The language of a file with the given lower-cased extension.
pub fn language_for_extension(lower: &str) -> (res: Option<Language>)
    ensures
        res == extension_language(lower@),
{
    if lower.eq("cpp") || lower.eq("cc") || lower.eq("cxx") || lower.eq("c") || lower.eq("h")
        || lower.eq("hpp") {
        Some(Language::Cpp)
    } else if lower.eq("py") {
        Some(Language::Python)
    } else if lower.eq("js") || lower.eq("jsx") || lower.eq("mjs") {
        Some(Language::JavaScript)
    } else if lower.eq("ts") || lower.eq("tsx") {
        Some(Language::TypeScript)
    } else if lower.eq("rs") {
        Some(Language::Rust)
    } else {
        None
    }
}

/// The languages of a run of file extensions, each once, in the order in
/// which they first appear.
pub open spec fn languages_of(extensions: Seq<Seq<char>>) -> Seq<Language>
    decreases extensions.len(),
{
    if extensions.len() == 0 {
        Seq::empty()
    } else {
        let earlier = languages_of(extensions.drop_last());
        match extension_language(lowercase_of(extensions.last())) {
            Some(language) => if earlier.contains(language) {
                earlier
            } else {
                earlier.push(language)
            },
            None => earlier,
        }
    }
}

/// `languages_of` lists no language twice, and lists exactly the languages
/// that some extension stands for.
pub proof fn lemma_languages_of(extensions: Seq<Seq<char>>)
    ensures
        languages_of(extensions).no_duplicates(),
        forall|language: Language| #[trigger]
            languages_of(extensions).contains(language) <==> exists|i: int|
                0 <= i < extensions.len() && extension_language(
                    lowercase_of(#[trigger] extensions[i]),
                ) == Some(language),
    decreases extensions.len(),
{
    if extensions.len() > 0 {
        let front = extensions.drop_last();
        let earlier = languages_of(front);
        let found = extension_language(lowercase_of(extensions.last()));
        let all = languages_of(extensions);
        lemma_languages_of(front);
        assert forall|language: Language| #[trigger] all.contains(language) implies exists|i: int|
            0 <= i < extensions.len() && extension_language(
                lowercase_of(#[trigger] extensions[i]),
            ) == Some(language) by {
            if earlier.contains(language) {
                let i = choose|i: int|
                    0 <= i < front.len() && extension_language(lowercase_of(#[trigger] front[i]))
                        == Some(language);
                assert(extensions[i] == front[i]);
            } else {
                let k = choose|k: int| 0 <= k < all.len() && all[k] == language;
                assert(all == earlier.push(found.unwrap()));
                assert(k == earlier.len()) by {
                    if k < earlier.len() {
                        assert(earlier[k] == language);
                    }
                }
                assert(extensions[extensions.len() - 1] == extensions.last());
            }
        }
        assert forall|language: Language|
            (exists|i: int|
                0 <= i < extensions.len() && extension_language(
                    lowercase_of(#[trigger] extensions[i]),
                ) == Some(language)) implies #[trigger] all.contains(language) by {
            let i = choose|i: int|
                0 <= i < extensions.len() && extension_language(
                    lowercase_of(#[trigger] extensions[i]),
                ) == Some(language);
            if i < front.len() {
                assert(front[i] == extensions[i]);
                assert(earlier.contains(language));
                let k = choose|k: int| 0 <= k < earlier.len() && earlier[k] == language;
                assert(all[k] == language);
            } else {
                assert(found == Some(language));
                if earlier.contains(language) {
                } else {
                    assert(all[earlier.len() as int] == language);
                }
            }
        }
    }
}

/// Whether a language is already listed.
fn listed(languages: &Vec<Language>, language: Language) -> (res: bool)
    ensures
        res == languages@.contains(language),
{
    let mut i: usize = 0;
    while i < languages.len()
        invariant
            i <= languages.len(),
            forall|k: int| 0 <= k < i ==> languages@[k] != language,
        decreases languages.len() - i,
    {
        if languages[i] == language {
            return true;
        }
        i = i + 1;
    }
    false
}

/// The languages that a tree holds, from the extensions of its files: each
/// language once, in the order in which the walk first met it.
pub fn detect_languages(extensions: &Vec<String>) -> (res: Vec<Language>)
    ensures
        res@ == languages_of(extensions.deep_view()),
        res@.no_duplicates(),
        forall|language: Language| #[trigger]
            res@.contains(language) <==> exists|i: int|
                0 <= i < extensions.len() && extension_language(
                    lowercase_of(#[trigger] extensions.deep_view()[i]),
                ) == Some(language),
{
    let mut langs: Vec<Language> = Vec::new();
    let mut i: usize = 0;
    while i < extensions.len()
        invariant
            i <= extensions.len(),
            langs@ == languages_of(extensions.deep_view().take(i as int)),
        decreases extensions.len() - i,
    {
        let lower = extensions[i].as_str().to_lowercase();
        let found = language_for_extension(lower.as_str());
        proof {
            let next = extensions.deep_view().take(i + 1);
            assert(next.drop_last() =~= extensions.deep_view().take(i as int));
            assert(next.last() == extensions[i as int]@);
        }
        if let Some(language) = found {
            if !listed(&langs, language) {
                langs.push(language);
            }
        }
        i = i + 1;
    }
    proof {
        assert(extensions.deep_view().take(extensions.len() as int) =~= extensions.deep_view());
        lemma_languages_of(extensions.deep_view());
    }
    langs
}

// ------------------------------------------------- file selection

/// Lower-cased extensions of the C++ files that are compiled on their own.
pub open spec fn cpp_source_extension(lower: Seq<char>) -> bool {
    lower == "cpp"@ || lower == "cc"@ || lower == "cxx"@ || lower == "c"@
}

/// Lower-cased extensions of the files that Node runs.
pub open spec fn javascript_source_extension(lower: Seq<char>) -> bool {
    lower == "js"@ || lower == "jsx"@ || lower == "mjs"@
}

/// Paths that the Python check leaves alone: caches, virtual environments,
/// vendored packages and repository data.
pub open spec fn outside_python_sources(path: Seq<char>) -> bool {
    has_substring(path, "__pycache__"@) || has_substring(path, ".venv"@) || has_substring(
        path,
        "venv"@,
    ) || has_substring(path, "node_modules"@) || has_substring(path, ".git"@)
}

/// Whether a lower-cased extension is that of a C++ file compiled on its own.
pub fn is_cpp_source_extension(lower: &str) -> (res: bool)
    ensures
        res == cpp_source_extension(lower@),
{
    lower.eq("cpp") || lower.eq("cc") || lower.eq("cxx") || lower.eq("c")
}

/// Whether a lower-cased extension is that of a file that Node runs.
pub fn is_javascript_source_extension(lower: &str) -> (res: bool)
    ensures
        res == javascript_source_extension(lower@),
{
    lower.eq("js") || lower.eq("jsx") || lower.eq("mjs")
}

/// Whether the C++ check compiles a file with this extension: headers are
/// not compiled on their own.
pub fn is_cpp_source(extension: &str) -> (res: bool)
    ensures
        res == cpp_source_extension(lowercase_of(extension@)),
{
    let lower = extension.to_lowercase();
    is_cpp_source_extension(lower.as_str())
}

/// Whether a path lies where the Python check does not look.
pub fn is_outside_python_sources(path: &str) -> (res: bool)
    ensures
        res == outside_python_sources(path@),
{
    contains(path, "__pycache__") || contains(path, ".venv") || contains(path, "venv") || contains(
        path,
        "node_modules",
    ) || contains(path, ".git")
}

/// Whether the Python check looks at a file with this extension and path.
pub fn is_python_source(extension: &str, path: &str) -> (res: bool)
    ensures
        res == (lowercase_of(extension@) == "py"@ && !outside_python_sources(path@)),
{
    let lower = extension.to_lowercase();
    lower.as_str().eq("py") && !is_outside_python_sources(path)
}

/// Whether the JavaScript check looks at a file with this extension and
/// path: installed packages are left alone.
pub fn is_javascript_source(extension: &str, path: &str) -> (res: bool)
    ensures
        res == (javascript_source_extension(lowercase_of(extension@)) && !has_substring(
            path@,
            "node_modules"@,
        )),
{
    let lower = extension.to_lowercase();
    is_javascript_source_extension(lower.as_str()) && !contains(path, "node_modules")
}

/// The prefix that Windows puts before a canonical path.
pub const VERBATIM_PREFIX: &'static str = r"\\?\";

/// A path as it is shown and handed to a toolchain: without the verbatim
/// prefix, if it has one.
pub open spec fn shown_path(path: Seq<char>) -> Seq<char> {
    match after_prefix(path, VERBATIM_PREFIX@) {
        Some(rest) => rest,
        None => path,
    }
}

/// A path without the verbatim prefix, if it has one.
pub fn display_path(path: &str) -> (res: &str)
    ensures
        res@ == shown_path(path@),
{
    match strip_prefix(path, VERBATIM_PREFIX) {
        Some(rest) => rest,
        None => path,
    }
}

// -------------------------------------------------- lines of output

/// The lines that mention `needle`.
pub open spec fn mentions(needle: Seq<char>) -> spec_fn(Seq<char>) -> bool {
    |line: Seq<char>| has_substring(line, needle)
}

/// The lines that mention `a` or `b`.
pub open spec fn mentions_either(a: Seq<char>, b: Seq<char>) -> spec_fn(Seq<char>) -> bool {
    |line: Seq<char>| has_substring(line, a) || has_substring(line, b)
}

/// No line satisfies `p`.
pub open spec fn none_of(lines: Seq<Seq<char>>, p: spec_fn(Seq<char>) -> bool) -> bool {
    forall|k: int| 0 <= k < lines.len() ==> !p(#[trigger] lines[k])
}

/// Line `k` is the first that satisfies `p`.
pub open spec fn first_at(lines: Seq<Seq<char>>, p: spec_fn(Seq<char>) -> bool, k: int) -> bool {
    0 <= k < lines.len() && p(lines[k]) && none_of(lines.take(k), p)
}

/// The index of the first line that satisfies `p`.
pub open spec fn first_index(lines: Seq<Seq<char>>, p: spec_fn(Seq<char>) -> bool) -> Option<int>
    decreases lines.len(),
{
    if lines.len() == 0 {
        None
    } else {
        match first_index(lines.drop_last(), p) {
            Some(k) => Some(k),
            None => if p(lines.last()) {
                Some(lines.len() - 1)
            } else {
                None
            },
        }
    }
}

/// `first_index` finds the first line that satisfies `p`, or finds that
/// there is none.
pub proof fn lemma_first_index(lines: Seq<Seq<char>>, p: spec_fn(Seq<char>) -> bool)
    ensures
        match first_index(lines, p) {
            Some(k) => first_at(lines, p, k),
            None => none_of(lines, p),
        },
    decreases lines.len(),
{
    if lines.len() > 0 {
        let front = lines.drop_last();
        lemma_first_index(front, p);
        match first_index(front, p) {
            Some(k) => {
                assert(front[k] == lines[k]);
                assert(front.take(k) =~= lines.take(k));
            },
            None => {
                if p(lines.last()) {
                    assert(lines.take(lines.len() - 1) =~= front);
                } else {
                    assert forall|k: int| 0 <= k < lines.len() implies !p(#[trigger] lines[k]) by {
                        if k < front.len() {
                            assert(front[k] == lines[k]);
                        }
                    }
                }
            },
        }
    }
}

/// The first line that satisfies `p` is unique.
pub proof fn lemma_first_at_is_first_index(
    lines: Seq<Seq<char>>,
    p: spec_fn(Seq<char>) -> bool,
    k: int,
)
    requires
        first_at(lines, p, k),
    ensures
        first_index(lines, p) == Some(k),
{
    lemma_first_index(lines, p);
    match first_index(lines, p) {
        Some(j) => {
            if j < k {
                assert(lines.take(k)[j] == lines[j]);
            }
            if k < j {
                assert(lines.take(j)[k] == lines[k]);
            }
        },
        None => {},
    }
}

/// An index into a text's lines, as a machine integer.
pub open spec fn as_index(k: Option<int>) -> Option<usize> {
    match k {
        Some(k) => Some(k as usize),
        None => None,
    }
}

/// The index of the first line that mentions `a` or `b`.
pub fn first_mentioning_either(lines: &Vec<String>, a: &str, b: &str) -> (res: Option<usize>)
    ensures
        res == as_index(first_index(lines.deep_view(), mentions_either(a@, b@))),
        res matches Some(k) ==> k < lines.len(),
{
    let ghost p = mentions_either(a@, b@);
    let mut i: usize = 0;
    while i < lines.len()
        invariant
            i <= lines.len(),
            p == mentions_either(a@, b@),
            none_of(lines.deep_view().take(i as int), p),
        decreases lines.len() - i,
    {
        if contains(lines[i].as_str(), a) || contains(lines[i].as_str(), b) {
            proof {
                assert(lines.deep_view()[i as int] == lines[i as int]@);
                lemma_first_at_is_first_index(lines.deep_view(), p, i as int);
            }
            return Some(i);
        }
        proof {
            assert forall|k: int| 0 <= k < i + 1 implies !p(
                #[trigger] lines.deep_view().take(i + 1)[k],
            ) by {
                if k < i {
                    assert(lines.deep_view().take(i as int)[k] == lines.deep_view().take(i + 1)[k]);
                }
            }
        }
        i = i + 1;
    }
    proof {
        assert(lines.deep_view().take(lines.len() as int) =~= lines.deep_view());
        lemma_first_index(lines.deep_view(), p);
    }
    None
}

/// The lines that mention `needle`, in order.
pub fn lines_mentioning(lines: &Vec<String>, needle: &str) -> (res: Vec<String>)
    ensures
        res.deep_view() == lines.deep_view().filter(mentions(needle@)),
{
    let ghost p = mentions(needle@);
    let mut found: Vec<String> = Vec::new();
    let mut i: usize = 0;
    proof {
        reveal(Seq::filter);
        assert(lines.deep_view().take(0).filter(p) =~= found.deep_view());
    }
    while i < lines.len()
        invariant
            i <= lines.len(),
            p == mentions(needle@),
            found.deep_view() == lines.deep_view().take(i as int).filter(p),
        decreases lines.len() - i,
    {
        let ghost before = found.deep_view();
        let hit = contains(lines[i].as_str(), needle);
        if hit {
            found.push(lines[i].clone());
        }
        proof {
            reveal(Seq::filter);
            let next = lines.deep_view().take(i + 1);
            assert(next.drop_last() =~= lines.deep_view().take(i as int));
            assert(next.last() == lines[i as int]@);
            if hit {
                assert(found.deep_view() =~= before.push(lines[i as int]@));
            }
        }
        i = i + 1;
    }
    proof {
        assert(lines.deep_view().take(lines.len() as int) =~= lines.deep_view());
    }
    found
}

/// Predicates that agree on every line find the same first line.
pub proof fn lemma_first_index_same(
    lines: Seq<Seq<char>>,
    p: spec_fn(Seq<char>) -> bool,
    q: spec_fn(Seq<char>) -> bool,
)
    requires
        forall|line: Seq<char>| #[trigger] p(line) == q(line),
    ensures
        first_index(lines, p) == first_index(lines, q),
    decreases lines.len(),
{
    if lines.len() > 0 {
        lemma_first_index_same(lines.drop_last(), p, q);
    }
}

/// The index of the first line that mentions `needle`.
pub fn first_mentioning(lines: &Vec<String>, needle: &str) -> (res: Option<usize>)
    ensures
        res == as_index(first_index(lines.deep_view(), mentions(needle@))),
        res matches Some(k) ==> k < lines.len(),
{
    proof {
        lemma_first_index_same(
            lines.deep_view(),
            mentions(needle@),
            mentions_either(needle@, needle@),
        );
    }
    first_mentioning_either(lines, needle, needle)
}

/// Every line without its leading and trailing whitespace.
pub open spec fn trimmed_lines(lines: Seq<Seq<char>>) -> Seq<Seq<char>> {
    Seq::new(lines.len(), |k: int| trimmed_of(lines[k]))
}

/// Every line without its leading and trailing whitespace.
pub fn trim_all(lines: &Vec<String>) -> (res: Vec<String>)
    ensures
        res.deep_view() == trimmed_lines(lines.deep_view()),
{
    let mut trimmed: Vec<String> = Vec::new();
    let mut i: usize = 0;
    while i < lines.len()
        invariant
            i <= lines.len(),
            trimmed.len() == i,
            forall|k: int| 0 <= k < i ==> trimmed[k]@ == trimmed_of(#[trigger] lines[k]@),
        decreases lines.len() - i,
    {
        trimmed.push(String::from_str(lines[i].as_str().trim()));
        i = i + 1;
    }
    assert(trimmed.deep_view() =~= trimmed_lines(lines.deep_view()));
    trimmed
}

/// The first `n` lines, or all of them where there are fewer.
pub fn first_lines(lines: &Vec<String>, n: usize) -> (res: Vec<String>)
    ensures
        res.deep_view() == lines.deep_view().take(
            if n <= lines.len() {
                n as int
            } else {
                lines.len() as int
            },
        ),
{
    let end = if n <= lines.len() {
        n
    } else {
        lines.len()
    };
    let mut head: Vec<String> = Vec::new();
    let mut i: usize = 0;
    while i < end
        invariant
            i <= end <= lines.len(),
            head.len() == i,
            forall|k: int| 0 <= k < i ==> head[k]@ == #[trigger] lines[k]@,
        decreases end - i,
    {
        head.push(lines[i].clone());
        i = i + 1;
    }
    assert(head.deep_view() =~= lines.deep_view().take(end as int));
    head
}

// ------------------------------------------------- compiler output

/// What a compiler run printed, read as a list of errors.
#[derive(Debug, Clone)]
pub struct CompilerReport {
    /// The lines that announce an error, in order.
    pub error_lines: Vec<String>,
    /// The analysis of the whole output, made once where there is an error.
    pub analysis: Option<Analysis>,
}

/// The mathematical model of a [`CompilerReport`].
pub struct CompilerReportView {
    pub error_lines: Seq<Seq<char>>,
    pub analysis: Option<AnalysisView>,
}

impl View for CompilerReport {
    type V = CompilerReportView;

    open spec fn view(&self) -> CompilerReportView {
        CompilerReportView {
            error_lines: self.error_lines.deep_view(),
            analysis: self.analysis.deep_view(),
        }
    }
}

impl DeepView for CompilerReport {
    type V = CompilerReportView;

    open spec fn deep_view(&self) -> CompilerReportView {
        self@
    }
}

impl CompilerReport {
    /// The number of errors.
    pub fn count(&self) -> (res: usize)
        ensures
            res == self@.error_lines.len(),
    {
        self.error_lines.len()
    }
}

/// The report on a compiler's output: every line that holds `error:` counts
/// as one error, and the whole output is analysed if there is any.
pub open spec fn compiler_report_of(output: Seq<char>) -> CompilerReportView {
    let error_lines = lines_of(output).filter(mentions("error:"@));
    CompilerReportView {
        error_lines,
        analysis: if error_lines.len() > 0 {
            Some(analysis_of(output))
        } else {
            None
        },
    }
}

/// Reads what a compiler printed.
pub fn process_compiler_errors(output: &str) -> (res: CompilerReport)
    ensures
        res@ == compiler_report_of(output@),
{
    let all = lines(output);
    let error_lines = lines_mentioning(&all, "error:");
    let analysis = if error_lines.len() > 0 {
        Some(analyze_error(output))
    } else {
        None
    };
    CompilerReport { error_lines, analysis }
}

// --------------------------------------------------- Python output

/// What a Python run printed on failure.
#[derive(Debug, Clone)]
pub struct PythonReport {
    /// The traceback's file markers up to the error, trimmed.
    pub locations: Vec<String>,
    /// The first line that names an error or an exception, trimmed.
    pub error: Option<String>,
    /// The analysis of the whole output, where an error line was found.
    pub analysis: Option<Analysis>,
}

/// The mathematical model of a [`PythonReport`].
pub struct PythonReportView {
    pub locations: Seq<Seq<char>>,
    pub error: Option<Seq<char>>,
    pub analysis: Option<AnalysisView>,
}

impl View for PythonReport {
    type V = PythonReportView;

    open spec fn view(&self) -> PythonReportView {
        PythonReportView {
            locations: self.locations.deep_view(),
            error: self.error.deep_view(),
            analysis: self.analysis.deep_view(),
        }
    }
}

impl DeepView for PythonReport {
    type V = PythonReportView;

    open spec fn deep_view(&self) -> PythonReportView {
        self@
    }
}

impl PythonReport {
    /// The number of errors: a run reports at most one.
    pub fn count(&self) -> (res: usize)
        ensures
            res == if self@.error is Some {
                1usize
            } else {
                0usize
            },
    {
        if self.error.is_some() {
            1
        } else {
            0
        }
    }
}

/// A traceback's file marker, trimmed; `None` for any other line.
pub open spec fn location_text() -> spec_fn(Seq<char>) -> Option<Seq<char>> {
    |line: Seq<char>|
        if has_substring(line, "File \""@) && has_substring(line, ", line "@) {
            Some(trimmed_of(line))
        } else {
            None
        }
}

/// The report on the lines of a failed Python run: the lines are read up to
/// the first that names an error or an exception.
pub open spec fn python_report_from(lines: Seq<Seq<char>>, analysis: AnalysisView) -> PythonReportView {
    match first_index(lines, mentions_either("Error:"@, "Exception:"@)) {
        Some(k) => PythonReportView {
            locations: lines.take(k + 1).filter_map(location_text()),
            error: Some(trimmed_of(lines[k])),
            analysis: Some(analysis),
        },
        None => PythonReportView {
            locations: lines.filter_map(location_text()),
            error: None,
            analysis: None,
        },
    }
}

/// The report on what a failed Python run printed. Output that holds neither
/// a traceback nor an error gives an empty report.
pub open spec fn python_report_of(stderr: Seq<char>) -> PythonReportView {
    if has_substring(stderr, "Traceback"@) || has_substring(stderr, "Error:"@) {
        python_report_from(lines_of(stderr), analysis_of(stderr))
    } else {
        PythonReportView { locations: Seq::empty(), error: None, analysis: None }
    }
}

/// The file markers among the first `end` lines, trimmed.
pub fn python_locations(lines: &Vec<String>, end: usize) -> (res: Vec<String>)
    requires
        end <= lines.len(),
    ensures
        res.deep_view() == lines.deep_view().take(end as int).filter_map(location_text()),
{
    let ghost f = location_text();
    let mut found: Vec<String> = Vec::new();
    let mut i: usize = 0;
    assert(lines.deep_view().take(0).filter_map(f) =~= found.deep_view());
    while i < end
        invariant
            i <= end <= lines.len(),
            f == location_text(),
            found.deep_view() == lines.deep_view().take(i as int).filter_map(f),
        decreases end - i,
    {
        let ghost before = found.deep_view();
        let line = lines[i].as_str();
        let hit = contains(line, "File \"") && contains(line, ", line ");
        if hit {
            found.push(String::from_str(line.trim()));
        }
        proof {
            lines.deep_view().lemma_filter_map_take_succ(f, i as int);
            assert(lines.deep_view()[i as int] == lines[i as int]@);
            if hit {
                assert(found.deep_view() =~= before + seq![trimmed_of(lines[i as int]@)]);
            } else {
                assert(found.deep_view() =~= before + Seq::<Seq<char>>::empty());
            }
        }
        i = i + 1;
    }
    found
}

/// Reads what a failed Python run printed.
pub fn process_python_error(stderr: &str) -> (res: PythonReport)
    ensures
        res@ == python_report_of(stderr@),
{
    if contains(stderr, "Traceback") || contains(stderr, "Error:") {
        let all = lines(stderr);
        proof {
            lemma_first_index(all.deep_view(), mentions_either("Error:"@, "Exception:"@));
        }
        match first_mentioning_either(&all, "Error:", "Exception:") {
            Some(k) => {
                let locations = python_locations(&all, k + 1);
                let error = String::from_str(all[k].as_str().trim());
                assert(all.deep_view()[k as int] == all[k as int]@);
                PythonReport { locations, error: Some(error), analysis: Some(analyze_error(stderr)) }
            },
            None => {
                let locations = python_locations(&all, all.len());
                assert(all.deep_view().take(all.len() as int) =~= all.deep_view());
                PythonReport { locations, error: None, analysis: None }
            },
        }
    } else {
        let locations: Vec<String> = Vec::new();
        assert(locations.deep_view() =~= Seq::<Seq<char>>::empty());
        PythonReport { locations, error: None, analysis: None }
    }
}

/// The lines of a linter's output that report an error: those that hold an
/// error code, where the output is not blank.
pub open spec fn pylint_errors_of(stdout: Seq<char>) -> Seq<Seq<char>> {
    if trimmed_of(stdout).len() > 0 && has_substring(stdout, ": E"@) {
        lines_of(stdout).filter(mentions(": E"@))
    } else {
        Seq::empty()
    }
}

/// The lines of a linter's output that report an error.
pub fn pylint_errors(stdout: &str) -> (res: Vec<String>)
    ensures
        res.deep_view() == pylint_errors_of(stdout@),
{
    if !stdout.trim().is_empty() && contains(stdout, ": E") {
        let all = lines(stdout);
        lines_mentioning(&all, ": E")
    } else {
        let none: Vec<String> = Vec::new();
        assert(none.deep_view() =~= Seq::<Seq<char>>::empty());
        none
    }
}

// ----------------------------------------------- JavaScript output

/// Node's message about a module that it cannot find.
pub const JS_MODULE_PATTERN: &'static str = r"Cannot find module '([^']+)'";

/// Checks that the engine accepts every pattern that reading diagnostics
/// and toolchain output relies on.
pub fn check_all_patterns() -> (res: bool)
    ensures
        res == (patterns_compile() && regex_compiles(JS_MODULE_PATTERN@)),
{
    check_patterns() && compiles(JS_MODULE_PATTERN)
}

/// What a Node run printed on failure.
#[derive(Debug, Clone)]
pub enum JsReport {
    /// A module could not be found; its name, or `unknown`.
    MissingModule { module: String },
    /// A syntax error, with the line that states it where there is one.
    Syntax { statement: Option<String>, analysis: Analysis },
    /// A reference or type error, with the line that states it.
    Runtime { line: String, analysis: Analysis },
    /// Some other error, with the line that states it.
    Other { line: String },
    /// An error that no line states: the head of the output.
    Excerpt { lines: Vec<String> },
    /// No error.
    Clean,
}

/// The mathematical model of a [`JsReport`].
pub enum JsReportView {
    MissingModule { module: Seq<char> },
    Syntax { statement: Option<Seq<char>>, analysis: AnalysisView },
    Runtime { line: Seq<char>, analysis: AnalysisView },
    Other { line: Seq<char> },
    Excerpt { lines: Seq<Seq<char>> },
    Clean,
}

impl View for JsReport {
    type V = JsReportView;

    open spec fn view(&self) -> JsReportView {
        match *self {
            JsReport::MissingModule { module } => JsReportView::MissingModule { module: module@ },
            JsReport::Syntax { statement, analysis } => JsReportView::Syntax {
                statement: statement.deep_view(),
                analysis: analysis@,
            },
            JsReport::Runtime { line, analysis } => JsReportView::Runtime {
                line: line@,
                analysis: analysis@,
            },
            JsReport::Other { line } => JsReportView::Other { line: line@ },
            JsReport::Excerpt { lines } => JsReportView::Excerpt { lines: lines.deep_view() },
            JsReport::Clean => JsReportView::Clean,
        }
    }
}

impl DeepView for JsReport {
    type V = JsReportView;

    open spec fn deep_view(&self) -> JsReportView {
        self@
    }
}

impl JsReport {
    /// The number of errors: a run reports at most one.
    pub fn count(&self) -> (res: usize)
        ensures
            res == if self@ is Clean {
                0usize
            } else {
                1usize
            },
    {
        match self {
            JsReport::Clean => 0,
            _ => 1,
        }
    }
}

/// How many lines of output stand in for an error that no line states.
pub const EXCERPT_LINES: usize = 5;

/// The name of the module that a run could not find.
pub open spec fn missing_module(found: Option<Seq<Option<Seq<char>>>>) -> Seq<char> {
    match found_group(found, 1) {
        Some(module) => module,
        None => "unknown"@,
    }
}

/// The trimmed line that states a reference or type error, where the output
/// names one of the two.
pub open spec fn runtime_error_line(stderr: Seq<char>, lines: Seq<Seq<char>>) -> Option<Seq<char>> {
    if has_substring(stderr, "ReferenceError"@) || has_substring(stderr, "TypeError"@) {
        match first_index(lines, mentions("Error:"@)) {
            Some(k) => Some(trimmed_of(lines[k])),
            None => None,
        }
    } else {
        None
    }
}

/// The report on output that names an error of no particular kind: the
/// first trimmed line that states an error, else the head of the output.
pub open spec fn other_error(lines: Seq<Seq<char>>) -> JsReportView {
    match first_index(trimmed_lines(lines), mentions_either("Error:"@, "error:"@)) {
        Some(k) => JsReportView::Other { line: trimmed_of(lines[k]) },
        None => JsReportView::Excerpt {
            lines: lines.take(
                if EXCERPT_LINES <= lines.len() {
                    EXCERPT_LINES as int
                } else {
                    lines.len() as int
                },
            ),
        },
    }
}

/// The report on what a failed Node run printed, given its lines, the match
/// of the missing-module pattern and the analysis of the whole. Rules in
/// order: a missing module, a syntax error, a reference or type error that
/// some line states, any other error, no error.
pub open spec fn js_report_from(
    stderr: Seq<char>,
    lines: Seq<Seq<char>>,
    module: Option<Seq<Option<Seq<char>>>>,
    analysis: AnalysisView,
) -> JsReportView {
    if has_substring(stderr, "Cannot find module"@) {
        JsReportView::MissingModule { module: missing_module(module) }
    } else if has_substring(stderr, "SyntaxError"@) {
        JsReportView::Syntax {
            statement: match first_index(lines, mentions("SyntaxError:"@)) {
                Some(k) => Some(trimmed_of(lines[k])),
                None => None,
            },
            analysis,
        }
    } else {
        match runtime_error_line(stderr, lines) {
            Some(line) => JsReportView::Runtime { line, analysis },
            None => if has_substring(stderr, "Error"@) {
                other_error(lines)
            } else {
                JsReportView::Clean
            },
        }
    }
}

/// The report on what a failed Node run printed.
pub open spec fn js_report_of(stderr: Seq<char>) -> JsReportView {
    js_report_from(
        stderr,
        lines_of(stderr),
        regex_captures(JS_MODULE_PATTERN@, stderr),
        analysis_of(stderr),
    )
}

/// The trimmed text of line `k`.
fn trimmed_line(lines: &Vec<String>, k: usize) -> (res: String)
    requires
        k < lines.len(),
    ensures
        res@ == trimmed_of(lines.deep_view()[k as int]),
{
    assert(lines.deep_view()[k as int] == lines[k as int]@);
    String::from_str(lines[k].as_str().trim())
}

fn other_error_report(lines: &Vec<String>) -> (res: JsReport)
    ensures
        res@ == other_error(lines.deep_view()),
{
    let trimmed = trim_all(lines);
    proof {
        lemma_first_index(trimmed.deep_view(), mentions_either("Error:"@, "error:"@));
    }
    match first_mentioning_either(&trimmed, "Error:", "error:") {
        Some(k) => JsReport::Other { line: trimmed_line(lines, k) },
        None => JsReport::Excerpt { lines: first_lines(lines, EXCERPT_LINES) },
    }
}

/// Reads what a failed Node run printed.
pub fn process_js_error(stderr: &str) -> (res: JsReport)
    ensures
        res@ == js_report_of(stderr@),
{
    if contains(stderr, "Cannot find module") {
        let found = captures(JS_MODULE_PATTERN, stderr);
        let module = match found_text(&found, 1) {
            Some(module) => String::from_str(module),
            None => String::from_str("unknown"),
        };
        return JsReport::MissingModule { module };
    }
    let all = lines(stderr);
    if contains(stderr, "SyntaxError") {
        proof {
            lemma_first_index(all.deep_view(), mentions("SyntaxError:"@));
        }
        let statement = match first_mentioning(&all, "SyntaxError:") {
            Some(k) => Some(trimmed_line(&all, k)),
            None => None,
        };
        return JsReport::Syntax { statement, analysis: analyze_error(stderr) };
    }
    if contains(stderr, "ReferenceError") || contains(stderr, "TypeError") {
        proof {
            lemma_first_index(all.deep_view(), mentions("Error:"@));
        }
        if let Some(k) = first_mentioning(&all, "Error:") {
            return JsReport::Runtime {
                line: trimmed_line(&all, k),
                analysis: analyze_error(stderr),
            };
        }
    }
    if contains(stderr, "Error") {
        other_error_report(&all)
    } else {
        JsReport::Clean
    }
}

// ----------------------------------------------- Python source text

/// Something in a Python source file that tends to fail at run time.
#[derive(Debug, Clone, PartialEq, Eq)]
pub struct PythonWarning {
    /// The 1-based number of the first line that shows it, where one line
    /// does.
    pub line: Option<usize>,
    pub message: String,
}

/// The mathematical model of a [`PythonWarning`].
pub struct PythonWarningView {
    pub line: Option<usize>,
    pub message: Seq<char>,
}

impl View for PythonWarning {
    type V = PythonWarningView;

    open spec fn view(&self) -> PythonWarningView {
        PythonWarningView { line: self.line, message: self.message@ }
    }
}

impl DeepView for PythonWarning {
    type V = PythonWarningView;

    open spec fn deep_view(&self) -> PythonWarningView {
        self@
    }
}

pub const GETENV_WARNING: &'static str =
    "Possible None value from getenv - check if variable exists";

pub const GET_WARNING: &'static str = "Dictionary .get() may return None - handle None case";

pub const JSON_WARNING: &'static str = "Direct JSON access may raise KeyError - use .get()";

pub const DICT_WARNING: &'static str = "Direct dict access may raise KeyError if key missing";

pub const LOWER_WARNING: &'static str = "Calling .lower() on possibly None value";

pub const UPPER_WARNING: &'static str = "Calling .upper() on possibly None value";

pub const DATE_WARNING: &'static str = "fromisoformat() will fail on None or invalid string";

pub const URL_WARNING: &'static str =
    "Using getenv in URL string - will be 'None' if env var missing!";

/// The warning for a risky call: given where the source holds the call and
/// some line of it does, the warning with the number of the first such line.
pub open spec fn call_warning(
    content: Seq<char>,
    lines: Seq<Seq<char>>,
    call: Seq<char>,
    message: Seq<char>,
) -> Seq<PythonWarningView> {
    if has_substring(content, call) {
        match first_index(lines, mentions(call)) {
            Some(k) => seq![PythonWarningView { line: Some((k + 1) as usize), message }],
            None => Seq::empty(),
        }
    } else {
        Seq::empty()
    }
}

/// Whether a source builds a URL from an environment variable inside a
/// formatted string.
pub open spec fn formats_url_from_env(content: Seq<char>) -> bool {
    has_substring(content, "f\""@) && has_substring(content, "os.getenv"@) && (has_substring(
        content,
        "http"@,
    ) || has_substring(content, "url"@) || has_substring(content, "URL"@))
}

/// The warning that goes with `formats_url_from_env`; it names no line.
pub open spec fn url_warning(content: Seq<char>) -> Seq<PythonWarningView> {
    if formats_url_from_env(content) {
        seq![PythonWarningView { line: None, message: URL_WARNING@ }]
    } else {
        Seq::empty()
    }
}

/// The warnings for a Python source with the given lines: one per risky
/// call, in a fixed order, then the one about URLs.
pub open spec fn python_warnings_from(content: Seq<char>, lines: Seq<Seq<char>>) -> Seq<
    PythonWarningView,
> {
    call_warning(content, lines, "os.getenv("@, GETENV_WARNING@) + call_warning(
        content,
        lines,
        ".get(\""@,
        GET_WARNING@,
    ) + call_warning(content, lines, "r.json()["@, JSON_WARNING@) + call_warning(
        content,
        lines,
        "data[\""@,
        DICT_WARNING@,
    ) + call_warning(content, lines, ".lower()"@, LOWER_WARNING@) + call_warning(
        content,
        lines,
        ".upper()"@,
        UPPER_WARNING@,
    ) + call_warning(content, lines, "datetime.fromisoformat("@, DATE_WARNING@) + url_warning(
        content,
    )
}

/// The warnings for a Python source.
pub open spec fn python_warnings_of(content: Seq<char>) -> Seq<PythonWarningView> {
    python_warnings_from(content, lines_of(content))
}

fn add_call_warning(
    warnings: &mut Vec<PythonWarning>,
    content: &str,
    lines: &Vec<String>,
    call: &str,
    message: &str,
)
    ensures
        final(warnings).deep_view() == old(warnings).deep_view() + call_warning(
            content@,
            lines.deep_view(),
            call@,
            message@,
        ),
{
    let ghost before = warnings.deep_view();
    if contains(content, call) {
        proof {
            lemma_first_index(lines.deep_view(), mentions(call@));
        }
        if let Some(k) = first_mentioning(lines, call) {
            warnings.push(PythonWarning { line: Some(k + 1), message: String::from_str(message) });
            assert(warnings.deep_view() =~= before + seq![
                PythonWarningView { line: Some((k + 1) as usize), message: message@ },
            ]);
            return ;
        }
    }
    assert(warnings.deep_view() =~= before + Seq::<PythonWarningView>::empty());
}

/// Looks a Python source with the given lines over for calls that tend to
/// fail at run time.
pub fn python_warnings_for(content: &str, lines: &Vec<String>) -> (res: Vec<PythonWarning>)
    ensures
        res.deep_view() == python_warnings_from(content@, lines.deep_view()),
{
    let mut warnings: Vec<PythonWarning> = Vec::new();
    assert(warnings.deep_view() =~= Seq::<PythonWarningView>::empty());
    add_call_warning(&mut warnings, content, lines, "os.getenv(", GETENV_WARNING);
    add_call_warning(&mut warnings, content, lines, ".get(\"", GET_WARNING);
    add_call_warning(&mut warnings, content, lines, "r.json()[", JSON_WARNING);
    add_call_warning(&mut warnings, content, lines, "data[\"", DICT_WARNING);
    add_call_warning(&mut warnings, content, lines, ".lower()", LOWER_WARNING);
    add_call_warning(&mut warnings, content, lines, ".upper()", UPPER_WARNING);
    add_call_warning(&mut warnings, content, lines, "datetime.fromisoformat(", DATE_WARNING);
    let ghost before = warnings.deep_view();
    if contains(content, "f\"") && contains(content, "os.getenv") && (contains(content, "http")
        || contains(content, "url") || contains(content, "URL")) {
        warnings.push(PythonWarning { line: None, message: String::from_str(URL_WARNING) });
        assert(warnings.deep_view() =~= before + seq![
            PythonWarningView { line: None, message: URL_WARNING@ },
        ]);
    } else {
        assert(warnings.deep_view() =~= before + Seq::<PythonWarningView>::empty());
    }
    assert(Seq::<PythonWarningView>::empty() + call_warning(
        content@,
        lines.deep_view(),
        "os.getenv("@,
        GETENV_WARNING@,
    ) =~= call_warning(content@, lines.deep_view(), "os.getenv("@, GETENV_WARNING@));
    warnings
}

/// Looks the text of a Python source file over for calls that tend to fail
/// at run time.
pub fn analyze_python_file(content: &str) -> (res: Vec<PythonWarning>)
    ensures
        res.deep_view() == python_warnings_of(content@),
{
    let all = lines(content);
    python_warnings_for(content, &all)
}

} // verus!
