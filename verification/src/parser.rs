//! Turning raw diagnostic text into a typed, language-tagged record.
//!
//! Each language has an extractor built from ordered pattern matches; the
//! dispatcher tries them in a fixed priority and keeps the first record.

use crate::pattern::{captures, compiles, group, group_text, regex_captures, regex_compiles};
use crate::text::{contains, has_substring, lowercase_of, parse_position, position_of};
use vstd::prelude::*;
use vstd::string::*;

verus! {

/// The source languages whose diagnostics are understood.
#[derive(Debug, Clone, Copy, PartialEq, Eq, Structural)]
pub enum Language {
    Cpp,
    Python,
    JavaScript,
    TypeScript,
    Rust,
    Unknown,
}

/// The canonical display name of each language.
pub open spec fn language_name(language: Language) -> Seq<char> {
    match language {
        Language::Cpp => "C++"@,
        Language::Python => "Python"@,
        Language::JavaScript => "JavaScript"@,
        Language::TypeScript => "TypeScript"@,
        Language::Rust => "Rust"@,
        Language::Unknown => "Unknown"@,
    }
}

impl Language {
    /// The canonical display name of the language.
    pub fn display_name(&self) -> (res: String)
        ensures
            res@ == language_name(*self),
    {
        match self {
            Language::Cpp => String::from_str("C++"),
            Language::Python => String::from_str("Python"),
            Language::JavaScript => String::from_str("JavaScript"),
            Language::TypeScript => String::from_str("TypeScript"),
            Language::Rust => String::from_str("Rust"),
            Language::Unknown => String::from_str("Unknown"),
        }
    }
}

/// The class of a diagnostic, with the piece of text that the class singles
/// out. `Unknown` takes whatever fits no other class.
#[derive(Debug, Clone, PartialEq)]
pub enum ErrorType {
    MissingInclude(String),
    MissingSemicolon,
    UndeclaredVariable(String),
    SyntaxError(String),
    IndentationError,
    ImportError(String),
    TypeError(String),
    ModuleNotFound(String),
    BorrowError(String),
    KeyError(String),
    AttributeError(String),
    ValueError(String),
    MissingEnvVar(String),
    RequestsError(String),
    Unknown(String),
}

/// The mathematical model of an [`ErrorType`].
pub enum ErrorKind {
    MissingInclude(Seq<char>),
    MissingSemicolon,
    UndeclaredVariable(Seq<char>),
    SyntaxError(Seq<char>),
    IndentationError,
    ImportError(Seq<char>),
    TypeError(Seq<char>),
    ModuleNotFound(Seq<char>),
    BorrowError(Seq<char>),
    KeyError(Seq<char>),
    AttributeError(Seq<char>),
    ValueError(Seq<char>),
    MissingEnvVar(Seq<char>),
    RequestsError(Seq<char>),
    Unknown(Seq<char>),
}

impl View for ErrorType {
    type V = ErrorKind;

    open spec fn view(&self) -> ErrorKind {
        match *self {
            ErrorType::MissingInclude(s) => ErrorKind::MissingInclude(s@),
            ErrorType::MissingSemicolon => ErrorKind::MissingSemicolon,
            ErrorType::UndeclaredVariable(s) => ErrorKind::UndeclaredVariable(s@),
            ErrorType::SyntaxError(s) => ErrorKind::SyntaxError(s@),
            ErrorType::IndentationError => ErrorKind::IndentationError,
            ErrorType::ImportError(s) => ErrorKind::ImportError(s@),
            ErrorType::TypeError(s) => ErrorKind::TypeError(s@),
            ErrorType::ModuleNotFound(s) => ErrorKind::ModuleNotFound(s@),
            ErrorType::BorrowError(s) => ErrorKind::BorrowError(s@),
            ErrorType::KeyError(s) => ErrorKind::KeyError(s@),
            ErrorType::AttributeError(s) => ErrorKind::AttributeError(s@),
            ErrorType::ValueError(s) => ErrorKind::ValueError(s@),
            ErrorType::MissingEnvVar(s) => ErrorKind::MissingEnvVar(s@),
            ErrorType::RequestsError(s) => ErrorKind::RequestsError(s@),
            ErrorType::Unknown(s) => ErrorKind::Unknown(s@),
        }
    }
}

/// One diagnostic, as an extractor found it in the text.
#[derive(Debug, Clone)]
pub struct ParsedError {
    pub file: String,
    pub line: Option<u32>,
    pub column: Option<u32>,
    pub message: String,
    pub error_type: ErrorType,
    pub language: Language,
}

/// The mathematical model of a [`ParsedError`].
pub struct Diagnostic {
    pub file: Seq<char>,
    pub line: Option<u32>,
    pub column: Option<u32>,
    pub message: Seq<char>,
    pub kind: ErrorKind,
    pub language: Language,
}

impl View for ParsedError {
    type V = Diagnostic;

    open spec fn view(&self) -> Diagnostic {
        Diagnostic {
            file: self.file@,
            line: self.line,
            column: self.column,
            message: self.message@,
            kind: self.error_type@,
            language: self.language,
        }
    }
}

impl DeepView for ParsedError {
    type V = Diagnostic;

    open spec fn deep_view(&self) -> Diagnostic {
        self@
    }
}

/// Lines and columns are counted from 1: a diagnostic that names a line or a
/// column names one that is at least 1.
pub open spec fn one_based(d: Diagnostic) -> bool {
    &&& d.line matches Some(line) ==> line >= 1
    &&& d.column matches Some(column) ==> column >= 1
}

/// The groups of a match, or of no match.
pub type Found = Option<Vec<Option<String>>>;

/// Group `i` of a match that may not exist.
pub open spec fn found_group(found: Option<Seq<Option<Seq<char>>>>, i: int) -> Option<Seq<char>> {
    match found {
        Some(groups) => group(groups, i),
        None => None,
    }
}

/// Group `i` of a match that may not exist.
pub fn found_text(found: &Found, i: usize) -> (res: Option<&str>)
    ensures
        res.deep_view() == found_group(found.deep_view(), i as int),
{
    match found {
        Some(groups) => group_text(groups, i),
        None => None,
    }
}

// ---------------------------------------------------------------- C++

/// A compiler line: `<file>.<ext>:<line>:<col>: error: <message>`.
pub const CPP_PATTERN: &'static str = r"([^\s:]+\.(cpp|cc|cxx|c|h|hpp)):(\d+):(\d+): error: (.+)";

/// An include directive, with the header as group 1.
pub const INCLUDE_PATTERN: &'static str = r"#include <([^>]+)>";

/// The two ways in which compilers name an undeclared identifier.
pub const CPP_UNDECLARED_PATTERN: &'static str =
    r"'([^']+)' was not declared|use of undeclared identifier '([^']+)'";

/// The standard header that a lower-cased message hints at: the first of the
/// known tokens that occurs in it decides.
pub open spec fn header_hint(lower: Seq<char>) -> Option<Seq<char>> {
    if has_substring(lower, "vector"@) {
        Some("vector"@)
    } else if has_substring(lower, "string"@) {
        Some("string"@)
    } else if has_substring(lower, "cout"@) || has_substring(lower, "cin"@) {
        Some("iostream"@)
    } else if has_substring(lower, "map"@) {
        Some("map"@)
    } else if has_substring(lower, "set"@) {
        Some("set"@)
    } else {
        None
    }
}

/// The header whose absence a message reports. Only messages about a name
/// that is no member of `std`, or was not declared, report one; an include
/// directive found in the full text wins over the hint in the message.
pub open spec fn missing_header(
    lower: Seq<char>,
    directive: Option<Seq<Option<Seq<char>>>>,
) -> Option<Seq<char>> {
    if has_substring(lower, "is not a member of 'std'"@) || has_substring(
        lower,
        "was not declared"@,
    ) {
        match found_group(directive, 1) {
            Some(header) => Some(header),
            None => header_hint(lower),
        }
    } else {
        None
    }
}

/// The name captured by either branch of the undeclared-identifier pattern.
pub open spec fn undeclared_name(undeclared: Option<Seq<Option<Seq<char>>>>) -> Option<Seq<char>> {
    match found_group(undeclared, 1) {
        Some(name) => Some(name),
        None => found_group(undeclared, 2),
    }
}

/// The class of a C++ message, given its lower-cased form, the match of the
/// include pattern in the full text and the match of the undeclared-identifier
/// pattern in the lower-cased message. Rules in order: missing header, missing
/// semicolon, undeclared name, unknown.
pub open spec fn cpp_kind_from(
    message: Seq<char>,
    lower: Seq<char>,
    directive: Option<Seq<Option<Seq<char>>>>,
    undeclared: Option<Seq<Option<Seq<char>>>>,
) -> ErrorKind {
    match missing_header(lower, directive) {
        Some(header) => ErrorKind::MissingInclude(header),
        None => if has_substring(lower, "expected ';'"@) {
            ErrorKind::MissingSemicolon
        } else {
            match undeclared_name(undeclared) {
                Some(name) => ErrorKind::UndeclaredVariable(name),
                None => ErrorKind::Unknown(message),
            }
        },
    }
}

/// The class of a C++ message found in the text `full`.
pub open spec fn cpp_kind(message: Seq<char>, full: Seq<char>) -> ErrorKind {
    cpp_kind_from(
        message,
        lowercase_of(message),
        regex_captures(INCLUDE_PATTERN@, full),
        regex_captures(CPP_UNDECLARED_PATTERN@, lowercase_of(message)),
    )
}

fn header_hint_of(lower: &str) -> (res: Option<String>)
    ensures
        res.deep_view() == header_hint(lower@),
{
    if contains(lower, "vector") {
        Some(String::from_str("vector"))
    } else if contains(lower, "string") {
        Some(String::from_str("string"))
    } else if contains(lower, "cout") || contains(lower, "cin") {
        Some(String::from_str("iostream"))
    } else if contains(lower, "map") {
        Some(String::from_str("map"))
    } else if contains(lower, "set") {
        Some(String::from_str("set"))
    } else {
        None
    }
}

fn missing_header_of(lower: &str, directive: &Found) -> (res: Option<String>)
    ensures
        res.deep_view() == missing_header(lower@, directive.deep_view()),
{
    if contains(lower, "is not a member of 'std'") || contains(lower, "was not declared") {
        match found_text(directive, 1) {
            Some(header) => Some(String::from_str(header)),
            None => header_hint_of(lower),
        }
    } else {
        None
    }
}

/// Classifies a C++ message from its lower-cased form and the two pattern
/// matches that the rules consult.
pub fn classify_cpp_message(
    message: &str,
    lower: &str,
    directive: &Found,
    undeclared: &Found,
) -> (res: ErrorType)
    ensures
        res@ == cpp_kind_from(message@, lower@, directive.deep_view(), undeclared.deep_view()),
{
    if let Some(header) = missing_header_of(lower, directive) {
        return ErrorType::MissingInclude(header);
    }
    if contains(lower, "expected ';'") {
        return ErrorType::MissingSemicolon;
    }
    let name = match found_text(undeclared, 1) {
        Some(name) => Some(name),
        None => found_text(undeclared, 2),
    };
    match name {
        Some(name) => ErrorType::UndeclaredVariable(String::from_str(name)),
        None => ErrorType::Unknown(String::from_str(message)),
    }
}

/// Classifies a C++ message found in the text `full`.
pub fn detect_cpp_error_type(message: &str, full: &str) -> (res: ErrorType)
    ensures
        res@ == cpp_kind(message@, full@),
{
    let lower = message.to_lowercase();
    let directive = captures(INCLUDE_PATTERN, full);
    let undeclared = captures(CPP_UNDECLARED_PATTERN, lower.as_str());
    classify_cpp_message(message, lower.as_str(), &directive, &undeclared)
}

/// The record that a match of the C++ pattern gives, once its message has
/// been classified: the file, line, column and message groups must all be
/// there, and both numbers must be positions.
pub open spec fn cpp_diagnostic(groups: Seq<Option<Seq<char>>>, kind: ErrorKind) -> Option<
    Diagnostic,
> {
    match (group(groups, 1), group(groups, 3), group(groups, 4), group(groups, 5)) {
        (Some(file), Some(line), Some(column), Some(message)) => match (
            position_of(line),
            position_of(column),
        ) {
            (Some(l), Some(c)) => Some(
                Diagnostic {
                    file,
                    line: Some(l),
                    column: Some(c),
                    message,
                    kind,
                    language: Language::Cpp,
                },
            ),
            _ => None,
        },
        _ => None,
    }
}

/// What the C++ extractor makes of a text.
pub open spec fn cpp_error_of(input: Seq<char>) -> Option<Diagnostic> {
    match regex_captures(CPP_PATTERN@, input) {
        Some(groups) => match group(groups, 5) {
            Some(message) => cpp_diagnostic(groups, cpp_kind(message, input)),
            None => None,
        },
        None => None,
    }
}

/// Builds the record for a match of the C++ pattern whose message has been
/// classified as `kind`.
pub fn cpp_error_from(groups: &Vec<Option<String>>, kind: ErrorType) -> (res: Option<ParsedError>)
    ensures
        res.deep_view() == cpp_diagnostic(groups.deep_view(), kind@),
        res matches Some(e) ==> one_based(e@),
{
    let file = match group_text(groups, 1) {
        Some(t) => t,
        None => { return None; },
    };
    let line = match group_text(groups, 3) {
        Some(t) => t,
        None => { return None; },
    };
    let column = match group_text(groups, 4) {
        Some(t) => t,
        None => { return None; },
    };
    let message = match group_text(groups, 5) {
        Some(t) => t,
        None => { return None; },
    };
    let line = match parse_position(line) {
        Some(n) => n,
        None => { return None; },
    };
    let column = match parse_position(column) {
        Some(n) => n,
        None => { return None; },
    };
    Some(
        ParsedError {
            file: String::from_str(file),
            line: Some(line),
            column: Some(column),
            message: String::from_str(message),
            error_type: kind,
            language: Language::Cpp,
        },
    )
}

/// The C++ extractor: `<file>.<ext>:<line>:<col>: error: <message>`.
pub fn parse_cpp_error(input: &str) -> (res: Option<ParsedError>)
    ensures
        res.deep_view() == cpp_error_of(input@),
        res matches Some(e) ==> one_based(e@),
{
    match captures(CPP_PATTERN, input) {
        Some(groups) => match group_text(&groups, 5) {
            Some(message) => {
                let kind = detect_cpp_error_type(message, input);
                cpp_error_from(&groups, kind)
            },
            None => None,
        },
        None => None,
    }
}

// ------------------------------------------------------------- Python

/// A traceback's file marker: the path and the line.
pub const PYTHON_FILE_PATTERN: &'static str = r#"File "([^"]+\.py)", line (\d+)"#;

/// An exception line: the name of a known exception and its detail.
pub const PYTHON_ERROR_PATTERN: &'static str =
    r"(SyntaxError|IndentationError|NameError|ImportError|TypeError|ModuleNotFoundError|KeyError|AttributeError|ValueError|requests\.exceptions\.\w+): (.+)";

/// An exception of the `requests` library: its name and its detail.
pub const REQUESTS_PATTERN: &'static str = r"requests\.exceptions\.(\w+): (.+)";

/// The detail of a `NameError`, with the name as group 1.
pub const PYTHON_NAME_PATTERN: &'static str = r"name '([^']+)' is not defined";

/// The detail of a failed import, with the module as group 1.
pub const PYTHON_MODULE_PATTERN: &'static str = r"No module named '([^']+)'";

/// An exception name followed by its detail, as interpreters print them.
pub open spec fn labelled(name: Seq<char>, details: Seq<char>) -> Seq<char> {
    name + ": "@ + details
}

fn labelled_text(name: &str, details: &str) -> (res: String)
    ensures
        res@ == labelled(name@, details@),
{
    let mut text = String::from_str(name);
    text.append(": ");
    text.append(details);
    text
}

/// The class of an exception raised by the `requests` library: a missing
/// schema, or a detail that holds the text `None`, points at an unset
/// environment variable.
pub open spec fn requests_kind(name: Seq<char>, details: Seq<char>) -> ErrorKind {
    if name == "MissingSchema"@ || has_substring(details, "None"@) {
        ErrorKind::MissingEnvVar(details)
    } else {
        ErrorKind::RequestsError(labelled(name, details))
    }
}

/// The record for a match of the `requests` pattern. The file marker is
/// optional here: without one the file is `unknown.py` and the line absent,
/// as is a line that is no position.
pub open spec fn requests_diagnostic(
    file: Option<Seq<Option<Seq<char>>>>,
    requests: Seq<Option<Seq<char>>>,
) -> Option<Diagnostic> {
    match (group(requests, 1), group(requests, 2)) {
        (Some(name), Some(details)) => Some(
            Diagnostic {
                file: match found_group(file, 1) {
                    Some(path) => path,
                    None => "unknown.py"@,
                },
                line: match found_group(file, 2) {
                    Some(line) => position_of(line),
                    None => None,
                },
                column: None,
                message: "requests.exceptions."@ + name + ": "@ + details,
                kind: requests_kind(name, details),
                language: Language::Python,
            },
        ),
        _ => None,
    }
}

/// The class of a Python exception, given the matches of the undefined-name
/// and missing-module patterns in its detail.
pub open spec fn python_kind_from(
    name: Seq<char>,
    details: Seq<char>,
    undefined: Option<Seq<Option<Seq<char>>>>,
    module: Option<Seq<Option<Seq<char>>>>,
) -> ErrorKind {
    if name == "SyntaxError"@ {
        ErrorKind::SyntaxError(details)
    } else if name == "IndentationError"@ {
        ErrorKind::IndentationError
    } else if name == "NameError"@ {
        match found_group(undefined, 1) {
            Some(variable) => ErrorKind::UndeclaredVariable(variable),
            None => ErrorKind::Unknown(details),
        }
    } else if name == "ImportError"@ || name == "ModuleNotFoundError"@ {
        match found_group(module, 1) {
            Some(m) => ErrorKind::ImportError(m),
            None => ErrorKind::ImportError(details),
        }
    } else if name == "TypeError"@ {
        ErrorKind::TypeError(details)
    } else if name == "KeyError"@ {
        ErrorKind::KeyError(details)
    } else if name == "AttributeError"@ {
        ErrorKind::AttributeError(details)
    } else if name == "ValueError"@ {
        ErrorKind::ValueError(details)
    } else {
        ErrorKind::Unknown(details)
    }
}

/// The class of a Python exception.
pub open spec fn python_kind(name: Seq<char>, details: Seq<char>) -> ErrorKind {
    python_kind_from(
        name,
        details,
        regex_captures(PYTHON_NAME_PATTERN@, details),
        regex_captures(PYTHON_MODULE_PATTERN@, details),
    )
}

/// The record for a file marker and an exception line: the file and line
/// groups must be there and the line must be a position.
pub open spec fn python_diagnostic(
    file: Seq<Option<Seq<char>>>,
    name: Seq<char>,
    details: Seq<char>,
    kind: ErrorKind,
) -> Option<Diagnostic> {
    match (group(file, 1), group(file, 2)) {
        (Some(path), Some(line)) => match position_of(line) {
            Some(l) => Some(
                Diagnostic {
                    file: path,
                    line: Some(l),
                    column: None,
                    message: labelled(name, details),
                    kind,
                    language: Language::Python,
                },
            ),
            None => None,
        },
        _ => None,
    }
}

/// What the Python extractor makes of a text. A `requests` exception is
/// looked for first and needs no file marker; any other exception needs both
/// the marker and the exception line.
pub open spec fn python_error_of(input: Seq<char>) -> Option<Diagnostic> {
    let file = regex_captures(PYTHON_FILE_PATTERN@, input);
    let error = regex_captures(PYTHON_ERROR_PATTERN@, input);
    match regex_captures(REQUESTS_PATTERN@, input) {
        Some(requests) => requests_diagnostic(file, requests),
        None => match (file, found_group(error, 1), found_group(error, 2)) {
            (Some(marker), Some(name), Some(details)) => python_diagnostic(
                marker,
                name,
                details,
                python_kind(name, details),
            ),
            _ => None,
        },
    }
}

/// Classifies an exception raised by the `requests` library.
pub fn classify_requests_error(name: &str, details: &str) -> (res: ErrorType)
    ensures
        res@ == requests_kind(name@, details@),
{
    if name.eq("MissingSchema") || contains(details, "None") {
        ErrorType::MissingEnvVar(String::from_str(details))
    } else {
        ErrorType::RequestsError(labelled_text(name, details))
    }
}

/// Builds the record for a match of the `requests` pattern.
pub fn requests_error_from(file: &Found, requests: &Vec<Option<String>>) -> (res: Option<ParsedError>)
    ensures
        res.deep_view() == requests_diagnostic(file.deep_view(), requests.deep_view()),
        res matches Some(e) ==> one_based(e@),
{
    let name = match group_text(requests, 1) {
        Some(t) => t,
        None => { return None; },
    };
    let details = match group_text(requests, 2) {
        Some(t) => t,
        None => { return None; },
    };
    let path = match found_text(file, 1) {
        Some(path) => String::from_str(path),
        None => String::from_str("unknown.py"),
    };
    let line = match found_text(file, 2) {
        Some(line) => parse_position(line),
        None => None,
    };
    let mut message = String::from_str("requests.exceptions.");
    message.append(name);
    message.append(": ");
    message.append(details);
    Some(
        ParsedError {
            file: path,
            line,
            column: None,
            message,
            error_type: classify_requests_error(name, details),
            language: Language::Python,
        },
    )
}

/// Classifies a Python exception from its name, its detail and the matches
/// of the two patterns that the rules consult.
pub fn classify_python_error(
    name: &str,
    details: &str,
    undefined: &Found,
    module: &Found,
) -> (res: ErrorType)
    ensures
        res@ == python_kind_from(name@, details@, undefined.deep_view(), module.deep_view()),
{
    if name.eq("SyntaxError") {
        ErrorType::SyntaxError(String::from_str(details))
    } else if name.eq("IndentationError") {
        ErrorType::IndentationError
    } else if name.eq("NameError") {
        match found_text(undefined, 1) {
            Some(variable) => ErrorType::UndeclaredVariable(String::from_str(variable)),
            None => ErrorType::Unknown(String::from_str(details)),
        }
    } else if name.eq("ImportError") || name.eq("ModuleNotFoundError") {
        match found_text(module, 1) {
            Some(m) => ErrorType::ImportError(String::from_str(m)),
            None => ErrorType::ImportError(String::from_str(details)),
        }
    } else if name.eq("TypeError") {
        ErrorType::TypeError(String::from_str(details))
    } else if name.eq("KeyError") {
        ErrorType::KeyError(String::from_str(details))
    } else if name.eq("AttributeError") {
        ErrorType::AttributeError(String::from_str(details))
    } else if name.eq("ValueError") {
        ErrorType::ValueError(String::from_str(details))
    } else {
        ErrorType::Unknown(String::from_str(details))
    }
}

/// Classifies a Python exception.
pub fn detect_python_error_type(name: &str, details: &str) -> (res: ErrorType)
    ensures
        res@ == python_kind(name@, details@),
{
    let undefined = captures(PYTHON_NAME_PATTERN, details);
    let module = captures(PYTHON_MODULE_PATTERN, details);
    classify_python_error(name, details, &undefined, &module)
}

/// Builds the record for a file marker and an exception of class `kind`.
pub fn python_error_from(
    file: &Vec<Option<String>>,
    name: &str,
    details: &str,
    kind: ErrorType,
) -> (res: Option<ParsedError>)
    ensures
        res.deep_view() == python_diagnostic(file.deep_view(), name@, details@, kind@),
        res matches Some(e) ==> one_based(e@),
{
    let path = match group_text(file, 1) {
        Some(t) => t,
        None => { return None; },
    };
    let line = match group_text(file, 2) {
        Some(t) => t,
        None => { return None; },
    };
    let line = match parse_position(line) {
        Some(n) => n,
        None => { return None; },
    };
    Some(
        ParsedError {
            file: String::from_str(path),
            line: Some(line),
            column: None,
            message: labelled_text(name, details),
            error_type: kind,
            language: Language::Python,
        },
    )
}

/// The Python extractor: a `File "<path>.py", line <n>` marker and an
/// exception line, or an exception of the `requests` library alone.
pub fn parse_python_error(input: &str) -> (res: Option<ParsedError>)
    ensures
        res.deep_view() == python_error_of(input@),
        res matches Some(e) ==> one_based(e@),
{
    let file = captures(PYTHON_FILE_PATTERN, input);
    let error = captures(PYTHON_ERROR_PATTERN, input);
    match captures(REQUESTS_PATTERN, input) {
        Some(requests) => requests_error_from(&file, &requests),
        None => match (&file, found_text(&error, 1), found_text(&error, 2)) {
            (Some(marker), Some(name), Some(details)) => {
                let kind = detect_python_error_type(name, details);
                python_error_from(marker, name, details, kind)
            },
            _ => None,
        },
    }
}

// ------------------------------------------- JavaScript and TypeScript

/// A file token: `<file>.<ext>:<line>` and, optionally, `:<col>`.
pub const JS_FILE_PATTERN: &'static str = r"([^\s:]+\.(js|ts|jsx|tsx|mjs)):(\d+)(?::(\d+))?";

/// An error line: the name of a known error and its detail.
pub const JS_ERROR_PATTERN: &'static str = r"(SyntaxError|TypeError|ReferenceError): (.+)";

/// A TypeScript compiler line: `<file>.<ext>(<line>,<col>): error TS<code>: <message>`.
pub const TYPESCRIPT_PATTERN: &'static str =
    r"([^\s(]+\.(ts|tsx))\((\d+),(\d+)\): error (TS\d+): (.+)";

/// The message about a name that the compiler cannot find.
pub const TYPESCRIPT_NAME_PATTERN: &'static str = r"Cannot find name '([^']+)'";

/// The detail of a `ReferenceError`, with the name as group 1.
pub const JS_NAME_PATTERN: &'static str = r"(\w+) is not defined";

/// The class of a TypeScript compiler message, given its code and the match
/// of the unknown-name pattern in it.
pub open spec fn typescript_kind_from(
    code: Seq<char>,
    message: Seq<char>,
    unknown: Option<Seq<Option<Seq<char>>>>,
) -> ErrorKind {
    if code == "TS2304"@ || code == "TS2552"@ {
        match found_group(unknown, 1) {
            Some(name) => ErrorKind::UndeclaredVariable(name),
            None => ErrorKind::Unknown(message),
        }
    } else if code == "TS2307"@ {
        ErrorKind::ModuleNotFound(message)
    } else {
        ErrorKind::Unknown(message)
    }
}

/// The class of a TypeScript compiler message.
pub open spec fn typescript_kind(code: Seq<char>, message: Seq<char>) -> ErrorKind {
    typescript_kind_from(code, message, regex_captures(TYPESCRIPT_NAME_PATTERN@, message))
}

/// The record for a match of the TypeScript compiler pattern: file, line,
/// column, code and message must all be there, and both numbers must be
/// positions.
pub open spec fn typescript_diagnostic(groups: Seq<Option<Seq<char>>>, kind: ErrorKind) -> Option<
    Diagnostic,
> {
    match (
        group(groups, 1),
        group(groups, 3),
        group(groups, 4),
        group(groups, 5),
        group(groups, 6),
    ) {
        (Some(file), Some(line), Some(column), Some(code), Some(message)) => match (
            position_of(line),
            position_of(column),
        ) {
            (Some(l), Some(c)) => Some(
                Diagnostic {
                    file,
                    line: Some(l),
                    column: Some(c),
                    message: labelled(code, message),
                    kind,
                    language: Language::TypeScript,
                },
            ),
            _ => None,
        },
        _ => None,
    }
}

/// The class of a JavaScript runtime error, given the match of the
/// undefined-name pattern in its detail.
pub open spec fn js_kind_from(
    name: Seq<char>,
    details: Seq<char>,
    undefined: Option<Seq<Option<Seq<char>>>>,
) -> ErrorKind {
    if name == "SyntaxError"@ {
        ErrorKind::SyntaxError(details)
    } else if name == "ReferenceError"@ {
        match found_group(undefined, 1) {
            Some(variable) => ErrorKind::UndeclaredVariable(variable),
            None => ErrorKind::Unknown(details),
        }
    } else if name == "TypeError"@ {
        ErrorKind::TypeError(details)
    } else {
        ErrorKind::Unknown(details)
    }
}

/// The class of a JavaScript runtime error.
pub open spec fn js_kind(name: Seq<char>, details: Seq<char>) -> ErrorKind {
    js_kind_from(name, details, regex_captures(JS_NAME_PATTERN@, details))
}

/// The language that a file extension of the generic pattern stands for.
pub open spec fn js_language(extension: Seq<char>) -> Language {
    if extension == "ts"@ || extension == "tsx"@ {
        Language::TypeScript
    } else {
        Language::JavaScript
    }
}

/// The record for a file token and an error line found anywhere in the same
/// text: file, extension and line must be there and the line must be a
/// position; a column that is missing or no position is left out.
pub open spec fn js_diagnostic(
    file: Seq<Option<Seq<char>>>,
    name: Seq<char>,
    details: Seq<char>,
    kind: ErrorKind,
) -> Option<Diagnostic> {
    match (group(file, 1), group(file, 2), group(file, 3)) {
        (Some(path), Some(extension), Some(line)) => match position_of(line) {
            Some(l) => Some(
                Diagnostic {
                    file: path,
                    line: Some(l),
                    column: match group(file, 4) {
                        Some(column) => position_of(column),
                        None => None,
                    },
                    message: labelled(name, details),
                    kind,
                    language: js_language(extension),
                },
            ),
            None => None,
        },
        _ => None,
    }
}

/// What the JavaScript/TypeScript extractor makes of a text. The TypeScript
/// compiler shape is looked for first; the generic shape needs a file token
/// and an error line, which need not be adjacent.
pub open spec fn js_error_of(input: Seq<char>) -> Option<Diagnostic> {
    let file = regex_captures(JS_FILE_PATTERN@, input);
    let error = regex_captures(JS_ERROR_PATTERN@, input);
    match regex_captures(TYPESCRIPT_PATTERN@, input) {
        Some(groups) => match (group(groups, 5), group(groups, 6)) {
            (Some(code), Some(message)) => typescript_diagnostic(
                groups,
                typescript_kind(code, message),
            ),
            _ => None,
        },
        None => match (file, found_group(error, 1), found_group(error, 2)) {
            (Some(token), Some(name), Some(details)) => js_diagnostic(
                token,
                name,
                details,
                js_kind(name, details),
            ),
            _ => None,
        },
    }
}

/// Classifies a TypeScript compiler message from its code and the match of
/// the unknown-name pattern.
pub fn classify_typescript_error(code: &str, message: &str, unknown: &Found) -> (res: ErrorType)
    ensures
        res@ == typescript_kind_from(code@, message@, unknown.deep_view()),
{
    if code.eq("TS2304") || code.eq("TS2552") {
        match found_text(unknown, 1) {
            Some(name) => ErrorType::UndeclaredVariable(String::from_str(name)),
            None => ErrorType::Unknown(String::from_str(message)),
        }
    } else if code.eq("TS2307") {
        ErrorType::ModuleNotFound(String::from_str(message))
    } else {
        ErrorType::Unknown(String::from_str(message))
    }
}

/// Classifies a TypeScript compiler message.
pub fn detect_typescript_error_type(code: &str, message: &str) -> (res: ErrorType)
    ensures
        res@ == typescript_kind(code@, message@),
{
    let unknown = captures(TYPESCRIPT_NAME_PATTERN, message);
    classify_typescript_error(code, message, &unknown)
}

/// Builds the record for a match of the TypeScript compiler pattern whose
/// message has been classified as `kind`.
pub fn typescript_error_from(
    groups: &Vec<Option<String>>,
    kind: ErrorType,
) -> (res: Option<ParsedError>)
    ensures
        res.deep_view() == typescript_diagnostic(groups.deep_view(), kind@),
        res matches Some(e) ==> one_based(e@),
{
    let file = match group_text(groups, 1) {
        Some(t) => t,
        None => { return None; },
    };
    let line = match group_text(groups, 3) {
        Some(t) => t,
        None => { return None; },
    };
    let column = match group_text(groups, 4) {
        Some(t) => t,
        None => { return None; },
    };
    let code = match group_text(groups, 5) {
        Some(t) => t,
        None => { return None; },
    };
    let message = match group_text(groups, 6) {
        Some(t) => t,
        None => { return None; },
    };
    let line = match parse_position(line) {
        Some(n) => n,
        None => { return None; },
    };
    let column = match parse_position(column) {
        Some(n) => n,
        None => { return None; },
    };
    Some(
        ParsedError {
            file: String::from_str(file),
            line: Some(line),
            column: Some(column),
            message: labelled_text(code, message),
            error_type: kind,
            language: Language::TypeScript,
        },
    )
}

/// Classifies a JavaScript runtime error from its name, its detail and the
/// match of the undefined-name pattern.
pub fn classify_js_error(name: &str, details: &str, undefined: &Found) -> (res: ErrorType)
    ensures
        res@ == js_kind_from(name@, details@, undefined.deep_view()),
{
    if name.eq("SyntaxError") {
        ErrorType::SyntaxError(String::from_str(details))
    } else if name.eq("ReferenceError") {
        match found_text(undefined, 1) {
            Some(variable) => ErrorType::UndeclaredVariable(String::from_str(variable)),
            None => ErrorType::Unknown(String::from_str(details)),
        }
    } else if name.eq("TypeError") {
        ErrorType::TypeError(String::from_str(details))
    } else {
        ErrorType::Unknown(String::from_str(details))
    }
}

/// Classifies a JavaScript runtime error.
pub fn detect_js_error_type(name: &str, details: &str) -> (res: ErrorType)
    ensures
        res@ == js_kind(name@, details@),
{
    let undefined = captures(JS_NAME_PATTERN, details);
    classify_js_error(name, details, &undefined)
}

/// Builds the record for a file token and an error of class `kind`.
pub fn js_error_from(
    file: &Vec<Option<String>>,
    name: &str,
    details: &str,
    kind: ErrorType,
) -> (res: Option<ParsedError>)
    ensures
        res.deep_view() == js_diagnostic(file.deep_view(), name@, details@, kind@),
        res matches Some(e) ==> one_based(e@),
{
    let path = match group_text(file, 1) {
        Some(t) => t,
        None => { return None; },
    };
    let extension = match group_text(file, 2) {
        Some(t) => t,
        None => { return None; },
    };
    let line = match group_text(file, 3) {
        Some(t) => t,
        None => { return None; },
    };
    let line = match parse_position(line) {
        Some(n) => n,
        None => { return None; },
    };
    let column = match group_text(file, 4) {
        Some(column) => parse_position(column),
        None => None,
    };
    let language = if extension.eq("ts") || extension.eq("tsx") {
        Language::TypeScript
    } else {
        Language::JavaScript
    };
    Some(
        ParsedError {
            file: String::from_str(path),
            line: Some(line),
            column,
            message: labelled_text(name, details),
            error_type: kind,
            language,
        },
    )
}

/// The JavaScript/TypeScript extractor.
pub fn parse_js_error(input: &str) -> (res: Option<ParsedError>)
    ensures
        res.deep_view() == js_error_of(input@),
        res matches Some(e) ==> one_based(e@),
{
    let file = captures(JS_FILE_PATTERN, input);
    let error = captures(JS_ERROR_PATTERN, input);
    match captures(TYPESCRIPT_PATTERN, input) {
        Some(groups) => match (group_text(&groups, 5), group_text(&groups, 6)) {
            (Some(code), Some(message)) => {
                let kind = detect_typescript_error_type(code, message);
                typescript_error_from(&groups, kind)
            },
            _ => None,
        },
        None => match (&file, found_text(&error, 1), found_text(&error, 2)) {
            (Some(token), Some(name), Some(details)) => {
                let kind = detect_js_error_type(name, details);
                js_error_from(token, name, details, kind)
            },
            _ => None,
        },
    }
}

// --------------------------------------------------------------- Rust

/// An error line with its code; the message is group 1.
pub const RUST_ERROR_PATTERN: &'static str = r"error\[E\d+\]: (.+)";

/// A location line: file, line and column.
pub const RUST_LOCATION_PATTERN: &'static str = r"--> ([^:]+):(\d+):(\d+)";

/// The message about a value or a type that the compiler cannot find.
pub const RUST_NAME_PATTERN: &'static str = r"cannot find (?:value|type) `([^`]+)`";

/// The class of a Rust compiler message, given the match of the
/// unresolved-name pattern in it. Rules in order: a message that holds
/// `cannot find` and names the value or type is an undeclared name; a
/// message that holds `borrow` is a borrow error; any other is unknown.
pub open spec fn rust_kind_from(
    message: Seq<char>,
    unresolved: Option<Seq<Option<Seq<char>>>>,
) -> ErrorKind {
    if has_substring(message, "cannot find"@) && found_group(unresolved, 1) is Some {
        ErrorKind::UndeclaredVariable(found_group(unresolved, 1).unwrap())
    } else if has_substring(message, "borrow"@) {
        ErrorKind::BorrowError(message)
    } else {
        ErrorKind::Unknown(message)
    }
}

/// The class of a Rust compiler message.
pub open spec fn rust_kind(message: Seq<char>) -> ErrorKind {
    rust_kind_from(message, regex_captures(RUST_NAME_PATTERN@, message))
}

/// The record for a location line and an error message: file, line and
/// column must be there, and both numbers must be positions.
pub open spec fn rust_diagnostic(
    location: Seq<Option<Seq<char>>>,
    message: Seq<char>,
    kind: ErrorKind,
) -> Option<Diagnostic> {
    match (group(location, 1), group(location, 2), group(location, 3)) {
        (Some(file), Some(line), Some(column)) => match (
            position_of(line),
            position_of(column),
        ) {
            (Some(l), Some(c)) => Some(
                Diagnostic {
                    file,
                    line: Some(l),
                    column: Some(c),
                    message,
                    kind,
                    language: Language::Rust,
                },
            ),
            _ => None,
        },
        _ => None,
    }
}

/// What the Rust extractor makes of a text: it needs an `error[E<code>]:`
/// line and a `--> <file>:<line>:<col>` line, anywhere in the text.
pub open spec fn rust_error_of(input: Seq<char>) -> Option<Diagnostic> {
    let error = regex_captures(RUST_ERROR_PATTERN@, input);
    let location = regex_captures(RUST_LOCATION_PATTERN@, input);
    match (found_group(error, 1), location) {
        (Some(message), Some(place)) => rust_diagnostic(place, message, rust_kind(message)),
        _ => None,
    }
}

/// Classifies a Rust compiler message from the match of the unresolved-name
/// pattern.
pub fn classify_rust_error(message: &str, unresolved: &Found) -> (res: ErrorType)
    ensures
        res@ == rust_kind_from(message@, unresolved.deep_view()),
{
    if contains(message, "cannot find") {
        if let Some(name) = found_text(unresolved, 1) {
            return ErrorType::UndeclaredVariable(String::from_str(name));
        }
    }
    if contains(message, "borrow") {
        ErrorType::BorrowError(String::from_str(message))
    } else {
        ErrorType::Unknown(String::from_str(message))
    }
}

/// Classifies a Rust compiler message.
pub fn detect_rust_error_type(message: &str) -> (res: ErrorType)
    ensures
        res@ == rust_kind(message@),
{
    let unresolved = captures(RUST_NAME_PATTERN, message);
    classify_rust_error(message, &unresolved)
}

/// Builds the record for a location line and a message of class `kind`.
pub fn rust_error_from(
    location: &Vec<Option<String>>,
    message: &str,
    kind: ErrorType,
) -> (res: Option<ParsedError>)
    ensures
        res.deep_view() == rust_diagnostic(location.deep_view(), message@, kind@),
        res matches Some(e) ==> one_based(e@),
{
    let file = match group_text(location, 1) {
        Some(t) => t,
        None => { return None; },
    };
    let line = match group_text(location, 2) {
        Some(t) => t,
        None => { return None; },
    };
    let column = match group_text(location, 3) {
        Some(t) => t,
        None => { return None; },
    };
    let line = match parse_position(line) {
        Some(n) => n,
        None => { return None; },
    };
    let column = match parse_position(column) {
        Some(n) => n,
        None => { return None; },
    };
    Some(
        ParsedError {
            file: String::from_str(file),
            line: Some(line),
            column: Some(column),
            message: String::from_str(message),
            error_type: kind,
            language: Language::Rust,
        },
    )
}

/// The Rust extractor.
pub fn parse_rust_error(input: &str) -> (res: Option<ParsedError>)
    ensures
        res.deep_view() == rust_error_of(input@),
        res matches Some(e) ==> one_based(e@),
{
    let error = captures(RUST_ERROR_PATTERN, input);
    let location = captures(RUST_LOCATION_PATTERN, input);
    match (found_text(&error, 1), &location) {
        (Some(message), Some(place)) => {
            let kind = detect_rust_error_type(message);
            rust_error_from(place, message, kind)
        },
        _ => None,
    }
}

// ----------------------------------------------------------- Dispatch

/// What the dispatcher makes of a text: the record of the first extractor
/// that gives one, in the order C++, Python, JavaScript/TypeScript, Rust.
pub open spec fn parse_of(input: Seq<char>) -> Option<Diagnostic> {
    if cpp_error_of(input) is Some {
        cpp_error_of(input)
    } else if python_error_of(input) is Some {
        python_error_of(input)
    } else if js_error_of(input) is Some {
        js_error_of(input)
    } else {
        rust_error_of(input)
    }
}

/// Classifies a diagnostic text, or returns `None` where no extractor
/// recognises its shape.
pub fn parse_error(input: &str) -> (res: Option<ParsedError>)
    ensures
        res.deep_view() == parse_of(input@),
        res matches Some(e) ==> one_based(e@),
{
    if let Some(err) = parse_cpp_error(input) {
        return Some(err);
    }
    if let Some(err) = parse_python_error(input) {
        return Some(err);
    }
    if let Some(err) = parse_js_error(input) {
        return Some(err);
    }
    parse_rust_error(input)
}

// ----------------------------------------------------------- Patterns

/// Every pattern of the extractors is one that the engine accepts.
pub open spec fn patterns_compile() -> bool {
    &&& regex_compiles(CPP_PATTERN@)
    &&& regex_compiles(INCLUDE_PATTERN@)
    &&& regex_compiles(CPP_UNDECLARED_PATTERN@)
    &&& regex_compiles(PYTHON_FILE_PATTERN@)
    &&& regex_compiles(PYTHON_ERROR_PATTERN@)
    &&& regex_compiles(REQUESTS_PATTERN@)
    &&& regex_compiles(PYTHON_NAME_PATTERN@)
    &&& regex_compiles(PYTHON_MODULE_PATTERN@)
    &&& regex_compiles(JS_FILE_PATTERN@)
    &&& regex_compiles(JS_ERROR_PATTERN@)
    &&& regex_compiles(TYPESCRIPT_PATTERN@)
    &&& regex_compiles(TYPESCRIPT_NAME_PATTERN@)
    &&& regex_compiles(JS_NAME_PATTERN@)
    &&& regex_compiles(RUST_ERROR_PATTERN@)
    &&& regex_compiles(RUST_LOCATION_PATTERN@)
    &&& regex_compiles(RUST_NAME_PATTERN@)
}

/// Checks that the engine accepts every pattern of the extractors. A
/// pattern that it does not accept never matches, so a caller does well to
/// run this once, at startup, and to stop where it fails.
pub fn check_patterns() -> (res: bool)
    ensures
        res == patterns_compile(),
{
    compiles(CPP_PATTERN) && compiles(INCLUDE_PATTERN) && compiles(CPP_UNDECLARED_PATTERN)
        && compiles(PYTHON_FILE_PATTERN) && compiles(PYTHON_ERROR_PATTERN) && compiles(
        REQUESTS_PATTERN,
    ) && compiles(PYTHON_NAME_PATTERN) && compiles(PYTHON_MODULE_PATTERN) && compiles(
        JS_FILE_PATTERN,
    ) && compiles(JS_ERROR_PATTERN) && compiles(TYPESCRIPT_PATTERN) && compiles(
        TYPESCRIPT_NAME_PATTERN,
    ) && compiles(JS_NAME_PATTERN) && compiles(RUST_ERROR_PATTERN) && compiles(
        RUST_LOCATION_PATTERN,
    ) && compiles(RUST_NAME_PATTERN)
}

// --------------------------------------------------------------- Laws

/// Every extractor tags its records with its own language.
pub proof fn law_extractor_language(input: Seq<char>)
    ensures
        cpp_error_of(input) matches Some(d) ==> d.language == Language::Cpp,
        python_error_of(input) matches Some(d) ==> d.language == Language::Python,
        js_error_of(input) matches Some(d) ==> d.language == Language::JavaScript || d.language
            == Language::TypeScript,
        rust_error_of(input) matches Some(d) ==> d.language == Language::Rust,
{
}

/// A text of the C++ shape, whose line and column are positions, is read as
/// a C++ diagnostic: the captured file, line, column and message, and the
/// class that the C++ rules give the message.
pub proof fn law_cpp_shape(
    input: Seq<char>,
    groups: Seq<Option<Seq<char>>>,
    file: Seq<char>,
    line: u32,
    column: u32,
    message: Seq<char>,
)
    requires
        regex_captures(CPP_PATTERN@, input) == Some(groups),
        group(groups, 1) == Some(file),
        group(groups, 3) matches Some(digits) && position_of(digits) == Some(line),
        group(groups, 4) matches Some(digits) && position_of(digits) == Some(column),
        group(groups, 5) == Some(message),
    ensures
        parse_of(input) == Some(
            Diagnostic {
                file,
                line: Some(line),
                column: Some(column),
                message,
                kind: cpp_kind(message, input),
                language: Language::Cpp,
            },
        ),
{
}

/// A text with a Python file marker and an exception line, and without a
/// `requests` exception, is read as a Python diagnostic of the class that
/// the Python rules give the exception, unless it is C++ first.
pub proof fn law_python_shape(
    input: Seq<char>,
    marker: Seq<Option<Seq<char>>>,
    file: Seq<char>,
    line: u32,
    name: Seq<char>,
    details: Seq<char>,
)
    requires
        cpp_error_of(input) is None,
        regex_captures(REQUESTS_PATTERN@, input) is None,
        regex_captures(PYTHON_FILE_PATTERN@, input) == Some(marker),
        group(marker, 1) == Some(file),
        group(marker, 2) matches Some(digits) && position_of(digits) == Some(line),
        found_group(regex_captures(PYTHON_ERROR_PATTERN@, input), 1) == Some(name),
        found_group(regex_captures(PYTHON_ERROR_PATTERN@, input), 2) == Some(details),
    ensures
        parse_of(input) == Some(
            Diagnostic {
                file,
                line: Some(line),
                column: None,
                message: labelled(name, details),
                kind: python_kind(name, details),
                language: Language::Python,
            },
        ),
{
}

/// A text with an exception of the `requests` library is read as a Python
/// diagnostic, file marker or not, unless it is C++ first.
pub proof fn law_requests_shape(
    input: Seq<char>,
    requests: Seq<Option<Seq<char>>>,
    name: Seq<char>,
    details: Seq<char>,
)
    requires
        cpp_error_of(input) is None,
        regex_captures(REQUESTS_PATTERN@, input) == Some(requests),
        group(requests, 1) == Some(name),
        group(requests, 2) == Some(details),
    ensures
        parse_of(input) matches Some(d) && d.language == Language::Python && d.kind
            == requests_kind(name, details) && d.column is None,
        regex_captures(PYTHON_FILE_PATTERN@, input) is None ==> parse_of(input).unwrap().file
            == "unknown.py"@ && parse_of(input).unwrap().line is None,
{
}

/// A text of the TypeScript compiler's shape, whose line and column are
/// positions, is read as a TypeScript diagnostic of the class that the code
/// and the message give, unless it is C++ or Python first.
pub proof fn law_typescript_shape(
    input: Seq<char>,
    groups: Seq<Option<Seq<char>>>,
    file: Seq<char>,
    line: u32,
    column: u32,
    code: Seq<char>,
    message: Seq<char>,
)
    requires
        cpp_error_of(input) is None,
        python_error_of(input) is None,
        regex_captures(TYPESCRIPT_PATTERN@, input) == Some(groups),
        group(groups, 1) == Some(file),
        group(groups, 3) matches Some(digits) && position_of(digits) == Some(line),
        group(groups, 4) matches Some(digits) && position_of(digits) == Some(column),
        group(groups, 5) == Some(code),
        group(groups, 6) == Some(message),
    ensures
        parse_of(input) == Some(
            Diagnostic {
                file,
                line: Some(line),
                column: Some(column),
                message: labelled(code, message),
                kind: typescript_kind(code, message),
                language: Language::TypeScript,
            },
        ),
{
}

/// A text with a JavaScript file token and an error line, and not of the
/// TypeScript compiler's shape, is read as a JavaScript or TypeScript
/// diagnostic by its extension, unless it is C++ or Python first.
pub proof fn law_js_shape(
    input: Seq<char>,
    token: Seq<Option<Seq<char>>>,
    file: Seq<char>,
    extension: Seq<char>,
    line: u32,
    name: Seq<char>,
    details: Seq<char>,
)
    requires
        cpp_error_of(input) is None,
        python_error_of(input) is None,
        regex_captures(TYPESCRIPT_PATTERN@, input) is None,
        regex_captures(JS_FILE_PATTERN@, input) == Some(token),
        group(token, 1) == Some(file),
        group(token, 2) == Some(extension),
        group(token, 3) matches Some(digits) && position_of(digits) == Some(line),
        found_group(regex_captures(JS_ERROR_PATTERN@, input), 1) == Some(name),
        found_group(regex_captures(JS_ERROR_PATTERN@, input), 2) == Some(details),
    ensures
        parse_of(input) matches Some(d) && d.file == file && d.line == Some(line) && d.message
            == labelled(name, details) && d.kind == js_kind(name, details) && d.language
            == js_language(extension),
{
}

/// A text with a Rust error line and a location line, whose line and column
/// are positions, is read as a Rust diagnostic of the class that the Rust
/// rules give the message, unless another language reads it first.
pub proof fn law_rust_shape(
    input: Seq<char>,
    place: Seq<Option<Seq<char>>>,
    file: Seq<char>,
    line: u32,
    column: u32,
    message: Seq<char>,
)
    requires
        cpp_error_of(input) is None,
        python_error_of(input) is None,
        js_error_of(input) is None,
        found_group(regex_captures(RUST_ERROR_PATTERN@, input), 1) == Some(message),
        regex_captures(RUST_LOCATION_PATTERN@, input) == Some(place),
        group(place, 1) == Some(file),
        group(place, 2) matches Some(digits) && position_of(digits) == Some(line),
        group(place, 3) matches Some(digits) && position_of(digits) == Some(column),
    ensures
        parse_of(input) == Some(
            Diagnostic {
                file,
                line: Some(line),
                column: Some(column),
                message,
                kind: rust_kind(message),
                language: Language::Rust,
            },
        ),
{
}

/// The C++ rules apply in their fixed order. A message about a missing
/// name reports the header of an include directive found in the text rather
/// than the header that the message hints at, and the hints are tried in the
/// order `vector`, `string`, `cout` or `cin`, `map`, `set`. A missing
/// semicolon is recognised before an undeclared name is.
pub proof fn law_cpp_rule_order(
    message: Seq<char>,
    lower: Seq<char>,
    directive: Option<Seq<Option<Seq<char>>>>,
    undeclared: Option<Seq<Option<Seq<char>>>>,
)
    ensures
        ({
            let about_missing_name = has_substring(lower, "is not a member of 'std'"@)
                || has_substring(lower, "was not declared"@);
            let kind = cpp_kind_from(message, lower, directive, undeclared);
            &&& about_missing_name && found_group(directive, 1) is Some ==> kind
                == ErrorKind::MissingInclude(found_group(directive, 1).unwrap())
            &&& about_missing_name && found_group(directive, 1) is None && has_substring(
                lower,
                "vector"@,
            ) ==> kind == ErrorKind::MissingInclude("vector"@)
            &&& about_missing_name && found_group(directive, 1) is None && header_hint(lower)
                is Some ==> kind == ErrorKind::MissingInclude(header_hint(lower).unwrap())
            &&& missing_header(lower, directive) is None && has_substring(lower, "expected ';'"@)
                ==> kind == ErrorKind::MissingSemicolon
            &&& !about_missing_name ==> !(kind is MissingInclude)
            &&& kind is Unknown ==> kind == ErrorKind::Unknown(message)
        }),
{
}

/// The Rust rules apply in their fixed order: a message that holds `cannot
/// find` and names the value or type is an undeclared name; any other
/// message that holds `borrow` is a borrow error, also where it holds
/// `cannot find`; every other message is unknown.
pub proof fn law_rust_rule_order(message: Seq<char>, unresolved: Option<Seq<Option<Seq<char>>>>)
    ensures
        ({
            let named = has_substring(message, "cannot find"@) && found_group(unresolved, 1)
                is Some;
            let kind = rust_kind_from(message, unresolved);
            &&& named ==> kind == ErrorKind::UndeclaredVariable(found_group(unresolved, 1).unwrap())
            &&& !named && has_substring(message, "borrow"@) ==> kind == ErrorKind::BorrowError(
                message,
            )
            &&& !named && !has_substring(message, "borrow"@) ==> kind == ErrorKind::Unknown(message)
        }),
{
}

/// Whatever the text, a diagnostic read from it counts lines and columns
/// from 1: a position of 0 in the text is no position.
pub proof fn law_positions_are_one_based(input: Seq<char>)
    ensures
        cpp_error_of(input) matches Some(d) ==> one_based(d),
        python_error_of(input) matches Some(d) ==> one_based(d),
        js_error_of(input) matches Some(d) ==> one_based(d),
        rust_error_of(input) matches Some(d) ==> one_based(d),
        parse_of(input) matches Some(d) ==> one_based(d),
{
}

/// A text in which no language's markers are found gives no diagnostic.
pub proof fn law_no_markers(input: Seq<char>)
    requires
        regex_captures(CPP_PATTERN@, input) is None,
        regex_captures(REQUESTS_PATTERN@, input) is None,
        regex_captures(PYTHON_FILE_PATTERN@, input) is None || regex_captures(
            PYTHON_ERROR_PATTERN@,
            input,
        ) is None,
        regex_captures(TYPESCRIPT_PATTERN@, input) is None,
        regex_captures(JS_FILE_PATTERN@, input) is None || regex_captures(JS_ERROR_PATTERN@, input)
            is None,
        regex_captures(RUST_ERROR_PATTERN@, input) is None || regex_captures(
            RUST_LOCATION_PATTERN@,
            input,
        ) is None,
    ensures
        parse_of(input) is None,
{
}

/// Where several extractors read a text, the dispatcher keeps the record of
/// the one that comes first in the order C++, Python, JavaScript/TypeScript,
/// Rust.
pub proof fn law_dispatch_priority(input: Seq<char>)
    ensures
        cpp_error_of(input) is Some ==> parse_of(input) == cpp_error_of(input),
        cpp_error_of(input) is None && python_error_of(input) is Some ==> parse_of(input)
            == python_error_of(input),
        cpp_error_of(input) is None && python_error_of(input) is None && js_error_of(input)
            is Some ==> parse_of(input) == js_error_of(input),
        cpp_error_of(input) is None && python_error_of(input) is None && js_error_of(input)
            is None ==> parse_of(input) == rust_error_of(input),
        parse_of(input) is None <==> cpp_error_of(input) is None && python_error_of(input) is None
            && js_error_of(input) is None && rust_error_of(input) is None,
{
}

} // verus!
