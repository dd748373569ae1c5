//! From a classified diagnostic to a fix suggestion: a title, an
//! explanation and, for some classes, a before/after pair of code.
//!
//! The suggestions are template text. Which template applies is decided by
//! the class of the diagnostic, its language and, for some classes, what the
//! captured detail mentions.

use crate::parser::{
    one_based, parse_error, parse_of, Diagnostic, ErrorKind, ErrorType, Language, ParsedError,
};
use crate::text::{contains, has_substring, lowercase_of};
use vstd::prelude::*;
use vstd::string::*;

verus! {

/// A fix suggestion. An empty title, an empty body and no diff together mean
/// that there is nothing to suggest.
#[derive(Debug, Clone, PartialEq, Eq)]
pub struct FixOutput {
    pub title: String,
    pub body: String,
    pub diff: Option<(String, String)>,
}

/// The mathematical model of a [`FixOutput`].
pub struct Fix {
    pub title: Seq<char>,
    pub body: Seq<char>,
    pub diff: Option<(Seq<char>, Seq<char>)>,
}

impl View for FixOutput {
    type V = Fix;

    open spec fn view(&self) -> Fix {
        Fix {
            title: self.title@,
            body: self.body@,
            diff: match self.diff {
                Some((before, after)) => Some((before@, after@)),
                None => None,
            },
        }
    }
}

/// The suggestion that suggests nothing.
pub open spec fn no_fix() -> Fix {
    Fix { title: Seq::empty(), body: Seq::empty(), diff: None }
}

/// A suggestion that is an explanation only.
pub open spec fn advice(title: Seq<char>, body: Seq<char>) -> Fix {
    Fix { title, body, diff: None }
}

/// A suggestion with a before/after pair.
pub open spec fn advice_with_diff(
    title: Seq<char>,
    body: Seq<char>,
    before: Seq<char>,
    after: Seq<char>,
) -> Fix {
    Fix { title, body, diff: Some((before, after)) }
}

/// A headline, a blank line, then the rest of a body.
pub open spec fn under_headline(headline: Seq<char>, rest: Seq<char>) -> Seq<char> {
    headline + "\n\n"@ + rest
}

fn under_headline_text(headline: &str, rest: &str) -> (res: String)
    ensures
        res@ == under_headline(headline@, rest@),
{
    let mut text = String::from_str(headline);
    text.append("\n\n");
    text.append(rest);
    text
}

impl FixOutput {
    /// The suggestion that suggests nothing.
    pub fn none() -> (res: FixOutput)
        ensures
            res@ == no_fix(),
    {
        FixOutput { title: String::new(), body: String::new(), diff: None }
    }

    /// A suggestion that is an explanation only.
    pub fn advice(title: String, body: String) -> (res: FixOutput)
        ensures
            res@ == advice(title@, body@),
    {
        FixOutput { title, body, diff: None }
    }

    /// A suggestion with a before/after pair.
    pub fn with_diff(title: String, body: String, before: String, after: String) -> (res: FixOutput)
        ensures
            res@ == advice_with_diff(title@, body@, before@, after@),
    {
        FixOutput { title, body, diff: Some((before, after)) }
    }

    /// Whether there is nothing to show.
    pub fn is_empty(&self) -> (res: bool)
        ensures
            res == (self@.title.len() == 0 && self@.body.len() == 0 && self@.diff is None),
    {
        self.title.as_str().is_empty() && self.body.as_str().is_empty() && self.diff.is_none()
    }
}

// ------------------------------------------------- missing header

pub const INCLUDE_BEFORE: &'static str = "// Your current code";

/// The code after the fix: the directive for `header` on top.
pub open spec fn include_after(header: Seq<char>) -> Seq<char> {
    "#include <"@
        + header
        + ">\n// Your code"@
}

fn include_after_text(header: &str) -> (res: String)
    ensures
        res@ == include_after(header@),
{
    let mut text = String::from_str("#include <");
    text.append(header);
    text.append(">\n// Your code");
    text
}

/// The instruction that names the directive to add.
pub open spec fn include_body(header: Seq<char>) -> Seq<char> {
    "Add this line at the top of your file:\n\n  #include <"@
        + header
        + ">"@
}

fn include_body_text(header: &str) -> (res: String)
    ensures
        res@ == include_body(header@),
{
    let mut text = String::from_str("Add this line at the top of your file:\n\n  #include <");
    text.append(header);
    text.append(">");
    text
}

/// A missing header is a C++ matter: other languages get no suggestion.
pub open spec fn missing_include_fix(header: Seq<char>, language: Language) -> Fix {
    if language == Language::Cpp {
        advice_with_diff(
            Seq::empty(),
            include_body(header),
            INCLUDE_BEFORE@,
            include_after(header),
        )
    } else {
        no_fix()
    }
}

/// The suggestion for a missing header.
pub fn fix_missing_include(header: &str, lang: &Language) -> (res: FixOutput)
    ensures
        res@ == missing_include_fix(header@, *lang),
{
    match lang {
        Language::Cpp => FixOutput::with_diff(
            String::new(),
            include_body_text(header),
            String::from_str(INCLUDE_BEFORE),
            include_after_text(header),
        ),
        _ => FixOutput::none(),
    }
}

// ---------------------------------------------- missing semicolon

pub const SEMICOLON_BEFORE: &'static str = "statement // missing semicolon";

pub const SEMICOLON_AFTER: &'static str = "statement;";

pub const SEMICOLON_BODY: &'static str = "Add a semicolon at the end of the line indicated in the error.\n\n\
    Look for the line number in the error message and add ';' at the end.";

/// Languages in which a statement ends with a semicolon.
pub open spec fn uses_semicolons(language: Language) -> bool {
    language == Language::Cpp || language == Language::JavaScript || language
        == Language::TypeScript
}

/// Only languages that end statements with a semicolon get the suggestion.
pub open spec fn missing_semicolon_fix(language: Language) -> Fix {
    if uses_semicolons(language) {
        advice_with_diff(Seq::empty(), SEMICOLON_BODY@, SEMICOLON_BEFORE@, SEMICOLON_AFTER@)
    } else {
        no_fix()
    }
}

/// The suggestion for a missing semicolon.
pub fn fix_missing_semicolon(lang: &Language) -> (res: FixOutput)
    ensures
        res@ == missing_semicolon_fix(*lang),
{
    match lang {
        Language::Cpp | Language::JavaScript | Language::TypeScript => FixOutput::with_diff(
            String::new(),
            String::from_str(SEMICOLON_BODY),
            String::from_str(SEMICOLON_BEFORE),
            String::from_str(SEMICOLON_AFTER),
        ),
        _ => FixOutput::none(),
    }
}

// ------------------------------------------------ undeclared name

pub const UNDECLARED_TITLE: &'static str = "Possible Causes";

pub const CPP_CAUSES: &'static str = "  1. Typo in variable name\n  2. Variable declared in different scope\n  3. Missing #include for std:: types";

/// The headline of every suggestion about an undeclared name.
pub open spec fn undeclared_headline(name: Seq<char>) -> Seq<char> {
    "Variable '"@
        + name
        + "' is not defined"@
}

fn undeclared_headline_text(name: &str) -> (res: String)
    ensures
        res@ == undeclared_headline(name@),
{
    let mut text = String::from_str("Variable '");
    text.append(name);
    text.append("' is not defined");
    text
}

/// A use of a standard-library type.
pub open spec fn std_usage(name: Seq<char>) -> Seq<char> {
    "std::"@
        + name
}

fn std_usage_text(name: &str) -> (res: String)
    ensures
        res@ == std_usage(name@),
{
    let mut text = String::from_str("std::");
    text.append(name);
    text
}

/// What to try in C++ for a name that is no standard-library type.
pub open spec fn cpp_options(name: Seq<char>) -> Seq<char> {
    "Options:\n\n1. Check spelling of '"@
        + name
        + "'\n2. Declare the variable before using it:\n   int "@
        + name
        + " = 0;\n3. Check if it's defined in a different scope"@
}

fn cpp_options_text(name: &str) -> (res: String)
    ensures
        res@ == cpp_options(name@),
{
    let mut text = String::from_str("Options:\n\n1. Check spelling of '");
    text.append(name);
    text.append("'\n2. Declare the variable before using it:\n   int ");
    text.append(name);
    text.append(" = 0;\n3. Check if it's defined in a different scope");
    text
}

/// What to try in Python.
pub open spec fn python_options(name: Seq<char>) -> Seq<char> {
    "Options:\n\n1. Check spelling of '"@
        + name
        + "'\n2. Define the variable before using it:\n   "@
        + name
        + " = None\n3. Make sure the variable is in scope"@
}

fn python_options_text(name: &str) -> (res: String)
    ensures
        res@ == python_options(name@),
{
    let mut text = String::from_str("Options:\n\n1. Check spelling of '");
    text.append(name);
    text.append("'\n2. Define the variable before using it:\n   ");
    text.append(name);
    text.append(" = None\n3. Make sure the variable is in scope");
    text
}

/// What to try in JavaScript and TypeScript.
pub open spec fn js_options(name: Seq<char>) -> Seq<char> {
    "Options:\n\n1. Check spelling of '"@
        + name
        + "'\n2. Declare the variable:\n   const "@
        + name
        + " = ...;\n3. Import if it's from another module:\n   import { "@
        + name
        + " } from './module';"@
}

fn js_options_text(name: &str) -> (res: String)
    ensures
        res@ == js_options(name@),
{
    let mut text = String::from_str("Options:\n\n1. Check spelling of '");
    text.append(name);
    text.append("'\n2. Declare the variable:\n   const ");
    text.append(name);
    text.append(" = ...;\n3. Import if it's from another module:\n   import { ");
    text.append(name);
    text.append(" } from './module';");
    text
}

/// What to try in Rust.
pub open spec fn rust_options(name: Seq<char>) -> Seq<char> {
    "Options:\n\n1. Check spelling of '"@
        + name
        + "'\n2. Add a 'use' statement if it's from another module:\n   use crate::"@
        + name
        + ";\n3. Declare the variable:\n   let "@
        + name
        + " = ...;"@
}

fn rust_options_text(name: &str) -> (res: String)
    ensures
        res@ == rust_options(name@),
{
    let mut text = String::from_str("Options:\n\n1. Check spelling of '");
    text.append(name);
    text.append("'\n2. Add a 'use' statement if it's from another module:\n   use crate::");
    text.append(name);
    text.append(";\n3. Declare the variable:\n   let ");
    text.append(name);
    text.append(" = ...;");
    text
}

/// The names of the standard-library types whose header bears their name.
pub open spec fn std_type_name(lower: Seq<char>) -> bool {
    lower == "vector"@ || lower == "string"@ || lower == "map"@ || lower == "set"@ || lower
        == "list"@ || lower == "deque"@ || lower == "array"@ || lower == "unique_ptr"@ || lower
        == "shared_ptr"@ || lower == "optional"@ || lower == "variant"@
}

/// Whether a name, whatever its case, is one of the known standard-library
/// types.
pub open spec fn std_type(name: Seq<char>) -> bool {
    std_type_name(lowercase_of(name))
}

/// Whether a lower-cased name is one of the known standard-library types.
pub fn is_std_type_name(lower: &str) -> (res: bool)
    ensures
        res == std_type_name(lower@),
{
    lower.eq("vector") || lower.eq("string") || lower.eq("map") || lower.eq("set") || lower.eq(
        "list",
    ) || lower.eq("deque") || lower.eq("array") || lower.eq("unique_ptr") || lower.eq(
        "shared_ptr",
    ) || lower.eq("optional") || lower.eq("variant")
}

/// Whether a name, whatever its case, is one of the known standard-library
/// types.
pub fn is_std_type(name: &str) -> (res: bool)
    ensures
        res == std_type(name@),
{
    let lower = name.to_lowercase();
    is_std_type_name(lower.as_str())
}

/// The use of a standard-library type with its header on top; the header is
/// named in lower case.
pub open spec fn std_usage_fixed(name: Seq<char>, lower: Seq<char>) -> Seq<char> {
    "#include <"@ + lower + ">\nstd::"@ + name
}

/// The suggestion for an undeclared name, given its lower-cased form. C++
/// names that are standard-library types get the header as a diff; every
/// other name gets the options of its language.
pub open spec fn undeclared_variable_fix_from(
    name: Seq<char>,
    lower: Seq<char>,
    language: Language,
) -> Fix {
    let headline = undeclared_headline(name);
    match language {
        Language::Cpp => if std_type_name(lower) {
            advice_with_diff(
                UNDECLARED_TITLE@,
                under_headline(headline, CPP_CAUSES@),
                std_usage(name),
                std_usage_fixed(name, lower),
            )
        } else {
            advice(
                UNDECLARED_TITLE@,
                under_headline(headline, under_headline(CPP_CAUSES@, cpp_options(name))),
            )
        },
        Language::Python => advice(
            UNDECLARED_TITLE@,
            under_headline(headline, python_options(name)),
        ),
        Language::JavaScript | Language::TypeScript => advice(
            UNDECLARED_TITLE@,
            under_headline(headline, js_options(name)),
        ),
        Language::Rust => advice(UNDECLARED_TITLE@, under_headline(headline, rust_options(name))),
        Language::Unknown => advice(UNDECLARED_TITLE@, headline),
    }
}

/// The suggestion for an undeclared name.
pub open spec fn undeclared_variable_fix(name: Seq<char>, language: Language) -> Fix {
    undeclared_variable_fix_from(name, lowercase_of(name), language)
}

/// Builds the suggestion for an undeclared name from the name and its
/// lower-cased form.
pub fn undeclared_variable_fix_for(name: &str, lower: &str, lang: &Language) -> (res: FixOutput)
    ensures
        res@ == undeclared_variable_fix_from(name@, lower@, *lang),
{
    let title = String::from_str(UNDECLARED_TITLE);
    let headline = undeclared_headline_text(name);
    match lang {
        Language::Cpp => {
            if is_std_type_name(lower) {
                let mut fixed = String::from_str("#include <");
                fixed.append(lower);
                fixed.append(">\nstd::");
                fixed.append(name);
                FixOutput::with_diff(
                    title,
                    under_headline_text(headline.as_str(), CPP_CAUSES),
                    std_usage_text(name),
                    fixed,
                )
            } else {
                let rest = under_headline_text(CPP_CAUSES, cpp_options_text(name).as_str());
                FixOutput::advice(title, under_headline_text(headline.as_str(), rest.as_str()))
            }
        },
        Language::Python => FixOutput::advice(
            title,
            under_headline_text(headline.as_str(), python_options_text(name).as_str()),
        ),
        Language::JavaScript | Language::TypeScript => FixOutput::advice(
            title,
            under_headline_text(headline.as_str(), js_options_text(name).as_str()),
        ),
        Language::Rust => FixOutput::advice(
            title,
            under_headline_text(headline.as_str(), rust_options_text(name).as_str()),
        ),
        Language::Unknown => FixOutput::advice(title, headline),
    }
}

/// The suggestion for an undeclared name.
pub fn fix_undeclared_variable(var: &str, lang: &Language) -> (res: FixOutput)
    ensures
        res@ == undeclared_variable_fix(var@, *lang),
{
    let lower = var.to_lowercase();
    undeclared_variable_fix_for(var, lower.as_str(), lang)
}

// --------------------------------------------------- syntax error

pub const SYNTAX_TITLE: &'static str = "Syntax Error";

pub const UNEXPECTED_TOKEN_BODY: &'static str = "Check for:\n\n\
    1. Missing or extra brackets: { } [ ] ( )\n\
    2. Missing commas in arrays or objects\n\
    3. Unclosed strings\n\
    4. Missing operators";

pub const UNCLOSED_BODY: &'static str = "You have an unclosed bracket or string.\n\n\
    Check for matching pairs:\n\
    • ( must have )\n\
    • { must have }\n\
    • [ must have ]\n\
    • \" must have \"\n\
    • ' must have '";

/// The body for a parser that expected something else.
pub open spec fn expected_body(details: Seq<char>) -> Seq<char> {
    "The parser expected something that wasn't there.\n\nError: "@
        + details
        + "\n\nCheck the line number in the error for missing syntax."@
}

fn expected_body_text(details: &str) -> (res: String)
    ensures
        res@ == expected_body(details@),
{
    let mut text = String::from_str("The parser expected something that wasn't there.\n\nError: ");
    text.append(details);
    text.append("\n\nCheck the line number in the error for missing syntax.");
    text
}

/// The body for any other syntax error.
pub open spec fn syntax_body(details: Seq<char>) -> Seq<char> {
    "Syntax error: "@
        + details
        + "\n\nCheck the line indicated in the error for typos or missing syntax."@
}

fn syntax_body_text(details: &str) -> (res: String)
    ensures
        res@ == syntax_body(details@),
{
    let mut text = String::from_str("Syntax error: ");
    text.append(details);
    text.append("\n\nCheck the line indicated in the error for typos or missing syntax.");
    text
}

/// The body for a syntax error, chosen by what the lower-cased detail
/// mentions; the first rule that applies decides.
pub open spec fn syntax_error_body(details: Seq<char>, lower: Seq<char>) -> Seq<char> {
    if has_substring(lower, "unexpected token"@) {
        UNEXPECTED_TOKEN_BODY@
    } else if has_substring(lower, "was never closed"@) || has_substring(lower, "unterminated"@) {
        UNCLOSED_BODY@
    } else if has_substring(lower, "expected"@) {
        expected_body(details)
    } else {
        syntax_body(details)
    }
}

/// The suggestion for a syntax error, whatever the language.
pub open spec fn syntax_error_fix(details: Seq<char>) -> Fix {
    advice(SYNTAX_TITLE@, syntax_error_body(details, lowercase_of(details)))
}

/// Builds the body for a syntax error from the detail and its lower-cased
/// form.
pub fn syntax_error_body_for(details: &str, lower: &str) -> (res: String)
    ensures
        res@ == syntax_error_body(details@, lower@),
{
    if contains(lower, "unexpected token") {
        String::from_str(UNEXPECTED_TOKEN_BODY)
    } else if contains(lower, "was never closed") || contains(lower, "unterminated") {
        String::from_str(UNCLOSED_BODY)
    } else if contains(lower, "expected") {
        expected_body_text(details)
    } else {
        syntax_body_text(details)
    }
}

/// The suggestion for a syntax error.
pub fn fix_syntax_error(details: &str) -> (res: FixOutput)
    ensures
        res@ == syntax_error_fix(details@),
{
    let lower = details.to_lowercase();
    FixOutput::advice(
        String::from_str(SYNTAX_TITLE),
        syntax_error_body_for(details, lower.as_str()),
    )
}

// ---------------------------------------------------- indentation

pub const INDENTATION_BEFORE: &'static str = "def example():\n  line1  # 2 spaces\n    line2  # 4 spaces (inconsistent!)";

pub const INDENTATION_AFTER: &'static str = "def example():\n    line1  # 4 spaces\n    line2  # 4 spaces (consistent)";

pub const INDENTATION_BODY: &'static str = "Python requires consistent indentation.\n\n\
    Fix:\n\
    1. Use either spaces OR tabs, not both\n\
    2. Use 4 spaces per indentation level (recommended)\n\
    3. Make sure all lines in a block have the same indentation\n\n\
    Tip: Configure your editor to convert tabs to spaces.";

/// The suggestion for inconsistent indentation: always the same.
pub open spec fn indentation_error_fix() -> Fix {
    advice_with_diff(Seq::empty(), INDENTATION_BODY@, INDENTATION_BEFORE@, INDENTATION_AFTER@)
}

/// The suggestion for inconsistent indentation.
pub fn fix_indentation_error() -> (res: FixOutput)
    ensures
        res@ == indentation_error_fix(),
{
    FixOutput::with_diff(
        String::new(),
        String::from_str(INDENTATION_BODY),
        String::from_str(INDENTATION_BEFORE),
        String::from_str(INDENTATION_AFTER),
    )
}

// ------------------------------------------------ missing modules

/// How to get a Python module.
pub open spec fn pip_body(module: Seq<char>) -> Seq<char> {
    "Module '"@
        + module
        + "' not found.\n\nOptions:\n\n1. Install the module:\n   pip install "@
        + module
        + "\n\n\
            2. Check if it's a local module - verify the file exists\n\n\
            3. Check your PYTHONPATH if it's a custom module"@
}

fn pip_body_text(module: &str) -> (res: String)
    ensures
        res@ == pip_body(module@),
{
    let mut text = String::from_str("Module '");
    text.append(module);
    text.append("' not found.\n\nOptions:\n\n1. Install the module:\n   pip install ");
    text.append(module);
    text.append("\n\n\
        2. Check if it's a local module - verify the file exists\n\n\
        3. Check your PYTHONPATH if it's a custom module");
    text
}

/// How to get a JavaScript or TypeScript module.
pub open spec fn npm_body(module: Seq<char>) -> Seq<char> {
    "Cannot find module '"@
        + module
        + "'\n\nOptions:\n\n1. Install the package:\n   npm install "@
        + module
        + "\n\n2. If it's a local file, check the path:\n   import x from './"@
        + module
        + "'\n\n3. Check tsconfig.json paths if using TypeScript"@
}

fn npm_body_text(module: &str) -> (res: String)
    ensures
        res@ == npm_body(module@),
{
    let mut text = String::from_str("Cannot find module '");
    text.append(module);
    text.append("'\n\nOptions:\n\n1. Install the package:\n   npm install ");
    text.append(module);
    text.append("\n\n2. If it's a local file, check the path:\n   import x from './");
    text.append(module);
    text.append("'\n\n3. Check tsconfig.json paths if using TypeScript");
    text
}

/// What to check for a failed import in any other language.
pub open spec fn import_body(module: Seq<char>) -> Seq<char> {
    "Module '"@
        + module
        + "' not found.\n\nCheck that the module is installed and the path is correct."@
}

fn import_body_text(module: &str) -> (res: String)
    ensures
        res@ == import_body(module@),
{
    let mut text = String::from_str("Module '");
    text.append(module);
    text.append("' not found.\n\nCheck that the module is installed and the path is correct.");
    text
}

/// What to check for a missing module in any other language.
pub open spec fn module_body(module: Seq<char>) -> Seq<char> {
    "Module '"@
        + module
        + "' not found. Check installation and import path."@
}

fn module_body_text(module: &str) -> (res: String)
    ensures
        res@ == module_body(module@),
{
    let mut text = String::from_str("Module '");
    text.append(module);
    text.append("' not found. Check installation and import path.");
    text
}

/// The body that names the package manager of the language, if it has one
/// here.
pub open spec fn install_body(module: Seq<char>, language: Language) -> Option<Seq<char>> {
    match language {
        Language::Python => Some(pip_body(module)),
        Language::JavaScript | Language::TypeScript => Some(npm_body(module)),
        _ => None,
    }
}

/// The suggestion for a failed import: how to install the module where the
/// language has a package manager here, else what to check.
pub open spec fn import_error_fix(module: Seq<char>, language: Language) -> Fix {
    advice(
        Seq::empty(),
        match install_body(module, language) {
            Some(body) => body,
            None => import_body(module),
        },
    )
}

/// The suggestion for a module that was not found: how to install it where
/// the language has a package manager here, else what to check.
pub open spec fn module_not_found_fix(module: Seq<char>, language: Language) -> Fix {
    advice(
        Seq::empty(),
        match install_body(module, language) {
            Some(body) => body,
            None => module_body(module),
        },
    )
}

fn install_body_text(module: &str, lang: &Language) -> (res: Option<String>)
    ensures
        res.deep_view() == install_body(module@, *lang),
{
    match lang {
        Language::Python => Some(pip_body_text(module)),
        Language::JavaScript | Language::TypeScript => Some(npm_body_text(module)),
        _ => None,
    }
}

/// The suggestion for a failed import.
pub fn fix_import_error(module: &str, lang: &Language) -> (res: FixOutput)
    ensures
        res@ == import_error_fix(module@, *lang),
{
    let body = match install_body_text(module, lang) {
        Some(body) => body,
        None => import_body_text(module),
    };
    FixOutput::advice(String::new(), body)
}

/// The suggestion for a module that was not found.
pub fn fix_module_not_found(module: &str, lang: &Language) -> (res: FixOutput)
    ensures
        res@ == module_not_found_fix(module@, *lang),
{
    let body = match install_body_text(module, lang) {
        Some(body) => body,
        None => module_body_text(module),
    };
    FixOutput::advice(String::new(), body)
}

// ----------------------------------------------------- type error

pub const TYPE_TITLE: &'static str = "Type Error";

pub const TYPESCRIPT_TYPE_BODY: &'static str = "Type mismatch detected.\n\n\
    Options:\n\n\
    1. Check the expected type vs what you're passing\n\
    2. Add type assertion: value as ExpectedType\n\
    3. Fix the source of the wrong type\n\
    4. Update the type definition if it's incorrect";

pub const PYTHON_TYPE_BODY: &'static str = "Operation not supported for this type.\n\n\
    Check what type your variable actually is:\n  print(type(your_variable))\n\n\
    Then ensure the operation is valid for that type.";

pub const TYPE_BODY: &'static str = "Type mismatch. Check that your variables have the expected types.";

/// The advice on a type error in each language.
pub open spec fn type_error_advice(language: Language) -> Seq<char> {
    match language {
        Language::TypeScript => TYPESCRIPT_TYPE_BODY@,
        Language::Python => PYTHON_TYPE_BODY@,
        _ => TYPE_BODY@,
    }
}

/// The detail first, then the advice of the language.
pub open spec fn type_error_fix(details: Seq<char>, language: Language) -> Fix {
    advice(TYPE_TITLE@, under_headline(details, type_error_advice(language)))
}

/// The suggestion for a type error.
pub fn fix_type_error(details: &str, lang: &Language) -> (res: FixOutput)
    ensures
        res@ == type_error_fix(details@, *lang),
{
    let advice = match lang {
        Language::TypeScript => TYPESCRIPT_TYPE_BODY,
        Language::Python => PYTHON_TYPE_BODY,
        _ => TYPE_BODY,
    };
    FixOutput::advice(String::from_str(TYPE_TITLE), under_headline_text(details, advice))
}

// --------------------------------------------------- borrow error

pub const BORROW_TITLE: &'static str = "Borrow Checker Error";

pub const BORROW_BODY: &'static str = "Rust's borrow checker prevents data races.\n\n\
    Common fixes:\n\n\
    1. Clone the data if ownership isn't needed:\n   let copy = data.clone();\n\n\
    2. Use references instead of moving:\n   fn process(data: &MyType) { ... }\n\n\
    3. Limit the scope of borrows:\n   {\n       let r = &mut data;\n       // use r\n   } // r dropped here\n\n\
    4. Use Rc/Arc for shared ownership:\n   use std::rc::Rc;";

/// The detail first, then the four usual ways out.
pub open spec fn borrow_error_fix(details: Seq<char>) -> Fix {
    advice(BORROW_TITLE@, under_headline(details, BORROW_BODY@))
}

/// The suggestion for an error of the borrow checker.
pub fn fix_borrow_error(details: &str) -> (res: FixOutput)
    ensures
        res@ == borrow_error_fix(details@),
{
    FixOutput::advice(String::from_str(BORROW_TITLE), under_headline_text(details, BORROW_BODY))
}

// ------------------------------------------------------ key error

pub const KEY_TITLE: &'static str = "KeyError - Missing Dictionary Key";

/// A lookup that fails on a missing key.
pub open spec fn key_before(key: Seq<char>) -> Seq<char> {
    "data[\""@
        + key
        + "\"]  # raises KeyError if missing"@
}

fn key_before_text(key: &str) -> (res: String)
    ensures
        res@ == key_before(key@),
{
    let mut text = String::from_str("data[\"");
    text.append(key);
    text.append("\"]  # raises KeyError if missing");
    text
}

/// A lookup with a default.
pub open spec fn key_after(key: Seq<char>) -> Seq<char> {
    "data.get(\""@
        + key
        + "\", default_value)  # returns default if missing"@
}

fn key_after_text(key: &str) -> (res: String)
    ensures
        res@ == key_after(key@),
{
    let mut text = String::from_str("data.get(\"");
    text.append(key);
    text.append("\", default_value)  # returns default if missing");
    text
}

/// Three ways to live with a key that may be missing.
pub open spec fn key_body(key: Seq<char>) -> Seq<char> {
    "The key '"@
        + key
        + "' doesn't exist in the dictionary.\n\n\
            Options:\n\n\
            1. Use .get() with a default value:\n\
            value = data.get(\""@
        + key
        + "\", None)\n\n2. Check if key exists first:\nif \""@
        + key
        + "\" in data:\nvalue = data[\""@
        + key
        + "\"]\n\n3. Use try/except:\ntry:\nvalue = data[\""@
        + key
        + "\"]\nexcept KeyError:\nvalue = default"@
}

fn key_body_text(key: &str) -> (res: String)
    ensures
        res@ == key_body(key@),
{
    let mut text = String::from_str("The key '");
    text.append(key);
    text.append("' doesn't exist in the dictionary.\n\n\
        Options:\n\n\
        1. Use .get() with a default value:\n\
        value = data.get(\"");
    text.append(key);
    text.append("\", None)\n\n2. Check if key exists first:\nif \"");
    text.append(key);
    text.append("\" in data:\nvalue = data[\"");
    text.append(key);
    text.append("\"]\n\n3. Use try/except:\ntry:\nvalue = data[\"");
    text.append(key);
    text.append("\"]\nexcept KeyError:\nvalue = default");
    text
}

/// The suggestion for a missing dictionary key, which it names throughout.
pub open spec fn key_error_fix(key: Seq<char>) -> Fix {
    advice_with_diff(KEY_TITLE@, key_body(key), key_before(key), key_after(key))
}

/// The suggestion for a missing dictionary key.
pub fn fix_key_error(key: &str) -> (res: FixOutput)
    ensures
        res@ == key_error_fix(key@),
{
    FixOutput::with_diff(
        String::from_str(KEY_TITLE),
        key_body_text(key),
        key_before_text(key),
        key_after_text(key),
    )
}

// ------------------------------------------------ attribute error

pub const ATTRIBUTE_TITLE: &'static str = "AttributeError";

/// How Python names the type of `None` in its messages.
pub const NONE_MARKER: &'static str = "'NoneType'";

pub const NONE_BEFORE: &'static str = "result.method()  # result is None!";

pub const NONE_AFTER: &'static str = "if result is not None:\n    result.method()";

pub const NONE_BODY: &'static str = "You're calling a method on a None value.\n\n\
    The variable is None when you expected an object.\n\n\
    Fix:\n\n\
    1. Check for None before using:\n\
    if result is not None:\n\
    result.method()\n\n\
    2. Use a default value:\n\
    result = get_result() or default_value\n\n\
    3. Find why the value is None and fix the source";

/// What to check for an attribute that an object lacks.
pub open spec fn attribute_body(details: Seq<char>) -> Seq<char> {
    "AttributeError: "@
        + details
        + "\n\n\
            The object doesn't have the attribute/method you're trying to use.\n\n\
            Check:\n\
            1. Spelling of the attribute name\n\
            2. The type of the object (use type(obj))\n\
            3. If the object is None unexpectedly"@
}

fn attribute_body_text(details: &str) -> (res: String)
    ensures
        res@ == attribute_body(details@),
{
    let mut text = String::from_str("AttributeError: ");
    text.append(details);
    text.append("\n\n\
        The object doesn't have the attribute/method you're trying to use.\n\n\
        Check:\n\
        1. Spelling of the attribute name\n\
        2. The type of the object (use type(obj))\n\
        3. If the object is None unexpectedly");
    text
}

/// A detail that mentions the type of `None` gets the null check as a diff;
/// any other detail gets the general checklist.
pub open spec fn attribute_error_fix(details: Seq<char>) -> Fix {
    if has_substring(details, NONE_MARKER@) {
        advice_with_diff(ATTRIBUTE_TITLE@, NONE_BODY@, NONE_BEFORE@, NONE_AFTER@)
    } else {
        advice(ATTRIBUTE_TITLE@, attribute_body(details))
    }
}

/// The suggestion for a missing attribute.
pub fn fix_attribute_error(details: &str) -> (res: FixOutput)
    ensures
        res@ == attribute_error_fix(details@),
{
    let title = String::from_str(ATTRIBUTE_TITLE);
    if contains(details, NONE_MARKER) {
        FixOutput::with_diff(
            title,
            String::from_str(NONE_BODY),
            String::from_str(NONE_BEFORE),
            String::from_str(NONE_AFTER),
        )
    } else {
        FixOutput::advice(title, attribute_body_text(details))
    }
}

// ---------------------------------------------------- value error

pub const VALUE_TITLE: &'static str = "ValueError";

pub const DATE_BEFORE: &'static str = "datetime.fromisoformat(date_string)  # fails if invalid";

pub const DATE_AFTER: &'static str = "try:\n    dt = datetime.fromisoformat(date_string)\n\
    except (ValueError, TypeError):\n    dt = None";

pub const DATE_BODY: &'static str = "The datetime string is invalid or None.\n\n\
    Fix:\n\n\
    1. Validate before parsing:\n\
    if date_string:\n\
    dt = datetime.fromisoformat(date_string)\n\n\
    2. Use try/except:\n\
    try:\n\
    dt = datetime.fromisoformat(date_string)\n\
    except (ValueError, TypeError):\n\
    dt = datetime.now()  # or None";

/// The advice for a value of the right type and the wrong content.
pub open spec fn value_body(details: Seq<char>) -> Seq<char> {
    "ValueError: "@
        + details
        + "\n\n\
            The value has the right type but invalid content.\n\n\
            Validate the data before using it."@
}

fn value_body_text(details: &str) -> (res: String)
    ensures
        res@ == value_body(details@),
{
    let mut text = String::from_str("ValueError: ");
    text.append(details);
    text.append("\n\n\
        The value has the right type but invalid content.\n\n\
        Validate the data before using it.");
    text
}

/// Whether a detail speaks of parsing a date or a time.
pub open spec fn mentions_date_parsing(details: Seq<char>) -> bool {
    has_substring(details, "fromisoformat"@) || has_substring(details, "time data"@)
}

/// A detail about parsing a date gets the guard as a diff; any other detail
/// gets the general advice.
pub open spec fn value_error_fix(details: Seq<char>) -> Fix {
    if mentions_date_parsing(details) {
        advice_with_diff(VALUE_TITLE@, DATE_BODY@, DATE_BEFORE@, DATE_AFTER@)
    } else {
        advice(VALUE_TITLE@, value_body(details))
    }
}

/// The suggestion for a value of the wrong content.
pub fn fix_value_error(details: &str) -> (res: FixOutput)
    ensures
        res@ == value_error_fix(details@),
{
    let title = String::from_str(VALUE_TITLE);
    if contains(details, "fromisoformat") || contains(details, "time data") {
        FixOutput::with_diff(
            title,
            String::from_str(DATE_BODY),
            String::from_str(DATE_BEFORE),
            String::from_str(DATE_AFTER),
        )
    } else {
        FixOutput::advice(title, value_body_text(details))
    }
}

// ------------------------------------ missing environment variable

pub const ENV_TITLE: &'static str = "Missing Environment Variable";

pub const ENV_HEADLINE: &'static str = "Environment variable is not set - value is None!";

pub const ENV_BEFORE: &'static str = "API_URL = os.getenv(\"API_URL\")  # Returns None if not set!\n\
    url = f\"{API_URL}/endpoint\"  # Becomes 'None/endpoint'";

pub const ENV_AFTER: &'static str = "API_URL = os.getenv(\"API_URL\")\n\
    if not API_URL:\n    raise ValueError(\"API_URL environment variable is required\")\n\
    url = f\"{API_URL}/endpoint\"";

pub const ENV_BODY: &'static str = "os.getenv() returns None when the variable isn't set.\n\n\
    Fix:\n\n\
    1. Set the environment variable:\n\
    - Create/edit .env file: API_URL=https://api.example.com\n\
    - Or set in terminal: export API_URL=https://api.example.com\n\n\
    2. Add validation in your code:\n\
    API_URL = os.getenv(\"API_URL\")\n\
    if not API_URL:\n\
    raise ValueError(\"API_URL is required\")\n\n\
    3. Use a default value:\n\
    API_URL = os.getenv(\"API_URL\", \"https://default-api.com\")";

/// The same suggestion whatever the detail: an unset variable that turns
/// into the text `None` inside a URL, and how to guard against it.
pub open spec fn missing_env_var_fix() -> Fix {
    advice_with_diff(ENV_TITLE@, under_headline(ENV_HEADLINE@, ENV_BODY@), ENV_BEFORE@, ENV_AFTER@)
}

/// The suggestion for an unset environment variable.
pub fn fix_missing_env_var() -> (res: FixOutput)
    ensures
        res@ == missing_env_var_fix(),
{
    FixOutput::with_diff(
        String::from_str(ENV_TITLE),
        under_headline_text(ENV_HEADLINE, ENV_BODY),
        String::from_str(ENV_BEFORE),
        String::from_str(ENV_AFTER),
    )
}

// ------------------------------------------------- requests error

pub const REQUESTS_TITLE: &'static str = "Requests Library Error";

pub const CONNECTION_BODY: &'static str = "Could not connect to the server.\n\n\
    Check:\n\
    1. Is the URL correct?\n\
    2. Is the server running?\n\
    3. Is your internet connection working?\n\
    4. Is there a firewall blocking the request?";

pub const TIMEOUT_BODY: &'static str = "Request timed out.\n\n\
    Fix:\n\
    1. Increase the timeout:\n\
    requests.get(url, timeout=30)\n\n\
    2. Check if the server is slow/overloaded\n\
    3. Add retry logic:\n\
    from requests.adapters import HTTPAdapter\n\
    from urllib3.util.retry import Retry";

pub const REQUESTS_BODY: &'static str = "Add proper error handling:\n\n\
    try:\n\
    response = requests.get(url, timeout=10)\n\
    response.raise_for_status()\n\
    except requests.exceptions.RequestException as e:\n\
    print(f\"Request failed: {e}\")";

/// The advice for an error of the `requests` library, chosen by what the
/// detail mentions: a connection first, then a timeout.
pub open spec fn requests_advice(details: Seq<char>) -> Seq<char> {
    if has_substring(details, "ConnectionError"@) || has_substring(details, "connect"@) {
        CONNECTION_BODY@
    } else if has_substring(details, "Timeout"@) {
        TIMEOUT_BODY@
    } else {
        REQUESTS_BODY@
    }
}

/// The detail first, then the advice.
pub open spec fn requests_error_fix(details: Seq<char>) -> Fix {
    advice(REQUESTS_TITLE@, under_headline(details, requests_advice(details)))
}

/// The suggestion for an error of the `requests` library.
pub fn fix_requests_error(details: &str) -> (res: FixOutput)
    ensures
        res@ == requests_error_fix(details@),
{
    let advice = if contains(details, "ConnectionError") || contains(details, "connect") {
        CONNECTION_BODY
    } else if contains(details, "Timeout") {
        TIMEOUT_BODY
    } else {
        REQUESTS_BODY
    };
    FixOutput::advice(String::from_str(REQUESTS_TITLE), under_headline_text(details, advice))
}

// -------------------------------------------------------- unknown

/// The body for a diagnostic of no known class.
pub open spec fn unknown_body(message: Seq<char>) -> Seq<char> {
    "No automatic fix for: "@
        + message
}

fn unknown_body_text(message: &str) -> (res: String)
    ensures
        res@ == unknown_body(message@),
{
    let mut text = String::from_str("No automatic fix for: ");
    text.append(message);
    text
}

/// A diagnostic of no known class has no automatic fix: the body says so
/// and repeats the message.
pub open spec fn unknown_fix(message: Seq<char>) -> Fix {
    advice(Seq::empty(), unknown_body(message))
}

/// The suggestion for a diagnostic of no known class.
pub fn fix_unknown(message: &str) -> (res: FixOutput)
    ensures
        res@ == unknown_fix(message@),
{
    FixOutput::advice(String::new(), unknown_body_text(message))
}

// ------------------------------------------------------- dispatch

/// The fix suggestion for a diagnostic: one mapping per class, some of
/// which look at the language or at what the captured text mentions.
pub open spec fn remediation(d: Diagnostic) -> Fix {
    match d.kind {
        ErrorKind::MissingInclude(header) => missing_include_fix(header, d.language),
        ErrorKind::MissingSemicolon => missing_semicolon_fix(d.language),
        ErrorKind::UndeclaredVariable(name) => undeclared_variable_fix(name, d.language),
        ErrorKind::SyntaxError(details) => syntax_error_fix(details),
        ErrorKind::IndentationError => indentation_error_fix(),
        ErrorKind::ImportError(module) => import_error_fix(module, d.language),
        ErrorKind::ModuleNotFound(module) => module_not_found_fix(module, d.language),
        ErrorKind::TypeError(details) => type_error_fix(details, d.language),
        ErrorKind::BorrowError(details) => borrow_error_fix(details),
        ErrorKind::KeyError(key) => key_error_fix(key),
        ErrorKind::AttributeError(details) => attribute_error_fix(details),
        ErrorKind::ValueError(details) => value_error_fix(details),
        ErrorKind::MissingEnvVar(_) => missing_env_var_fix(),
        ErrorKind::RequestsError(details) => requests_error_fix(details),
        ErrorKind::Unknown(message) => unknown_fix(message),
    }
}

/// Selects and renders the fix suggestion for a diagnostic.
pub fn remediate(error: &ParsedError) -> (res: FixOutput)
    ensures
        res@ == remediation(error@),
{
    let lang = &error.language;
    match &error.error_type {
        ErrorType::MissingInclude(header) => fix_missing_include(header.as_str(), lang),
        ErrorType::MissingSemicolon => fix_missing_semicolon(lang),
        ErrorType::UndeclaredVariable(name) => fix_undeclared_variable(name.as_str(), lang),
        ErrorType::SyntaxError(details) => fix_syntax_error(details.as_str()),
        ErrorType::IndentationError => fix_indentation_error(),
        ErrorType::ImportError(module) => fix_import_error(module.as_str(), lang),
        ErrorType::ModuleNotFound(module) => fix_module_not_found(module.as_str(), lang),
        ErrorType::TypeError(details) => fix_type_error(details.as_str(), lang),
        ErrorType::BorrowError(details) => fix_borrow_error(details.as_str()),
        ErrorType::KeyError(key) => fix_key_error(key.as_str()),
        ErrorType::AttributeError(details) => fix_attribute_error(details.as_str()),
        ErrorType::ValueError(details) => fix_value_error(details.as_str()),
        ErrorType::MissingEnvVar(_) => fix_missing_env_var(),
        ErrorType::RequestsError(details) => fix_requests_error(details.as_str()),
        ErrorType::Unknown(message) => fix_unknown(message.as_str()),
    }
}

// ------------------------------------------------------- fallback

pub const SEMICOLON_ADVICE: &'static str = "Add a semicolon (;) at the end of the line.";

pub const IMPORT_ADVICE: &'static str = "You're using something that hasn't been imported/included.\n\
    Add the appropriate #include or import statement at the top of your file.";

pub const DEFINITION_ADVICE: &'static str = "Variable is not defined.\n\
    Either declare it before using, or check for typos in the name.";

pub const SYNTAX_ADVICE: &'static str = "Syntax error - check for:\n\
    • Missing or extra brackets { } [ ] ( )\n\
    • Unclosed strings\n\
    • Missing semicolons or commas";

/// The canned instruction for a lower-cased text that no extractor could
/// read. Four rules, tried in this order; the first that applies decides:
/// a missing semicolon, something not imported, something not defined, a
/// syntax slip.
pub open spec fn common_pattern(lower: Seq<char>) -> Option<Seq<char>> {
    if has_substring(lower, "expected ';'"@) || has_substring(lower, "missing semicolon"@) {
        Some(SEMICOLON_ADVICE@)
    } else if has_substring(lower, "is not a member of"@) || has_substring(
        lower,
        "was not declared"@,
    ) {
        Some(IMPORT_ADVICE@)
    } else if has_substring(lower, "is not defined"@) || has_substring(lower, "undeclared"@) {
        Some(DEFINITION_ADVICE@)
    } else if has_substring(lower, "unexpected token"@) || has_substring(
        lower,
        "was never closed"@,
    ) {
        Some(SYNTAX_ADVICE@)
    } else {
        None
    }
}

/// The canned instruction for a text that no extractor could read.
pub open spec fn raw_remediation(text: Seq<char>) -> Option<Seq<char>> {
    common_pattern(lowercase_of(text))
}

/// Looks a lower-cased text up in the four fallback rules.
pub fn common_pattern_for(lower: &str) -> (res: Option<String>)
    ensures
        res.deep_view() == common_pattern(lower@),
{
    if contains(lower, "expected ';'") || contains(lower, "missing semicolon") {
        Some(String::from_str(SEMICOLON_ADVICE))
    } else if contains(lower, "is not a member of") || contains(lower, "was not declared") {
        Some(String::from_str(IMPORT_ADVICE))
    } else if contains(lower, "is not defined") || contains(lower, "undeclared") {
        Some(String::from_str(DEFINITION_ADVICE))
    } else if contains(lower, "unexpected token") || contains(lower, "was never closed") {
        Some(String::from_str(SYNTAX_ADVICE))
    } else {
        None
    }
}

/// The fallback for a text that no extractor could read: a short canned
/// instruction, or `None` for an unknown pattern.
pub fn try_common_patterns(error_text: &str) -> (res: Option<String>)
    ensures
        res.deep_view() == raw_remediation(error_text@),
{
    let lower = error_text.to_lowercase();
    common_pattern_for(lower.as_str())
}

// ------------------------------------------------------- analysis

/// What became of a diagnostic text.
#[derive(Debug, Clone)]
pub enum Analysis {
    /// An extractor read the text: the record and its fix suggestion.
    Parsed { error: ParsedError, fix: FixOutput },
    /// No extractor read it, but a fallback rule applies.
    Pattern(String),
    /// Nothing applies.
    Unrecognized,
}

/// The mathematical model of an [`Analysis`].
pub enum AnalysisView {
    Parsed { error: Diagnostic, fix: Fix },
    Pattern(Seq<char>),
    Unrecognized,
}

impl View for Analysis {
    type V = AnalysisView;

    open spec fn view(&self) -> AnalysisView {
        match *self {
            Analysis::Parsed { error, fix } => AnalysisView::Parsed { error: error@, fix: fix@ },
            Analysis::Pattern(advice) => AnalysisView::Pattern(advice@),
            Analysis::Unrecognized => AnalysisView::Unrecognized,
        }
    }
}

impl DeepView for Analysis {
    type V = AnalysisView;

    open spec fn deep_view(&self) -> AnalysisView {
        self@
    }
}

/// The two-stage pipeline: the dispatcher's record with its fix, else the
/// fallback's instruction, else nothing.
pub open spec fn analysis_of(text: Seq<char>) -> AnalysisView {
    match parse_of(text) {
        Some(d) => AnalysisView::Parsed { error: d, fix: remediation(d) },
        None => match raw_remediation(text) {
            Some(advice) => AnalysisView::Pattern(advice),
            None => AnalysisView::Unrecognized,
        },
    }
}

/// Analyses one diagnostic text.
pub fn analyze_error(error_text: &str) -> (res: Analysis)
    ensures
        res@ == analysis_of(error_text@),
        res matches Analysis::Parsed { error, .. } ==> one_based(error@),
{
    match parse_error(error_text) {
        Some(error) => {
            let fix = remediate(&error);
            Analysis::Parsed { error, fix }
        },
        None => match try_common_patterns(error_text) {
            Some(advice) => Analysis::Pattern(advice),
            None => Analysis::Unrecognized,
        },
    }
}

// ----------------------------------------------------------- laws

/// Equal diagnostics get equal suggestions: the suggestion depends on
/// nothing but the diagnostic.
pub proof fn law_remediation_repeatable(first: ParsedError, second: ParsedError)
    requires
        first@ == second@,
    ensures
        remediation(first@) == remediation(second@),
{
}

/// A missing header is suggested for C++ only, and a missing semicolon only
/// for the languages that end statements with one: every other language
/// gets the empty suggestion.
pub proof fn law_language_gates(d: Diagnostic)
    ensures
        d.kind is MissingInclude && d.language != Language::Cpp ==> remediation(d) == no_fix(),
        d.kind is MissingInclude && d.language == Language::Cpp ==> remediation(d).diff is Some,
        d.kind is MissingSemicolon && !uses_semicolons(d.language) ==> remediation(d) == no_fix(),
        d.kind is MissingSemicolon && uses_semicolons(d.language) ==> remediation(d).diff is Some,
        d.kind is Unknown ==> remediation(d).diff is None,
{
}

/// Names that differ in case only are the same to the whitelist of
/// standard-library types.
pub proof fn law_std_type_ignores_case(a: Seq<char>, b: Seq<char>)
    requires
        lowercase_of(a) == lowercase_of(b),
    ensures
        std_type(a) == std_type(b),
{
}

/// The fallback rules apply in their fixed order: a text that mentions a
/// missing semicolon gets the semicolon instruction whatever else it
/// mentions, and each later rule decides only where no earlier one applies.
pub proof fn law_fallback_order(text: Seq<char>)
    ensures
        ({
            let lower = lowercase_of(text);
            let semicolon = has_substring(lower, "expected ';'"@) || has_substring(
                lower,
                "missing semicolon"@,
            );
            let import = has_substring(lower, "is not a member of"@) || has_substring(
                lower,
                "was not declared"@,
            );
            let definition = has_substring(lower, "is not defined"@) || has_substring(
                lower,
                "undeclared"@,
            );
            let syntax = has_substring(lower, "unexpected token"@) || has_substring(
                lower,
                "was never closed"@,
            );
            &&& semicolon ==> raw_remediation(text) == Some(SEMICOLON_ADVICE@)
            &&& !semicolon && import ==> raw_remediation(text) == Some(IMPORT_ADVICE@)
            &&& !semicolon && !import && definition ==> raw_remediation(text) == Some(
                DEFINITION_ADVICE@,
            )
            &&& !semicolon && !import && !definition && syntax ==> raw_remediation(text) == Some(
                SYNTAX_ADVICE@,
            )
            &&& !semicolon && !import && !definition && !syntax ==> raw_remediation(text) is None
        }),
{
}

/// The rules for a syntax error apply in their fixed order: an unexpected
/// token first, then an unclosed delimiter, then something expected, then
/// anything else. Only the last two bodies repeat the detail.
pub proof fn law_syntax_rule_order(details: Seq<char>, lower: Seq<char>)
    ensures
        ({
            let token = has_substring(lower, "unexpected token"@);
            let unclosed = has_substring(lower, "was never closed"@) || has_substring(
                lower,
                "unterminated"@,
            );
            let expected = has_substring(lower, "expected"@);
            let body = syntax_error_body(details, lower);
            &&& token ==> body == UNEXPECTED_TOKEN_BODY@
            &&& !token && unclosed ==> body == UNCLOSED_BODY@
            &&& !token && !unclosed && expected ==> body == expected_body(details)
            &&& !token && !unclosed && !expected ==> body == syntax_body(details)
        }),
{
}

/// A text that no extractor reads and no fallback rule knows is reported
/// as unrecognized, and no other text is.
pub proof fn law_unrecognized(text: Seq<char>)
    ensures
        analysis_of(text) is Unrecognized <==> parse_of(text) is None && raw_remediation(text)
            is None,
{
}

} // verus!
