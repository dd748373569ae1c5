use essentialscode::fixer::Analysis;
use essentialscode::parser::{ErrorType, Language};
use essentialscode::scanner::{
    analyze_python_file, detect_languages, display_path, first_lines, first_mentioning,
    first_mentioning_either, is_cpp_source, is_javascript_source, is_python_source,
    language_for_extension, language_from_lower, lines_mentioning, process_compiler_errors,
    process_js_error, process_python_error, pylint_errors, python_locations, python_warnings_for,
    trim_all, JsReport, PythonWarning,
};

fn strings(texts: &[&str]) -> Vec<String> {
    texts.iter().map(|t| t.to_string()).collect()
}

// ==================== Languages ====================

#[test]
fn language_names_are_matched_in_lower_case_only() {
    assert_eq!(language_from_lower("c++"), Language::Cpp);
    assert_eq!(language_from_lower("C++"), Language::Unknown);
    assert_eq!(language_from_lower("rs"), Language::Rust);
}

#[test]
fn extensions_map_to_languages() {
    for ext in ["cpp", "cc", "cxx", "c", "h", "hpp"] {
        assert_eq!(language_for_extension(ext), Some(Language::Cpp));
    }
    assert_eq!(language_for_extension("py"), Some(Language::Python));
    for ext in ["js", "jsx", "mjs"] {
        assert_eq!(language_for_extension(ext), Some(Language::JavaScript));
    }
    for ext in ["ts", "tsx"] {
        assert_eq!(language_for_extension(ext), Some(Language::TypeScript));
    }
    assert_eq!(language_for_extension("rs"), Some(Language::Rust));
    for ext in ["", "txt", "PY", "java", "cjs"] {
        assert_eq!(language_for_extension(ext), None);
    }
}

#[test]
fn languages_come_once_in_order_of_first_appearance() {
    let langs = detect_languages(&strings(&["txt", "PY", "h", "py", "Rs", "cpp", "md", "tsx", "rs"]));
    assert_eq!(langs, vec![Language::Python, Language::Cpp, Language::Rust, Language::TypeScript]);
}

// ==================== File selection ====================

#[test]
fn cpp_sources_exclude_headers() {
    for ext in ["cpp", "cc", "cxx", "c", "CPP", "Cc"] {
        assert!(is_cpp_source(ext));
    }
    for ext in ["h", "hpp", "py", ""] {
        assert!(!is_cpp_source(ext));
    }
}

#[test]
fn python_sources_exclude_caches_and_environments() {
    assert!(is_python_source("py", "/p/src/app.py"));
    assert!(is_python_source("PY", "/p/src/APP.PY"));
    assert!(!is_python_source("pyc", "/p/src/app.pyc"));
    assert!(!is_python_source("py", "/p/__pycache__/app.py"));
    assert!(!is_python_source("py", "/p/.venv/lib/app.py"));
    assert!(!is_python_source("py", "/p/venv/lib/app.py"));
    assert!(!is_python_source("py", "/p/node_modules/x/app.py"));
    assert!(!is_python_source("py", "/p/.git/hooks/app.py"));
    // A name is looked for anywhere in the path.
    assert!(!is_python_source("py", "/p/src/convenv.py"));
}

#[test]
fn javascript_sources_exclude_installed_packages() {
    assert!(is_javascript_source("js", "/p/src/a.js"));
    assert!(is_javascript_source("JSX", "/p/src/a.JSX"));
    assert!(is_javascript_source("mjs", "/p/src/a.mjs"));
    assert!(!is_javascript_source("ts", "/p/src/a.ts"));
    assert!(!is_javascript_source("js", "/p/node_modules/x/a.js"));
}

#[test]
fn display_path_drops_the_verbatim_prefix() {
    assert_eq!(display_path(r"\\?\C:\work\app"), r"C:\work\app");
    assert_eq!(display_path(r"C:\work\app"), r"C:\work\app");
    assert_eq!(display_path(r"C:\\?\work"), r"C:\\?\work");
    assert_eq!(display_path("/home/x"), "/home/x");
    assert_eq!(display_path(r"\\?\"), "");
    assert_eq!(display_path(""), "");
}

// ==================== Lines ====================

#[test]
fn line_helpers() {
    let lines = strings(&["  alpha ", "beta error:", "\tgamma Error: x", "delta error: y"]);
    assert_eq!(lines_mentioning(&lines, "error:"), strings(&["beta error:", "delta error: y"]));
    assert_eq!(lines_mentioning(&lines, "zeta"), Vec::<String>::new());
    assert_eq!(first_mentioning(&lines, "error:"), Some(1));
    assert_eq!(first_mentioning(&lines, "Error:"), Some(2));
    assert_eq!(first_mentioning(&lines, "zeta"), None);
    assert_eq!(first_mentioning_either(&lines, "zeta", "gamma"), Some(2));
    assert_eq!(first_mentioning_either(&lines, "delta", "alpha"), Some(0));
    assert_eq!(first_mentioning_either(&lines, "zeta", "eta"), Some(1));
    assert_eq!(first_mentioning_either(&lines, "zeta", "theta"), None);
    assert_eq!(trim_all(&lines), strings(&["alpha", "beta error:", "gamma Error: x", "delta error: y"]));
    assert_eq!(first_lines(&lines, 2), strings(&["  alpha ", "beta error:"]));
    assert_eq!(first_lines(&lines, 0), Vec::<String>::new());
    assert_eq!(first_lines(&lines, 9), lines);
}

// ==================== Compiler output ====================

#[test]
fn compiler_errors_are_counted_by_line() {
    let output = "main.cpp:5:10: error: 'vector' is not a member of 'std'\n  note: x\nmain.cpp:9:1: error: expected ';' before '}'\n";
    let report = process_compiler_errors(output);
    assert_eq!(report.count(), 2);
    assert_eq!(
        report.error_lines,
        strings(&[
            "main.cpp:5:10: error: 'vector' is not a member of 'std'",
            "main.cpp:9:1: error: expected ';' before '}'",
        ])
    );
    match report.analysis {
        Some(Analysis::Parsed { error, .. }) => {
            assert_eq!(error.line, Some(5));
            assert_eq!(error.error_type, ErrorType::MissingInclude("vector".to_string()));
        }
        other => panic!("not parsed: {:?}", other),
    }
}

#[test]
fn compiler_output_without_errors_is_not_analysed() {
    let report = process_compiler_errors("warning: unused variable\nError: capitalised\n");
    assert_eq!(report.count(), 0);
    assert!(report.error_lines.is_empty());
    assert!(report.analysis.is_none());
    assert_eq!(process_compiler_errors("").count(), 0);
}

// ==================== Python output ====================

#[test]
fn python_traceback_is_read_up_to_the_error() {
    let stderr = "Traceback (most recent call last):\n  File \"a.py\", line 3, in <module>\n    f()\n  File \"b.py\", line 9, in f\nKeyError: 'id'\n  File \"c.py\", line 1\nValueError: late\n";
    let report = process_python_error(stderr);
    assert_eq!(report.count(), 1);
    assert_eq!(
        report.locations,
        strings(&["File \"a.py\", line 3, in <module>", "File \"b.py\", line 9, in f"])
    );
    assert_eq!(report.error.as_deref(), Some("KeyError: 'id'"));
    match report.analysis {
        Some(Analysis::Parsed { error, .. }) => {
            assert_eq!(error.file, "a.py");
            assert_eq!(error.error_type, ErrorType::KeyError("'id'".to_string()));
        }
        other => panic!("not parsed: {:?}", other),
    }
}

#[test]
fn python_error_line_may_itself_be_a_location() {
    let report = process_python_error("  File \"a.py\", line 3: Error: both  ");
    assert_eq!(report.locations, strings(&["File \"a.py\", line 3: Error: both"]));
    assert_eq!(report.error.as_deref(), Some("File \"a.py\", line 3: Error: both"));
    assert_eq!(report.count(), 1);
}

#[test]
fn python_traceback_without_an_error_line() {
    let report = process_python_error("Traceback (most recent call last):\n  File \"a.py\", line 3\n");
    assert_eq!(report.count(), 0);
    assert_eq!(report.locations, strings(&["File \"a.py\", line 3"]));
    assert!(report.error.is_none());
    assert!(report.analysis.is_none());
}

#[test]
fn python_output_that_is_no_traceback() {
    let report = process_python_error("  File \"a.py\", line 3\nMyException: quiet\n");
    assert_eq!(report.count(), 0);
    assert!(report.locations.is_empty());
    assert!(report.error.is_none());
    assert!(report.analysis.is_none());
    // `Exception:` ends the reading only once the output counts as a traceback.
    let report = process_python_error("Traceback\nMyException: loud\n");
    assert_eq!(report.error.as_deref(), Some("MyException: loud"));
}

#[test]
fn python_locations_stop_at_the_given_line() {
    let lines = strings(&[" File \"a.py\", line 1 ", "x", "File \"b.py\", line 2", "File \"c.py\""]);
    assert_eq!(python_locations(&lines, 0), Vec::<String>::new());
    assert_eq!(python_locations(&lines, 2), strings(&["File \"a.py\", line 1"]));
    assert_eq!(
        python_locations(&lines, 4),
        strings(&["File \"a.py\", line 1", "File \"b.py\", line 2"])
    );
}

#[test]
fn pylint_errors_are_the_lines_with_an_error_code() {
    let stdout = "************* Module a\na.py:3:0: E0602: Undefined variable 'x'\na.py:4:0: W0611: Unused import\na.py:9:4: E1101: no member\n";
    assert_eq!(
        pylint_errors(stdout),
        strings(&["a.py:3:0: E0602: Undefined variable 'x'", "a.py:9:4: E1101: no member"])
    );
    assert_eq!(pylint_errors("a.py:4:0: W0611: Unused import\n"), Vec::<String>::new());
    assert_eq!(pylint_errors("  \n"), Vec::<String>::new());
    assert_eq!(pylint_errors(""), Vec::<String>::new());
}

// ==================== JavaScript output ====================

#[test]
fn js_missing_module() {
    let report = process_js_error("Error: Cannot find module 'express'\nRequire stack:\n- /p/a.js");
    assert_eq!(report.count(), 1);
    match report {
        JsReport::MissingModule { module } => assert_eq!(module, "express"),
        other => panic!("{:?}", other),
    }
    match process_js_error("Cannot find module express\nSyntaxError: x") {
        JsReport::MissingModule { module } => assert_eq!(module, "unknown"),
        other => panic!("{:?}", other),
    }
}

#[test]
fn js_syntax_error() {
    let stderr = "/p/a.js:3\n  let = ;\n      ^\n\n  SyntaxError: Unexpected token '='  \n    at wrapSafe";
    let report = process_js_error(stderr);
    assert_eq!(report.count(), 1);
    match report {
        JsReport::Syntax { statement, analysis } => {
            assert_eq!(statement.as_deref(), Some("SyntaxError: Unexpected token '='"));
            match analysis {
                Analysis::Parsed { error, .. } => {
                    assert_eq!(error.language, Language::JavaScript);
                    assert!(matches!(error.error_type, ErrorType::SyntaxError(_)));
                }
                other => panic!("{:?}", other),
            }
        }
        other => panic!("{:?}", other),
    }
    match process_js_error("SyntaxError without a colon") {
        JsReport::Syntax { statement, analysis } => {
            assert_eq!(statement, None);
            assert!(matches!(analysis, Analysis::Unrecognized));
        }
        other => panic!("{:?}", other),
    }
}

#[test]
fn js_runtime_error() {
    let stderr = "/p/a.js:3\n  foo();\n  ReferenceError: foo is not defined\n    at Object (/p/a.js:3:1)\nTypeError: second";
    match process_js_error(stderr) {
        JsReport::Runtime { line, analysis } => {
            assert_eq!(line, "ReferenceError: foo is not defined");
            assert!(matches!(analysis, Analysis::Parsed { .. }));
        }
        other => panic!("{:?}", other),
    }
}

#[test]
fn js_runtime_error_that_no_line_states_falls_to_the_other_rules() {
    match process_js_error("TypeError\n  internal error: detail  \n") {
        JsReport::Other { line } => assert_eq!(line, "internal error: detail"),
        other => panic!("{:?}", other),
    }
    match process_js_error("TypeError\n") {
        JsReport::Excerpt { lines } => assert_eq!(lines, strings(&["TypeError"])),
        other => panic!("{:?}", other),
    }
}

#[test]
fn js_other_error_and_excerpt() {
    match process_js_error("node: RangeError: Invalid length\n  at x") {
        JsReport::Other { line } => assert_eq!(line, "node: RangeError: Invalid length"),
        other => panic!("{:?}", other),
    }
    let report = process_js_error("1 Error\n2\n3\n4\n 5\n6\n7");
    assert_eq!(report.count(), 1);
    match report {
        JsReport::Excerpt { lines } => assert_eq!(lines, strings(&["1 Error", "2", "3", "4", " 5"])),
        other => panic!("{:?}", other),
    }
}

#[test]
fn js_clean_output() {
    let report = process_js_error("warning: deprecated\nerror: lower case only");
    assert!(matches!(report, JsReport::Clean));
    assert_eq!(report.count(), 0);
    assert_eq!(process_js_error("").count(), 0);
}

// ==================== Python source text ====================

fn warning(line: Option<usize>, message: &str) -> PythonWarning {
    PythonWarning { line, message: message.to_string() }
}

#[test]
fn python_source_warnings_in_fixed_order() {
    let content = "import os\nname = data[\"name\"].upper()\nkey = os.getenv(\"KEY\")\nother = os.getenv(\"OTHER\")\nwhen = datetime.fromisoformat(s)\n";
    assert_eq!(
        analyze_python_file(content),
        vec![
            warning(Some(3), "Possible None value from getenv - check if variable exists"),
            warning(Some(2), "Direct dict access may raise KeyError if key missing"),
            warning(Some(2), "Calling .upper() on possibly None value"),
            warning(Some(5), "fromisoformat() will fail on None or invalid string"),
        ]
    );
}

#[test]
fn python_source_every_warning() {
    let content = "u = f\"{os.getenv('API')}/http\"\na = os.getenv(\nb = d.get(\"k\")\nc = r.json()[0]\ne = data[\"k\"]\nf = s.lower()\ng = s.upper()\nh = datetime.fromisoformat(s)";
    assert_eq!(
        analyze_python_file(content),
        vec![
            warning(Some(1), "Possible None value from getenv - check if variable exists"),
            warning(Some(3), "Dictionary .get() may return None - handle None case"),
            warning(Some(4), "Direct JSON access may raise KeyError - use .get()"),
            warning(Some(5), "Direct dict access may raise KeyError if key missing"),
            warning(Some(6), "Calling .lower() on possibly None value"),
            warning(Some(7), "Calling .upper() on possibly None value"),
            warning(Some(8), "fromisoformat() will fail on None or invalid string"),
            warning(None, "Using getenv in URL string - will be 'None' if env var missing!"),
        ]
    );
}

#[test]
fn python_source_url_warning_needs_all_three() {
    let url = warning(None, "Using getenv in URL string - will be 'None' if env var missing!");
    assert_eq!(analyze_python_file("x = f\"a\"\nos.getenv\nURL"), vec![url.clone()]);
    assert_eq!(analyze_python_file("x = f\"a\"\nos.getenv\nurl"), vec![url.clone()]);
    assert_eq!(analyze_python_file("x = f\"a\"\nos.getenv\nUrl"), vec![]);
    assert_eq!(analyze_python_file("x = f'a'\nos.getenv\nurl"), vec![]);
    assert_eq!(analyze_python_file("x = f\"a\"\nurl"), vec![]);
    assert_eq!(analyze_python_file(""), vec![]);
}

#[test]
fn python_source_warning_needs_a_line_that_shows_the_call() {
    // The text holds the call, the lines handed in do not: no warning.
    assert_eq!(python_warnings_for("s.lower()", &strings(&["s.low", "er()"])), vec![]);
    assert_eq!(
        python_warnings_for("s.lower()", &strings(&["x", "s.lower()"])),
        vec![warning(Some(2), "Calling .lower() on possibly None value")]
    );
    assert_eq!(python_warnings_for("nothing", &strings(&["s.lower()"])), vec![]);
}
