use essentialscode::fixer::{analyze_error, remediate, try_common_patterns, Analysis};
use essentialscode::parser::{
    classify_cpp_message, classify_js_error, classify_python_error, classify_requests_error,
    classify_rust_error, classify_typescript_error, cpp_error_from, detect_cpp_error_type,
    js_error_from, parse_cpp_error, parse_error, parse_js_error, parse_python_error,
    parse_rust_error, python_error_from, requests_error_from, rust_error_from,
    typescript_error_from, ErrorType, Language,
};

fn groups(texts: &[Option<&str>]) -> Vec<Option<String>> {
    texts.iter().map(|t| t.map(|s| s.to_string())).collect()
}

fn found(texts: &[Option<&str>]) -> Option<Vec<Option<String>>> {
    Some(groups(texts))
}

// ==================== Scenarios ====================

#[test]
fn scenario_cpp_missing_vector() {
    let parsed = parse_error("main.cpp:5:10: error: 'vector' is not a member of 'std'").unwrap();
    assert_eq!(parsed.language, Language::Cpp);
    assert_eq!(parsed.file, "main.cpp");
    assert_eq!(parsed.line, Some(5));
    assert_eq!(parsed.column, Some(10));
    assert_eq!(parsed.message, "'vector' is not a member of 'std'");
    assert_eq!(parsed.error_type, ErrorType::MissingInclude("vector".to_string()));
}

#[test]
fn scenario_python_name_error() {
    let parsed =
        parse_error("File \"app.py\", line 15\nNameError: name 'undefined_var' is not defined")
            .unwrap();
    assert_eq!(parsed.error_type, ErrorType::UndeclaredVariable("undefined_var".to_string()));
    assert_eq!(parsed.language, Language::Python);
    assert_eq!(parsed.line, Some(15));
    assert_eq!(parsed.column, None);
    assert_eq!(parsed.file, "app.py");
    assert_eq!(parsed.message, "NameError: name 'undefined_var' is not defined");
}

#[test]
fn scenario_typescript_unknown_name() {
    let parsed =
        parse_error("src/app.ts(10,15): error TS2304: Cannot find name 'unknownType'").unwrap();
    assert_eq!(parsed.language, Language::TypeScript);
    assert_eq!(parsed.error_type, ErrorType::UndeclaredVariable("unknownType".to_string()));
    assert_eq!(parsed.line, Some(10));
    assert_eq!(parsed.column, Some(15));
    assert_eq!(parsed.message, "TS2304: Cannot find name 'unknownType'");
}

#[test]
fn scenario_rust_borrow_error() {
    let parsed = parse_error("error[E0502]: cannot borrow `x`...\n --> src/main.rs:5:10").unwrap();
    assert_eq!(parsed.error_type, ErrorType::BorrowError("cannot borrow `x`...".to_string()));
    assert_eq!(parsed.file, "src/main.rs");
    assert_eq!(parsed.line, Some(5));
    assert_eq!(parsed.column, Some(10));
    assert_eq!(parsed.language, Language::Rust);
    assert_eq!(parsed.message, "cannot borrow `x`...");
}

#[test]
fn scenario_random_text() {
    assert!(parse_error("completely random text").is_none());
    assert_eq!(try_common_patterns("completely random text"), None);
    assert!(matches!(analyze_error("completely random text"), Analysis::Unrecognized));
}

// ==================== Priority ====================

#[test]
fn cpp_wins_over_python() {
    let text = "main.cpp:5:10: error: oops\nFile \"app.py\", line 3\nNameError: name 'y' is not defined";
    assert!(parse_cpp_error(text).is_some());
    assert!(parse_python_error(text).is_some());
    assert_eq!(parse_error(text).unwrap().language, Language::Cpp);
}

#[test]
fn python_wins_over_javascript() {
    let text = "File \"app.py\", line 3\nTypeError: bad\n    at app.js:1:2";
    assert!(parse_cpp_error(text).is_none());
    assert!(parse_python_error(text).is_some());
    assert!(parse_js_error(text).is_some());
    assert_eq!(parse_error(text).unwrap().language, Language::Python);
}

#[test]
fn javascript_wins_over_rust() {
    let text = "app.js:1:2\nTypeError: x\nerror[E0502]: cannot borrow\n --> src/main.rs:5:10";
    assert!(parse_python_error(text).is_none());
    assert!(parse_js_error(text).is_some());
    assert!(parse_rust_error(text).is_some());
    assert_eq!(parse_error(text).unwrap().language, Language::JavaScript);
}

#[test]
fn typescript_compiler_shape_wins_over_the_generic_one() {
    let text = "a.ts(1,2): error TS1005: ';' expected.\nb.js:3:4\nSyntaxError: bad";
    let parsed = parse_js_error(text).unwrap();
    assert_eq!(parsed.file, "a.ts");
    assert_eq!(parsed.language, Language::TypeScript);
    assert_eq!(parsed.error_type, ErrorType::Unknown("';' expected.".to_string()));
}

// ==================== C++ rules ====================

#[test]
fn cpp_include_in_the_text_wins_over_the_hint() {
    let text = "main.cpp:5:10: error: 'vector' is not a member of 'std'\nnote: add #include <deque>";
    assert_eq!(
        parse_error(text).unwrap().error_type,
        ErrorType::MissingInclude("deque".to_string())
    );
}

#[test]
fn cpp_header_hints_in_order() {
    let kind = |message: &str| detect_cpp_error_type(message, message);
    assert_eq!(kind("'Vector' is not a member of 'std'"), ErrorType::MissingInclude("vector".to_string()));
    assert_eq!(
        kind("'string' or 'vector' was not declared"),
        ErrorType::MissingInclude("vector".to_string())
    );
    assert_eq!(kind("'string' was not declared"), ErrorType::MissingInclude("string".to_string()));
    assert_eq!(kind("'cout' was not declared"), ErrorType::MissingInclude("iostream".to_string()));
    assert_eq!(kind("'cin' was not declared"), ErrorType::MissingInclude("iostream".to_string()));
    assert_eq!(kind("'map' is not a member of 'std'"), ErrorType::MissingInclude("map".to_string()));
    assert_eq!(kind("'set' is not a member of 'std'"), ErrorType::MissingInclude("set".to_string()));
    // `multimap` holds `map`; a hint is a substring, not a word.
    assert_eq!(kind("'multimap' was not declared"), ErrorType::MissingInclude("map".to_string()));
}

#[test]
fn cpp_semicolon_before_undeclared() {
    let kind = |message: &str| detect_cpp_error_type(message, message);
    assert_eq!(kind("'x' was not declared; expected ';'"), ErrorType::MissingSemicolon);
    assert_eq!(kind("Expected ';' after expression"), ErrorType::MissingSemicolon);
    assert_eq!(
        kind("use of undeclared identifier 'Foo'"),
        ErrorType::UndeclaredVariable("foo".to_string())
    );
    assert_eq!(
        kind("'x' was not declared in this scope"),
        ErrorType::UndeclaredVariable("x".to_string())
    );
    assert_eq!(kind("no matching function"), ErrorType::Unknown("no matching function".to_string()));
}

#[test]
fn cpp_classification_from_given_matches() {
    let none = None;
    // No marker in the lower-cased text: the include match is not looked at.
    assert_eq!(
        classify_cpp_message("M", "plain", &found(&[Some("x"), Some("vector")]), &none),
        ErrorType::Unknown("M".to_string())
    );
    assert_eq!(
        classify_cpp_message("M", "was not declared", &found(&[Some("x"), Some("deque")]), &none),
        ErrorType::MissingInclude("deque".to_string())
    );
    // The second branch of the pattern fills group 2 only.
    assert_eq!(
        classify_cpp_message("M", "plain", &none, &found(&[Some("w"), None, Some("name")])),
        ErrorType::UndeclaredVariable("name".to_string())
    );
    assert_eq!(
        classify_cpp_message("M", "plain", &none, &found(&[Some("w"), Some("first"), Some("second")])),
        ErrorType::UndeclaredVariable("first".to_string())
    );
    assert_eq!(
        classify_cpp_message("M", "plain", &none, &found(&[Some("w")])),
        ErrorType::Unknown("M".to_string())
    );
}

#[test]
fn cpp_record_from_given_groups() {
    let full = groups(&[Some("all"), Some("a.cc"), Some("cc"), Some("7"), Some("+9"), Some("msg")]);
    let parsed = cpp_error_from(&full, ErrorType::MissingSemicolon).unwrap();
    assert_eq!(parsed.file, "a.cc");
    assert_eq!(parsed.line, Some(7));
    assert_eq!(parsed.column, Some(9));
    assert_eq!(parsed.message, "msg");
    assert_eq!(parsed.error_type, ErrorType::MissingSemicolon);
    assert_eq!(parsed.language, Language::Cpp);

    let short = groups(&[Some("all"), Some("a.cc"), Some("cc"), Some("7")]);
    assert!(cpp_error_from(&short, ErrorType::MissingSemicolon).is_none());
    let silent = groups(&[Some("all"), None, Some("cc"), Some("7"), Some("9"), Some("msg")]);
    assert!(cpp_error_from(&silent, ErrorType::MissingSemicolon).is_none());
    let wide = groups(&[Some("all"), Some("a.cc"), Some("cc"), Some("4294967296"), Some("9"), Some("m")]);
    assert!(cpp_error_from(&wide, ErrorType::MissingSemicolon).is_none());
}

#[test]
fn cpp_header_files_are_read() {
    let parsed = parse_error("util.hpp:1:1: error: bad").unwrap();
    assert_eq!(parsed.file, "util.hpp");
    assert_eq!(parsed.line, Some(1));
    assert_eq!(parsed.column, Some(1));
    assert_eq!(parsed.error_type, ErrorType::Unknown("bad".to_string()));
}

#[test]
fn a_position_of_zero_is_no_position() {
    // Where the shape asks for a line and a column, a zero is no match.
    assert!(parse_error("util.hpp:0:0: error: bad").is_none());
    assert!(parse_cpp_error("main.cpp:0:1: error: x").is_none());
    assert!(parse_cpp_error("main.cpp:1:0: error: x").is_none());
    assert!(parse_cpp_error("main.cpp:000:1: error: x").is_none());
    assert_eq!(parse_cpp_error("main.cpp:001:010: error: x").unwrap().column, Some(10));
    assert!(parse_python_error("File \"a.py\", line 0\nKeyError: 'k'").is_none());
    assert!(parse_js_error("a.ts(0,1): error TS1: x").is_none());
    assert!(parse_js_error("a.ts(1,0): error TS1: x").is_none());
    assert!(parse_js_error("a.js:0:1\nTypeError: x").is_none());
    assert!(parse_rust_error("error[E0001]: x\n --> a.rs:0:1").is_none());
    assert!(parse_rust_error("error[E0001]: x\n --> a.rs:1:0").is_none());

    // Where the position is optional, a zero leaves it out.
    let parsed = parse_js_error("a.js:3:0\nTypeError: x").unwrap();
    assert_eq!(parsed.line, Some(3));
    assert_eq!(parsed.column, None);
    let parsed =
        parse_python_error("File \"a.py\", line 0\nrequests.exceptions.Timeout: slow").unwrap();
    assert_eq!(parsed.file, "a.py");
    assert_eq!(parsed.line, None);

    let zero = groups(&[Some("all"), Some("a.cc"), Some("cc"), Some("0"), Some("9"), Some("msg")]);
    assert!(cpp_error_from(&zero, ErrorType::MissingSemicolon).is_none());
    let zero = groups(&[Some("w"), Some("a.rs"), Some("1"), Some("0")]);
    assert!(rust_error_from(&zero, "m", ErrorType::MissingSemicolon).is_none());
    let zero = groups(&[Some("w"), Some("a.py"), Some("0")]);
    assert!(python_error_from(&zero, "KeyError", "'k'", ErrorType::IndentationError).is_none());
    let zero = groups(&[Some("w"), Some("a.js"), Some("js"), Some("2"), Some("0")]);
    let parsed = js_error_from(&zero, "TypeError", "d", ErrorType::TypeError("d".to_string())).unwrap();
    assert_eq!(parsed.column, None);
    let requests = groups(&[Some("w"), Some("Timeout"), Some("slow")]);
    let parsed = requests_error_from(&found(&[Some("w"), Some("a.py"), Some("0")]), &requests).unwrap();
    assert_eq!(parsed.line, None);
}

#[test]
fn a_line_number_too_large_for_32_bits_is_no_match() {
    assert!(parse_cpp_error("main.cpp:4294967296:1: error: x").is_none());
    assert_eq!(parse_cpp_error("main.cpp:4294967295:1: error: x").unwrap().line, Some(4294967295));
    assert!(parse_rust_error("error[E0001]: x\n --> a.rs:1:99999999999").is_none());
    assert!(parse_js_error("a.ts(99999999999,1): error TS1: x").is_none());
    assert!(parse_python_error("File \"a.py\", line 99999999999\nKeyError: 'k'").is_none());
}

// ==================== Python rules ====================

#[test]
fn python_needs_marker_and_exception() {
    assert!(parse_python_error("File \"a.py\", line 3").is_none());
    assert!(parse_python_error("KeyError: 'k'").is_none());
    assert!(parse_python_error("File \"a.txt\", line 3\nKeyError: 'k'").is_none());
}

#[test]
fn python_classes_map_one_to_one() {
    let kind = |line: &str| {
        parse_python_error(&format!("File \"a.py\", line 3\n{}", line)).unwrap().error_type
    };
    assert_eq!(kind("SyntaxError: invalid syntax"), ErrorType::SyntaxError("invalid syntax".to_string()));
    assert_eq!(kind("IndentationError: unexpected indent"), ErrorType::IndentationError);
    assert_eq!(kind("NameError: something else"), ErrorType::Unknown("something else".to_string()));
    assert_eq!(
        kind("ModuleNotFoundError: No module named 'numpy'"),
        ErrorType::ImportError("numpy".to_string())
    );
    assert_eq!(
        kind("ImportError: cannot import name 'x'"),
        ErrorType::ImportError("cannot import name 'x'".to_string())
    );
    assert_eq!(kind("TypeError: t"), ErrorType::TypeError("t".to_string()));
    assert_eq!(kind("KeyError: 'k'"), ErrorType::KeyError("'k'".to_string()));
    assert_eq!(kind("AttributeError: a"), ErrorType::AttributeError("a".to_string()));
    assert_eq!(kind("ValueError: v"), ErrorType::ValueError("v".to_string()));
}

#[test]
fn python_classification_from_given_matches() {
    let none = None;
    let name = found(&[Some("w"), Some("var")]);
    let module = found(&[Some("w"), Some("mod")]);
    assert_eq!(
        classify_python_error("NameError", "d", &name, &module),
        ErrorType::UndeclaredVariable("var".to_string())
    );
    assert_eq!(classify_python_error("NameError", "d", &none, &module), ErrorType::Unknown("d".to_string()));
    assert_eq!(
        classify_python_error("ImportError", "d", &name, &module),
        ErrorType::ImportError("mod".to_string())
    );
    assert_eq!(
        classify_python_error("ModuleNotFoundError", "d", &name, &none),
        ErrorType::ImportError("d".to_string())
    );
    assert_eq!(classify_python_error("KeyError", "d", &name, &module), ErrorType::KeyError("d".to_string()));
    assert_eq!(classify_python_error("OSError", "d", &name, &module), ErrorType::Unknown("d".to_string()));
    assert_eq!(classify_python_error("nameerror", "d", &name, &module), ErrorType::Unknown("d".to_string()));
}

#[test]
fn python_record_from_given_groups() {
    let marker = groups(&[Some("w"), Some("a.py"), Some("12")]);
    let parsed = python_error_from(&marker, "KeyError", "'k'", ErrorType::KeyError("'k'".to_string())).unwrap();
    assert_eq!(parsed.file, "a.py");
    assert_eq!(parsed.line, Some(12));
    assert_eq!(parsed.column, None);
    assert_eq!(parsed.message, "KeyError: 'k'");
    assert_eq!(parsed.language, Language::Python);
    let marker = groups(&[Some("w"), Some("a.py"), Some("x")]);
    assert!(python_error_from(&marker, "KeyError", "'k'", ErrorType::IndentationError).is_none());
    let marker = groups(&[Some("w"), Some("a.py")]);
    assert!(python_error_from(&marker, "KeyError", "'k'", ErrorType::IndentationError).is_none());
}

#[test]
fn requests_exception_needs_no_file_marker() {
    let parsed = parse_error("requests.exceptions.ConnectionError: refused").unwrap();
    assert_eq!(parsed.language, Language::Python);
    assert_eq!(parsed.file, "unknown.py");
    assert_eq!(parsed.line, None);
    assert_eq!(parsed.column, None);
    assert_eq!(parsed.message, "requests.exceptions.ConnectionError: refused");
    assert_eq!(parsed.error_type, ErrorType::RequestsError("ConnectionError: refused".to_string()));
}

#[test]
fn requests_exception_is_looked_for_first() {
    let text = "File \"api.py\", line 8\nKeyError: 'k'\nrequests.exceptions.Timeout: slow";
    let parsed = parse_error(text).unwrap();
    assert_eq!(parsed.file, "api.py");
    assert_eq!(parsed.line, Some(8));
    assert_eq!(parsed.error_type, ErrorType::RequestsError("Timeout: slow".to_string()));
}

#[test]
fn requests_exception_pointing_at_the_environment() {
    assert_eq!(
        classify_requests_error("MissingSchema", "Invalid URL"),
        ErrorType::MissingEnvVar("Invalid URL".to_string())
    );
    assert_eq!(
        classify_requests_error("InvalidURL", "No host in 'None/endpoint'"),
        ErrorType::MissingEnvVar("No host in 'None/endpoint'".to_string())
    );
    assert_eq!(
        classify_requests_error("InvalidURL", "none given"),
        ErrorType::RequestsError("InvalidURL: none given".to_string())
    );
    let parsed =
        parse_error("requests.exceptions.MissingSchema: Invalid URL 'None/x': No scheme supplied")
            .unwrap();
    assert!(matches!(parsed.error_type, ErrorType::MissingEnvVar(_)));
}

#[test]
fn requests_record_from_given_groups() {
    let requests = groups(&[Some("w"), Some("Timeout"), Some("slow")]);
    let parsed = requests_error_from(&found(&[Some("w"), Some("a.py"), Some("4")]), &requests).unwrap();
    assert_eq!(parsed.file, "a.py");
    assert_eq!(parsed.line, Some(4));
    let parsed = requests_error_from(&found(&[Some("w"), Some("a.py"), Some("4x")]), &requests).unwrap();
    assert_eq!(parsed.file, "a.py");
    assert_eq!(parsed.line, None);
    let parsed = requests_error_from(&None, &requests).unwrap();
    assert_eq!(parsed.file, "unknown.py");
    assert_eq!(parsed.line, None);
    assert!(requests_error_from(&None, &groups(&[Some("w"), Some("Timeout")])).is_none());
}

// ==================== JavaScript and TypeScript rules ====================

#[test]
fn typescript_codes() {
    let kind = |text: &str| parse_error(text).unwrap().error_type;
    assert_eq!(
        kind("a.tsx(1,2): error TS2552: Cannot find name 'usr'. Did you mean 'user'?"),
        ErrorType::UndeclaredVariable("usr".to_string())
    );
    assert_eq!(
        kind("a.ts(1,2): error TS2304: Something else"),
        ErrorType::Unknown("Something else".to_string())
    );
    assert_eq!(
        kind("a.ts(1,2): error TS2307: Cannot find module 'x'"),
        ErrorType::ModuleNotFound("Cannot find module 'x'".to_string())
    );
    assert_eq!(
        kind("a.ts(1,2): error TS2322: Cannot find name 'x'"),
        ErrorType::Unknown("Cannot find name 'x'".to_string())
    );
}

#[test]
fn typescript_classification_from_given_matches() {
    let name = found(&[Some("w"), Some("n")]);
    assert_eq!(classify_typescript_error("TS2304", "m", &name), ErrorType::UndeclaredVariable("n".to_string()));
    assert_eq!(classify_typescript_error("TS2552", "m", &None), ErrorType::Unknown("m".to_string()));
    assert_eq!(classify_typescript_error("TS2307", "m", &name), ErrorType::ModuleNotFound("m".to_string()));
    assert_eq!(classify_typescript_error("TS1", "m", &name), ErrorType::Unknown("m".to_string()));
}

#[test]
fn typescript_record_from_given_groups() {
    let all = groups(&[Some("w"), Some("a.ts"), Some("ts"), Some("3"), Some("4"), Some("TS1"), Some("m")]);
    let parsed = typescript_error_from(&all, ErrorType::MissingSemicolon).unwrap();
    assert_eq!(parsed.file, "a.ts");
    assert_eq!(parsed.line, Some(3));
    assert_eq!(parsed.column, Some(4));
    assert_eq!(parsed.message, "TS1: m");
    assert_eq!(parsed.language, Language::TypeScript);
    let short = groups(&[Some("w"), Some("a.ts"), Some("ts"), Some("3"), Some("4"), Some("TS1")]);
    assert!(typescript_error_from(&short, ErrorType::MissingSemicolon).is_none());
}

#[test]
fn javascript_language_follows_the_extension() {
    let language = |file: &str| {
        parse_error(&format!("{}:3\nTypeError: x", file)).unwrap().language
    };
    assert_eq!(language("a.js"), Language::JavaScript);
    assert_eq!(language("a.jsx"), Language::JavaScript);
    assert_eq!(language("a.mjs"), Language::JavaScript);
    assert_eq!(language("a.ts"), Language::TypeScript);
    assert_eq!(language("a.tsx"), Language::TypeScript);
}

#[test]
fn javascript_column_is_optional() {
    let parsed = parse_error("a.js:3\nTypeError: x").unwrap();
    assert_eq!(parsed.line, Some(3));
    assert_eq!(parsed.column, None);
    assert_eq!(parsed.message, "TypeError: x");
    let parsed = parse_error("a.js:3:99999999999\nTypeError: x").unwrap();
    assert_eq!(parsed.line, Some(3));
    assert_eq!(parsed.column, None);
}

#[test]
fn javascript_error_and_location_need_not_be_adjacent() {
    let text = "TypeError: first\nsome text\n    at run (lib/b.js:7:1)\nReferenceError: y is not defined";
    let parsed = parse_error(text).unwrap();
    assert_eq!(parsed.file, "(lib/b.js");
    assert_eq!(parsed.line, Some(7));
    assert_eq!(parsed.error_type, ErrorType::TypeError("first".to_string()));
}

#[test]
fn javascript_classification_from_given_matches() {
    let name = found(&[Some("w"), Some("n")]);
    assert_eq!(classify_js_error("SyntaxError", "d", &name), ErrorType::SyntaxError("d".to_string()));
    assert_eq!(classify_js_error("ReferenceError", "d", &name), ErrorType::UndeclaredVariable("n".to_string()));
    assert_eq!(classify_js_error("ReferenceError", "d", &None), ErrorType::Unknown("d".to_string()));
    assert_eq!(classify_js_error("TypeError", "d", &name), ErrorType::TypeError("d".to_string()));
    assert_eq!(classify_js_error("RangeError", "d", &name), ErrorType::Unknown("d".to_string()));
}

#[test]
fn javascript_record_from_given_groups() {
    let token = groups(&[Some("w"), Some("a.tsx"), Some("tsx"), Some("3"), None]);
    let parsed = js_error_from(&token, "TypeError", "d", ErrorType::TypeError("d".to_string())).unwrap();
    assert_eq!(parsed.language, Language::TypeScript);
    assert_eq!(parsed.column, None);
    let token = groups(&[Some("w"), Some("a.js"), Some("js"), Some("3"), Some("5")]);
    let parsed = js_error_from(&token, "TypeError", "d", ErrorType::TypeError("d".to_string())).unwrap();
    assert_eq!(parsed.language, Language::JavaScript);
    assert_eq!(parsed.column, Some(5));
    let token = groups(&[Some("w"), Some("a.js"), None, Some("3")]);
    assert!(js_error_from(&token, "TypeError", "d", ErrorType::MissingSemicolon).is_none());
}

// ==================== Rust rules ====================

#[test]
fn rust_needs_error_and_location() {
    assert!(parse_rust_error("error[E0425]: cannot find value `x`").is_none());
    assert!(parse_rust_error(" --> src/main.rs:5:10").is_none());
    assert!(parse_rust_error("error: no code\n --> src/main.rs:5:10").is_none());
}

#[test]
fn rust_classes() {
    let kind = |message: &str| {
        parse_error(&format!("error[E0000]: {}\n --> a.rs:1:2", message)).unwrap().error_type
    };
    assert_eq!(kind("cannot find type `Foo` in this scope"), ErrorType::UndeclaredVariable("Foo".to_string()));
    // A name that is neither a value nor a type is not captured, so the
    // later rules decide.
    assert_eq!(
        kind("cannot find macro `foo` while borrowing"),
        ErrorType::BorrowError("cannot find macro `foo` while borrowing".to_string())
    );
    assert_eq!(
        kind("cannot find macro `foo` in this scope"),
        ErrorType::Unknown("cannot find macro `foo` in this scope".to_string())
    );
    // A captured name wins over a borrow.
    assert_eq!(
        kind("cannot find value `borrowed` in this scope"),
        ErrorType::UndeclaredVariable("borrowed".to_string())
    );
    assert_eq!(kind("use of borrowed value"), ErrorType::BorrowError("use of borrowed value".to_string()));
    assert_eq!(kind("Borrow of moved value"), ErrorType::Unknown("Borrow of moved value".to_string()));
    assert_eq!(kind("mismatched types"), ErrorType::Unknown("mismatched types".to_string()));
}

#[test]
fn rust_message_that_cannot_find_something_else_may_still_be_a_borrow_error() {
    let parsed = parse_error(
        "error[E0433]: cannot find macro `borrow_all` in this scope\n --> src/main.rs:1:1",
    )
    .unwrap();
    assert_eq!(
        parsed.error_type,
        ErrorType::BorrowError("cannot find macro `borrow_all` in this scope".to_string())
    );
    assert_eq!(parsed.language, Language::Rust);
    assert_eq!(parsed.file, "src/main.rs");
    assert_eq!(parsed.line, Some(1));
    assert_eq!(parsed.column, Some(1));
}

#[test]
fn rust_classification_from_given_matches() {
    let name = found(&[Some("w"), Some("n")]);
    assert_eq!(classify_rust_error("cannot find a borrow", &None), ErrorType::BorrowError("cannot find a borrow".to_string()));
    assert_eq!(
        classify_rust_error("cannot find a borrow", &found(&[Some("w"), None])),
        ErrorType::BorrowError("cannot find a borrow".to_string())
    );
    assert_eq!(classify_rust_error("cannot find a borrow", &name), ErrorType::UndeclaredVariable("n".to_string()));
    // Without `cannot find` in the message the captured name is not looked at.
    assert_eq!(classify_rust_error("no such thing", &name), ErrorType::Unknown("no such thing".to_string()));
    assert_eq!(classify_rust_error("cannot find it", &name), ErrorType::UndeclaredVariable("n".to_string()));
    assert_eq!(classify_rust_error("cannot find it", &None), ErrorType::Unknown("cannot find it".to_string()));
    assert_eq!(classify_rust_error("a borrow", &name), ErrorType::BorrowError("a borrow".to_string()));
    assert_eq!(classify_rust_error("else", &name), ErrorType::Unknown("else".to_string()));
}

#[test]
fn rust_record_from_given_groups() {
    let place = groups(&[Some("w"), Some("a.rs"), Some("1"), Some("2")]);
    let parsed = rust_error_from(&place, "m", ErrorType::MissingSemicolon).unwrap();
    assert_eq!(parsed.file, "a.rs");
    assert_eq!(parsed.line, Some(1));
    assert_eq!(parsed.column, Some(2));
    assert_eq!(parsed.message, "m");
    assert_eq!(parsed.language, Language::Rust);
    let place = groups(&[Some("w"), Some("a.rs"), Some("1"), Some("")]);
    assert!(rust_error_from(&place, "m", ErrorType::MissingSemicolon).is_none());
}

// ==================== The whole pipeline ====================

#[test]
fn analysis_pairs_the_record_with_its_fix() {
    match analyze_error("test.cpp:10:5: error: expected ';' before 'return'") {
        Analysis::Parsed { error, fix } => {
            assert_eq!(error.error_type, ErrorType::MissingSemicolon);
            assert_eq!(fix, remediate(&error));
            assert!(fix.diff.is_some());
        }
        other => panic!("not parsed: {:?}", other),
    }
}

#[test]
fn analysis_falls_back_to_the_common_patterns() {
    match analyze_error("error: expected ';' somewhere") {
        Analysis::Pattern(advice) => {
            assert_eq!(advice, "Add a semicolon (;) at the end of the line.")
        }
        other => panic!("no pattern: {:?}", other),
    }
}
