use interop::runtime_library::{
    extend_library_path, resolve_runtime_library_directory, QueryOutcome, LIBRARY_PATH_VARIABLE,
    QUERY_FLAG, QUERY_SCRIPT,
};

#[test]
fn query_asks_the_interpreter_for_its_prefix() {
    assert_eq!(LIBRARY_PATH_VARIABLE, "PATH");
    assert_eq!(QUERY_FLAG, "-c");
    assert_eq!(QUERY_SCRIPT, "import sys; print(sys.base_exec_prefix)");
}

#[test]
fn successful_query_extends_the_library_path() {
    let outcome = QueryOutcome::Succeeded(b"C:\\Python312\r\n".to_vec());
    let path = resolve_runtime_library_directory("C:\\Windows;C:\\bin", &outcome);
    assert_eq!(path.value, "C:\\Windows;C:\\bin;C:\\Python312");
    assert_eq!(path.runtime_library_directory, Some("C:\\Python312".to_string()));
    assert_eq!(path.warning, None);
    assert_eq!(path.directive(), "cargo:rustc-env=PATH=C:\\Windows;C:\\bin;C:\\Python312");
}

#[test]
fn failed_query_warns_and_leaves_the_library_path() {
    let path = resolve_runtime_library_directory("C:\\Windows", &QueryOutcome::Failed);
    assert_eq!(path.value, "C:\\Windows");
    assert_eq!(path.runtime_library_directory, None);
    assert_eq!(path.warning, Some("Failed to get Python executable path".to_string()));
    assert_eq!(path.directive(), "cargo:warning=Failed to get Python executable path");
}

#[test]
fn interpreter_that_cannot_be_started_warns_and_leaves_the_library_path() {
    let path = resolve_runtime_library_directory("C:\\Windows", &QueryOutcome::NotStarted);
    assert_eq!(path.value, "C:\\Windows");
    assert_eq!(path.runtime_library_directory, None);
    assert_eq!(path.warning, Some("Failed to get Python executable path".to_string()));
    assert_eq!(path.directive(), "cargo:warning=Failed to get Python executable path");
}

#[test]
fn empty_library_path_still_gets_the_semicolon() {
    let outcome = QueryOutcome::Succeeded(b"/usr\n".to_vec());
    let path = resolve_runtime_library_directory("", &outcome);
    assert_eq!(path.value, ";/usr");
    assert_eq!(path.runtime_library_directory, Some("/usr".to_string()));
}

#[test]
fn empty_answer_names_the_empty_directory() {
    let outcome = QueryOutcome::Succeeded(Vec::new());
    let path = resolve_runtime_library_directory("a", &outcome);
    assert_eq!(path.value, "a;");
    assert_eq!(path.runtime_library_directory, Some(String::new()));
    assert_eq!(path.warning, None);
}

#[test]
fn answer_that_is_not_utf8_is_read_with_replacement_characters() {
    let outcome = QueryOutcome::Succeeded(vec![b' ', b'C', b':', b'\\', 0xFF, b'x', b'\n']);
    let path = resolve_runtime_library_directory("p", &outcome);
    assert_eq!(path.value, "p;C:\\\u{FFFD}x");
    assert_eq!(path.runtime_library_directory, Some("C:\\\u{FFFD}x".to_string()));
}

#[test]
fn answer_is_read_as_utf8() {
    let outcome = QueryOutcome::Succeeded("D:\\Programme\\Pythön\n".as_bytes().to_vec());
    let path = resolve_runtime_library_directory("p", &outcome);
    assert_eq!(path.value, "p;D:\\Programme\\Pythön");
}

#[test]
fn extend_library_path_trims_the_answer() {
    assert_eq!(extend_library_path("a;b", "  c d \n"), "a;b;c d");
    assert_eq!(extend_library_path("", ""), ";");
    assert_eq!(extend_library_path("x", "\t\n"), "x;");
}

#[test]
fn missing_executable_warns_and_leaves_the_library_path() {
    let path = resolve_runtime_library_directory("C:\\Windows;x", &QueryOutcome::ExecutableMissing);
    assert_eq!(path.value, "C:\\Windows;x");
    assert_eq!(path.runtime_library_directory, None);
    assert_eq!(path.warning, Some("Failed to get Python executable path".to_string()));
    assert_eq!(path.directive(), "cargo:warning=Failed to get Python executable path");
}
