use doubleagent_core::error::Error;
use doubleagent_core::paths::join;
use doubleagent_core::text::{
    concat2, concat3, ends_with, hyphens_to_underscores, is_white_space_exec, sort_strings,
    starts_with_dot, str_eq, str_le_exec, trim, u128_to_string, u64_to_string,
};

fn strings(items: &[&str]) -> Vec<String> {
    items.iter().map(|s| s.to_string()).collect()
}

#[test]
fn numbers_in_decimal() {
    assert_eq!(u64_to_string(0), "0");
    assert_eq!(u64_to_string(9), "9");
    assert_eq!(u64_to_string(10), "10");
    assert_eq!(u64_to_string(1234567890), "1234567890");
    assert_eq!(u64_to_string(u64::MAX), "18446744073709551615");
    assert_eq!(u128_to_string(u128::MAX), "340282366920938463463374607431768211455");
}

#[test]
fn joining_text() {
    assert_eq!(concat2("ab", "cd"), "abcd");
    assert_eq!(concat3("a", "", "c"), "ac");
}

#[test]
fn text_equality() {
    assert!(str_eq("", ""));
    assert!(str_eq(".git", ".git"));
    assert!(!str_eq(".git", ".gitignore"));
}

#[test]
fn hidden_names_begin_with_a_dot() {
    assert!(starts_with_dot(".repo"));
    assert!(starts_with_dot("."));
    assert!(!starts_with_dot(""));
    assert!(!starts_with_dot("a.b"));
}

#[test]
fn strings_are_ordered_by_their_bytes() {
    assert!(str_le_exec("", ""));
    assert!(str_le_exec("", "a"));
    assert!(!str_le_exec("a", ""));
    assert!(str_le_exec("a", "a"));
    assert!(str_le_exec("a", "ab"));
    assert!(!str_le_exec("ab", "a"));
    assert!(str_le_exec("Z", "a"));
    assert!(!str_le_exec("a", "Z"));
    assert!(str_le_exec("z", "é"));
    assert!(!str_le_exec("é", "z"));
}

#[test]
fn sorting_strings() {
    assert_eq!(
        sort_strings(strings(&["beta", "alpha", "beta", "", "Alpha", "é"])),
        strings(&["", "Alpha", "alpha", "beta", "beta", "é"])
    );
    assert!(sort_strings(Vec::new()).is_empty());
    let mut expected = strings(&["b", "a", "c", "a0", "B"]);
    let sorted = sort_strings(expected.clone());
    expected.sort();
    assert_eq!(sorted, expected);
}

#[test]
fn joining_paths() {
    assert_eq!(join("/a", "b"), "/a/b");
    assert_eq!(join("/a/", "b"), "/a/b");
    assert_eq!(join("", "b"), "b");
    assert_eq!(join("/a", "/b"), "/b");
    assert_eq!(join("/a", ""), "/a/");
    assert_eq!(join(".", ".doubleagent"), "./.doubleagent");
    assert_eq!(join("/", "x"), "/x");
}

#[test]
fn joining_paths_agrees_with_std() {
    for (base, comp) in
        [("/a", "b"), ("/a/", "b"), ("", "b"), ("/a", "/b"), ("/a", ""), ("a/b", "c/d"), ("/", "x")]
    {
        let expected = std::path::Path::new(base).join(comp);
        assert_eq!(join(base, comp), expected.to_str().unwrap());
    }
}

#[test]
fn trimming_white_space() {
    assert_eq!(trim("  manual-id-123 \n"), "manual-id-123");
    assert_eq!(trim("a b"), "a b");
    assert_eq!(trim(" \t\r\n"), "");
    assert_eq!(trim(""), "");
    assert_eq!(trim("\u{3000}x\u{a0}"), "x");
    for s in ["  a ", "\u{2003}b c\u{2028}", "\u{200b}z", "\u{85}q\u{1680}"] {
        assert_eq!(trim(s), s.trim());
    }
}

#[test]
fn white_space_is_that_of_unicode() {
    for code in 0u32..0x3100 {
        if let Some(c) = char::from_u32(code) {
            assert_eq!(is_white_space_exec(c), c.is_whitespace());
        }
    }
}

#[test]
fn hyphens_become_underscores() {
    assert_eq!(hyphens_to_underscores("MY-FAKE-SVC"), "MY_FAKE_SVC");
    assert_eq!(hyphens_to_underscores("plain"), "plain");
    assert_eq!(hyphens_to_underscores("-é-"), "_é_");
    assert_eq!(hyphens_to_underscores(""), "");
}

#[test]
fn endings_of_text() {
    assert!(ends_with("data.yaml", ".yaml"));
    assert!(ends_with(".yml", ".yml"));
    assert!(!ends_with("yml", ".yml"));
    assert!(!ends_with("data.json", ".yaml"));
    assert!(ends_with("x", ""));
}

#[test]
fn every_failure_has_its_text() {
    assert_eq!(Error::ServiceNotFound("x".to_string()).message(), "Service 'x' not found");
    assert_eq!(
        Error::ServiceAlreadyRunning("x".to_string()).message(),
        "Service 'x' is already running"
    );
    assert_eq!(Error::HealthCheckFailed("x".to_string()).message(), "Health check failed: x");
    assert_eq!(Error::HealthCheckTimeout(0).message(), "Health check timed out after 0s");
    assert_eq!(Error::ServiceProcessDied.message(), "Service process died");
    assert_eq!(Error::GitError("x".to_string()).message(), "Git operation failed: x");
    assert_eq!(Error::IoError("x".to_string()).message(), "IO error: x");
    assert_eq!(Error::YamlError("x".to_string()).message(), "YAML parse error: x");
    assert_eq!(Error::JsonError("x".to_string()).message(), "JSON parse error: x");
    assert_eq!(Error::HttpError("x".to_string()).message(), "HTTP error: x");
    assert_eq!(Error::Other("x".to_string()).message(), "x");
}
