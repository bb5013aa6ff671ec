use multi_account_github_mcp::cli::tool_version;
use multi_account_github_mcp::text::{first_line, prefix, strip_newlines, to_decimal, trim};

#[test]
fn trims_unicode_white_space() {
    assert_eq!(trim("  a b \n"), "a b");
    assert_eq!(trim("\u{3000}x\u{a0}"), "x");
    assert_eq!(trim(" \t\r\n "), "");
    assert_eq!(trim(""), "");
}

#[test]
fn decimal_notation() {
    assert_eq!(to_decimal(0), "0");
    assert_eq!(to_decimal(42), "42");
    assert_eq!(to_decimal(u64::MAX), "18446744073709551615");
}

#[test]
fn newlines_removed() {
    assert_eq!(strip_newlines("ab\ncd\n\n"), "abcd");
    assert_eq!(strip_newlines("a\r\nb"), "a\rb");
}

#[test]
fn first_lines() {
    assert_eq!(first_line("one\ntwo"), Some("one".to_string()));
    assert_eq!(first_line("one\r\ntwo"), Some("one".to_string()));
    assert_eq!(first_line("\nx"), Some(String::new()));
    assert_eq!(first_line("solo"), Some("solo".to_string()));
    assert_eq!(first_line(""), None);
}

#[test]
fn prefixes() {
    assert_eq!(prefix("héllo", 2), "hé");
    assert_eq!(prefix("ab", 10), "ab");
}

#[test]
fn tool_version_number() {
    assert_eq!(tool_version("gh version 2.45.0 (2024-03-04)"), "2.45.0");
    assert_eq!(tool_version("something 1.0"), "something");
    assert_eq!(tool_version("gh version "), "unknown");
    assert_eq!(tool_version(""), "unknown");
}
