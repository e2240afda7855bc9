//! The normaliser and the character check on given strings.

use zabawa::name::{normalize_name, validate_name_chars};

#[test]
fn test_normalize_name_basic() {
    assert_eq!(normalize_name("WebApp"), "webapp");
    assert_eq!(normalize_name("  WebApp  "), "webapp");
}

#[test]
fn test_normalize_name_non_ascii() {
    assert_eq!(normalize_name("Café"), "cafe");
    assert_eq!(normalize_name("Straße"), "strasse");
    assert_eq!(normalize_name("Москва"), "moskva");
    assert_eq!(normalize_name("北京"), "bei-jing-"); // the separator after the last syllable stays
    assert_eq!(normalize_name("Æneid"), "aeneid");
    assert_eq!(normalize_name("étude"), "etude");
    assert_eq!(normalize_name("🦄☣"), "unicorn-biohazard-"); // the separator after the last word stays
    assert_eq!(normalize_name("…"), "-");
}

#[test]
fn test_normalize_name_spaces() {
    assert_eq!(normalize_name("My Project"), "my-project");
    assert_eq!(normalize_name("My  Cool  Project"), "my-cool-project");
    assert_eq!(normalize_name("  test  "), "test");
    assert_eq!(normalize_name("a   b   c"), "a-b-c");
    assert_eq!(normalize_name("hello    world"), "hello-world");
    assert_eq!(normalize_name("   multiple   spaces   "), "multiple-spaces");
}

#[test]
fn test_normalize_name_forbidden_chars() {
    assert_eq!(normalize_name("hello@world"), "hello-world");
    assert_eq!(normalize_name("hello!!!world"), "hello-world");
    assert_eq!(normalize_name("hello#$%world"), "hello-world");
    assert_eq!(normalize_name("hello!!!"), "hello-");
    assert_eq!(normalize_name("!!!hello"), "-hello");
    assert_eq!(normalize_name("@@@hello"), "-hello");
    assert_eq!(normalize_name("hello@@@"), "hello-");
    assert_eq!(normalize_name("@@@hello@@@"), "-hello-");
    assert_eq!(normalize_name("   !!!   hello   !!!   "), "-hello-");
}

#[test]
fn test_normalize_name_mixed_case() {
    assert_eq!(normalize_name("HeLLo-WoRLd"), "hello-world");
    assert_eq!(normalize_name("MyProject123"), "myproject123");
}

#[test]
fn test_normalize_name_digits() {
    assert_eq!(normalize_name("test123"), "test123");
    assert_eq!(normalize_name("123test"), "123test");
    assert_eq!(normalize_name("123"), "123");
}

#[test]
fn test_normalize_name_dashes_underscores() {
    assert_eq!(normalize_name("hello-world"), "hello-world");
    assert_eq!(normalize_name("hello_world"), "hello_world");
    assert_eq!(normalize_name("---"), "---");
    assert_eq!(normalize_name("___"), "___");
    assert_eq!(normalize_name("hello-world"), "hello-world");
    assert_eq!(normalize_name("test---test"), "test---test");
    assert_eq!(normalize_name("a----b"), "a----b");
}

#[test]
fn test_normalize_name_whitespace_types() {
    assert_eq!(normalize_name("\t\n  test  \t\n"), "test");
    assert_eq!(normalize_name("hello\tworld"), "hello-world");
    assert_eq!(normalize_name("hello\nworld"), "hello-world");
}

#[test]
fn test_normalize_name_complex() {
    assert_eq!(normalize_name("  My Café Project  "), "my-cafe-project");
    assert_eq!(normalize_name("hello@#$world!!!test"), "hello-world-test");
    assert_eq!(normalize_name("Привет Мир"), "privet-mir");
    assert_eq!(normalize_name("hello Мир world"), "hello-mir-world");
    assert_eq!(normalize_name("test café test"), "test-cafe-test");
    assert_eq!(normalize_name("北京 Beijing"), "bei-jing-beijing");
}

#[test]
fn test_normalize_name_empty() {
    assert_eq!(normalize_name(""), "");
    assert_eq!(normalize_name("   "), "");
    assert_eq!(normalize_name("\t\n"), "");
}

#[test]
fn test_normalize_name_multiple_separator_types() {
    assert_eq!(normalize_name("hello @#$ world"), "hello-world");
    assert_eq!(normalize_name("test!@#$%^&*()test"), "test-test");
    assert_eq!(normalize_name("a!b@c#d"), "a-b-c-d");
}

#[test]
fn test_normalize_name_special_unicode() {
    assert_eq!(normalize_name("hello™world"), "hellotmworld");
    assert_eq!(normalize_name("test©2024"), "test-c-2024");
    assert_eq!(normalize_name("price€100"), "priceeur100");
}

#[test]
fn test_normalize_name_only_separators() {
    assert_eq!(normalize_name("!!!"), "-");
    assert_eq!(normalize_name("@@@"), "-");
    assert_eq!(normalize_name("!@#$%"), "-");
}

#[test]
fn test_normalize_name_mixed_separators_and_dashes() {
    assert_eq!(normalize_name("hello-@-world"), "hello--world");
    assert_eq!(normalize_name("test_!_test"), "test_-_test");
}

#[test]
fn test_normalize_name_preserves_valid_structure() {
    assert_eq!(normalize_name("already-valid-slug"), "already-valid-slug");
    assert_eq!(normalize_name("test_with_underscores"), "test_with_underscores");
    assert_eq!(normalize_name("mix-of_both"), "mix-of_both");
}

#[test]
fn test_validate_name_chars() {
    assert!(validate_name_chars("hello-world"));
    assert!(validate_name_chars("test123"));
    assert!(validate_name_chars("my_project"));
    assert!(validate_name_chars("abc"));
    assert!(validate_name_chars("a-b-c"));
    assert!(validate_name_chars("a"));
    assert!(validate_name_chars("1"));
    assert!(validate_name_chars("-"));
    assert!(validate_name_chars("_"));
    assert!(validate_name_chars("a1-_"));
    assert!(validate_name_chars("-hello-"));
    assert!(validate_name_chars(""));

    assert!(!validate_name_chars("Hello"));
    assert!(!validate_name_chars("hello world"));
    assert!(!validate_name_chars("café"));
    assert!(!validate_name_chars("hello@world"));
    assert!(!validate_name_chars("A"));
    assert!(!validate_name_chars(" "));
    assert!(!validate_name_chars("hello "));
    assert!(!validate_name_chars(" hello"));
}
