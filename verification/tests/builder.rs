//! The builder protocol under the default policy.

use std::collections::{BTreeSet, HashSet};

use zabawa::name::{
    DefaultNameBuilder, InvalidCharactersError, Name, NameBulder, NameError,
};
use zabawa::validation::InvalidLengthError;

fn length_error(min: usize, max: usize, actual: usize) -> NameError {
    NameError::InvalidLength(InvalidLengthError { min, max, actual })
}

#[test]
fn new_is_the_default_policy() {
    let builder = DefaultNameBuilder::new();
    assert_eq!(builder.min_length, Some(2));
    assert_eq!(builder.max_length, Some(512));
    assert!(builder.char_validation_enabled);
    assert!(builder.trim_validation_enabled);
}

#[test]
fn default_checks_nothing() {
    let builder = DefaultNameBuilder::default();
    assert_eq!(builder.min_length, None);
    assert_eq!(builder.max_length, None);
    assert!(!builder.char_validation_enabled);
    assert!(!builder.trim_validation_enabled);
    assert_eq!(builder.validate(""), Ok(()));
    assert_eq!(builder.validate("  Anything GOES  "), Ok(()));
}

#[test]
fn setters_change_one_option_each() {
    let builder = DefaultNameBuilder::new().with_min_length(3);
    assert_eq!(builder.min_length, Some(3));
    assert_eq!(builder.max_length, Some(512));
    let builder = builder.without_min_length();
    assert_eq!(builder.min_length, None);
    assert_eq!(builder.max_length, Some(512));
    let builder = builder.with_max_length(40);
    assert_eq!(builder.max_length, Some(40));
    assert_eq!(builder.min_length, None);
    let builder = builder.without_max_length();
    assert_eq!(builder.max_length, None);
    assert!(builder.char_validation_enabled);
    assert!(builder.trim_validation_enabled);
    let builder = builder.with_char_validation(false);
    assert!(!builder.char_validation_enabled);
    assert!(builder.trim_validation_enabled);
    let builder = builder.with_trim_validation(false);
    assert!(!builder.trim_validation_enabled);
    let builder = builder.with_char_validation(true).with_trim_validation(true);
    assert!(builder.char_validation_enabled);
    assert!(builder.trim_validation_enabled);
    assert_eq!(builder.min_length, None);
    assert_eq!(builder.max_length, None);
}

#[test]
fn validate_accepts_valid_names() {
    let builder = DefaultNameBuilder::new();
    for input in ["ab", "hello-world", "my_project", "a1-_", "-hello-", "--", "42"] {
        assert_eq!(builder.validate(input), Ok(()), "{:?}", input);
    }
    assert_eq!(builder.validate(&"a".repeat(512)), Ok(()));
}

#[test]
fn validate_reports_each_kind_of_error() {
    let builder = DefaultNameBuilder::new();
    assert_eq!(builder.validate(" hello"), Err(NameError::Untrimmed));
    assert_eq!(builder.validate("hello\n"), Err(NameError::Untrimmed));
    assert_eq!(builder.validate("a"), Err(length_error(2, 512, 1)));
    assert_eq!(builder.validate(""), Err(length_error(2, 512, 0)));
    assert_eq!(builder.validate(&"a".repeat(513)), Err(length_error(2, 512, 513)));
    assert_eq!(
        builder.validate("Hello"),
        Err(NameError::InvalidCharacters(InvalidCharactersError))
    );
    assert_eq!(
        builder.validate("hello world"),
        Err(NameError::InvalidCharacters(InvalidCharactersError))
    );
}

#[test]
fn validate_reports_the_first_failing_check() {
    let builder = DefaultNameBuilder::new();
    // Untrimmed, too short and not name-safe: the whitespace check comes first.
    assert_eq!(builder.validate(" "), Err(NameError::Untrimmed));
    assert_eq!(builder.validate(" A"), Err(NameError::Untrimmed));
    // Too short and not name-safe: the length check comes before the characters.
    assert_eq!(builder.validate("A"), Err(length_error(2, 512, 1)));
    assert_eq!(builder.validate("!"), Err(length_error(2, 512, 1)));
    // With the whitespace check off the length is next.
    let builder = builder.with_trim_validation(false);
    assert_eq!(builder.validate(" "), Err(length_error(2, 512, 1)));
    assert_eq!(
        builder.validate(" A"),
        Err(NameError::InvalidCharacters(InvalidCharactersError))
    );
}

#[test]
fn length_is_measured_in_bytes() {
    let builder = DefaultNameBuilder::new()
        .with_char_validation(false)
        .without_min_length()
        .with_max_length(3);
    assert_eq!(builder.validate("abc"), Ok(()));
    assert_eq!(builder.validate("é"), Ok(()));
    assert_eq!(builder.validate("éa"), Ok(()));
    assert_eq!(builder.validate("éé"), Err(length_error(0, 3, 4)));
    assert_eq!(builder.validate("北京"), Err(length_error(0, 3, 6)));
    assert_eq!(builder.validate("🦄"), Err(length_error(0, 3, 4)));
}

#[test]
fn an_absent_bound_is_no_bound() {
    let only_min = DefaultNameBuilder::new().without_max_length().with_min_length(3);
    assert_eq!(only_min.validate("abc"), Ok(()));
    assert_eq!(only_min.validate(&"a".repeat(10_000)), Ok(()));
    // The missing upper bound is reported as the length itself.
    assert_eq!(only_min.validate("ab"), Err(length_error(3, 2, 2)));
    assert_eq!(only_min.validate(""), Err(length_error(3, 0, 0)));

    let only_max = DefaultNameBuilder::new().without_min_length().with_max_length(3);
    assert_eq!(only_max.validate(""), Ok(()));
    assert_eq!(only_max.validate("abc"), Ok(()));
    // The missing lower bound is reported as 0.
    assert_eq!(only_max.validate("abcd"), Err(length_error(0, 3, 4)));

    let unbounded = DefaultNameBuilder::new().without_min_length().without_max_length();
    assert_eq!(unbounded.validate(""), Ok(()));
    assert_eq!(unbounded.validate(&"a".repeat(10_000)), Ok(()));

    let zero_max = DefaultNameBuilder::new().without_min_length().with_max_length(0);
    assert_eq!(zero_max.validate(""), Ok(()));
    assert_eq!(zero_max.validate("a"), Err(length_error(0, 0, 1)));
}

#[test]
fn checks_can_be_switched_off() {
    let builder = DefaultNameBuilder::new().with_char_validation(false);
    assert_eq!(builder.validate("Hello World"), Ok(()));
    assert_eq!(builder.validate(" Hello"), Err(NameError::Untrimmed));

    let builder = DefaultNameBuilder::new().with_trim_validation(false);
    assert_eq!(
        builder.validate(" hello"),
        Err(NameError::InvalidCharacters(InvalidCharactersError))
    );
    let builder = builder.with_char_validation(false);
    assert_eq!(builder.validate(" Hello "), Ok(()));
}

#[test]
fn normalize_follows_the_configuration() {
    let full = DefaultNameBuilder::new();
    assert_eq!(full.normalize("  My Project  "), Ok("my-project".to_string()));
    assert_eq!(full.normalize("Café"), Ok("cafe".to_string()));
    assert_eq!(full.normalize(""), Ok(String::new()));
    assert_eq!(full.normalize("   "), Ok(String::new()));

    let no_trim = DefaultNameBuilder::new().with_trim_validation(false);
    assert_eq!(no_trim.normalize("  My Project  "), Ok("-my-project-".to_string()));
    assert_eq!(no_trim.normalize("   "), Ok("-".to_string()));

    let no_chars = DefaultNameBuilder::new().with_char_validation(false);
    assert_eq!(no_chars.normalize("  My Project!  "), Ok("my project!".to_string()));
    assert_eq!(no_chars.normalize("  Café ÉCOLE  "), Ok("café École".to_string()));

    let neither = DefaultNameBuilder::default();
    assert_eq!(neither.normalize("  My Project  "), Ok("  my project  ".to_string()));
    assert_eq!(neither.normalize("ÀB"), Ok("Àb".to_string()));
}

#[test]
fn normalize_is_idempotent_under_every_configuration() {
    let inputs = ["", "  My Project  ", "Café ÉCOLE", "!!!hello!!!", "\u{a0}A b\t", "北京", "--"];
    for chars in [false, true] {
        for trim in [false, true] {
            let builder = DefaultNameBuilder::new()
                .with_char_validation(chars)
                .with_trim_validation(trim);
            for input in inputs {
                let once = builder.normalize(input).unwrap();
                let twice = builder.normalize(&once).unwrap();
                assert_eq!(twice, once, "{:?} {} {}", input, chars, trim);
            }
        }
    }
}

#[test]
fn build_returns_valid_input_unchanged() {
    let builder = DefaultNameBuilder::new();
    for input in ["ab", "hello-world", "my_project", "a1-_", "-hello-", "already-valid-slug"] {
        let name = builder.build(input).unwrap();
        assert_eq!(name.as_str(), input);
    }
    let builder = DefaultNameBuilder::new().with_min_length(3).with_max_length(5);
    assert_eq!(builder.build("abc").unwrap().as_str(), "abc");
    assert_eq!(builder.build("abcde").unwrap().as_str(), "abcde");
    assert_eq!(builder.build("ab"), Err(length_error(3, 5, 2)));
    assert_eq!(builder.build("abcdef"), Err(length_error(3, 5, 6)));
}

#[test]
fn build_never_repairs() {
    let builder = DefaultNameBuilder::new();
    assert_eq!(builder.build("  hello  "), Err(NameError::Untrimmed));
    assert_eq!(
        builder.build("My Project"),
        Err(NameError::InvalidCharacters(InvalidCharactersError))
    );
    assert_eq!(builder.build("x"), Err(length_error(2, 512, 1)));
}

#[test]
fn build_with_normalize_keeps_valid_input() {
    let builder = DefaultNameBuilder::new();
    let name = builder.build_with_normalize("already-valid-slug").unwrap();
    assert_eq!(name, Name::from_raw("already-valid-slug".to_string()));
    assert_eq!(name.as_str(), "already-valid-slug");

    // Valid under a policy that checks nothing, though the normaliser of
    // that policy would lower-case it.
    let lenient = DefaultNameBuilder::default();
    assert_eq!(lenient.build_with_normalize("  As Is  ").unwrap().as_str(), "  As Is  ");
    assert_eq!(lenient.normalize("  As Is  "), Ok("  as is  ".to_string()));
}

#[test]
fn build_with_normalize_repairs_once() {
    let builder = DefaultNameBuilder::new();
    assert_eq!(builder.build_with_normalize("My Project").unwrap().as_str(), "my-project");
    assert_eq!(builder.build_with_normalize("  WebApp  ").unwrap().as_str(), "webapp");
    assert_eq!(builder.build_with_normalize("Café").unwrap().as_str(), "cafe");
    assert_eq!(builder.build_with_normalize("北京").unwrap().as_str(), "bei-jing-");
    assert_eq!(builder.build_with_normalize("!!!hello!!!").unwrap().as_str(), "-hello-");

    // The normalised form is validated once more and its error is final.
    assert_eq!(builder.build_with_normalize("!!!"), Err(length_error(2, 512, 1)));
    assert_eq!(builder.build_with_normalize("x"), Err(length_error(2, 512, 1)));
    assert_eq!(builder.build_with_normalize("   "), Err(length_error(2, 512, 0)));
    assert_eq!(
        builder.build_with_normalize(&"A".repeat(513)),
        Err(length_error(2, 512, 513))
    );

    let short = DefaultNameBuilder::new().with_max_length(5);
    assert_eq!(short.build_with_normalize("My Project"), Err(length_error(2, 5, 10)));
    // The first error told of whitespace; the final one tells of the length.
    assert_eq!(short.build_with_normalize(" too long "), Err(length_error(2, 5, 8)));
}

#[test]
fn build_with_normalize_under_partial_policies() {
    let no_chars = DefaultNameBuilder::new().with_char_validation(false);
    assert_eq!(
        no_chars.build_with_normalize("  Hello World  ").unwrap().as_str(),
        "hello world"
    );

    let no_trim = DefaultNameBuilder::new().with_trim_validation(false);
    assert_eq!(no_trim.build_with_normalize(" a b ").unwrap().as_str(), "-a-b-");
}

#[test]
fn names_compare_hash_and_unwrap_by_their_strings() {
    let a = Name::from_raw("alpha".to_string());
    let b = Name::from_raw("beta".to_string());
    assert_eq!(a, a.clone());
    assert_ne!(a, b);
    assert!(a < b);
    assert_eq!(a.as_str(), "alpha");
    let as_ref: &str = a.as_ref();
    assert_eq!(as_ref, "alpha");

    let mut sorted = BTreeSet::new();
    sorted.insert(b.clone());
    sorted.insert(a.clone());
    sorted.insert(a.clone());
    let order: Vec<&str> = sorted.iter().map(|name| name.as_str()).collect();
    assert_eq!(order, vec!["alpha", "beta"]);

    let mut hashed = HashSet::new();
    hashed.insert(a.clone());
    assert!(hashed.contains(&Name::from_raw("alpha".to_string())));
    assert!(!hashed.contains(&b));

    assert_eq!(a.clone().into_string(), "alpha");
    let unwrapped: String = b.into();
    assert_eq!(unwrapped, "beta");
}

#[test]
fn name_errors_convert_from_their_parts() {
    let length = InvalidLengthError { min: 3, max: 40, actual: 2 };
    assert_eq!(NameError::from(length), NameError::InvalidLength(length));
    assert_eq!(
        NameError::from(InvalidCharactersError),
        NameError::InvalidCharacters(InvalidCharactersError)
    );
}
