use passkeep::{PasswordGenerationError, PasswordGenerator};

const SYMBOLS: &str = "!@#$%^&*()_+-={}[]\":;'?><,./~`|\\";

#[test]
fn password_must_have_contents() {
    let result = PasswordGenerator::new().generate();

    assert_eq!(result, Err(PasswordGenerationError::MissingContent));
}

#[test]
fn password_length() {
    let result = PasswordGenerator::new()
        .with_lowercase_chars()
        .with_length(43594)
        .generate();

    assert!(result.is_ok());

    let result = result.unwrap();
    assert_eq!(result.len(), 43594);
}

#[test]
fn password_cannot_be_zero_length() {
    let result = PasswordGenerator::new()
        .with_lowercase_chars()
        .with_length(0)
        .generate();

    assert_eq!(result, Err(PasswordGenerationError::ZeroLengthPassword));
}

#[test]
fn password_generator_lowercase() {
    let result = PasswordGenerator::new()
        .with_lowercase_chars()
        .with_length(1000)
        .generate();

    assert!(result.is_ok());

    let result = result.unwrap();
    assert!(result.chars().all(|c| c.is_lowercase()));
}

#[test]
fn password_generator_uppercase() {
    let result = PasswordGenerator::new()
        .with_uppercase_chars()
        .with_length(1000)
        .generate();

    assert!(result.is_ok());

    let result = result.unwrap();
    assert!(result.chars().all(|c| c.is_uppercase()));
}

#[test]
fn password_generator_symbols() {
    let result = PasswordGenerator::new()
        .with_symbols()
        .with_length(1000)
        .generate();

    assert!(result.is_ok());

    let result = result.unwrap();
    assert!(result.chars().all(|c| SYMBOLS.contains(c)));
}

#[test]
fn password_generator_numbers() {
    let result = PasswordGenerator::new()
        .with_numbers()
        .with_length(1000)
        .generate();

    assert!(result.is_ok());

    let result = result.unwrap();
    assert!(result.chars().all(|c| c.is_numeric()));
}

#[test]
fn zero_length_takes_precedence_over_missing_content() {
    let result = PasswordGenerator::new().with_length(0).generate();

    assert_eq!(result, Err(PasswordGenerationError::ZeroLengthPassword));
}

#[test]
fn default_length_is_eight() {
    let result = PasswordGenerator::new().with_numbers().generate();

    assert_eq!(result.unwrap().len(), 8);
}

#[test]
fn last_length_wins() {
    let result = PasswordGenerator::new()
        .with_lowercase_chars()
        .with_length(5)
        .with_length(12)
        .generate();

    assert_eq!(result.unwrap().len(), 12);
}

#[test]
fn zero_length_can_be_repaired() {
    let result = PasswordGenerator::new()
        .with_lowercase_chars()
        .with_length(0)
        .with_length(7)
        .generate();

    assert_eq!(result.unwrap().len(), 7);
}

#[test]
fn all_classes_stay_inside_the_union() {
    let union: String = format!(
        "{}{}{}{}",
        "abcdefghijklmnopqrstuvwxyz", "ABCDEFGHIJKLMNOPQRSTUVWXYZ", SYMBOLS, "0123456789"
    );

    let result = PasswordGenerator::new()
        .with_lowercase_chars()
        .with_uppercase_chars()
        .with_symbols()
        .with_numbers()
        .with_length(2000)
        .generate();

    assert!(result.is_ok());
    let result = result.unwrap();
    assert_eq!(result.chars().count(), 2000);
    assert!(result.chars().all(|c| union.contains(c)));
}

#[test]
fn union_holds_94_distinct_characters() {
    let union: String = format!(
        "{}{}{}{}",
        "abcdefghijklmnopqrstuvwxyz", "ABCDEFGHIJKLMNOPQRSTUVWXYZ", SYMBOLS, "0123456789"
    );

    let mut seen: Vec<char> = Vec::new();
    for c in union.chars() {
        assert!(!seen.contains(&c));
        seen.push(c);
    }
    assert_eq!(seen.len(), 94);
}

#[test]
fn repeated_generation_keeps_the_properties() {
    let first = PasswordGenerator::new()
        .with_lowercase_chars()
        .with_length(64)
        .generate()
        .unwrap();
    let second = PasswordGenerator::new()
        .with_lowercase_chars()
        .with_length(64)
        .generate()
        .unwrap();

    assert_eq!(first.len(), 64);
    assert_eq!(second.len(), 64);
    assert!(first.chars().all(|c| c.is_ascii_lowercase()));
    assert!(second.chars().all(|c| c.is_ascii_lowercase()));
}

#[test]
fn error_messages() {
    assert_eq!(
        PasswordGenerationError::MissingContent.message(),
        "missing possible password contents"
    );
    assert_eq!(
        PasswordGenerationError::ZeroLengthPassword.message(),
        "password must be more than 0 elements"
    );
}
