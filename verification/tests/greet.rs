use greeter::greet;
use greeter::is_space_char;
use greeter::MAX_NAME_CHARS;

#[test]
fn test_greet_success() {
    let result = greet("World");
    assert!(result.is_ok());
    assert_eq!(
        result.unwrap(),
        "Hello, World! You've been greeted from Rust!"
    );
}

#[test]
fn test_greet_empty_name() {
    let result = greet("");
    assert!(result.is_err());
    assert_eq!(result.unwrap_err(), "Name cannot be empty");
}

#[test]
fn test_greet_whitespace_only() {
    let result = greet("   ");
    assert!(result.is_err());
}

#[test]
fn test_greet_too_long() {
    let long_name = "a".repeat(101);
    let result = greet(&long_name);
    assert!(result.is_err());
    assert!(result.unwrap_err().contains("too long"));
}

#[test]
fn test_greet_trims_whitespace() {
    let result = greet("  Bob  ");
    assert!(result.is_ok());
    assert_eq!(result.unwrap(), "Hello, Bob! You've been greeted from Rust!");
}

#[test]
fn test_greet_max_length_name() {
    let name = "a".repeat(MAX_NAME_CHARS);
    let result = greet(&name);
    assert!(result.is_ok());
    assert_eq!(
        result.unwrap(),
        format!("Hello, {}! You've been greeted from Rust!", name)
    );
}

#[test]
fn test_greet_long_padding_is_trimmed_before_the_length_check() {
    let padded = format!("{}Ann{}", " ".repeat(80), " ".repeat(80));
    let result = greet(&padded);
    assert!(result.is_ok());
    assert_eq!(result.unwrap(), "Hello, Ann! You've been greeted from Rust!");
}

#[test]
fn test_greet_too_long_exact_message() {
    let name = "b".repeat(MAX_NAME_CHARS + 1);
    let result = greet(&name);
    assert_eq!(
        result.unwrap_err(),
        "Name is too long (max 100 characters)"
    );
}

#[test]
fn test_greet_tab_and_newline_trimmed() {
    let result = greet("\t\nEve\r\n ");
    assert_eq!(result.unwrap(), "Hello, Eve! You've been greeted from Rust!");
}

#[test]
fn test_greet_unicode_whitespace_trimmed() {
    let result = greet("\u{3000}Ana\u{2000}");
    assert_eq!(result.unwrap(), "Hello, Ana! You've been greeted from Rust!");
}

#[test]
fn test_greet_inner_whitespace_kept() {
    let result = greet(" Mary Jane ");
    assert_eq!(
        result.unwrap(),
        "Hello, Mary Jane! You've been greeted from Rust!"
    );
}

#[test]
fn test_greet_newline_only_is_empty() {
    let result = greet("\n\r\t");
    assert_eq!(result.unwrap_err(), "Name cannot be empty");
}

#[test]
fn test_greet_idempotent() {
    let first = greet("  Ada Lovelace  ");
    let second = greet("  Ada Lovelace  ");
    assert_eq!(first, second);
    let first_err = greet("   ");
    let second_err = greet("   ");
    assert_eq!(first_err, second_err);
}

#[test]
fn test_is_space_char_matches_trimming() {
    assert!(is_space_char(' '));
    assert!(is_space_char('\t'));
    assert!(is_space_char('\u{3000}'));
    assert!(!is_space_char('a'));
    assert!(!is_space_char('\u{200B}'));
    for c in '\u{0}'..='\u{3001}' {
        assert_eq!(is_space_char(c), c.is_whitespace());
    }
}
