use rust_axum_askama_htmx::error::AppError;
use rust_axum_askama_htmx::model::Todo;
use rust_axum_askama_htmx::serialization::{checkbox_from_lower, checkbox_value, false_fn};
use rust_axum_askama_htmx::service::{affected_outcome, fetched_outcome, stored_outcome};
use rust_axum_askama_htmx::session::SessionFlags;
use rust_axum_askama_htmx::text::{is_blank, is_white, normalize_email, same_text, strip_prefix};

#[test]
fn false_fn_is_false() {
    assert!(!false_fn());
}

#[test]
fn checkbox_values() {
    assert_eq!(checkbox_value("on"), Some(true));
    assert_eq!(checkbox_value("ON"), Some(true));
    assert_eq!(checkbox_value("True"), Some(true));
    assert_eq!(checkbox_value("off"), Some(false));
    assert_eq!(checkbox_value("FALSE"), Some(false));
    assert_eq!(checkbox_value("yes"), None);
    assert_eq!(checkbox_value(""), None);
    assert_eq!(checkbox_from_lower("true"), Some(true));
    assert_eq!(checkbox_from_lower("On"), None);
}

#[test]
fn email_normalization() {
    assert_eq!(normalize_email("Bob@Example.COM"), "bob@example.com");
    assert_eq!(normalize_email("ÀB@x"), "Àb@x");
}

#[test]
fn blank_text() {
    assert!(is_blank(""));
    assert!(is_blank(" \t\r\n"));
    assert!(is_blank("\u{3000}"));
    assert!(!is_blank(" a "));
}

#[test]
fn text_compare_and_prefix() {
    assert!(same_text("abc", "abc"));
    assert!(!same_text("abc", "abd"));
    assert!(!same_text("abc", "ab"));
    assert_eq!(strip_prefix("Bearer xyz", "Bearer "), Some("xyz".to_string()));
    assert_eq!(strip_prefix("Bear", "Bearer "), None);
    assert_eq!(strip_prefix("héllo", "hé"), Some("llo".to_string()));
}

#[test]
fn store_outcomes() {
    assert_eq!(affected_outcome(Ok(1)), Ok(()));
    assert_eq!(affected_outcome(Ok(0)), Err(AppError::NotFound));
    assert_eq!(affected_outcome(Err("io".to_string())), Err(AppError::StorageError("io".to_string())));
    assert_eq!(fetched_outcome(Ok(None)), Err(AppError::NotFound));
    let t = Todo::default();
    assert_eq!(fetched_outcome(Ok(Some(t.clone()))), Ok(t));
    assert_eq!(fetched_outcome(Err("x".to_string())), Err(AppError::StorageError("x".to_string())));
    assert_eq!(stored_outcome::<u8>(Ok(4)), Ok(4));
    assert_eq!(stored_outcome::<u8>(Err("y".to_string())), Err(AppError::StorageError("y".to_string())));
}

#[test]
fn session_defaults() {
    let mut s = SessionFlags::new();
    assert!(!s.get_flag());
    assert_eq!(s.get_timezone(), "");
    s.set_timezone("UTC".to_string());
    s.set_flag(true);
    assert!(s.get_flag());
    assert_eq!(s.get_timezone(), "UTC");
}

#[test]
fn error_messages() {
    assert_eq!(AppError::DuplicateEmail.message(), "the email is already in use.");
    assert_eq!(AppError::InvalidCredentials.message(), "invalid email or password.");
    assert_eq!(AppError::NoToken.message(), "You are not logged in, please provide token");
    assert_eq!(AppError::InvalidToken.message(), "Invalid token");
    assert_eq!(AppError::UserGone.message(), "The user belonging to this token no longer exists");
    assert_eq!(AppError::NotFound.message(), "todo does not exist in the database.");
    assert_eq!(AppError::ValidationError.message(), "You must enter at least one title for the Todo");
    assert_eq!(AppError::StorageError("db".to_string()).message(), "db");
}

#[test]
fn unicode_white_space_set() {
    for c in ['\t', '\n', '\u{b}', '\u{c}', '\r', ' ', '\u{85}', '\u{a0}', '\u{1680}', '\u{2000}', '\u{200a}', '\u{2028}', '\u{2029}', '\u{202f}', '\u{205f}', '\u{3000}'] {
        assert!(is_white(c));
        assert_eq!(is_white(c), c.is_whitespace());
    }
    for c in ['a', '\u{200b}', '\u{180e}', '\u{feff}', '\u{8}', '\u{e}', '\u{2030}'] {
        assert!(!is_white(c));
        assert_eq!(is_white(c), c.is_whitespace());
    }
}
