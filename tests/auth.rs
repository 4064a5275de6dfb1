use std::collections::HashSet;

use anzen_web::auth::{
    account_level, all_matched, bearer_token, same_text, token_expiry, validate_email,
    validate_password, RegexError, Validation, ADMIN_LEVEL, INVALID_EMAIL, TOKEN_LIFETIME_SECS,
    USER_LEVEL, WEAK_PASSWORD,
};
use anzen_web::records::{APIError, ErrorJson, MSG_USER_EXISTS};
use anzen_web::plugin::{stream_step, toggled_arm_status, ArmStatus, StreamStep};
use anzen_web::salt::{gen_salt, SALT_LEN};

#[test]
fn strong_password_is_accepted() {
    assert!(validate_password("Abcdefghijklmn0!").is_ok());
}

#[test]
fn weak_passwords_are_rejected() {
    for p in [
        "abcdefghijklmn0!",
        "ABCDEFGHIJKLMN0!",
        "Abcdefghijklmno!",
        "Abcdefghijklmn01",
        "Abcdefghijk0!",
        "Abcdefg hijklmn0!",
        "",
    ] {
        let e = validate_password(p).unwrap_err();
        assert_eq!(e.details(), WEAK_PASSWORD);
    }
}

#[test]
fn email_check() {
    assert!(validate_email("someone@example.com").is_ok());
    assert_eq!(validate_email("not an address").unwrap_err().details(), INVALID_EMAIL);
}

#[test]
fn all_matched_needs_every_check() {
    assert!(all_matched(&[]));
    assert!(all_matched(&[Some(true), Some(true)]));
    assert!(!all_matched(&[Some(true), Some(false)]));
    assert!(!all_matched(&[None]));
}

#[test]
fn regex_error_keeps_details() {
    assert_eq!(RegexError::new("bad").details(), "bad");
}

#[test]
fn token_lasts_thirty_days() {
    assert_eq!(TOKEN_LIFETIME_SECS, 2_592_000);
    assert_eq!(token_expiry(1_000), Some(2_593_000));
    assert_eq!(token_expiry(u64::MAX - 10), None);
}

#[test]
fn admin_gets_admin_level() {
    assert_eq!(account_level("admin"), ADMIN_LEVEL);
    assert_eq!(account_level("Admin"), USER_LEVEL);
    assert_eq!(account_level("admin2"), USER_LEVEL);
    assert_eq!(account_level(""), USER_LEVEL);
}

#[test]
fn same_text_compares_characters() {
    assert!(same_text("héllo", "héllo"));
    assert!(!same_text("héllo", "hello"));
    assert!(!same_text("ab", "abc"));
}

#[test]
fn bearer_header() {
    assert_eq!(bearer_token("Bearer abc.def"), Some("abc.def"));
    assert_eq!(bearer_token("Bearer "), Some(""));
    assert_eq!(bearer_token("Basic abc"), None);
    assert_eq!(bearer_token("Bear"), None);
}

#[test]
fn salt_is_sixteen_alphanumerics() {
    let a = gen_salt();
    let b = gen_salt();
    assert_eq!(a.chars().count(), SALT_LEN);
    assert!(a.chars().all(|c| c.is_ascii_alphanumeric()));
    assert_eq!(b.len(), SALT_LEN);
}

#[test]
fn allowed_emails() {
    let mut allowed = HashSet::new();
    allowed.insert("a@example.com".to_string());
    let v = Validation::init("key".to_string(), allowed);
    assert!(v.email_allowed(&"a@example.com".to_string()));
    assert!(!v.email_allowed(&"b@example.com".to_string()));
    assert_eq!(v.key.as_str(), "key");
}

#[test]
fn error_statuses() {
    assert_eq!(APIError::Unauthorized(ErrorJson::new("x")).status(), 401);
    assert_eq!(APIError::Forbidden(ErrorJson::new("x")).status(), 403);
    let conflict = APIError::Conflict(ErrorJson::new(MSG_USER_EXISTS));
    assert_eq!(conflict.status(), 409);
    assert_eq!(conflict.body().error, MSG_USER_EXISTS);
    assert_eq!(APIError::Internal(ErrorJson::new("x")).status(), 500);
}

#[test]
fn toggle_asks_for_the_opposite_status() {
    assert_eq!(toggled_arm_status(true), ArmStatus::Disarmed);
    assert_eq!(toggled_arm_status(false), ArmStatus::Armed);
}

#[test]
fn command_stream_steps() {
    assert_eq!(stream_step(true, Some(3), 3), StreamStep::Stop);
    assert_eq!(stream_step(false, Some(3), 3), StreamStep::SignalShutdown);
    assert_eq!(stream_step(false, Some(1), 3), StreamStep::Skip);
    assert_eq!(stream_step(false, None, 3), StreamStep::Skip);
}
