//! The account rules of the web layer: password and address checks, the
//! lifetime of a login token, the bearer header, account levels and the
//! list of addresses allowed to log in.

use vstd::prelude::*;
use std::collections::HashSet;
use std::sync::Arc;
use vstd::std_specs::hash::{builds_valid_hashers, obeys_key_model, set_contains_borrowed_key};

verus! {

/// Whether `pattern` matches somewhere in `text`, or `None` where the
/// pattern does not compile.
pub uninterp spec fn regex_match(pattern: Seq<char>, text: Seq<char>) -> Option<bool>;

/// Relies on `regex::Regex::new`, which compiles a pattern or reports it
/// invalid, and on `Regex::is_match`, which tells whether the compiled
/// pattern matches anywhere in the text.
#[verifier::external_body]
fn find_match(pattern: &str, text: &str) -> (r: Option<bool>)
    ensures
        r == regex_match(pattern@, text@),
{
    match regex::Regex::new(pattern) {
        Ok(re) => Some(re.is_match(text)),
        Err(_) => None,
    }
}

pub const LOWERCASE: &'static str = "[a-z]";

pub const UPPERCASE: &'static str = "[A-Z]";

pub const DIGIT: &'static str = r"\d";

pub const SPECIAL: &'static str = r#"[!"£$%^&*\[\];'#~?><\\]"#;

pub const MIN_LENGTH: &'static str = ".{16,}";

pub const NO_WHITESPACE: &'static str = r"^\S+$";

pub const EMAIL: &'static str = r#"(?:[a-z0-9!#$%&'*+/=?^_{|}~-]+(?:\.[a-z0-9!#$%&'*+/=?^_{|}~-]+)*|"(?:[\x01-\x08\x0b\x0c\x0e-\x1f\x21\x23-\x5b\x5d-\x7f]|\\[\x01-\x09\x0b\x0c\x0e-\x7f])*")@(?:(?:[a-z0-9](?:[a-z0-9-]*[a-z0-9])?\.)+[a-z0-9](?:[a-z0-9-]*[a-z0-9])?|\[(?:(?:25[0-5]|2[0-4][0-9]|[01]?[0-9][0-9]?)\.){3}(?:25[0-5]|2[0-4][0-9]|[01]?[0-9][0-9]?|[a-z0-9-]*[a-z0-9]:(?:[\x01-\x08\x0b\x0c\x0e-\x1f\x21-\x5a\x53-\x7f]|\\[\x01-\x09\x0b\x0c\x0e-\x7f])+)\])"#;

pub const WEAK_PASSWORD: &'static str = "Password does not meet strength criteria";

pub const INVALID_EMAIL: &'static str = "Invalid email address";

/// A password or address that fails its check.
#[derive(Debug)]
pub struct RegexError {
    pub details: &'static str,
}

impl RegexError {
    pub fn new(details: &'static str) -> (r: RegexError)
        ensures
            r.details@ == details@,
    {
        RegexError { details }
    }

    /// What the check found wrong.
    pub fn details(&self) -> (r: &'static str)
        ensures
            r@ == self.details@,
    {
        self.details
    }
}

/// The patterns that a strong password matches, each somewhere in it: a
/// lower case letter, an upper case letter, a digit, a special character,
/// at least sixteen characters, and no whitespace.
pub open spec fn password_patterns() -> Seq<Seq<char>> {
    seq![LOWERCASE@, UPPERCASE@, DIGIT@, SPECIAL@, MIN_LENGTH@, NO_WHITESPACE@]
}

/// Whether every check matched; a pattern that did not compile fails.
pub fn all_matched(results: &[Option<bool>]) -> (r: bool)
    ensures
        r == forall|i: int| 0 <= i < results@.len() ==> results@[i] == Some(true),
{
    let mut i: usize = 0;
    while i < results.len()
        invariant
            i <= results@.len(),
            forall|k: int| 0 <= k < i ==> results@[k] == Some(true),
        decreases results.len() - i,
    {
        match results[i] {
            Some(true) => {},
            _ => return false,
        }
        i = i + 1;
    }
    true
}

/// Accepts a password that matches every pattern of `password_patterns`.
pub fn validate_password(password: &str) -> (r: Result<(), RegexError>)
    ensures
        r is Ok <==> forall|i: int|
            0 <= i < 6 ==> regex_match(#[trigger] password_patterns()[i], password@) == Some(true),
        r matches Err(e) ==> e.details@ == WEAK_PASSWORD@,
{
    let results = [
        find_match(LOWERCASE, password),
        find_match(UPPERCASE, password),
        find_match(DIGIT, password),
        find_match(SPECIAL, password),
        find_match(MIN_LENGTH, password),
        find_match(NO_WHITESPACE, password),
    ];
    let ok = all_matched(&results);
    proof {
        assert forall|i: int| 0 <= i < 6 implies results@[i] == regex_match(
            #[trigger] password_patterns()[i],
            password@,
        ) by {}
    }
    if ok {
        Ok(())
    } else {
        Err(RegexError::new(WEAK_PASSWORD))
    }
}

/// Accepts an address that the `EMAIL` pattern matches.
pub fn validate_email(email: &str) -> (r: Result<(), RegexError>)
    ensures
        r is Ok <==> regex_match(EMAIL@, email@) == Some(true),
        r matches Err(e) ==> e.details@ == INVALID_EMAIL@,
{
    let results = [find_match(EMAIL, email)];
    if all_matched(&results) {
        Ok(())
    } else {
        Err(RegexError::new(INVALID_EMAIL))
    }
}

/// How long a login token stays valid: thirty days.
pub const TOKEN_LIFETIME_SECS: u64 = 60 * 60 * 24 * 30;

/// The expiry, in seconds since the Unix epoch, of a token issued at
/// `now_secs`; `None` where it does not fit.
pub fn token_expiry(now_secs: u64) -> (r: Option<u64>)
    ensures
        now_secs + TOKEN_LIFETIME_SECS <= u64::MAX ==> r == Some(
            (now_secs + TOKEN_LIFETIME_SECS) as u64,
        ),
        now_secs + TOKEN_LIFETIME_SECS > u64::MAX ==> r is None,
{
    now_secs.checked_add(TOKEN_LIFETIME_SECS)
}

/// Whether two texts are the same.
pub fn same_text(a: &str, b: &str) -> (r: bool)
    ensures
        r == (a@ == b@),
{
    let n = a.unicode_len();
    if n != b.unicode_len() {
        return false;
    }
    let mut i: usize = 0;
    while i < n
        invariant
            n == a@.len() == b@.len(),
            i <= n,
            forall|k: int| 0 <= k < i ==> a@[k] == b@[k],
        decreases n - i,
    {
        if a.get_char(i) != b.get_char(i) {
            return false;
        }
        i = i + 1;
    }
    assert(a@ =~= b@);
    true
}

pub const ADMIN_NAME: &'static str = "admin";

pub const ADMIN_LEVEL: u8 = 0;

pub const USER_LEVEL: u8 = 2;

/// The level of a new account: the administrator's for the user name
/// `ADMIN_NAME`, an ordinary user's otherwise.
pub fn account_level(username: &str) -> (r: u8)
    ensures
        r == if username@ == ADMIN_NAME@ {
            ADMIN_LEVEL
        } else {
            USER_LEVEL
        },
{
    if same_text(username, ADMIN_NAME) {
        ADMIN_LEVEL
    } else {
        USER_LEVEL
    }
}

pub const BEARER: &'static str = "Bearer ";

/// The token of an `Authorization` header of the bearer scheme: what
/// follows the prefix `BEARER`, or `None` where the header lacks it.
pub fn bearer_token(header: &str) -> (r: Option<&str>)
    ensures
        r is Some <==> header@.len() >= BEARER@.len() && header@.subrange(0, BEARER@.len() as int)
            == BEARER@,
        r matches Some(t) ==> t@ == header@.subrange(BEARER@.len() as int, header@.len() as int),
{
    let n = header.unicode_len();
    let p = BEARER.unicode_len();
    if n < p {
        return None;
    }
    let head = header.substring_char(0, p);
    if same_text(head, BEARER) {
        Some(header.substring_char(p, n))
    } else {
        None
    }
}

/// What decides who may log in: the key that signs tokens and the
/// addresses allowed.
pub struct Validation {
    pub key: Arc<String>,
    pub allowed_emails: Arc<HashSet<String>>,
}

impl Validation {
    pub fn init(key: String, allowed: HashSet<String>) -> (r: Validation)
        ensures
            *r.key == key,
            *r.allowed_emails == allowed,
    {
        Validation { key: Arc::new(key), allowed_emails: Arc::new(allowed) }
    }

    /// Whether `name` is among the allowed addresses.
    pub fn email_allowed(&self, name: &String) -> (r: bool)
        ensures
            obeys_key_model::<String>() && builds_valid_hashers::<
                std::collections::hash_map::RandomState,
            >() ==> r == set_contains_borrowed_key::<String, String>(
                (*self.allowed_emails)@,
                name,
            ),
    {
        let set: &HashSet<String> = &self.allowed_emails;
        set.contains(name)
    }
}

} // verus!
