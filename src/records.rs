//! The plain records that the web layer reads from requests and writes in
//! responses, and its error answers.

use vstd::prelude::*;
use std::collections::{HashMap, HashSet};

verus! {

/// The settings of the service.
pub struct Config {
    pub auth_users: HashSet<String>,
    pub key: String,
    pub db_uri: String,
}

pub struct PasswordForm {
    pub password: String,
}

pub struct UserCred {
    pub email: String,
    pub password: String,
}

pub struct UserRegister {
    pub email: String,
    pub username: String,
    pub password: String,
}

/// What a login token states: its expiry, in seconds since the Unix epoch,
/// and its subject.
pub struct Claims {
    pub exp: usize,
    pub sub: String,
}

pub struct EmailForm {
    pub email: String,
    pub priority: Option<u128>,
}

pub struct LoginResponse {
    pub username: String,
    pub token: String,
}

pub struct UserDetails {
    pub username: String,
    pub created: String,
    pub account_level: String,
    pub email: String,
}

pub struct RegisterResponse {
    pub ok: bool,
}

pub struct StatsResponse {
    pub ok: bool,
}

pub struct CoreStatus {
    pub armed: bool,
    pub store: HashMap<String, String>,
}

pub const MSG_NO_LOGON_ALLOWED: &'static str = "User logon is not currently allowed";

pub const MSG_INVALID_PWD: &'static str = "Could not validate password";

pub const MSG_GEN_TOKEN: &'static str = "Could not generate token";

pub const MSG_INVALID_TOKEN: &'static str = "Invalid bearer token";

pub const MSG_USER_EXISTS: &'static str = "User already exists";

pub const MSG_INTERNAL_DB_ERR: &'static str = "There was an internal DB error";

pub const MSG_INTERNAL_CORE_ERR: &'static str = "Core endpoints are offline";

/// The body of an error answer.
pub struct ErrorJson<T> {
    pub error: T,
}

impl ErrorJson<&'static str> {
    pub fn new(error: &'static str) -> (r: Self)
        ensures
            r.error@ == error@,
    {
        ErrorJson { error }
    }
}

/// An error answer and the status that it is sent with.
pub enum APIError<R> {
    Unauthorized(ErrorJson<R>),
    Forbidden(ErrorJson<R>),
    Conflict(ErrorJson<R>),
    Internal(ErrorJson<R>),
}

impl<R> APIError<R> {
    /// The HTTP status of the answer.
    pub fn status(&self) -> (r: u16)
        ensures
            r == match self {
                APIError::Unauthorized(_) => 401u16,
                APIError::Forbidden(_) => 403u16,
                APIError::Conflict(_) => 409u16,
                APIError::Internal(_) => 500u16,
            },
    {
        match self {
            APIError::Unauthorized(_) => 401,
            APIError::Forbidden(_) => 403,
            APIError::Conflict(_) => 409,
            APIError::Internal(_) => 500,
        }
    }

    /// The body of the answer.
    pub fn body(&self) -> (r: &ErrorJson<R>)
        ensures
            r == match self {
                APIError::Unauthorized(b) => b,
                APIError::Forbidden(b) => b,
                APIError::Conflict(b) => b,
                APIError::Internal(b) => b,
            },
    {
        match self {
            APIError::Unauthorized(b) => b,
            APIError::Forbidden(b) => b,
            APIError::Conflict(b) => b,
            APIError::Internal(b) => b,
        }
    }
}

} // verus!
