//! Registration and login: the decisions around the credential store, which
//! the caller queries and whose answers it hands in.
use crate::email::{is_valid_email, Email};
use crate::password::{hash_password, MAX_PASSWORD_BYTES, password_check, verify_password, PasswordError};
use crate::jwt::{jwt_decoded, jwt_encoded, Claims, TOKEN_TTL_SECONDS};
use vstd::prelude::*;
use vstd::utf8::encode_utf8;

verus! {

/// The `content` part of a successful answer.
#[derive(Debug, Clone)]
pub struct AuthContent {
    pub email: String,
    pub token: String,
    pub expired: u64,
}

/// What the credential store answered to an insert.
#[derive(Debug, Clone, Copy, PartialEq, Eq)]
pub enum InsertOutcome {
    /// The insert went through, touching this many rows.
    Inserted(u64),
    /// The email is already registered (unique constraint).
    UniqueViolation,
    /// Any other store failure.
    Failed,
}

#[derive(Debug, Clone, Copy, PartialEq, Eq)]
pub enum RegisterError {
    InvalidEmail,
    HashFailure,
    EmailTaken,
    StoreFailure,
    NotAccepted,
}

#[derive(Debug, Clone, Copy, PartialEq, Eq)]
pub enum LoginError {
    InvalidEmail,
    NotFound,
    BadCredentials,
    Internal,
}

impl RegisterError {
    /// The HTTP status answered for the error.
    pub fn status_code(&self) -> (r: u16)
        ensures
            r == (match *self {
                RegisterError::InvalidEmail => 400u16,
                RegisterError::EmailTaken => 409u16,
                RegisterError::NotAccepted => 406u16,
                _ => 500u16,
            }),
    {
        match self {
            RegisterError::InvalidEmail => 400,
            RegisterError::EmailTaken => 409,
            RegisterError::NotAccepted => 406,
            _ => 500,
        }
    }
}

impl LoginError {
    /// The HTTP status answered for the error.
    pub fn status_code(&self) -> (r: u16)
        ensures
            r == (match *self {
                LoginError::InvalidEmail => 400u16,
                LoginError::NotFound => 404u16,
                LoginError::BadCredentials => 400u16,
                LoginError::Internal => 500u16,
            }),
    {
        match self {
            LoginError::InvalidEmail => 400,
            LoginError::NotFound => 404,
            LoginError::BadCredentials => 400,
            LoginError::Internal => 500,
        }
    }
}

/// First half of registration: validates the email and hashes the password,
/// giving what is to be inserted into the store.
pub fn prepare_registration(email_raw: String, password: &str) -> (r: Result<
    (Email, String),
    RegisterError,
>)
    ensures
        r == Err::<(Email, String), RegisterError>(RegisterError::InvalidEmail) <==> !is_valid_email(
            email_raw@,
        ),
        r matches Ok(p) ==> p.0@ == email_raw@ && password_check(password@, p.1@) == Ok::<
            (),
            PasswordError,
        >(()),
        r matches Err(e) ==> e == RegisterError::InvalidEmail || e == RegisterError::HashFailure,
        is_valid_email(email_raw@) && encode_utf8(password@).len() <= MAX_PASSWORD_BYTES ==> r is Ok,
{
    let email = match Email::new(email_raw) {
        Ok(e) => e,
        Err(_) => return Err(RegisterError::InvalidEmail),
    };
    match hash_password(password) {
        Ok(h) => Ok((email, h)),
        Err(_) => Err(RegisterError::HashFailure),
    }
}

/// Second half of registration: the answer for what the store said to the insert.
/// No session is opened on registration.
pub fn complete_registration(email: &Email, outcome: InsertOutcome) -> (r: Result<
    AuthContent,
    RegisterError,
>)
    ensures
        outcome matches InsertOutcome::Inserted(n) && n > 0 ==> (r matches Ok(c) && c.email@
            == email@ && c.token@ == Seq::<char>::empty() && c.expired == 0),
        outcome == InsertOutcome::Inserted(0) ==> r == Err::<AuthContent, RegisterError>(
            RegisterError::NotAccepted,
        ),
        outcome == InsertOutcome::UniqueViolation ==> r == Err::<AuthContent, RegisterError>(
            RegisterError::EmailTaken,
        ),
        outcome == InsertOutcome::Failed ==> r == Err::<AuthContent, RegisterError>(
            RegisterError::StoreFailure,
        ),
{
    match outcome {
        InsertOutcome::Inserted(n) => if n == 0 {
            Err(RegisterError::NotAccepted)
        } else {
            Ok(AuthContent { email: email.as_str().to_owned(), token: String::new(), expired: 0 })
        },
        InsertOutcome::UniqueViolation => Err(RegisterError::EmailTaken),
        InsertOutcome::Failed => Err(RegisterError::StoreFailure),
    }
}

/// Login at time `now`, given the hash the store holds for `email` (`None`
/// when the email is not registered). On success a token for `email` that ends
/// one token lifetime after `now`.
pub fn login_at(email: &Email, password: &str, stored: Option<&str>, key: &[u8], now: u64) -> (r:
    Result<AuthContent, LoginError>)
    ensures
        r == Err::<AuthContent, LoginError>(LoginError::NotFound) <==> stored is None,
        r == Err::<AuthContent, LoginError>(LoginError::BadCredentials) <==> (stored matches Some(h)
            && password_check(password@, h@) is Err),
        r == Err::<AuthContent, LoginError>(LoginError::Internal) <==> (stored matches Some(h)
            && password_check(password@, h@) is Ok && now > u64::MAX - TOKEN_TTL_SECONDS),
        r is Ok <==> (stored matches Some(h) && password_check(password@, h@) is Ok && now
            <= u64::MAX - TOKEN_TTL_SECONDS),
        r matches Ok(c) ==> c.email@ == email@ && c.expired == TOKEN_TTL_SECONDS && c.token@
            == jwt_encoded(email@, (now + TOKEN_TTL_SECONDS) as u64, key@) && jwt_decoded(
            encode_utf8(c.token@),
            key@,
        ) == Some((email@, (now + TOKEN_TTL_SECONDS) as u64)),
{
    let hash = match stored {
        None => return Err(LoginError::NotFound),
        Some(h) => h,
    };
    if verify_password(password, hash).is_err() {
        return Err(LoginError::BadCredentials);
    }
    if now > u64::MAX - TOKEN_TTL_SECONDS {
        return Err(LoginError::Internal);
    }
    let claims = Claims::issued_at(email.as_str().to_owned(), now, TOKEN_TTL_SECONDS);
    match claims.to_token(key) {
        Ok(token) => Ok(
            AuthContent { email: email.as_str().to_owned(), token, expired: TOKEN_TTL_SECONDS },
        ),
        Err(_) => Err(LoginError::Internal),
    }
}

} // verus!
