use dashboard::auth::{
    complete_registration, login_at, prepare_registration, AuthContent, InsertOutcome,
    LoginError, RegisterError,
};
use dashboard::jwt::verify_token;
use dashboard::password::{hash_password, verify_password, PasswordError};
use dashboard::Email;

const KEY: &[u8] = b"SECRET";

/// A credential table with the email as unique key, as the store keeps it.
struct Table(Vec<(String, String)>);

impl Table {
    fn insert(&mut self, email: &str, hash: &str) -> InsertOutcome {
        if self.0.iter().any(|(e, _)| e == email) {
            return InsertOutcome::UniqueViolation;
        }
        self.0.push((email.to_string(), hash.to_string()));
        InsertOutcome::Inserted(1)
    }

    fn find(&self, email: &str) -> Option<&str> {
        self.0.iter().find(|(e, _)| e == email).map(|(_, h)| h.as_str())
    }

    fn register(&mut self, email: &str, password: &str) -> Result<AuthContent, RegisterError> {
        let (email, hash) = prepare_registration(email.to_string(), password)?;
        let outcome = self.insert(email.as_str(), &hash);
        complete_registration(&email, outcome)
    }
}

#[test]
fn hash_then_verify_round_trip() {
    let h = hash_password("pw1").unwrap();
    assert_ne!(h, "pw1");
    assert!(h.starts_with("$argon2"));
    assert_eq!(verify_password("pw1", &h), Ok(()));
}

#[test]
fn verify_refuses_other_password() {
    let h = hash_password("pw1").unwrap();
    assert_eq!(verify_password("pw2", &h), Err(PasswordError::Mismatch));
    assert_eq!(verify_password("", &h), Err(PasswordError::Mismatch));
}

#[test]
fn verify_refuses_malformed_hash() {
    assert_eq!(verify_password("pw1", "pw1"), Err(PasswordError::MalformedHash));
    assert_eq!(verify_password("pw1", ""), Err(PasswordError::MalformedHash));
}

#[test]
fn hashes_of_one_password_differ_by_salt() {
    let a = hash_password("same").unwrap();
    let b = hash_password("same").unwrap();
    assert_ne!(a, b);
}

#[test]
fn register_twice_conflicts() {
    let mut table = Table(Vec::new());
    let first = table.register("a@b.com", "pw1").unwrap();
    assert_eq!(first.email, "a@b.com");
    assert_eq!(first.token, "");
    assert_eq!(first.expired, 0);
    let second = table.register("a@b.com", "pw1").unwrap_err();
    assert_eq!(second, RegisterError::EmailTaken);
    assert_eq!(second.status_code(), 409);
}

#[test]
fn register_accepts_empty_password() {
    let (e, h) = prepare_registration("a@b.com".to_string(), "").unwrap();
    assert_eq!(e.as_str(), "a@b.com");
    assert_eq!(verify_password("", &h), Ok(()));
}

#[test]
fn register_refuses_invalid_email() {
    let err = prepare_registration("not-an-email".to_string(), "pw").unwrap_err();
    assert_eq!(err, RegisterError::InvalidEmail);
    assert_eq!(err.status_code(), 400);
}

#[test]
fn registration_outcomes_of_the_store() {
    let e = Email::new("c@d.org".to_string()).unwrap();
    assert_eq!(complete_registration(&e, InsertOutcome::Inserted(0)).unwrap_err(), RegisterError::NotAccepted);
    assert_eq!(complete_registration(&e, InsertOutcome::Failed).unwrap_err(), RegisterError::StoreFailure);
    assert_eq!(RegisterError::NotAccepted.status_code(), 406);
    assert_eq!(RegisterError::StoreFailure.status_code(), 500);
    assert_eq!(RegisterError::HashFailure.status_code(), 500);
    assert_eq!(complete_registration(&e, InsertOutcome::Inserted(3)).unwrap().email, "c@d.org");
}

#[test]
fn login_unknown_email_is_not_found() {
    let e = Email::new("nobody@b.com".to_string()).unwrap();
    let table = Table(Vec::new());
    let err = login_at(&e, "pw1", table.find(e.as_str()), KEY, 1_000).unwrap_err();
    assert_eq!(err, LoginError::NotFound);
    assert_eq!(err.status_code(), 404);
}

#[test]
fn login_wrong_password_is_bad_credentials() {
    let mut table = Table(Vec::new());
    table.register("a@b.com", "pw1").unwrap();
    let e = Email::new("a@b.com".to_string()).unwrap();
    let err = login_at(&e, "wrong", table.find(e.as_str()), KEY, 1_000).unwrap_err();
    assert_eq!(err, LoginError::BadCredentials);
    assert_eq!(err.status_code(), 400);
}

#[test]
fn login_with_malformed_stored_hash_is_bad_credentials() {
    let e = Email::new("a@b.com".to_string()).unwrap();
    assert_eq!(login_at(&e, "pw1", Some("garbage"), KEY, 1_000).unwrap_err(), LoginError::BadCredentials);
}

#[test]
fn login_issues_sixty_second_token() {
    let mut table = Table(Vec::new());
    table.register("a@b.com", "pw1").unwrap();
    let e = Email::new("a@b.com".to_string()).unwrap();
    let content = login_at(&e, "pw1", table.find(e.as_str()), KEY, 1_000).unwrap();
    assert_eq!(content.email, "a@b.com");
    assert_eq!(content.expired, 60);
    let claims = verify_token(&content.token, KEY, 1_000).unwrap();
    assert_eq!(claims.email, "a@b.com");
    assert_eq!(claims.exp, 1_060);
}

#[test]
fn login_at_the_end_of_time_is_internal() {
    let h = hash_password("pw1").unwrap();
    let e = Email::new("a@b.com".to_string()).unwrap();
    let err = login_at(&e, "pw1", Some(&h), KEY, u64::MAX - 10).unwrap_err();
    assert_eq!(err, LoginError::Internal);
    assert_eq!(err.status_code(), 500);
}
