use dashboard::email::matches_email_pattern;
use dashboard::{Email, InvalidEmail};

const PATTERN: &str = r"^[a-zA-Z0-9._%+-]+@[a-zA-Z0-9.-]+\.[a-zA-Z]{2,}$";

const SAMPLES: &[&str] = &[
    "a@b.com",
    "user@example.com",
    "first.last+tag@sub.domain.org",
    "x_%-@a-b.c.de",
    "a@b.c",
    "a@.co",
    "a@b..co",
    "@b.com",
    "a@b",
    "a@@b.com",
    "a b@c.com",
    "a@b.c0m",
    "a@b.com.",
    "a@bc",
    "a.b@c",
    "a@b.co1",
    "",
    "@",
    "a@.c",
    "a@b.cO",
    "é@b.com",
    "a@b.com\n",
    "a@b-c.co.uk",
    "a@b.c.d",
    "a@-.ab",
    "ab@c.def@g.hi",
];

#[test]
fn valid_email_is_kept_as_given() {
    let e = Email::new("a@b.com".to_string()).unwrap();
    assert_eq!(e.as_str(), "a@b.com");
    let e = Email::new("first.last+tag@sub.domain.org".to_string()).unwrap();
    assert_eq!(e.as_str(), "first.last+tag@sub.domain.org");
}

#[test]
fn invalid_emails_are_refused() {
    for raw in ["", "plain", "a@b", "@b.com", "a@b.c", "a@b.c0m", "a@.com", "a b@c.com"] {
        assert_eq!(Email::new(raw.to_string()).unwrap_err(), InvalidEmail);
    }
}

#[test]
fn domain_needs_a_character_before_the_final_dot() {
    assert!(Email::new("a@.co".to_string()).is_err());
    assert!(Email::new("a@..co".to_string()).is_ok());
}

#[test]
fn top_level_label_of_two_letters_is_the_minimum() {
    assert!(Email::new("a@b.co".to_string()).is_ok());
    assert!(Email::new("a@b.c".to_string()).is_err());
}

#[test]
fn trailing_newline_is_refused() {
    assert!(Email::new("a@b.com\n".to_string()).is_err());
}

#[test]
fn matcher_agrees_with_the_regex_engine() {
    let rgx = regex::Regex::new(PATTERN).unwrap();
    for s in SAMPLES {
        assert_eq!(matches_email_pattern(s), rgx.is_match(s), "on {:?}", s);
        assert_eq!(Email::new(s.to_string()).is_ok(), rgx.is_match(s), "on {:?}", s);
    }
}

#[test]
fn default_email_is_example_address() {
    let e = Email::default();
    assert_eq!(e.as_str(), "user@example.com");
    assert!(Email::new(e.as_str().to_string()).is_ok());
}

#[test]
fn invalid_email_message() {
    assert_eq!(InvalidEmail.message(), "Email is invalid");
}

#[test]
fn cloned_email_keeps_address() {
    let e = Email::new("q@r.st".to_string()).unwrap();
    assert_eq!(e.clone().as_str(), "q@r.st");
}
