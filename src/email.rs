//! Email addresses of the shape `local@domain.tld`.
use vstd::prelude::*;
use vstd::string::StrSliceExecFns;

verus! {

pub open spec fn is_ascii_alpha(c: char) -> bool {
    ('a' as u32 <= c as u32 && c as u32 <= 'z' as u32) || ('A' as u32 <= c as u32 && c as u32
        <= 'Z' as u32)
}

pub open spec fn is_ascii_alnum(c: char) -> bool {
    is_ascii_alpha(c) || ('0' as u32 <= c as u32 && c as u32 <= '9' as u32)
}

/// A character allowed before the `@`: letters, digits and `. _ % + -`.
pub open spec fn is_local_char(c: char) -> bool {
    is_ascii_alnum(c) || c == '.' || c == '_' || c == '%' || c == '+' || c == '-'
}

/// A character allowed between the `@` and the final dot: letters, digits, `.` and `-`.
pub open spec fn is_domain_char(c: char) -> bool {
    is_ascii_alnum(c) || c == '.' || c == '-'
}

/// `s` splits as `local @ domain . tld` with the `@` at `at` and the final dot at `dot`:
/// a non-empty local part, a non-empty domain and a top-level label of two or more letters.
pub open spec fn email_split(s: Seq<char>, at: int, dot: int) -> bool {
    &&& 0 < at
    &&& at + 1 < dot
    &&& dot + 2 < s.len()
    &&& s[at] == '@'
    &&& s[dot] == '.'
    &&& forall|i: int| 0 <= i < at ==> is_local_char(#[trigger] s[i])
    &&& forall|i: int| at < i < dot ==> is_domain_char(#[trigger] s[i])
    &&& forall|i: int| dot < i < s.len() ==> is_ascii_alpha(#[trigger] s[i])
}

/// The whole of `s` matches `[a-zA-Z0-9._%+-]+@[a-zA-Z0-9.-]+\.[a-zA-Z]{2,}`.
pub open spec fn is_valid_email(s: Seq<char>) -> bool {
    exists|at: int, dot: int| email_split(s, at, dot)
}

fn local_char(c: char) -> (r: bool)
    ensures
        r == is_local_char(c),
{
    ('a' <= c && c <= 'z') || ('A' <= c && c <= 'Z') || ('0' <= c && c <= '9') || c == '.' || c
        == '_' || c == '%' || c == '+' || c == '-'
}

fn domain_char(c: char) -> (r: bool)
    ensures
        r == is_domain_char(c),
{
    ('a' <= c && c <= 'z') || ('A' <= c && c <= 'Z') || ('0' <= c && c <= '9') || c == '.' || c
        == '-'
}

fn alpha_char(c: char) -> (r: bool)
    ensures
        r == is_ascii_alpha(c),
{
    ('a' <= c && c <= 'z') || ('A' <= c && c <= 'Z')
}

/// Decides `is_valid_email` on a string.
pub fn matches_email_pattern(s: &str) -> (r: bool)
    ensures
        r == is_valid_email(s@),
{
    let n = s.unicode_len();
    let ghost v = s@;
    // the local part runs up to the first character that may not stand in it
    let mut at: usize = 0;
    while at < n && local_char(s.get_char(at))
        invariant
            n == v.len(),
            v == s@,
            at <= n,
            forall|i: int| 0 <= i < at ==> is_local_char(#[trigger] v[i]),
        decreases n - at,
    {
        at = at + 1;
    }
    if at == 0 || at >= n || s.get_char(at) != '@' {
        proof {
            assert forall|a: int, d: int| !email_split(v, a, d) by {
                if email_split(v, a, d) {
                    if a < at {
                        assert(is_local_char(v[a]));
                    } else if a > at {
                        assert(is_local_char(v[at as int]));
                    }
                }
            }
        }
        return false;
    }
    // the top-level label is the run of letters at the end
    let mut dot: usize = n;
    while dot > at + 1 && alpha_char(s.get_char(dot - 1))
        invariant
            n == v.len(),
            v == s@,
            at + 1 <= dot <= n,
            forall|i: int| dot <= i < n ==> is_ascii_alpha(#[trigger] v[i]),
        decreases dot,
    {
        dot = dot - 1;
    }
    if dot - at <= 2 || n - dot < 2 || s.get_char(dot - 1) != '.' {
        proof {
            assert forall|a: int, d: int| !email_split(v, a, d) by {
                if email_split(v, a, d) {
                    if a < at {
                        assert(is_local_char(v[a]));
                    } else if a > at {
                        assert(is_local_char(v[at as int]));
                    }
                    assert(a == at);
                    if d + 1 < dot {
                        assert(is_ascii_alpha(v[d]));
                    } else if d + 1 > dot {
                        assert(is_ascii_alpha(v[dot - 1]));
                    }
                }
            }
        }
        return false;
    }
    let dot = dot - 1;
    let mut i: usize = at + 1;
    while i < dot
        invariant
            n == v.len(),
            v == s@,
            at + 1 <= i <= dot < n,
            v[at as int] == '@',
            v[dot as int] == '.',
            dot + 2 < n,
            at + 1 < dot,
            forall|k: int| 0 <= k < at ==> is_local_char(#[trigger] v[k]),
            forall|k: int| dot < k < n ==> is_ascii_alpha(#[trigger] v[k]),
            forall|k: int| at < k < i ==> is_domain_char(#[trigger] v[k]),
        decreases dot - i,
    {
        if !domain_char(s.get_char(i)) {
            proof {
                assert forall|a: int, d: int| !email_split(v, a, d) by {
                    if email_split(v, a, d) {
                        if a < at {
                            assert(is_local_char(v[a]));
                        } else if a > at {
                            assert(is_local_char(v[at as int]));
                        }
                        if d < dot {
                            assert(is_ascii_alpha(v[dot as int]));
                        } else if d > dot {
                            assert(is_ascii_alpha(v[d]));
                        }
                        assert(is_domain_char(v[i as int]));
                    }
                }
            }
            return false;
        }
        i = i + 1;
    }
    assert(email_split(v, at as int, dot as int));
    true
}

/// Refusal of a string that is not an email address.
#[derive(Debug, Clone, Copy, PartialEq, Eq)]
pub struct InvalidEmail;

impl InvalidEmail {
    /// The message shown for the refusal.
    pub fn message(&self) -> (r: String)
        ensures
            r@ == "Email is invalid"@,
    {
        String::from_str("Email is invalid")
    }
}

/// An email address, valid by construction.
#[derive(Debug)]
pub struct Email(String);

impl Clone for Email {
    fn clone(&self) -> (r: Email)
        ensures
            r@ == self@,
    {
        proof {
            use_type_invariant(self);
        }
        Email(self.0.clone())
    }
}

impl View for Email {
    type V = Seq<char>;

    closed spec fn view(&self) -> Seq<char> {
        self.0@
    }
}

impl Default for Email {
    /// The address `user@example.com`.
    fn default() -> (r: Email)
        ensures
            r@ == "user@example.com"@,
    {
        let s = String::from_str("user@example.com");
        proof {
            reveal_strlit("user@example.com");
            assert(email_split(s@, 4, 12));
        }
        Email(s)
    }
}

impl Email {
    #[verifier::type_invariant]
    spec fn well_formed(self) -> bool {
        is_valid_email(self.0@)
    }

    /// Accepts exactly the strings of the email pattern, and keeps them as given.
    pub fn new(raw_email: String) -> (r: Result<Email, InvalidEmail>)
        ensures
            r is Ok <==> is_valid_email(raw_email@),
            r matches Ok(e) ==> e@ == raw_email@,
    {
        if !matches_email_pattern(raw_email.as_str()) {
            return Err(InvalidEmail);
        }
        Ok(Email(raw_email))
    }

    pub fn as_str(&self) -> (r: &str)
        ensures
            r@ == self@,
            is_valid_email(r@),
    {
        proof {
            use_type_invariant(self);
        }
        self.0.as_str()
    }
}

} // verus!
