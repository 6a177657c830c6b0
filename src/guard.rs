//! The guard in front of protected routes: reads the `Authorization` header,
//! insists on the `Bearer ` scheme and admits only a valid, unexpired token.
use crate::jwt::{is_token_char, is_token_text, jwt_decoded, verdict, verify_token_bytes, TokenError};
use vstd::prelude::*;
use vstd::utf8::{encode_scalar, encode_utf8, leading_byte_width_1};

verus! {

/// A byte a header value may hold and still read as text: visible ASCII or a tab.
pub open spec fn is_visible_ascii(b: u8) -> bool {
    (32 <= b && b < 127) || b == 9
}

pub open spec fn is_header_text(v: Seq<u8>) -> bool {
    forall|i: int| 0 <= i < v.len() ==> is_visible_ascii(#[trigger] v[i])
}

/// The bytes of `"Bearer "`.
pub open spec fn bearer_prefix() -> Seq<u8> {
    seq![66u8, 101u8, 97u8, 114u8, 101u8, 114u8, 32u8]
}

pub open spec fn has_bearer_prefix(v: Seq<u8>) -> bool {
    v.len() >= 7 && v.subrange(0, 7) == bearer_prefix()
}

/// The bytes of a header value that is present.
pub open spec fn header_bytes(header: Option<&[u8]>) -> Seq<u8> {
    match header {
        Some(v) => v@,
        None => Seq::empty(),
    }
}

/// The header is present, reads as text and names the `Bearer ` scheme.
pub open spec fn is_bearer_header(header: Option<&[u8]>) -> bool {
    header is Some && is_header_text(header_bytes(header)) && has_bearer_prefix(header_bytes(header))
}

/// Why a request was turned away before reaching its handler.
#[derive(Debug, Clone, Copy, PartialEq, Eq)]
pub enum GuardRejection {
    /// No `Authorization` header.
    MissingHeader,
    /// The header value is not visible ASCII text.
    InvalidHeaderText,
    /// The header does not start with `Bearer `.
    BadScheme,
    /// The token was refused, for the reason given.
    InvalidToken(TokenError),
}

impl GuardRejection {
    /// The HTTP status answered for the rejection.
    pub fn status_code(&self) -> (r: u16)
        ensures
            r == (match *self {
                GuardRejection::InvalidHeaderText => 400u16,
                _ => 401u16,
            }),
    {
        match self {
            GuardRejection::InvalidHeaderText => 400,
            _ => 401,
        }
    }

    /// The text answered for the rejection.
    pub fn message(&self) -> (r: &'static str)
        ensures
            *self == GuardRejection::MissingHeader ==> r@ == "Tidak diizinkan"@,
            *self == GuardRejection::InvalidHeaderText ==> r@ == "Header tidak valid"@,
            *self == GuardRejection::BadScheme ==> r@ == "Invalid Header Value"@,
            *self is InvalidToken ==> r@ == "Invalid Token"@,
    {
        match self {
            GuardRejection::MissingHeader => "Tidak diizinkan",
            GuardRejection::InvalidHeaderText => "Header tidak valid",
            GuardRejection::BadScheme => "Invalid Header Value",
            GuardRejection::InvalidToken(_) => "Invalid Token",
        }
    }
}

/// Proof that a request passed the guard: the subject of its token.
#[derive(Debug)]
pub struct QueryHeader(String);

impl View for QueryHeader {
    type V = Seq<char>;

    closed spec fn view(&self) -> Seq<char> {
        self.0@
    }
}

fn is_visible_ascii_byte(b: u8) -> (r: bool)
    ensures
        r == is_visible_ascii(b),
{
    (32 <= b && b < 127) || b == 9
}

fn starts_with_bearer(v: &[u8]) -> (r: bool)
    ensures
        r == has_bearer_prefix(v@),
{
    if v.len() < 7 {
        return false;
    }
    let r = v[0] == 66 && v[1] == 101 && v[2] == 97 && v[3] == 114 && v[4] == 101 && v[5] == 114
        && v[6] == 32;
    assert(r == (v@.subrange(0, 7) =~= bearer_prefix()));
    r
}

impl QueryHeader {
    /// The subject (email) of the admitted token.
    pub fn as_str(&self) -> (r: &str)
        ensures
            r@ == self@,
    {
        self.0.as_str()
    }

    /// Decides on a request whose `Authorization` header is `header`, at time `now`.
    pub fn authorize_at(header: Option<&[u8]>, key: &[u8], now: u64) -> (r: Result<
        QueryHeader,
        GuardRejection,
    >)
        ensures
            header is None ==> r == Err::<QueryHeader, GuardRejection>(GuardRejection::MissingHeader),
            header is Some && !is_header_text(header_bytes(header)) ==> r == Err::<
                QueryHeader,
                GuardRejection,
            >(GuardRejection::InvalidHeaderText),
            header is Some && is_header_text(header_bytes(header)) && !has_bearer_prefix(
                header_bytes(header),
            ) ==> r == Err::<QueryHeader, GuardRejection>(GuardRejection::BadScheme),
            is_bearer_header(header) ==> (r is Ok <==> verdict(
                jwt_decoded(header_bytes(header).skip(7), key@),
                now,
            ) is Some),
            r is Ok ==> is_bearer_header(header) && (verdict(
                jwt_decoded(header_bytes(header).skip(7), key@),
                now,
            ) matches Some(c) && c.0 == r->Ok_0@),
            r is Err && is_bearer_header(header) ==> r->Err_0 is InvalidToken,
    {
        let v = match header {
            None => return Err(GuardRejection::MissingHeader),
            Some(v) => v,
        };
        let mut i: usize = 0;
        while i < v.len()
            invariant
                i <= v@.len(),
                header is Some && header_bytes(header) == v@,
                forall|k: int| 0 <= k < i ==> is_visible_ascii(#[trigger] v@[k]),
            decreases v@.len() - i,
        {
            if !is_visible_ascii_byte(v[i]) {
                assert(!is_visible_ascii(v@[i as int]));
                return Err(GuardRejection::InvalidHeaderText);
            }
            i = i + 1;
        }
        if !starts_with_bearer(v) {
            return Err(GuardRejection::BadScheme);
        }
        let mut token: Vec<u8> = Vec::new();
        let mut j: usize = 7;
        while j < v.len()
            invariant
                7 <= j <= v@.len(),
                is_bearer_header(header) && header_bytes(header) == v@,
                token@ =~= v@.subrange(7, j as int),
            decreases v@.len() - j,
        {
            token.push(v[j]);
            j = j + 1;
        }
        assert(token@ =~= v@.skip(7));
        match verify_token_bytes(token.as_slice(), key, now) {
            Ok(claims) => Ok(QueryHeader(claims.email)),
            Err(e) => Err(GuardRejection::InvalidToken(e)),
        }
    }
}

/// A token that the signer issued, sent as `"Bearer " + token`, reaches the
/// token check unchanged: the header reads as text and names the scheme. It is
/// then admitted, with the token's subject, exactly before the token's expiry.
pub proof fn lemma_bearer_header_of_issued_token(
    token: Seq<char>,
    email: Seq<char>,
    exp: u64,
    key: Seq<u8>,
    now: u64,
)
    requires
        is_token_text(token),
        jwt_decoded(encode_utf8(token), key) == Some((email, exp)),
    ensures
        is_header_text(bearer_prefix() + encode_utf8(token)),
        has_bearer_prefix(bearer_prefix() + encode_utf8(token)),
        (bearer_prefix() + encode_utf8(token)).skip(7) == encode_utf8(token),
        now < exp ==> verdict(jwt_decoded((bearer_prefix() + encode_utf8(token)).skip(7), key), now)
            == Some((email, exp)),
        now >= exp ==> verdict(jwt_decoded((bearer_prefix() + encode_utf8(token)).skip(7), key), now)
            is None,
{
    let b = encode_utf8(token);
    let h = bearer_prefix() + b;
    lemma_token_text_is_header_text(token);
    assert forall|i: int| 0 <= i < h.len() implies is_visible_ascii(#[trigger] h[i]) by {
        if i >= 7 {
            assert(h[i] == b[i - 7]);
        }
    }
    assert(h.subrange(0, 7) =~= bearer_prefix());
    assert(h.skip(7) =~= b);
}

/// The bytes of token text are one per character and all read as header text.
proof fn lemma_token_text_is_header_text(token: Seq<char>)
    requires
        is_token_text(token),
    ensures
        encode_utf8(token).len() == token.len(),
        is_header_text(encode_utf8(token)),
    decreases token.len(),
{
    if token.len() > 0 {
        let rest = token.drop_first();
        assert forall|i: int| 0 <= i < rest.len() implies is_token_char(#[trigger] rest[i]) by {
            assert(rest[i] == token[i + 1]);
            assert(is_token_char(token[i + 1]));
        }
        lemma_token_text_is_header_text(rest);
        assert(is_token_char(token[0]));
        let c = token[0] as u32;
        assert(45 <= c && c <= 122);
        assert(leading_byte_width_1(c) == c as u8 && 45 <= c as u8 && c as u8 <= 122) by (bit_vector)
            requires
                45 <= c && c <= 122,
        ;
        let b = encode_utf8(token);
        assert(b == encode_scalar(c) + encode_utf8(rest));
        assert forall|i: int| 0 <= i < b.len() implies is_visible_ascii(#[trigger] b[i]) by {
            if i > 0 {
                assert(b[i] == encode_utf8(rest)[i - 1]);
            }
        }
    }
}

} // verus!
