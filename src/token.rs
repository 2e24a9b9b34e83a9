use base64::Engine;
use rand::Rng;
use vstd::prelude::*;
use vstd::string::StrSliceExecFns;
use vstd::utf8::*;

use crate::errors::SessionError;

verus! {

broadcast use is_ascii_chars_encode_utf8;

/// Number of random bytes behind each session token.
pub const TOKEN_ENTROPY_BYTES: usize = 32;

/// Shortest accepted session token, in bytes.
pub const SESSION_TOKEN_MIN_LEN: usize = 40;

/// Longest accepted session token, in bytes.
pub const SESSION_TOKEN_MAX_LEN: usize = 50;

/// What `char::is_alphanumeric` reports for a character.
pub uninterp spec fn unicode_alphanumeric(c: char) -> bool;

/// The URL-safe base64 text of some bytes, without `=` padding.
pub uninterp spec fn base64_url_no_pad(bytes: Seq<u8>) -> Seq<char>;

pub open spec fn is_ascii_alphanumeric(c: char) -> bool {
    ('a' <= c && c <= 'z') || ('A' <= c && c <= 'Z') || ('0' <= c && c <= '9')
}

/// Characters of the URL-safe base64 alphabet.
pub open spec fn is_url_safe_char(c: char) -> bool {
    is_ascii_alphanumeric(c) || c == '-' || c == '_'
}

/// A character allowed in a session token: alphanumeric in the sense of
/// `char::is_alphanumeric` (on ASCII, the letters and digits), `-` or `_`.
pub open spec fn is_token_char(c: char) -> bool {
    if c <= '\u{7f}' {
        is_ascii_alphanumeric(c) || c == '-' || c == '_'
    } else {
        unicode_alphanumeric(c)
    }
}

/// The shape guard applied before any lookup by token: non-empty, between
/// 40 and 50 bytes of UTF-8, and made of token characters only.
pub open spec fn is_valid_session_token(t: Seq<char>) -> bool {
    &&& t.len() > 0
    &&& SESSION_TOKEN_MIN_LEN <= encode_utf8(t).len() <= SESSION_TOKEN_MAX_LEN
    &&& forall|i: int| 0 <= i < t.len() ==> is_token_char(#[trigger] t[i])
}

/// Relies on `char::is_alphanumeric`, which on ASCII agrees with
/// `char::is_ascii_alphanumeric`.
#[verifier::external_body]
fn char_is_alphanumeric(c: char) -> (r: bool)
    ensures
        r == unicode_alphanumeric(c),
        c <= '\u{7f}' ==> (r == is_ascii_alphanumeric(c)),
{
    c.is_alphanumeric()
}

/// Relies on rand's `thread_rng` (a cryptographically secure generator seeded
/// by the operating system) and `Rng::fill`: 32 bytes, nothing known of them.
#[verifier::external_body]
fn random_bytes() -> (r: Vec<u8>)
    ensures
        r@.len() == TOKEN_ENTROPY_BYTES,
{
    let mut bytes = [0u8; 32];
    rand::thread_rng().fill(&mut bytes);
    bytes.to_vec()
}

/// Relies on base64's `URL_SAFE_NO_PAD` engine: the alphabet `A-Z a-z 0-9 - _`,
/// four characters for every three bytes and no padding, so ceil(4n/3)
/// characters for n bytes.
#[verifier::external_body]
fn encode_url_safe_no_pad(bytes: &[u8]) -> (r: String)
    ensures
        r@ == base64_url_no_pad(bytes@),
        r@.len() == (4 * bytes@.len() + 2) / 3,
        forall|i: int| 0 <= i < r@.len() ==> is_url_safe_char(#[trigger] r@[i]),
{
    base64::engine::general_purpose::URL_SAFE_NO_PAD.encode(bytes)
}

fn is_token_char_exec(c: char) -> (r: bool)
    ensures
        r == is_token_char(c),
{
    if ('a' <= c && c <= 'z') || ('A' <= c && c <= 'Z') || ('0' <= c && c <= '9') {
        true
    } else if c == '-' || c == '_' {
        true
    } else if c <= '\u{7f}' {
        false
    } else {
        char_is_alphanumeric(c)
    }
}

/// Checks the shape of a session token before it is used for a lookup.
pub fn validate_session_token(token: &str) -> (r: Result<(), SessionError>)
    ensures
        r is Ok <==> is_valid_session_token(token@),
        r is Err ==> r matches Err(SessionError::InvalidToken),
{
    if token.is_empty() {
        return Err(SessionError::InvalidToken);
    }
    let n: usize = token.as_bytes().len();
    if n < SESSION_TOKEN_MIN_LEN || n > SESSION_TOKEN_MAX_LEN {
        return Err(SessionError::InvalidToken);
    }
    let count: usize = token.unicode_len();
    let mut i: usize = 0;
    while i < count
        invariant
            count == token@.len(),
            i <= count,
            forall|j: int| 0 <= j < i ==> is_token_char(#[trigger] token@[j]),
        decreases count - i,
    {
        let c = token.get_char(i);
        if !is_token_char_exec(c) {
            return Err(SessionError::InvalidToken);
        }
        i = i + 1;
    }
    Ok(())
}

/// A fresh session token: 32 random bytes in URL-safe base64 without
/// padding, 43 characters that pass the token shape guard.
pub fn generate_token() -> (r: String)
    ensures
        exists|b: Seq<u8>| b.len() == TOKEN_ENTROPY_BYTES && r@ == base64_url_no_pad(b),
        r@.len() == 43,
        forall|i: int| 0 <= i < r@.len() ==> is_url_safe_char(#[trigger] r@[i]),
        is_valid_session_token(r@),
{
    let bytes = random_bytes();
    let token = encode_url_safe_no_pad(bytes.as_slice());
    assert(is_ascii_chars(token@));
    assert forall|i: int| 0 <= i < token@.len() implies is_token_char(#[trigger] token@[i]) by {
        assert(is_url_safe_char(token@[i]));
    }
    token
}

} // verus!
