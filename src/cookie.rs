use vstd::prelude::*;
use vstd::string::{StrSliceExecFns, StringExecFns};

verus! {

/// The `Set-Cookie` value that carries a session token: a host-only name,
/// the root path, `Secure`, `HttpOnly`, `SameSite=Lax`, and a `Max-Age` of
/// one session duration (3600 seconds).
pub open spec fn session_cookie(token: Seq<char>) -> Seq<char> {
    "__Host-session="@ + token + "; Path=/; Secure; HttpOnly; SameSite=Lax; Max-Age=3600"@
}

/// A character that may stand in an HTTP header value: tab, or anything
/// from space up but DEL.
pub open spec fn is_header_value_char(c: char) -> bool {
    c == '\t' || (' ' <= c && c != '\u{7f}')
}

/// Why a cookie could not be built.
#[derive(PartialEq, Eq, Structural, Clone, Copy, Debug)]
pub enum CookieError {
    /// The token holds a character that no header value may hold.
    InvalidHeaderValue,
}

/// Builds the session cookie for a token, or fails when the token cannot be
/// part of a header value.
pub fn set_session_cookie(session_token: &str) -> (r: Result<String, CookieError>)
    ensures
        r is Ok <==> forall|i: int|
            0 <= i < session_token@.len() ==> is_header_value_char(#[trigger] session_token@[i]),
        r matches Ok(c) ==> c@ == session_cookie(session_token@),
{
    let n: usize = session_token.unicode_len();
    let mut i: usize = 0;
    while i < n
        invariant
            n == session_token@.len(),
            i <= n,
            forall|j: int| 0 <= j < i ==> is_header_value_char(#[trigger] session_token@[j]),
        decreases n - i,
    {
        let c = session_token.get_char(i);
        if !(c == '\t' || (' ' <= c && c != '\u{7f}')) {
            return Err(CookieError::InvalidHeaderValue);
        }
        i = i + 1;
    }
    let cookie = "__Host-session=".to_owned();
    let cookie = cookie.concat(session_token);
    let cookie = cookie.concat("; Path=/; Secure; HttpOnly; SameSite=Lax; Max-Age=3600");
    Ok(cookie)
}

} // verus!
