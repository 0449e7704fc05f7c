//! Double-submit CSRF protection for `/api/cmd/*` and the attributes of the
//! two cookies the server sets.
//!
//! Login sets a non-HttpOnly `tolaria_csrf` cookie; the client JS reads it
//! and echoes it back in the `X-CSRF-Token` header on every command call.
//! Command requests whose header is missing or does not match the cookie
//! are rejected.

use vstd::prelude::*;
use crate::hex::{hex_of, is_hex_lower};
use crate::paths::chars_eq;
use crate::text_support::chars_of;

verus! {

pub const CSRF_COOKIE: &'static str = "tolaria_csrf";

pub const CSRF_HEADER: &'static str = "x-csrf-token";

pub const SESSION_COOKIE: &'static str = "tolaria_session";

/// The double-submit rule: both present, the cookie non-empty, and equal.
pub open spec fn csrf_passes(cookie: Option<Seq<char>>, header: Option<Seq<char>>) -> bool {
    match (cookie, header) {
        (Some(c), Some(h)) => c.len() > 0 && c == h,
        _ => false,
    }
}

/// True iff the `tolaria_csrf` cookie value and the `X-CSRF-Token` header
/// value are both present, non-empty, and equal.
pub fn verify(cookie: Option<&str>, header: Option<&str>) -> (ok: bool)
    ensures
        ok == csrf_passes(
            match cookie {
                Some(c) => Some(c@),
                None => None,
            },
            match header {
                Some(h) => Some(h@),
                None => None,
            },
        ),
{
    match (cookie, header) {
        (Some(c), Some(h)) => {
            let cc = chars_of(c);
            let hc = chars_of(h);
            cc.len() > 0 && chars_eq(cc.as_slice(), hc.as_slice())
        },
        _ => false,
    }
}

/// A fresh 32-byte token, hex-encoded (64 characters), or the error of the
/// OS random source when it could not supply the bytes.
pub fn generate_token() -> (t: Result<String, String>)
    ensures
        t matches Ok(s) ==> (exists|b: Seq<u8>| b.len() == 32 && s@ == hex_of(b)),
        t matches Ok(s) ==> s@.len() == 64,
        t matches Ok(s) ==> forall|i: int| 0 <= i < s@.len() ==> is_hex_lower(#[trigger] s@[i]),
{
    crate::hex::generate_token()
}

/// A cookie the server sets: always `SameSite=Lax` and `Path=/`.
#[derive(Debug)]
pub struct CookieSpec {
    pub name: &'static str,
    pub value: String,
    pub http_only: bool,
    pub secure: bool,
}

/// The CSRF cookie: not HttpOnly, so the browser JS can read it and echo
/// it in the header.
pub fn csrf_cookie(value: String, secure: bool) -> (c: CookieSpec)
    ensures
        c.name == CSRF_COOKIE,
        c.value@ == value@,
        !c.http_only,
        c.secure == secure,
{
    CookieSpec { name: CSRF_COOKIE, value, http_only: false, secure }
}

/// The session cookie: HttpOnly, so scripts never see the token.
pub fn session_cookie(value: String, secure: bool) -> (c: CookieSpec)
    ensures
        c.name == SESSION_COOKIE,
        c.value@ == value@,
        c.http_only,
        c.secure == secure,
{
    CookieSpec { name: SESSION_COOKIE, value, http_only: true, secure }
}

/// A request whose CSRF header does not match a non-empty cookie is never
/// accepted, whatever else it carries.
pub proof fn mismatched_token_is_refused(cookie: Seq<char>, header: Seq<char>)
    requires
        cookie != header || cookie.len() == 0,
    ensures
        !csrf_passes(Some(cookie), Some(header)),
        !csrf_passes(None, Some(header)),
        !csrf_passes(Some(cookie), None),
{
}

} // verus!
