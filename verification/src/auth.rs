//! Authentication decisions: guarding routes, logging in and out, and the
//! session check. The transport turns each decision into an HTTP response.

use vstd::prelude::*;
use crate::csrf::{csrf_cookie, generate_token, session_cookie, CookieSpec, CSRF_COOKIE, SESSION_COOKIE};
use crate::hex::is_hex_lower;
use crate::rpc::{RpcError, STATUS_INTERNAL, STATUS_UNAUTHORIZED};
use crate::session::{expiry, lookup, session_view, SessionRecord, SessionStore};
use crate::text_support::chars_of;
use crate::users::UserRecord;

verus! {

/// What the route guard does with a request.
#[derive(Debug, PartialEq, Eq, Structural)]
pub enum Gate {
    /// The request carries a valid session: forward it.
    Pass,
    /// An unauthenticated `/api/...` request: `401` with a JSON error.
    Unauthorized,
    /// An unauthenticated page request: redirect to `/login`.
    RedirectToLogin,
}

/// `path` begins with `/api/`.
pub open spec fn is_api_path(path: Seq<char>) -> bool {
    path.len() >= 5 && path.subrange(0, 5) == "/api/"@
}

fn api_path(path: &str) -> (r: bool)
    ensures
        r == is_api_path(path@),
{
    let p = chars_of(path);
    let prefix = chars_of("/api/");
    proof {
        reveal_strlit("/api/");
    }
    if p.len() < 5 {
        return false;
    }
    let mut i: usize = 0;
    while i < 5
        invariant
            p@ == path@,
            p@.len() >= 5,
            prefix@ == "/api/"@,
            prefix@.len() == 5,
            i <= 5,
            forall|k: int| 0 <= k < i ==> p@[k] == prefix@[k],
        decreases 5 - i,
    {
        if p[i] != prefix[i] {
            proof {
                assert(p@.subrange(0, 5)[i as int] != prefix@[i as int]);
            }
            return false;
        }
        i = i + 1;
    }
    proof {
        assert(p@.subrange(0, 5) =~= prefix@);
    }
    true
}

/// The session named by the cookie, looked up now (an expired session is
/// evicted as a side effect).
pub fn session_for(store: &mut SessionStore, cookie: Option<&str>) -> (r: Option<crate::session::Session>)
    ensures
        match cookie {
            None => r is None && final(store)@ == old(store)@,
            Some(t) => exists|now: u128|
                (session_view(r), final(store)@) == lookup(old(store)@, t@, now),
        },
{
    match cookie {
        None => None,
        Some(t) => store.get(t),
    }
}

/// Guard a protected route: forward authenticated requests, otherwise
/// refuse `/api/*` with `401` and send pages to the login form.
pub fn gate(store: &mut SessionStore, cookie: Option<&str>, path: &str) -> (g: Gate)
    ensures
        match cookie {
            None => final(store)@ == old(store)@,
            Some(t) => exists|now: u128| final(store)@ == lookup(old(store)@, t@, now).1 && (
            (g == Gate::Pass) <==> lookup(old(store)@, t@, now).0 is Some),
        },
        cookie is None ==> g != Gate::Pass,
        g != Gate::Pass ==> (g == Gate::Unauthorized <==> is_api_path(path@)),
{
    let authed = session_for(store, cookie).is_some();
    if authed {
        Gate::Pass
    } else if api_path(path) {
        Gate::Unauthorized
    } else {
        Gate::RedirectToLogin
    }
}

/// The fields of the login form.
#[derive(Debug)]
pub struct LoginForm {
    pub username: String,
    pub password: String,
}

/// The query of the login page: `error` is set after a failed login.
#[derive(Debug)]
pub struct LoginQuery {
    pub error: Option<String>,
}

/// The notice the login page shows: the failed-login message when the
/// query carries an error flag, whatever its value, else nothing.
pub fn login_error_notice(q: &LoginQuery) -> (html: &'static str)
    ensures
        q.error is Some ==> html@ == "<p class=\"err\">Invalid username or password.</p>"@,
        q.error is None ==> html@ == ""@,
{
    if q.error.is_some() {
        "<p class=\"err\">Invalid username or password.</p>"
    } else {
        ""
    }
}

/// The reply to a login form: where to redirect and which cookies to set.
#[derive(Debug)]
pub struct LoginReply {
    pub location: &'static str,
    pub set_cookies: Vec<CookieSpec>,
}

/// Answer a login attempt given the account the credentials resolved to:
/// on success, open a session and set the HttpOnly session cookie and the
/// readable CSRF cookie, then go to `/`; on failure, set nothing and go
/// back to the form with an error flag. When the OS random source cannot
/// supply the tokens, no session is opened and the reply is a `500`
/// carrying its error.
pub fn login(store: &mut SessionStore, user: Option<UserRecord>, cookie_secure: bool) -> (reply:
    Result<LoginReply, RpcError>)
    ensures
        reply matches Err(e) ==> user is Some && e.status == STATUS_INTERNAL && final(store)@
            == old(store)@,
        match user {
            None => final(store)@ == old(store)@ && (reply matches Ok(rep) && rep.location
                == "/login?error=1" && rep.set_cookies@.len() == 0),
            Some(u) => reply matches Ok(rep) ==> rep.location == "/" && rep.set_cookies@.len() == 2
                && ({
                let s = rep.set_cookies@[0];
                let c = rep.set_cookies@[1];
                &&& s.name == SESSION_COOKIE && s.http_only && s.secure == cookie_secure
                &&& exists|now: u128|
                    final(store)@ == old(store)@.insert(
                        s.value@,
                        SessionRecord {
                            user_id: u.id,
                            username: u.username@,
                            expires_at: expiry(now, old(store).ttl()),
                        },
                    )
                &&& c.name == CSRF_COOKIE && !c.http_only && c.secure == cookie_secure
                &&& c.value@.len() == 64
                &&& forall|i: int| 0 <= i < 64 ==> is_hex_lower(#[trigger] c.value@[i])
            }),
        },
{
    match user {
        Some(u) => {
            let csrf = match generate_token() {
                Ok(t) => t,
                Err(e) => return Err(RpcError::internal(e)),
            };
            let token = match store.create(u.id, u.username.as_str()) {
                Ok(t) => t,
                Err(e) => return Err(RpcError::internal(e)),
            };
            let mut cookies: Vec<CookieSpec> = Vec::new();
            cookies.push(session_cookie(token, cookie_secure));
            cookies.push(csrf_cookie(csrf, cookie_secure));
            Ok(LoginReply { location: "/", set_cookies: cookies })
        },
        None => Ok(LoginReply { location: "/login?error=1", set_cookies: Vec::new() }),
    }
}

/// Log out: forget the session named by the cookie (if any); the caller
/// clears the cookie and redirects to `/login`.
pub fn logout(store: &mut SessionStore, cookie: Option<&str>) -> (location: &'static str)
    ensures
        location == "/login",
        match cookie {
            None => final(store)@ == old(store)@,
            Some(t) => final(store)@ == old(store)@.remove(t@),
        },
{
    if let Some(t) = cookie {
        store.remove(t);
    }
    "/login"
}

/// The signed-in username, or `401 not authenticated` when the cookie is
/// missing or names no live session.
pub fn me(store: &mut SessionStore, cookie: Option<&str>) -> (r: Result<String, RpcError>)
    ensures
        match cookie {
            None => final(store)@ == old(store)@ && (r matches Err(e) && e.status
                == STATUS_UNAUTHORIZED && e.message@ == "not authenticated"@),
            Some(t) => exists|now: u128|
                final(store)@ == lookup(old(store)@, t@, now).1 && match lookup(
                    old(store)@,
                    t@,
                    now,
                ).0 {
                    Some(p) => r matches Ok(name) && name@ == p.1,
                    None => r matches Err(e) && e.status == STATUS_UNAUTHORIZED && e.message@
                        == "not authenticated"@,
                },
        },
{
    match session_for(store, cookie) {
        Some(s) => Ok(s.username),
        None => Err(RpcError { status: STATUS_UNAUTHORIZED, message: "not authenticated".to_owned() }),
    }
}

} // verus!
