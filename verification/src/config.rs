//! Runtime configuration, from the values of the server's environment
//! variables (the caller reads the environment).

use vstd::prelude::*;
use crate::paths::chars_eq;
use crate::listen::{listen_address_ok, listen_address_valid};
use crate::text_support::{chars_of, concat3};

verus! {

/// Runtime configuration, from the server's environment variables. The
/// listen address is still `host:port` text; the transport parses it into
/// a socket address.
#[derive(Debug)]
pub struct ServerConfig {
    pub vault_path: String,
    pub static_dir: String,
    pub listen_addr: String,
    pub users_db_path: String,
    pub cookie_secure: bool,
}

/// A boolean setting is on unless it is exactly `false` or `0`.
pub open spec fn flag_on(value: Option<Seq<char>>) -> bool {
    match value {
        Some(v) => v != "false"@ && v != "0"@,
        None => true,
    }
}

/// The value of a setting, or `default` when it is unset.
pub open spec fn or_default(value: Option<Seq<char>>, default: Seq<char>) -> Seq<char> {
    match value {
        Some(v) => v,
        None => default,
    }
}

/// A text option as plain values.
pub open spec fn opt_view(v: Option<String>) -> Option<Seq<char>> {
    match v {
        Some(s) => Some(s@),
        None => None,
    }
}

/// Is a boolean setting on (anything but `false` or `0`, and unset)?
pub fn flag_enabled(value: Option<&str>) -> (on: bool)
    ensures
        on == flag_on(
            match value {
                Some(v) => Some(v@),
                None => None,
            },
        ),
{
    match value {
        None => true,
        Some(v) => {
            let c = chars_of(v);
            let f = chars_of("false");
            let z = chars_of("0");
            !chars_eq(c.as_slice(), f.as_slice()) && !chars_eq(c.as_slice(), z.as_slice())
        },
    }
}

fn or_else(value: Option<String>, default: &str) -> (r: String)
    ensures
        r@ == or_default(opt_view(value), default@),
{
    match value {
        Some(v) => v,
        None => default.to_owned(),
    }
}

impl ServerConfig {
/// Build the configuration from what looking up `TOLARIA_VAULT_PATH`
/// (required), `TOLARIA_STATIC_DIR`, `TOLARIA_HOST`, `TOLARIA_PORT`,
/// `TOLARIA_USERS_DB` and `TOLARIA_COOKIE_SECURE` gave. A host and port
/// that cannot form a socket address are refused; a bracketed IPv6 host is
/// read by the transport's socket-address parser.
pub fn from_lookup(
    vault_path: Option<String>,
    static_dir: Option<String>,
    host: Option<String>,
    port: Option<String>,
    users_db: Option<String>,
    cookie_secure: Option<String>,
) -> (r: Result<ServerConfig, String>)
    ensures
        vault_path is None ==> (r matches Err(m) && m@ == "TOLARIA_VAULT_PATH is required"@),
        vault_path is Some && !listen_address_ok(
            or_default(opt_view(host), "0.0.0.0"@),
            or_default(opt_view(port), "8787"@),
        ) ==> (r matches Err(m) && m@ == "invalid listen address "@ + or_default(
            opt_view(host),
            "0.0.0.0"@,
        ) + ":"@ + or_default(opt_view(port), "8787"@) + ": invalid socket address syntax"@),
        listen_address_ok(
            or_default(opt_view(host), "0.0.0.0"@),
            or_default(opt_view(port), "8787"@),
        ) ==> (vault_path matches Some(v) ==> (r matches Ok(s) && s.vault_path@ == v@ && s.static_dir@
            == or_default(opt_view(static_dir), "/app/dist"@) && s.listen_addr@ == or_default(
            opt_view(host),
            "0.0.0.0"@,
        ) + ":"@ + or_default(opt_view(port), "8787"@) && s.users_db_path@ == or_default(
            opt_view(users_db),
            "/app/data/users.db"@,
        ) && s.cookie_secure == flag_on(opt_view(cookie_secure)))),
{
    let vault_path = match vault_path {
        Some(v) => v,
        None => return Err("TOLARIA_VAULT_PATH is required".to_owned()),
    };
    let static_dir = or_else(static_dir, "/app/dist");
    let host = or_else(host, "0.0.0.0");
    let port = or_else(port, "8787");
    let listen_addr = concat3(host.as_str(), ":", port.as_str());
    if !listen_address_valid(host.as_str(), port.as_str()) {
        return Err(concat3("invalid listen address ", listen_addr.as_str(), ": invalid socket address syntax"));
    }
    let users_db_path = or_else(users_db, "/app/data/users.db");
    let secure = match &cookie_secure {
        Some(v) => flag_enabled(Some(v.as_str())),
        None => flag_enabled(None),
    };
    Ok(ServerConfig { vault_path, static_dir, listen_addr, users_db_path, cookie_secure: secure })
}
}

/// The fixed git committer identity for server-authored commits, from
/// `TOLARIA_COMMITTER_NAME` / `TOLARIA_COMMITTER_EMAIL` with defaults.
pub fn committer_identity(name: Option<String>, email: Option<String>) -> (r: (String, String))
    ensures
        r.0@ == or_default(opt_view(name), "Tolaria Server"@),
        r.1@ == or_default(opt_view(email), "server@tolaria.local"@),
{
    (or_else(name, "Tolaria Server"), or_else(email, "server@tolaria.local"))
}

/// Whether each write is auto-committed (`TOLARIA_AUTOGIT`, default on).
pub fn autogit_enabled(value: Option<&str>) -> (on: bool)
    ensures
        on == flag_on(
            match value {
                Some(v) => Some(v@),
                None => None,
            },
        ),
{
    flag_enabled(value)
}

/// Server-wide settings that do not vary per request: cookie transport
/// security, the fixed committer identity of server-made commits, and
/// whether writes are auto-committed.
#[derive(Debug, Clone)]
pub struct AppStateConfig {
    pub cookie_secure: bool,
    pub committer_name: String,
    pub committer_email: String,
    pub autogit: bool,
}

} // verus!
