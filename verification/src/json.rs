//! The JSON argument object of an RPC call, as the plain values command
//! routing reads, and the casing-tolerant argument extractors.
//!
//! The web client and the desktop client send the same logical argument
//! under different keys (camelCase or snake_case), so string arguments are
//! looked up under the camelCase key first and the snake_case key second.

use vstd::prelude::*;
use crate::rpc::{RpcError, STATUS_BAD_REQUEST};
use crate::paths::chars_eq;
use crate::text_support::{chars_of, concat};

verus! {

/// A JSON number: what the routing reads of it is whether it is a
/// non-negative integer.
#[derive(Debug)]
pub enum JsonNumber {
    Unsigned(u64),
    Negative(i64),
    /// A number with a fractional part or exponent; its value is never read.
    Fractional,
}

/// A JSON value.
#[derive(Debug)]
pub enum Json {
    Null,
    Bool(bool),
    Number(JsonNumber),
    Text(String),
    Array(Vec<Json>),
    Object(Vec<(String, Json)>),
}

/// The value under `key` among `entries` (the first entry with that key).
pub open spec fn find_key(entries: Seq<(String, Json)>, key: Seq<char>) -> Option<Json>
    decreases entries.len(),
{
    if entries.len() == 0 {
        None
    } else if entries[0].0@ == key {
        Some(entries[0].1)
    } else {
        find_key(entries.drop_first(), key)
    }
}

/// `Value::get` with a string key: the member of an object, or nothing.
pub open spec fn json_get(j: Json, key: Seq<char>) -> Option<Json> {
    match j {
        Json::Object(entries) => find_key(entries@, key),
        _ => None,
    }
}

/// The member under `camel`, else the one under `snake`.
pub open spec fn either_key(j: Json, camel: Seq<char>, snake: Seq<char>) -> Option<Json> {
    match json_get(j, camel) {
        Some(v) => Some(v),
        None => json_get(j, snake),
    }
}

/// The message for a missing string argument.
pub open spec fn missing_arg_message(camel: Seq<char>, snake: Seq<char>) -> Seq<char> {
    "missing string arg '"@ + camel + "'/'"@ + snake + "'"@
}

/// The string argument under `camel` (else `snake`), or the `400` naming
/// both keys. A member that is present but not a string counts as missing.
pub open spec fn string_arg(j: Json, camel: Seq<char>, snake: Seq<char>) -> Result<Seq<char>, Seq<char>> {
    match either_key(j, camel, snake) {
        Some(Json::Text(s)) => Ok(s@),
        _ => Err(missing_arg_message(camel, snake)),
    }
}

/// An error result as plain values.
pub open spec fn err_view<T>(r: Result<T, RpcError>) -> Result<T, (u16, Seq<char>)> {
    match r {
        Ok(v) => Ok(v),
        Err(e) => Err((e.status, e.message@)),
    }
}

/// A string result as plain values; errors are `400`s.
pub open spec fn arg_result(r: Result<String, RpcError>) -> Result<Seq<char>, Seq<char>> {
    match r {
        Ok(s) => Ok(s@),
        Err(e) => Err(e.message@),
    }
}

impl Json {
    /// `Value::get`: the member under `key` when this is an object.
    pub fn get(&self, key: &str) -> (r: Option<&Json>)
        ensures
            match r {
                Some(v) => json_get(*self, key@) == Some(*v),
                None => json_get(*self, key@) is None,
            },
    {
        match self {
            Json::Object(entries) => {
                let k = chars_of(key);
                let mut i: usize = 0;
                proof {
                    assert(*self == Json::Object(*entries));
                    assert(entries@.subrange(0, entries@.len() as int) =~= entries@);
                }
                while i < entries.len()
                    invariant
                        *self == Json::Object(*entries),
                        k@ == key@,
                        i <= entries@.len(),
                        find_key(entries@, key@) == find_key(entries@.subrange(i as int, entries@.len() as int), key@),
                    decreases entries@.len() - i,
                {
                    let ghost rest = entries@.subrange(i as int, entries@.len() as int);
                    proof {
                        assert(rest.drop_first() =~= entries@.subrange(i + 1, entries@.len() as int));
                        assert(rest[0] == entries@[i as int]);
                    }
                    let name = chars_of(entries[i].0.as_str());
                    if chars_eq(name.as_slice(), k.as_slice()) {
                        proof {
                            assert(rest[0].0@ == key@);
                            assert(find_key(rest, key@) == Some(rest[0].1));
                            assert(json_get(*self, key@) == find_key(entries@, key@));
                        }
                        return Some(&entries[i].1);
                    }
                    i = i + 1;
                }
                None
            },
            _ => None,
        }
    }
}

/// Read a required string argument under a camelCase or a snake_case key.
pub fn str_arg(args: &Json, camel: &str, snake: &str) -> (r: Result<String, RpcError>)
    ensures
        arg_result(r) == string_arg(*args, camel@, snake@),
        r matches Err(e) ==> e.status == STATUS_BAD_REQUEST,
{
    let found = match args.get(camel) {
        Some(v) => Some(v),
        None => args.get(snake),
    };
    match found {
        Some(Json::Text(s)) => Ok(s.clone()),
        _ => {
            let mut m = concat("missing string arg '", camel);
            m.append("'/'");
            m.append(snake);
            m.append("'");
            Err(RpcError::bad_request(m))
        },
    }
}

/// A numeric argument under `key`, or `default` when absent or not a
/// non-negative integer.
pub open spec fn u64_arg(j: Json, key: Seq<char>, default: u64) -> u64 {
    match json_get(j, key) {
        Some(Json::Number(JsonNumber::Unsigned(n))) => n,
        _ => default,
    }
}

/// Read a numeric argument with a default.
pub fn arg_u64(args: &Json, key: &str, default: u64) -> (r: u64)
    ensures
        r == u64_arg(*args, key@, default),
{
    match args.get(key) {
        Some(Json::Number(JsonNumber::Unsigned(n))) => *n,
        _ => default,
    }
}

/// The file-path argument of a git read: `path` (or `file_path`), else
/// `filePath` (or `file_path`).
pub open spec fn file_path_argument(j: Json) -> Result<Seq<char>, Seq<char>> {
    match string_arg(j, "path"@, "file_path"@) {
        Ok(s) => Ok(s),
        Err(_) => string_arg(j, "filePath"@, "file_path"@),
    }
}

/// Read the file-path argument of a git read.
pub fn file_path_arg(args: &Json) -> (r: Result<String, RpcError>)
    ensures
        arg_result(r) == file_path_argument(*args),
        r matches Err(e) ==> e.status == STATUS_BAD_REQUEST,
{
    match str_arg(args, "path", "file_path") {
        Ok(s) => Ok(s),
        Err(_) => str_arg(args, "filePath", "file_path"),
    }
}

} // verus!
