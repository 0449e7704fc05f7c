//! `GET /api/asset/*path`: the vault image a request names, and the
//! headers an image is served with.

use vstd::prelude::*;
use crate::paths::content_type_of;
use crate::text_support::{chars_of, string_of};

verus! {

/// Scripts in an SVG opened directly (not through `<img>`) must not run with
/// the app's origin, so SVGs are served under a no-script sandbox policy.
pub const SVG_POLICY: &'static str = "default-src 'none'; style-src 'unsafe-inline'; sandbox";

/// `s` without its leading `/` characters.
pub open spec fn without_leading_slashes(s: Seq<char>) -> Seq<char>
    decreases s.len(),
{
    if s.len() > 0 && s[0] == '/' {
        without_leading_slashes(s.drop_first())
    } else {
        s
    }
}

/// The absolute path an asset request names: the route's tail with one
/// leading `/`, however many it arrived with.
pub open spec fn asset_path_of(tail: Seq<char>) -> Seq<char> {
    seq!['/'] + without_leading_slashes(tail)
}

/// The absolute file path an asset request names.
pub fn asset_request_path(tail: &str) -> (r: String)
    ensures
        r@ == asset_path_of(tail@),
{
    let cs = chars_of(tail);
    let mut i: usize = 0;
    proof {
        assert(cs@.subrange(0, cs@.len() as int) =~= cs@);
    }
    while i < cs.len() && cs[i] == '/'
        invariant
            cs@ == tail@,
            i <= cs@.len(),
            without_leading_slashes(tail@) == without_leading_slashes(cs@.subrange(
                i as int,
                cs@.len() as int,
            )),
        decreases cs@.len() - i,
    {
        proof {
            let rest = cs@.subrange(i as int, cs@.len() as int);
            assert(rest.drop_first() =~= cs@.subrange(i + 1, cs@.len() as int));
        }
        i = i + 1;
    }
    let mut out: Vec<char> = Vec::new();
    out.push('/');
    let mut j: usize = i;
    while j < cs.len()
        invariant
            cs@ == tail@,
            i <= j <= cs@.len(),
            out@ == seq!['/'] + cs@.subrange(i as int, j as int),
        decreases cs@.len() - j,
    {
        out.push(cs[j]);
        proof {
            assert(cs@.subrange(i as int, j + 1) =~= cs@.subrange(i as int, j as int).push(
                cs@[j as int],
            ));
        }
        j = j + 1;
    }
    proof {
        let rest = cs@.subrange(i as int, cs@.len() as int);
        if i < cs@.len() {
            assert(rest[0] == cs@[i as int]);
        }
        assert(without_leading_slashes(rest) == rest);
    }
    string_of(out.as_slice())
}

/// The headers an image is served with: its content type, no sniffing, no
/// shared caching, and for SVG the sandbox policy.
pub open spec fn image_headers(content_type: Seq<char>) -> Seq<(Seq<char>, Seq<char>)> {
    let base = seq![
        ("content-type"@, content_type),
        ("x-content-type-options"@, "nosniff"@),
        ("cache-control"@, "private, no-cache"@),
    ];
    if content_type == "image/svg+xml"@ {
        base.push(("content-security-policy"@, SVG_POLICY@))
    } else {
        base
    }
}

/// The headers of an asset response, for a path whose extension names an
/// image type; `None` (a plain `404`) for any other path.
pub fn asset_headers(path: &str) -> (r: Option<Vec<(&'static str, &'static str)>>)
    ensures
        match content_type_of(path@) {
            None => r is None,
            Some(ct) => r matches Some(h) && h@.len() == image_headers(ct).len() && forall|i: int|
                0 <= i < h@.len() ==> (#[trigger] h@[i]).0@ == image_headers(ct)[i].0 && h@[i].1@
                    == image_headers(ct)[i].1,
        },
{
    let ct = match crate::paths::image_content_type(path) {
        Some(ct) => ct,
        None => return None,
    };
    let mut h: Vec<(&'static str, &'static str)> = Vec::new();
    h.push(("content-type", ct));
    h.push(("x-content-type-options", "nosniff"));
    h.push(("cache-control", "private, no-cache"));
    let is_svg = crate::writes::same_text(ct, "image/svg+xml");
    if is_svg {
        h.push(("content-security-policy", SVG_POLICY));
    }
    proof {
        let hs = image_headers(ct@);
        assert(h@.len() == hs.len());
        assert forall|i: int| 0 <= i < h@.len() implies (#[trigger] h@[i]).0@ == hs[i].0 && h@[i].1@
            == hs[i].1 by {}
    }
    Some(h)
}

} // verus!
