//! Replies of the read-only commands that the server answers from its own
//! configuration: the one-vault registry, the vault-availability check,
//! the all-content map and the search options.

use vstd::prelude::*;
use crate::commit::CommitIdentity;
use crate::json::Json;
use crate::rpc::{RpcError, STATUS_FORBIDDEN, STATUS_UNAUTHORIZED};
use crate::writes::text_object;
use crate::paths::{chars_eq, components, components_of, file_name, file_name_of, seg_views};

verus! {

/// The label of the served vault: its directory name, or its whole path
/// when it has none.
pub open spec fn vault_label(root: Seq<char>) -> Seq<char> {
    match file_name(root) {
        Some(n) => n,
        None => root,
    }
}

/// The label shown for the served vault.
pub fn vault_label_of(vault_root: &str) -> (r: String)
    ensures
        r@ == vault_label(vault_root@),
{
    match file_name_of(vault_root) {
        Some(n) => n,
        None => vault_root.to_owned(),
    }
}

fn text(s: String) -> (j: Json)
    ensures
        j matches Json::Text(t) && t@ == s@,
{
    Json::Text(s)
}

/// The one-vault registry: `{"vaults": [{"label": .., "path": ..}],
/// "active_vault": .., "hidden_defaults": []}`. The server serves exactly
/// one vault, so the client builds every note path under it.
pub fn vault_list_reply(vault_root: &str) -> (j: Json)
    ensures
        j matches Json::Object(m) && m@.len() == 3 && m@[0].0@ == "vaults"@ && (m@[0].1 matches Json::Array(
            vs,
        ) && vs@.len() == 1 && (vs@[0] matches Json::Object(e) && e@.len() == 2 && e@[0].0@
            == "label"@ && (e@[0].1 matches Json::Text(l) && l@ == vault_label(vault_root@))
            && e@[1].0@ == "path"@ && (e@[1].1 matches Json::Text(p) && p@ == vault_root@)))
            && m@[1].0@ == "active_vault"@ && (m@[1].1 matches Json::Text(a) && a@ == vault_root@)
            && m@[2].0@ == "hidden_defaults"@ && (m@[2].1 matches Json::Array(h) && h@.len() == 0),
{
    let entry = Json::Object(
        vec![
            ("label".to_owned(), text(vault_label_of(vault_root))),
            ("path".to_owned(), text(vault_root.to_owned())),
        ],
    );
    Json::Object(
        vec![
            ("vaults".to_owned(), Json::Array(vec![entry])),
            ("active_vault".to_owned(), text(vault_root.to_owned())),
            ("hidden_defaults".to_owned(), Json::Array(Vec::new())),
        ],
    )
}

/// A requested path is the served vault when both canonicalise and the
/// canonical paths have the same components.
pub open spec fn is_served_vault(requested: Option<Seq<char>>, root: Option<Seq<char>>) -> bool {
    &&& requested is Some
    &&& root is Some
    &&& components(requested->0) == components(root->0)
}

/// Is the requested path the served vault? `requested` and `root` are the
/// canonical forms (`None` when canonicalising failed).
pub fn same_vault(requested: Option<String>, root: Option<String>) -> (r: bool)
    ensures
        r == is_served_vault(
            match requested {
                Some(s) => Some(s@),
                None => None,
            },
            match root {
                Some(s) => Some(s@),
                None => None,
            },
        ),
{
    let (a, b) = match (requested, root) {
        (Some(a), Some(b)) => (a, b),
        _ => return false,
    };
    let ca = components_of(a.as_str());
    let cb = components_of(b.as_str());
    if ca.len() != cb.len() {
        proof {
            assert(seg_views(ca@).len() == ca@.len());
            assert(seg_views(cb@).len() == cb@.len());
        }
        return false;
    }
    let mut i: usize = 0;
    while i < ca.len()
        invariant
            requested matches Some(x) && x@ == a@,
            root matches Some(y) && y@ == b@,
            seg_views(ca@) == components(a@),
            seg_views(cb@) == components(b@),
            ca@.len() == cb@.len(),
            i <= ca@.len(),
            forall|k: int| 0 <= k < i ==> seg_views(ca@)[k] == seg_views(cb@)[k],
        decreases ca@.len() - i,
    {
        if !chars_eq(ca[i].as_slice(), cb[i].as_slice()) {
            proof {
                assert(seg_views(ca@)[i as int] == ca@[i as int]@);
                assert(seg_views(cb@)[i as int] == cb@[i as int]@);
                assert(components(a@)[i as int] != components(b@)[i as int]);
            }
            return false;
        }
        i = i + 1;
    }
    proof {
        assert(seg_views(ca@) =~= seg_views(cb@));
    }
    true
}

/// The entries whose content could be read, as (path, content) pairs.
pub open spec fn readable(entries: Seq<(String, Option<String>)>) -> Seq<(Seq<char>, Seq<char>)>
    decreases entries.len(),
{
    if entries.len() == 0 {
        Seq::empty()
    } else {
        let rest = readable(entries.drop_last());
        match entries.last().1 {
            Some(c) => rest.push((entries.last().0@, c@)),
            None => rest,
        }
    }
}

/// An object whose members are exactly `pairs`, each value a string.
pub open spec fn text_members(j: Json, pairs: Seq<(Seq<char>, Seq<char>)>) -> bool {
    &&& j matches Json::Object(m)
    &&& m@.len() == pairs.len()
    &&& forall|i: int|
        0 <= i < pairs.len() ==> (#[trigger] m@[i]).0@ == pairs[i].0 && (m@[i].1 matches Json::Text(
            t,
        ) && t@ == pairs[i].1)
}

/// `get_all_content`: every note whose content could be read, keyed by its
/// path; unreadable notes are left out.
pub fn all_content_reply(entries: Vec<(String, Option<String>)>) -> (j: Json)
    ensures
        text_members(j, readable(entries@)),
{
    let ghost all = entries@;
    let mut out: Vec<(String, Json)> = Vec::new();
    let mut i: usize = 0;
    while i < entries.len()
        invariant
            all == entries@,
            i <= all.len(),
            out@.len() == readable(all.subrange(0, i as int)).len(),
            forall|k: int|
                0 <= k < out@.len() ==> (#[trigger] out@[k]).0@ == readable(
                    all.subrange(0, i as int),
                )[k].0 && (out@[k].1 matches Json::Text(t) && t@ == readable(
                    all.subrange(0, i as int),
                )[k].1),
        decreases all.len() - i,
    {
        let ghost prev = all.subrange(0, i as int);
        let ghost next = all.subrange(0, i + 1);
        proof {
            assert(next.drop_last() =~= prev);
            assert(next.last() == all[i as int]);
        }
        match &entries[i].1 {
            Some(c) => {
                out.push((entries[i].0.clone(), Json::Text(c.clone())));
            },
            None => {},
        }
        i = i + 1;
    }
    proof {
        assert(all.subrange(0, all.len() as int) =~= all);
    }
    Json::Object(out)
}

/// The options of a vault search: a keyword search over the visible notes,
/// at most `limit` hits (20 unless given), frontmatter included unless
/// excluded.
pub struct SearchRequest {
    pub query: String,
    pub mode: String,
    pub limit: usize,
    pub hide_gitignored_files: bool,
    pub exclude_frontmatter: bool,
}

/// Build the search options from the decoded arguments.
pub fn search_request(query: String, limit: Option<usize>, exclude_frontmatter: Option<bool>) -> (r:
    SearchRequest)
    ensures
        r.query@ == query@,
        r.mode@ == "keyword"@,
        r.limit == match limit {
            Some(n) => n,
            None => 20,
        },
        r.hide_gitignored_files,
        r.exclude_frontmatter == match exclude_frontmatter {
            Some(b) => b,
            None => false,
        },
{
    SearchRequest {
        query,
        mode: "keyword".to_owned(),
        limit: match limit {
            Some(n) => n,
            None => 20,
        },
        hide_gitignored_files: true,
        exclude_frontmatter: match exclude_frontmatter {
            Some(b) => b,
            None => false,
        },
    }
}

/// The body of a failed command: `{"error": message}`, sent with the
/// error's status.
pub fn error_reply(e: &RpcError) -> (r: (u16, Json))
    ensures
        r.0 == e.status,
        text_object(r.1, "error"@, e.message@),
{
    (e.status, Json::Object(vec![("error".to_owned(), text(e.message.clone()))]))
}

/// The `403` for a command whose CSRF cookie and header do not match.
pub fn csrf_refused() -> (e: RpcError)
    ensures
        e.status == STATUS_FORBIDDEN,
        e.message@ == "csrf"@,
{
    RpcError { status: STATUS_FORBIDDEN, message: "csrf".to_owned() }
}

/// The `401` for a request that needs a signed-in user and has none.
pub fn not_authenticated() -> (e: RpcError)
    ensures
        e.status == STATUS_UNAUTHORIZED,
        e.message@ == "not authenticated"@,
{
    RpcError { status: STATUS_UNAUTHORIZED, message: "not authenticated".to_owned() }
}

/// `git_author_identity`: the signed-in user's commit author,
/// `{"name": .., "email": .., "source": "web-session", "warning": null}`,
/// or `401` without a signed-in user.
pub fn author_identity_reply(identity: Option<&CommitIdentity>) -> (r: Result<Json, RpcError>)
    ensures
        identity is None ==> (r matches Err(e) && e.status == STATUS_UNAUTHORIZED && e.message@
            == "not authenticated"@),
        identity matches Some(id) ==> (r matches Ok(Json::Object(m)) && m@.len() == 4 && m@[0].0@
            == "name"@ && (m@[0].1 matches Json::Text(n) && n@ == id.author_name@) && m@[1].0@
            == "email"@ && (m@[1].1 matches Json::Text(a) && a@ == id.author_email@) && m@[2].0@
            == "source"@ && (m@[2].1 matches Json::Text(src) && src@ == "web-session"@) && m@[3].0@
            == "warning"@ && m@[3].1 is Null),
{
    match identity {
        None => Err(not_authenticated()),
        Some(id) => Ok(
            Json::Object(
                vec![
                    ("name".to_owned(), text(id.author_name.clone())),
                    ("email".to_owned(), text(id.author_email.clone())),
                    ("source".to_owned(), text("web-session".to_owned())),
                    ("warning".to_owned(), Json::Null),
                ],
            ),
        ),
    }
}

} // verus!
