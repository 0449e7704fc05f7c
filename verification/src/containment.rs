//! Vault containment: every path a request names is resolved (by the
//! caller, through the filesystem) and then accepted only when its
//! components start with those of the vault root.

use vstd::prelude::*;
use crate::paths::{
    components, contains_parent_dir, file_name, file_name_of, has_parent_dir, is_absolute,
    is_named, join, joined, keeps, parent, parent_of, path_starts_with, scan, segments,
    leads_with_cur_dir, starts_with,
};
use crate::rpc::{bad_request_text, RpcError, STATUS_BAD_REQUEST, STATUS_INTERNAL};
use crate::text_support::concat;

verus! {

/// No character of `s` is a separator.
pub open spec fn no_separator(s: Seq<char>) -> bool {
    forall|i: int| 0 <= i < s.len() ==> s[i] != '/'
}

/// Reading `c` after the scan state `st`.
pub open spec fn scan_step(st: (Seq<Seq<char>>, Seq<char>), c: char) -> (Seq<Seq<char>>, Seq<char>) {
    if c == '/' {
        (if keeps(st.1) {
            st.0.push(st.1)
        } else {
            st.0
        }, Seq::empty())
    } else {
        (st.0, st.1.push(c))
    }
}

proof fn lemma_scan_push(s: Seq<char>, c: char)
    ensures
        scan(s.push(c)) == scan_step(scan(s), c),
{
    assert(s.push(c).drop_last() =~= s);
}

/// Reading a separator-free `name` after a state whose current segment is
/// empty leaves `name` as the current segment.
proof fn lemma_scan_name(p: Seq<char>, name: Seq<char>)
    requires
        scan(p).1 == Seq::<char>::empty(),
        no_separator(name),
    ensures
        scan(p + name) == (scan(p).0, name),
    decreases name.len(),
{
    if name.len() == 0 {
        assert(p + name =~= p);
    } else {
        let init = name.drop_last();
        lemma_scan_name(p, init);
        assert(p + name =~= (p + init).push(name.last()));
        lemma_scan_push(p + init, name.last());
        assert(init.push(name.last()) =~= name);
    }
}

/// Every kept segment and the current segment of a scan are separator-free,
/// and kept segments are names or `..`.
proof fn lemma_scan_segments(s: Seq<char>)
    ensures
        no_separator(scan(s).1),
        forall|i: int|
            0 <= i < scan(s).0.len() ==> no_separator(#[trigger] scan(s).0[i]) && keeps(
                scan(s).0[i],
            ),
    decreases s.len(),
{
    if s.len() > 0 {
        lemma_scan_segments(s.drop_last());
        lemma_scan_push(s.drop_last(), s.last());
        assert(s.drop_last().push(s.last()) =~= s);
    }
}

/// The segments of any path are separator-free.
pub proof fn lemma_segments_separator_free(s: Seq<char>)
    ensures
        forall|i: int| 0 <= i < segments(s).len() ==> no_separator(#[trigger] segments(s)[i]),
{
    lemma_scan_segments(s);
}

/// The leading component kind is unchanged by appending to a non-empty path
/// whose appended part begins with a separator.
proof fn lemma_lead_kept(p: Seq<char>, t: Seq<char>)
    requires
        p.len() > 0,
        t.len() > 0,
        t[0] == '/',
    ensures
        is_absolute(p + t) == is_absolute(p),
        leads_with_cur_dir(p + t) == leads_with_cur_dir(p),
{
    assert((p + t)[0] == p[0]);
    if p.len() == 1 {
        assert((p + t)[1] == '/');
    } else {
        assert((p + t)[1] == p[1]);
    }
}

/// Joining an absolute directory with a file name adds exactly that name as
/// the last component.
pub proof fn lemma_join_name(dir: Seq<char>, name: Seq<char>)
    requires
        is_absolute(dir),
        no_separator(name),
        is_named(name),
        name.len() > 0,
    ensures
        components(joined(dir, name)) == components(dir).push(name),
{
    assert(keeps(name)) by {
        if name == seq!['.'] {
            assert(!is_named(name));
        }
    }
    assert(!is_absolute(name));
    if dir.last() != '/' {
        let d2 = dir.push('/');
        lemma_scan_push(dir, '/');
        assert(scan(d2).0 == segments(dir));
        lemma_scan_name(d2, name);
        assert(dir + seq!['/'] + name =~= d2 + name);
        assert(segments(joined(dir, name)) == segments(dir).push(name));
        assert(seq!['/'] + name =~= seq!['/'].add(name));
        lemma_lead_kept(dir, seq!['/'] + name);
        assert(joined(dir, name) == dir + (seq!['/'] + name));
    } else {
        let init = dir.drop_last();
        if init.len() == 0 {
            assert(dir =~= seq!['/']);
        }
        lemma_scan_push(init, '/');
        assert(init.push('/') =~= dir);
        assert(scan(dir).1 == Seq::<char>::empty());
        assert(scan(dir).0 == segments(dir));
        lemma_scan_name(dir, name);
        assert(segments(joined(dir, name)) == segments(dir).push(name));
        assert((dir + name)[0] == dir[0]);
    }
    if is_absolute(dir) {
        assert(is_absolute(joined(dir, name)));
        assert(seq![seq!['/']] + segments(dir).push(name) =~= (seq![seq!['/']] + segments(
            dir,
        )).push(name));
    }
}

/// A containment verdict on a path that the caller has canonicalised.
pub open spec fn inside(full: Seq<char>, root: Seq<char>) -> bool {
    path_starts_with(full, root)
}

/// Check an existing note path: `root` and `full` are the canonical forms
/// of the vault root and of the requested path (`Err`/`None` when
/// canonicalising failed).
pub fn contained_note_path(root: Result<String, String>, full: Option<String>) -> (r: Result<
    String,
    RpcError,
>)
    ensures
        match (root, full) {
            (Err(e), _) => r matches Err(x) && x.status == STATUS_INTERNAL && x.message@
                == "vault root error: "@ + e@,
            (Ok(_), None) => r matches Err(x) && x.status == STATUS_BAD_REQUEST && x.message@
                == "path does not exist or is invalid"@,
            (Ok(rt), Some(f)) => if inside(f@, rt@) {
                r matches Ok(p) && p@ == f@
            } else {
                r matches Err(x) && x.status == STATUS_BAD_REQUEST && x.message@
                    == "path is outside the vault"@
            },
        },
        r matches Ok(p) ==> (root matches Ok(rt) && inside(p@, rt@)),
{
    let rt = match root {
        Ok(rt) => rt,
        Err(e) => return Err(RpcError::internal(concat("vault root error: ", e.as_str()))),
    };
    let f = match full {
        Some(f) => f,
        None => return Err(bad_request_text("path does not exist or is invalid")),
    };
    if starts_with(f.as_str(), rt.as_str()) {
        Ok(f)
    } else {
        Err(bad_request_text("path is outside the vault"))
    }
}

/// Where a client-supplied file path for a git read points.
pub enum VaultFile {
    /// An absolute path: it must be shown to lie inside the vault (with
    /// `contained_note_path`), and is then used as given.
    CheckContainment,
    /// A relative path, resolved under the vault root.
    Resolved(String),
}

/// Resolve the file path of a git read: absolute paths need a containment
/// check, relative paths must not step up with `..` and are joined to the
/// vault root.
pub fn vault_file_path(vault_root: &str, file_path: &str) -> (r: Result<VaultFile, RpcError>)
    ensures
        is_absolute(file_path@) ==> r matches Ok(VaultFile::CheckContainment),
        !is_absolute(file_path@) && has_parent_dir(file_path@) ==> (r matches Err(x) && x.status
            == STATUS_BAD_REQUEST && x.message@ == "path is outside the vault"@),
        !is_absolute(file_path@) && !has_parent_dir(file_path@) ==> (r matches Ok(
            VaultFile::Resolved(p),
        ) && p@ == joined(vault_root@, file_path@)),
{
    let cs = crate::text_support::chars_of(file_path);
    if cs.len() > 0 && cs[0] == '/' {
        return Ok(VaultFile::CheckContainment);
    }
    if contains_parent_dir(file_path) {
        return Err(bad_request_text("path is outside the vault"));
    }
    Ok(VaultFile::Resolved(join(vault_root, file_path)))
}

/// May the asset route serve this file? Only a regular file whose canonical
/// path lies inside the canonical vault root.
pub fn asset_file(root: Option<String>, full: Option<String>, is_file: bool) -> (r: Option<String>)
    ensures
        match (root, full) {
            (Some(rt), Some(f)) => if inside(f@, rt@) && is_file {
                r matches Some(p) && p@ == f@
            } else {
                r is None
            },
            _ => r is None,
        },
{
    match (root, full) {
        (Some(rt), Some(f)) => if starts_with(f.as_str(), rt.as_str()) && is_file {
            Some(f)
        } else {
            None
        },
        _ => None,
    }
}

/// The folder a move targets, before canonicalisation: absolute paths as
/// given, relative ones under the vault root.
pub fn folder_candidate(vault_root: &str, folder: &str) -> (r: String)
    ensures
        r@ == if is_absolute(folder@) {
            folder@
        } else {
            joined(vault_root@, folder@)
        },
{
    let cs = crate::text_support::chars_of(folder);
    if cs.len() > 0 && cs[0] == '/' {
        folder.to_owned()
    } else {
        join(vault_root, folder)
    }
}

/// Check a move's destination folder: `candidate` and `root` are the
/// canonical forms of the folder and the vault root, `is_dir` whether the
/// canonical folder is a directory.
pub fn contained_existing_folder(
    candidate: Option<String>,
    root: Result<String, String>,
    is_dir: bool,
) -> (r: Result<String, RpcError>)
    ensures
        match (candidate, root) {
            (None, _) => r matches Err(x) && x.status == STATUS_BAD_REQUEST && x.message@
                == "destination folder does not exist"@,
            (Some(_), Err(e)) => r matches Err(x) && x.status == STATUS_INTERNAL && x.message@
                == e@,
            (Some(c), Ok(rt)) => if !inside(c@, rt@) {
                r matches Err(x) && x.status == STATUS_BAD_REQUEST && x.message@
                    == "destination folder is outside the vault"@
            } else if !is_dir {
                r matches Err(x) && x.status == STATUS_BAD_REQUEST && x.message@
                    == "destination is not a folder"@
            } else {
                r matches Ok(p) && p@ == c@
            },
        },
        r matches Ok(p) ==> (root matches Ok(rt) && inside(p@, rt@)),
{
    let c = match candidate {
        Some(c) => c,
        None => return Err(bad_request_text("destination folder does not exist")),
    };
    let rt = match root {
        Ok(rt) => rt,
        Err(e) => return Err(RpcError::internal(e)),
    };
    if !starts_with(c.as_str(), rt.as_str()) {
        return Err(bad_request_text("destination folder is outside the vault"));
    }
    if !is_dir {
        return Err(bad_request_text("destination is not a folder"));
    }
    Ok(c)
}

/// The directory to canonicalise for a write target: the requested path's
/// parent, or the path itself when it has none.
pub fn write_parent(requested: &str) -> (r: String)
    ensures
        r@ == match parent_of(requested@) {
            Some(p) => p,
            None => requested@,
        },
{
    match parent(requested) {
        Some(p) => p,
        None => requested.to_owned(),
    }
}

/// Check a write target that may not exist yet: `root` and `canon_parent`
/// are the canonical vault root and canonical parent directory; the result
/// is that parent joined with the requested file name.
pub fn contained_note_path_for_write(
    root: Result<String, String>,
    canon_parent: Option<String>,
    requested: &str,
) -> (r: Result<String, RpcError>)
    ensures
        match (root, canon_parent) {
            (Err(e), _) => r matches Err(x) && x.status == STATUS_INTERNAL && x.message@
                == "vault root error: "@ + e@,
            (Ok(_), None) => r matches Err(x) && x.status == STATUS_BAD_REQUEST && x.message@
                == "path parent is invalid"@,
            (Ok(rt), Some(cp)) => if !inside(cp@, rt@) {
                r matches Err(x) && x.status == STATUS_BAD_REQUEST && x.message@
                    == "path is outside the vault"@
            } else {
                match file_name(requested@) {
                    None => r matches Err(x) && x.status == STATUS_BAD_REQUEST && x.message@
                        == "invalid file name"@,
                    Some(n) => r matches Ok(p) && p@ == joined(cp@, n),
                }
            },
        },
{
    let rt = match root {
        Ok(rt) => rt,
        Err(e) => return Err(RpcError::internal(concat("vault root error: ", e.as_str()))),
    };
    let cp = match canon_parent {
        Some(cp) => cp,
        None => return Err(bad_request_text("path parent is invalid")),
    };
    if !starts_with(cp.as_str(), rt.as_str()) {
        return Err(bad_request_text("path is outside the vault"));
    }
    match file_name_of(requested) {
        None => Err(bad_request_text("invalid file name")),
        Some(n) => Ok(join(cp.as_str(), n.as_str())),
    }
}

/// A write target accepted for an absolute canonical vault root and
/// canonical parent lies inside the vault: the file name adds one component
/// below a directory that is already inside.
pub proof fn write_target_stays_inside(
    root: Seq<char>,
    canon_parent: Seq<char>,
    requested: Seq<char>,
)
    requires
        is_absolute(canon_parent),
        inside(canon_parent, root),
        file_name(requested) is Some,
    ensures
        inside(joined(canon_parent, file_name(requested)->0), root),
{
    let n = file_name(requested)->0;
    let c = components(requested);
    lemma_segments_separator_free(requested);
    let seg = segments(requested);
    assert(c.last() == n);
    // The last component is a name, so it is one of the named segments.
    if is_absolute(requested) {
        assert(c == seq![seq!['/']] + seg);
    } else if leads_with_cur_dir(requested) {
        assert(c == seq![seq!['.']] + seg);
    } else {
        assert(c == seg);
    }
    assert(seg.len() > 0);
    assert(n == seg[seg.len() - 1]);
    assert(no_separator(n));
    lemma_scan_segments(requested);
    assert(n.len() > 0) by {
        let (done, cur) = scan(requested);
        if keeps(cur) {
            assert(seg == done.push(cur));
        } else {
            assert(seg == done);
        }
    }
    lemma_join_name(canon_parent, n);
    let jc = components(joined(canon_parent, n));
    let pc = components(canon_parent);
    let rc = components(root);
    assert(jc.subrange(0, rc.len() as int) =~= pc.subrange(0, rc.len() as int));
}

} // verus!
