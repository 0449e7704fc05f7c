//! The write path: optimistic concurrency on saves, the replies of the
//! write commands, the arguments of the folder and view commands, and the
//! autogit commit that follows each write.

use vstd::prelude::*;
use crate::commit::CommitIdentity;
use crate::hex::{content_version, version_of};
use crate::json::{str_arg, string_arg, Json};
use crate::paths::{chars_eq, file_label, file_name, file_name_of, rel_path, stripped};
use crate::rpc::{
    bad_request_text, conflict_body, conflict_error, RpcError, STATUS_BAD_REQUEST,
    STATUS_CONFLICT, STATUS_INTERNAL,
};
use crate::text_support::{chars_of, concat, concat3};

verus! {

/// The `400` for arguments the JSON decoder refused, carrying its message.
pub fn bad_arguments(detail: &str) -> (e: RpcError)
    ensures
        e.status == STATUS_BAD_REQUEST,
        e.message@ == "bad arguments: "@ + detail@,
{
    RpcError::bad_request(concat("bad arguments: ", detail))
}

/// Two strings hold the same characters.
pub fn same_text(a: &str, b: &str) -> (r: bool)
    ensures
        r == (a@ == b@),
{
    chars_eq(chars_of(a).as_slice(), chars_of(b).as_slice())
}

/// A client's base hash is stale when the on-disk content has another
/// version.
pub open spec fn stale(current: Seq<char>, base: Seq<char>) -> bool {
    version_of(current) != base
}

/// Is the client's edit based on stale content? `current` is what reading
/// the target gave: `None` when no file exists there, else the read's
/// outcome. Returns the current content when the base hash no longer
/// matches it.
pub fn stale_conflict(current: Option<Result<String, String>>, base: &str) -> (r: Result<
    Option<String>,
    RpcError,
>)
    ensures
        match current {
            None => r matches Ok(None),
            Some(Err(e)) => r matches Err(x) && x.status == STATUS_INTERNAL && x.message@ == e@,
            Some(Ok(c)) => if stale(c@, base@) {
                r matches Ok(Some(s)) && s@ == c@
            } else {
                r matches Ok(None)
            },
        },
{
    match current {
        None => Ok(None),
        Some(Err(e)) => Err(RpcError::internal(e)),
        Some(Ok(c)) => {
            let v = content_version(c.as_str());
            if same_text(v.as_str(), base) {
                Ok(None)
            } else {
                Ok(Some(c))
            }
        },
    }
}

/// A save goes ahead unless it carries a base hash and the target exists
/// with content of another version.
pub open spec fn save_refused(base_hash: Option<Seq<char>>, current: Option<Seq<char>>) -> bool {
    &&& base_hash is Some
    &&& current is Some
    &&& stale(current->0, base_hash->0)
}

/// The optimistic-concurrency gate of a save. Without a base hash nothing
/// is read and the save goes ahead; with one, a stale base is answered
/// with a `409` that carries the current content.
pub fn check_base_hash(base_hash: Option<&str>, current: Option<Result<String, String>>) -> (r:
    Result<(), RpcError>)
    ensures
        base_hash is None ==> r is Ok,
        base_hash matches Some(b) ==> match current {
            None => r is Ok,
            Some(Err(e)) => r matches Err(x) && x.status == STATUS_INTERNAL && x.message@ == e@,
            Some(Ok(c)) => if stale(c@, b@) {
                r matches Err(x) && x.status == STATUS_CONFLICT && x.message@ == conflict_body(c@)
            } else {
                r is Ok
            },
        },
{
    match base_hash {
        None => Ok(()),
        Some(b) => match stale_conflict(current, b) {
            Err(e) => Err(e),
            Ok(None) => Ok(()),
            Ok(Some(c)) => Err(conflict_error(c.as_str())),
        },
    }
}

/// The version a save replies with, sent back as the base hash of the next
/// save of the same file, is accepted as long as nobody changed the file in
/// between.
pub proof fn saved_version_is_fresh(content: Seq<char>)
    ensures
        !stale(content, version_of(content)),
        !save_refused(Some(version_of(content)), Some(content)),
{
}

/// A save with no file at its target is never refused, whatever base hash
/// it carries: creating a note by its first save cannot conflict.
pub proof fn first_save_never_conflicts(base_hash: Option<Seq<char>>)
    ensures
        !save_refused(base_hash, None),
{
}

/// `{key: "text"}`.
pub open spec fn text_object(j: Json, key: Seq<char>, text: Seq<char>) -> bool {
    &&& j matches Json::Object(m)
    &&& m@.len() == 1
    &&& m@[0].0@ == key
    &&& m@[0].1 matches Json::Text(t) && t@ == text
}

fn member(key: &str, value: String) -> (m: (String, Json))
    ensures
        m.0@ == key@,
        m.1 matches Json::Text(t) && t@ == value@,
{
    (key.to_owned(), Json::Text(value))
}

/// The reply to a save: `{"version": <version of the saved content>}`.
pub fn save_reply(content: &str) -> (j: Json)
    ensures
        text_object(j, "version"@, version_of(content@)),
{
    Json::Object(vec![member("version", content_version(content))])
}

/// The reply to a create: `{"path": <the note's path>, "version": <version
/// of its initial content>}`.
pub fn create_reply(path: &str, content: &str) -> (j: Json)
    ensures
        j matches Json::Object(m) && m@.len() == 2 && m@[0].0@ == "path"@ && (m@[0].1 matches Json::Text(
            p,
        ) && p@ == path@) && m@[1].0@ == "version"@ && (m@[1].1 matches Json::Text(v) && v@
            == version_of(content@)),
{
    Json::Object(vec![member("path", path.to_owned()), member("version", content_version(content))])
}

/// The reply to a commit: `{"hash": <the new commit's hash>}`.
pub fn hash_reply(hash: String) -> (j: Json)
    ensures
        text_object(j, "hash"@, hash@),
{
    Json::Object(vec![member("hash", hash)])
}

/// The folder a create names: `parent/name` under a non-empty parent, else
/// `name`.
pub open spec fn folder_path_of(name: Seq<char>, parent: Result<Seq<char>, Seq<char>>) -> Seq<char> {
    match parent {
        Ok(p) => if p.len() > 0 {
            p + "/"@ + name
        } else {
            name
        },
        Err(_) => name,
    }
}

/// The vault-relative folder `create_vault_folder` creates, from
/// `folderName` and the optional `parentPath`.
pub fn create_folder_path(args: &Json) -> (r: Result<String, RpcError>)
    ensures
        match string_arg(*args, "folderName"@, "folder_name"@) {
            Err(m) => r matches Err(x) && x.status == STATUS_BAD_REQUEST && x.message@ == m,
            Ok(name) => r matches Ok(p) && p@ == folder_path_of(
                name,
                string_arg(*args, "parentPath"@, "parent_path"@),
            ),
        },
{
    let name = str_arg(args, "folderName", "folder_name")?;
    match str_arg(args, "parentPath", "parent_path") {
        Ok(p) => if chars_of(p.as_str()).len() > 0 {
            Ok(concat3(p.as_str(), "/", name.as_str()))
        } else {
            Ok(name)
        },
        Err(_) => Ok(name),
    }
}

/// A string argument read as plain values: the string, or the `400`'s
/// message.
pub open spec fn arg_matches(r: Result<String, RpcError>, expected: Result<Seq<char>, Seq<char>>) -> bool {
    match expected {
        Ok(s) => r matches Ok(v) && v@ == s,
        Err(m) => r matches Err(x) && x.status == STATUS_BAD_REQUEST && x.message@ == m,
    }
}

/// The folder argument of `delete_vault_folder` and `rename_vault_folder`.
pub fn folder_arg(args: &Json) -> (r: Result<String, RpcError>)
    ensures
        arg_matches(r, string_arg(*args, "folderPath"@, "folder_path"@)),
{
    str_arg(args, "folderPath", "folder_path")
}

/// The new name of `rename_vault_folder`.
pub fn new_name_arg(args: &Json) -> (r: Result<String, RpcError>)
    ensures
        arg_matches(r, string_arg(*args, "newName"@, "new_name"@)),
{
    str_arg(args, "newName", "new_name")
}

/// The note that `move_note_to_folder` moves.
pub fn old_path_arg(args: &Json) -> (r: Result<String, RpcError>)
    ensures
        arg_matches(r, string_arg(*args, "oldPath"@, "old_path"@)),
{
    str_arg(args, "oldPath", "old_path")
}

/// A view file name is bare: its own file name, with no directory part and
/// no `..`, so it cannot leave the vault's `views/` folder.
pub open spec fn bare_name(filename: Seq<char>) -> bool {
    file_name(filename) == Some(filename)
}

/// Accept a view file name only when it is bare.
pub fn validate_view_filename(filename: &str) -> (r: Result<(), RpcError>)
    ensures
        bare_name(filename@) ==> r is Ok,
        !bare_name(filename@) ==> (r matches Err(x) && x.status == STATUS_BAD_REQUEST && x.message@
            == "invalid view filename"@),
{
    let bare = match file_name_of(filename) {
        Some(n) => same_text(n.as_str(), filename),
        None => false,
    };
    if bare {
        Ok(())
    } else {
        Err(bad_request_text("invalid view filename"))
    }
}

/// The file name of `delete_view_cmd`, checked to be bare.
pub fn view_filename_arg(args: &Json) -> (r: Result<String, RpcError>)
    ensures
        match string_arg(*args, "filename"@, "filename"@) {
            Err(m) => r matches Err(x) && x.status == STATUS_BAD_REQUEST && x.message@ == m,
            Ok(f) => if bare_name(f) {
                r matches Ok(v) && v@ == f
            } else {
                r matches Err(x) && x.status == STATUS_BAD_REQUEST && x.message@
                    == "invalid view filename"@
            },
        },
{
    let f = str_arg(args, "filename", "filename")?;
    validate_view_filename(f.as_str())?;
    Ok(f)
}

/// A write that has been carried out, with what its commit message names.
pub enum WriteDone {
    /// A note's content was saved at `safe`.
    Saved { safe: String },
    /// A note was created at `safe`.
    Created { safe: String },
    /// The note at `safe` was deleted.
    Deleted { safe: String },
    /// A frontmatter property was set on the note at `safe`.
    FrontmatterUpdated { safe: String },
    /// A frontmatter property was removed from the note at `safe`.
    FrontmatterDeleted { safe: String },
    /// A note was retitled; wikilinks elsewhere may have been rewritten.
    NoteRenamed { new_title: String },
    /// A note's file was renamed; wikilinks elsewhere may have been rewritten.
    NoteFileRenamed { new_stem: String },
    /// A folder was created (its name as reported by the vault).
    FolderCreated { created: String },
    /// A folder was deleted.
    FolderDeleted { folder: String },
    /// A folder was renamed.
    FolderRenamed { folder: String },
    /// A note was moved into a folder.
    NoteMoved,
    /// A saved view was written.
    ViewSaved { filename: String },
    /// A saved view was deleted.
    ViewDeleted { filename: String },
    /// An attachment was renamed; references to it may have been rewritten.
    AttachmentRenamed { new_name: String },
}

/// The file name used in commit messages: the path's file name, or nothing.
pub open spec fn label_of(safe: Seq<char>) -> Seq<char> {
    match file_name(safe) {
        Some(n) => n,
        None => Seq::empty(),
    }
}

/// The vault-relative path that a scoped commit stages.
pub open spec fn rel_of(vault_root: Seq<char>, safe: Seq<char>) -> Seq<char> {
    match stripped(safe, vault_root) {
        Some(p) => p,
        None => safe,
    }
}

/// The single file a write touched, when it is known; writes that may
/// rewrite other notes, or touch a folder, commit everything instead.
pub open spec fn scoped_target(d: WriteDone) -> Option<Seq<char>> {
    match d {
        WriteDone::Saved { safe } => Some(safe@),
        WriteDone::Created { safe } => Some(safe@),
        WriteDone::Deleted { safe } => Some(safe@),
        WriteDone::FrontmatterUpdated { safe } => Some(safe@),
        WriteDone::FrontmatterDeleted { safe } => Some(safe@),
        _ => None,
    }
}

/// The autogit commit message for a write.
pub open spec fn autogit_message(d: WriteDone) -> Seq<char> {
    match d {
        WriteDone::Saved { safe } => "update "@ + label_of(safe@),
        WriteDone::Created { safe } => "create "@ + label_of(safe@),
        WriteDone::Deleted { safe } => "delete "@ + label_of(safe@),
        WriteDone::FrontmatterUpdated { safe } => "update frontmatter on "@ + label_of(safe@),
        WriteDone::FrontmatterDeleted { safe } => "delete frontmatter property on "@ + label_of(
            safe@,
        ),
        WriteDone::NoteRenamed { new_title } => "rename note to "@ + new_title@,
        WriteDone::NoteFileRenamed { new_stem } => "rename note file to "@ + new_stem@,
        WriteDone::FolderCreated { created } => "create folder "@ + created@,
        WriteDone::FolderDeleted { folder } => "delete folder "@ + folder@,
        WriteDone::FolderRenamed { folder } => "rename folder "@ + folder@,
        WriteDone::NoteMoved => "move note to folder"@,
        WriteDone::ViewSaved { filename } => "save view "@ + filename@,
        WriteDone::ViewDeleted { filename } => "delete view "@ + filename@,
        WriteDone::AttachmentRenamed { new_name } => "rename attachment to "@ + new_name@,
    }
}

/// What an autogit commit stages.
pub enum CommitScope {
    /// Exactly these vault-relative paths.
    Paths(Vec<String>),
    /// Every change in the working tree.
    All,
}

/// A commit to make after a write, under the acting user's identity.
pub struct AutogitCommit {
    pub scope: CommitScope,
    pub message: String,
}

/// The commit that follows a write: none without an acting user or with
/// autogit off; otherwise the touched file alone when it is known, else
/// every change, with the write's message.
pub fn autogit_for(
    vault_root: &str,
    done: &WriteDone,
    identity: Option<&CommitIdentity>,
    autogit: bool,
) -> (r: Option<AutogitCommit>)
    ensures
        identity is None || !autogit ==> r is None,
        identity is Some && autogit ==> (r matches Some(c) && c.message@ == autogit_message(*done)
            && match scoped_target(*done) {
            Some(s) => c.scope matches CommitScope::Paths(ps) && ps@.len() == 1 && ps@[0]@ == rel_of(
                vault_root@,
                s,
            ),
            None => c.scope is All,
        }),
{
    if identity.is_none() || !autogit {
        return None;
    }
    let (scope, message) = match done {
        WriteDone::Saved { safe } => (
            CommitScope::Paths(vec![rel_path(vault_root, safe.as_str())]),
            concat("update ", file_label(safe.as_str()).as_str()),
        ),
        WriteDone::Created { safe } => (
            CommitScope::Paths(vec![rel_path(vault_root, safe.as_str())]),
            concat("create ", file_label(safe.as_str()).as_str()),
        ),
        WriteDone::Deleted { safe } => (
            CommitScope::Paths(vec![rel_path(vault_root, safe.as_str())]),
            concat("delete ", file_label(safe.as_str()).as_str()),
        ),
        WriteDone::FrontmatterUpdated { safe } => (
            CommitScope::Paths(vec![rel_path(vault_root, safe.as_str())]),
            concat("update frontmatter on ", file_label(safe.as_str()).as_str()),
        ),
        WriteDone::FrontmatterDeleted { safe } => (
            CommitScope::Paths(vec![rel_path(vault_root, safe.as_str())]),
            concat("delete frontmatter property on ", file_label(safe.as_str()).as_str()),
        ),
        WriteDone::NoteRenamed { new_title } => (
            CommitScope::All,
            concat("rename note to ", new_title.as_str()),
        ),
        WriteDone::NoteFileRenamed { new_stem } => (
            CommitScope::All,
            concat("rename note file to ", new_stem.as_str()),
        ),
        WriteDone::FolderCreated { created } => (
            CommitScope::All,
            concat("create folder ", created.as_str()),
        ),
        WriteDone::FolderDeleted { folder } => (
            CommitScope::All,
            concat("delete folder ", folder.as_str()),
        ),
        WriteDone::FolderRenamed { folder } => (
            CommitScope::All,
            concat("rename folder ", folder.as_str()),
        ),
        WriteDone::NoteMoved => (CommitScope::All, "move note to folder".to_owned()),
        WriteDone::ViewSaved { filename } => (
            CommitScope::All,
            concat("save view ", filename.as_str()),
        ),
        WriteDone::ViewDeleted { filename } => (
            CommitScope::All,
            concat("delete view ", filename.as_str()),
        ),
        WriteDone::AttachmentRenamed { new_name } => (
            CommitScope::All,
            concat("rename attachment to ", new_name.as_str()),
        ),
    };
    Some(AutogitCommit { scope, message })
}

/// A write that touched one known note (save, create, delete, setting or
/// removing a frontmatter property) commits exactly that note; every other
/// write, which may touch notes it cannot name, commits every change.
pub proof fn single_note_writes_commit_only_that_note(safe: String, d: WriteDone)
    ensures
        scoped_target(WriteDone::Saved { safe }) == Some(safe@),
        scoped_target(WriteDone::Created { safe }) == Some(safe@),
        scoped_target(WriteDone::Deleted { safe }) == Some(safe@),
        scoped_target(WriteDone::FrontmatterUpdated { safe }) == Some(safe@),
        scoped_target(WriteDone::FrontmatterDeleted { safe }) == Some(safe@),
        scoped_target(d) is None <==> !(d is Saved || d is Created || d is Deleted
            || d is FrontmatterUpdated || d is FrontmatterDeleted),
{
}

} // verus!
