//! RPC command routing: which dispatcher serves a command, the plan each
//! dispatcher follows for it (with the arguments it reads already
//! extracted), and the autogit commit that follows each write.

use vstd::prelude::*;
use crate::json::{arg_u64, json_get, str_arg, string_arg, u64_arg, Json};
use crate::paths::chars_eq;
use crate::rpc::{unsupported, RpcError, STATUS_BAD_REQUEST, STATUS_NOT_IMPLEMENTED};
use crate::text_support::chars_of;

verus! {

fn is_word(c: &[char], word: &str) -> (r: bool)
    ensures
        r == (c@ == word@),
{
    let w = chars_of(word);
    chars_eq(c, w.as_slice())
}

/// The index-mutating git commands, served under the repository lock.
pub open spec fn git_command_name(c: Seq<char>) -> bool {
    ||| c == "git_commit"@
    ||| c == "git_push"@
    ||| c == "git_pull"@
    ||| c == "git_resolve_conflict"@
    ||| c == "git_commit_conflict_resolution"@
    ||| c == "git_add_remote"@
    ||| c == "git_discard_file"@
    ||| c == "init_git_repo"@
}

/// The commands that write to the vault, served by the write dispatcher.
pub open spec fn write_command_name(c: Seq<char>) -> bool {
    ||| c == "save_note_content"@
    ||| c == "create_note"@
    ||| c == "create_note_content"@
    ||| c == "rename_note"@
    ||| c == "rename_note_filename"@
    ||| c == "delete_note"@
    ||| c == "update_frontmatter"@
    ||| c == "delete_frontmatter_property"@
    ||| c == "create_vault_folder"@
    ||| c == "delete_vault_folder"@
    ||| c == "rename_vault_folder"@
    ||| c == "move_note_to_folder"@
    ||| c == "save_view_cmd"@
    ||| c == "delete_view_cmd"@
    ||| c == "rename_attachment"@
}

/// Is `command` an index-mutating git command?
pub fn is_git_command(command: &str) -> (r: bool)
    ensures
        r == git_command_name(command@),
{
    let c = chars_of(command);
    let c = c.as_slice();
    is_word(c, "git_commit") || is_word(c, "git_push") || is_word(c, "git_pull") || is_word(
        c,
        "git_resolve_conflict",
    ) || is_word(c, "git_commit_conflict_resolution") || is_word(c, "git_add_remote")
        || is_word(c, "git_discard_file") || is_word(c, "init_git_repo")
}

/// Is `command` a write command that goes through the write dispatcher
/// instead of the read-only one?
pub fn is_write_command(command: &str) -> (r: bool)
    ensures
        r == write_command_name(command@),
{
    let c = chars_of(command);
    let c = c.as_slice();
    is_word(c, "save_note_content") || is_word(c, "create_note") || is_word(
        c,
        "create_note_content",
    ) || is_word(c, "rename_note") || is_word(c, "rename_note_filename") || is_word(
        c,
        "delete_note",
    ) || is_word(c, "update_frontmatter") || is_word(c, "delete_frontmatter_property")
        || is_word(c, "create_vault_folder") || is_word(c, "delete_vault_folder") || is_word(
        c,
        "rename_vault_folder",
    ) || is_word(c, "move_note_to_folder") || is_word(c, "save_view_cmd") || is_word(
        c,
        "delete_view_cmd",
    ) || is_word(c, "rename_attachment")
}

/// Where `POST /api/cmd/:command` sends a request.
#[derive(Debug, PartialEq, Eq, Structural)]
pub enum Route {
    /// The CSRF cookie and header do not match: `403`.
    Forbidden,
    /// `git_author_identity`: answered from the session alone.
    AuthorIdentity,
    /// An index-mutating git command; needs the acting user.
    Git,
    /// A write command; autogit uses the acting user when there is one.
    Write,
    /// Everything else goes to the read-only dispatcher.
    Read,
}

/// The route for a command, given whether the CSRF check passed.
pub open spec fn route_of(csrf_ok: bool, command: Seq<char>) -> Route {
    if !csrf_ok {
        Route::Forbidden
    } else if command == "git_author_identity"@ {
        Route::AuthorIdentity
    } else if git_command_name(command) {
        Route::Git
    } else if write_command_name(command) {
        Route::Write
    } else {
        Route::Read
    }
}

/// Route a command request: the CSRF check comes first, then the special
/// identity query, then git, write and read commands.
pub fn route_command(csrf_ok: bool, command: &str) -> (r: Route)
    ensures
        r == route_of(csrf_ok, command@),
{
    if !csrf_ok {
        Route::Forbidden
    } else if is_word(chars_of(command).as_slice(), "git_author_identity") {
        Route::AuthorIdentity
    } else if is_git_command(command) {
        Route::Git
    } else if is_write_command(command) {
        Route::Write
    } else {
        Route::Read
    }
}

/// No git or write command is named like the identity query.
proof fn lemma_not_identity_query(c: Seq<char>)
    requires
        git_command_name(c) || write_command_name(c),
    ensures
        c != "git_author_identity"@,
{
    reveal_strlit("git_author_identity");
    assert("git_author_identity"@.len() == 19);
    assert("git_author_identity"@[0] == 'g');
    if c == "git_commit"@ {
        reveal_strlit("git_commit");
        assert("git_commit"@.len() == 10);
        assert("git_commit"@[0] == 'g');
    }
    if c == "git_push"@ {
        reveal_strlit("git_push");
        assert("git_push"@.len() == 8);
        assert("git_push"@[0] == 'g');
    }
    if c == "git_pull"@ {
        reveal_strlit("git_pull");
        assert("git_pull"@.len() == 8);
        assert("git_pull"@[0] == 'g');
    }
    if c == "git_resolve_conflict"@ {
        reveal_strlit("git_resolve_conflict");
        assert("git_resolve_conflict"@.len() == 20);
        assert("git_resolve_conflict"@[0] == 'g');
    }
    if c == "git_commit_conflict_resolution"@ {
        reveal_strlit("git_commit_conflict_resolution");
        assert("git_commit_conflict_resolution"@.len() == 30);
        assert("git_commit_conflict_resolution"@[0] == 'g');
    }
    if c == "git_add_remote"@ {
        reveal_strlit("git_add_remote");
        assert("git_add_remote"@.len() == 14);
        assert("git_add_remote"@[0] == 'g');
    }
    if c == "git_discard_file"@ {
        reveal_strlit("git_discard_file");
        assert("git_discard_file"@.len() == 16);
        assert("git_discard_file"@[0] == 'g');
    }
    if c == "init_git_repo"@ {
        reveal_strlit("init_git_repo");
        assert("init_git_repo"@.len() == 13);
        assert("init_git_repo"@[0] == 'i');
    }
    if c == "save_note_content"@ {
        reveal_strlit("save_note_content");
        assert("save_note_content"@.len() == 17);
        assert("save_note_content"@[0] == 's');
    }
    if c == "create_note"@ {
        reveal_strlit("create_note");
        assert("create_note"@.len() == 11);
        assert("create_note"@[0] == 'c');
    }
    if c == "create_note_content"@ {
        reveal_strlit("create_note_content");
        assert("create_note_content"@.len() == 19);
        assert("create_note_content"@[0] == 'c');
    }
    if c == "rename_note"@ {
        reveal_strlit("rename_note");
        assert("rename_note"@.len() == 11);
        assert("rename_note"@[0] == 'r');
    }
    if c == "rename_note_filename"@ {
        reveal_strlit("rename_note_filename");
        assert("rename_note_filename"@.len() == 20);
        assert("rename_note_filename"@[0] == 'r');
    }
    if c == "delete_note"@ {
        reveal_strlit("delete_note");
        assert("delete_note"@.len() == 11);
        assert("delete_note"@[0] == 'd');
    }
    if c == "update_frontmatter"@ {
        reveal_strlit("update_frontmatter");
        assert("update_frontmatter"@.len() == 18);
        assert("update_frontmatter"@[0] == 'u');
    }
    if c == "delete_frontmatter_property"@ {
        reveal_strlit("delete_frontmatter_property");
        assert("delete_frontmatter_property"@.len() == 27);
        assert("delete_frontmatter_property"@[0] == 'd');
    }
    if c == "create_vault_folder"@ {
        reveal_strlit("create_vault_folder");
        assert("create_vault_folder"@.len() == 19);
        assert("create_vault_folder"@[0] == 'c');
    }
    if c == "delete_vault_folder"@ {
        reveal_strlit("delete_vault_folder");
        assert("delete_vault_folder"@.len() == 19);
        assert("delete_vault_folder"@[0] == 'd');
    }
    if c == "rename_vault_folder"@ {
        reveal_strlit("rename_vault_folder");
        assert("rename_vault_folder"@.len() == 19);
        assert("rename_vault_folder"@[0] == 'r');
    }
    if c == "move_note_to_folder"@ {
        reveal_strlit("move_note_to_folder");
        assert("move_note_to_folder"@.len() == 19);
        assert("move_note_to_folder"@[0] == 'm');
    }
    if c == "save_view_cmd"@ {
        reveal_strlit("save_view_cmd");
        assert("save_view_cmd"@.len() == 13);
        assert("save_view_cmd"@[0] == 's');
    }
    if c == "delete_view_cmd"@ {
        reveal_strlit("delete_view_cmd");
        assert("delete_view_cmd"@.len() == 15);
        assert("delete_view_cmd"@[0] == 'd');
    }
    if c == "rename_attachment"@ {
        reveal_strlit("rename_attachment");
        assert("rename_attachment"@.len() == 17);
        assert("rename_attachment"@[0] == 'r');
    }
}

/// No command is dispatched unless the CSRF check passed, and the git and
/// write commands never reach the read-only dispatcher.
pub proof fn commands_need_csrf(command: Seq<char>)
    ensures
        route_of(false, command) == Route::Forbidden,
        git_command_name(command) ==> route_of(true, command) == Route::Git,
        write_command_name(command) && !git_command_name(command) ==> route_of(true, command)
            == Route::Write,
{
    if git_command_name(command) || write_command_name(command) {
        lemma_not_identity_query(command);
    }
}

/// A git read scoped to one vault file.
#[derive(Debug, Clone, Copy, PartialEq, Eq, Structural)]
pub enum GitFileRead {
    Diff,
    DiffAtCommit,
    History,
    Url,
}

/// What the read-only dispatcher does for a command. Arguments that the
/// JSON decoder reads into typed records (note paths, search options) are
/// read by the caller; the rest are read here.
#[derive(Debug, Clone, Copy, PartialEq, Eq, Structural)]
pub enum ReadCommand {
    /// `list_vault`, `reload_vault`: the visible vault entries.
    ListVault,
    /// The content of one note.
    GetNoteContent,
    /// A keyword search over the vault.
    SearchVault,
    /// The visible vault folders.
    ListVaultFolders,
    /// The content of every visible note, by path.
    GetAllContent,
    /// Re-read one note's entry.
    ReloadVaultEntry,
    /// The one-vault registry.
    LoadVaultList,
    /// The vault root's path.
    GetLastVaultPath,
    /// Whether a path is the served vault.
    CheckVaultExists,
    /// Persisting the vault list or last path: nothing to do, `null`.
    Unchanged,
    /// The saved views.
    ListViews,
    GitRemoteStatus,
    /// Whether the vault root holds a `.git` directory.
    IsGitRepo,
    GitWorkspaceInfo,
    GetModifiedFiles,
    GetModifiedFilesWithStats,
    GetLastCommitInfo,
    /// Recent vault activity, `limit` entries after skipping `skip`.
    VaultPulse { limit: u64, skip: u64 },
    /// A git read on one file (its path argument is read next).
    GitFile(GitFileRead),
}

/// The read-only dispatch table, in the order it is consulted; `None` for
/// a command the web server does not serve.
pub open spec fn read_plan(c: Seq<char>, args: Json) -> Option<ReadCommand> {
    if c == "list_vault"@ || c == "reload_vault"@ {
        Some(ReadCommand::ListVault)
    } else if c == "get_note_content"@ {
        Some(ReadCommand::GetNoteContent)
    } else if c == "search_vault"@ {
        Some(ReadCommand::SearchVault)
    } else if c == "list_vault_folders"@ {
        Some(ReadCommand::ListVaultFolders)
    } else if c == "get_all_content"@ {
        Some(ReadCommand::GetAllContent)
    } else if c == "reload_vault_entry"@ {
        Some(ReadCommand::ReloadVaultEntry)
    } else if c == "load_vault_list"@ {
        Some(ReadCommand::LoadVaultList)
    } else if c == "get_last_vault_path"@ {
        Some(ReadCommand::GetLastVaultPath)
    } else if c == "check_vault_exists"@ {
        Some(ReadCommand::CheckVaultExists)
    } else if c == "set_last_vault_path"@ || c == "save_vault_list"@ {
        Some(ReadCommand::Unchanged)
    } else if c == "list_views"@ {
        Some(ReadCommand::ListViews)
    } else if c == "git_remote_status"@ {
        Some(ReadCommand::GitRemoteStatus)
    } else if c == "is_git_repo"@ {
        Some(ReadCommand::IsGitRepo)
    } else if c == "git_workspace_info"@ {
        Some(ReadCommand::GitWorkspaceInfo)
    } else if c == "get_modified_files"@ {
        Some(ReadCommand::GetModifiedFiles)
    } else if c == "get_modified_files_with_stats"@ {
        Some(ReadCommand::GetModifiedFilesWithStats)
    } else if c == "get_last_commit_info"@ {
        Some(ReadCommand::GetLastCommitInfo)
    } else if c == "get_vault_pulse"@ {
        Some(
            ReadCommand::VaultPulse {
                limit: u64_arg(args, "limit"@, 30),
                skip: u64_arg(args, "skip"@, 0),
            },
        )
    } else if c == "get_file_diff"@ {
        Some(ReadCommand::GitFile(GitFileRead::Diff))
    } else if c == "get_file_diff_at_commit"@ {
        Some(ReadCommand::GitFile(GitFileRead::DiffAtCommit))
    } else if c == "get_file_history"@ {
        Some(ReadCommand::GitFile(GitFileRead::History))
    } else if c == "git_file_url"@ {
        Some(ReadCommand::GitFile(GitFileRead::Url))
    } else {
        None
    }
}

/// The `501` a command outside every table is answered with.
pub open spec fn is_unsupported(r: RpcError, command: Seq<char>) -> bool {
    r.status == STATUS_NOT_IMPLEMENTED && r.message@ == "command '"@ + command
        + "' is not supported on web"@
}

/// Look a command up in the read-only dispatch table.
pub fn plan_read(command: &str, args: &Json) -> (r: Result<ReadCommand, RpcError>)
    ensures
        match read_plan(command@, *args) {
            Some(p) => r matches Ok(x) && x == p,
            None => r matches Err(e) && is_unsupported(e, command@),
        },
{
    let cv = chars_of(command);
    let c = cv.as_slice();
    if is_word(c, "list_vault") || is_word(c, "reload_vault") {
        Ok(ReadCommand::ListVault)
    } else if is_word(c, "get_note_content") {
        Ok(ReadCommand::GetNoteContent)
    } else if is_word(c, "search_vault") {
        Ok(ReadCommand::SearchVault)
    } else if is_word(c, "list_vault_folders") {
        Ok(ReadCommand::ListVaultFolders)
    } else if is_word(c, "get_all_content") {
        Ok(ReadCommand::GetAllContent)
    } else if is_word(c, "reload_vault_entry") {
        Ok(ReadCommand::ReloadVaultEntry)
    } else if is_word(c, "load_vault_list") {
        Ok(ReadCommand::LoadVaultList)
    } else if is_word(c, "get_last_vault_path") {
        Ok(ReadCommand::GetLastVaultPath)
    } else if is_word(c, "check_vault_exists") {
        Ok(ReadCommand::CheckVaultExists)
    } else if is_word(c, "set_last_vault_path") || is_word(c, "save_vault_list") {
        Ok(ReadCommand::Unchanged)
    } else if is_word(c, "list_views") {
        Ok(ReadCommand::ListViews)
    } else if is_word(c, "git_remote_status") {
        Ok(ReadCommand::GitRemoteStatus)
    } else if is_word(c, "is_git_repo") {
        Ok(ReadCommand::IsGitRepo)
    } else if is_word(c, "git_workspace_info") {
        Ok(ReadCommand::GitWorkspaceInfo)
    } else if is_word(c, "get_modified_files") {
        Ok(ReadCommand::GetModifiedFiles)
    } else if is_word(c, "get_modified_files_with_stats") {
        Ok(ReadCommand::GetModifiedFilesWithStats)
    } else if is_word(c, "get_last_commit_info") {
        Ok(ReadCommand::GetLastCommitInfo)
    } else if is_word(c, "get_vault_pulse") {
        Ok(
            ReadCommand::VaultPulse {
                limit: arg_u64(args, "limit", 30),
                skip: arg_u64(args, "skip", 0),
            },
        )
    } else if is_word(c, "get_file_diff") {
        Ok(ReadCommand::GitFile(GitFileRead::Diff))
    } else if is_word(c, "get_file_diff_at_commit") {
        Ok(ReadCommand::GitFile(GitFileRead::DiffAtCommit))
    } else if is_word(c, "get_file_history") {
        Ok(ReadCommand::GitFile(GitFileRead::History))
    } else if is_word(c, "git_file_url") {
        Ok(ReadCommand::GitFile(GitFileRead::Url))
    } else {
        Err(unsupported(command))
    }
}

/// The commit hash argument of `get_file_diff_at_commit`.
pub fn commit_hash_arg(args: &Json) -> (r: Result<String, RpcError>)
    ensures
        match string_arg(*args, "commitHash"@, "commit_hash"@) {
            Ok(s) => r matches Ok(v) && v@ == s,
            Err(m) => r matches Err(x) && x.status == STATUS_BAD_REQUEST && x.message@ == m,
        },
{
    str_arg(args, "commitHash", "commit_hash")
}

/// What the git dispatcher does for a command. `git_commit` and
/// `git_resolve_conflict` arguments are decoded into typed records by the
/// caller.
#[derive(Debug)]
pub enum GitCommand {
    Commit,
    Push,
    Pull,
    ResolveConflict,
    CommitConflictResolution,
    /// Add the remote at `url`.
    AddRemote { url: String },
    /// Discard the working-tree changes of one vault-relative file.
    DiscardFile { path: String },
    InitRepo,
}

/// A git plan as plain values; an argument that could not be read is the
/// `400`'s message.
pub enum GitPlan {
    Commit,
    Push,
    Pull,
    ResolveConflict,
    CommitConflictResolution,
    AddRemote(Result<Seq<char>, Seq<char>>),
    DiscardFile(Result<Seq<char>, Seq<char>>),
    InitRepo,
}

/// The object holding `git_add_remote`'s arguments: the web client nests
/// them under `request`; other callers send them at the top level.
pub open spec fn remote_request(args: Json) -> Json {
    match json_get(args, "request"@) {
        Some(r) => r,
        None => args,
    }
}

/// The file `git_discard_file` names: `relativePath`, else `filePath`.
pub open spec fn discard_path(args: Json) -> Result<Seq<char>, Seq<char>> {
    match string_arg(args, "relativePath"@, "relative_path"@) {
        Ok(s) => Ok(s),
        Err(_) => string_arg(args, "filePath"@, "file_path"@),
    }
}

/// The git dispatch table; `None` for a command it does not serve.
pub open spec fn git_plan(c: Seq<char>, args: Json) -> Option<GitPlan> {
    if c == "git_commit"@ {
        Some(GitPlan::Commit)
    } else if c == "git_push"@ {
        Some(GitPlan::Push)
    } else if c == "git_pull"@ {
        Some(GitPlan::Pull)
    } else if c == "git_resolve_conflict"@ {
        Some(GitPlan::ResolveConflict)
    } else if c == "git_commit_conflict_resolution"@ {
        Some(GitPlan::CommitConflictResolution)
    } else if c == "git_add_remote"@ {
        Some(GitPlan::AddRemote(string_arg(remote_request(args), "remoteUrl"@, "remote_url"@)))
    } else if c == "git_discard_file"@ {
        Some(GitPlan::DiscardFile(discard_path(args)))
    } else if c == "init_git_repo"@ {
        Some(GitPlan::InitRepo)
    } else {
        None
    }
}

/// The outcome of planning a git command, as plain values.
pub open spec fn git_outcome(r: Result<GitCommand, RpcError>) -> Option<GitPlan> {
    match r {
        Ok(GitCommand::Commit) => Some(GitPlan::Commit),
        Ok(GitCommand::Push) => Some(GitPlan::Push),
        Ok(GitCommand::Pull) => Some(GitPlan::Pull),
        Ok(GitCommand::ResolveConflict) => Some(GitPlan::ResolveConflict),
        Ok(GitCommand::CommitConflictResolution) => Some(GitPlan::CommitConflictResolution),
        Ok(GitCommand::AddRemote { url }) => Some(GitPlan::AddRemote(Ok(url@))),
        Ok(GitCommand::DiscardFile { path }) => Some(GitPlan::DiscardFile(Ok(path@))),
        Ok(GitCommand::InitRepo) => Some(GitPlan::InitRepo),
        Err(_) => None,
    }
}

/// Look a command up in the git dispatch table and read its arguments.
pub fn plan_git(command: &str, args: &Json) -> (r: Result<GitCommand, RpcError>)
    ensures
        match git_plan(command@, *args) {
            None => r matches Err(e) && is_unsupported(e, command@),
            Some(GitPlan::AddRemote(Err(m))) => r matches Err(e) && e.status == STATUS_BAD_REQUEST
                && e.message@ == m,
            Some(GitPlan::DiscardFile(Err(m))) => r matches Err(e) && e.status
                == STATUS_BAD_REQUEST && e.message@ == m,
            Some(p) => git_outcome(r) == Some(p),
        },
{
    let cv = chars_of(command);
    let c = cv.as_slice();
    if is_word(c, "git_commit") {
        Ok(GitCommand::Commit)
    } else if is_word(c, "git_push") {
        Ok(GitCommand::Push)
    } else if is_word(c, "git_pull") {
        Ok(GitCommand::Pull)
    } else if is_word(c, "git_resolve_conflict") {
        Ok(GitCommand::ResolveConflict)
    } else if is_word(c, "git_commit_conflict_resolution") {
        Ok(GitCommand::CommitConflictResolution)
    } else if is_word(c, "git_add_remote") {
        let req = match args.get("request") {
            Some(r) => r,
            None => args,
        };
        let url = str_arg(req, "remoteUrl", "remote_url")?;
        Ok(GitCommand::AddRemote { url })
    } else if is_word(c, "git_discard_file") {
        let path = match str_arg(args, "relativePath", "relative_path") {
            Ok(s) => s,
            Err(_) => str_arg(args, "filePath", "file_path")?,
        };
        Ok(GitCommand::DiscardFile { path })
    } else if is_word(c, "init_git_repo") {
        Ok(GitCommand::InitRepo)
    } else {
        Err(unsupported(command))
    }
}

/// What the write dispatcher does for a command.
#[derive(Debug, Clone, Copy, PartialEq, Eq, Structural)]
pub enum WriteCommand {
    SaveNoteContent,
    /// `create_note` and `create_note_content`.
    CreateNote,
    DeleteNote,
    RenameNote,
    RenameNoteFilename,
    UpdateFrontmatter,
    DeleteFrontmatterProperty,
    CreateVaultFolder,
    DeleteVaultFolder,
    RenameVaultFolder,
    MoveNoteToFolder,
    SaveView,
    DeleteView,
    /// Rename an attachment and rewrite the notes that reference it.
    RenameAttachment,
}

/// The write dispatch table; `None` for a command it does not serve.
pub open spec fn write_plan(c: Seq<char>) -> Option<WriteCommand> {
    if c == "save_note_content"@ {
        Some(WriteCommand::SaveNoteContent)
    } else if c == "create_note_content"@ || c == "create_note"@ {
        Some(WriteCommand::CreateNote)
    } else if c == "delete_note"@ {
        Some(WriteCommand::DeleteNote)
    } else if c == "rename_note"@ {
        Some(WriteCommand::RenameNote)
    } else if c == "rename_note_filename"@ {
        Some(WriteCommand::RenameNoteFilename)
    } else if c == "update_frontmatter"@ {
        Some(WriteCommand::UpdateFrontmatter)
    } else if c == "delete_frontmatter_property"@ {
        Some(WriteCommand::DeleteFrontmatterProperty)
    } else if c == "create_vault_folder"@ {
        Some(WriteCommand::CreateVaultFolder)
    } else if c == "delete_vault_folder"@ {
        Some(WriteCommand::DeleteVaultFolder)
    } else if c == "rename_vault_folder"@ {
        Some(WriteCommand::RenameVaultFolder)
    } else if c == "move_note_to_folder"@ {
        Some(WriteCommand::MoveNoteToFolder)
    } else if c == "save_view_cmd"@ {
        Some(WriteCommand::SaveView)
    } else if c == "delete_view_cmd"@ {
        Some(WriteCommand::DeleteView)
    } else if c == "rename_attachment"@ {
        Some(WriteCommand::RenameAttachment)
    } else {
        None
    }
}

/// Look a command up in the write dispatch table.
pub fn plan_write(command: &str) -> (r: Result<WriteCommand, RpcError>)
    ensures
        match write_plan(command@) {
            Some(p) => r matches Ok(x) && x == p,
            None => r matches Err(e) && is_unsupported(e, command@),
        },
{
    let cv = chars_of(command);
    let c = cv.as_slice();
    if is_word(c, "save_note_content") {
        Ok(WriteCommand::SaveNoteContent)
    } else if is_word(c, "create_note_content") || is_word(c, "create_note") {
        Ok(WriteCommand::CreateNote)
    } else if is_word(c, "delete_note") {
        Ok(WriteCommand::DeleteNote)
    } else if is_word(c, "rename_note") {
        Ok(WriteCommand::RenameNote)
    } else if is_word(c, "rename_note_filename") {
        Ok(WriteCommand::RenameNoteFilename)
    } else if is_word(c, "update_frontmatter") {
        Ok(WriteCommand::UpdateFrontmatter)
    } else if is_word(c, "delete_frontmatter_property") {
        Ok(WriteCommand::DeleteFrontmatterProperty)
    } else if is_word(c, "create_vault_folder") {
        Ok(WriteCommand::CreateVaultFolder)
    } else if is_word(c, "delete_vault_folder") {
        Ok(WriteCommand::DeleteVaultFolder)
    } else if is_word(c, "rename_vault_folder") {
        Ok(WriteCommand::RenameVaultFolder)
    } else if is_word(c, "move_note_to_folder") {
        Ok(WriteCommand::MoveNoteToFolder)
    } else if is_word(c, "save_view_cmd") {
        Ok(WriteCommand::SaveView)
    } else if is_word(c, "delete_view_cmd") {
        Ok(WriteCommand::DeleteView)
    } else if is_word(c, "rename_attachment") {
        Ok(WriteCommand::RenameAttachment)
    } else {
        Err(unsupported(command))
    }
}

/// The write table serves exactly the commands routed to it: a command is
/// routed to the write dispatcher iff the write table has an entry for it.
pub proof fn write_table_matches_routing(c: Seq<char>)
    ensures
        write_plan(c) is Some <==> write_command_name(c),
{
}

/// Every command the git dispatch table serves is routed to the git
/// dispatcher, and only those: the routing and the table agree, whatever the
/// arguments.
pub proof fn git_table_matches_routing(c: Seq<char>, args: Json)
    ensures
        git_plan(c, args) is Some <==> git_command_name(c),
        git_plan(c, args) is Some ==> route_of(true, c) == Route::Git,
{
    if git_command_name(c) {
        lemma_not_identity_query(c);
    }
}

/// Each git file read is served by the read of its own name, whatever the
/// arguments, and no two commands share a file read.
pub proof fn file_reads_keep_their_names(c1: Seq<char>, c2: Seq<char>, a1: Json, a2: Json, k: GitFileRead)
    ensures
        read_plan("get_file_diff"@, a1) == Some(ReadCommand::GitFile(GitFileRead::Diff)),
        read_plan("get_file_diff_at_commit"@, a1) == Some(
            ReadCommand::GitFile(GitFileRead::DiffAtCommit),
        ),
        read_plan("get_file_history"@, a1) == Some(ReadCommand::GitFile(GitFileRead::History)),
        read_plan("git_file_url"@, a1) == Some(ReadCommand::GitFile(GitFileRead::Url)),
        read_plan(c1, a1) == Some(ReadCommand::GitFile(k)) && read_plan(c2, a2) == Some(
            ReadCommand::GitFile(k),
        ) ==> c1 == c2,
{
    reveal_strlit("list_vault");
    reveal_strlit("reload_vault");
    reveal_strlit("get_note_content");
    reveal_strlit("search_vault");
    reveal_strlit("list_vault_folders");
    reveal_strlit("get_all_content");
    reveal_strlit("reload_vault_entry");
    reveal_strlit("load_vault_list");
    reveal_strlit("get_last_vault_path");
    reveal_strlit("check_vault_exists");
    reveal_strlit("set_last_vault_path");
    reveal_strlit("save_vault_list");
    reveal_strlit("list_views");
    reveal_strlit("git_remote_status");
    reveal_strlit("is_git_repo");
    reveal_strlit("git_workspace_info");
    reveal_strlit("get_modified_files");
    reveal_strlit("get_modified_files_with_stats");
    reveal_strlit("get_last_commit_info");
    reveal_strlit("get_vault_pulse");
    reveal_strlit("get_file_diff");
    reveal_strlit("get_file_diff_at_commit");
    reveal_strlit("get_file_history");
    reveal_strlit("git_file_url");
    assert({
        &&& ("list_vault"@.len() != "get_file_diff"@.len())
        &&& ("reload_vault"@.len() != "get_file_diff"@.len())
        &&& ("get_note_content"@.len() != "get_file_diff"@.len())
        &&& ("search_vault"@.len() != "get_file_diff"@.len())
        &&& ("list_vault_folders"@.len() != "get_file_diff"@.len())
        &&& ("get_all_content"@.len() != "get_file_diff"@.len())
        &&& ("reload_vault_entry"@.len() != "get_file_diff"@.len())
        &&& ("load_vault_list"@.len() != "get_file_diff"@.len())
        &&& ("get_last_vault_path"@.len() != "get_file_diff"@.len())
        &&& ("check_vault_exists"@.len() != "get_file_diff"@.len())
        &&& ("set_last_vault_path"@.len() != "get_file_diff"@.len())
        &&& ("save_vault_list"@.len() != "get_file_diff"@.len())
        &&& ("list_views"@.len() != "get_file_diff"@.len())
        &&& ("git_remote_status"@.len() != "get_file_diff"@.len())
        &&& ("is_git_repo"@.len() != "get_file_diff"@.len())
        &&& ("git_workspace_info"@.len() != "get_file_diff"@.len())
        &&& ("get_modified_files"@.len() != "get_file_diff"@.len())
        &&& ("get_modified_files_with_stats"@.len() != "get_file_diff"@.len())
        &&& ("get_last_commit_info"@.len() != "get_file_diff"@.len())
        &&& ("get_vault_pulse"@.len() != "get_file_diff"@.len())
        &&& ("list_vault"@.len() != "get_file_diff_at_commit"@.len())
        &&& ("reload_vault"@.len() != "get_file_diff_at_commit"@.len())
        &&& ("get_note_content"@.len() != "get_file_diff_at_commit"@.len())
        &&& ("search_vault"@.len() != "get_file_diff_at_commit"@.len())
        &&& ("list_vault_folders"@.len() != "get_file_diff_at_commit"@.len())
        &&& ("get_all_content"@.len() != "get_file_diff_at_commit"@.len())
        &&& ("reload_vault_entry"@.len() != "get_file_diff_at_commit"@.len())
        &&& ("load_vault_list"@.len() != "get_file_diff_at_commit"@.len())
        &&& ("get_last_vault_path"@.len() != "get_file_diff_at_commit"@.len())
        &&& ("check_vault_exists"@.len() != "get_file_diff_at_commit"@.len())
        &&& ("set_last_vault_path"@.len() != "get_file_diff_at_commit"@.len())
        &&& ("save_vault_list"@.len() != "get_file_diff_at_commit"@.len())
        &&& ("list_views"@.len() != "get_file_diff_at_commit"@.len())
        &&& ("git_remote_status"@.len() != "get_file_diff_at_commit"@.len())
        &&& ("is_git_repo"@.len() != "get_file_diff_at_commit"@.len())
        &&& ("git_workspace_info"@.len() != "get_file_diff_at_commit"@.len())
        &&& ("get_modified_files"@.len() != "get_file_diff_at_commit"@.len())
        &&& ("get_modified_files_with_stats"@.len() != "get_file_diff_at_commit"@.len())
        &&& ("get_last_commit_info"@.len() != "get_file_diff_at_commit"@.len())
        &&& ("get_vault_pulse"@.len() != "get_file_diff_at_commit"@.len())
        &&& ("get_file_diff"@.len() != "get_file_diff_at_commit"@.len())
        &&& ("list_vault"@.len() != "get_file_history"@.len())
        &&& ("reload_vault"@.len() != "get_file_history"@.len())
        &&& ("get_note_content"@[4] != "get_file_history"@[4])
        &&& ("search_vault"@.len() != "get_file_history"@.len())
        &&& ("list_vault_folders"@.len() != "get_file_history"@.len())
        &&& ("get_all_content"@.len() != "get_file_history"@.len())
        &&& ("reload_vault_entry"@.len() != "get_file_history"@.len())
        &&& ("load_vault_list"@.len() != "get_file_history"@.len())
        &&& ("get_last_vault_path"@.len() != "get_file_history"@.len())
        &&& ("check_vault_exists"@.len() != "get_file_history"@.len())
        &&& ("set_last_vault_path"@.len() != "get_file_history"@.len())
        &&& ("save_vault_list"@.len() != "get_file_history"@.len())
        &&& ("list_views"@.len() != "get_file_history"@.len())
        &&& ("git_remote_status"@.len() != "get_file_history"@.len())
        &&& ("is_git_repo"@.len() != "get_file_history"@.len())
        &&& ("git_workspace_info"@.len() != "get_file_history"@.len())
        &&& ("get_modified_files"@.len() != "get_file_history"@.len())
        &&& ("get_modified_files_with_stats"@.len() != "get_file_history"@.len())
        &&& ("get_last_commit_info"@.len() != "get_file_history"@.len())
        &&& ("get_vault_pulse"@.len() != "get_file_history"@.len())
        &&& ("get_file_diff"@.len() != "get_file_history"@.len())
        &&& ("get_file_diff_at_commit"@.len() != "get_file_history"@.len())
        &&& ("list_vault"@.len() != "git_file_url"@.len())
        &&& ("reload_vault"@[0] != "git_file_url"@[0])
        &&& ("get_note_content"@.len() != "git_file_url"@.len())
        &&& ("search_vault"@[0] != "git_file_url"@[0])
        &&& ("list_vault_folders"@.len() != "git_file_url"@.len())
        &&& ("get_all_content"@.len() != "git_file_url"@.len())
        &&& ("reload_vault_entry"@.len() != "git_file_url"@.len())
        &&& ("load_vault_list"@.len() != "git_file_url"@.len())
        &&& ("get_last_vault_path"@.len() != "git_file_url"@.len())
        &&& ("check_vault_exists"@.len() != "git_file_url"@.len())
        &&& ("set_last_vault_path"@.len() != "git_file_url"@.len())
        &&& ("save_vault_list"@.len() != "git_file_url"@.len())
        &&& ("list_views"@.len() != "git_file_url"@.len())
        &&& ("git_remote_status"@.len() != "git_file_url"@.len())
        &&& ("is_git_repo"@.len() != "git_file_url"@.len())
        &&& ("git_workspace_info"@.len() != "git_file_url"@.len())
        &&& ("get_modified_files"@.len() != "git_file_url"@.len())
        &&& ("get_modified_files_with_stats"@.len() != "git_file_url"@.len())
        &&& ("get_last_commit_info"@.len() != "git_file_url"@.len())
        &&& ("get_vault_pulse"@.len() != "git_file_url"@.len())
        &&& ("get_file_diff"@.len() != "git_file_url"@.len())
        &&& ("get_file_diff_at_commit"@.len() != "git_file_url"@.len())
        &&& ("get_file_history"@.len() != "git_file_url"@.len())
    });
}

/// The read table gives distinct commands distinct reads, except for the
/// aliases `list_vault`/`reload_vault` and the two no-op persistence
/// commands.
pub proof fn read_table_is_one_to_one(c1: Seq<char>, c2: Seq<char>, a1: Json, a2: Json)
    requires
        read_plan(c1, a1) is Some,
        read_plan(c1, a1) == read_plan(c2, a2),
        read_plan(c1, a1) != Some(ReadCommand::ListVault),
        read_plan(c1, a1) != Some(ReadCommand::Unchanged),
    ensures
        c1 == c2,
{
}

/// The write table gives distinct commands distinct handlers, except for the
/// `create_note`/`create_note_content` alias, and each command reaches the
/// handler of its own name.
pub proof fn write_table_is_one_to_one(c1: Seq<char>, c2: Seq<char>)
    ensures
        write_plan(c1) is Some && write_plan(c1) == write_plan(c2) && write_plan(c1) != Some(
            WriteCommand::CreateNote,
        ) ==> c1 == c2,
        write_plan("rename_note"@) == Some(WriteCommand::RenameNote),
        write_plan("rename_note_filename"@) == Some(WriteCommand::RenameNoteFilename),
        write_plan("save_note_content"@) == Some(WriteCommand::SaveNoteContent),
        write_plan("delete_note"@) == Some(WriteCommand::DeleteNote),
        write_plan("update_frontmatter"@) == Some(WriteCommand::UpdateFrontmatter),
        write_plan("delete_frontmatter_property"@) == Some(WriteCommand::DeleteFrontmatterProperty),
        write_plan("create_vault_folder"@) == Some(WriteCommand::CreateVaultFolder),
        write_plan("delete_vault_folder"@) == Some(WriteCommand::DeleteVaultFolder),
        write_plan("rename_vault_folder"@) == Some(WriteCommand::RenameVaultFolder),
        write_plan("move_note_to_folder"@) == Some(WriteCommand::MoveNoteToFolder),
        write_plan("save_view_cmd"@) == Some(WriteCommand::SaveView),
        write_plan("delete_view_cmd"@) == Some(WriteCommand::DeleteView),
        write_plan("rename_attachment"@) == Some(WriteCommand::RenameAttachment),
{
    reveal_strlit("save_note_content");
    reveal_strlit("create_note_content");
    reveal_strlit("create_note");
    reveal_strlit("delete_note");
    reveal_strlit("rename_note");
    reveal_strlit("rename_note_filename");
    reveal_strlit("update_frontmatter");
    reveal_strlit("delete_frontmatter_property");
    reveal_strlit("create_vault_folder");
    reveal_strlit("delete_vault_folder");
    reveal_strlit("rename_vault_folder");
    reveal_strlit("move_note_to_folder");
    reveal_strlit("save_view_cmd");
    reveal_strlit("delete_view_cmd");
    reveal_strlit("rename_attachment");
    assert({
        &&& ("save_note_content"@.len() != "delete_note"@.len())
        &&& ("create_note_content"@.len() != "delete_note"@.len())
        &&& ("create_note"@[0] != "delete_note"@[0])
        &&& ("save_note_content"@.len() != "rename_note"@.len())
        &&& ("create_note_content"@.len() != "rename_note"@.len())
        &&& ("create_note"@[0] != "rename_note"@[0])
        &&& ("delete_note"@[0] != "rename_note"@[0])
        &&& ("save_note_content"@.len() != "rename_note_filename"@.len())
        &&& ("create_note_content"@.len() != "rename_note_filename"@.len())
        &&& ("create_note"@.len() != "rename_note_filename"@.len())
        &&& ("delete_note"@.len() != "rename_note_filename"@.len())
        &&& ("rename_note"@.len() != "rename_note_filename"@.len())
        &&& ("save_note_content"@.len() != "update_frontmatter"@.len())
        &&& ("create_note_content"@.len() != "update_frontmatter"@.len())
        &&& ("create_note"@.len() != "update_frontmatter"@.len())
        &&& ("delete_note"@.len() != "update_frontmatter"@.len())
        &&& ("rename_note"@.len() != "update_frontmatter"@.len())
        &&& ("rename_note_filename"@.len() != "update_frontmatter"@.len())
        &&& ("save_note_content"@.len() != "delete_frontmatter_property"@.len())
        &&& ("create_note_content"@.len() != "delete_frontmatter_property"@.len())
        &&& ("create_note"@.len() != "delete_frontmatter_property"@.len())
        &&& ("delete_note"@.len() != "delete_frontmatter_property"@.len())
        &&& ("rename_note"@.len() != "delete_frontmatter_property"@.len())
        &&& ("rename_note_filename"@.len() != "delete_frontmatter_property"@.len())
        &&& ("update_frontmatter"@.len() != "delete_frontmatter_property"@.len())
        &&& ("save_note_content"@.len() != "create_vault_folder"@.len())
        &&& ("create_note_content"@[7] != "create_vault_folder"@[7])
        &&& ("create_note"@.len() != "create_vault_folder"@.len())
        &&& ("delete_note"@.len() != "create_vault_folder"@.len())
        &&& ("rename_note"@.len() != "create_vault_folder"@.len())
        &&& ("rename_note_filename"@.len() != "create_vault_folder"@.len())
        &&& ("update_frontmatter"@.len() != "create_vault_folder"@.len())
        &&& ("delete_frontmatter_property"@.len() != "create_vault_folder"@.len())
        &&& ("save_note_content"@.len() != "delete_vault_folder"@.len())
        &&& ("create_note_content"@[0] != "delete_vault_folder"@[0])
        &&& ("create_note"@.len() != "delete_vault_folder"@.len())
        &&& ("delete_note"@.len() != "delete_vault_folder"@.len())
        &&& ("rename_note"@.len() != "delete_vault_folder"@.len())
        &&& ("rename_note_filename"@.len() != "delete_vault_folder"@.len())
        &&& ("update_frontmatter"@.len() != "delete_vault_folder"@.len())
        &&& ("delete_frontmatter_property"@.len() != "delete_vault_folder"@.len())
        &&& ("create_vault_folder"@[0] != "delete_vault_folder"@[0])
        &&& ("save_note_content"@.len() != "rename_vault_folder"@.len())
        &&& ("create_note_content"@[0] != "rename_vault_folder"@[0])
        &&& ("create_note"@.len() != "rename_vault_folder"@.len())
        &&& ("delete_note"@.len() != "rename_vault_folder"@.len())
        &&& ("rename_note"@.len() != "rename_vault_folder"@.len())
        &&& ("rename_note_filename"@.len() != "rename_vault_folder"@.len())
        &&& ("update_frontmatter"@.len() != "rename_vault_folder"@.len())
        &&& ("delete_frontmatter_property"@.len() != "rename_vault_folder"@.len())
        &&& ("create_vault_folder"@[0] != "rename_vault_folder"@[0])
        &&& ("delete_vault_folder"@[0] != "rename_vault_folder"@[0])
        &&& ("save_note_content"@.len() != "move_note_to_folder"@.len())
        &&& ("create_note_content"@[0] != "move_note_to_folder"@[0])
        &&& ("create_note"@.len() != "move_note_to_folder"@.len())
        &&& ("delete_note"@.len() != "move_note_to_folder"@.len())
        &&& ("rename_note"@.len() != "move_note_to_folder"@.len())
        &&& ("rename_note_filename"@.len() != "move_note_to_folder"@.len())
        &&& ("update_frontmatter"@.len() != "move_note_to_folder"@.len())
        &&& ("delete_frontmatter_property"@.len() != "move_note_to_folder"@.len())
        &&& ("create_vault_folder"@[0] != "move_note_to_folder"@[0])
        &&& ("delete_vault_folder"@[0] != "move_note_to_folder"@[0])
        &&& ("rename_vault_folder"@[0] != "move_note_to_folder"@[0])
        &&& ("save_note_content"@.len() != "save_view_cmd"@.len())
        &&& ("create_note_content"@.len() != "save_view_cmd"@.len())
        &&& ("create_note"@.len() != "save_view_cmd"@.len())
        &&& ("delete_note"@.len() != "save_view_cmd"@.len())
        &&& ("rename_note"@.len() != "save_view_cmd"@.len())
        &&& ("rename_note_filename"@.len() != "save_view_cmd"@.len())
        &&& ("update_frontmatter"@.len() != "save_view_cmd"@.len())
        &&& ("delete_frontmatter_property"@.len() != "save_view_cmd"@.len())
        &&& ("create_vault_folder"@.len() != "save_view_cmd"@.len())
        &&& ("delete_vault_folder"@.len() != "save_view_cmd"@.len())
        &&& ("rename_vault_folder"@.len() != "save_view_cmd"@.len())
        &&& ("move_note_to_folder"@.len() != "save_view_cmd"@.len())
        &&& ("save_note_content"@.len() != "delete_view_cmd"@.len())
        &&& ("create_note_content"@.len() != "delete_view_cmd"@.len())
        &&& ("create_note"@.len() != "delete_view_cmd"@.len())
        &&& ("delete_note"@.len() != "delete_view_cmd"@.len())
        &&& ("rename_note"@.len() != "delete_view_cmd"@.len())
        &&& ("rename_note_filename"@.len() != "delete_view_cmd"@.len())
        &&& ("update_frontmatter"@.len() != "delete_view_cmd"@.len())
        &&& ("delete_frontmatter_property"@.len() != "delete_view_cmd"@.len())
        &&& ("create_vault_folder"@.len() != "delete_view_cmd"@.len())
        &&& ("delete_vault_folder"@.len() != "delete_view_cmd"@.len())
        &&& ("rename_vault_folder"@.len() != "delete_view_cmd"@.len())
        &&& ("move_note_to_folder"@.len() != "delete_view_cmd"@.len())
        &&& ("save_view_cmd"@.len() != "delete_view_cmd"@.len())
        &&& ("save_note_content"@[0] != "rename_attachment"@[0])
        &&& ("create_note_content"@.len() != "rename_attachment"@.len())
        &&& ("create_note"@.len() != "rename_attachment"@.len())
        &&& ("delete_note"@.len() != "rename_attachment"@.len())
        &&& ("rename_note"@.len() != "rename_attachment"@.len())
        &&& ("rename_note_filename"@.len() != "rename_attachment"@.len())
        &&& ("update_frontmatter"@.len() != "rename_attachment"@.len())
        &&& ("delete_frontmatter_property"@.len() != "rename_attachment"@.len())
        &&& ("create_vault_folder"@.len() != "rename_attachment"@.len())
        &&& ("delete_vault_folder"@.len() != "rename_attachment"@.len())
        &&& ("rename_vault_folder"@.len() != "rename_attachment"@.len())
        &&& ("move_note_to_folder"@.len() != "rename_attachment"@.len())
        &&& ("save_view_cmd"@.len() != "rename_attachment"@.len())
        &&& ("delete_view_cmd"@.len() != "rename_attachment"@.len())
    });
}

/// Each git command is served by the git operation of its own name,
/// whatever the arguments.
pub proof fn git_commands_keep_their_names(args: Json)
    ensures
        git_plan("git_commit"@, args) is Some && git_plan("git_commit"@, args)->0 is Commit,
        git_plan("git_push"@, args) is Some && git_plan("git_push"@, args)->0 is Push,
        git_plan("git_pull"@, args) is Some && git_plan("git_pull"@, args)->0 is Pull,
        git_plan("git_resolve_conflict"@, args) is Some && git_plan("git_resolve_conflict"@, args)->0 is ResolveConflict,
        git_plan("git_commit_conflict_resolution"@, args) is Some && git_plan("git_commit_conflict_resolution"@, args)->0 is CommitConflictResolution,
        git_plan("git_add_remote"@, args) is Some && git_plan("git_add_remote"@, args)->0 is AddRemote,
        git_plan("git_discard_file"@, args) is Some && git_plan("git_discard_file"@, args)->0 is DiscardFile,
        git_plan("init_git_repo"@, args) is Some && git_plan("init_git_repo"@, args)->0 is InitRepo,
{
    reveal_strlit("git_commit");
    reveal_strlit("git_push");
    reveal_strlit("git_pull");
    reveal_strlit("git_resolve_conflict");
    reveal_strlit("git_commit_conflict_resolution");
    reveal_strlit("git_add_remote");
    reveal_strlit("git_discard_file");
    reveal_strlit("init_git_repo");
    assert({
        &&& ("git_commit"@.len() != "git_push"@.len())
        &&& ("git_commit"@.len() != "git_pull"@.len())
        &&& ("git_push"@[6] != "git_pull"@[6])
        &&& ("git_commit"@.len() != "git_resolve_conflict"@.len())
        &&& ("git_push"@.len() != "git_resolve_conflict"@.len())
        &&& ("git_pull"@.len() != "git_resolve_conflict"@.len())
        &&& ("git_commit"@.len() != "git_commit_conflict_resolution"@.len())
        &&& ("git_push"@.len() != "git_commit_conflict_resolution"@.len())
        &&& ("git_pull"@.len() != "git_commit_conflict_resolution"@.len())
        &&& ("git_resolve_conflict"@.len() != "git_commit_conflict_resolution"@.len())
        &&& ("git_commit"@.len() != "git_add_remote"@.len())
        &&& ("git_push"@.len() != "git_add_remote"@.len())
        &&& ("git_pull"@.len() != "git_add_remote"@.len())
        &&& ("git_resolve_conflict"@.len() != "git_add_remote"@.len())
        &&& ("git_commit_conflict_resolution"@.len() != "git_add_remote"@.len())
        &&& ("git_commit"@.len() != "git_discard_file"@.len())
        &&& ("git_push"@.len() != "git_discard_file"@.len())
        &&& ("git_pull"@.len() != "git_discard_file"@.len())
        &&& ("git_resolve_conflict"@.len() != "git_discard_file"@.len())
        &&& ("git_commit_conflict_resolution"@.len() != "git_discard_file"@.len())
        &&& ("git_add_remote"@.len() != "git_discard_file"@.len())
        &&& ("git_commit"@.len() != "init_git_repo"@.len())
        &&& ("git_push"@.len() != "init_git_repo"@.len())
        &&& ("git_pull"@.len() != "init_git_repo"@.len())
        &&& ("git_resolve_conflict"@.len() != "init_git_repo"@.len())
        &&& ("git_commit_conflict_resolution"@.len() != "init_git_repo"@.len())
        &&& ("git_add_remote"@.len() != "init_git_repo"@.len())
        &&& ("git_discard_file"@.len() != "init_git_repo"@.len())
    });
}

} // verus!
