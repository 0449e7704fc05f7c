use tolaria::commands::{
    commit_hash_arg, is_git_command, is_write_command, plan_git, plan_read, route_command,
    GitCommand, GitFileRead, ReadCommand, Route,
};
use tolaria::containment::{
    asset_file, contained_existing_folder, contained_note_path, contained_note_path_for_write,
    folder_candidate, vault_file_path, write_parent, VaultFile,
};
use tolaria::json::{arg_u64, file_path_arg, str_arg, Json, JsonNumber};
use tolaria::paths::{file_label, join, parent, rel_path, strip_prefix};
use tolaria::rpc::{conflict_error, unsupported};

fn text(s: &str) -> Json {
    Json::Text(s.to_string())
}

fn obj(members: &[(&str, Json)]) -> Json {
    Json::Object(
        members
            .iter()
            .map(|(k, v)| (k.to_string(), clone_json(v)))
            .collect(),
    )
}

fn clone_json(j: &Json) -> Json {
    match j {
        Json::Null => Json::Null,
        Json::Bool(b) => Json::Bool(*b),
        Json::Number(JsonNumber::Unsigned(n)) => Json::Number(JsonNumber::Unsigned(*n)),
        Json::Number(JsonNumber::Negative(n)) => Json::Number(JsonNumber::Negative(*n)),
        Json::Number(JsonNumber::Fractional) => Json::Number(JsonNumber::Fractional),
        Json::Text(s) => Json::Text(s.clone()),
        Json::Array(v) => Json::Array(v.iter().map(clone_json).collect()),
        Json::Object(m) => Json::Object(m.iter().map(|(k, v)| (k.clone(), clone_json(v))).collect()),
    }
}

#[test]
fn str_arg_accepts_camel_and_snake() {
    let camel = obj(&[("filePath", text("a.md"))]);
    let snake = obj(&[("file_path", text("b.md"))]);
    assert_eq!(str_arg(&camel, "filePath", "file_path").unwrap(), "a.md");
    assert_eq!(str_arg(&snake, "filePath", "file_path").unwrap(), "b.md");
    assert!(str_arg(&obj(&[]), "filePath", "file_path").is_err());
    assert_eq!(
        arg_u64(&obj(&[("limit", Json::Number(JsonNumber::Unsigned(5)))]), "limit", 20),
        5
    );
    assert_eq!(arg_u64(&obj(&[]), "limit", 20), 20);
}

#[test]
fn missing_string_arg_names_both_keys() {
    let err = str_arg(&obj(&[("filePath", Json::Bool(true))]), "filePath", "file_path").unwrap_err();
    assert_eq!(err.status, 400);
    assert_eq!(err.message, "missing string arg 'filePath'/'file_path'");
    assert_eq!(arg_u64(&obj(&[("limit", Json::Number(JsonNumber::Negative(-3)))]), "limit", 20), 20);
    assert_eq!(arg_u64(&obj(&[("limit", text("5"))]), "limit", 20), 20);
    assert_eq!(arg_u64(&Json::Null, "limit", 7), 7);
}

#[test]
fn file_path_arg_prefers_path() {
    let both = obj(&[("filePath", text("b.md")), ("path", text("a.md"))]);
    assert_eq!(file_path_arg(&both).unwrap(), "a.md");
    assert_eq!(file_path_arg(&obj(&[("filePath", text("c.md"))])).unwrap(), "c.md");
    assert_eq!(
        file_path_arg(&obj(&[])).unwrap_err().message,
        "missing string arg 'filePath'/'file_path'"
    );
}

#[test]
fn unsupported_is_501_with_message() {
    let err = unsupported("save_note_content");
    assert_eq!(err.status, 501);
    assert!(err.message.contains("save_note_content"));
    assert!(err.message.contains("not supported on web"));
}

#[test]
fn unsupported_command_errors_501() {
    let err = plan_read("save_note_content", &obj(&[])).unwrap_err();
    assert_eq!(err.status, 501);
    assert_eq!(err.message, "command 'save_note_content' is not supported on web");
}

#[test]
fn read_table_covers_vault_and_git_reads() {
    let none = obj(&[]);
    assert_eq!(plan_read("list_vault", &none).unwrap(), ReadCommand::ListVault);
    assert_eq!(plan_read("reload_vault", &none).unwrap(), ReadCommand::ListVault);
    assert_eq!(plan_read("get_note_content", &none).unwrap(), ReadCommand::GetNoteContent);
    assert_eq!(plan_read("save_vault_list", &none).unwrap(), ReadCommand::Unchanged);
    assert_eq!(plan_read("is_git_repo", &none).unwrap(), ReadCommand::IsGitRepo);
    assert_eq!(
        plan_read("get_vault_pulse", &none).unwrap(),
        ReadCommand::VaultPulse { limit: 30, skip: 0 }
    );
    let paged = obj(&[
        ("limit", Json::Number(JsonNumber::Unsigned(5))),
        ("skip", Json::Number(JsonNumber::Unsigned(10))),
    ]);
    assert_eq!(
        plan_read("get_vault_pulse", &paged).unwrap(),
        ReadCommand::VaultPulse { limit: 5, skip: 10 }
    );
    assert_eq!(
        plan_read("get_file_diff_at_commit", &none).unwrap(),
        ReadCommand::GitFile(GitFileRead::DiffAtCommit)
    );
    assert_eq!(
        plan_read("git_file_url", &none).unwrap(),
        ReadCommand::GitFile(GitFileRead::Url)
    );
    assert_eq!(plan_read("git_commit", &none).unwrap_err().status, 501);
}

#[test]
fn commit_hash_arg_accepts_both_casings() {
    assert_eq!(commit_hash_arg(&obj(&[("commit_hash", text("abc"))])).unwrap(), "abc");
    assert_eq!(commit_hash_arg(&obj(&[])).unwrap_err().status, 400);
}

#[test]
fn get_file_diff_rejects_relative_traversal_path() {
    let err = vault_file_path("/vault", "../../etc/passwd").err().unwrap();
    assert_eq!(err.status, 400);
    assert_eq!(err.message, "path is outside the vault");
}

#[test]
fn relative_git_paths_resolve_under_the_vault() {
    match vault_file_path("/vault", "notes/a.md").ok().unwrap() {
        VaultFile::Resolved(p) => assert_eq!(p, "/vault/notes/a.md"),
        VaultFile::CheckContainment => panic!("relative path needs no containment check"),
    }
    assert!(matches!(
        vault_file_path("/vault", "/vault/a.md").ok().unwrap(),
        VaultFile::CheckContainment
    ));
    assert!(vault_file_path("/vault", "a/..b/c.md").is_ok());
}

#[test]
fn get_note_content_rejects_path_outside_vault() {
    let err = contained_note_path(Ok("/vault".into()), Some("/elsewhere/evil.md".into())).unwrap_err();
    assert_eq!(err.status, 400);
    assert_eq!(err.message, "path is outside the vault");
    let err = contained_note_path(Ok("/vault".into()), Some("/vaultx/a.md".into())).unwrap_err();
    assert_eq!(err.status, 400);
    let err = contained_note_path(Ok("/vault".into()), None).unwrap_err();
    assert_eq!(err.message, "path does not exist or is invalid");
    let err = contained_note_path(Err("gone".into()), Some("/vault/a.md".into())).unwrap_err();
    assert_eq!(err.status, 500);
    assert_eq!(err.message, "vault root error: gone");
    assert_eq!(
        contained_note_path(Ok("/vault".into()), Some("/vault/a.md".into())).unwrap(),
        "/vault/a.md"
    );
}

#[test]
fn contained_file_rejects_directories_and_escapes() {
    let root = Some("/v/vault".to_string());
    assert_eq!(
        asset_file(root.clone(), Some("/v/vault/attachments/a.png".into()), true),
        Some("/v/vault/attachments/a.png".to_string())
    );
    assert_eq!(asset_file(root.clone(), Some("/v/vault/attachments".into()), false), None);
    assert_eq!(asset_file(root.clone(), Some("/v/b.png".into()), true), None);
    assert_eq!(asset_file(root, None, true), None);
}

#[test]
fn write_targets_are_confined_by_their_parent() {
    assert_eq!(write_parent("/vault/sub/new.md"), "/vault/sub");
    assert_eq!(write_parent("new.md"), "");
    assert_eq!(
        contained_note_path_for_write(Ok("/vault".into()), Some("/vault/sub".into()), "/vault/sub/new.md")
            .unwrap(),
        "/vault/sub/new.md"
    );
    let err = contained_note_path_for_write(Ok("/vault".into()), Some("/tmp".into()), "/tmp/x.md")
        .unwrap_err();
    assert_eq!(err.message, "path is outside the vault");
    let err = contained_note_path_for_write(Ok("/vault".into()), None, "/nope/x.md").unwrap_err();
    assert_eq!(err.message, "path parent is invalid");
    let err = contained_note_path_for_write(Ok("/vault".into()), Some("/vault".into()), "/vault/..")
        .unwrap_err();
    assert_eq!(err.message, "invalid file name");
}

#[test]
fn move_destination_must_be_an_existing_folder_inside() {
    assert_eq!(folder_candidate("/vault", "Archive"), "/vault/Archive");
    assert_eq!(folder_candidate("/vault", "/abs/Archive"), "/abs/Archive");
    assert_eq!(
        contained_existing_folder(Some("/vault/Archive".into()), Ok("/vault".into()), true).unwrap(),
        "/vault/Archive"
    );
    assert_eq!(
        contained_existing_folder(Some("/other".into()), Ok("/vault".into()), true)
            .unwrap_err()
            .message,
        "destination folder is outside the vault"
    );
    assert_eq!(
        contained_existing_folder(Some("/vault/a.md".into()), Ok("/vault".into()), false)
            .unwrap_err()
            .message,
        "destination is not a folder"
    );
    assert_eq!(
        contained_existing_folder(None, Ok("/vault".into()), true).unwrap_err().message,
        "destination folder does not exist"
    );
}

#[test]
fn path_helpers_follow_std_path() {
    assert_eq!(join("/vault", "a.md"), "/vault/a.md");
    assert_eq!(join("/vault/", "a.md"), "/vault/a.md");
    assert_eq!(join("/vault", "/abs.md"), "/abs.md");
    assert_eq!(parent("/vault/a.md"), Some("/vault".to_string()));
    assert_eq!(parent("/"), None);
    assert_eq!(strip_prefix("/vault/sub/a.md", "/vault"), Some("sub/a.md".to_string()));
    assert_eq!(strip_prefix("/other/a.md", "/vault"), None);
    assert_eq!(rel_path("/vault", "/vault/sub/a.md"), "sub/a.md");
    assert_eq!(rel_path("/vault", "/other/a.md"), "/other/a.md");
    assert_eq!(file_label("/vault/sub/a.md"), "a.md");
    assert_eq!(file_label("/"), "");
}

#[test]
fn routing_checks_csrf_first() {
    assert_eq!(route_command(false, "list_vault"), Route::Forbidden);
    assert_eq!(route_command(false, "git_author_identity"), Route::Forbidden);
    assert_eq!(route_command(true, "git_author_identity"), Route::AuthorIdentity);
    assert_eq!(route_command(true, "git_push"), Route::Git);
    assert_eq!(route_command(true, "save_note_content"), Route::Write);
    assert_eq!(route_command(true, "list_vault"), Route::Read);
    assert!(is_git_command("init_git_repo"));
    assert!(!is_git_command("git_remote_status"));
    assert!(is_write_command("delete_view_cmd"));
    assert!(is_write_command("rename_attachment"));
    assert!(!is_write_command("rename_attachments"));
}

#[test]
fn git_add_remote_reads_the_nested_request() {
    let nested = obj(&[("request", obj(&[("remoteUrl", text("https://example.com/r.git"))]))]);
    match plan_git("git_add_remote", &nested).unwrap() {
        GitCommand::AddRemote { url } => assert_eq!(url, "https://example.com/r.git"),
        _ => panic!("expected add-remote"),
    }
    let flat = obj(&[("remote_url", text("git@host:r.git"))]);
    match plan_git("git_add_remote", &flat).unwrap() {
        GitCommand::AddRemote { url } => assert_eq!(url, "git@host:r.git"),
        _ => panic!("expected add-remote"),
    }
    assert_eq!(plan_git("git_add_remote", &obj(&[])).unwrap_err().status, 400);
}

#[test]
fn git_discard_file_missing_arg_is_bad_request() {
    let err = plan_git("git_discard_file", &obj(&[])).unwrap_err();
    assert_eq!(err.status, 400);
    assert_eq!(err.message, "missing string arg 'filePath'/'file_path'");
}

#[test]
fn git_discard_file_discards_relative_path() {
    match plan_git("git_discard_file", &obj(&[("relativePath", text("note.md"))])).unwrap() {
        GitCommand::DiscardFile { path } => assert_eq!(path, "note.md"),
        _ => panic!("expected discard"),
    }
    match plan_git("git_discard_file", &obj(&[("file_path", text("b.md"))])).unwrap() {
        GitCommand::DiscardFile { path } => assert_eq!(path, "b.md"),
        _ => panic!("expected discard"),
    }
    assert!(matches!(plan_git("init_git_repo", &Json::Null).unwrap(), GitCommand::InitRepo));
    assert_eq!(plan_git("list_vault", &Json::Null).unwrap_err().status, 501);
}

#[test]
fn conflict_body_carries_the_current_content() {
    let e = conflict_error("server \"changed\"");
    assert_eq!(e.status, 409);
    assert_eq!(
        e.message,
        "{\"currentContent\":\"server \\\"changed\\\"\",\"error\":\"conflict\"}"
    );
}

#[test]
fn conflict_body_escapes_control_characters() {
    let e = conflict_error("a\\b\n\t\u{1}\u{1f}\u{7f}é");
    assert_eq!(
        e.message,
        "{\"currentContent\":\"a\\\\b\\n\\t\\u0001\\u001f\u{7f}é\",\"error\":\"conflict\"}"
    );
}

#[test]
fn get_last_vault_path_returns_server_vault() {
    assert_eq!(
        plan_read("get_last_vault_path", &obj(&[("vaultPath", text("/elsewhere"))])).unwrap(),
        ReadCommand::GetLastVaultPath
    );
}
