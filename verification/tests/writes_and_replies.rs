use tolaria::assets::{asset_headers, asset_request_path, SVG_POLICY};
use tolaria::commit::CommitIdentity;
use tolaria::hex::content_version;
use tolaria::json::Json;
use tolaria::replies::{
    all_content_reply, author_identity_reply, error_reply, same_vault, search_request,
    vault_label_of, vault_list_reply,
};
use tolaria::rpc::RpcError;
use tolaria::writes::{
    autogit_for, bad_arguments, check_base_hash, create_folder_path, create_reply, hash_reply,
    save_reply, stale_conflict, validate_view_filename, view_filename_arg, AutogitCommit,
    CommitScope, WriteDone,
};

fn text_of(j: &Json) -> &str {
    match j {
        Json::Text(s) => s.as_str(),
        _ => panic!("expected a string"),
    }
}

fn members(j: &Json) -> &Vec<(String, Json)> {
    match j {
        Json::Object(m) => m,
        _ => panic!("expected an object"),
    }
}

fn args(pairs: &[(&str, &str)]) -> Json {
    Json::Object(
        pairs
            .iter()
            .map(|(k, v)| (k.to_string(), Json::Text(v.to_string())))
            .collect(),
    )
}

fn frank() -> CommitIdentity {
    CommitIdentity {
        author_name: "Frank F".into(),
        author_email: "frank@example.com".into(),
        committer_name: "Tolaria Server".into(),
        committer_email: "server@tolaria.local".into(),
    }
}

#[test]
fn save_without_base_hash_writes_and_returns_version() {
    assert!(check_base_hash(None, Some(Ok("old".into()))).is_ok());
    let out = save_reply("new");
    let m = members(&out);
    assert_eq!(m.len(), 1);
    assert_eq!(m[0].0, "version");
    assert_eq!(text_of(&m[0].1), content_version("new"));
}

#[test]
fn save_with_matching_base_hash_succeeds() {
    let base = content_version("old");
    assert!(check_base_hash(Some(&base), Some(Ok("old".into()))).is_ok());
}

#[test]
fn save_with_stale_base_hash_conflicts_and_does_not_write() {
    let base = content_version("client-old");
    let err = check_base_hash(Some(&base), Some(Ok("server-changed".into()))).unwrap_err();
    assert_eq!(err.status, 409);
    assert_eq!(
        err.message,
        "{\"currentContent\":\"server-changed\",\"error\":\"conflict\"}"
    );
}

#[test]
fn first_save_with_a_base_hash_does_not_conflict() {
    assert!(check_base_hash(Some("anything"), None).is_ok());
    let err = check_base_hash(Some("x"), Some(Err("permission denied".into()))).unwrap_err();
    assert_eq!(err.status, 500);
    assert_eq!(err.message, "permission denied");
}

#[test]
fn stale_conflict_returns_the_current_content() {
    assert_eq!(stale_conflict(None, "x").unwrap(), None);
    assert_eq!(
        stale_conflict(Some(Ok("now".into())), "then").unwrap(),
        Some("now".to_string())
    );
    let v = content_version("now");
    assert_eq!(stale_conflict(Some(Ok("now".into())), &v).unwrap(), None);
}

#[test]
fn resaving_with_the_returned_version_is_accepted() {
    let reply = save_reply("draft two");
    let version = text_of(&members(&reply)[0].1).to_string();
    assert!(check_base_hash(Some(&version), Some(Ok("draft two".into()))).is_ok());
}

#[test]
fn create_note_content_writes_new_file() {
    let out = create_reply("/vault/new.md", "# New\n");
    let m = members(&out);
    assert_eq!(m[0].0, "path");
    assert_eq!(text_of(&m[0].1), "/vault/new.md");
    assert_eq!(m[1].0, "version");
    assert_eq!(text_of(&m[1].1), content_version("# New\n"));
}

#[test]
fn commit_reply_carries_the_hash() {
    let out = hash_reply("abc123".into());
    assert_eq!(members(&out)[0].0, "hash");
    assert_eq!(text_of(&members(&out)[0].1), "abc123");
}

#[test]
fn bad_arguments_is_400() {
    let e = bad_arguments("missing field `path`");
    assert_eq!(e.status, 400);
    assert_eq!(e.message, "bad arguments: missing field `path`");
}

#[test]
fn create_vault_folder_makes_the_dir_from_web_args() {
    assert_eq!(create_folder_path(&args(&[("folderName", "Projects")])).unwrap(), "Projects");
}

#[test]
fn create_vault_folder_with_parent_path_nests_under_parent() {
    assert_eq!(
        create_folder_path(&args(&[("folderName", "sub"), ("parentPath", "Projects")])).unwrap(),
        "Projects/sub"
    );
    assert_eq!(
        create_folder_path(&args(&[("folder_name", "sub"), ("parent_path", "")])).unwrap(),
        "sub"
    );
    assert_eq!(create_folder_path(&args(&[])).unwrap_err().status, 400);
}

#[test]
fn save_view_cmd_rejects_path_traversal_filename() {
    let err = validate_view_filename("../evil.yml").unwrap_err();
    assert_eq!(err.status, 400);
    assert_eq!(err.message, "invalid view filename");
    assert!(validate_view_filename("active.yml").is_ok());
    assert!(validate_view_filename("views/active.yml").is_err());
    assert!(validate_view_filename("..").is_err());
    assert!(validate_view_filename("").is_err());
}

#[test]
fn delete_view_cmd_reads_a_bare_filename() {
    assert_eq!(view_filename_arg(&args(&[("filename", "gone.yml")])).unwrap(), "gone.yml");
    assert_eq!(
        view_filename_arg(&args(&[("filename", "/etc/passwd")])).unwrap_err().message,
        "invalid view filename"
    );
}

fn paths_of(c: &AutogitCommit) -> Vec<String> {
    match &c.scope {
        CommitScope::Paths(p) => p.clone(),
        CommitScope::All => panic!("expected a scoped commit"),
    }
}

#[test]
fn save_auto_commits_the_file_as_acting_user() {
    let id = frank();
    let c = autogit_for(
        "/vault",
        &WriteDone::Saved { safe: "/vault/notes/auto.md".into() },
        Some(&id),
        true,
    )
    .expect("a commit follows the save");
    assert_eq!(paths_of(&c), vec!["notes/auto.md".to_string()]);
    assert_eq!(c.message, "update auto.md");
}

#[test]
fn delete_note_autogit_commits_the_removal() {
    let id = frank();
    let c = autogit_for("/vault", &WriteDone::Deleted { safe: "/vault/auto.md".into() }, Some(&id), true)
        .unwrap();
    assert_eq!(paths_of(&c), vec!["auto.md".to_string()]);
    assert_eq!(c.message, "delete auto.md");
}

#[test]
fn rename_note_does_not_autogit_when_identity_is_none() {
    let done = WriteDone::NoteRenamed { new_title: "New Title".into() };
    assert!(autogit_for("/vault", &done, None, true).is_none());
    let id = frank();
    assert!(autogit_for("/vault", &done, Some(&id), false).is_none());
    let c = autogit_for("/vault", &done, Some(&id), true).unwrap();
    assert!(matches!(c.scope, CommitScope::All));
    assert_eq!(c.message, "rename note to New Title");
}

#[test]
fn autogit_messages_name_the_change() {
    let id = frank();
    let msg = |d: WriteDone| autogit_for("/vault", &d, Some(&id), true).unwrap().message;
    assert_eq!(msg(WriteDone::Created { safe: "/vault/a.md".into() }), "create a.md");
    assert_eq!(
        msg(WriteDone::FrontmatterUpdated { safe: "/vault/a.md".into() }),
        "update frontmatter on a.md"
    );
    assert_eq!(
        msg(WriteDone::FrontmatterDeleted { safe: "/vault/a.md".into() }),
        "delete frontmatter property on a.md"
    );
    assert_eq!(msg(WriteDone::NoteFileRenamed { new_stem: "new-stem".into() }), "rename note file to new-stem");
    assert_eq!(msg(WriteDone::FolderCreated { created: "Projects/sub".into() }), "create folder Projects/sub");
    assert_eq!(msg(WriteDone::FolderDeleted { folder: "Projects".into() }), "delete folder Projects");
    assert_eq!(msg(WriteDone::FolderRenamed { folder: "Projects".into() }), "rename folder Projects");
    assert_eq!(msg(WriteDone::NoteMoved), "move note to folder");
    assert_eq!(msg(WriteDone::ViewSaved { filename: "a.yml".into() }), "save view a.yml");
    assert_eq!(msg(WriteDone::ViewDeleted { filename: "a.yml".into() }), "delete view a.yml");
    assert_eq!(
        msg(WriteDone::AttachmentRenamed { new_name: "diagram.png".into() }),
        "rename attachment to diagram.png"
    );
}

#[test]
fn load_vault_list_returns_server_vault_as_active() {
    let out = vault_list_reply("/srv/notes");
    let m = members(&out);
    assert_eq!(m[1].0, "active_vault");
    assert_eq!(text_of(&m[1].1), "/srv/notes");
    match &m[0].1 {
        Json::Array(vaults) => {
            let v = members(&vaults[0]);
            assert_eq!(text_of(&v[0].1), "notes");
            assert_eq!(text_of(&v[1].1), "/srv/notes");
        }
        _ => panic!("vaults is an array"),
    }
    assert!(matches!(&m[2].1, Json::Array(h) if h.is_empty()));
    assert_eq!(vault_label_of("/"), "/");
}

#[test]
fn check_vault_exists_true_for_server_vault_false_otherwise() {
    assert!(same_vault(Some("/srv/vault".into()), Some("/srv/vault".into())));
    assert!(same_vault(Some("/srv/vault/".into()), Some("/srv/vault".into())));
    assert!(!same_vault(Some("/srv/other".into()), Some("/srv/vault".into())));
    assert!(!same_vault(None, Some("/srv/vault".into())));
    assert!(!same_vault(Some("/srv/vault".into()), None));
}

#[test]
fn get_all_content_returns_object_with_note() {
    let out = all_content_reply(vec![
        ("/v/a.md".into(), Some("# A".into())),
        ("/v/b.md".into(), None),
        ("/v/c.md".into(), Some("# C".into())),
    ]);
    let m = members(&out);
    assert_eq!(m.len(), 2);
    assert_eq!(m[0].0, "/v/a.md");
    assert_eq!(text_of(&m[0].1), "# A");
    assert_eq!(m[1].0, "/v/c.md");
}

#[test]
fn search_defaults_to_twenty_keyword_hits() {
    let r = search_request("alpha".into(), None, None);
    assert_eq!(r.query, "alpha");
    assert_eq!(r.mode, "keyword");
    assert_eq!(r.limit, 20);
    assert!(r.hide_gitignored_files);
    assert!(!r.exclude_frontmatter);
    let r = search_request("b".into(), Some(3), Some(true));
    assert_eq!(r.limit, 3);
    assert!(r.exclude_frontmatter);
}

#[test]
fn git_author_identity_over_http_returns_session_user() {
    let id = frank();
    let out = author_identity_reply(Some(&id)).unwrap();
    let m = members(&out);
    assert_eq!(text_of(&m[0].1), "Frank F");
    assert_eq!(text_of(&m[1].1), "frank@example.com");
    assert_eq!(text_of(&m[2].1), "web-session");
    assert!(matches!(m[3].1, Json::Null));
}

#[test]
fn git_author_identity_without_session_is_401() {
    let e = author_identity_reply(None).unwrap_err();
    assert_eq!(e.status, 401);
    assert_eq!(e.message, "not authenticated");
}

#[test]
fn errors_render_as_an_error_object() {
    let (status, body) = error_reply(&RpcError { status: 400, message: "bad".into() });
    assert_eq!(status, 400);
    assert_eq!(members(&body)[0].0, "error");
    assert_eq!(text_of(&members(&body)[0].1), "bad");
}

#[test]
fn serves_vault_image_with_type_and_nosniff() {
    let h = asset_headers("/v/attachments/a.png").unwrap();
    assert_eq!(
        h,
        vec![
            ("content-type", "image/png"),
            ("x-content-type-options", "nosniff"),
            ("cache-control", "private, no-cache"),
        ]
    );
}

#[test]
fn svg_is_served_sandboxed() {
    let h = asset_headers("/v/a.svg").unwrap();
    assert_eq!(h.len(), 4);
    assert_eq!(h[3], ("content-security-policy", SVG_POLICY));
}

#[test]
fn refuses_non_image_files_inside_the_vault() {
    assert!(asset_headers("/v/note.md").is_none());
    assert!(asset_headers("/v/users.db").is_none());
}

#[test]
fn asset_paths_get_exactly_one_leading_slash() {
    assert_eq!(asset_request_path("v/a.png"), "/v/a.png");
    assert_eq!(asset_request_path("///v/a.png"), "/v/a.png");
    assert_eq!(asset_request_path(""), "/");
}
