use tolaria::config::{autogit_enabled, committer_identity, AppStateConfig, ServerConfig};
use tolaria::csrf::{generate_token, verify};
use tolaria::hex::content_version;
use tolaria::paths::image_content_type;
use tolaria::users::{
    acting_user, check_credentials, check_useradd_input, new_user_row, run_useradd,
    user_row_with_salt, StoredUser, UserRecord,
};

fn config_from(vault: Option<&str>, port: Option<&str>, secure: Option<&str>) -> Result<ServerConfig, String> {
    ServerConfig::from_lookup(
        vault.map(String::from),
        None,
        None,
        port.map(String::from),
        None,
        secure.map(String::from),
    )
}

#[test]
fn only_image_extensions_have_a_content_type() {
    assert_eq!(image_content_type("/v/a.PNG"), Some("image/png"));
    assert_eq!(image_content_type("/v/a.jpeg"), Some("image/jpeg"));
    assert_eq!(image_content_type("/v/a.svg"), Some("image/svg+xml"));
    assert_eq!(image_content_type("/v/a.md"), None);
    assert_eq!(image_content_type("/v/users.db"), None);
    assert_eq!(image_content_type("/v/noext"), None);
}

#[test]
fn more_image_types_and_dotfiles() {
    assert_eq!(image_content_type("/v/a.JPG"), Some("image/jpeg"));
    assert_eq!(image_content_type("/v/a.gif"), Some("image/gif"));
    assert_eq!(image_content_type("/v/a.webp"), Some("image/webp"));
    assert_eq!(image_content_type("/v/a.avif"), Some("image/avif"));
    assert_eq!(image_content_type("/v/a.bmp"), Some("image/bmp"));
    assert_eq!(image_content_type("/v/a.ico"), Some("image/x-icon"));
    assert_eq!(image_content_type("/v/.png"), None);
    assert_eq!(image_content_type("/v/a.tar.png"), Some("image/png"));
    assert_eq!(image_content_type("/v/dir.png/"), Some("image/png"));
}

#[test]
fn requires_vault_path() {
    assert!(config_from(None, None, None).is_err());
    assert_eq!(
        config_from(None, None, None).unwrap_err(),
        "TOLARIA_VAULT_PATH is required"
    );
}

#[test]
fn defaults_host_port_static_dir() {
    let cfg = config_from(Some("/vault"), None, None).unwrap();
    assert_eq!(cfg.vault_path, "/vault");
    assert_eq!(cfg.static_dir, "/app/dist");
    assert_eq!(cfg.listen_addr, "0.0.0.0:8787");
}

#[test]
fn rejects_bad_address() {
    let err = config_from(Some("/vault"), Some("notaport"), None).unwrap_err();
    assert_eq!(
        err,
        "invalid listen address 0.0.0.0:notaport: invalid socket address syntax"
    );
}

#[test]
fn listen_address_follows_socket_address_syntax() {
    assert!(config_from(Some("/vault"), Some("65535"), None).is_ok());
    assert!(config_from(Some("/vault"), Some("65536"), None).is_err());
    assert!(config_from(Some("/vault"), Some(""), None).is_err());
    let host = |h: &str| {
        ServerConfig::from_lookup(Some("/v".into()), None, Some(h.into()), None, None, None)
    };
    assert!(host("127.0.0.1").is_ok());
    assert!(host("localhost").is_err());
    assert!(host("256.0.0.1").is_err());
    assert!(host("01.2.3.4").is_err());
    assert!(host("1.2.3").is_err());
    assert!(host("[::1]").is_ok());
}

#[test]
fn defaults_users_db_and_cookie_secure() {
    let cfg = config_from(Some("/vault"), None, None).unwrap();
    assert_eq!(cfg.users_db_path, "/app/data/users.db");
    assert!(cfg.cookie_secure);
}

#[test]
fn cookie_secure_can_be_disabled() {
    let cfg = config_from(Some("/vault"), None, Some("false")).unwrap();
    assert!(!cfg.cookie_secure);
    let cfg = config_from(Some("/vault"), None, Some("0")).unwrap();
    assert!(!cfg.cookie_secure);
    let cfg = config_from(Some("/vault"), None, Some("no")).unwrap();
    assert!(cfg.cookie_secure);
}

#[test]
fn listen_address_takes_host_and_port() {
    let cfg = ServerConfig::from_lookup(
        Some("/vault".into()),
        Some("/srv/dist".into()),
        Some("127.0.0.1".into()),
        Some("9000".into()),
        Some("/data/u.db".into()),
        None,
    )
    .unwrap();
    assert_eq!(cfg.listen_addr, "127.0.0.1:9000");
    assert_eq!(cfg.static_dir, "/srv/dist");
    assert_eq!(cfg.users_db_path, "/data/u.db");
}

#[test]
fn committer_identity_defaults_when_unset() {
    let (name, email) = committer_identity(None, None);
    assert_eq!(name, "Tolaria Server");
    assert_eq!(email, "server@tolaria.local");
}

#[test]
fn committer_identity_reads_env_overrides() {
    let (name, email) = committer_identity(Some("Custom Bot".into()), Some("bot@example.com".into()));
    assert_eq!(name, "Custom Bot");
    assert_eq!(email, "bot@example.com");
}

#[test]
fn autogit_enabled_defaults_true_when_unset() {
    assert!(autogit_enabled(None));
}

#[test]
fn autogit_enabled_false_for_false_or_zero() {
    assert!(!autogit_enabled(Some("false")));
    assert!(!autogit_enabled(Some("0")));
    assert!(autogit_enabled(Some("true")));
}

#[test]
fn matching_passes() {
    assert!(verify(Some("abc"), Some("abc")));
}

#[test]
fn mismatch_fails() {
    assert!(!verify(Some("abc"), Some("xyz")));
}

#[test]
fn missing_header_fails() {
    assert!(!verify(Some("abc"), None));
}

#[test]
fn missing_cookie_fails() {
    assert!(!verify(None, Some("abc")));
}

#[test]
fn empty_cookie_fails_even_if_header_matches() {
    assert!(!verify(Some(""), Some("")));
}

#[test]
fn token_is_64_hex() {
    let t = generate_token().expect("random source");
    assert_eq!(t.len(), 64);
    assert!(t.chars().all(|c| c.is_ascii_hexdigit()));
}

#[test]
fn tokens_are_unique() {
    assert_ne!(generate_token().unwrap(), generate_token().unwrap());
}

#[test]
fn stable_and_lowercase_hex_64() {
    let v = content_version("hello");
    assert_eq!(v, content_version("hello"));
    assert_eq!(v.len(), 64);
    assert!(v.chars().all(|c| c.is_ascii_hexdigit() && !c.is_ascii_uppercase()));
}

#[test]
fn differs_on_change() {
    assert_ne!(content_version("a"), content_version("b"));
}

#[test]
fn known_vector() {
    // sha256("") = e3b0c442...
    assert_eq!(&content_version("")[..8], "e3b0c442");
}

#[test]
fn full_known_vectors() {
    assert_eq!(
        content_version(""),
        "e3b0c44298fc1c149afbf4c8996fb92427ae41e4649b934ca495991b7852b855"
    );
    assert_eq!(
        content_version("hello"),
        "2cf24dba5fb0a30e26e83b2ac5b9e29e1b161e5c1fa7425e73043362938b9824"
    );
}

fn stored(id: i64, username: &str, password: &str, git_name: &str, git_email: &str) -> StoredUser {
    let row = new_user_row(username, password, git_name, git_email).unwrap();
    StoredUser {
        id,
        username: row.username,
        password_hash: row.password_hash,
        git_name: row.git_name,
        git_email: row.git_email,
    }
}

#[test]
fn create_then_verify_correct_password() {
    let row = stored(1, "alice", "s3cret", "Alice", "alice@example.com");
    let user = check_credentials(Some(row), "s3cret").expect("correct password verifies");
    assert_eq!(user.username, "alice");
    assert_eq!(user.git_email, "alice@example.com");
}

#[test]
fn wrong_password_rejected() {
    let row = stored(2, "bob", "right", "Bob", "bob@example.com");
    assert!(check_credentials(Some(row), "wrong").is_none());
}

#[test]
fn unknown_user_rejected() {
    assert!(check_credentials(None, "x").is_none());
}

#[test]
fn password_is_hashed_not_plaintext() {
    let row = new_user_row("dave", "plaintextpw", "Dave", "d@example.com").unwrap();
    assert!(
        row.password_hash.starts_with("$argon2"),
        "stored hash must be argon2 PHC string"
    );
    assert!(!row.password_hash.contains("plaintextpw"));
}

#[test]
fn run_useradd_creates_verifiable_user() {
    let row = run_useradd("eve", "pw12345", "Eve", "eve@example.com").unwrap();
    let stored = StoredUser {
        id: 5,
        username: row.username,
        password_hash: row.password_hash,
        git_name: row.git_name,
        git_email: row.git_email,
    };
    assert!(check_credentials(Some(stored), "pw12345").is_some());
}

#[test]
fn run_useradd_rejects_empty_password() {
    assert!(run_useradd("eve", "", "Eve", "eve@example.com").is_err());
    assert!(check_useradd_input("eve", "", "eve@example.com").is_err());
}

#[test]
fn run_useradd_rejects_empty_git_email() {
    assert!(run_useradd("eve", "pw", "Eve", "").is_err());
    assert_eq!(
        check_useradd_input("  ", "pw", "e@x").unwrap_err(),
        "username, password, and git email must not be empty"
    );
    assert!(check_useradd_input("eve", "pw", "e@x").is_ok());
}

fn server_config() -> AppStateConfig {
    AppStateConfig {
        cookie_secure: false,
        committer_name: "Tolaria Server".to_string(),
        committer_email: "server@tolaria.local".to_string(),
        autogit: true,
    }
}

#[test]
fn acting_user_resolves_author_from_session() {
    let user = UserRecord {
        id: 1,
        username: "dora".into(),
        git_name: "Dora D".into(),
        git_email: "dora@example.com".into(),
    };
    let id = acting_user(Some(&user), &server_config()).expect("resolves");
    assert_eq!(id.author_name, "Dora D");
    assert_eq!(id.author_email, "dora@example.com");
    assert_eq!(id.committer_name, "Tolaria Server");
    assert_eq!(id.committer_email, "server@tolaria.local");
}

#[test]
fn acting_user_none_without_session() {
    assert!(acting_user(None, &server_config()).is_none());
}

#[test]
fn account_rows_report_a_missing_salt() {
    let err = user_row_with_salt("eve", "pw", "Eve", "e@x", Err("no entropy".into())).unwrap_err();
    assert_eq!(err, "hash: no entropy");
    let row = user_row_with_salt("eve", "pw", "Eve", "e@x", Ok(vec![7u8; 16])).unwrap();
    let stored = StoredUser {
        id: 1,
        username: row.username,
        password_hash: row.password_hash,
        git_name: row.git_name,
        git_email: row.git_email,
    };
    assert!(stored.password_hash.starts_with("$argon2id$"));
    assert!(check_credentials(Some(stored), "pw").is_some());
}

#[test]
fn the_hash_is_fixed_by_password_and_salt() {
    let a = user_row_with_salt("eve", "pw", "Eve", "e@x", Ok(vec![1u8; 16])).unwrap();
    let b = user_row_with_salt("eve", "pw", "Eve", "e@x", Ok(vec![1u8; 16])).unwrap();
    let c = user_row_with_salt("eve", "pw", "Eve", "e@x", Ok(vec![2u8; 16])).unwrap();
    assert_eq!(a.password_hash, b.password_hash);
    assert_ne!(a.password_hash, c.password_hash);
    assert!(a.password_hash.starts_with("$argon2id$v=19$m=19456,t=2,p=1$"));
}
