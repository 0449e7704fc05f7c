use tolaria::commit::{
    git_commit, git_commit_all_as, git_commit_paths_as, is_commit_signing_failure,
    is_nothing_to_commit, CommitAction, CommitFailure, CommitIdentity, FlowEvent, GitRun,
};

fn identity(name: &str, email: &str) -> CommitIdentity {
    CommitIdentity {
        author_name: name.into(),
        author_email: email.into(),
        committer_name: "Tolaria Server".into(),
        committer_email: "server@tolaria.local".into(),
    }
}

fn exited(success: bool, stdout: &str, stderr: &str) -> FlowEvent {
    FlowEvent::Ran(GitRun::Exited {
        success,
        stdout: stdout.into(),
        stderr: stderr.into(),
    })
}

fn run_args(action: &CommitAction) -> Vec<String> {
    match action {
        CommitAction::Run(inv) => inv.args.clone(),
        _ => panic!("expected a git run"),
    }
}

fn done(action: CommitAction) -> Result<String, String> {
    match action {
        CommitAction::Done(r) => r,
        _ => panic!("expected the flow to be over"),
    }
}

#[test]
fn test_commit_signing_failure_detection_is_specific() {
    assert!(is_commit_signing_failure(
        "error: cannot run gpg: No such file or directory\nfatal: failed to write commit object"
    ));
    assert!(!is_commit_signing_failure(
        "On branch main\nnothing to commit, working tree clean"
    ));
}

#[test]
fn git_commit_paths_as_uses_supplied_author_and_committer() {
    let id = identity("Alice", "alice@example.com");
    let mut flow = git_commit_paths_as("/vault", &["alice-note.md".into()], "add alice note", &id);
    let stage = flow.start();
    assert_eq!(run_args(&stage), vec!["add", "--", "alice-note.md"]);
    match &stage {
        CommitAction::Run(inv) => {
            assert_eq!(inv.dir, "/vault");
            assert!(inv.env.is_empty());
        }
        _ => unreachable!(),
    }
    let commit = flow.resume(exited(true, "", ""));
    assert_eq!(run_args(&commit), vec!["commit", "-m", "add alice note"]);
    match &commit {
        CommitAction::Run(inv) => {
            let env: Vec<(&str, &str)> =
                inv.env.iter().map(|(k, v)| (k.as_str(), v.as_str())).collect();
            assert_eq!(
                env,
                vec![
                    ("GIT_AUTHOR_NAME", "Alice"),
                    ("GIT_AUTHOR_EMAIL", "alice@example.com"),
                    ("GIT_COMMITTER_NAME", "Tolaria Server"),
                    ("GIT_COMMITTER_EMAIL", "server@tolaria.local"),
                ]
            );
        }
        _ => unreachable!(),
    }
    let out = done(flow.resume(exited(true, "[main abc123] add alice note\n", "")));
    assert_eq!(out, Ok("[main abc123] add alice note\n".to_string()));
}

#[test]
fn git_commit_paths_as_nothing_to_commit_is_ok_empty() {
    let id = identity("Bob", "bob@example.com");
    let mut flow = git_commit_paths_as("/vault", &["x.md".into()], "again", &id);
    let _stage = flow.start();
    let _commit = flow.resume(exited(true, "", ""));
    let again = done(flow.resume(exited(
        false,
        "On branch main\nnothing to commit, working tree clean\n",
        "",
    )));
    assert_eq!(again, Ok(String::new()));
}

#[test]
fn scoped_commit_without_paths_stages_nothing() {
    let id = identity("Bob", "bob@example.com");
    let mut flow = git_commit_paths_as("/vault", &[], "m", &id);
    assert_eq!(run_args(&flow.start()), vec!["commit", "-m", "m"]);
}

#[test]
fn scoped_commit_reports_a_failed_stage() {
    let id = identity("Bob", "bob@example.com");
    let mut flow = git_commit_paths_as("/vault", &["x.md".into()], "m", &id);
    let _ = flow.start();
    let out = done(flow.resume(exited(false, "", "fatal: pathspec 'x.md' did not match")));
    assert_eq!(
        out,
        Err("git add failed: fatal: pathspec 'x.md' did not match".to_string())
    );
    let mut flow = git_commit_paths_as("/vault", &["x.md".into()], "m", &id);
    let _ = flow.start();
    let out = done(flow.resume(FlowEvent::Ran(GitRun::SpawnFailed("not found".into()))));
    assert_eq!(out, Err("Failed to run git add: not found".to_string()));
}

#[test]
fn commit_all_as_stages_everything_and_reports_nothing_to_commit() {
    let id = identity("Eve E", "eve@example.com");
    let mut flow = git_commit_all_as("/vault", "add note", &id);
    assert_eq!(run_args(&flow.start()), vec!["add", "-A"]);
    let commit = flow.resume(exited(true, "", ""));
    assert_eq!(run_args(&commit), vec!["commit", "-m", "add note"]);
    let out = done(flow.resume(exited(false, "nothing to commit, working tree clean", "  ")));
    assert_eq!(
        out,
        Err("git commit failed: nothing to commit, working tree clean".to_string())
    );
}

#[test]
fn test_commit_nothing_to_commit_returns_error() {
    let mut flow = git_commit("/vault", "nothing here");
    assert_eq!(run_args(&flow.start()), vec!["add", "-A"]);
    assert!(matches!(flow.resume(exited(true, "", "")), CommitAction::EnsureAuthor));
    let commit = flow.resume(FlowEvent::AuthorReady(Ok(())));
    assert_eq!(run_args(&commit), vec!["commit", "-m", "nothing here"]);
    let result = done(flow.resume(exited(false, "nothing to commit, working tree clean\n", "")));
    assert!(result.is_err(), "Commit should fail when nothing to commit");
    assert!(result.unwrap_err().contains("nothing to commit"));
}

#[test]
fn test_git_commit_retries_without_signing_when_gpg_is_missing() {
    let mut flow = git_commit("/vault", "Commit with broken signing config");
    let _ = flow.start();
    let _ = flow.resume(exited(true, "", ""));
    let first = flow.resume(FlowEvent::AuthorReady(Ok(())));
    match &first {
        CommitAction::Run(inv) => assert!(inv.env.is_empty()),
        _ => unreachable!(),
    }
    let retry = flow.resume(exited(
        false,
        "",
        "error: cannot run gpg: No such file or directory\nfatal: failed to write commit object",
    ));
    assert_eq!(
        run_args(&retry),
        vec![
            "-c",
            "commit.gpgsign=false",
            "commit",
            "-m",
            "Commit with broken signing config"
        ]
    );
    let result = done(flow.resume(exited(true, "[main 1] Commit with broken signing config", "")));
    assert!(result.is_ok());
}

#[test]
fn plain_commit_reports_a_failed_unsigned_retry() {
    let mut flow = git_commit("/vault", "m");
    let _ = flow.start();
    let _ = flow.resume(exited(true, "", ""));
    let _ = flow.resume(FlowEvent::AuthorReady(Ok(())));
    let _ = flow.resume(exited(false, "", "gpg failed to sign the data"));
    let result = done(flow.resume(exited(false, "", "fatal: index.lock exists")));
    assert_eq!(
        result,
        Err("git commit signing failed; retried without signing but git commit still failed: fatal: index.lock exists".to_string())
    );
}

#[test]
fn plain_commit_stops_when_no_author_can_be_set() {
    let mut flow = git_commit("/vault", "m");
    let _ = flow.start();
    let _ = flow.resume(exited(true, "", ""));
    assert!(!flow.accepts(&exited(true, "", "")));
    let out = done(flow.resume(FlowEvent::AuthorReady(Err("no identity".into()))));
    assert_eq!(out, Err("no identity".to_string()));
}

#[test]
fn failure_detail_prefers_stderr_and_falls_back_to_stdout() {
    let f = CommitFailure {
        stdout: "  nothing to commit \n".into(),
        stderr: " \n".into(),
    };
    assert_eq!(f.detail(), "nothing to commit");
    let f = CommitFailure {
        stdout: "out".into(),
        stderr: "  err  ".into(),
    };
    assert_eq!(f.detail(), "err");
    assert!(is_nothing_to_commit("On branch main\nNOTHING TO COMMIT"));
    assert!(!is_nothing_to_commit("committed"));
    assert!(is_commit_signing_failure("error: gpg.ssh.allowedSignersFile needs to be configured"));
    assert!(is_commit_signing_failure("fatal: failed to write commit object (sign)"));
    assert!(!is_commit_signing_failure("fatal: failed to write commit object"));
}
