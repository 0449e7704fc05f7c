//! Server-side git commits: the identity a commit is made under, how a
//! failed `git commit` is read, and the retry policy around signing
//! failures. Running git itself is the caller's job: each function here
//! takes what git reported and says what to do next.

use vstd::prelude::*;
use crate::text_support::{
    chars_of, concat, lower_all, lower_contains, lower_seq, seq_contains, string_of,
    trim_chars, trimmed,
};

verus! {

/// Author + committer identities applied to a server-side commit. The author
/// is the acting user; the committer is a fixed server identity.
#[derive(Debug, Clone)]
pub struct CommitIdentity {
    pub author_name: String,
    pub author_email: String,
    pub committer_name: String,
    pub committer_email: String,
}

/// The captured output of a `git commit` that did not succeed.
#[derive(Debug, Clone)]
pub struct CommitFailure {
    pub stdout: String,
    pub stderr: String,
}

/// The text that explains a failed commit: git writes "nothing to commit" to
/// stdout, so stdout is used when stderr holds only whitespace.
pub open spec fn failure_detail(stdout: Seq<char>, stderr: Seq<char>) -> Seq<char> {
    if trimmed(stderr).len() == 0 {
        trimmed(stdout)
    } else {
        trimmed(stderr)
    }
}

impl CommitFailure {
    /// Trimmed stderr, or trimmed stdout when stderr is blank.
    pub fn detail(&self) -> (d: String)
        ensures
            d@ == failure_detail(self.stdout@, self.stderr@),
    {
        let err = trim_chars(chars_of(self.stderr.as_str()).as_slice());
        if err.len() == 0 {
            let out = trim_chars(chars_of(self.stdout.as_str()).as_slice());
            string_of(out.as_slice())
        } else {
            string_of(err.as_slice())
        }
    }
}

/// Git reports that the working tree had nothing to commit.
pub open spec fn says_nothing_to_commit(detail: Seq<char>) -> bool {
    seq_contains(lower_seq(detail), "nothing to commit"@)
}

/// Git reports that signing the commit failed.
pub open spec fn says_signing_failed(detail: Seq<char>) -> bool {
    let l = lower_seq(detail);
    ||| seq_contains(l, "cannot run gpg"@)
    ||| seq_contains(l, "gpg failed to sign"@)
    ||| seq_contains(l, "failed to sign the data"@)
    ||| seq_contains(l, "gpg.ssh"@)
    ||| (seq_contains(l, "failed to write commit object"@) && (seq_contains(l, "sign"@)
        || seq_contains(l, "gpg"@)))
}

/// Case-insensitively, does `detail` contain "nothing to commit"?
pub fn is_nothing_to_commit(detail: &str) -> (r: bool)
    ensures
        r == says_nothing_to_commit(detail@),
{
    let lower = lower_all(chars_of(detail).as_slice());
    lower_contains(lower.as_slice(), "nothing to commit")
}

/// Does `detail` describe a commit-signing failure (missing gpg, a failed
/// signature, an ssh signing problem)?
pub fn is_commit_signing_failure(detail: &str) -> (r: bool)
    ensures
        r == says_signing_failed(detail@),
{
    let lower = lower_all(chars_of(detail).as_slice());
    let l = lower.as_slice();
    lower_contains(l, "cannot run gpg") || lower_contains(l, "gpg failed to sign")
        || lower_contains(l, "failed to sign the data") || lower_contains(l, "gpg.ssh") || (
    lower_contains(l, "failed to write commit object") && (lower_contains(l, "sign")
        || lower_contains(l, "gpg")))
}

/// Which of the three commit flows is running.
#[derive(Debug, Clone, Copy, PartialEq, Eq, Structural)]
pub enum CommitMode {
    /// Stage exactly the given paths and commit as an identity; "nothing to
    /// commit" is a successful no-op.
    ScopedAs,
    /// Stage everything and commit as an identity.
    AllAs,
    /// Stage everything, make sure an author identity is configured, and
    /// commit under git's own configuration.
    Plain,
}

/// What one git subprocess did.
#[derive(Debug)]
pub enum GitRun {
    /// The process could not be started; the text is the error.
    SpawnFailed(String),
    /// The process ran; its exit status and (lossily decoded) output.
    Exited { success: bool, stdout: String, stderr: String },
}

/// A `GitRun` as plain values.
pub enum GitRunView {
    SpawnFailed(Seq<char>),
    Exited(bool, Seq<char>, Seq<char>),
}

impl View for GitRun {
    type V = GitRunView;

    open spec fn view(&self) -> GitRunView {
        match self {
            GitRun::SpawnFailed(e) => GitRunView::SpawnFailed(e@),
            GitRun::Exited { success, stdout, stderr } => GitRunView::Exited(
                *success,
                stdout@,
                stderr@,
            ),
        }
    }
}

/// The next thing a commit flow must do.
#[derive(Debug)]
pub enum CommitStep {
    /// Run `git add -- <paths>`.
    StagePaths,
    /// Run `git add -A`.
    StageAll,
    /// Make sure git can resolve an author identity for the vault.
    EnsureAuthor,
    /// Run `git commit -m <message>`, with signing disabled when asked.
    Commit { disable_signing: bool },
    /// The flow is over with this result.
    Finish(Result<String, String>),
}

/// A `CommitStep` as plain values.
pub enum StepView {
    StagePaths,
    StageAll,
    EnsureAuthor,
    Commit(bool),
    Finish(Result<Seq<char>, Seq<char>>),
}

impl View for CommitStep {
    type V = StepView;

    open spec fn view(&self) -> StepView {
        match self {
            CommitStep::StagePaths => StepView::StagePaths,
            CommitStep::StageAll => StepView::StageAll,
            CommitStep::EnsureAuthor => StepView::EnsureAuthor,
            CommitStep::Commit { disable_signing } => StepView::Commit(*disable_signing),
            CommitStep::Finish(Ok(s)) => StepView::Finish(Ok(s@)),
            CommitStep::Finish(Err(s)) => StepView::Finish(Err(s@)),
        }
    }
}

/// How a flow starts.
pub open spec fn first_step(mode: CommitMode, has_paths: bool) -> StepView {
    match mode {
        CommitMode::ScopedAs => if has_paths {
            StepView::StagePaths
        } else {
            StepView::Commit(false)
        },
        _ => StepView::StageAll,
    }
}

/// What follows staging.
pub open spec fn step_after_stage(mode: CommitMode, run: GitRunView) -> StepView {
    match run {
        GitRunView::SpawnFailed(e) => StepView::Finish(Err("Failed to run git add: "@ + e)),
        GitRunView::Exited(success, _, stderr) => if !success {
            StepView::Finish(Err("git add failed: "@ + stderr))
        } else if mode == CommitMode::Plain {
            StepView::EnsureAuthor
        } else {
            StepView::Commit(false)
        },
    }
}

/// What follows preparing the author identity.
pub open spec fn step_after_author(result: Result<(), Seq<char>>) -> StepView {
    match result {
        Ok(()) => StepView::Commit(false),
        Err(e) => StepView::Finish(Err(e)),
    }
}

/// The outcome of one `git commit` run: its stdout on success, otherwise
/// the captured (stdout, stderr).
pub open spec fn attempt_of(run: GitRunView) -> Result<Seq<char>, (Seq<char>, Seq<char>)> {
    match run {
        GitRunView::SpawnFailed(e) => Err((Seq::empty(), "Failed to run git commit: "@ + e)),
        GitRunView::Exited(success, stdout, stderr) => if success {
            Ok(stdout)
        } else {
            Err((stdout, stderr))
        },
    }
}

/// What follows a commit attempt (`retried` is true for the unsigned retry).
pub open spec fn step_after_commit(mode: CommitMode, retried: bool, run: GitRunView) -> StepView {
    match attempt_of(run) {
        Ok(out) => StepView::Finish(Ok(out)),
        Err((o, e)) => {
            let d = failure_detail(o, e);
            if mode == CommitMode::ScopedAs && says_nothing_to_commit(d) {
                StepView::Finish(Ok(Seq::empty()))
            } else if !retried && says_signing_failed(d) {
                StepView::Commit(true)
            } else if retried && mode == CommitMode::Plain {
                StepView::Finish(
                    Err(
                        "git commit signing failed; retried without signing but git commit still failed: "@
                            + d,
                    ),
                )
            } else {
                StepView::Finish(Err("git commit failed: "@ + d))
            }
        },
    }
}

/// The first step of a commit flow.
pub fn begin_commit(mode: CommitMode, has_paths: bool) -> (step: CommitStep)
    ensures
        step@ == first_step(mode, has_paths),
{
    match mode {
        CommitMode::ScopedAs => if has_paths {
            CommitStep::StagePaths
        } else {
            CommitStep::Commit { disable_signing: false }
        },
        _ => CommitStep::StageAll,
    }
}

/// The step after staging finished as `run`.
pub fn after_stage(mode: CommitMode, run: GitRun) -> (step: CommitStep)
    ensures
        step@ == step_after_stage(mode, run@),
{
    match run {
        GitRun::SpawnFailed(e) => CommitStep::Finish(
            Err(concat("Failed to run git add: ", e.as_str())),
        ),
        GitRun::Exited { success, stdout: _, stderr } => if !success {
            CommitStep::Finish(Err(concat("git add failed: ", stderr.as_str())))
        } else if mode == CommitMode::Plain {
            CommitStep::EnsureAuthor
        } else {
            CommitStep::Commit { disable_signing: false }
        },
    }
}

/// The step after preparing the author identity gave `result`.
pub fn after_author(result: Result<(), String>) -> (step: CommitStep)
    ensures
        step@ == step_after_author(
            match result {
                Ok(()) => Ok(()),
                Err(e) => Err(e@),
            },
        ),
{
    match result {
        Ok(()) => CommitStep::Commit { disable_signing: false },
        Err(e) => CommitStep::Finish(Err(e)),
    }
}

/// Read one `git commit` run: its stdout on success, otherwise a failure.
pub fn commit_attempt(run: GitRun) -> (r: Result<String, CommitFailure>)
    ensures
        match (r, attempt_of(run@)) {
            (Ok(s), Ok(t)) => s@ == t,
            (Err(f), Err((o, e))) => f.stdout@ == o && f.stderr@ == e,
            _ => false,
        },
{
    match run {
        GitRun::SpawnFailed(e) => Err(
            CommitFailure {
                stdout: String::new(),
                stderr: concat("Failed to run git commit: ", e.as_str()),
            },
        ),
        GitRun::Exited { success, stdout, stderr } => if success {
            Ok(stdout)
        } else {
            Err(CommitFailure { stdout, stderr })
        },
    }
}

/// The step after a commit attempt ran as `run`; `retried` says whether it
/// was already the unsigned retry.
pub fn after_commit(mode: CommitMode, retried: bool, run: GitRun) -> (step: CommitStep)
    ensures
        step@ == step_after_commit(mode, retried, run@),
{
    match commit_attempt(run) {
        Ok(out) => CommitStep::Finish(Ok(out)),
        Err(failure) => {
            let d = failure.detail();
            if mode == CommitMode::ScopedAs && is_nothing_to_commit(d.as_str()) {
                CommitStep::Finish(Ok(String::new()))
            } else if !retried && is_commit_signing_failure(d.as_str()) {
                CommitStep::Commit { disable_signing: true }
            } else if retried && mode == CommitMode::Plain {
                CommitStep::Finish(
                    Err(
                        concat(
                            "git commit signing failed; retried without signing but git commit still failed: ",
                            d.as_str(),
                        ),
                    ),
                )
            } else {
                CommitStep::Finish(Err(concat("git commit failed: ", d.as_str())))
            }
        },
    }
}

/// How many more outside operations a flow may still perform from `step`.
pub open spec fn steps_left(step: StepView) -> nat {
    match step {
        StepView::StagePaths => 4,
        StepView::StageAll => 4,
        StepView::EnsureAuthor => 3,
        StepView::Commit(retry) => if retry {
            1
        } else {
            2
        },
        StepView::Finish(_) => 0,
    }
}

/// Every commit flow ends: each step hands over to one with fewer outside
/// operations left, so a flow runs git at most four times and commits at
/// most twice.
pub proof fn commit_flow_terminates(
    mode: CommitMode,
    has_paths: bool,
    run: GitRunView,
    author: Result<(), Seq<char>>,
    retried: bool,
)
    ensures
        steps_left(first_step(mode, has_paths)) <= 4,
        steps_left(step_after_stage(mode, run)) < 4,
        steps_left(step_after_author(author)) < 3,
        steps_left(step_after_commit(mode, retried, run)) < steps_left(StepView::Commit(retried)),
{
}

/// A commit is retried at most once: the unsigned retry always ends the
/// flow, and the first attempt leads to the retry exactly when git blamed
/// commit signing (and, for a scoped commit, did not report an empty
/// change set).
pub proof fn signing_failure_retried_once(mode: CommitMode, stdout: Seq<char>, stderr: Seq<char>, run: GitRunView)
    ensures
        step_after_commit(mode, true, run) is Finish,
        ({
            let d = failure_detail(stdout, stderr);
            (step_after_commit(mode, false, GitRunView::Exited(false, stdout, stderr))
                == StepView::Commit(true)) <==> (says_signing_failed(d) && !(mode
                == CommitMode::ScopedAs && says_nothing_to_commit(d)))
        }),
{
}

/// A scoped commit with nothing staged is a successful no-op with empty
/// output; the commit-everything flows report it as a failed commit whose
/// message carries git's explanation.
pub proof fn nothing_to_commit_outcome(mode: CommitMode, retried: bool, stdout: Seq<char>, stderr: Seq<char>)
    requires
        says_nothing_to_commit(failure_detail(stdout, stderr)),
        !says_signing_failed(failure_detail(stdout, stderr)),
        !(retried && mode == CommitMode::Plain),
    ensures
        step_after_commit(mode, retried, GitRunView::Exited(false, stdout, stderr)) == if mode
            == CommitMode::ScopedAs {
            StepView::Finish(Ok(Seq::empty()))
        } else {
            StepView::Finish(Err("git commit failed: "@ + failure_detail(stdout, stderr)))
        },
{
}

/// A list of strings as plain values.
pub open spec fn strings_view(s: Seq<String>) -> Seq<Seq<char>> {
    Seq::new(s.len(), |i: int| s[i]@)
}

/// A list of (name, value) pairs as plain values.
pub open spec fn pairs_view(s: Seq<(String, String)>) -> Seq<(Seq<char>, Seq<char>)> {
    Seq::new(s.len(), |i: int| (s[i].0@, s[i].1@))
}

/// The git environment variables that make `id` the author and committer;
/// they override whatever git's configuration says.
pub open spec fn identity_env(id: CommitIdentity) -> Seq<(Seq<char>, Seq<char>)> {
    seq![
        ("GIT_AUTHOR_NAME"@, id.author_name@),
        ("GIT_AUTHOR_EMAIL"@, id.author_email@),
        ("GIT_COMMITTER_NAME"@, id.committer_name@),
        ("GIT_COMMITTER_EMAIL"@, id.committer_email@),
    ]
}

fn push_pair(env: &mut Vec<(String, String)>, name: &str, value: &String)
    ensures
        pairs_view(final(env)@) == pairs_view(old(env)@).push((name@, value@)),
{
    env.push((name.to_owned(), value.clone()));
    proof {
        assert(pairs_view(final(env)@) =~= pairs_view(old(env)@).push((name@, value@)));
    }
}

impl CommitIdentity {
    /// Add the identity's git environment variables to `env`.
    pub fn apply(&self, env: &mut Vec<(String, String)>)
        ensures
            pairs_view(final(env)@) == pairs_view(old(env)@) + identity_env(*self),
    {
        push_pair(env, "GIT_AUTHOR_NAME", &self.author_name);
        push_pair(env, "GIT_AUTHOR_EMAIL", &self.author_email);
        push_pair(env, "GIT_COMMITTER_NAME", &self.committer_name);
        push_pair(env, "GIT_COMMITTER_EMAIL", &self.committer_email);
        proof {
            assert(pairs_view(final(env)@) =~= pairs_view(old(env)@) + identity_env(*self));
        }
    }
}

/// One git subprocess to run: its working directory, its arguments after
/// `git`, and the environment variables set for it.
pub struct GitInvocation {
    pub dir: String,
    pub args: Vec<String>,
    pub env: Vec<(String, String)>,
}

/// `git add -- <paths>`.
pub open spec fn stage_paths_args(paths: Seq<Seq<char>>) -> Seq<Seq<char>> {
    seq!["add"@, "--"@] + paths
}

/// `git add -A`.
pub open spec fn stage_all_args() -> Seq<Seq<char>> {
    seq!["add"@, "-A"@]
}

/// `git commit -m <message>`, preceded by `-c commit.gpgsign=false` for
/// the unsigned retry.
pub open spec fn commit_args(message: Seq<char>, disable_signing: bool) -> Seq<Seq<char>> {
    (if disable_signing {
        seq!["-c"@, "commit.gpgsign=false"@]
    } else {
        Seq::empty()
    }) + seq!["commit"@, "-m"@, message]
}

fn push_string(out: &mut Vec<String>, s: String)
    ensures
        strings_view(final(out)@) == strings_view(old(out)@).push(s@),
{
    out.push(s);
    proof {
        assert(strings_view(final(out)@) =~= strings_view(old(out)@).push(s@));
    }
}

/// The arguments of a commit run.
fn commit_argv(message: &str, disable_signing: bool) -> (out: Vec<String>)
    ensures
        strings_view(out@) == commit_args(message@, disable_signing),
{
    let mut out: Vec<String> = Vec::new();
    if disable_signing {
        push_string(&mut out, "-c".to_owned());
        push_string(&mut out, "commit.gpgsign=false".to_owned());
    }
    push_string(&mut out, "commit".to_owned());
    push_string(&mut out, "-m".to_owned());
    push_string(&mut out, message.to_owned());
    proof {
        assert(strings_view(out@) =~= commit_args(message@, disable_signing));
    }
    out
}

/// The `git commit` run that commits as `identity`, optionally with
/// signing disabled.
pub fn run_commit_as(vault: &str, message: &str, identity: &CommitIdentity, disable_signing: bool) -> (r:
    GitInvocation)
    ensures
        r.dir@ == vault@,
        strings_view(r.args@) == commit_args(message@, disable_signing),
        pairs_view(r.env@) == identity_env(*identity),
{
    let mut env: Vec<(String, String)> = Vec::new();
    identity.apply(&mut env);
    proof {
        assert(pairs_view(Seq::<(String, String)>::empty()) =~= Seq::empty());
        assert(Seq::<(Seq<char>, Seq<char>)>::empty() + identity_env(*identity) =~= identity_env(
            *identity,
        ));
    }
    GitInvocation { dir: vault.to_owned(), args: commit_argv(message, disable_signing), env }
}

/// The `git commit` run that commits under git's own configuration,
/// optionally with signing disabled.
pub fn run_commit(vault: &str, message: &str, disable_signing: bool) -> (r: GitInvocation)
    ensures
        r.dir@ == vault@,
        strings_view(r.args@) == commit_args(message@, disable_signing),
        r.env@.len() == 0,
{
    GitInvocation { dir: vault.to_owned(), args: commit_argv(message, disable_signing), env: Vec::new() }
}

/// Where a commit flow stands.
#[derive(Debug, Clone, Copy, PartialEq, Eq, Structural)]
pub enum Phase {
    /// Not started.
    Start,
    /// Waiting for the staging run.
    Staging,
    /// Waiting for the author identity to be prepared.
    Authoring,
    /// Waiting for a commit run (`retried`: the unsigned retry).
    Committing { retried: bool },
    /// Over.
    Done,
}

/// What the caller must do next.
pub enum CommitAction {
    /// Run this git subprocess and hand back what it did.
    Run(GitInvocation),
    /// Make sure git can resolve an author identity for the vault, and hand
    /// back whether that worked.
    EnsureAuthor,
    /// The flow is over with this result.
    Done(Result<String, String>),
}

/// What the caller hands back.
pub enum FlowEvent {
    /// The git subprocess of a `Run` action finished (or failed to start).
    Ran(GitRun),
    /// The author identity of an `EnsureAuthor` action was prepared, or not.
    AuthorReady(Result<(), String>),
}

/// A commit flow as plain values.
pub struct FlowView {
    pub mode: CommitMode,
    pub vault: Seq<char>,
    pub message: Seq<char>,
    pub paths: Seq<Seq<char>>,
    pub env: Seq<(Seq<char>, Seq<char>)>,
    pub phase: Phase,
}

/// An action as plain values.
pub enum ActionView {
    Run(Seq<char>, Seq<Seq<char>>, Seq<(Seq<char>, Seq<char>)>),
    EnsureAuthor,
    Done(Result<Seq<char>, Seq<char>>),
}

impl View for CommitAction {
    type V = ActionView;

    open spec fn view(&self) -> ActionView {
        match self {
            CommitAction::Run(inv) => ActionView::Run(inv.dir@, strings_view(inv.args@), pairs_view(inv.env@)),
            CommitAction::EnsureAuthor => ActionView::EnsureAuthor,
            CommitAction::Done(Ok(s)) => ActionView::Done(Ok(s@)),
            CommitAction::Done(Err(s)) => ActionView::Done(Err(s@)),
        }
    }
}

/// A server-side commit in progress: it says which git runs to make, and
/// reads what each one did.
pub struct CommitFlow {
    mode: CommitMode,
    vault: String,
    message: String,
    paths: Vec<String>,
    env: Vec<(String, String)>,
    phase: Phase,
}

impl View for CommitFlow {
    type V = FlowView;

    closed spec fn view(&self) -> FlowView {
        FlowView {
            mode: self.mode,
            vault: self.vault@,
            message: self.message@,
            paths: strings_view(self.paths@),
            env: pairs_view(self.env@),
            phase: self.phase,
        }
    }
}

/// The action that carries out `step` in flow `f`.
pub open spec fn action_for(f: FlowView, step: StepView) -> ActionView {
    match step {
        StepView::StagePaths => ActionView::Run(f.vault, stage_paths_args(f.paths), Seq::empty()),
        StepView::StageAll => ActionView::Run(f.vault, stage_all_args(), Seq::empty()),
        StepView::EnsureAuthor => ActionView::EnsureAuthor,
        StepView::Commit(d) => ActionView::Run(f.vault, commit_args(f.message, d), f.env),
        StepView::Finish(r) => ActionView::Done(r),
    }
}

/// The phase a flow is in once it has asked for `step`.
pub open spec fn phase_after(step: StepView) -> Phase {
    match step {
        StepView::StagePaths => Phase::Staging,
        StepView::StageAll => Phase::Staging,
        StepView::EnsureAuthor => Phase::Authoring,
        StepView::Commit(d) => Phase::Committing { retried: d },
        StepView::Finish(_) => Phase::Done,
    }
}

/// A flow in `phase` can take `event`: a git run after a `Run`, an author
/// result after `EnsureAuthor`.
pub open spec fn accepts(phase: Phase, event: FlowEvent) -> bool {
    match (phase, event) {
        (Phase::Staging, FlowEvent::Ran(_)) => true,
        (Phase::Committing { .. }, FlowEvent::Ran(_)) => true,
        (Phase::Authoring, FlowEvent::AuthorReady(_)) => true,
        _ => false,
    }
}

/// The step a flow takes on `event`.
pub open spec fn step_on(mode: CommitMode, phase: Phase, event: FlowEvent) -> StepView {
    match (phase, event) {
        (Phase::Staging, FlowEvent::Ran(r)) => step_after_stage(mode, r@),
        (Phase::Committing { retried }, FlowEvent::Ran(r)) => step_after_commit(mode, retried, r@),
        (Phase::Authoring, FlowEvent::AuthorReady(a)) => step_after_author(
            match a {
                Ok(()) => Ok(()),
                Err(e) => Err(e@),
            },
        ),
        _ => StepView::Finish(Err(Seq::empty())),
    }
}

/// Stage exactly `paths` and commit them as `identity`. "Nothing to
/// commit" ends in `Ok` with empty output, so an autogit commit after a
/// save that changed nothing is a no-op. With no paths nothing new is
/// staged.
pub fn git_commit_paths_as(vault_path: &str, paths: &[String], message: &str, identity: &CommitIdentity) -> (f:
    CommitFlow)
    ensures
        f@ == (FlowView {
            mode: CommitMode::ScopedAs,
            vault: vault_path@,
            message: message@,
            paths: strings_view(paths@),
            env: identity_env(*identity),
            phase: Phase::Start,
        }),
{
    let mut ps: Vec<String> = Vec::new();
    let mut i: usize = 0;
    while i < paths.len()
        invariant
            i <= paths@.len(),
            strings_view(ps@) == strings_view(paths@.subrange(0, i as int)),
        decreases paths@.len() - i,
    {
        push_string(&mut ps, paths[i].clone());
        proof {
            assert(strings_view(paths@.subrange(0, i + 1)) =~= strings_view(
                paths@.subrange(0, i as int),
            ).push(paths@[i as int]@));
        }
        i = i + 1;
    }
    proof {
        assert(paths@.subrange(0, paths@.len() as int) =~= paths@);
    }
    let inv = run_commit_as(vault_path, message, identity, false);
    CommitFlow {
        mode: CommitMode::ScopedAs,
        vault: vault_path.to_owned(),
        message: message.to_owned(),
        paths: ps,
        env: inv.env,
        phase: Phase::Start,
    }
}

/// Stage every change and commit it as `identity`; "nothing to commit" is
/// an error here.
pub fn git_commit_all_as(vault_path: &str, message: &str, identity: &CommitIdentity) -> (f: CommitFlow)
    ensures
        f@ == (FlowView {
            mode: CommitMode::AllAs,
            vault: vault_path@,
            message: message@,
            paths: Seq::empty(),
            env: identity_env(*identity),
            phase: Phase::Start,
        }),
{
    let inv = run_commit_as(vault_path, message, identity, false);
    let f = CommitFlow {
        mode: CommitMode::AllAs,
        vault: vault_path.to_owned(),
        message: message.to_owned(),
        paths: Vec::new(),
        env: inv.env,
        phase: Phase::Start,
    };
    proof {
        assert(f@.paths =~= Seq::<Seq<char>>::empty());
    }
    f
}

/// Stage every change, make sure git has an author identity, and commit
/// under git's own configuration.
pub fn git_commit(vault_path: &str, message: &str) -> (f: CommitFlow)
    ensures
        f@ == (FlowView {
            mode: CommitMode::Plain,
            vault: vault_path@,
            message: message@,
            paths: Seq::empty(),
            env: Seq::empty(),
            phase: Phase::Start,
        }),
{
    let f = CommitFlow {
        mode: CommitMode::Plain,
        vault: vault_path.to_owned(),
        message: message.to_owned(),
        paths: Vec::new(),
        env: Vec::new(),
        phase: Phase::Start,
    };
    proof {
        assert(f@.paths =~= Seq::<Seq<char>>::empty());
        assert(f@.env =~= Seq::<(Seq<char>, Seq<char>)>::empty());
    }
    f
}

impl CommitFlow {
    /// The step's action, and the phase that waits for its outcome.
    fn act(&mut self, step: CommitStep) -> (a: CommitAction)
        ensures
            a@ == action_for(old(self)@, step@),
            final(self)@ == (FlowView { phase: phase_after(step@), ..old(self)@ }),
    {
        let ghost before = self@;
        match step {
            CommitStep::StagePaths => {
                let mut args: Vec<String> = Vec::new();
                push_string(&mut args, "add".to_owned());
                push_string(&mut args, "--".to_owned());
                let mut i: usize = 0;
                while i < self.paths.len()
                    invariant
                        i <= self.paths@.len(),
                        strings_view(args@) == seq!["add"@, "--"@] + strings_view(self.paths@).subrange(0, i as int),
                    decreases self.paths@.len() - i,
                {
                    push_string(&mut args, self.paths[i].clone());
                    proof {
                        assert(strings_view(self.paths@).subrange(0, i + 1) =~= strings_view(
                            self.paths@,
                        ).subrange(0, i as int).push(self.paths@[i as int]@));
                    }
                    i = i + 1;
                }
                proof {
                    assert(strings_view(self.paths@).subrange(0, self.paths@.len() as int)
                        =~= strings_view(self.paths@));
                    assert(pairs_view(Seq::<(String, String)>::empty()) =~= Seq::empty());
                }
                self.phase = Phase::Staging;
                CommitAction::Run(GitInvocation { dir: self.vault.clone(), args, env: Vec::new() })
            },
            CommitStep::StageAll => {
                let mut args: Vec<String> = Vec::new();
                push_string(&mut args, "add".to_owned());
                push_string(&mut args, "-A".to_owned());
                proof {
                    assert(strings_view(args@) =~= stage_all_args());
                    assert(pairs_view(Seq::<(String, String)>::empty()) =~= Seq::empty());
                }
                self.phase = Phase::Staging;
                CommitAction::Run(GitInvocation { dir: self.vault.clone(), args, env: Vec::new() })
            },
            CommitStep::EnsureAuthor => {
                self.phase = Phase::Authoring;
                CommitAction::EnsureAuthor
            },
            CommitStep::Commit { disable_signing } => {
                let args = commit_argv(self.message.as_str(), disable_signing);
                let mut env: Vec<(String, String)> = Vec::new();
                let mut i: usize = 0;
                while i < self.env.len()
                    invariant
                        i <= self.env@.len(),
                        pairs_view(env@) == pairs_view(self.env@).subrange(0, i as int),
                    decreases self.env@.len() - i,
                {
                    push_pair(&mut env, self.env[i].0.as_str(), &self.env[i].1);
                    proof {
                        assert(pairs_view(self.env@).subrange(0, i + 1) =~= pairs_view(
                            self.env@,
                        ).subrange(0, i as int).push((self.env@[i as int].0@, self.env@[i as int].1@)));
                    }
                    i = i + 1;
                }
                proof {
                    assert(pairs_view(self.env@).subrange(0, self.env@.len() as int) =~= pairs_view(
                        self.env@,
                    ));
                }
                self.phase = Phase::Committing { retried: disable_signing };
                CommitAction::Run(GitInvocation { dir: self.vault.clone(), args, env })
            },
            CommitStep::Finish(r) => {
                self.phase = Phase::Done;
                CommitAction::Done(r)
            },
        }
    }

    /// Start the flow: its first action.
    pub fn start(&mut self) -> (a: CommitAction)
        requires
            old(self)@.phase == Phase::Start,
        ensures
            a@ == action_for(old(self)@, first_step(old(self)@.mode, old(self)@.paths.len() > 0)),
            final(self)@ == (FlowView {
                phase: phase_after(first_step(old(self)@.mode, old(self)@.paths.len() > 0)),
                ..old(self)@
            }),
    {
        let step = begin_commit(self.mode, self.paths.len() > 0);
        self.act(step)
    }

    /// Can the flow take `event` now?
    pub fn accepts(&self, event: &FlowEvent) -> (r: bool)
        ensures
            r == accepts(self@.phase, *event),
    {
        match (self.phase, event) {
            (Phase::Staging, FlowEvent::Ran(_)) => true,
            (Phase::Committing { .. }, FlowEvent::Ran(_)) => true,
            (Phase::Authoring, FlowEvent::AuthorReady(_)) => true,
            _ => false,
        }
    }

    /// Hand back what the last action did; the next action comes back.
    pub fn resume(&mut self, event: FlowEvent) -> (a: CommitAction)
        requires
            accepts(old(self)@.phase, event),
        ensures
            a@ == action_for(old(self)@, step_on(old(self)@.mode, old(self)@.phase, event)),
            final(self)@ == (FlowView {
                phase: phase_after(step_on(old(self)@.mode, old(self)@.phase, event)),
                ..old(self)@
            }),
    {
        let step = match (self.phase, event) {
            (Phase::Staging, FlowEvent::Ran(r)) => after_stage(self.mode, r),
            (Phase::Committing { retried }, FlowEvent::Ran(r)) => after_commit(self.mode, retried, r),
            (_, FlowEvent::AuthorReady(a)) => after_author(a),
            (_, FlowEvent::Ran(r)) => after_stage(self.mode, r),
        };
        self.act(step)
    }
}

/// A failed staging run ends every commit flow, whatever its mode, with
/// `git add failed: ` and git's stderr: no commit is ever run after `git add`
/// exited unsuccessfully, and a staging run that could not start ends the
/// flow too. Only a successful staging run leads on, to the author check
/// (plain flow) or to the first, signed commit.
pub proof fn failed_stage_stops_the_flow(mode: CommitMode, stdout: Seq<char>, stderr: Seq<char>, spawn_error: Seq<char>)
    ensures
        step_after_stage(mode, GitRunView::Exited(false, stdout, stderr)) == StepView::Finish(
            Err("git add failed: "@ + stderr),
        ),
        step_after_stage(mode, GitRunView::SpawnFailed(spawn_error)) == StepView::Finish(
            Err("Failed to run git add: "@ + spawn_error),
        ),
        step_after_stage(mode, GitRunView::Exited(true, stdout, stderr)) == if mode
            == CommitMode::Plain {
            StepView::EnsureAuthor
        } else {
            StepView::Commit(false)
        },
{
}

} // verus!
