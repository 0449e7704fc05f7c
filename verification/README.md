# tolaria

The verified core of the Tolaria web server, written in Verus.

`src/` holds every decision the server makes, each with a contract that
Verus proves: which dispatcher serves a command and what it reads from the
arguments, path containment against the vault root, the optimistic
concurrency check on saves, the replies the server builds, the autogit
commit that follows a write, the git commit flows (staging, the unsigned
retry after a signing failure, "nothing to commit"), sessions, CSRF,
account checks and configuration. Calls into outside crates (SHA-256,
argon2, the OS random source, `serde_json` string quoting, the monotonic
clock) stand behind small trusted wrappers whose contracts say what the
library relies on.

`app/` is the HTTP server around it: axum routes, the SQLite user store,
per-path locks, running git subprocesses for the commit flows the library
describes, and the vault, frontmatter, search and git operations of
`tolaria-core`.

`tests/` exercises the library on concrete values.
