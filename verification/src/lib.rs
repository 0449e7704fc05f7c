//! Verified core of the Tolaria web server: request routing decisions,
//! session bookkeeping, path containment, CSRF checks, and the git commit
//! retry policy used for server-side autogit.

pub mod text_support;
pub mod commit;
pub mod paths;
pub mod rpc;
pub mod containment;
pub mod hex;
pub mod session;
pub mod csrf;
pub mod users;
pub mod auth;
pub mod config;
pub mod json;
pub mod commands;
pub mod writes;
pub mod replies;
pub mod assets;
pub mod listen;
