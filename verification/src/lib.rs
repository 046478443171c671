//! Watch a directory tree and turn filesystem changes into version-control
//! commits.
//!
//! This crate holds the verified core of the watcher: merging configuration
//! from several sources, translating raw filesystem events into staging
//! actions and commit messages, the run-loop state machine that stays
//! responsive to cancellation, and the graceful-shutdown protocol with its
//! bounded-time push. Filesystem traversal, the version-control backend and
//! the CLI are outside collaborators; the core only decides what they should
//! do.

pub mod auth;
mod clock;
pub mod config;
pub mod dirs;
pub mod event;
pub mod orchestrator;

pub use auth::AuthenticationMethod;
pub use auth::SetupError;
pub use config::Config;
pub use event::CommitRequest;
pub use event::FsEvent;
pub use orchestrator::Watch;
