//! Verified core of a tool that keeps a workspace of code projects.
//!
//! A workspace holds *spaces* (named collections of projects), *projects*
//! (code directories inside a space) and *changes* (units of work, such as a
//! git branch, within a project).  The rules for creating, selecting and
//! removing them are stated in `ops` and met by every back end: the
//! in-memory one (`memory`), the one that keeps a JSON configuration
//! (`config`) and the one that keeps git repositories and worktrees (`git`).
//! `laws` proves properties that span several operations.

pub mod paths;
pub mod model;
pub mod error;
pub mod registry;
pub mod ops;
pub mod store;
pub mod memory;
pub mod workspace;
pub mod text;
pub mod worktree;
pub mod order;
pub mod git;
pub mod config;
pub mod rows;
pub mod browser;
pub mod shell;
pub mod laws;

pub use browser::{App, Tab};
pub use config::ConfigAdapter;
pub use error::StoreError;
pub use git::GitAdapter;
pub use memory::MemoryAdapter;
pub use model::{Change, Config, Project, Space};
pub use store::{Backend, ChangeStore, ProjectStore, SpaceStore};
pub use workspace::Workspace;
