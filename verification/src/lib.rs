//! Verified core of a git worktree lifecycle manager.
//!
//! The library holds the logic that is worth getting right: path
//! validation, porcelain parsing, default-branch resolution, health
//! probing arithmetic, and the create/list/remove/merge-check decision
//! machines. All subprocess and filesystem work is performed by an
//! unverified driver that feeds observed outcomes back into the
//! machines defined here.

pub mod branch;
pub mod errors;
pub mod github;
pub mod hooks;
pub mod lifecycle;
pub mod outcome;
pub mod paths;
pub mod porcelain;
pub mod skills;
pub mod terminal;
pub mod text;
pub mod tmux;
pub mod workspace;
