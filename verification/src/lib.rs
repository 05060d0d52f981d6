//! Worktrunk: git worktree management, as a verified library.

pub mod approval;
pub mod completion;
pub mod config_cmd;
pub mod configure_shell;
pub mod error;
pub mod expansion;
pub mod git;
pub mod gitlab;
pub mod hooks;
pub mod merge;
pub mod pager;
pub mod path;
pub mod process;
pub mod remove;
pub mod semaphore;
pub mod shell;
pub mod stash;
pub mod styling;
pub mod switch;
pub mod text;
