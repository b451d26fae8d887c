//! A typed view of a git repository on disk that leaves every side effect to its caller.
//!
//! Nothing here runs the tool, reads a file or looks at the environment. A function that
//! needs any of that says what it needs, as a [`Query`], and goes on from the [`Answer`].
//! What is decided between the two is verified: which directories make a repository, how
//! the tool is to be called on it, and what the way a call ended means.
//!
//! An operation is a function of the answers given so far. It returns a [`Step`]: the
//! next query, its result, or a [`Violation`], on which the caller is to give up.
//!
//! ```text
//! let mut told = Vec::new();
//! let head = loop {
//!     match repository.head(&told) {
//!         Step::Ask(query) => told.push(answer(&query)),
//!         Step::Done(id) => break id,
//!         Step::Fatal(violation) => panic!("{:?}", violation),
//!     }
//! };
//! ```
//!
//! Finding the directories of a repository takes more steps, and is a state machine of
//! its own: a [`Resolution`].

pub mod bare_repo;
pub mod change;
pub mod config;
pub mod create;
pub mod error;
pub mod exchange;
pub mod inspect;
pub mod listing;
pub mod path;
pub mod remote;
pub mod repository;
pub mod resolve;
pub mod subtree;
pub mod text;
pub mod theorems;
pub mod x;

pub use crate::bare_repo::BareRepository;
pub use crate::config::config_file_set;
pub use crate::error::{
    CommitError,
    ConfigReadError,
    ConfigSetError,
    InvalidCommitishError,
    InvalidRefError,
    RefSearchError,
    RepoError,
    StagingError,
    StashingError,
    SubtreeAddError,
    SubtreePullError,
    SubtreePushError,
    SubtreeSplitError,
    EACCES,
    EINVAL,
    ENOENT,
};
pub use crate::exchange::{Answer, Invocation, Outcome, Query, Step, Violation};
pub use crate::listing::{ls_remote, resolve_head, tags_from_remote};
pub use crate::path::AbsoluteDirPath;
pub use crate::remote::Remote;
pub use crate::repository::{Repository, RepositoryContext};
pub use crate::resolve::{
    git_dir_from_work_tree,
    search_git_dir,
    work_tree_from_git_dir,
    Resolution,
};
pub use posix_errors::PosixError;
