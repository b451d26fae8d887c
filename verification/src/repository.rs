//! A repository with a working tree, and how the tool is called on it.

use crate::bare_repo::BareRepository;
use crate::error::{RepoError, RepoErrorView};
use crate::exchange::{Invocation, InvocationView};
use crate::path::{join, path_join, AbsoluteDirPath};
use vstd::prelude::*;

verus! {

/// A repository with a working tree: the metadata directory and the working tree, both
/// absolute. Nothing changes either once the value is made.
#[derive(Debug, PartialEq, Eq)]
pub struct Repository {
    git_dir: AbsoluteDirPath,
    work_tree: AbsoluteDirPath,
}

/// A `Repository` as specifications see it.
pub struct RepositoryView {
    pub git_dir: Seq<char>,
    pub work_tree: Seq<char>,
}

impl View for Repository {
    type V = RepositoryView;

    closed spec fn view(&self) -> RepositoryView {
        RepositoryView { git_dir: self.git_dir@, work_tree: self.work_tree@ }
    }
}

impl Clone for Repository {
    fn clone(&self) -> (copy: Self)
        ensures
            copy@ == self@,
    {
        Repository { git_dir: self.git_dir.clone(), work_tree: self.work_tree.clone() }
    }
}

impl RepositoryView {
    /// The call of the tool on this repository, before any argument: `GIT_DIR` and
    /// `GIT_WORK_TREE` name the two directories, and the call runs in the working tree.
    pub open spec fn git(self) -> InvocationView {
        InvocationView::new("git"@).env("GIT_DIR"@, self.git_dir).env(
            "GIT_WORK_TREE"@,
            self.work_tree,
        ).current_dir(self.work_tree)
    }
}

impl Repository {
    /// The repository of these two directories. Neither is held against the other.
    pub fn new(git_dir: AbsoluteDirPath, work_tree: AbsoluteDirPath) -> (repo: Repository)
        ensures
            repo@ == (RepositoryView { git_dir: git_dir@, work_tree: work_tree@ }),
    {
        Repository { git_dir, work_tree }
    }

    /// The metadata directory.
    pub fn git_dir(&self) -> (dir: &AbsoluteDirPath)
        ensures
            dir@ == self@.git_dir,
    {
        &self.git_dir
    }

    /// The metadata directory, as text.
    pub fn git_dir_path(&self) -> (dir: &str)
        ensures
            dir@ == self@.git_dir,
    {
        self.git_dir.as_str()
    }

    /// The working tree, as text.
    pub fn git_work_tree(&self) -> (dir: &str)
        ensures
            dir@ == self@.work_tree,
    {
        self.work_tree.as_str()
    }

    /// The working tree. There always is one.
    pub fn work_tree(&self) -> (dir: Option<String>)
        ensures
            dir matches Some(d) && d@ == self@.work_tree,
    {
        Some(self.work_tree.as_str().to_owned())
    }

    /// The path of the file `path` of the working tree: `path` itself where it is
    /// absolute.
    pub fn work_tree_file(&self, path: &str) -> (file: String)
        ensures
            file@ == path_join(self@.work_tree, path@),
    {
        join(self.work_tree.as_str(), path)
    }

    /// The call of the tool on this repository, before any argument.
    pub fn git(&self) -> (call: Invocation)
        ensures
            call@ == self@.git(),
    {
        Invocation::new("git").env("GIT_DIR", self.git_dir.as_str()).env(
            "GIT_WORK_TREE",
            self.work_tree.as_str(),
        ).current_dir(self.work_tree.as_str())
    }
}

/// The directories of a repository: with a working tree or without.
#[derive(Debug, PartialEq, Eq)]
pub enum RepositoryContext {
    Bare(BareRepository),
    Normal(Repository),
}

/// A `RepositoryContext` as specifications see it.
pub enum RepositoryContextView {
    Bare(Seq<char>),
    Normal(RepositoryView),
}

impl View for RepositoryContext {
    type V = RepositoryContextView;

    open spec fn view(&self) -> RepositoryContextView {
        match self {
            RepositoryContext::Bare(repo) => RepositoryContextView::Bare(repo@),
            RepositoryContext::Normal(repo) => RepositoryContextView::Normal(repo@),
        }
    }
}

impl RepositoryContextView {
    /// The metadata directory.
    pub open spec fn git_dir(self) -> Seq<char> {
        match self {
            RepositoryContextView::Bare(dir) => dir,
            RepositoryContextView::Normal(repo) => repo.git_dir,
        }
    }

    /// The working tree, if there is one.
    pub open spec fn work_tree(self) -> Option<Seq<char>> {
        match self {
            RepositoryContextView::Bare(_) => None,
            RepositoryContextView::Normal(repo) => Some(repo.work_tree),
        }
    }
}

impl RepositoryContext {
    /// The repository with its working tree. A bare repository has none: `BareRepo`.
    pub fn repository(self) -> (repo: Result<Repository, RepoError>)
        ensures
            match repo {
                Ok(r) => self@ == RepositoryContextView::Normal(r@),
                Err(e) => self@ is Bare && e@ == RepoErrorView::BareRepo,
            },
    {
        match self {
            RepositoryContext::Normal(repo) => Ok(repo),
            RepositoryContext::Bare(_) => Err(RepoError::BareRepo),
        }
    }

    /// The metadata directory.
    pub fn git_dir(&self) -> (dir: &crate::path::AbsoluteDirPath)
        ensures
            dir@ == self@.git_dir(),
    {
        match self {
            RepositoryContext::Normal(repo) => repo.git_dir(),
            RepositoryContext::Bare(repo) => repo.git_dir(),
        }
    }
}

} // verus!
