//! Finding the metadata directory and the working tree of a repository.
//!
//! A [`Resolution`] is a state machine. In each state it either has ended or asks one
//! thing of its caller: an environment variable, the current directory, the canonical form
//! of a relative path, a look at a file or a directory, or one call of the tool. The caller answers
//! and the machine moves on. [`World`] stands for all that a caller can answer from, so
//! that what a resolution ends with can be stated as a function of the world.

use crate::bare_repo::BareRepository;
use crate::error::{RepoError, RepoErrorView};
use crate::exchange::{
    Answer,
    AnswerView,
    Invocation,
    InvocationView,
    Outcome,
    OutcomeView,
    Query,
    QueryView,
    Step,
    Violation,
};
use crate::path::{
    dot_git,
    head_file,
    join,
    objects_dir,
    parent,
    path_is_absolute,
    path_join,
    path_parent,
    shorter_parent,
    AbsoluteDirPath,
};
use crate::repository::{Repository, RepositoryContext, RepositoryContextView, RepositoryView};
use crate::text::{lossy, lossy_text, same};
use vstd::prelude::*;

verus! {

/// The call that asks the tool whether `git_dir` belongs to a bare repository.
pub open spec fn bareness_call(git_dir: Seq<char>) -> InvocationView {
    InvocationView::new("git"@).arg("--git-dir"@).arg(git_dir).arg("rev-parse"@).arg(
        "--is-bare-repository"@,
    )
}

/// The tool says that the repository is bare: the call succeeded, and what it printed is
/// exactly `true`, with nothing before it and nothing behind. Whatever else happened,
/// the repository counts as having a working tree.
pub open spec fn says_bare(outcome: OutcomeView) -> bool {
    outcome.success() && lossy_text(outcome.stdout) == "true"@
}

/// What an answer says of bareness. A call that could not be made says as little of a
/// bare repository as one that failed.
pub open spec fn bareness(answer: AnswerView) -> Option<bool> {
    match answer {
        AnswerView::Ran(outcome) => Some(says_bare(outcome)),
        AnswerView::Failed(_) => Some(false),
        _ => None,
    }
}

/// The canonical form that an answer gives: there is one, and it is absolute.
pub open spec fn accepted(answer: AnswerView) -> Option<Seq<char>> {
    match answer {
        AnswerView::Text(Some(path)) => if path_is_absolute(path) {
            Some(path)
        } else {
            None
        },
        _ => None,
    }
}

/// How the working tree will be found once the metadata directory is known.
pub enum WorkView {
    /// From `GIT_WORK_TREE`, and from the metadata directory where that is not set.
    Environment,
    /// From the metadata directory: its parent, unless the repository is bare.
    Derive,
    /// It is this path.
    Hint(Seq<char>),
    /// It is not looked for: the resolution ends with the metadata directory alone.
    Nothing,
}

/// The states of a resolution.
pub enum ResolutionView {
    /// Asks for `GIT_DIR`.
    GitDirVariable,
    /// Asks for the current directory, to search from it.
    CurrentDir,
    /// Asks for the canonical form of the relative path to search from.
    Start { path: Seq<char>, work: WorkView },
    /// Asks whether the directory to search from holds a file `HEAD`: the first of the
    /// two marks of a metadata directory.
    Head { dir: Seq<char>, work: WorkView },
    /// Asks whether the directory to search from, which holds a file `HEAD`, holds a
    /// directory `objects` too: the second mark.
    Objects { dir: Seq<char>, work: WorkView },
    /// Asks whether `dir` holds a directory `.git`; `dir` is the start of the search or
    /// one of its ancestors.
    Walk { dir: Seq<char>, work: WorkView },
    /// Asks for the canonical form of the relative path of the metadata directory.
    GitDir { path: Seq<char>, work: WorkView },
    /// Asks for `GIT_WORK_TREE`.
    WorkTreeVariable { git_dir: Seq<char> },
    /// Asks the tool whether the repository is bare.
    Bareness { git_dir: Seq<char> },
    /// Asks for the canonical form of the relative path of the working tree.
    WorkTree { git_dir: Seq<char>, path: Seq<char> },
    /// Asks for the canonical form of the relative path of a working tree whose metadata
    /// directory is yet to be derived from it.
    Alone { path: Seq<char> },
    /// Asks for the canonical form of the relative path of the metadata directory inside
    /// the working tree.
    Derived { work_tree: Seq<char>, path: Seq<char> },
    /// Ended: the repository.
    Found(RepositoryView),
    /// Ended: the metadata directory has no working tree.
    Bare { git_dir: Seq<char> },
    /// Ended: no repository.
    Failed(RepoErrorView),
    /// Ended: an answer was of another kind than the query.
    Refused,
}

impl ResolutionView {
    /// A search from `start`.
    pub open spec fn search(start: Seq<char>, work: WorkView) -> ResolutionView {
        if path_is_absolute(start) {
            ResolutionView::Head { dir: start, work }
        } else {
            ResolutionView::Start { path: start, work }
        }
    }

    /// `path` is to be the metadata directory.
    pub open spec fn git_dir_from(path: Seq<char>, work: WorkView) -> ResolutionView {
        if path_is_absolute(path) {
            ResolutionView::with_git_dir(path, work)
        } else {
            ResolutionView::GitDir { path, work }
        }
    }

    /// `git_dir` is the metadata directory.
    pub open spec fn with_git_dir(git_dir: Seq<char>, work: WorkView) -> ResolutionView {
        match work {
            WorkView::Environment => ResolutionView::WorkTreeVariable { git_dir },
            WorkView::Derive => ResolutionView::Bareness { git_dir },
            WorkView::Hint(path) => ResolutionView::work_tree_from(git_dir, path),
            WorkView::Nothing => ResolutionView::Bare { git_dir },
        }
    }

    /// `path` is to be the working tree of `git_dir`.
    pub open spec fn work_tree_from(git_dir: Seq<char>, path: Seq<char>) -> ResolutionView {
        if path_is_absolute(path) {
            ResolutionView::Found(RepositoryView { git_dir, work_tree: path })
        } else {
            ResolutionView::WorkTree { git_dir, path }
        }
    }

    /// `path` is to be the working tree, and the metadata directory is to be derived.
    pub open spec fn alone(path: Seq<char>) -> ResolutionView {
        if path_is_absolute(path) {
            ResolutionView::derived(path)
        } else {
            ResolutionView::Alone { path }
        }
    }

    /// The metadata directory of `work_tree` is the entry `.git` in it.
    pub open spec fn derived(work_tree: Seq<char>) -> ResolutionView {
        let path = path_join(work_tree, dot_git());
        if path_is_absolute(path) {
            ResolutionView::Found(RepositoryView { git_dir: path, work_tree })
        } else {
            ResolutionView::Derived { work_tree, path }
        }
    }

    /// The tool was asked whether `git_dir` is bare, and said so or did not.
    pub open spec fn parted(git_dir: Seq<char>, bare: bool) -> ResolutionView {
        if bare {
            ResolutionView::Bare { git_dir }
        } else {
            match path_parent(git_dir) {
                Some(dir) => ResolutionView::work_tree_from(git_dir, dir),
                None => ResolutionView::Bare { git_dir },
            }
        }
    }

    /// Resolution from what the caller passed: a directory that relative paths start
    /// from, a metadata directory, a working tree, each of them or none.
    pub open spec fn from_args(
        change: Option<Seq<char>>,
        git: Option<Seq<char>>,
        work: Option<Seq<char>>,
    ) -> ResolutionView {
        match (git, work) {
            (Some(g), None) => ResolutionView::git_dir_from(below(change, g), WorkView::Derive),
            (None, Some(w)) => ResolutionView::alone(below(change, w)),
            (Some(g), Some(w)) => ResolutionView::git_dir_from(
                below(change, g),
                WorkView::Hint(below(change, w)),
            ),
            (None, None) => match change {
                Some(root) => ResolutionView::search(root, WorkView::Derive),
                None => ResolutionView::GitDirVariable,
            },
        }
    }

    /// What the state asks, `None` where the resolution has ended.
    pub open spec fn query(self) -> Option<QueryView> {
        match self {
            ResolutionView::GitDirVariable => Some(QueryView::Variable("GIT_DIR"@)),
            ResolutionView::CurrentDir => Some(QueryView::CurrentDir),
            ResolutionView::Start { path, .. } => Some(QueryView::Canonical(path)),
            ResolutionView::Head { dir, .. } => Some(QueryView::IsFile(head_file(dir))),
            ResolutionView::Objects { dir, .. } => Some(QueryView::IsDir(objects_dir(dir))),
            ResolutionView::Walk { dir, .. } => Some(QueryView::IsDir(path_join(dir, dot_git()))),
            ResolutionView::GitDir { path, .. } => Some(QueryView::Canonical(path)),
            ResolutionView::WorkTreeVariable { .. } => Some(QueryView::Variable("GIT_WORK_TREE"@)),
            ResolutionView::Bareness { git_dir } => Some(QueryView::Run(bareness_call(git_dir))),
            ResolutionView::WorkTree { path, .. } => Some(QueryView::Canonical(path)),
            ResolutionView::Alone { path } => Some(QueryView::Canonical(path)),
            ResolutionView::Derived { path, .. } => Some(QueryView::Canonical(path)),
            ResolutionView::Found(_) => None,
            ResolutionView::Bare { .. } => None,
            ResolutionView::Failed(_) => None,
            ResolutionView::Refused => None,
        }
    }

    /// The state that follows on `answer`.
    pub open spec fn advance(self, answer: AnswerView) -> ResolutionView {
        match self {
            ResolutionView::GitDirVariable => match answer {
                AnswerView::Text(Some(path)) => ResolutionView::git_dir_from(
                    path,
                    WorkView::Environment,
                ),
                AnswerView::Text(None) => ResolutionView::CurrentDir,
                _ => ResolutionView::Refused,
            },
            ResolutionView::CurrentDir => match answer {
                AnswerView::Text(Some(dir)) => ResolutionView::search(dir, WorkView::Environment),
                AnswerView::Text(None) => ResolutionView::Failed(RepoErrorView::FailAccessCwd),
                _ => ResolutionView::Refused,
            },
            ResolutionView::Start { path, work } => match answer {
                AnswerView::Text(_) => match accepted(answer) {
                    Some(dir) => ResolutionView::Head { dir, work },
                    None => ResolutionView::Failed(RepoErrorView::InvalidDirectory(path)),
                },
                _ => ResolutionView::Refused,
            },
            ResolutionView::Head { dir, work } => match answer {
                AnswerView::Flag(true) => ResolutionView::Objects { dir, work },
                AnswerView::Flag(false) => ResolutionView::Walk { dir, work },
                _ => ResolutionView::Refused,
            },
            ResolutionView::Objects { dir, work } => match answer {
                AnswerView::Flag(true) => ResolutionView::with_git_dir(dir, work),
                AnswerView::Flag(false) => ResolutionView::Walk { dir, work },
                _ => ResolutionView::Refused,
            },
            ResolutionView::Walk { dir, work } => match answer {
                AnswerView::Flag(true) => ResolutionView::git_dir_from(
                    path_join(dir, dot_git()),
                    work,
                ),
                AnswerView::Flag(false) => match shorter_parent(dir) {
                    Some(above) => ResolutionView::Walk { dir: above, work },
                    None => ResolutionView::Failed(RepoErrorView::GitDirNotFound),
                },
                _ => ResolutionView::Refused,
            },
            ResolutionView::GitDir { path, work } => match answer {
                AnswerView::Text(_) => match accepted(answer) {
                    Some(dir) => ResolutionView::with_git_dir(dir, work),
                    None => ResolutionView::Failed(RepoErrorView::AbsolutionError(path)),
                },
                _ => ResolutionView::Refused,
            },
            ResolutionView::WorkTreeVariable { git_dir } => match answer {
                AnswerView::Text(Some(path)) => ResolutionView::work_tree_from(git_dir, path),
                AnswerView::Text(None) => ResolutionView::Bareness { git_dir },
                _ => ResolutionView::Refused,
            },
            ResolutionView::Bareness { git_dir } => match bareness(answer) {
                Some(bare) => ResolutionView::parted(git_dir, bare),
                None => ResolutionView::Refused,
            },
            ResolutionView::WorkTree { git_dir, path } => match answer {
                AnswerView::Text(_) => match accepted(answer) {
                    Some(dir) => ResolutionView::Found(RepositoryView { git_dir, work_tree: dir }),
                    None => ResolutionView::Failed(RepoErrorView::AbsolutionError(path)),
                },
                _ => ResolutionView::Refused,
            },
            ResolutionView::Alone { path } => match answer {
                AnswerView::Text(_) => match accepted(answer) {
                    Some(dir) => ResolutionView::derived(dir),
                    None => ResolutionView::Failed(RepoErrorView::AbsolutionError(path)),
                },
                _ => ResolutionView::Refused,
            },
            ResolutionView::Derived { work_tree, path } => match answer {
                AnswerView::Text(_) => match accepted(answer) {
                    Some(dir) => ResolutionView::Found(RepositoryView { git_dir: dir, work_tree }),
                    None => ResolutionView::Failed(RepoErrorView::AbsolutionError(path)),
                },
                _ => ResolutionView::Refused,
            },
            ResolutionView::Found(_) => self,
            ResolutionView::Bare { .. } => self,
            ResolutionView::Failed(_) => self,
            ResolutionView::Refused => self,
        }
    }

    /// How far the state is from the end, counted in kinds of states.
    pub open spec fn rank(self) -> nat {
        match self {
            ResolutionView::GitDirVariable => 12,
            ResolutionView::CurrentDir => 11,
            ResolutionView::Start { .. } => 10,
            ResolutionView::Head { .. } => 9,
            ResolutionView::Objects { .. } => 8,
            ResolutionView::Walk { .. } => 7,
            ResolutionView::GitDir { .. } => 6,
            ResolutionView::WorkTreeVariable { .. } => 5,
            ResolutionView::Bareness { .. } => 4,
            ResolutionView::WorkTree { .. } => 3,
            ResolutionView::Alone { .. } => 2,
            ResolutionView::Derived { .. } => 1,
            ResolutionView::Found(_) => 0,
            ResolutionView::Bare { .. } => 0,
            ResolutionView::Failed(_) => 0,
            ResolutionView::Refused => 0,
        }
    }

    /// How long the path is that a walk has reached.
    pub open spec fn span(self) -> nat {
        match self {
            ResolutionView::Walk { dir, .. } => dir.len(),
            _ => 0,
        }
    }

    /// The state in which the resolution ends where `world` gives the answers.
    pub open spec fn end(self, world: World) -> ResolutionView
        decreases self.rank(), self.span(),
    {
        match self.query() {
            Some(query) => self.advance(world.answer(query)).end(world),
            None => self,
        }
    }
}

/// `path` below the directory `change`, and `path` itself where there is no such
/// directory.
pub open spec fn below(change: Option<Seq<char>>, path: Seq<char>) -> Seq<char> {
    match change {
        Some(root) => path_join(root, path),
        None => path,
    }
}

/// All that a resolution can ask about, at one moment.
pub struct World {
    /// The environment variables that are set.
    pub variables: Map<Seq<char>, Seq<char>>,
    /// The current directory, where it can be had.
    pub current_dir: Option<Seq<char>>,
    /// The canonical form of each path that exists.
    pub canonical: Map<Seq<char>, Seq<char>>,
    /// The paths that name a file.
    pub files: Set<Seq<char>>,
    /// The paths that name a directory.
    pub directories: Set<Seq<char>>,
    /// The paths that name anything.
    pub entries: Set<Seq<char>>,
    /// How each call ends.
    pub runs: spec_fn(InvocationView) -> OutcomeView,
}

impl World {
    /// What the world answers.
    pub open spec fn answer(self, query: QueryView) -> AnswerView {
        match query {
            QueryView::Variable(name) => AnswerView::Text(
                if self.variables.contains_key(name) {
                    Some(self.variables[name])
                } else {
                    None
                },
            ),
            QueryView::CurrentDir => AnswerView::Text(self.current_dir),
            QueryView::Canonical(path) => AnswerView::Text(
                if self.canonical.contains_key(path) {
                    Some(self.canonical[path])
                } else {
                    None
                },
            ),
            QueryView::IsFile(path) => AnswerView::Flag(self.files.contains(path)),
            QueryView::IsDir(path) => AnswerView::Flag(self.directories.contains(path)),
            QueryView::Exists(path) => AnswerView::Flag(self.entries.contains(path)),
            QueryView::Run(call) => AnswerView::Ran((self.runs)(call)),
        }
    }

    /// Where `path` is in this world: `path` itself where it is absolute, else its
    /// canonical form.
    pub open spec fn located(self, path: Seq<char>) -> Option<Seq<char>> {
        if path_is_absolute(path) {
            Some(path)
        } else {
            accepted(self.answer(QueryView::Canonical(path)))
        }
    }

    /// Whether `dir` is marked as a metadata directory: it holds a file `HEAD` and a
    /// directory `objects`.
    pub open spec fn marked(self, dir: Seq<char>) -> bool {
        self.files.contains(head_file(dir)) && self.directories.contains(objects_dir(dir))
    }

    /// Whether `dir` holds a directory `.git`.
    pub open spec fn has_git_dir(self, dir: Seq<char>) -> bool {
        self.directories.contains(path_join(dir, dot_git()))
    }

    /// Whether the tool says that `git_dir` belongs to a bare repository.
    pub open spec fn bare(self, git_dir: Seq<char>) -> bool {
        says_bare((self.runs)(bareness_call(git_dir)))
    }
}

/// How the working tree will be found once the metadata directory is known.
#[derive(Debug)]
enum Work {
    Environment,
    Derive,
    Hint(String),
    Nothing,
}

impl View for Work {
    type V = WorkView;

    closed spec fn view(&self) -> WorkView {
        match self {
            Work::Environment => WorkView::Environment,
            Work::Derive => WorkView::Derive,
            Work::Hint(path) => WorkView::Hint(path@),
            Work::Nothing => WorkView::Nothing,
        }
    }
}

#[allow(inconsistent_fields)]
#[derive(Debug)]
enum Stage {
    GitDirVariable,
    CurrentDir,
    Start { path: String, work: Work },
    Head { dir: AbsoluteDirPath, work: Work },
    Objects { dir: AbsoluteDirPath, work: Work },
    Walk { dir: String, work: Work },
    GitDir { path: String, work: Work },
    WorkTreeVariable { git_dir: AbsoluteDirPath },
    Bareness { git_dir: AbsoluteDirPath },
    WorkTree { git_dir: AbsoluteDirPath, path: String },
    Alone { path: String },
    Derived { work_tree: AbsoluteDirPath, path: String },
    Found(Repository),
    Bare { git_dir: AbsoluteDirPath },
    Failed(RepoError),
    Refused,
}

impl View for Stage {
    type V = ResolutionView;

    closed spec fn view(&self) -> ResolutionView {
        match self {
            Stage::GitDirVariable => ResolutionView::GitDirVariable,
            Stage::CurrentDir => ResolutionView::CurrentDir,
            Stage::Start { path, work } => ResolutionView::Start { path: path@, work: work@ },
            Stage::Head { dir, work } => ResolutionView::Head { dir: dir@, work: work@ },
            Stage::Objects { dir, work } => ResolutionView::Objects { dir: dir@, work: work@ },
            Stage::Walk { dir, work } => ResolutionView::Walk { dir: dir@, work: work@ },
            Stage::GitDir { path, work } => ResolutionView::GitDir { path: path@, work: work@ },
            Stage::WorkTreeVariable { git_dir } => ResolutionView::WorkTreeVariable {
                git_dir: git_dir@,
            },
            Stage::Bareness { git_dir } => ResolutionView::Bareness { git_dir: git_dir@ },
            Stage::WorkTree { git_dir, path } => ResolutionView::WorkTree {
                git_dir: git_dir@,
                path: path@,
            },
            Stage::Alone { path } => ResolutionView::Alone { path: path@ },
            Stage::Derived { work_tree, path } => ResolutionView::Derived {
                work_tree: work_tree@,
                path: path@,
            },
            Stage::Found(repo) => ResolutionView::Found(repo@),
            Stage::Bare { git_dir } => ResolutionView::Bare { git_dir: git_dir@ },
            Stage::Failed(error) => ResolutionView::Failed(error@),
            Stage::Refused => ResolutionView::Refused,
        }
    }
}

/// A resolution under way: see [`ResolutionView`] for its states.
#[derive(Debug)]
pub struct Resolution {
    stage: Stage,
}

impl View for Resolution {
    type V = ResolutionView;

    closed spec fn view(&self) -> ResolutionView {
        self.stage@
    }
}

/// The call that asks the tool whether `git_dir` belongs to a bare repository.
pub fn bareness_query(git_dir: &AbsoluteDirPath) -> (call: Invocation)
    ensures
        call@ == bareness_call(git_dir@),
{
    Invocation::new("git").arg("--git-dir").arg(git_dir.as_str()).arg("rev-parse").arg(
        "--is-bare-repository",
    )
}

/// Whether the tool says that the repository is bare.
pub fn is_bare(outcome: &Outcome) -> (bare: bool)
    ensures
        bare == says_bare(outcome@),
{
    if outcome.success() {
        let text = lossy(outcome.stdout.as_slice());
        same(text.as_str(), "true")
    } else {
        false
    }
}

/// The canonical form that `answer` gives, if it is one.
fn accepted_path(answer: &Answer) -> (path: Option<AbsoluteDirPath>)
    ensures
        match path {
            Some(p) => accepted(answer@) == Some(p@),
            None => accepted(answer@).is_none(),
        },
{
    match answer {
        Answer::Text(Some(text)) => match AbsoluteDirPath::new(text.clone()) {
            Ok(path) => Some(path),
            Err(_) => None,
        },
        _ => None,
    }
}

fn search(start: String, work: Work) -> (stage: Stage)
    ensures
        stage@ == ResolutionView::search(start@, work@),
{
    match AbsoluteDirPath::new(start) {
        Ok(dir) => Stage::Head { dir, work },
        Err(path) => Stage::Start { path, work },
    }
}

fn git_dir_from(path: String, work: Work) -> (stage: Stage)
    ensures
        stage@ == ResolutionView::git_dir_from(path@, work@),
{
    match AbsoluteDirPath::new(path) {
        Ok(git_dir) => with_git_dir(git_dir, work),
        Err(path) => Stage::GitDir { path, work },
    }
}

fn with_git_dir(git_dir: AbsoluteDirPath, work: Work) -> (stage: Stage)
    ensures
        stage@ == ResolutionView::with_git_dir(git_dir@, work@),
{
    match work {
        Work::Environment => Stage::WorkTreeVariable { git_dir },
        Work::Derive => Stage::Bareness { git_dir },
        Work::Hint(path) => work_tree_from(git_dir, path),
        Work::Nothing => Stage::Bare { git_dir },
    }
}

fn work_tree_from(git_dir: AbsoluteDirPath, path: String) -> (stage: Stage)
    ensures
        stage@ == ResolutionView::work_tree_from(git_dir@, path@),
{
    match AbsoluteDirPath::new(path) {
        Ok(work_tree) => Stage::Found(Repository::new(git_dir, work_tree)),
        Err(path) => Stage::WorkTree { git_dir, path },
    }
}

fn alone(path: String) -> (stage: Stage)
    ensures
        stage@ == ResolutionView::alone(path@),
{
    match AbsoluteDirPath::new(path) {
        Ok(work_tree) => derived(work_tree),
        Err(path) => Stage::Alone { path },
    }
}

fn derived(work_tree: AbsoluteDirPath) -> (stage: Stage)
    ensures
        stage@ == ResolutionView::derived(work_tree@),
{
    match AbsoluteDirPath::new(join(work_tree.as_str(), ".git")) {
        Ok(git_dir) => Stage::Found(Repository::new(git_dir, work_tree)),
        Err(path) => Stage::Derived { work_tree, path },
    }
}

fn parted(git_dir: AbsoluteDirPath, bare: bool) -> (stage: Stage)
    ensures
        stage@ == ResolutionView::parted(git_dir@, bare),
{
    if bare {
        Stage::Bare { git_dir }
    } else {
        match parent(git_dir.as_str()) {
            Some(dir) => work_tree_from(git_dir, dir),
            None => Stage::Bare { git_dir },
        }
    }
}

/// `path` below the directory `change`, and `path` itself where there is no such
/// directory.
fn placed(change: Option<&str>, path: &str) -> (whole: String)
    ensures
        whole@ == below(
            match change {
                Some(root) => Some(root@),
                None => None,
            },
            path@,
        ),
{
    match change {
        Some(root) => join(root, path),
        None => path.to_owned(),
    }
}

impl Resolution {
    /// What the resolution needs to know next, or what it has ended with: a repository,
    /// with or without a working tree, or the reason why there is none.
    pub fn next(&self) -> (step: Step<Result<RepositoryContext, RepoError>>)
        ensures
            match step {
                Step::Ask(query) => self@.query() == Some(query@),
                Step::Done(Ok(context)) => match context@ {
                    RepositoryContextView::Normal(repo) => self@ == ResolutionView::Found(repo),
                    RepositoryContextView::Bare(git_dir) => self@ == (ResolutionView::Bare {
                        git_dir,
                    }),
                },
                Step::Done(Err(error)) => self@ == ResolutionView::Failed(error@),
                Step::Fatal(violation) => self@ == ResolutionView::Refused && violation
                    == Violation::Answer,
            },
    {
        match &self.stage {
            Stage::GitDirVariable => Step::Ask(Query::Variable("GIT_DIR".to_owned())),
            Stage::CurrentDir => Step::Ask(Query::CurrentDir),
            Stage::Start { path, .. } => Step::Ask(Query::Canonical(path.clone())),
            Stage::Head { dir, .. } => Step::Ask(Query::IsFile(join(dir.as_str(), "HEAD"))),
            Stage::Objects { dir, .. } => Step::Ask(
                Query::IsDir(join(dir.as_str(), "objects")),
            ),
            Stage::Walk { dir, .. } => Step::Ask(Query::IsDir(join(dir.as_str(), ".git"))),
            Stage::GitDir { path, .. } => Step::Ask(Query::Canonical(path.clone())),
            Stage::WorkTreeVariable { .. } => Step::Ask(
                Query::Variable("GIT_WORK_TREE".to_owned()),
            ),
            Stage::Bareness { git_dir } => Step::Ask(Query::Run(bareness_query(git_dir))),
            Stage::WorkTree { path, .. } => Step::Ask(Query::Canonical(path.clone())),
            Stage::Alone { path } => Step::Ask(Query::Canonical(path.clone())),
            Stage::Derived { path, .. } => Step::Ask(Query::Canonical(path.clone())),
            Stage::Found(repo) => Step::Done(Ok(RepositoryContext::Normal(repo.clone()))),
            Stage::Bare { git_dir } => Step::Done(
                Ok(RepositoryContext::Bare(BareRepository::new(git_dir.clone()))),
            ),
            Stage::Failed(error) => Step::Done(Err(error.clone())),
            Stage::Refused => Step::Fatal(Violation::Answer),
        }
    }

    /// Takes the answer to what the resolution asked. An answer of another kind than the
    /// query is refused; a resolution that has ended stays as it is.
    pub fn advance(self, answer: &Answer) -> (next: Resolution)
        ensures
            next@ == self@.advance(answer@),
    {
        let stage = match self.stage {
            Stage::GitDirVariable => match answer {
                Answer::Text(Some(path)) => git_dir_from(path.clone(), Work::Environment),
                Answer::Text(None) => Stage::CurrentDir,
                _ => Stage::Refused,
            },
            Stage::CurrentDir => match answer {
                Answer::Text(Some(dir)) => search(dir.clone(), Work::Environment),
                Answer::Text(None) => Stage::Failed(RepoError::FailAccessCwd),
                _ => Stage::Refused,
            },
            Stage::Start { path, work } => match answer {
                Answer::Text(_) => match accepted_path(answer) {
                    Some(dir) => Stage::Head { dir, work },
                    None => Stage::Failed(RepoError::InvalidDirectory(path)),
                },
                _ => Stage::Refused,
            },
            Stage::Head { dir, work } => match answer {
                Answer::Flag(true) => Stage::Objects { dir, work },
                Answer::Flag(false) => Stage::Walk { dir: dir.as_str().to_owned(), work },
                _ => Stage::Refused,
            },
            Stage::Objects { dir, work } => match answer {
                Answer::Flag(true) => with_git_dir(dir, work),
                Answer::Flag(false) => Stage::Walk { dir: dir.as_str().to_owned(), work },
                _ => Stage::Refused,
            },
            Stage::Walk { dir, work } => match answer {
                Answer::Flag(true) => git_dir_from(join(dir.as_str(), ".git"), work),
                Answer::Flag(false) => match parent(dir.as_str()) {
                    Some(above) => Stage::Walk { dir: above, work },
                    None => Stage::Failed(RepoError::GitDirNotFound),
                },
                _ => Stage::Refused,
            },
            Stage::GitDir { path, work } => match answer {
                Answer::Text(_) => match accepted_path(answer) {
                    Some(dir) => with_git_dir(dir, work),
                    None => Stage::Failed(RepoError::AbsolutionError(path)),
                },
                _ => Stage::Refused,
            },
            Stage::WorkTreeVariable { git_dir } => match answer {
                Answer::Text(Some(path)) => work_tree_from(git_dir, path.clone()),
                Answer::Text(None) => Stage::Bareness { git_dir },
                _ => Stage::Refused,
            },
            Stage::Bareness { git_dir } => match answer {
                Answer::Ran(outcome) => parted(git_dir, is_bare(outcome)),
                Answer::Failed(_) => parted(git_dir, false),
                _ => Stage::Refused,
            },
            Stage::WorkTree { git_dir, path } => match answer {
                Answer::Text(_) => match accepted_path(answer) {
                    Some(dir) => Stage::Found(Repository::new(git_dir, dir)),
                    None => Stage::Failed(RepoError::AbsolutionError(path)),
                },
                _ => Stage::Refused,
            },
            Stage::Alone { path } => match answer {
                Answer::Text(_) => match accepted_path(answer) {
                    Some(dir) => derived(dir),
                    None => Stage::Failed(RepoError::AbsolutionError(path)),
                },
                _ => Stage::Refused,
            },
            Stage::Derived { work_tree, path } => match answer {
                Answer::Text(_) => match accepted_path(answer) {
                    Some(dir) => Stage::Found(Repository::new(dir, work_tree)),
                    None => Stage::Failed(RepoError::AbsolutionError(path)),
                },
                _ => Stage::Refused,
            },
            Stage::Found(repo) => Stage::Found(repo),
            Stage::Bare { git_dir } => Stage::Bare { git_dir },
            Stage::Failed(error) => Stage::Failed(error),
            Stage::Refused => Stage::Refused,
        };
        Resolution { stage }
    }
}

/// The search for the metadata directory alone. It starts at `start`: that directory is
/// the metadata directory where it holds a file `HEAD` and a directory `objects`; else
/// the first of `start` and its ancestors that holds a directory `.git` decides, and
/// that directory `.git` is it.
pub fn search_git_dir(start: &str) -> (resolution: Resolution)
    ensures
        resolution@ == ResolutionView::search(start@, WorkView::Nothing),
{
    Resolution { stage: search(start.to_owned(), Work::Nothing) }
}

/// The resolution of the working tree of `git_dir`: its parent, unless the tool says that
/// the repository is bare.
pub fn work_tree_from_git_dir(git_dir: &AbsoluteDirPath) -> (resolution: Resolution)
    ensures
        resolution@ == (ResolutionView::Bareness { git_dir: git_dir@ }),
{
    Resolution { stage: Stage::Bareness { git_dir: git_dir.clone() } }
}

/// The resolution of the metadata directory of `work_tree`: the entry `.git` in it,
/// whether or not there is one.
pub fn git_dir_from_work_tree(work_tree: &AbsoluteDirPath) -> (resolution: Resolution)
    ensures
        resolution@ == ResolutionView::derived(work_tree@),
{
    Resolution { stage: derived(work_tree.clone()) }
}

impl Repository {
    /// The resolution that searches from `path` and then finds the working tree of what
    /// the search found.
    pub fn discover(path: &str) -> (resolution: Resolution)
        ensures
            resolution@ == ResolutionView::search(path@, WorkView::Derive),
    {
        Resolution { stage: search(path.to_owned(), Work::Derive) }
    }

    /// The resolution that goes by the environment: `GIT_DIR` and `GIT_WORK_TREE` where
    /// they are set, else a search from the current directory.
    pub fn default() -> (resolution: Resolution)
        ensures
            resolution@ == ResolutionView::from_args(None, None, None),
    {
        Resolution { stage: Stage::GitDirVariable }
    }

    /// The resolution from what the caller passed. `git` and `work` are taken below
    /// `change` where that is given. With `git` alone the working tree is derived from
    /// it; with `work` alone the metadata directory is the entry `.git` in it; with both
    /// neither is held against the other; with neither, the search starts at `change`,
    /// and without `change` the environment decides.
    pub fn from_args(change: Option<&str>, git: Option<&str>, work: Option<&str>) -> (resolution:
        Resolution)
        ensures
            resolution@ == ResolutionView::from_args(
                match change {
                    Some(c) => Some(c@),
                    None => None,
                },
                match git {
                    Some(g) => Some(g@),
                    None => None,
                },
                match work {
                    Some(w) => Some(w@),
                    None => None,
                },
            ),
    {
        let stage = match (git, work) {
            (Some(g), None) => git_dir_from(placed(change, g), Work::Derive),
            (None, Some(w)) => alone(placed(change, w)),
            (Some(g), Some(w)) => {
                let path = placed(change, w);
                git_dir_from(placed(change, g), Work::Hint(path))
            },
            (None, None) => match change {
                Some(root) => search(root.to_owned(), Work::Derive),
                None => Stage::GitDirVariable,
            },
        };
        Resolution { stage }
    }
}

} // verus!
