//! What holds of every resolution, in every world.

use crate::error::RepoErrorView;
use crate::exchange::AnswerView;
use crate::path::{
    ancestors,
    dot_git,
    head_file,
    path_is_absolute,
    path_join,
    path_parent,
    shorter_parent,
};
use crate::repository::RepositoryView;
use crate::resolve::{below, ResolutionView, WorkView, World};
use vstd::prelude::*;

verus! {

/// The ancestors of `dir` behind `dir` itself are those of its parent.
proof fn lemma_ancestors_above(dir: Seq<char>, i: int)
    requires
        0 < i < ancestors(dir).len(),
    ensures
        shorter_parent(dir) matches Some(above) && 0 <= i - 1 < ancestors(above).len()
            && ancestors(dir)[i] == ancestors(above)[i - 1],
{
}

/// A walk that finds no directory `.git` in `dir` nor in any ancestor of it ends without
/// a metadata directory.
proof fn lemma_walk_fails(world: World, dir: Seq<char>, work: WorkView)
    requires
        forall|i: int| 0 <= i < ancestors(dir).len() ==> !world.has_git_dir(#[trigger] ancestors(dir)[i]),
    ensures
        (ResolutionView::Walk { dir, work }).end(world) == ResolutionView::Failed(
            RepoErrorView::GitDirNotFound,
        ),
    decreases dir.len(),
{
    assert(ancestors(dir)[0] == dir);
    match shorter_parent(dir) {
        Some(above) => {
            assert forall|i: int| 0 <= i < ancestors(above).len() implies !world.has_git_dir(
                #[trigger] ancestors(above)[i],
            ) by {
                assert(ancestors(dir)[i + 1] == ancestors(above)[i]);
            }
            lemma_walk_fails(world, above, work);
        },
        None => {
            let failed = ResolutionView::Failed(RepoErrorView::GitDirNotFound);
            assert(failed.end(world) == failed);
        },
    }
}

/// A walk passes every directory that holds no directory `.git`.
proof fn lemma_walk_passes(world: World, dir: Seq<char>, k: int, work: WorkView)
    requires
        0 <= k < ancestors(dir).len(),
        forall|i: int| 0 <= i < k ==> !world.has_git_dir(#[trigger] ancestors(dir)[i]),
    ensures
        (ResolutionView::Walk { dir, work }).end(world) == (ResolutionView::Walk {
            dir: ancestors(dir)[k],
            work,
        }).end(world),
    decreases k,
{
    assert(ancestors(dir)[0] == dir);
    if k > 0 {
        lemma_ancestors_above(dir, k);
        let above = shorter_parent(dir).unwrap();
        assert forall|i: int| 0 <= i < k - 1 implies !world.has_git_dir(
            #[trigger] ancestors(above)[i],
        ) by {
            assert(ancestors(dir)[i + 1] == ancestors(above)[i]);
        }
        lemma_walk_passes(world, above, k - 1, work);
    }
}

/// A directory that is not marked as a metadata directory is searched from by a walk.
proof fn lemma_unmarked_is_walked(world: World, dir: Seq<char>, work: WorkView)
    requires
        !world.marked(dir),
    ensures
        (ResolutionView::Head { dir, work }).end(world) == (ResolutionView::Walk {
            dir,
            work,
        }).end(world),
{
    let looking = ResolutionView::Objects { dir, work };
    let walking = ResolutionView::Walk { dir, work };
    if world.files.contains(head_file(dir)) {
        assert((ResolutionView::Head { dir, work }).end(world) == looking.end(world));
        assert(looking.end(world) == walking.end(world));
    }
}

/// A directory that is marked as a metadata directory is taken as one.
proof fn lemma_marked_is_taken(world: World, dir: Seq<char>, work: WorkView)
    requires
        world.marked(dir),
    ensures
        (ResolutionView::Head { dir, work }).end(world) == ResolutionView::with_git_dir(
            dir,
            work,
        ).end(world),
{
    let looking = ResolutionView::Objects { dir, work };
    assert((ResolutionView::Head { dir, work }).end(world) == looking.end(world));
    assert(looking.end(world) == ResolutionView::with_git_dir(dir, work).end(world));
}

/// A search from a directory that is not marked as a metadata directory goes by the
/// first of the directory and its ancestors that holds a directory `.git`.
proof fn lemma_search_finds(world: World, start: Seq<char>, k: int, work: WorkView)
    requires
        world.located(start) matches Some(from) && !world.marked(from) && 0 <= k
            < ancestors(from).len() && world.has_git_dir(ancestors(from)[k]) && forall|i: int|
            0 <= i < k ==> !world.has_git_dir(#[trigger] ancestors(from)[i]),
    ensures
        ResolutionView::search(start, work).end(world) == ResolutionView::git_dir_from(
            path_join(ancestors(world.located(start).unwrap())[k], dot_git()),
            work,
        ).end(world),
{
    let from = world.located(start).unwrap();
    let marking = ResolutionView::Head { dir: from, work };
    let walking = ResolutionView::Walk { dir: from, work };
    assert(ResolutionView::search(start, work).end(world) == marking.end(world)) by {
        if !path_is_absolute(start) {
            let asking = ResolutionView::Start { path: start, work };
            assert(asking.end(world) == marking.end(world));
        }
    }
    lemma_unmarked_is_walked(world, from, work);
    lemma_walk_passes(world, from, k, work);
    let found = ResolutionView::Walk { dir: ancestors(from)[k], work };
    assert(found.end(world) == ResolutionView::git_dir_from(
        path_join(ancestors(from)[k], dot_git()),
        work,
    ).end(world));
}

/// A relative path that does not exist has no canonical form, and the resolution fails
/// with the failure of the place where the path stood: `InvalidDirectory` for the start
/// of a search, `AbsolutionError` for a metadata directory or a working tree.
pub proof fn relative_path_that_is_missing_fails(
    world: World,
    path: Seq<char>,
    work: WorkView,
    git_dir: Seq<char>,
)
    requires
        !path_is_absolute(path),
        world.located(path).is_none(),
    ensures
        ResolutionView::search(path, work).end(world) == ResolutionView::Failed(
            RepoErrorView::InvalidDirectory(path),
        ),
        ResolutionView::git_dir_from(path, work).end(world) == ResolutionView::Failed(
            RepoErrorView::AbsolutionError(path),
        ),
        ResolutionView::work_tree_from(git_dir, path).end(world) == ResolutionView::Failed(
            RepoErrorView::AbsolutionError(path),
        ),
        ResolutionView::alone(path).end(world) == ResolutionView::Failed(
            RepoErrorView::AbsolutionError(path),
        ),
{
    let invalid = ResolutionView::Failed(RepoErrorView::InvalidDirectory(path));
    let relative = ResolutionView::Failed(RepoErrorView::AbsolutionError(path));
    assert(invalid.end(world) == invalid);
    assert(relative.end(world) == relative);
    assert((ResolutionView::Start { path, work }).end(world) == invalid);
    assert((ResolutionView::GitDir { path, work }).end(world) == relative);
    assert((ResolutionView::WorkTree { git_dir, path }).end(world) == relative);
    assert((ResolutionView::Alone { path }).end(world) == relative);
}

/// A relative path that exists stands for its canonical form, which is absolute: the
/// resolution goes on as if that had been given.
pub proof fn relative_path_that_exists_is_made_absolute(
    world: World,
    path: Seq<char>,
    work: WorkView,
    git_dir: Seq<char>,
)
    requires
        !path_is_absolute(path),
        world.located(path).is_some(),
    ensures
        path_is_absolute(world.located(path).unwrap()),
        ResolutionView::search(path, work).end(world) == ResolutionView::search(
            world.located(path).unwrap(),
            work,
        ).end(world),
        ResolutionView::git_dir_from(path, work).end(world) == ResolutionView::git_dir_from(
            world.located(path).unwrap(),
            work,
        ).end(world),
        ResolutionView::work_tree_from(git_dir, path).end(world) == ResolutionView::Found(
            RepositoryView { git_dir, work_tree: world.located(path).unwrap() },
        ),
        ResolutionView::alone(path).end(world) == ResolutionView::alone(
            world.located(path).unwrap(),
        ).end(world),
{
    let at = world.located(path).unwrap();
    let found = ResolutionView::Found(RepositoryView { git_dir, work_tree: at });
    assert(found.end(world) == found);
    assert((ResolutionView::Start { path, work }).end(world) == (ResolutionView::Head {
        dir: at,
        work,
    }).end(world));
    assert((ResolutionView::GitDir { path, work }).end(world) == ResolutionView::with_git_dir(
        at,
        work,
    ).end(world));
    assert((ResolutionView::WorkTree { git_dir, path }).end(world) == found);
    assert((ResolutionView::Alone { path }).end(world) == ResolutionView::derived(at).end(world));
}

/// The state holds no path as absolute that is not: neither a directory that the
/// resolution has settled, nor a path of the repository that it has ended with.
pub open spec fn sound(state: ResolutionView) -> bool {
    match state {
        ResolutionView::Head { dir, .. } => path_is_absolute(dir),
        ResolutionView::Objects { dir, .. } => path_is_absolute(dir),
        ResolutionView::WorkTreeVariable { git_dir } => path_is_absolute(git_dir),
        ResolutionView::Bareness { git_dir } => path_is_absolute(git_dir),
        ResolutionView::WorkTree { git_dir, .. } => path_is_absolute(git_dir),
        ResolutionView::Derived { work_tree, .. } => path_is_absolute(work_tree),
        ResolutionView::Found(repo) => path_is_absolute(repo.git_dir) && path_is_absolute(
            repo.work_tree,
        ),
        ResolutionView::Bare { git_dir } => path_is_absolute(git_dir),
        _ => true,
    }
}

/// No answer makes a sound state unsound.
pub proof fn advance_keeps_sound(state: ResolutionView, answer: AnswerView)
    requires
        sound(state),
    ensures
        sound(state.advance(answer)),
{
}

/// Whatever the world, a resolution that starts sound ends sound: every path of the
/// repository that it ends with is absolute.
pub proof fn end_is_sound(state: ResolutionView, world: World)
    requires
        sound(state),
    ensures
        sound(state.end(world)),
    decreases state.rank(), state.span(),
{
    match state.query() {
        Some(query) => {
            advance_keeps_sound(state, world.answer(query));
            end_is_sound(state.advance(world.answer(query)), world);
        },
        None => {},
    }
}

/// Every resolution comes to an end, and a world refuses nothing: the end is a
/// repository, a metadata directory alone, or a failure.
pub proof fn resolution_ends(state: ResolutionView, world: World)
    ensures
        state.end(world).query().is_none(),
        state != ResolutionView::Refused ==> state.end(world) != ResolutionView::Refused,
    decreases state.rank(), state.span(),
{
    match state.query() {
        Some(query) => {
            resolution_ends(state.advance(world.answer(query)), world);
        },
        None => {},
    }
}

/// Resolution with relative paths, from what a caller passes. A relative path that does
/// not exist ends the resolution: as the start of a search with `InvalidDirectory`, as a
/// metadata directory or a working tree with `AbsolutionError`, each with the path as it
/// was asked for. And whatever was passed, the resolution ends sound: the paths of a
/// repository that is resolved are absolute.
pub proof fn resolution_makes_paths_absolute(
    world: World,
    change: Option<Seq<char>>,
    git: Option<Seq<char>>,
    work: Option<Seq<char>>,
    start: Seq<char>,
)
    ensures
        !path_is_absolute(start) && world.located(start).is_none() ==> ResolutionView::search(
            start,
            WorkView::Derive,
        ).end(world) == ResolutionView::Failed(RepoErrorView::InvalidDirectory(start)),
        git.is_some() && !path_is_absolute(below(change, git.unwrap())) && world.located(
            below(change, git.unwrap()),
        ).is_none() ==> ResolutionView::from_args(change, git, work).end(world)
            == ResolutionView::Failed(
            RepoErrorView::AbsolutionError(below(change, git.unwrap())),
        ),
        git.is_some() && world.located(below(change, git.unwrap())).is_some() && work.is_some()
            && !path_is_absolute(below(change, work.unwrap())) && world.located(
            below(change, work.unwrap()),
        ).is_none() ==> ResolutionView::from_args(change, git, work).end(world)
            == ResolutionView::Failed(
            RepoErrorView::AbsolutionError(below(change, work.unwrap())),
        ),
        git.is_none() && work.is_some() && !path_is_absolute(below(change, work.unwrap()))
            && world.located(below(change, work.unwrap())).is_none() ==> ResolutionView::from_args(
            change,
            git,
            work,
        ).end(world) == ResolutionView::Failed(
            RepoErrorView::AbsolutionError(below(change, work.unwrap())),
        ),
        sound(ResolutionView::from_args(change, git, work).end(world)),
        sound(ResolutionView::search(start, WorkView::Derive).end(world)),
        sound(ResolutionView::search(start, WorkView::Nothing).end(world)),
{
    end_is_sound(ResolutionView::from_args(change, git, work), world);
    end_is_sound(ResolutionView::search(start, WorkView::Derive), world);
    end_is_sound(ResolutionView::search(start, WorkView::Nothing), world);
    if !path_is_absolute(start) && world.located(start).is_none() {
        relative_path_that_is_missing_fails(world, start, WorkView::Derive, start);
    }
    match (git, work) {
        (Some(g), None) => {
            let path = below(change, g);
            if !path_is_absolute(path) && world.located(path).is_none() {
                relative_path_that_is_missing_fails(world, path, WorkView::Derive, path);
            }
        },
        (None, Some(w)) => {
            let path = below(change, w);
            if !path_is_absolute(path) && world.located(path).is_none() {
                relative_path_that_is_missing_fails(world, path, WorkView::Derive, path);
            }
        },
        (Some(g), Some(w)) => {
            let path = below(change, g);
            let tree = below(change, w);
            let hint = WorkView::Hint(tree);
            if !path_is_absolute(path) && world.located(path).is_none() {
                relative_path_that_is_missing_fails(world, path, hint, path);
            }
            if world.located(path).is_some() && !path_is_absolute(tree) && world.located(
                tree,
            ).is_none() {
                let at = world.located(path).unwrap();
                relative_path_that_is_missing_fails(world, tree, hint, at);
                if !path_is_absolute(path) {
                    relative_path_that_exists_is_made_absolute(world, path, hint, path);
                }
            }
        },
        (None, None) => {},
    }
}

/// Where neither the directory that a search starts from nor any of its ancestors holds
/// a metadata directory, the search fails with `GitDirNotFound`.
pub proof fn search_without_metadata_directory_fails(world: World, start: Seq<char>, work: WorkView)
    requires
        world.located(start) matches Some(from) && !world.marked(from) && forall|i: int|
            0 <= i < ancestors(from).len() ==> !world.has_git_dir(#[trigger] ancestors(from)[i]),
    ensures
        ResolutionView::search(start, work).end(world) == ResolutionView::Failed(
            RepoErrorView::GitDirNotFound,
        ),
{
    let from = world.located(start).unwrap();
    let marking = ResolutionView::Head { dir: from, work };
    if !path_is_absolute(start) {
        let asking = ResolutionView::Start { path: start, work };
        assert(asking.end(world) == marking.end(world));
    }
    lemma_unmarked_is_walked(world, from, work);
    lemma_walk_fails(world, from, work);
}

/// A search that starts in a directory with a file `HEAD` and a directory `objects`
/// takes that directory as the metadata directory, whatever its ancestors hold. The
/// search alone ends there, with no working tree; so does a resolution that derives the
/// working tree, where the tool says that the repository is bare.
pub proof fn search_from_metadata_directory_stays(world: World, start: Seq<char>, work: WorkView)
    requires
        world.located(start) matches Some(from) && world.marked(from),
    ensures
        ResolutionView::search(start, work).end(world) == ResolutionView::with_git_dir(
            world.located(start).unwrap(),
            work,
        ).end(world),
        ResolutionView::search(start, WorkView::Nothing).end(world) == (ResolutionView::Bare {
            git_dir: world.located(start).unwrap(),
        }),
        world.bare(world.located(start).unwrap()) ==> ResolutionView::search(
            start,
            WorkView::Derive,
        ).end(world) == (ResolutionView::Bare { git_dir: world.located(start).unwrap() }),
{
    let from = world.located(start).unwrap();
    let bare = ResolutionView::Bare { git_dir: from };
    assert(bare.end(world) == bare);
    assert forall|any: WorkView|
        ResolutionView::search(start, any).end(world) == ResolutionView::with_git_dir(
            from,
            any,
        ).end(world) by {
        let marking = ResolutionView::Head { dir: from, work: any };
        if !path_is_absolute(start) {
            let asking = ResolutionView::Start { path: start, work: any };
            assert(asking.end(world) == marking.end(world));
        }
        lemma_marked_is_taken(world, from, any);
    }
    if world.bare(from) {
        let asking = ResolutionView::Bareness { git_dir: from };
        assert(asking.end(world) == bare.end(world));
    }
}

/// A search from below a working tree ends as the search from the working tree itself:
/// where `tree` holds a directory `.git`, and `start` lies in `tree` with no directory
/// `.git` nearer to it, and neither of the two is marked as a metadata directory.
pub proof fn search_from_below_finds_the_same(
    world: World,
    start: Seq<char>,
    tree: Seq<char>,
    depth: int,
    work: WorkView,
)
    requires
        world.located(start) matches Some(from) && world.located(tree) matches Some(top) && 0
            <= depth < ancestors(from).len() && ancestors(from)[depth] == top
            && world.has_git_dir(top) && !world.marked(from) && !world.marked(top) && forall|i: int| 0 <= i < depth ==> !world.has_git_dir(#[trigger] ancestors(from)[i]),
    ensures
        ResolutionView::search(start, work).end(world) == ResolutionView::search(tree, work).end(
            world,
        ),
        ResolutionView::search(start, work).end(world) == ResolutionView::git_dir_from(
            path_join(world.located(tree).unwrap(), dot_git()),
            work,
        ).end(world),
{
    let top = world.located(tree).unwrap();
    lemma_search_finds(world, start, depth, work);
    assert(ancestors(top)[0] == top);
    lemma_search_finds(world, tree, 0, work);
}

/// The working tree that is derived from a metadata directory leads back to it. Where the
/// tool does not call the repository of `git_dir` bare, resolution from `git_dir` alone
/// ends with its parent as the working tree; and where `git_dir` is the entry `.git` of
/// that working tree, resolution from the working tree alone ends with the same
/// repository.
pub proof fn derived_working_tree_leads_back(
    world: World,
    git_dir: Seq<char>,
    above: Seq<char>,
    work_tree: Seq<char>,
)
    requires
        path_is_absolute(git_dir),
        !world.bare(git_dir),
        path_parent(git_dir) == Some(above),
        world.located(above) == Some(work_tree),
        world.located(path_join(work_tree, dot_git())) == Some(git_dir),
    ensures
        ResolutionView::from_args(None, Some(git_dir), None).end(world) == ResolutionView::Found(
            RepositoryView { git_dir, work_tree },
        ),
        ResolutionView::from_args(None, None, Some(work_tree)).end(world) == ResolutionView::Found(
            RepositoryView { git_dir, work_tree },
        ),
{
    let found = ResolutionView::Found(RepositoryView { git_dir, work_tree });
    assert(found.end(world) == found);
    assert(below(None, git_dir) == git_dir);
    assert(below(None, work_tree) == work_tree);
    let asking = ResolutionView::Bareness { git_dir };
    assert(asking.end(world) == ResolutionView::work_tree_from(git_dir, above).end(world));
    if !path_is_absolute(above) {
        relative_path_that_exists_is_made_absolute(world, above, WorkView::Derive, git_dir);
    }
    let inside = path_join(work_tree, dot_git());
    if !path_is_absolute(inside) {
        let waiting = ResolutionView::Derived { work_tree, path: inside };
        assert(waiting.end(world) == found.end(world));
    }
}

} // verus!
