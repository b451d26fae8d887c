//! Paths as text, with the path algebra of `std::path`.
//!
//! What is absolute, how two paths join and what the parent of a path is are questions of
//! the platform's path syntax. This module leaves them to `std::path::Path` and gives each
//! answer a name, so that contracts can speak of it.

use vstd::prelude::*;

verus! {

/// Whether `Path::is_absolute` holds of `path`.
pub uninterp spec fn path_is_absolute(path: Seq<char>) -> bool;

/// The path that `Path::join` makes of `base` and `more`.
pub uninterp spec fn path_join(base: Seq<char>, more: Seq<char>) -> Seq<char>;

/// The path that `Path::parent` gives for `path`: `path` without its final component,
/// `None` where it has none to drop.
pub uninterp spec fn path_parent(path: Seq<char>) -> Option<Seq<char>>;

/// The remainder that `Path::strip_prefix` gives for `path` below `base`, `None` where
/// `path` does not start with `base`.
pub uninterp spec fn path_strip_prefix(path: Seq<char>, base: Seq<char>) -> Option<Seq<char>>;

/// The name of the metadata directory inside a working tree.
pub open spec fn dot_git() -> Seq<char> {
    ".git"@
}

/// The file `HEAD` of the directory `dir`. A metadata directory has one.
pub open spec fn head_file(dir: Seq<char>) -> Seq<char> {
    path_join(dir, "HEAD"@)
}

/// The directory `objects` of the directory `dir`. A metadata directory has one.
pub open spec fn objects_dir(dir: Seq<char>) -> Seq<char> {
    path_join(dir, "objects"@)
}

/// The parent of `path`, as far as it is shorter than `path`. Every parent is: this is
/// what ends a walk towards the root.
pub open spec fn shorter_parent(path: Seq<char>) -> Option<Seq<char>> {
    match path_parent(path) {
        Some(parent) => if parent.len() < path.len() {
            Some(parent)
        } else {
            None
        },
        None => None,
    }
}

/// `path`, its parent, the parent of that, and so on to the last one that has a parent.
pub open spec fn ancestors(path: Seq<char>) -> Seq<Seq<char>>
    decreases path.len(),
{
    match shorter_parent(path) {
        Some(parent) => seq![path] + ancestors(parent),
        None => seq![path],
    }
}

/// `Path::is_absolute`: whether the path is absolute in the platform's syntax.
#[verifier::external_body]
pub(crate) fn is_absolute(path: &str) -> (absolute: bool)
    ensures
        absolute == path_is_absolute(path@),
{
    std::path::Path::new(path).is_absolute()
}

/// `Path::join`: `more` itself where it is absolute, else `base` extended by `more`.
/// Joining two paths that are text gives text.
#[verifier::external_body]
pub(crate) fn join(base: &str, more: &str) -> (joined: String)
    ensures
        joined@ == path_join(base@, more@),
{
    std::path::Path::new(base).join(more).to_string_lossy().into_owned()
}

/// `Path::parent`: the path without its final component, which is shorter than the path;
/// `None` where the path ends in a root or is empty.
#[verifier::external_body]
pub(crate) fn parent(path: &str) -> (parent: Option<String>)
    ensures
        match parent {
            Some(p) => path_parent(path@) == Some(p@) && p@.len() < path@.len(),
            None => path_parent(path@).is_none(),
        },
{
    match std::path::Path::new(path).parent() {
        Some(p) => Some(p.to_string_lossy().into_owned()),
        None => None,
    }
}

/// `Path::strip_prefix`: what is left of `path` below `base`, `None` where `base` is no
/// prefix of `path`.
#[verifier::external_body]
pub(crate) fn strip_prefix(path: &str, base: &str) -> (rest: Option<String>)
    ensures
        match rest {
            Some(r) => path_strip_prefix(path@, base@) == Some(r@),
            None => path_strip_prefix(path@, base@).is_none(),
        },
{
    match std::path::Path::new(path).strip_prefix(base) {
        Ok(r) => Some(r.to_string_lossy().into_owned()),
        Err(_) => None,
    }
}

/// A path that is absolute. Where the path came from text that was not, it is what the
/// file system gave as its canonical form, so it named a directory that existed then.
#[derive(Debug, PartialEq, Eq)]
pub struct AbsoluteDirPath {
    path: String,
}

impl View for AbsoluteDirPath {
    type V = Seq<char>;

    closed spec fn view(&self) -> Seq<char> {
        self.path@
    }
}

impl Clone for AbsoluteDirPath {
    fn clone(&self) -> (copy: Self)
        ensures
            copy@ == self@,
    {
        proof {
            use_type_invariant(self);
        }
        AbsoluteDirPath { path: self.path.clone() }
    }
}

impl AbsoluteDirPath {
    #[verifier::type_invariant]
    spec fn absolute(&self) -> bool {
        path_is_absolute(self.path@)
    }

    /// `path` as an absolute path, if it is one; else `path` is handed back.
    pub fn new(path: String) -> (made: Result<Self, String>)
        ensures
            match made {
                Ok(p) => path_is_absolute(path@) && p@ == path@,
                Err(p) => !path_is_absolute(path@) && p@ == path@,
            },
    {
        if is_absolute(path.as_str()) {
            Ok(AbsoluteDirPath { path })
        } else {
            Err(path)
        }
    }

    /// The path as text. It is absolute.
    pub fn as_str(&self) -> (path: &str)
        ensures
            path@ == self@,
            path_is_absolute(path@),
    {
        proof {
            use_type_invariant(self);
        }
        self.path.as_str()
    }
}

} // verus!
