use git_wrapper::{
    git_dir_from_work_tree, search_git_dir, work_tree_from_git_dir, AbsoluteDirPath, Answer,
    Outcome, PosixError, Query, RepoError, Repository, RepositoryContext, Resolution, Step,
    Violation,
};
use std::collections::{HashMap, HashSet};

/// A file system, an environment and a tool, all made up.
struct World {
    variables: HashMap<String, String>,
    current_dir: Option<String>,
    canonical: HashMap<String, String>,
    files: HashSet<String>,
    directories: HashSet<String>,
    bare: HashSet<String>,
    asked: std::cell::RefCell<Vec<Query>>,
}

impl World {
    fn new() -> World {
        World {
            variables: HashMap::new(),
            current_dir: None,
            canonical: HashMap::new(),
            files: HashSet::new(),
            directories: HashSet::new(),
            bare: HashSet::new(),
            asked: std::cell::RefCell::new(Vec::new()),
        }
    }

    fn dir(mut self, path: &str) -> World {
        self.directories.insert(path.to_string());
        self
    }

    fn file(mut self, path: &str) -> World {
        self.files.insert(path.to_string());
        self
    }

    fn marked(self, path: &str) -> World {
        self.file(&format!("{}/HEAD", path)).dir(&format!("{}/objects", path))
    }

    fn bare(mut self, path: &str) -> World {
        self.bare.insert(path.to_string());
        self
    }

    fn canonical(mut self, path: &str, form: &str) -> World {
        self.canonical.insert(path.to_string(), form.to_string());
        self
    }

    fn variable(mut self, name: &str, value: &str) -> World {
        self.variables.insert(name.to_string(), value.to_string());
        self
    }

    fn cwd(mut self, path: &str) -> World {
        self.current_dir = Some(path.to_string());
        self
    }

    fn answer(&self, query: &Query) -> Answer {
        match query {
            Query::Variable(name) => Answer::Text(self.variables.get(name).cloned()),
            Query::CurrentDir => Answer::Text(self.current_dir.clone()),
            Query::Canonical(path) => Answer::Text(self.canonical.get(path).cloned()),
            Query::IsFile(path) => Answer::Flag(self.files.contains(path)),
            Query::IsDir(path) => Answer::Flag(self.directories.contains(path)),
            Query::Exists(path) => Answer::Flag(self.directories.contains(path)),
            Query::Run(call) => {
                assert_eq!(call.program, "git");
                assert_eq!(call.args.len(), 4);
                assert_eq!(call.args[0], "--git-dir");
                assert_eq!(call.args[2], "rev-parse");
                assert_eq!(call.args[3], "--is-bare-repository");
                assert!(call.env.is_empty());
                assert_eq!(call.cwd, None);
                let word: &[u8] = if self.bare.contains(&call.args[1]) {
                    b"true"
                } else {
                    b"false"
                };
                Answer::Ran(Outcome { code: Some(0), stdout: word.to_vec(), stderr: Vec::new() })
            }
        }
    }

    fn resolve(&self, start: Resolution) -> Result<RepositoryContext, RepoError> {
        let mut resolution = start;
        let mut steps = 0;
        loop {
            match resolution.next() {
                Step::Ask(query) => {
                    let answer = self.answer(&query);
                    self.asked.borrow_mut().push(query);
                    resolution = resolution.advance(&answer);
                }
                Step::Done(result) => return result,
                Step::Fatal(violation) => panic!("violation: {:?}", violation),
            }
            steps += 1;
            assert!(steps < 1000);
        }
    }

    fn asked(&self) -> Vec<Query> {
        self.asked.borrow_mut().drain(..).collect()
    }
}

fn normal(context: RepositoryContext) -> (String, String) {
    match context {
        RepositoryContext::Normal(repo) => (
            repo.git_dir_path().to_string(),
            repo.work_tree().unwrap(),
        ),
        RepositoryContext::Bare(repo) => panic!("bare: {:?}", repo),
    }
}

fn bare(context: RepositoryContext) -> String {
    match context {
        RepositoryContext::Bare(repo) => repo.git_dir().as_str().to_string(),
        RepositoryContext::Normal(repo) => panic!("not bare: {:?}", repo),
    }
}

#[test]
fn git_dir_not_found() {
    let world = World::new().dir("/tmp/empty");
    let actual = world
        .resolve(Repository::discover("/tmp/empty"))
        .and_then(|context| context.repository());
    assert!(actual.is_err(), "Fail to find repo in an empty directory");
    let actual = actual.err().unwrap();
    assert!(actual == RepoError::GitDirNotFound);
}

#[test]
fn search_asks_each_ancestor_once_nearest_first() {
    let world = World::new();
    let actual = world.resolve(search_git_dir("/a/b/c"));
    assert_eq!(actual, Err(RepoError::GitDirNotFound));
    assert_eq!(
        world.asked(),
        vec![
            Query::IsFile("/a/b/c/HEAD".to_string()),
            Query::IsDir("/a/b/c/.git".to_string()),
            Query::IsDir("/a/b/.git".to_string()),
            Query::IsDir("/a/.git".to_string()),
            Query::IsDir("/.git".to_string()),
        ]
    );
}

#[test]
fn search_stops_at_the_nearest_git_dir() {
    let world = World::new().dir("/a/.git").dir("/a/b/.git");
    let found = bare(world.resolve(search_git_dir("/a/b/c")).unwrap());
    assert_eq!(found, "/a/b/.git");
    assert_eq!(
        world.asked(),
        vec![
            Query::IsFile("/a/b/c/HEAD".to_string()),
            Query::IsDir("/a/b/c/.git".to_string()),
            Query::IsDir("/a/b/.git".to_string()),
        ]
    );
}

#[test]
fn discover_derives_the_working_tree_from_the_git_dir() {
    let world = World::new().dir("/work/repo/.git");
    let (git_dir, work_tree) =
        normal(world.resolve(Repository::discover("/work/repo/src/deep")).unwrap());
    assert_eq!(git_dir, "/work/repo/.git");
    assert_eq!(work_tree, "/work/repo");
}

#[test]
fn discover_is_the_same_from_every_depth() {
    let world = World::new().dir("/work/repo/.git");
    let top = world.resolve(Repository::discover("/work/repo")).unwrap();
    for start in ["/work/repo/a", "/work/repo/a/b", "/work/repo/a/b/c/d/e"] {
        let below = world.resolve(Repository::discover(start)).unwrap();
        assert_eq!(below, top, "{}", start);
    }
}

#[test]
fn a_nearer_git_dir_wins_over_the_working_tree_above() {
    let world = World::new().dir("/work/repo/.git").dir("/work/repo/vendor/.git");
    let (git_dir, _) =
        normal(world.resolve(Repository::discover("/work/repo/vendor/lib")).unwrap());
    assert_eq!(git_dir, "/work/repo/vendor/.git");
}

#[test]
fn a_metadata_directory_is_found_in_itself_whatever_lies_above() {
    let world = World::new()
        .marked("/srv/git/project.git")
        .bare("/srv/git/project.git")
        .dir("/srv/git/.git")
        .dir("/srv/.git");
    let found = bare(world.resolve(search_git_dir("/srv/git/project.git")).unwrap());
    assert_eq!(found, "/srv/git/project.git");
    assert_eq!(
        world.asked(),
        vec![
            Query::IsFile("/srv/git/project.git/HEAD".to_string()),
            Query::IsDir("/srv/git/project.git/objects".to_string()),
        ]
    );

    let context = world.resolve(Repository::discover("/srv/git/project.git")).unwrap();
    assert_eq!(bare(context), "/srv/git/project.git");
    let context = world.resolve(Repository::discover("/srv/git/project.git")).unwrap();
    assert_eq!(context.repository(), Err(RepoError::BareRepo));
}

#[test]
fn a_metadata_directory_needs_both_marks() {
    let world = World::new().file("/srv/half/HEAD").dir("/srv/.git");
    let found = bare(world.resolve(search_git_dir("/srv/half")).unwrap());
    assert_eq!(found, "/srv/.git");
    assert_eq!(
        world.asked(),
        vec![
            Query::IsFile("/srv/half/HEAD".to_string()),
            Query::IsDir("/srv/half/objects".to_string()),
            Query::IsDir("/srv/half/.git".to_string()),
            Query::IsDir("/srv/.git".to_string()),
        ]
    );
    let world = World::new().dir("/srv/half/objects").dir("/srv/half/HEAD").dir("/srv/.git");
    let found = bare(world.resolve(search_git_dir("/srv/half")).unwrap());
    assert_eq!(found, "/srv/.git");
    let world = World::new().file("/srv/half/HEAD").file("/srv/half/objects").dir("/srv/.git");
    let found = bare(world.resolve(search_git_dir("/srv/half")).unwrap());
    assert_eq!(found, "/srv/.git");
}

#[test]
fn a_metadata_directory_that_is_not_bare_has_its_parent_as_working_tree() {
    let world = World::new().marked("/work/repo/.git").dir("/work/repo/.git");
    let (git_dir, work_tree) =
        normal(world.resolve(Repository::discover("/work/repo/.git")).unwrap());
    assert_eq!(git_dir, "/work/repo/.git");
    assert_eq!(work_tree, "/work/repo");
}

#[test]
fn a_relative_start_that_is_missing_is_an_invalid_directory() {
    let world = World::new();
    let actual = world.resolve(Repository::discover("no/such/dir"));
    assert_eq!(actual, Err(RepoError::InvalidDirectory("no/such/dir".to_string())));
    assert_eq!(world.asked(), vec![Query::Canonical("no/such/dir".to_string())]);
}

#[test]
fn a_relative_start_that_exists_is_searched_from_its_canonical_form() {
    let world = World::new().canonical("src", "/work/repo/src").dir("/work/repo/.git");
    let (git_dir, work_tree) = normal(world.resolve(Repository::discover("src")).unwrap());
    assert_eq!(git_dir, "/work/repo/.git");
    assert_eq!(work_tree, "/work/repo");
}

#[test]
fn a_canonical_form_that_is_not_absolute_counts_as_none() {
    let world = World::new().canonical("src", "still/relative");
    let actual = world.resolve(Repository::discover("src"));
    assert_eq!(actual, Err(RepoError::InvalidDirectory("src".to_string())));
    let actual = world.resolve(Repository::from_args(None, Some("src"), None));
    assert_eq!(actual, Err(RepoError::AbsolutionError("src".to_string())));
}

#[test]
fn a_relative_hint_that_is_missing_is_an_absolution_error() {
    let world = World::new();
    let actual = world.resolve(Repository::from_args(None, Some("gone/.git"), None));
    assert_eq!(actual, Err(RepoError::AbsolutionError("gone/.git".to_string())));
    let actual = world.resolve(Repository::from_args(None, None, Some("gone")));
    assert_eq!(actual, Err(RepoError::AbsolutionError("gone".to_string())));
    let actual = world.resolve(Repository::from_args(None, Some("/abs/.git"), Some("gone")));
    assert_eq!(actual, Err(RepoError::AbsolutionError("gone".to_string())));
    let actual = world.resolve(Repository::from_args(Some("base"), Some("x"), None));
    assert_eq!(actual, Err(RepoError::AbsolutionError("base/x".to_string())));
}

#[test]
fn a_relative_hint_that_exists_gives_absolute_paths() {
    let world = World::new()
        .canonical("repo/.git", "/work/repo/.git")
        .canonical("repo", "/work/repo");
    let (git_dir, work_tree) =
        normal(world.resolve(Repository::from_args(None, Some("repo/.git"), None)).unwrap());
    assert_eq!(git_dir, "/work/repo/.git");
    assert_eq!(work_tree, "/work/repo");
    let (git_dir, work_tree) =
        normal(world.resolve(Repository::from_args(None, None, Some("repo"))).unwrap());
    assert_eq!(git_dir, "/work/repo/.git");
    assert_eq!(work_tree, "/work/repo");
}

#[test]
fn an_absolute_hint_is_taken_as_it_is() {
    let world = World::new();
    let (git_dir, work_tree) = normal(
        world
            .resolve(Repository::from_args(None, Some("/nowhere/.git"), None))
            .unwrap(),
    );
    assert_eq!(git_dir, "/nowhere/.git");
    assert_eq!(work_tree, "/nowhere");
    assert_eq!(world.asked().len(), 1);
}

#[test]
fn both_hints_are_not_held_against_each_other() {
    let world = World::new();
    let (git_dir, work_tree) = normal(
        world
            .resolve(Repository::from_args(None, Some("/one/.git"), Some("/two")))
            .unwrap(),
    );
    assert_eq!(git_dir, "/one/.git");
    assert_eq!(work_tree, "/two");
    assert!(world.asked().is_empty());
}

#[test]
fn hints_are_taken_below_the_base_directory() {
    let world = World::new();
    let (git_dir, work_tree) = normal(
        world
            .resolve(Repository::from_args(Some("/base"), Some("meta"), Some("tree")))
            .unwrap(),
    );
    assert_eq!(git_dir, "/base/meta");
    assert_eq!(work_tree, "/base/tree");
    let (git_dir, work_tree) =
        normal(world.resolve(Repository::from_args(Some("/base"), None, Some("tree"))).unwrap());
    assert_eq!(git_dir, "/base/tree/.git");
    assert_eq!(work_tree, "/base/tree");
    let (git_dir, _) = normal(
        world
            .resolve(Repository::from_args(Some("/base"), Some("/else/.git"), None))
            .unwrap(),
    );
    assert_eq!(git_dir, "/else/.git");
}

#[test]
fn a_base_directory_alone_is_searched_from() {
    let world = World::new().dir("/base/.git");
    let (git_dir, work_tree) =
        normal(world.resolve(Repository::from_args(Some("/base/sub"), None, None)).unwrap());
    assert_eq!(git_dir, "/base/.git");
    assert_eq!(work_tree, "/base");
}

#[test]
fn the_round_trip_from_git_dir_to_working_tree_and_back() {
    let world = World::new();
    let hint = "/work/repo/.git";
    let (git_dir, work_tree) =
        normal(world.resolve(Repository::from_args(None, Some(hint), None)).unwrap());
    assert_eq!(git_dir, hint);
    let (derived, again) =
        normal(world.resolve(Repository::from_args(None, None, Some(&work_tree))).unwrap());
    assert_eq!(derived, hint);
    assert_eq!(again, work_tree);

    let tree = AbsoluteDirPath::new(work_tree).unwrap();
    let (derived, _) = normal(world.resolve(git_dir_from_work_tree(&tree)).unwrap());
    assert_eq!(derived, hint);
    let meta = AbsoluteDirPath::new(hint.to_string()).unwrap();
    let (_, back) = normal(world.resolve(work_tree_from_git_dir(&meta)).unwrap());
    assert_eq!(back, "/work/repo");
}

#[test]
fn the_round_trip_fails_for_a_git_dir_of_another_name() {
    let world = World::new();
    let (_, work_tree) =
        normal(world.resolve(Repository::from_args(None, Some("/srv/repo.git"), None)).unwrap());
    assert_eq!(work_tree, "/srv");
    let (derived, _) =
        normal(world.resolve(Repository::from_args(None, None, Some(&work_tree))).unwrap());
    assert_eq!(derived, "/srv/.git");
}

#[test]
fn default_goes_by_the_environment() {
    let world = World::new()
        .variable("GIT_DIR", "/env/meta")
        .variable("GIT_WORK_TREE", "/env/tree");
    let (git_dir, work_tree) = normal(world.resolve(Repository::default()).unwrap());
    assert_eq!(git_dir, "/env/meta");
    assert_eq!(work_tree, "/env/tree");
    assert_eq!(
        world.asked(),
        vec![
            Query::Variable("GIT_DIR".to_string()),
            Query::Variable("GIT_WORK_TREE".to_string()),
        ]
    );
}

#[test]
fn default_searches_from_the_current_directory() {
    let world = World::new().cwd("/home/me/project/src").dir("/home/me/project/.git");
    let (git_dir, work_tree) = normal(world.resolve(Repository::default()).unwrap());
    assert_eq!(git_dir, "/home/me/project/.git");
    assert_eq!(work_tree, "/home/me/project");

    let world = World::new()
        .cwd("/home/me/project/src")
        .dir("/home/me/project/.git")
        .variable("GIT_WORK_TREE", "/elsewhere");
    let (git_dir, work_tree) = normal(world.resolve(Repository::default()).unwrap());
    assert_eq!(git_dir, "/home/me/project/.git");
    assert_eq!(work_tree, "/elsewhere");
}

#[test]
fn default_without_a_current_directory_fails() {
    let world = World::new();
    assert_eq!(world.resolve(Repository::default()), Err(RepoError::FailAccessCwd));
}

#[test]
fn default_with_a_relative_variable_that_is_missing_fails() {
    let world = World::new().variable("GIT_DIR", "meta");
    assert_eq!(
        world.resolve(Repository::default()),
        Err(RepoError::AbsolutionError("meta".to_string()))
    );
    let world = World::new().variable("GIT_DIR", "/meta").variable("GIT_WORK_TREE", "tree");
    assert_eq!(
        world.resolve(Repository::default()),
        Err(RepoError::AbsolutionError("tree".to_string()))
    );
}

#[test]
fn a_git_dir_without_a_parent_is_bare() {
    let world = World::new();
    let context = world.resolve(Repository::from_args(None, Some("/"), None)).unwrap();
    assert_eq!(bare(context), "/");
}

fn said(code: Option<i32>, stdout: &[u8]) -> Answer {
    Answer::Ran(Outcome { code, stdout: stdout.to_vec(), stderr: Vec::new() })
}

fn bareness_after(answer: Answer) -> Result<RepositoryContext, RepoError> {
    let meta = AbsoluteDirPath::new("/work/repo/.git".to_string()).unwrap();
    let resolution = work_tree_from_git_dir(&meta).advance(&answer);
    match resolution.next() {
        Step::Done(result) => result,
        other => panic!("not done: {:?}", other),
    }
}

#[test]
fn only_the_word_true_from_a_call_that_succeeded_means_bare() {
    let context = bareness_after(said(Some(0), b"true")).unwrap();
    assert_eq!(bare(context), "/work/repo/.git");
    let not_bare: [&[u8]; 16] = [
        b"true\n",
        b" true",
        b"true ",
        b"\ttrue",
        b"true\r\n",
        b"false",
        b"false\n",
        b"True",
        b"TRUE",
        b"tr ue",
        b"true1",
        b"tru",
        b"",
        b"\n",
        b"truetrue",
        b"\xfftrue",
    ];
    for output in not_bare {
        let (_, work_tree) = normal(bareness_after(said(Some(0), output)).unwrap());
        assert_eq!(work_tree, "/work/repo", "{:?}", output);
    }
    for code in [Some(1), Some(128), Some(-1), None] {
        let (_, work_tree) = normal(bareness_after(said(code, b"true")).unwrap());
        assert_eq!(work_tree, "/work/repo", "{:?}", code);
    }
    let failed = Answer::Failed(PosixError::new(2, "no git".to_string()));
    let (_, work_tree) = normal(bareness_after(failed).unwrap());
    assert_eq!(work_tree, "/work/repo");
}

#[test]
fn an_answer_of_another_kind_is_refused() {
    let resolution = Repository::discover("/a").advance(&Answer::Text(None));
    assert_eq!(resolution.next(), Step::Fatal(Violation::Answer));
    let resolution = Repository::default().advance(&Answer::Flag(true));
    assert_eq!(resolution.next(), Step::Fatal(Violation::Answer));
    let resolution = resolution.advance(&Answer::Text(None));
    assert_eq!(resolution.next(), Step::Fatal(Violation::Answer));
}

#[test]
fn a_resolution_that_has_ended_stays_as_it_is() {
    let resolution = Repository::from_args(None, Some("/one/.git"), Some("/two"));
    let before = resolution.next();
    let resolution = resolution.advance(&Answer::Flag(false));
    assert_eq!(resolution.next(), before);
}

#[test]
fn try_from_follows_the_rule_for_paths() {
    let step = AbsoluteDirPath::try_from("/already/absolute", &[]);
    match step {
        Step::Done(Ok(path)) => assert_eq!(path.as_str(), "/already/absolute"),
        other => panic!("{:?}", other),
    }
    assert_eq!(
        AbsoluteDirPath::try_from("rel", &[]),
        Step::Ask(Query::Canonical("rel".to_string()))
    );
    match AbsoluteDirPath::try_from("rel", &[Answer::Text(Some("/now/rel".to_string()))]) {
        Step::Done(Ok(path)) => assert_eq!(path.as_str(), "/now/rel"),
        other => panic!("{:?}", other),
    }
    assert_eq!(
        AbsoluteDirPath::try_from("rel", &[Answer::Text(None)]),
        Step::Done(Err(RepoError::AbsolutionError("rel".to_string())))
    );
    assert_eq!(
        AbsoluteDirPath::try_from("rel", &[Answer::Flag(true)]),
        Step::Fatal(Violation::Answer)
    );
    assert!(AbsoluteDirPath::new("rel".to_string()).is_err());
    assert_eq!(AbsoluteDirPath::new("rel".to_string()), Err("rel".to_string()));
}
