use git_wrapper::x::reset_hard;
use git_wrapper::{
    config_file_set, ls_remote, resolve_head, tags_from_remote, AbsoluteDirPath, Answer,
    BareRepository, CommitError, ConfigReadError, ConfigSetError, InvalidCommitishError,
    InvalidRefError, Invocation, Outcome, PosixError, Query, RefSearchError, Repository,
    StagingError, StashingError, Step, SubtreeAddError, SubtreePullError, SubtreePushError,
    SubtreeSplitError, Violation,
};

fn repo() -> Repository {
    Repository::new(
        AbsoluteDirPath::new("/work/.git".to_string()).unwrap(),
        AbsoluteDirPath::new("/work".to_string()).unwrap(),
    )
}

fn bare_repo_at(path: &str) -> BareRepository {
    BareRepository::new(AbsoluteDirPath::new(path.to_string()).unwrap())
}

/// The call of the tool on the repository of `repo()`, with these arguments.
fn call(args: &[&str]) -> Query {
    Query::Run(Invocation {
        program: "git".to_string(),
        args: args.iter().map(|a| a.to_string()).collect(),
        env: vec![
            ("GIT_DIR".to_string(), "/work/.git".to_string()),
            ("GIT_WORK_TREE".to_string(), "/work".to_string()),
        ],
        cwd: Some("/work".to_string()),
    })
}

/// A call of the tool outside any repository.
fn plain(args: &[&str], cwd: Option<&str>) -> Query {
    Query::Run(Invocation {
        program: "git".to_string(),
        args: args.iter().map(|a| a.to_string()).collect(),
        env: Vec::new(),
        cwd: cwd.map(|d| d.to_string()),
    })
}

fn ran(code: i32, stdout: &str, stderr: &str) -> Answer {
    Answer::Ran(Outcome {
        code: Some(code),
        stdout: stdout.as_bytes().to_vec(),
        stderr: stderr.as_bytes().to_vec(),
    })
}

fn killed(stderr: &str) -> Answer {
    Answer::Ran(Outcome { code: None, stdout: Vec::new(), stderr: stderr.as_bytes().to_vec() })
}

fn not_run() -> Answer {
    Answer::Failed(PosixError::new(2, "No such file or directory (os error 2)".to_string()))
}

#[test]
fn the_call_on_a_repository_names_both_directories() {
    let expected = Invocation {
        program: "git".to_string(),
        args: Vec::new(),
        env: vec![
            ("GIT_DIR".to_string(), "/work/.git".to_string()),
            ("GIT_WORK_TREE".to_string(), "/work".to_string()),
        ],
        cwd: Some("/work".to_string()),
    };
    assert_eq!(repo().git(), expected);
    assert_eq!(repo().work_tree(), Some("/work".to_string()));
    assert_eq!(repo().git_dir().as_str(), "/work/.git");
    assert_eq!(repo().git_dir_path(), "/work/.git");
    assert_eq!(repo().git_work_tree(), "/work");
    assert_eq!(repo().work_tree_file("src/lib.rs"), "/work/src/lib.rs");
    assert_eq!(repo().work_tree_file("/etc/passwd"), "/etc/passwd");
}

#[test]
fn the_call_on_a_bare_repository_names_the_metadata_directory_alone() {
    let expected = Invocation {
        program: "git".to_string(),
        args: Vec::new(),
        env: vec![("GIT_DIR".to_string(), "/srv/p.git".to_string())],
        cwd: None,
    };
    assert_eq!(bare_repo_at("/srv/p.git").git(), expected);
}

#[test]
fn invocation_builders_keep_the_order() {
    let built = Invocation::new("git")
        .arg("a")
        .args(&["b", "c"])
        .env("K", "1")
        .arg("d")
        .env("L", "2")
        .current_dir("/x");
    assert_eq!(built.args, vec!["a", "b", "c", "d"]);
    assert_eq!(
        built.env,
        vec![("K".to_string(), "1".to_string()), ("L".to_string(), "2".to_string())]
    );
    assert_eq!(built.cwd, Some("/x".to_string()));
}

#[test]
fn unstaged() {
    let repo = repo();
    assert_eq!(repo.is_clean(&[]), call(&["diff", "--quiet", "HEAD"]).into_step());
    let step = repo.is_clean(&[ran(1, "", "")]);
    assert!(step == Step::Done(false), "Repo is unclean if sth. is unstaged");
}

#[test]
fn staged() {
    let repo = repo();
    assert_eq!(repo.stage("/work/README.md", &[]), call(&["add", "--", "README.md"]).into_step());
    assert_eq!(repo.stage("/work/README.md", &[ran(0, "", "")]), Step::Done(Ok(())));
    let step = repo.is_clean(&[ran(1, "", "")]);
    assert!(step == Step::Done(false), "Repo is unclean if sth. is staged");
}

trait IntoStep {
    fn into_step<T>(self) -> Step<T>;
}

impl IntoStep for Query {
    fn into_step<T>(self) -> Step<T> {
        Step::Ask(self)
    }
}

#[test]
fn is_clean_goes_by_success() {
    let repo = repo();
    assert_eq!(repo.is_clean(&[ran(0, "", "")]), Step::Done(true));
    assert_eq!(repo.is_clean(&[ran(128, "", "fatal")]), Step::Done(false));
    assert_eq!(repo.is_clean(&[killed("")]), Step::Done(false));
    assert_eq!(repo.is_clean(&[not_run()]), Step::Fatal(Violation::Launch));
    assert_eq!(repo.is_clean(&[Answer::Flag(true)]), Step::Fatal(Violation::Answer));
    assert_eq!(repo.is_clean(&[ran(0, "", ""), ran(1, "", "")]), Step::Done(true));
}

#[test]
fn head_is_the_trimmed_output() {
    let repo = repo();
    assert_eq!(repo.head(&[]), call(&["rev-parse", "HEAD"]).into_step());
    assert_eq!(
        repo.head(&[ran(0, "24f624a0268f6cbcfc163abef5f3acbc6c11085e\n", "")]),
        Step::Done("24f624a0268f6cbcfc163abef5f3acbc6c11085e".to_string())
    );
    assert_eq!(repo.head(&[ran(128, "HEAD\n", "fatal: bad")]), Step::Fatal(Violation::Status));
    assert_eq!(repo.head(&[not_run()]), Step::Fatal(Violation::Launch));
    assert_eq!(repo.head(&[Answer::Text(None)]), Step::Fatal(Violation::Answer));
}

#[test]
fn head_replaces_what_is_not_utf8() {
    let answer = Answer::Ran(Outcome {
        code: Some(0),
        stdout: vec![b' ', b'a', 0xff, b'b', b'\n'],
        stderr: Vec::new(),
    });
    assert_eq!(repo().head(&[answer]), Step::Done("a\u{fffd}b".to_string()));
}

#[test]
fn is_sparse() {
    let repo = repo();
    assert_eq!(
        repo.is_sparse(&[]),
        Step::Ask(Query::Exists("/work/.git/info/sparse-checkout".to_string()))
    );
    let step = repo.is_sparse(&[Answer::Flag(true)]);
    assert!(step == Step::Done(true), "Not sparse repository");
}

#[test]
fn not_sparse() {
    let repo = repo();
    let step = repo.is_sparse(&[Answer::Flag(false)]);
    assert!(step == Step::Done(false), "Not sparse repository");
    assert_eq!(repo.is_sparse(&[ran(0, "", "")]), Step::Fatal(Violation::Answer));
}

#[test]
fn add() {
    let repo = repo();
    assert_eq!(
        repo.sparse_checkout_add("foo/bar", &[]),
        call(&["sparse-checkout", "add", "foo/bar"]).into_step()
    );
    let actual = match repo.sparse_checkout_add("foo/bar", &[ran(0, "", "")]) {
        Step::Done(result) => result,
        other => panic!("{:?}", other),
    };
    assert!(actual.is_ok(), "Expected successfull execution");
    assert_eq!(
        repo.sparse_checkout_add("foo/bar", &[ran(128, "out", "fatal: not sparse\n")]),
        Step::Done(Err("fatal: not sparse\n".to_string()))
    );
    assert_eq!(
        repo.sparse_checkout_add("foo/bar", &[not_run()]),
        Step::Fatal(Violation::Launch)
    );
}

#[test]
fn short_ref_keeps_the_reference_of_a_failure() {
    let repo = repo();
    assert_eq!(
        repo.short_ref("refs/heads/main", &[]),
        call(&["rev-parse", "--short", "refs/heads/main"]).into_step()
    );
    assert_eq!(
        repo.short_ref("nope", &[ran(128, "", "fatal")]),
        Step::Done(Err(InvalidRefError("nope".to_string())))
    );
    assert_eq!(
        repo.short_ref("HEAD", &[ran(0, "abc1234\n", "")]),
        Step::Done(Ok("abc1234".to_string()))
    );
    assert_eq!(
        repo.short_ref("main", &[ran(0, " 24f624a \r\n", "a note\n")]),
        Step::Done(Ok(" 24f624a".to_string()))
    );
    assert_eq!(repo.short_ref("main", &[ran(0, "", "note")]), Step::Done(Ok(String::new())));
}

#[test]
fn commit_classifies_by_exit_code() {
    let repo = repo();
    assert_eq!(repo.commit("Test", &[]), call(&["commit", "-m", "Test"]).into_step());
    assert_eq!(repo.commit("Test", &[ran(0, "", "")]), Step::Done(Ok(())));
    assert_eq!(
        repo.commit("Test", &[ran(1, "nothing to commit", "error text")]),
        Step::Done(Err(CommitError::Failure("error text".to_string(), 1)))
    );
    assert_eq!(repo.commit("Test", &[killed("x")]), Step::Fatal(Violation::Status));
    assert_eq!(repo.commit("Test", &[not_run()]), Step::Fatal(Violation::Launch));
}

#[test]
fn commit_extended_orders_its_options() {
    let repo = repo();
    assert_eq!(
        repo.commit_extended("m", false, false, &[]),
        call(&["commit", "--quiet", "--no-edit", "--message", "m"]).into_step()
    );
    assert_eq!(
        repo.commit_extended("m", true, false, &[]),
        call(&["commit", "--quiet", "--no-edit", "--allow-empty", "--message", "m"]).into_step()
    );
    assert_eq!(
        repo.commit_extended("m", false, true, &[]),
        call(&["commit", "--quiet", "--no-edit", "--no-verify", "--message", "m"]).into_step()
    );
    assert_eq!(
        repo.commit_extended("m", true, true, &[]),
        call(&[
            "commit",
            "--quiet",
            "--no-edit",
            "--allow-empty",
            "--no-verify",
            "--message",
            "m"
        ])
        .into_step()
    );
    assert_eq!(
        repo.commit_extended("m", true, true, &[ran(128, "", "bad")]),
        Step::Done(Err(CommitError::Failure("bad".to_string(), 128)))
    );
    assert_eq!(repo.commit_extended("m", true, true, &[ran(0, "", "")]), Step::Done(Ok(())));
}

#[test]
fn is_ancestor_goes_by_success() {
    let repo = repo();
    assert_eq!(
        repo.is_ancestor("a", "b", &[]),
        call(&["merge-base", "--is-ancestor", "a", "b"]).into_step()
    );
    assert_eq!(repo.is_ancestor("a", "b", &[ran(0, "", "")]), Step::Done(true));
    assert_eq!(repo.is_ancestor("a", "b", &[ran(1, "", "")]), Step::Done(false));
}

#[test]
fn stage_classifies_by_exit_code() {
    let repo = repo();
    assert_eq!(repo.stage("src/a.rs", &[]), call(&["add", "--", "src/a.rs"]).into_step());
    assert_eq!(
        repo.stage("/work/src/a.rs", &[]),
        call(&["add", "--", "src/a.rs"]).into_step()
    );
    assert_eq!(repo.stage("/else/a.rs", &[]), Step::Fatal(Violation::Argument));
    assert_eq!(repo.stage("/else/a.rs", &[ran(0, "", "")]), Step::Fatal(Violation::Argument));
    assert_eq!(
        repo.stage("/work/gone", &[ran(128, "", "fatal: pathspec")]),
        Step::Done(Err(StagingError::FileDoesNotExist("gone".to_string())))
    );
    assert_eq!(
        repo.stage("x", &[ran(1, "printed", "err")]),
        Step::Done(Err(StagingError::Failure("err".to_string(), 1)))
    );
    assert_eq!(
        repo.stage("x", &[ran(129, "", "usage: git add\n")]),
        Step::Done(Err(StagingError::Failure("usage: git add\n".to_string(), 129)))
    );
    assert_eq!(repo.stage("x", &[killed("")]), Step::Fatal(Violation::Status));
}

#[test]
fn stash_keeps_code_and_error_output() {
    let repo = repo();
    assert_eq!(
        repo.stash_almost_all("wip", &[]),
        call(&["stash", "--quiet", "--include-untracked", "-m", "wip"]).into_step()
    );
    assert_eq!(repo.stash_almost_all("wip", &[ran(0, "", "")]), Step::Done(Ok(())));
    assert_eq!(
        repo.stash_almost_all("wip", &[ran(3, "", "no")]),
        Step::Done(Err(StashingError::Save(3, "no".to_string())))
    );
    assert_eq!(
        repo.stash_almost_all("wip", &[killed("sig")]),
        Step::Done(Err(StashingError::Save(1, "sig".to_string())))
    );
    assert_eq!(repo.stash_pop(&[]), call(&["stash", "pop", "--quiet", "--index"]).into_step());
    assert_eq!(repo.stash_pop(&[ran(0, "", "")]), Step::Done(Ok(())));
    assert_eq!(
        repo.stash_pop(&[ran(1, "", "conflict")]),
        Step::Done(Err(StashingError::Pop(1, "conflict".to_string())))
    );
}

#[test]
fn dirty_work_tree() {
    let repo = repo();
    assert_eq!(
        repo.subtree_add("https://example.com/foo/bar", "bar", "HEAD", "Some Message", &[]),
        call(&["diff", "--quiet", "HEAD"]).into_step()
    );
    let actual = match repo.subtree_add(
        "https://example.com/foo/bar",
        "bar",
        "HEAD",
        "Some Message",
        &[ran(1, "", "")],
    ) {
        Step::Done(result) => result,
        other => panic!("{:?}", other),
    };
    assert!(actual.is_err(), "Expected an error");
    let actual = actual.unwrap_err();
    assert_eq!(actual, SubtreeAddError::WorkTreeDirty);
}

#[test]
fn successfull() {
    let repo = repo();
    let url = "https://github.com/kalkin/file-expert";
    assert_eq!(
        repo.subtree_add(url, "bar", "HEAD", "Some Message", &[ran(0, "", "")]),
        call(&["subtree", "add", "-q", "-P", "bar", url, "HEAD", "-m", "Some Message"])
            .into_step()
    );
    let actual = match repo.subtree_add(
        url,
        "bar",
        "HEAD",
        "Some Message",
        &[ran(0, "", ""), ran(0, "", "")],
    ) {
        Step::Done(result) => result,
        other => panic!("{:?}", other),
    };
    assert!(actual.is_ok(), "Failure to add subtree");
}

#[test]
fn subtree_add_keeps_what_the_tool_said() {
    let repo = repo();
    assert_eq!(
        repo.subtree_add("u", "p", "r", "m", &[ran(0, "", ""), ran(128, "", "fatal: no")]),
        Step::Done(Err(SubtreeAddError::Failure("fatal: no".to_string(), 128)))
    );
    assert_eq!(
        repo.subtree_add("u", "p", "r", "m", &[ran(0, "", ""), killed("k")]),
        Step::Done(Err(SubtreeAddError::Failure("k".to_string(), 1)))
    );
    assert_eq!(
        repo.subtree_add("u", "p", "r", "m", &[ran(0, "", ""), not_run()]),
        Step::Fatal(Violation::Launch)
    );
    assert_eq!(
        repo.subtree_add("u", "p", "r", "m", &[not_run()]),
        Step::Fatal(Violation::Launch)
    );
    assert_eq!(
        repo.subtree_add("u", "p", "r", "m", &[ran(0, "", ""), Answer::Flag(true)]),
        Step::Fatal(Violation::Answer)
    );
    assert_eq!(
        repo.subtree_add("u", "p", "r", "m", &[ran(1, "", ""), ran(0, "", "")]),
        Step::Done(Err(SubtreeAddError::WorkTreeDirty))
    );
}

#[test]
fn lib_dirty_work_tree() {
    let repo = repo();
    let actual = match repo.subtree_pull(
        "https://example.com/foo/bar",
        "bar",
        "HEAD",
        "Some Message",
        &[ran(1, "", "")],
    ) {
        Step::Done(result) => result,
        other => panic!("{:?}", other),
    };
    assert!(actual.is_err(), "Expected an error");
    let actual = actual.unwrap_err();
    assert_eq!(actual, SubtreePullError::WorkTreeDirty);
}

#[test]
fn lib_successfull() {
    let repo = repo();
    let url = "https://github.com/kalkin/file-expert";
    assert_eq!(
        repo.subtree_pull(url, "bar", "v0.13.1", "Some message", &[ran(0, "", "")]),
        call(&["subtree", "pull", "-q", "-P", "bar", url, "v0.13.1", "-m", "Some message"])
            .into_step()
    );
    let actual = match repo.subtree_pull(
        url,
        "bar",
        "v0.13.1",
        "Some message",
        &[ran(0, "", ""), ran(0, "", "")],
    ) {
        Step::Done(result) => result,
        other => panic!("{:?}", other),
    };
    assert!(actual.is_ok(), "Failure to pull subtree");
    assert_eq!(
        repo.subtree_pull(url, "bar", "v0", "m", &[ran(0, "", ""), ran(1, "", "diverged")]),
        Step::Done(Err(SubtreePullError::Failure("diverged".to_string(), 1)))
    );
}

#[test]
fn subtree_push_needs_no_clean_working_tree() {
    let repo = repo();
    assert_eq!(
        repo.subtree_push("origin", "bar", "main", &[]),
        call(&["subtree", "push", "-q", "-P", "bar", "origin", "main"]).into_step()
    );
    assert_eq!(repo.subtree_push("origin", "bar", "main", &[ran(0, "", "")]), Step::Done(Ok(())));
    assert_eq!(
        repo.subtree_push("origin", "bar", "main", &[ran(1, "", "rejected")]),
        Step::Done(Err(SubtreePushError::Failure("rejected".to_string(), 1)))
    );
}

#[test]
fn subtree_split_keeps_what_the_tool_said() {
    let repo = repo();
    assert_eq!(repo.subtree_split("bar", &[]), call(&["diff", "--quiet", "HEAD"]).into_step());
    assert_eq!(
        repo.subtree_split("bar", &[ran(1, "", "")]),
        Step::Done(Err(SubtreeSplitError::WorkTreeDirty))
    );
    assert_eq!(
        repo.subtree_split("bar", &[ran(0, "", "")]),
        call(&["subtree", "split", "-P", "bar", "--rejoin", "HEAD"]).into_step()
    );
    assert_eq!(repo.subtree_split("bar", &[ran(0, "", ""), ran(0, "", "")]), Step::Done(Ok(())));
    assert_eq!(
        repo.subtree_split("bar", &[ran(0, "", ""), ran(128, "out", "fatal: no such prefix\n")]),
        Step::Done(Err(SubtreeSplitError::Failure("fatal: no such prefix\n".to_string(), 128)))
    );
    assert_eq!(
        repo.subtree_split("bar", &[ran(0, "", ""), ran(2, "", "two")]),
        Step::Done(Err(SubtreeSplitError::Failure("two".to_string(), 2)))
    );
    assert_eq!(
        repo.subtree_split("bar", &[ran(0, "", ""), killed("cut")]),
        Step::Done(Err(SubtreeSplitError::Failure("cut".to_string(), 1)))
    );
    assert_eq!(
        repo.subtree_split("bar", &[ran(0, "", ""), not_run()]),
        Step::Fatal(Violation::Launch)
    );
}

#[test]
fn merge_base_reads_the_exit_code() {
    let repo = repo();
    assert_eq!(
        repo.merge_base(&["a", "b", "c"], &[]),
        call(&["merge-base", "a", "b", "c"]).into_step()
    );
    assert_eq!(repo.merge_base(&[], &[]), call(&["merge-base"]).into_step());
    assert_eq!(
        repo.merge_base(&["a", "b"], &[ran(0, "  24f6\n\n", "")]),
        Step::Done(Ok(Some("  24f6".to_string())))
    );
    assert_eq!(repo.merge_base(&["a", "b"], &[ran(0, "", "")]), Step::Done(Ok(None)));
    assert_eq!(
        repo.merge_base(&["a", "b"], &[ran(0, "\n", "")]),
        Step::Done(Ok(Some(String::new())))
    );
    assert_eq!(repo.merge_base(&["a", "b"], &[ran(1, "x", "")]), Step::Done(Ok(None)));
    assert_eq!(
        repo.merge_base(&["a", "b"], &[ran(128, "", "fatal")]),
        Step::Done(Err(InvalidCommitishError::Multiple(vec!["a".to_string(), "b".to_string()])))
    );
    assert_eq!(repo.merge_base(&["a", "b"], &[ran(2, "", "")]), Step::Fatal(Violation::Status));
    assert_eq!(repo.merge_base(&["a", "b"], &[killed("")]), Step::Fatal(Violation::Status));
}

#[test]
fn not_found() {
    let repo = repo();
    assert_eq!(
        repo.remote_ref_to_id("https://github.com/kalkin/file-expert", "v230.40.50", &[]),
        call(&["ls-remote", "https://github.com/kalkin/file-expert", "v230.40.50"]).into_step()
    );
    let result = match repo.remote_ref_to_id(
        "https://github.com/kalkin/file-expert",
        "v230.40.50",
        &[ran(0, "", "")],
    ) {
        Step::Done(result) => result,
        other => panic!("{:?}", other),
    };
    assert!(result.is_err());
    assert_eq!(result.unwrap_err(), RefSearchError::NotFound("v230.40.50".to_string()));
}

#[test]
fn failure() {
    let repo = repo();
    let result = match repo.remote_ref_to_id(
        "https://example.com/asd/foo",
        "v230.40.50",
        &[ran(128, "", "fatal: repository 'https://example.com/asd/foo/' not found\n")],
    ) {
        Step::Done(result) => result,
        other => panic!("{:?}", other),
    };
    assert!(result.is_err());
    let error = result.unwrap_err();
    let actual = matches!(error, RefSearchError::Failure(_));
    assert!(actual, "should not find any repo");
    assert_eq!(
        error,
        RefSearchError::Failure(
            "fatal: repository 'https://example.com/asd/foo/' not found\n".to_string()
        )
    );
}

#[test]
fn successfull_search() {
    let repo = repo();
    let result = match repo.remote_ref_to_id(
        "https://github.com/kalkin/file-expert",
        "v0.9.0",
        &[ran(0, "24f624a0268f6cbcfc163abef5f3acbc6c11085e\trefs/tags/v0.9.0\n", "")],
    ) {
        Step::Done(result) => result,
        other => panic!("{:?}", other),
    };
    assert!(result.is_ok());
    let actual = result.unwrap();
    let expected = "24f624a0268f6cbcfc163abef5f3acbc6c11085e".to_string();
    assert_eq!(expected, actual, "Find commit id for v0.9.0");
}

#[test]
fn a_call_that_cannot_be_made_is_an_io_error_of_the_search() {
    let repo = repo();
    assert_eq!(
        repo.remote_ref_to_id("origin", "main", &[not_run()]),
        Step::Done(Err(RefSearchError::IOError(PosixError::new(
            2,
            "No such file or directory (os error 2)".to_string()
        ))))
    );
    assert_eq!(
        repo.remote_ref_to_id("origin", "main", &[ran(0, "no tab in this line\nabc\tx", "")]),
        Step::Done(Err(RefSearchError::ParsingFailure("no tab in this line".to_string())))
    );
    assert_eq!(
        repo.remote_ref_to_id("origin", "main", &[ran(0, "\trefs/heads/main\n", "")]),
        Step::Done(Ok(String::new()))
    );
}

#[test]
fn bare_repo() {
    assert_eq!(
        BareRepository::create("/tmp/bare", &[]),
        plain(&["init", "--bare"], Some("/tmp/bare")).into_step()
    );
    let step = BareRepository::create("/tmp/bare", &[ran(0, "Initialized", "")]);
    let repo = match step {
        Step::Done(result) => result.expect("Created a bare repo"),
        other => panic!("{:?}", other),
    };
    assert_eq!(repo.git_dir().as_str(), "/tmp/bare");
}

#[test]
fn bare_repo_in_a_relative_directory() {
    assert_eq!(
        BareRepository::create("bare", &[ran(0, "", "")]),
        Step::Ask(Query::Canonical("bare".to_string()))
    );
    let told = [ran(0, "", ""), Answer::Text(Some("/tmp/bare".to_string()))];
    match BareRepository::create("bare", &told) {
        Step::Done(Ok(repo)) => assert_eq!(repo.git_dir().as_str(), "/tmp/bare"),
        other => panic!("{:?}", other),
    }
    let told = [ran(0, "", ""), Answer::Text(None)];
    assert_eq!(
        BareRepository::create("bare", &told),
        Step::Done(Err("Failed to canonicalize the path buffer: `bare`".to_string()))
    );
    assert_eq!(
        BareRepository::create("bare", &[ran(1, "", "cannot mkdir")]),
        Step::Done(Err("cannot mkdir".to_string()))
    );
    assert_eq!(BareRepository::create("bare", &[not_run()]), Step::Fatal(Violation::Launch));
}

#[test]
fn normal_repo() {
    assert_eq!(
        Repository::create("/tmp/repo", &[]),
        plain(&["init"], Some("/tmp/repo")).into_step()
    );
    let step = Repository::create("/tmp/repo", &[ran(0, "", "")]);
    let repo = match step {
        Step::Done(result) => result.unwrap(),
        other => panic!("{:?}", other),
    };
    assert_eq!(repo.git_dir_path(), "/tmp/repo/.git");
    assert_eq!(repo.work_tree(), Some("/tmp/repo".to_string()));
}

#[test]
fn normal_repo_in_a_relative_directory() {
    assert_eq!(
        Repository::create("repo", &[ran(0, "", "")]),
        Step::Ask(Query::Canonical("repo".to_string()))
    );
    let told = [ran(0, "", ""), Answer::Text(Some("/tmp/repo".to_string()))];
    assert_eq!(
        Repository::create("repo", &told),
        Step::Ask(Query::Canonical("repo/.git".to_string()))
    );
    let told = [
        ran(0, "", ""),
        Answer::Text(Some("/tmp/repo".to_string())),
        Answer::Text(Some("/tmp/repo/.git".to_string())),
    ];
    match Repository::create("repo", &told) {
        Step::Done(Ok(repo)) => {
            assert_eq!(repo.git_dir_path(), "/tmp/repo/.git");
            assert_eq!(repo.work_tree(), Some("/tmp/repo".to_string()));
        }
        other => panic!("{:?}", other),
    }
    let told = [ran(0, "", ""), Answer::Text(None)];
    assert_eq!(Repository::create("repo", &told), Step::Fatal(Violation::Path));
    let told = [ran(0, "", ""), Answer::Text(Some("/tmp/repo".to_string())), Answer::Text(None)];
    assert_eq!(Repository::create("repo", &told), Step::Fatal(Violation::Path));
    assert_eq!(
        Repository::create("repo", &[ran(128, "", "fatal: cannot")]),
        Step::Done(Err("fatal: cannot".to_string()))
    );
}

#[test]
fn config() {
    let repo = match BareRepository::create("/tmp/bare", &[ran(0, "", "")]) {
        Step::Done(result) => result.expect("Created bare repository"),
        other => panic!("{:?}", other),
    };
    let expected = Query::Run(Invocation {
        program: "git".to_string(),
        args: vec!["config".to_string(), "core.bare".to_string()],
        env: vec![("GIT_DIR".to_string(), "/tmp/bare".to_string())],
        cwd: None,
    });
    assert_eq!(repo.config("core.bare", &[]), Step::Ask(expected));
    let actual = match repo.config("core.bare", &[ran(0, "true\n", "")]) {
        Step::Done(result) => result.unwrap(),
        other => panic!("{:?}", other),
    };
    assert_eq!(actual, "true".to_string(), "Expected true");
}

#[test]
fn config_knows_three_exit_codes() {
    let repo = bare_repo_at("/tmp/bare");
    assert_eq!(
        repo.config("a.b", &[ran(1, "", "")]),
        Step::Done(Err(ConfigReadError::InvalidSectionOrKey("a.b".to_string())))
    );
    assert_eq!(
        repo.config("a.b", &[ran(3, "", "fatal: bad config line 1")]),
        Step::Done(Err(ConfigReadError::InvalidConfigFile(
            "fatal: bad config line 1".to_string()
        )))
    );
    for code in [2, 4, 5, 127, 128, 129, 255, -1, i32::MAX, i32::MIN] {
        assert_eq!(
            repo.config("a.b", &[ran(code, "true\n", "x")]),
            Step::Fatal(Violation::Status),
            "{}",
            code
        );
    }
    assert_eq!(repo.config("a.b", &[killed("x")]), Step::Fatal(Violation::Status));
    assert_eq!(repo.config("a.b", &[not_run()]), Step::Fatal(Violation::Launch));
    let garbled = Answer::Ran(Outcome { code: Some(0), stdout: vec![0xff], stderr: Vec::new() });
    assert_eq!(repo.config("a.b", &[garbled]), Step::Fatal(Violation::Output));
    assert_eq!(
        repo.config("a.b", &[ran(0, "  v\u{e4}lue \n", "")]),
        Step::Done(Ok("v\u{e4}lue".to_string()))
    );
}

#[test]
fn config_file_set_knows_four_exit_codes() {
    assert_eq!(
        config_file_set("/etc/x", "a.b", "c", &[]),
        plain(&["config", "--file", "/etc/x", "a.b", "c"], None).into_step()
    );
    assert_eq!(config_file_set("f", "k", "v", &[ran(0, "", "")]), Step::Done(Ok(())));
    assert_eq!(
        config_file_set("f", "k", "v", &[ran(1, "one", "e")]),
        Step::Done(Err(ConfigSetError::InvalidSectionOrKey("one".to_string())))
    );
    assert_eq!(
        config_file_set("f", "k", "v", &[ran(3, "three", "e")]),
        Step::Done(Err(ConfigSetError::InvalidConfigFile("three".to_string())))
    );
    assert_eq!(
        config_file_set("f", "k", "v", &[ran(4, "four", "e")]),
        Step::Done(Err(ConfigSetError::WriteFailed("four".to_string())))
    );
    assert_eq!(
        config_file_set("f", "k", "v", &[ran(2, "two", "e")]),
        Step::Fatal(Violation::Status)
    );
    assert_eq!(config_file_set("f", "k", "v", &[killed("")]), Step::Fatal(Violation::Status));
    let garbled = Answer::Ran(Outcome { code: Some(1), stdout: vec![0xc0], stderr: Vec::new() });
    assert_eq!(config_file_set("f", "k", "v", &[garbled]), Step::Fatal(Violation::Output));
    assert_eq!(config_file_set("f", "k", "v", &[not_run()]), Step::Fatal(Violation::Launch));
}

#[test]
fn ls_remote_hands_the_outcome_on() {
    assert_eq!(
        ls_remote(&["--tags", "origin"], &[]),
        plain(&["ls-remote", "--tags", "origin"], None).into_step()
    );
    let outcome = Outcome { code: Some(2), stdout: b"out".to_vec(), stderr: b"err".to_vec() };
    let same = Outcome { code: Some(2), stdout: b"out".to_vec(), stderr: b"err".to_vec() };
    assert_eq!(ls_remote(&[], &[Answer::Ran(outcome)]), Step::Done(Ok(same)));
    assert_eq!(
        ls_remote(&[], &[not_run()]),
        Step::Done(Err(PosixError::new(2, "No such file or directory (os error 2)".to_string())))
    );
}

#[test]
fn tags_from_remote_keeps_what_stands_behind_the_second_slash() {
    assert_eq!(
        tags_from_remote("https://example.com/r", &[]),
        plain(&["ls-remote", "--refs", "--tags", "https://example.com/r"], None).into_step()
    );
    let listing = "abc123\trefs/tags/v1\ndef456\trefs/tags/v1/extra\nnothing here\n0\trefs/x\n";
    assert_eq!(
        tags_from_remote("u", &[ran(0, listing, "")]),
        Step::Done(Ok(vec!["v1".to_string(), "v1/extra".to_string()]))
    );
    let padded = "\n  abc123\trefs/tags/v2 \r\n\n \t\ndef456\trefs/tags/ v3\n";
    assert_eq!(
        tags_from_remote("u", &[ran(0, padded, "")]),
        Step::Done(Ok(vec!["v2".to_string(), " v3".to_string()]))
    );
    assert_eq!(tags_from_remote("u", &[ran(0, "", "")]), Step::Done(Ok(Vec::new())));
    assert_eq!(
        tags_from_remote("u", &[ran(128, "", "fatal: unreachable")]),
        Step::Done(Err(PosixError::new(128, "fatal: unreachable".to_string())))
    );
    assert_eq!(
        tags_from_remote("u", &[killed("gone")]),
        Step::Done(Err(PosixError::new(1, "gone".to_string())))
    );
    let garbled = Answer::Ran(Outcome { code: Some(0), stdout: vec![0xff], stderr: Vec::new() });
    assert_eq!(tags_from_remote("u", &[garbled]), Step::Fatal(Violation::Output));
    assert_eq!(
        tags_from_remote("u", &[not_run()]),
        Step::Done(Err(PosixError::new(2, "No such file or directory (os error 2)".to_string())))
    );
}

#[test]
fn resolve_head_names_the_default_branch() {
    assert_eq!(
        resolve_head("origin", &[]),
        plain(&["ls-remote", "--symref", "origin", "HEAD"], None).into_step()
    );
    assert_eq!(
        resolve_head("origin", &[ran(0, "ref: refs/heads/main\tHEAD\nabc\tHEAD\n", "")]),
        Step::Done(Ok("main".to_string()))
    );
    assert_eq!(
        resolve_head("origin", &[ran(0, "ref: refs/heads/feature/x\tHEAD\n", "")]),
        Step::Done(Ok("feature/x".to_string()))
    );
    assert_eq!(resolve_head("origin", &[ran(0, "", "")]), Step::Fatal(Violation::Output));
    assert_eq!(resolve_head("origin", &[ran(0, "abc\tHEAD\n", "")]), Step::Fatal(Violation::Output));
    assert_eq!(
        resolve_head("origin", &[ran(0, "ref: refs\theads/main\n", "")]),
        Step::Fatal(Violation::Output)
    );
    assert_eq!(
        resolve_head("origin", &[ran(128, "", "fatal")]),
        Step::Done(Err(PosixError::new(128, "fatal".to_string())))
    );
    assert_eq!(resolve_head("origin", &[not_run()]), Step::Fatal(Violation::Launch));
}

#[test]
fn reset_hard_keeps_code_and_error_output() {
    let repo = repo();
    assert_eq!(
        reset_hard(&repo, "abc", &[]),
        call(&["reset", "--hard", "--quiet", "abc"]).into_step()
    );
    assert_eq!(reset_hard(&repo, "abc", &[ran(0, "", "")]), Step::Done(Ok(())));
    assert_eq!(
        reset_hard(&repo, "abc", &[ran(128, "", "fatal: bad")]),
        Step::Done(Err(PosixError::new(128, "fatal: bad".to_string())))
    );
    assert_eq!(
        reset_hard(&repo, "abc", &[killed("k")]),
        Step::Done(Err(PosixError::new(1, "k".to_string())))
    );
    assert_eq!(reset_hard(&repo, "abc", &[not_run()]), Step::Fatal(Violation::Launch));
}
