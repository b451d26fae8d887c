use git_wrapper::{
    CommitError, ConfigReadError, ConfigSetError, InvalidCommitishError, InvalidRefError, Outcome,
    PosixError, RefSearchError, RepoError, StagingError, StashingError, SubtreeAddError,
    SubtreePullError, SubtreePushError, SubtreeSplitError, EACCES, EINVAL, ENOENT,
};

#[test]
fn the_codes_are_those_of_posix() {
    assert_eq!(ENOENT, 2);
    assert_eq!(EACCES, 13);
    assert_eq!(EINVAL, 22);
    assert_eq!(ENOENT, posix_errors::ENOENT);
    assert_eq!(EACCES, posix_errors::EACCES);
    assert_eq!(EINVAL, posix_errors::EINVAL);
}

#[test]
fn repo_errors_say_what_failed() {
    assert_eq!(RepoError::GitDirNotFound.to_string(), "GIT_DIR Not found");
    assert_eq!(RepoError::BareRepo.to_string(), "Bare repository");
    assert_eq!(
        RepoError::InvalidDirectory("a/b".to_string()).to_string(),
        "Invalid directory: `a/b`"
    );
    assert_eq!(
        RepoError::AbsolutionError("x".to_string()).to_string(),
        "Failed to canonicalize the path buffer: `x`"
    );
    assert_eq!(
        RepoError::FailAccessCwd.to_string(),
        "Failed to access current working directory"
    );
}

#[test]
fn repo_errors_have_posix_codes() {
    let cases = [
        (RepoError::GitDirNotFound, 2, "GIT_DIR Not found"),
        (RepoError::InvalidDirectory("d".to_string()), 2, "Invalid directory: `d`"),
        (
            RepoError::AbsolutionError("p".to_string()),
            22,
            "Failed to canonicalize the path buffer: `p`",
        ),
        (RepoError::FailAccessCwd, 13, "Failed to access current working directory"),
        (RepoError::BareRepo, 22, "Bare repository"),
    ];
    for (error, code, message) in cases {
        let posix = error.to_posix();
        assert_eq!(posix.code(), code, "{:?}", error);
        assert_eq!(posix.message(), message, "{:?}", error);
        assert_eq!(posix, PosixError::new(code, message.to_string()));
    }
    assert_eq!(RepoError::BareRepo.clone(), RepoError::BareRepo);
    assert_eq!(
        RepoError::InvalidDirectory("d".to_string()).clone(),
        RepoError::InvalidDirectory("d".to_string())
    );
}

#[test]
fn subtree_add_errors_have_posix_codes() {
    let posix = SubtreeAddError::BareRepository.to_posix();
    assert_eq!((posix.code(), posix.message()), (22, "Bare repository".to_string()));
    let posix = SubtreeAddError::WorkTreeDirty.to_posix();
    assert_eq!((posix.code(), posix.message()), (22, "Working tree dirty".to_string()));
    let posix = SubtreeAddError::Failure("fatal: x".to_string(), 128).to_posix();
    assert_eq!((posix.code(), posix.message()), (128, "fatal: x".to_string()));
    assert_eq!(SubtreeAddError::Failure("fatal: x".to_string(), 128).to_string(), "fatal: x");
}

#[test]
fn staging_errors_have_posix_codes() {
    let posix = StagingError::FileDoesNotExist("a.rs".to_string()).to_posix();
    assert_eq!((posix.code(), posix.message()), (2, "File does not exist: `a.rs`".to_string()));
    let posix = StagingError::Failure("out".to_string(), 7).to_posix();
    assert_eq!((posix.code(), posix.message()), (7, "`out`".to_string()));
}

#[test]
fn ref_search_errors_have_posix_codes() {
    let posix = RefSearchError::Failure("unreachable".to_string()).to_posix();
    assert_eq!((posix.code(), posix.message()), (2, "unreachable".to_string()));
    let posix = RefSearchError::NotFound("v1".to_string()).to_posix();
    assert_eq!((posix.code(), posix.message()), (2, "v1".to_string()));
    let posix = RefSearchError::ParsingFailure("line".to_string()).to_posix();
    assert_eq!((posix.code(), posix.message()), (22, "line".to_string()));
    let inner = PosixError::new(13, "denied".to_string());
    let posix = RefSearchError::IOError(inner).to_posix();
    assert_eq!((posix.code(), posix.message()), (13, "denied".to_string()));
}

#[test]
fn ref_search_errors_say_what_failed() {
    assert_eq!(RefSearchError::Failure("unreachable".to_string()).to_string(), "unreachable");
    assert_eq!(
        RefSearchError::NotFound("v230.40.50".to_string()).to_string(),
        "Failed to find reference v230.40.50"
    );
    assert_eq!(
        RefSearchError::ParsingFailure("x".to_string()).to_string(),
        "Failed to parse git-ls-remote(1) output: x"
    );
    assert_eq!(
        RefSearchError::IOError(PosixError::new(13, "denied".to_string())).to_string(),
        "denied"
    );
}

#[test]
fn the_other_errors_say_what_failed() {
    assert_eq!(
        ConfigReadError::InvalidSectionOrKey("a.b".to_string()).to_string(),
        "Invalid section key in config a.b"
    );
    assert_eq!(
        ConfigReadError::InvalidConfigFile("bad".to_string()).to_string(),
        "Invalid config file bad"
    );
    assert_eq!(ConfigSetError::InvalidSectionOrKey("one".to_string()).to_string(), "one");
    assert_eq!(ConfigSetError::InvalidConfigFile("two".to_string()).to_string(), "two");
    assert_eq!(ConfigSetError::WriteFailed("three".to_string()).to_string(), "three");
    assert_eq!(InvalidRefError("r".to_string()).to_string(), "Invalid git reference r");
    assert_eq!(SubtreePullError::WorkTreeDirty.to_string(), "Working tree dirty");
    assert_eq!(SubtreePullError::Failure("p".to_string(), 1).to_string(), "p");
    assert_eq!(SubtreePushError::Failure("q".to_string(), 1).to_string(), "q");
    assert_eq!(SubtreeSplitError::WorkTreeDirty.to_string(), "Work tree is dirty");
    assert_eq!(SubtreeSplitError::Failure("s".to_string(), 1).to_string(), "s");
    assert_eq!(
        StashingError::Save(1, "x".to_string()).to_string(),
        "Failed to stash changes in GIT_WORK_TREE"
    );
    assert_eq!(
        StashingError::Pop(1, "x".to_string()).to_string(),
        "Failed to pop stashed changes in GIT_WORK_TREE"
    );
    assert_eq!(CommitError::Failure("c".to_string(), 1).to_string(), "`c`");
    assert_eq!(
        InvalidCommitishError::One("abc".to_string()).to_string(),
        "Invalid reference or commit id: `abc`"
    );
    assert_eq!(
        InvalidCommitishError::Multiple(vec!["a".to_string(), "b\"c".to_string()]).to_string(),
        "One or Multiple invalid reference or commit ids: `[\"a\", \"b\\\"c\"]`"
    );
}

#[test]
fn an_outcome_that_failed_is_a_posix_error() {
    let outcome = Outcome { code: Some(128), stdout: b"out".to_vec(), stderr: b"err".to_vec() };
    assert_eq!(outcome.to_posix(), PosixError::new(128, "err".to_string()));
    let outcome = Outcome { code: None, stdout: Vec::new(), stderr: b"killed".to_vec() };
    assert_eq!(outcome.to_posix(), PosixError::new(1, "killed".to_string()));
    let outcome = Outcome { code: Some(0), stdout: Vec::new(), stderr: vec![b'a', 0xff] };
    assert_eq!(outcome.to_posix(), PosixError::new(1, "a\u{fffd}".to_string()));
    assert!(outcome.success());
    let copy = outcome.clone();
    assert_eq!(copy, outcome);
    assert_eq!(outcome.code_or_one(), 0);
}
