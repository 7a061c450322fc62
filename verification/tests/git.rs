use wt_core::domain::RepoRoot;
use wt_core::error::ExitCode;
use wt_core::catalog::parse_worktree_porcelain;
use wt_core::git::classify_git_error;

#[test]
fn parse_porcelain_basic() {
    // repo path intentionally differs from the worktree path to prove
    // is_main is determined by index position, not path comparison.
    let repo = RepoRoot("/different/path".to_string());
    let raw = "\
worktree /home/user/project
HEAD abc1234567890
branch refs/heads/main

worktree /home/user/project/.worktrees/feat-x--12345678
HEAD def4567890abc
branch refs/heads/feat-x

";
    let result = parse_worktree_porcelain(raw, &repo).expect("should parse");
    assert_eq!(result.len(), 2);

    assert!(result[0].is_main, "first entry is always the main worktree");
    assert_eq!(result[0].branch.as_deref(), Some("main"));
    assert_eq!(result[0].commit, "abc1234");

    assert!(!result[1].is_main);
    assert_eq!(result[1].branch.as_deref(), Some("feat-x"));
}

#[test]
fn parse_porcelain_bare_skipped() {
    let repo = RepoRoot("/repo".to_string());
    let raw = "\
worktree /repo
HEAD abc1234
bare

";
    let result = parse_worktree_porcelain(raw, &repo).expect("should parse");
    assert!(result.is_empty());
}

#[test]
fn parse_porcelain_no_trailing_newline() {
    let repo = RepoRoot("/repo".to_string());
    let raw = "worktree /repo\nHEAD abc1234\nbranch refs/heads/main";
    let result = parse_worktree_porcelain(raw, &repo).expect("should parse");
    assert_eq!(result.len(), 1);
    assert!(result[0].is_main);
}

#[test]
fn classify_not_a_repo() {
    let err = classify_git_error(
        "fatal: not a git repository (or any of the parent directories)".to_string(),
    );
    assert_eq!(err.code, ExitCode::NotARepo);
}

#[test]
fn classify_already_exists_is_conflict() {
    let err = classify_git_error("fatal: 'feature/x' already exists".to_string());
    assert_eq!(err.code, ExitCode::Conflict);
}

#[test]
fn classify_already_checked_out_is_conflict() {
    let err = classify_git_error(
        "fatal: 'feature/x' is already checked out at '/repo/.worktrees/feat'".to_string(),
    );
    assert_eq!(err.code, ExitCode::Conflict);
}

#[test]
fn classify_not_fully_merged() {
    let err = classify_git_error("error: the branch 'x' is not fully merged".to_string());
    assert_eq!(err.code, ExitCode::Conflict);
}

#[test]
fn classify_dirty_is_conflict() {
    let err = classify_git_error("error: dirty worktree, use --force".to_string());
    assert_eq!(err.code, ExitCode::Conflict);
}

#[test]
fn classify_unknown_falls_to_git() {
    let err = classify_git_error("fatal: something unexpected".to_string());
    assert_eq!(err.code, ExitCode::Git);
}
