use wt_core::domain::{BranchName, RepoRoot};
use wt_core::error::{AppError, ExitCode};
use wt_core::vcs::{Reply, Request, Step};
use wt_core::doctor::{doctor, DiagLevel};
use wt_core::merge::{merge, MergeResult};
use wt_core::prune::{
    integration_status, prune_dry_run, prune_execute, IntegrationMethod, IntegrationStatus,
    PruneDryRun, PruneExecuteResult,
};
use wt_core::worktree;

/// One worktree of the scripted repository.
#[derive(Clone, Debug)]
struct Tree {
    path: String,
    branch: Option<String>,
    dirty: bool,
}

/// A repository that lives in memory and answers requests as the real
/// command would for the cases these tests need.
#[derive(Clone, Debug, Default)]
struct World {
    root: String,
    trees: Vec<Tree>,
    branches: Vec<String>,
    remote_branches: Vec<String>,
    remote_head: Option<String>,
    merged: Vec<String>,
    rebased: Vec<String>,
    conflicting: Vec<String>,
    push_fails: bool,
    aborted: bool,
    pushed: Vec<String>,
    upstreams: Vec<String>,
    stray_dirs: Vec<String>,
    asked: Vec<Request>,
}

fn world() -> World {
    let mut w = World::default();
    w.root = "/repo".to_string();
    w.trees.push(Tree { path: "/repo".to_string(), branch: Some("main".to_string()), dirty: false });
    w.branches.push("main".to_string());
    w
}

fn out(text: &str) -> Reply {
    Reply::Output(text.to_string())
}

fn fail(text: &str) -> Reply {
    Reply::Failure(text.to_string())
}

impl World {
    fn listing(&self) -> String {
        let mut blocks = Vec::new();
        for t in &self.trees {
            let mut b = format!("worktree {}\nHEAD 0123456789abcdef0123456789abcdef01234567", t.path);
            match &t.branch {
                Some(name) => b.push_str(&format!("\nbranch refs/heads/{}", name)),
                None => b.push_str("\ndetached"),
            }
            blocks.push(b);
        }
        blocks.join("\n\n")
    }

    fn has_path(&self, path: &str) -> bool {
        path == format!("{}/.worktrees", self.root)
            && (self.trees.len() > 1 || !self.stray_dirs.is_empty())
            || self.trees.iter().any(|t| t.path == path)
            || self.stray_dirs.iter().any(|d| d == path)
    }

    fn git(&mut self, args: &[&str]) -> Reply {
        match args {
            ["rev-parse", "--show-toplevel"] => out(&self.root),
            ["rev-parse", "--git-common-dir"] => out(".git"),
            ["rev-parse", "--verify", rev] => {
                let known = if let Some(name) = rev.strip_prefix("refs/heads/") {
                    self.branches.iter().any(|b| b == name)
                } else if let Some(name) = rev.strip_prefix("refs/remotes/origin/") {
                    self.remote_branches.iter().any(|b| b == name)
                } else {
                    *rev == "HEAD" || self.branches.iter().any(|b| b == rev)
                };
                if known {
                    out("0123456789abcdef0123456789abcdef01234567")
                } else {
                    fail("fatal: Needed a single revision")
                }
            }
            ["worktree", "prune"] => out(""),
            ["worktree", "list", "--porcelain"] => out(&self.listing()),
            ["worktree", "add", "-b", branch, dir, _base] => {
                if self.branches.iter().any(|b| b == branch) {
                    return fail(&format!("fatal: a branch named '{}' already exists", branch));
                }
                self.branches.push(branch.to_string());
                self.merged.push(branch.to_string());
                self.trees.push(Tree {
                    path: dir.to_string(),
                    branch: Some(branch.to_string()),
                    dirty: false,
                });
                out("")
            }
            ["worktree", "remove", rest @ ..] => {
                let force = rest.len() == 2 && rest[0] == "--force";
                let dir = rest[rest.len() - 1];
                match self.trees.iter().position(|t| t.path == dir) {
                    Some(k) => {
                        if self.trees[k].dirty && !force {
                            return fail(&format!(
                                "fatal: '{}' contains modified or untracked files, use --force to delete it",
                                dir
                            ));
                        }
                        self.trees.remove(k);
                        out("")
                    }
                    None => fail(&format!("fatal: '{}' is not a working tree", dir)),
                }
            }
            ["branch", flag @ ("-d" | "-D"), name] => {
                let merged = self.merged.iter().any(|b| b == name);
                if *flag == "-d" && !merged {
                    return fail(&format!("error: the branch '{}' is not fully merged", name));
                }
                self.branches.retain(|b| b != name);
                out("")
            }
            ["branch", "--set-upstream-to", _remote, name] => {
                self.upstreams.push(name.to_string());
                out("")
            }
            ["merge-base", "--is-ancestor", branch, _mainline] => {
                if self.merged.iter().any(|b| b == branch) {
                    out("")
                } else {
                    fail("")
                }
            }
            ["cherry", _mainline, branch] => {
                if self.rebased.iter().any(|b| b == branch) {
                    out("- 1111111111111111111111111111111111111111\n- 2222222222222222222222222222222222222222")
                } else if self.merged.iter().any(|b| b == branch) {
                    out("")
                } else {
                    out("+ 3333333333333333333333333333333333333333")
                }
            }
            ["symbolic-ref", "--short", "refs/remotes/origin/HEAD"] => match &self.remote_head {
                Some(name) => out(&format!("origin/{}", name)),
                None => fail("fatal: ref refs/remotes/origin/HEAD is not a symbolic ref"),
            },
            ["merge", "--no-ff", "--no-edit", branch] => {
                if self.conflicting.iter().any(|b| b == branch) {
                    fail("CONFLICT (content): Merge conflict in shared.txt")
                } else {
                    self.merged.push(branch.to_string());
                    out("Merge made by the 'ort' strategy.")
                }
            }
            ["merge", "--abort"] => {
                self.aborted = true;
                out("")
            }
            ["push", "origin", branch] => {
                if self.push_fails {
                    fail("fatal: 'origin' does not appear to be a git repository")
                } else {
                    self.pushed.push(branch.to_string());
                    out("")
                }
            }
            other => panic!("unexpected command: {:?}", other),
        }
    }

    fn answer(&mut self, request: &Request) -> Reply {
        self.asked.push(request.clone());
        match request {
            Request::Git { dir, args } => {
                assert_eq!(dir, &self.root);
                let args: Vec<&str> = args.iter().map(|a| a.as_str()).collect();
                self.git(&args)
            }
            Request::PathExists { path } => {
                if self.has_path(path) {
                    out("")
                } else {
                    fail("")
                }
            }
            Request::Canonicalize { path } => out(path),
            Request::Choose { .. } => panic!("no choice is offered in these tests"),
            Request::Subdirectories { path } => {
                let prefix = format!("{}/", path);
                let mut dirs: Vec<String> = self
                    .trees
                    .iter()
                    .map(|t| t.path.clone())
                    .chain(self.stray_dirs.iter().cloned())
                    .filter(|p| p.starts_with(&prefix))
                    .collect();
                dirs.sort();
                out(&dirs.join("\n"))
            }
        }
    }

    /// Run an operation to its end: carry out each request it names and
    /// record the reply, until it is done.
    fn drive<T>(&mut self, op: impl Fn(&Vec<Reply>) -> Step<T>) -> Result<T, AppError> {
        let mut replies: Vec<Reply> = Vec::new();
        loop {
            match op(&replies) {
                Step::Ask(request) => {
                    let reply = self.answer(&request);
                    replies.push(reply);
                }
                Step::Done(value, read) => {
                    assert_eq!(read, replies.len());
                    return Ok(value);
                }
                Step::Fail(e, read) => {
                    assert_eq!(read, replies.len());
                    return Err(e);
                }
            }
        }
    }

    fn add(&mut self, branch: &str, base: Option<&str>) -> Result<worktree::AddResult, AppError> {
        let repo = RepoRoot(self.root.clone());
        let name = BranchName::new(branch);
        self.drive(|replies| worktree::add(&repo, &name, base, replies, 0))
    }

    fn remove(
        &mut self,
        branch: Option<&str>,
        force: bool,
        cwd: &str,
    ) -> Result<worktree::RemoveResult, AppError> {
        let repo = RepoRoot(self.root.clone());
        let name = branch.map(BranchName::new);
        self.drive(|replies| worktree::remove(&repo, name.as_ref(), force, cwd, replies, 0))
    }

    fn merge(
        &mut self,
        branch: Option<&str>,
        push: bool,
        no_cleanup: bool,
        cwd: &str,
    ) -> Result<MergeResult, AppError> {
        let repo = RepoRoot(self.root.clone());
        let name = branch.map(BranchName::new);
        self.drive(|replies| {
            merge(&repo, name.as_ref(), push, no_cleanup, cwd, replies, 0)
        })
    }

    fn dry_run(&mut self, mainline: Option<&str>) -> Result<PruneDryRun, AppError> {
        let repo = RepoRoot(self.root.clone());
        self.drive(|replies| prune_dry_run(&repo, mainline, replies, 0))
    }

    fn prune(
        &mut self,
        mainline: Option<&str>,
        force: bool,
    ) -> Result<PruneExecuteResult, AppError> {
        let repo = RepoRoot(self.root.clone());
        self.drive(|replies| prune_execute(&repo, mainline, force, replies, 0))
    }

    fn has_branch(&self, name: &str) -> bool {
        self.branches.iter().any(|b| b == name)
    }

    /// Commit something on a branch that the mainline does not have.
    fn commit(&mut self, branch: &str) {
        self.merged.retain(|b| b != branch);
    }

    fn git_args_asked(&self) -> Vec<Vec<String>> {
        self.asked
            .iter()
            .filter_map(|q| match q {
                Request::Git { args, .. } => Some(args.clone()),
                _ => None,
            })
            .collect()
    }
}

#[test]
fn add_creates_fresh_branch_under_worktrees_dir() {
    let mut w = world();
    let added = w.add("feature/x", None).expect("add should succeed");
    assert!(added.worktree_path.starts_with("/repo/.worktrees/feature-x--"));
    assert_eq!(added.worktree_path.len(), "/repo/.worktrees/feature-x--".len() + 8);
    assert_eq!(added.branch, BranchName::new("feature/x"));
    assert_eq!(added.repo_root, "/repo");
    assert!(!added.tracking);
    assert!(w.has_branch("feature/x"));
    let last = w.git_args_asked().pop().expect("a command");
    assert_eq!(last[0..4], ["worktree", "add", "-b", "feature/x"]);
    assert_eq!(last[5], "HEAD");

    let again = w.add("feature/x", None).expect_err("second add should fail");
    assert_eq!(again.code, ExitCode::Conflict);
    assert!(again.message.contains("already exists"));
}

#[test]
fn add_tracks_remote_branch_when_it_exists() {
    let mut w = world();
    w.remote_branches.push("feature/remote".to_string());
    let added = w.add("feature/remote", None).expect("add should succeed");
    assert!(added.tracking);
    assert_eq!(w.upstreams, vec!["feature/remote".to_string()]);
    let cmds = w.git_args_asked();
    let create = &cmds[cmds.len() - 2];
    assert_eq!(create[5], "origin/feature/remote");
    assert_eq!(
        cmds[cmds.len() - 1],
        ["branch", "--set-upstream-to", "origin/feature/remote", "feature/remote"]
    );
}

#[test]
fn add_with_base_skips_remote_tracking() {
    let mut w = world();
    w.remote_branches.push("feature/based".to_string());
    let added = w.add("feature/based", Some("HEAD")).expect("add should succeed");
    assert!(!added.tracking);
    assert!(w.upstreams.is_empty());
    let cmds = w.git_args_asked();
    assert!(!cmds.iter().any(|c| c.contains(&"refs/remotes/origin/feature/based".to_string())));
}

#[test]
fn add_with_unknown_base_fails_before_any_change() {
    let mut w = world();
    let e = w.add("feature/bad-base", Some("nonexistent-rev")).expect_err("should fail");
    assert_eq!(e.code, ExitCode::Git);
    assert_eq!(e.message, "revision 'nonexistent-rev' not found");
    assert!(!w.has_branch("feature/bad-base"));
    assert_eq!(w.trees.len(), 1);
}

#[test]
fn add_refuses_an_occupied_directory() {
    let mut w = world();
    let dir = format!("/repo/.worktrees/{}", BranchName::new("taken").to_dir_name());
    w.stray_dirs.push(dir.clone());
    let e = w.add("taken", None).expect_err("should fail");
    assert_eq!(e.code, ExitCode::Conflict);
    assert_eq!(e.message, format!("worktree directory already exists: {}", dir));
    assert!(!w.has_branch("taken"));
}

#[test]
fn go_finds_the_worktree_of_a_branch() {
    let mut w = world();
    let added = w.add("feature/go", None).expect("add");
    let repo = RepoRoot("/repo".to_string());
    let name = BranchName::new("feature/go");
    let found = w.drive(|replies| worktree::go(&repo, &name, replies, 0)).expect("go");
    assert_eq!(found.worktree_path, added.worktree_path);
    assert_eq!(found.branch, name);
    assert_eq!(found.repo_root, "/repo");

    let missing = BranchName::new("nope");
    let e = w.drive(|replies| worktree::go(&repo, &missing, replies, 0)).expect_err("no worktree");
    assert_eq!(e.code, ExitCode::Usage);
    assert_eq!(e.message, "no worktree found for branch 'nope'");
}

#[test]
fn remove_deletes_worktree_then_branch() {
    let mut w = world();
    let added = w.add("feature/rm", None).expect("add");
    let removed = w.remove(Some("feature/rm"), false, "/elsewhere").expect("remove");
    assert_eq!(removed.removed_path, added.worktree_path);
    assert_eq!(removed.branch, BranchName::new("feature/rm"));
    assert_eq!(removed.repo_root, "/repo");
    assert_eq!(removed.warning, None);
    assert!(!w.has_branch("feature/rm"));
    assert_eq!(w.trees.len(), 1);
    let cmds = w.git_args_asked();
    assert_eq!(cmds[cmds.len() - 2], ["worktree", "remove", added.worktree_path.as_str()]);
    assert_eq!(cmds[cmds.len() - 1], ["branch", "-d", "feature/rm"]);
}

#[test]
fn remove_never_removes_the_main_worktree() {
    for force in [false, true] {
        let mut w = world();
        let e = w.remove(Some("main"), force, "/repo").expect_err("must refuse");
        assert_eq!(e.code, ExitCode::Invariant);
        assert_eq!(e.message, "refusing to remove the main worktree");
        assert_eq!(w.trees.len(), 1);
        assert!(w.has_branch("main"));
        assert!(!w.git_args_asked().iter().any(|c| c[0] == "branch" || c[1] == "remove"));
    }
}

#[test]
fn remove_from_cwd_inside_main_worktree_refuses() {
    let mut w = world();
    w.add("feature/x", None).expect("add");
    let e = w.remove(None, false, "/repo/src").expect_err("must refuse");
    assert_eq!(e.code, ExitCode::Invariant);
}

#[test]
fn remove_infers_branch_from_nested_cwd() {
    let mut w = world();
    let added = w.add("feature/nested", None).expect("add");
    let cwd = format!("{}/src/deep/dir", added.worktree_path);
    let removed = w.remove(None, false, &cwd).expect("remove");
    assert_eq!(removed.branch, BranchName::new("feature/nested"));
    assert_eq!(removed.removed_path, added.worktree_path);
}

#[test]
fn remove_outside_any_worktree_is_a_usage_error() {
    let mut w = world();
    w.add("feature/x", None).expect("add");
    let e = w.remove(None, false, "/somewhere/else").expect_err("must fail");
    assert_eq!(e.code, ExitCode::Usage);
    assert_eq!(e.message, "no branch specified and cwd is not inside a worktree");
}

#[test]
fn remove_in_detached_worktree_is_a_usage_error() {
    let mut w = world();
    w.trees.push(Tree { path: "/repo/.worktrees/det".to_string(), branch: None, dirty: false });
    let e = w.remove(None, false, "/repo/.worktrees/det").expect_err("must fail");
    assert_eq!(e.code, ExitCode::Usage);
    assert_eq!(e.message, "current worktree has no branch");
}

#[test]
fn remove_unknown_branch_is_a_usage_error() {
    let mut w = world();
    let e = w.remove(Some("ghost"), false, "/repo").expect_err("must fail");
    assert_eq!(e.code, ExitCode::Usage);
    assert_eq!(e.message, "no worktree found for branch 'ghost'");
}

#[test]
fn remove_dirty_worktree_fails_with_conflict_and_keeps_branch() {
    let mut w = world();
    w.add("feature/dirty", None).expect("add");
    w.commit("feature/dirty");
    w.trees[1].dirty = true;
    let e = w.remove(Some("feature/dirty"), false, "/repo").expect_err("must fail");
    assert_eq!(e.code, ExitCode::Conflict);
    assert!(w.has_branch("feature/dirty"));
    assert!(!w.git_args_asked().iter().any(|c| c[0] == "branch"));

    let removed = w.remove(Some("feature/dirty"), true, "/repo").expect("forced");
    assert_eq!(removed.warning, None);
    assert!(!w.has_branch("feature/dirty"));
    let cmds = w.git_args_asked();
    assert_eq!(cmds[cmds.len() - 1], ["branch", "-D", "feature/dirty"]);
    assert_eq!(cmds[cmds.len() - 2][2], "--force");
}

#[test]
fn remove_reports_branch_deletion_failure_as_warning() {
    let mut w = world();
    let added = w.add("feature/unmerged", None).expect("add");
    w.commit("feature/unmerged");
    let removed = w.remove(Some("feature/unmerged"), false, "/repo").expect("remove succeeds");
    assert_eq!(removed.removed_path, added.worktree_path);
    assert_eq!(
        removed.warning.as_deref(),
        Some(
            "worktree removed but branch deletion failed: error: the branch 'feature/unmerged' is not fully merged"
        )
    );
    assert_eq!(w.trees.len(), 1);
    assert!(w.has_branch("feature/unmerged"));
}

#[test]
fn classifier_tells_merged_rebased_untouched_and_squashed() {
    let mut w = world();
    for name in ["merged", "rebased", "untouched", "squashed"] {
        w.add(name, None).expect("add");
        w.commit(name);
    }
    w.merged.push("merged".to_string());
    w.rebased.push("rebased".to_string());
    let dry = w.dry_run(None).expect("dry run");
    assert_eq!(dry.mainline, "main");
    let status: Vec<(Option<&str>, IntegrationStatus)> =
        dry.entries.iter().map(|e| (e.branch.as_deref(), e.status)).collect();
    assert_eq!(
        status,
        vec![
            (Some("merged"), IntegrationStatus::Integrated(IntegrationMethod::Merged)),
            (Some("rebased"), IntegrationStatus::Integrated(IntegrationMethod::Rebase)),
            (Some("untouched"), IntegrationStatus::NotIntegrated),
            (Some("squashed"), IntegrationStatus::NotIntegrated),
        ]
    );
    assert_eq!(w.trees.len(), 5);
}

#[test]
fn integration_status_of_each_pair_of_checks() {
    assert_eq!(
        integration_status(true, false),
        IntegrationStatus::Integrated(IntegrationMethod::Merged)
    );
    assert_eq!(
        integration_status(true, true),
        IntegrationStatus::Integrated(IntegrationMethod::Merged)
    );
    assert_eq!(
        integration_status(false, true),
        IntegrationStatus::Integrated(IntegrationMethod::Rebase)
    );
    assert_eq!(integration_status(false, false), IntegrationStatus::NotIntegrated);
}

#[test]
fn dry_run_leaves_out_main_and_marks_detached() {
    let mut w = world();
    w.trees.push(Tree { path: "/repo/.worktrees/det".to_string(), branch: None, dirty: false });
    let dry = w.dry_run(None).expect("dry run");
    assert_eq!(dry.entries.len(), 1);
    assert_eq!(dry.entries[0].branch, None);
    assert_eq!(dry.entries[0].path, "/repo/.worktrees/det");
    assert_eq!(dry.entries[0].status, IntegrationStatus::NoBranch);
}

#[test]
fn dry_run_with_unknown_mainline_is_a_usage_error() {
    let mut w = world();
    let e = w.dry_run(Some("nonexistent")).expect_err("must fail");
    assert_eq!(e.code, ExitCode::Usage);
    assert_eq!(e.message, "mainline branch 'nonexistent' does not exist");
}

#[test]
fn mainline_resolution_order() {
    // the default remote's head comes first
    let mut w = world();
    w.remote_head = Some("trunk".to_string());
    assert_eq!(w.dry_run(None).expect("dry run").mainline, "trunk");

    // then a local branch `main`
    let mut w = world();
    w.branches.push("master".to_string());
    assert_eq!(w.dry_run(None).expect("dry run").mainline, "main");

    // then a local branch `master`
    let mut w = world();
    w.branches = vec!["master".to_string()];
    w.trees[0].branch = Some("master".to_string());
    assert_eq!(w.dry_run(None).expect("dry run").mainline, "master");

    // then the branch of the main worktree
    let mut w = world();
    w.branches = vec!["develop".to_string()];
    w.trees[0].branch = Some("develop".to_string());
    assert_eq!(w.dry_run(None).expect("dry run").mainline, "develop");

    // and an error where the main worktree is on none
    let mut w = world();
    w.branches = vec![];
    w.trees[0].branch = None;
    let e = w.dry_run(None).expect_err("no mainline");
    assert_eq!(e.code, ExitCode::Git);
    assert_eq!(e.message, "could not determine mainline branch; use --mainline to specify");
}

#[test]
fn prune_deletes_rebased_branch_without_force() {
    let mut w = world();
    let added = w.add("feature/rebased", None).expect("add");
    w.commit("feature/rebased");
    w.rebased.push("feature/rebased".to_string());
    let result = w.prune(None, false).expect("prune");
    assert_eq!(result.mainline, "main");
    assert_eq!(result.pruned.len(), 1);
    assert_eq!(result.pruned[0].branch, "feature/rebased");
    assert_eq!(result.pruned[0].path, added.worktree_path);
    assert!(result.skipped.is_empty());
    assert!(result.warnings.is_empty());
    assert!(!w.has_branch("feature/rebased"));
    assert_eq!(w.trees.len(), 1);
    let cmds = w.git_args_asked();
    assert_eq!(cmds[cmds.len() - 1], ["branch", "-D", "feature/rebased"]);
    assert_eq!(cmds[cmds.len() - 2], ["worktree", "remove", added.worktree_path.as_str()]);
}

#[test]
fn prune_handles_each_entry_by_itself() {
    let mut w = world();
    w.add("done", None).expect("add");
    w.add("dirty", None).expect("add");
    w.add("open", None).expect("add");
    w.commit("open");
    w.trees.push(Tree { path: "/repo/.worktrees/det".to_string(), branch: None, dirty: false });
    w.trees[2].dirty = true;
    let dirty_path = w.trees[2].path.clone();
    let result = w.prune(None, false).expect("prune");
    let pruned: Vec<&str> = result.pruned.iter().map(|p| p.branch.as_str()).collect();
    assert_eq!(pruned, vec!["done"]);
    let skipped: Vec<(Option<&str>, &str)> =
        result.skipped.iter().map(|s| (s.branch.as_deref(), s.reason.as_str())).collect();
    assert_eq!(
        skipped,
        vec![
            (Some("dirty"), "removal_failed"),
            (Some("open"), "not_integrated"),
            (None, "no_branch"),
        ]
    );
    assert_eq!(
        result.warnings,
        vec![format!(
            "failed to remove worktree for 'dirty': fatal: '{}' contains modified or untracked files, use --force to delete it",
            dirty_path
        )]
    );
    assert!(w.has_branch("dirty"));
    assert!(w.has_branch("open"));
    assert!(!w.has_branch("done"));
}

#[test]
fn prune_with_force_takes_a_dirty_worktree() {
    let mut w = world();
    w.add("dirty", None).expect("add");
    w.trees[1].dirty = true;
    let result = w.prune(None, true).expect("prune");
    assert_eq!(result.pruned.len(), 1);
    assert!(result.skipped.is_empty());
    assert!(!w.has_branch("dirty"));
}

#[test]
fn merge_cleans_up_after_a_clean_merge() {
    let mut w = world();
    let added = w.add("feature/auth", None).expect("add");
    w.commit("feature/auth");
    let merged = w.merge(Some("feature/auth"), false, false, "/repo").expect("merge");
    assert_eq!(merged.branch, BranchName::new("feature/auth"));
    assert_eq!(merged.mainline, "main");
    assert_eq!(merged.repo_root, "/repo");
    assert!(merged.cleaned_up);
    assert_eq!(merged.removed_path.as_deref(), Some(added.worktree_path.as_str()));
    assert!(!merged.pushed);
    assert!(merged.warnings.is_empty());
    assert!(!w.has_branch("feature/auth"));
    assert_eq!(w.trees.len(), 1);
    assert!(w.pushed.is_empty());
}

#[test]
fn merge_without_cleanup_keeps_worktree_and_branch() {
    let mut w = world();
    w.add("feature/keep", None).expect("add");
    let merged = w.merge(Some("feature/keep"), false, true, "/repo").expect("merge");
    assert!(!merged.cleaned_up);
    assert_eq!(merged.removed_path, None);
    assert!(w.has_branch("feature/keep"));
    assert_eq!(w.trees.len(), 2);
}

#[test]
fn merge_conflict_is_given_up_and_touches_nothing() {
    let mut w = world();
    w.add("feature/conflict", None).expect("add");
    w.commit("feature/conflict");
    w.conflicting.push("feature/conflict".to_string());
    let e = w.merge(Some("feature/conflict"), true, false, "/repo").expect_err("conflict");
    assert_eq!(e.code, ExitCode::Conflict);
    assert_eq!(
        e.message,
        "merge conflicts with 'feature/conflict' — merge aborted; use `git merge` directly to handle conflicts\nCONFLICT (content): Merge conflict in shared.txt"
    );
    assert!(w.aborted);
    assert!(w.has_branch("feature/conflict"));
    assert_eq!(w.trees.len(), 2);
    assert!(w.pushed.is_empty());
    let cmds = w.git_args_asked();
    assert_eq!(cmds[cmds.len() - 1], ["merge", "--abort"]);
    assert_eq!(cmds[cmds.len() - 2], ["merge", "--no-ff", "--no-edit", "feature/conflict"]);
}

#[test]
fn merge_refuses_the_main_worktree() {
    let mut w = world();
    let e = w.merge(Some("main"), false, false, "/repo").expect_err("refuse");
    assert_eq!(e.code, ExitCode::Invariant);
    assert_eq!(e.message, "refusing to merge the main worktree");
    assert!(!w.git_args_asked().iter().any(|c| c[0] == "merge"));
}

#[test]
fn merge_refuses_when_main_worktree_is_off_mainline() {
    let mut w = world();
    w.add("feature/x", None).expect("add");
    w.branches.push("other".to_string());
    w.trees[0].branch = Some("other".to_string());
    let e = w.merge(Some("feature/x"), false, false, "/repo").expect_err("refuse");
    assert_eq!(e.code, ExitCode::Invariant);
    assert_eq!(
        e.message,
        "main worktree is on 'other', expected 'main' — checkout mainline first"
    );
    assert!(!w.git_args_asked().iter().any(|c| c[0] == "merge"));

    w.trees[0].branch = None;
    let e = w.merge(Some("feature/x"), false, false, "/repo").expect_err("refuse");
    assert_eq!(
        e.message,
        "main worktree is on '(detached)', expected 'main' — checkout mainline first"
    );
}

#[test]
fn merge_pushes_mainline_when_asked() {
    let mut w = world();
    w.add("feature/push", None).expect("add");
    let merged = w.merge(Some("feature/push"), true, false, "/repo").expect("merge");
    assert!(merged.pushed);
    assert!(merged.warnings.is_empty());
    assert_eq!(w.pushed, vec!["main".to_string()]);
}

#[test]
fn merge_reports_push_failure_as_warning() {
    let mut w = world();
    w.add("feature/no-remote", None).expect("add");
    w.push_fails = true;
    let merged = w.merge(Some("feature/no-remote"), true, false, "/repo").expect("merge");
    assert!(merged.cleaned_up);
    assert!(!merged.pushed);
    assert_eq!(
        merged.warnings,
        vec![
            "merge succeeded but push failed: fatal: 'origin' does not appear to be a git repository"
                .to_string()
        ]
    );
}

#[test]
fn merge_reports_cleanup_failure_as_warning() {
    let mut w = world();
    w.add("feature/dirty", None).expect("add");
    w.commit("feature/dirty");
    w.trees[1].dirty = true;
    let dirty_path = w.trees[1].path.clone();
    let merged = w.merge(Some("feature/dirty"), false, false, "/repo").expect("merge");
    assert!(!merged.cleaned_up);
    assert_eq!(merged.removed_path, None);
    assert_eq!(
        merged.warnings,
        vec![format!(
            "merge succeeded but cleanup failed: fatal: '{}' contains modified or untracked files, use --force to delete it",
            dirty_path
        )]
    );
    assert!(w.has_branch("feature/dirty"));
}

#[test]
fn merge_infers_branch_from_cwd() {
    let mut w = world();
    let added = w.add("feature/cwd", None).expect("add");
    let merged = w.merge(None, false, true, &added.worktree_path).expect("merge");
    assert_eq!(merged.branch, BranchName::new("feature/cwd"));
    let e = w.merge(None, false, true, "/repo").expect_err("main worktree");
    assert_eq!(e.code, ExitCode::Invariant);
}

#[test]
fn doctor_reports_orphans_and_detached_worktrees() {
    let repo = RepoRoot("/repo".to_string());
    let mut w = world();
    let diags = w.drive(|replies| doctor(&repo, replies, 0)).expect("doctor");
    assert_eq!(diags.len(), 1);
    assert_eq!(diags[0].level, DiagLevel::Okay);
    assert_eq!(diags[0].message, "no .worktrees directory (no worktrees created yet)");

    w.add("feature/x", None).expect("add");
    let diags = w.drive(|replies| doctor(&repo, replies, 0)).expect("doctor");
    assert_eq!(diags.len(), 1);
    assert_eq!(diags[0].level, DiagLevel::Okay);
    assert_eq!(diags[0].message, "all worktrees healthy");

    w.stray_dirs.push("/repo/.worktrees/left-over".to_string());
    w.trees.push(Tree { path: "/repo/.worktrees/det".to_string(), branch: None, dirty: false });
    let diags = w.drive(|replies| doctor(&repo, replies, 0)).expect("doctor");
    let found: Vec<(DiagLevel, &str)> =
        diags.iter().map(|d| (d.level, d.message.as_str())).collect();
    assert_eq!(
        found,
        vec![
            (
                DiagLevel::Warn,
                "orphaned directory not tracked by git: /repo/.worktrees/left-over"
            ),
            (
                DiagLevel::Warn,
                "worktree has no branch (detached HEAD): /repo/.worktrees/det"
            ),
        ]
    );
}

#[test]
fn operations_ask_for_one_thing_at_a_time() {
    let repo = RepoRoot("/repo".to_string());
    let name = BranchName::new("feature/x");
    let first = worktree::add(&repo, &name, None, &Vec::new(), 0);
    assert_eq!(
        first,
        Step::Ask(Request::Git {
            dir: "/repo".to_string(),
            args: vec![
                "rev-parse".to_string(),
                "--verify".to_string(),
                "refs/heads/feature/x".to_string()
            ],
        })
    );
    let second = worktree::add(&repo, &name, None, &vec![fail("")], 0);
    assert_eq!(
        second,
        Step::Ask(Request::PathExists {
            path: format!("/repo/.worktrees/{}", name.to_dir_name())
        })
    );
    let refused = worktree::add(&repo, &name, None, &vec![out("abc")], 0);
    assert_eq!(
        refused,
        Step::Fail(
            AppError::conflict("branch 'feature/x' already exists".to_string()),
            1
        )
    );
}
