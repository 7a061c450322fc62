use wt_core::cli::{Cli, Command, Shell};
use wt_core::commands::{run, Ambient, WorkingDir};
use wt_core::doctor::DiagLevel;
use wt_core::output::{JsonListResponse, JsonResponse};
use wt_core::report::{report_failure, Emit, JsonBody, Report};
use wt_core::vcs::{Reply, Request, Step};

/// A path without `.` and `..` in it.
fn canonical(path: &str) -> String {
    let mut names: Vec<&str> = Vec::new();
    for name in path.split('/') {
        match name {
            "" | "." => {}
            ".." => {
                names.pop();
            }
            other => names.push(other),
        }
    }
    format!("/{}", names.join("/"))
}

/// One worktree of the scripted repository.
#[derive(Clone, Debug)]
struct Tree {
    path: String,
    branch: Option<String>,
    dirty: bool,
}

/// A repository that lives in memory and answers requests as the real
/// command would for the cases these tests need.
#[derive(Clone, Debug, Default)]
struct World {
    root: String,
    trees: Vec<Tree>,
    branches: Vec<String>,
    remote_branches: Vec<String>,
    remote_head: Option<String>,
    merged: Vec<String>,
    rebased: Vec<String>,
    conflicting: Vec<String>,
    push_fails: bool,
    aborted: bool,
    pushed: Vec<String>,
    upstreams: Vec<String>,
    stray_dirs: Vec<String>,
    asked: Vec<Request>,
    choices: Vec<Reply>,
    offered: Vec<(String, Vec<String>, usize)>,
}

fn world() -> World {
    let mut w = World::default();
    w.root = "/repo".to_string();
    w.trees.push(Tree { path: "/repo".to_string(), branch: Some("main".to_string()), dirty: false });
    w.branches.push("main".to_string());
    w
}

fn out(text: &str) -> Reply {
    Reply::Output(text.to_string())
}

fn fail(text: &str) -> Reply {
    Reply::Failure(text.to_string())
}

impl World {
    fn listing(&self) -> String {
        let mut blocks = Vec::new();
        for t in &self.trees {
            let mut b = format!("worktree {}\nHEAD 0123456789abcdef0123456789abcdef01234567", t.path);
            match &t.branch {
                Some(name) => b.push_str(&format!("\nbranch refs/heads/{}", name)),
                None => b.push_str("\ndetached"),
            }
            blocks.push(b);
        }
        blocks.join("\n\n")
    }

    /// The path of the worktree that `dir` lies in, the innermost one.
    fn tree_of(&self, dir: &str) -> Option<String> {
        self.trees
            .iter()
            .filter(|t| dir == t.path || dir.starts_with(&format!("{}/", t.path)))
            .max_by_key(|t| t.path.len())
            .map(|t| t.path.clone())
    }

    fn has_path(&self, path: &str) -> bool {
        path == format!("{}/.worktrees", self.root)
            && (self.trees.len() > 1 || !self.stray_dirs.is_empty())
            || self.trees.iter().any(|t| t.path == path)
            || self.stray_dirs.iter().any(|d| d == path)
    }

    fn git(&mut self, args: &[&str]) -> Reply {
        match args {
            ["rev-parse", "--show-toplevel"] | ["rev-parse", "--git-common-dir"] => {
                panic!("asked of the repository, not of the starting directory")
            }
            ["rev-parse", "--verify", rev] => {
                let known = if let Some(name) = rev.strip_prefix("refs/heads/") {
                    self.branches.iter().any(|b| b == name)
                } else if let Some(name) = rev.strip_prefix("refs/remotes/origin/") {
                    self.remote_branches.iter().any(|b| b == name)
                } else {
                    *rev == "HEAD" || self.branches.iter().any(|b| b == rev)
                };
                if known {
                    out("0123456789abcdef0123456789abcdef01234567")
                } else {
                    fail("fatal: Needed a single revision")
                }
            }
            ["worktree", "prune"] => out(""),
            ["worktree", "list", "--porcelain"] => out(&self.listing()),
            ["worktree", "add", "-b", branch, dir, _base] => {
                if self.branches.iter().any(|b| b == branch) {
                    return fail(&format!("fatal: a branch named '{}' already exists", branch));
                }
                self.branches.push(branch.to_string());
                self.merged.push(branch.to_string());
                self.trees.push(Tree {
                    path: dir.to_string(),
                    branch: Some(branch.to_string()),
                    dirty: false,
                });
                out("")
            }
            ["worktree", "remove", rest @ ..] => {
                let force = rest.len() == 2 && rest[0] == "--force";
                let dir = rest[rest.len() - 1];
                match self.trees.iter().position(|t| t.path == dir) {
                    Some(k) => {
                        if self.trees[k].dirty && !force {
                            return fail(&format!(
                                "fatal: '{}' contains modified or untracked files, use --force to delete it",
                                dir
                            ));
                        }
                        self.trees.remove(k);
                        out("")
                    }
                    None => fail(&format!("fatal: '{}' is not a working tree", dir)),
                }
            }
            ["branch", flag @ ("-d" | "-D"), name] => {
                let merged = self.merged.iter().any(|b| b == name);
                if *flag == "-d" && !merged {
                    return fail(&format!("error: the branch '{}' is not fully merged", name));
                }
                self.branches.retain(|b| b != name);
                out("")
            }
            ["branch", "--set-upstream-to", _remote, name] => {
                self.upstreams.push(name.to_string());
                out("")
            }
            ["merge-base", "--is-ancestor", branch, _mainline] => {
                if self.merged.iter().any(|b| b == branch) {
                    out("")
                } else {
                    fail("")
                }
            }
            ["cherry", _mainline, branch] => {
                if self.rebased.iter().any(|b| b == branch) {
                    out("- 1111111111111111111111111111111111111111\n- 2222222222222222222222222222222222222222")
                } else if self.merged.iter().any(|b| b == branch) {
                    out("")
                } else {
                    out("+ 3333333333333333333333333333333333333333")
                }
            }
            ["symbolic-ref", "--short", "refs/remotes/origin/HEAD"] => match &self.remote_head {
                Some(name) => out(&format!("origin/{}", name)),
                None => fail("fatal: ref refs/remotes/origin/HEAD is not a symbolic ref"),
            },
            ["merge", "--no-ff", "--no-edit", branch] => {
                if self.conflicting.iter().any(|b| b == branch) {
                    fail("CONFLICT (content): Merge conflict in shared.txt")
                } else {
                    self.merged.push(branch.to_string());
                    out("Merge made by the 'ort' strategy.")
                }
            }
            ["merge", "--abort"] => {
                self.aborted = true;
                out("")
            }
            ["push", "origin", branch] => {
                if self.push_fails {
                    fail("fatal: 'origin' does not appear to be a git repository")
                } else {
                    self.pushed.push(branch.to_string());
                    out("")
                }
            }
            other => panic!("unexpected command: {:?}", other),
        }
    }

    fn answer(&mut self, request: &Request) -> Reply {
        self.asked.push(request.clone());
        match request {
            Request::Git { dir, args } => {
                let args: Vec<&str> = args.iter().map(|a| a.as_str()).collect();
                match args.as_slice() {
                    ["rev-parse", "--show-toplevel"] => match self.tree_of(dir) {
                        Some(tree) => out(&tree),
                        None => fail(
                            "fatal: not a git repository (or any of the parent directories): .git",
                        ),
                    },
                    ["rev-parse", "--git-common-dir"] => match self.tree_of(dir) {
                        Some(tree) if tree == self.root => {
                            let depth = dir[self.root.len()..].matches('/').count();
                            out(&format!("{}.git", "../".repeat(depth)))
                        }
                        Some(_) => out(&format!("{}/.git", self.root)),
                        None => fail("fatal: not a git repository"),
                    },
                    _ => {
                        assert_eq!(dir, &self.root);
                        self.git(&args)
                    }
                }
            }
            Request::PathExists { path } => {
                if self.has_path(path) {
                    out("")
                } else {
                    fail("")
                }
            }
            Request::Canonicalize { path } => out(&canonical(path)),
            Request::Choose { prompt, items, default } => {
                self.offered.push((prompt.clone(), items.clone(), *default));
                if self.choices.is_empty() {
                    panic!("no choice is scripted");
                }
                self.choices.remove(0)
            }
            Request::Subdirectories { path } => {
                let prefix = format!("{}/", path);
                let mut dirs: Vec<String> = self
                    .trees
                    .iter()
                    .map(|t| t.path.clone())
                    .chain(self.stray_dirs.iter().cloned())
                    .filter(|p| p.starts_with(&prefix))
                    .collect();
                dirs.sort();
                out(&dirs.join("\n"))
            }
        }
    }

    /// Run one invocation of the tool from the directory `cwd`, without a
    /// terminal unless `tty`.
    fn invoke_at(&mut self, command: Command, cwd: &str, tty: bool) -> Report {
        let cli = Cli { command };
        let ambient = Ambient { cwd: WorkingDir::At(cwd.to_string()), stdin_is_terminal: tty };
        let mut replies: Vec<Reply> = Vec::new();
        loop {
            match run(&cli, &ambient, &replies, 0) {
                Step::Ask(request) => {
                    let reply = self.answer(&request);
                    replies.push(reply);
                }
                Step::Done(report, read) => {
                    assert_eq!(read, replies.len());
                    return report;
                }
                Step::Fail(e, read) => {
                    assert_eq!(read, replies.len());
                    return report_failure(&e);
                }
            }
        }
    }

    /// Run one invocation from a directory outside the repository.
    fn invoke(&mut self, command: Command) -> Report {
        self.invoke_at(command, "/elsewhere", false)
    }

    fn has_branch(&self, name: &str) -> bool {
        self.branches.iter().any(|b| b == name)
    }

    /// Commit something on a branch that the mainline does not have.
    fn commit(&mut self, branch: &str) {
        self.merged.retain(|b| b != branch);
    }

    fn git_args_asked(&self) -> Vec<Vec<String>> {
        self.asked
            .iter()
            .filter_map(|q| match q {
                Request::Git { args, .. } => Some(args.clone()),
                _ => None,
            })
            .collect()
    }

    fn linked_dirs(&self) -> usize {
        self.trees.len() - 1
    }
}

fn repo() -> Option<String> {
    Some("/repo".to_string())
}

fn add(branch: &str) -> Command {
    Command::Add {
        branch: branch.to_string(),
        base: None,
        repo: repo(),
        json: false,
        print_cd_path: false,
    }
}

fn add_printing_path(w: &mut World, branch: &str) -> String {
    let report = w.invoke(Command::Add {
        branch: branch.to_string(),
        base: None,
        repo: repo(),
        json: false,
        print_cd_path: true,
    });
    assert_eq!(report.exit, 0);
    stdout(&report).trim().to_string()
}

fn remove(branch: &str) -> Command {
    Command::Remove {
        branch: Some(branch.to_string()),
        force: false,
        repo: repo(),
        json: false,
        print_paths: false,
    }
}

fn remove_here(json: bool, print_paths: bool) -> Command {
    Command::Remove { branch: None, force: false, repo: None, json, print_paths }
}

fn go(branch: Option<&str>) -> Command {
    Command::Go {
        branch: branch.map(|b| b.to_string()),
        interactive: false,
        repo: repo(),
        json: false,
        print_cd_path: false,
    }
}

fn merge(branch: &str) -> Command {
    Command::Merge {
        branch: Some(branch.to_string()),
        push: false,
        no_cleanup: false,
        repo: repo(),
        json: false,
        print_paths: false,
    }
}

fn prune(execute: bool) -> Command {
    Command::Prune { execute, force: false, mainline: None, repo: repo(), json: false }
}

/// What a report prints to standard output, as the terminal shows it.
fn stdout(report: &Report) -> String {
    let mut text = String::new();
    for emit in &report.emits {
        if let Emit::Stdout(line) = emit {
            text.push_str(line);
            text.push('\n');
        }
    }
    text
}

/// What a report prints to standard error.
fn stderr(report: &Report) -> String {
    let mut text = String::new();
    for emit in &report.emits {
        if let Emit::Stderr(line) = emit {
            text.push_str(line);
            text.push('\n');
        }
    }
    text
}

/// The one JSON document of a report.
fn json(report: &Report) -> JsonBody {
    assert_eq!(report.emits.len(), 1, "a single document: {:?}", report.emits);
    match &report.emits[0] {
        Emit::Json(body) => body.clone(),
        other => panic!("no JSON document: {:?}", other),
    }
}

fn response(report: &Report) -> JsonResponse {
    match json(report) {
        JsonBody::Response(r) => r,
        other => panic!("no response: {:?}", other),
    }
}

fn list_response(report: &Report) -> JsonListResponse {
    match json(report) {
        JsonBody::List(r) => r,
        other => panic!("no list: {:?}", other),
    }
}

// ── add ─────────────────────────────────────────────────────────────

#[test]
fn add_creates_worktree_and_branch() {
    let mut w = world();
    let report = w.invoke(add("feature/login"));
    assert_eq!(report.exit, 0);
    let stdout = stdout(&report);
    assert!(stdout.contains("feature/login"));
    assert!(stdout.contains(".worktrees/"));
    assert_eq!(w.linked_dirs(), 1);
    assert!(w.has_branch("feature/login"));
}

#[test]
fn add_json_returns_structured_response() {
    let mut w = world();
    let report = w.invoke(Command::Add {
        branch: "feature/json-test".to_string(),
        base: None,
        repo: repo(),
        json: true,
        print_cd_path: false,
    });
    assert_eq!(report.exit, 0);
    let json = response(&report);
    assert_eq!(json.ok, true);
    assert!(json.cd_path.is_some());
    assert!(json.worktree_path.is_some());
    assert!(json.repo_root.is_some());
    assert_eq!(json.branch.as_deref(), Some("feature/json-test"));
    assert_eq!(json.message, "created worktree for branch 'feature/json-test'");
    assert_eq!(json.cd_path, json.worktree_path);
    assert_eq!(json.removed_path, None);
}

#[test]
fn add_print_cd_path_returns_bare_path() {
    let mut w = world();
    let path = add_printing_path(&mut w, "feature/cd-test");
    assert!(path.starts_with('/'));
    assert!(path.contains(".worktrees/"));
    // Must not be JSON
    assert!(!path.starts_with('{'));
}

#[test]
fn add_fails_when_branch_exists() {
    let mut w = world();
    assert_eq!(w.invoke(add("dupe-branch")).exit, 0);

    // Second add should fail
    let report = w.invoke(add("dupe-branch"));
    assert_eq!(report.exit, 5); // Conflict exit code
    assert!(stderr(&report).contains("already exists"));
    assert_eq!(stdout(&report), "");
}

#[test]
fn add_with_base_revision() {
    let mut w = world();
    let report = w.invoke(Command::Add {
        branch: "from-head".to_string(),
        base: Some("HEAD".to_string()),
        repo: repo(),
        json: false,
        print_cd_path: false,
    });
    assert_eq!(report.exit, 0);
}

#[test]
fn add_with_invalid_base_fails() {
    let mut w = world();
    let report = w.invoke(Command::Add {
        branch: "bad-base".to_string(),
        base: Some("nonexistent-ref-xyz".to_string()),
        repo: repo(),
        json: false,
        print_cd_path: false,
    });
    assert_ne!(report.exit, 0);
    assert_eq!(report.exit, 2);
    assert_eq!(stderr(&report), "error: revision 'nonexistent-ref-xyz' not found\n");
}

#[test]
fn add_still_errors_when_local_branch_exists() {
    let mut w = world();
    w.remote_branches.push("feature/local-conflict".to_string());
    w.branches.push("feature/local-conflict".to_string());

    // Should fail with conflict error even though remote exists
    let report = w.invoke(add("feature/local-conflict"));
    assert_eq!(report.exit, 5); // Conflict
    assert!(stderr(&report).contains("already exists"));
}

#[test]
fn add_remote_tracking_sets_correct_upstream() {
    let mut w = world();
    w.remote_branches.push("feature/upstream-check".to_string());
    let path = add_printing_path(&mut w, "feature/upstream-check");
    assert!(path.contains(".worktrees/"));
    assert_eq!(w.upstreams, vec!["feature/upstream-check".to_string()]);
    let cmds = w.git_args_asked();
    assert_eq!(
        cmds[cmds.len() - 1],
        ["branch", "--set-upstream-to", "origin/feature/upstream-check", "feature/upstream-check"]
    );
}

#[test]
fn path_convention_worktrees_dir() {
    let mut w = world();
    let path = add_printing_path(&mut w, "feature/nested");
    // Must be under .worktrees/
    assert!(path.contains("/.worktrees/"));
    // Must use collision-safe naming: slug--8hex
    let dir_name = path.rsplit('/').next().expect("dir name");
    assert!(
        dir_name.contains("--"),
        "directory name should contain '--' separator: {dir_name}"
    );
    assert!(dir_name.starts_with("feature-nested--"));
}

// ── remove ──────────────────────────────────────────────────────────

#[test]
fn remove_deletes_worktree_and_branch() {
    let mut w = world();
    assert_eq!(w.invoke(add("to-remove")).exit, 0);
    let report = w.invoke(remove("to-remove"));
    assert_eq!(report.exit, 0);
    assert_eq!(w.linked_dirs(), 0);
    assert!(!w.has_branch("to-remove"));
}

#[test]
fn remove_refuses_main_worktree() {
    let mut w = world();
    let report = w.invoke(remove("main"));
    assert_eq!(report.exit, 4); // Invariant violation
    assert_eq!(w.trees.len(), 1);
}

#[test]
fn remove_json_includes_removed_path() {
    let mut w = world();
    assert_eq!(w.invoke(add("json-rm")).exit, 0);
    let report = w.invoke(Command::Remove {
        branch: Some("json-rm".to_string()),
        force: false,
        repo: repo(),
        json: true,
        print_paths: false,
    });
    assert_eq!(report.exit, 0);
    let json = response(&report);
    assert_eq!(json.ok, true);
    assert!(json.removed_path.is_some());
    assert!(json.repo_root.is_some());
    assert_eq!(json.worktree_path, None);
    assert_eq!(json.cd_path, None);
}

#[test]
fn remove_print_paths_returns_three_lines() {
    let mut w = world();
    // A slashed branch name, to see the real name and not the slug
    assert_eq!(w.invoke(add("feature/paths-rm")).exit, 0);
    let report = w.invoke(Command::Remove {
        branch: Some("feature/paths-rm".to_string()),
        force: false,
        repo: repo(),
        json: false,
        print_paths: true,
    });
    assert_eq!(report.exit, 0);
    let stdout = stdout(&report);
    let lines: Vec<&str> = stdout.trim().lines().collect();
    assert_eq!(lines.len(), 3, "expected exactly 3 lines: {stdout}");

    // Line 1: removed worktree path (under .worktrees/)
    assert!(lines[0].contains(".worktrees/"), "line 1 should be removed path: {}", lines[0]);

    // Line 2: repo root (not under .worktrees/)
    assert!(
        !lines[1].contains(".worktrees/"),
        "line 2 should be repo root, not a worktree path: {}",
        lines[1]
    );

    // Line 3: actual branch name (not the sanitized slug)
    assert_eq!(
        lines[2], "feature/paths-rm",
        "line 3 should be the real branch name, not the slug"
    );

    // No line should be JSON
    assert!(!lines[0].starts_with('{'));
}

#[test]
fn remove_no_branch_non_tty_inside_worktree_uses_cwd_inference() {
    let mut w = world();
    let wt_path = add_printing_path(&mut w, "infer-rm");

    // Remove from inside the worktree without specifying a branch.
    // Non-TTY → falls back to cwd inference → removes current worktree.
    let report = w.invoke_at(remove_here(false, false), &wt_path, false);
    assert_eq!(report.exit, 0);
    assert!(stdout(&report).contains("infer-rm"));
    assert!(w.offered.is_empty());
}

#[test]
fn remove_no_branch_non_tty_from_main_worktree_errors() {
    let mut w = world();
    // Running from the main worktree root without a branch.
    // Non-TTY → cwd inference resolves to main → invariant error.
    let report = w.invoke_at(remove_here(false, false), "/repo", false);
    assert_eq!(report.exit, 4);
    assert!(stderr(&report).contains("refusing to remove the main worktree"));
}

#[test]
fn remove_no_branch_non_tty_outside_any_worktree_errors() {
    let mut w = world();
    // Running with --repo but cwd is NOT inside the repo at all.
    // Non-TTY → cwd inference fails → usage error.
    let report = w.invoke(Command::Remove {
        branch: None,
        force: false,
        repo: repo(),
        json: false,
        print_paths: false,
    });
    assert_eq!(report.exit, 1);
    assert!(stderr(&report).contains("no branch specified and cwd is not inside a worktree"));
}

#[test]
fn remove_no_branch_json_uses_cwd_inference() {
    let mut w = world();
    let wt_path = add_printing_path(&mut w, "json-infer");

    // --json without a branch uses cwd inference
    let report = w.invoke_at(remove_here(true, false), &wt_path, true);
    assert_eq!(report.exit, 0);
    let json = response(&report);
    assert_eq!(json.ok, true);
    assert_eq!(json.branch.as_deref(), Some("json-infer"));
    assert!(w.offered.is_empty());
}

#[test]
fn remove_no_branch_print_paths_uses_cwd_inference() {
    let mut w = world();
    let wt_path = add_printing_path(&mut w, "paths-infer");

    // --print-paths without a branch uses cwd inference
    let report = w.invoke_at(remove_here(false, true), &wt_path, true);
    assert_eq!(report.exit, 0);
    let stdout = stdout(&report);
    let lines: Vec<&str> = stdout.trim().lines().collect();
    assert_eq!(lines.len(), 3);
    assert_eq!(lines[2], "paths-infer");
}

#[test]
fn remove_no_branch_print_paths_from_nested_dir_uses_cwd_inference() {
    let mut w = world();
    let wt_path = add_printing_path(&mut w, "paths-infer-nested");

    // A nested subdirectory inside that worktree.
    let nested = format!("{}/src/nested", wt_path);

    // --print-paths without a branch should still infer the linked branch
    // from nested cwd, not the main worktree.
    let report = w.invoke_at(remove_here(false, true), &nested, false);
    assert_eq!(report.exit, 0);
    let stdout = stdout(&report);
    let lines: Vec<&str> = stdout.trim().lines().collect();
    assert_eq!(lines.len(), 3);
    assert_eq!(lines[2], "paths-infer-nested");
}

#[test]
fn remove_no_branch_no_worktrees_non_tty_errors() {
    let mut w = world();
    // No worktrees created, no branch specified, cwd outside the repository.
    // Non-TTY → cwd inference fails (cwd is not inside any worktree) → usage error.
    let report = w.invoke(Command::Remove {
        branch: None,
        force: false,
        repo: repo(),
        json: false,
        print_paths: false,
    });
    assert_eq!(report.exit, 1);
}

#[test]
fn remove_nonexistent_branch_fails() {
    let mut w = world();
    let report = w.invoke(remove("ghost-branch"));
    assert_eq!(report.exit, 1); // Usage error
    assert!(stderr(&report).contains("no worktree found"));
}

#[test]
fn remove_warns_when_branch_stays() {
    let mut w = world();
    assert_eq!(w.invoke(add("feature/unmerged")).exit, 0);
    w.commit("feature/unmerged");
    let report = w.invoke(remove("feature/unmerged"));
    assert_eq!(report.exit, 0);
    assert!(stdout(&report).starts_with("Removed worktree and branch 'feature/unmerged' (/repo/.worktrees/feature-unmerged--"));
    assert_eq!(
        stderr(&report),
        "warning: worktree removed but branch deletion failed: error: the branch 'feature/unmerged' is not fully merged\n"
    );
}

#[test]
fn remove_with_terminal_lets_the_user_choose() {
    let mut w = world();
    let first = add_printing_path(&mut w, "first");
    let second = add_printing_path(&mut w, "second");
    let item = format!("{:<30} {:<50} {}", "second", second, "0123456");
    w.choices.push(Reply::Output(item.clone()));
    let report = w.invoke_at(
        Command::Remove { branch: None, force: false, repo: None, json: false, print_paths: false },
        &second,
        true,
    );
    assert_eq!(report.exit, 0);
    assert!(!w.has_branch("second"));
    assert!(w.has_branch("first"));
    assert_eq!(
        w.offered,
        vec![(
            "Remove worktree".to_string(),
            vec![format!("{:<30} {:<50} {}", "first", first, "0123456"), item],
            1
        )]
    );
}

#[test]
fn remove_given_up_exits_130_and_removes_nothing() {
    let mut w = world();
    let path = add_printing_path(&mut w, "kept");
    w.choices.push(Reply::Unavailable("cancelled".to_string()));
    let report = w.invoke_at(remove_here(false, false), &path, true);
    assert_eq!(report.exit, 130);
    assert!(report.emits.is_empty());
    assert!(w.has_branch("kept"));
    assert_eq!(w.linked_dirs(), 1);
}

// ── from inside a worktree ──────────────────────────────────────────

#[test]
fn list_from_inside_worktree_shows_correct_is_main() {
    let mut w = world();
    let wt_path = add_printing_path(&mut w, "feat-inside");

    // Run list from inside the linked worktree, without --repo
    let report = w.invoke_at(Command::List { repo: None, json: true }, &wt_path, false);
    assert_eq!(report.exit, 0);
    let json = list_response(&report);
    let main_wt = json
        .worktrees
        .iter()
        .find(|w| w.branch.as_deref() == Some("main"))
        .expect("main worktree not found");
    assert_eq!(main_wt.is_main, true, "main worktree should be is_main");
    let feat_wt = json
        .worktrees
        .iter()
        .find(|w| w.branch.as_deref() == Some("feat-inside"))
        .expect("feat worktree not found");
    assert_eq!(feat_wt.is_main, false, "linked worktree should not be is_main");
}

#[test]
fn add_from_inside_worktree_creates_at_repo_root() {
    let mut w = world();
    let wt_path = add_printing_path(&mut w, "base-wt");
    let report = w.invoke_at(
        Command::Add {
            branch: "new-from-wt".to_string(),
            base: None,
            repo: None,
            json: false,
            print_cd_path: true,
        },
        &wt_path,
        false,
    );
    assert_eq!(report.exit, 0);
    let new_path = stdout(&report);
    let new_path = new_path.trim();
    let expected_prefix = format!("{}/.worktrees/", "/repo");
    assert!(
        new_path.starts_with(&expected_prefix),
        "new worktree should be under repo root .worktrees/: {new_path}"
    );
    assert!(
        !new_path.contains(".worktrees/base-wt"),
        "must not be nested under existing worktree: {new_path}"
    );
}

#[test]
fn remove_from_inside_worktree_succeeds() {
    let mut w = world();
    let _wt_path = add_printing_path(&mut w, "to-rm-inside");
    let report = w.invoke(remove("to-rm-inside"));
    assert_eq!(report.exit, 0);
}

#[test]
fn remove_main_from_inside_worktree_blocked() {
    let mut w = world();
    let wt_path = add_printing_path(&mut w, "observer-wt");
    let report = w.invoke_at(
        Command::Remove {
            branch: Some("main".to_string()),
            force: false,
            repo: None,
            json: false,
            print_paths: false,
        },
        &wt_path,
        false,
    );
    assert_eq!(report.exit, 4); // Invariant violation
}

#[test]
fn list_from_subdirectory_of_main_worktree() {
    let mut w = world();
    add_printing_path(&mut w, "feat-sub");
    let report = w.invoke_at(Command::List { repo: None, json: true }, "/repo/subdir/deep", false);
    assert_eq!(report.exit, 0);
    let json = list_response(&report);
    assert_eq!(json.worktrees.len(), 2);
    let main_wt = json
        .worktrees
        .iter()
        .find(|w| w.branch.as_deref() == Some("main"))
        .expect("main worktree not found");
    assert_eq!(main_wt.is_main, true);
}

#[test]
fn add_from_subdirectory_of_main_worktree() {
    let mut w = world();
    let report = w.invoke_at(
        Command::Add {
            branch: "from-deep-sub".to_string(),
            base: None,
            repo: None,
            json: false,
            print_cd_path: true,
        },
        "/repo/subdir/deep",
        false,
    );
    assert_eq!(report.exit, 0);
    let new_path = stdout(&report);
    let new_path = new_path.trim();
    let expected_prefix = format!("{}/.worktrees/", "/repo");
    assert!(new_path.starts_with(&expected_prefix), "worktree should be under repo root: {new_path}");
}

#[test]
fn list_from_subdirectory_of_linked_worktree() {
    let mut w = world();
    let wt_path = add_printing_path(&mut w, "feat-linked-sub");
    let subdir = format!("{}/nested", wt_path);
    let report = w.invoke_at(Command::List { repo: None, json: true }, &subdir, false);
    assert_eq!(report.exit, 0);
    let json = list_response(&report);
    assert_eq!(json.worktrees.len(), 2);
    let main_wt = json
        .worktrees
        .iter()
        .find(|w| w.branch.as_deref() == Some("main"))
        .expect("main worktree not found");
    assert_eq!(main_wt.is_main, true, "main should be is_main");
    let linked_wt = json
        .worktrees
        .iter()
        .find(|w| w.branch.as_deref() == Some("feat-linked-sub"))
        .expect("linked worktree not found");
    assert_eq!(linked_wt.is_main, false, "linked should not be is_main");
}

// ── errors, list, doctor ────────────────────────────────────────────

#[test]
fn not_a_repo_exits_3() {
    let mut w = world();
    let report = w.invoke(Command::List { repo: Some("/tmp/empty".to_string()), json: false });
    assert_eq!(report.exit, 3);
    assert!(stderr(&report).contains("not a git repository"));
    assert_eq!(stderr(&report), "error: not a git repository: /tmp/empty\n");
}

#[test]
fn unknown_cwd_without_repo_exits_3() {
    let mut w = world();
    let cli = Cli { command: Command::List { repo: None, json: false } };
    let ambient = Ambient {
        cwd: WorkingDir::Unknown("No such file or directory (os error 2)".to_string()),
        stdin_is_terminal: false,
    };
    match run(&cli, &ambient, &Vec::new(), 0) {
        Step::Fail(e, read) => {
            assert_eq!(read, 0);
            let report = report_failure(&e);
            assert_eq!(report.exit, 3);
            assert_eq!(
                stderr(&report),
                "error: cannot determine cwd: No such file or directory (os error 2)\n"
            );
        }
        other => panic!("should fail at once: {:?}", other),
    }
    assert!(w.invoke(Command::List { repo: repo(), json: false }).exit == 0);
}

#[test]
fn list_empty_repo_shows_main() {
    let mut w = world();
    let report = w.invoke(Command::List { repo: repo(), json: false });
    assert_eq!(report.exit, 0);
    let stdout = stdout(&report);
    // Should show at least the main worktree
    assert!(stdout.contains("main") || stdout.contains("/repo"));
    assert_eq!(
        stdout,
        format!("{:<50} {:<20} {}{}\n", "/repo", "main", "0123456", " [main]")
    );
}

#[test]
fn list_shows_detached_worktrees() {
    let mut w = world();
    w.trees.push(Tree { path: "/repo/.worktrees/det".to_string(), branch: None, dirty: false });
    let report = w.invoke(Command::List { repo: repo(), json: false });
    let stdout = stdout(&report);
    let lines: Vec<&str> = stdout.lines().collect();
    assert_eq!(lines.len(), 2);
    assert_eq!(
        lines[1],
        format!("{:<50} {:<20} {}", "/repo/.worktrees/det", "(detached)", "0123456")
    );
}

#[test]
fn list_json_returns_array() {
    let mut w = world();
    let report = w.invoke(Command::List { repo: repo(), json: true });
    assert_eq!(report.exit, 0);
    let json = list_response(&report);
    assert_eq!(json.ok, true);
    assert!(!json.worktrees.is_empty());
    assert_eq!(json.worktrees[0].path, "/repo");
    assert_eq!(json.worktrees[0].commit, "0123456");
}

#[test]
fn doctor_on_clean_repo() {
    let mut w = world();
    let report = w.invoke(Command::Doctor { repo: repo(), json: false });
    assert_eq!(report.exit, 0);
    assert_eq!(stdout(&report), "✓ no .worktrees directory (no worktrees created yet)\n");
}

#[test]
fn doctor_json_output() {
    let mut w = world();
    let report = w.invoke(Command::Doctor { repo: repo(), json: true });
    assert_eq!(report.exit, 0);
    match json(&report) {
        JsonBody::Doctor(doc) => {
            assert_eq!(doc.ok, true);
            assert_eq!(doc.diagnostics.len(), 1);
            assert_eq!(doc.diagnostics[0].level, DiagLevel::Okay);
        }
        other => panic!("no doctor response: {:?}", other),
    }
}

#[test]
fn doctor_warns_of_orphans_and_detached_heads() {
    let mut w = world();
    w.invoke(add("feature/x"));
    w.stray_dirs.push("/repo/.worktrees/left-over".to_string());
    w.trees.push(Tree { path: "/repo/.worktrees/det".to_string(), branch: None, dirty: false });
    let report = w.invoke(Command::Doctor { repo: repo(), json: false });
    assert_eq!(report.exit, 0);
    assert_eq!(
        stdout(&report),
        "⚠ orphaned directory not tracked by git: /repo/.worktrees/left-over\n\
         ⚠ worktree has no branch (detached HEAD): /repo/.worktrees/det\n"
    );
}

// ── go ──────────────────────────────────────────────────────────────

#[test]
fn go_resolves_existing_worktree() {
    let mut w = world();
    assert_eq!(w.invoke(add("go-target")).exit, 0);
    let report = w.invoke(go(Some("go-target")));
    assert_eq!(report.exit, 0);
    assert!(stdout(&report).contains("go-target"));
    assert!(stdout(&report).starts_with("Worktree for branch 'go-target' is at /repo/.worktrees/go-target--"));
}

#[test]
fn go_print_cd_path_returns_bare_path() {
    let mut w = world();
    assert_eq!(w.invoke(add("cd-go")).exit, 0);
    let report = w.invoke(Command::Go {
        branch: Some("cd-go".to_string()),
        interactive: false,
        repo: repo(),
        json: false,
        print_cd_path: true,
    });
    assert_eq!(report.exit, 0);
    let path = stdout(&report);
    let path = path.trim();
    assert!(path.starts_with('/'));
    assert!(path.contains(".worktrees/"));
}

#[test]
fn go_json_returns_structured_response() {
    let mut w = world();
    assert_eq!(w.invoke(add("go-json")).exit, 0);
    let report = w.invoke(Command::Go {
        branch: Some("go-json".to_string()),
        interactive: false,
        repo: repo(),
        json: true,
        print_cd_path: false,
    });
    assert_eq!(report.exit, 0);
    let json = response(&report);
    assert_eq!(json.ok, true);
    assert!(json.cd_path.is_some());
    assert_eq!(json.branch.as_deref(), Some("go-json"));
    assert_eq!(json.message, "resolved worktree for branch 'go-json'");
}

#[test]
fn go_fails_for_nonexistent_branch() {
    let mut w = world();
    let report = w.invoke(go(Some("nonexistent-branch")));
    assert_eq!(report.exit, 1); // Usage error
    assert!(stderr(&report).contains("no worktree found"));
}

#[test]
fn go_no_branch_non_tty_errors() {
    let mut w = world();
    // Two worktrees, so that none is taken without asking
    for branch in &["picker-a", "picker-b"] {
        assert_eq!(w.invoke(add(branch)).exit, 0);
    }
    // Running without a branch in a non-TTY context should fail
    let report = w.invoke(go(None));
    assert_eq!(report.exit, 1);
    assert!(stderr(&report).contains("interactive mode requires a terminal"));
}

#[test]
fn go_no_branch_with_json_asks_for_a_branch() {
    let mut w = world();
    let report = w.invoke(Command::Go {
        branch: None,
        interactive: false,
        repo: repo(),
        json: true,
        print_cd_path: false,
    });
    assert_eq!(report.exit, 1);
    assert_eq!(stderr(&report), "error: branch argument is required with --json\n");
}

#[test]
fn go_no_branch_auto_selects_single_worktree() {
    let mut w = world();
    assert_eq!(w.invoke(add("only-one")).exit, 0);

    // With only one non-main worktree, it is taken even without a TTY
    let report = w.invoke(go(None));
    assert_eq!(report.exit, 0);
    assert!(stdout(&report).contains("only-one"));
    assert!(w.offered.is_empty());
}

#[test]
fn go_no_worktrees_to_select_errors() {
    let mut w = world();
    // No worktrees created: only main exists
    let report = w.invoke(go(None));
    assert_eq!(report.exit, 1);
    assert!(stderr(&report).contains("no worktrees to select"));
}

#[test]
fn go_interactive_offers_every_worktree_and_starts_behind_main() {
    let mut w = world();
    let only = add_printing_path(&mut w, "only-one");
    let item = format!("{:<30} {:<50} {}", "only-one", only, "0123456");
    w.choices.push(Reply::Output(item.clone()));
    let report = w.invoke_at(
        Command::Go {
            branch: None,
            interactive: true,
            repo: repo(),
            json: false,
            print_cd_path: true,
        },
        "/elsewhere",
        true,
    );
    assert_eq!(report.exit, 0);
    assert_eq!(stdout(&report).trim(), only);
    assert_eq!(
        w.offered,
        vec![(
            "Select worktree".to_string(),
            vec![format!("{:<30} {:<50} {} [main]", "main", "/repo", "0123456"), item],
            1
        )]
    );
}

#[test]
fn go_picker_failures_are_usage_errors() {
    let mut w = world();
    add_printing_path(&mut w, "a");
    add_printing_path(&mut w, "b");
    w.choices.push(Reply::Failure("IO error: not a terminal".to_string()));
    let report = w.invoke_at(go(None), "/elsewhere", true);
    assert_eq!(report.exit, 1);
    assert_eq!(stderr(&report), "error: picker failed: IO error: not a terminal\n");

    w.choices.push(Reply::Output("something that was not offered".to_string()));
    let report = w.invoke_at(go(None), "/elsewhere", true);
    assert_eq!(report.exit, 1);
    assert_eq!(stderr(&report), "error: picker failed: unknown selection\n");

    w.trees.push(Tree { path: "/repo/.worktrees/det".to_string(), branch: None, dirty: false });
    w.choices.push(Reply::Output(format!(
        "{:<30} {:<50} {}",
        "(detached)", "/repo/.worktrees/det", "0123456"
    )));
    let report = w.invoke_at(go(None), "/elsewhere", true);
    assert_eq!(report.exit, 1);
    assert_eq!(stderr(&report), "error: selected worktree has no branch (detached HEAD)\n");

    w.choices.push(Reply::Unavailable("cancelled".to_string()));
    let report = w.invoke_at(go(None), "/elsewhere", true);
    assert_eq!(report.exit, 130);
    assert!(report.emits.is_empty());
}

// ── init ────────────────────────────────────────────────────────────

#[test]
fn init_names_the_bindings_of_the_shell() {
    for shell in [Shell::Bash, Shell::Zsh, Shell::Fish, Shell::Nu] {
        let cli = Cli { command: Command::Init { shell } };
        let ambient =
            Ambient { cwd: WorkingDir::At("/".to_string()), stdin_is_terminal: false };
        let step = run(&cli, &ambient, &Vec::new(), 0);
        assert_eq!(step, Step::Done(Report { emits: vec![Emit::Script(shell)], exit: 0 }, 0));
    }
}

// ── merge ───────────────────────────────────────────────────────────

#[test]
fn merge_clean_succeeds_and_cleans_up() {
    let mut w = world();
    assert_eq!(w.invoke(add("feature/auth")).exit, 0);
    w.commit("feature/auth");

    let report = w.invoke(merge("feature/auth"));
    assert_eq!(report.exit, 0);
    let stdout = stdout(&report);
    assert!(stdout.contains("Merged 'feature/auth' into main"));
    assert!(stdout.contains("Removed worktree and branch 'feature/auth'"));

    // The worktree is gone, and so is the branch
    assert_eq!(w.linked_dirs(), 0, "worktree should be removed");
    assert!(!w.has_branch("feature/auth"));

    // The merge was made on main
    assert!(w.git_args_asked().contains(&vec![
        "merge".to_string(),
        "--no-ff".to_string(),
        "--no-edit".to_string(),
        "feature/auth".to_string()
    ]));
}

#[test]
fn merge_no_cleanup_keeps_worktree_and_branch() {
    let mut w = world();
    assert_eq!(w.invoke(add("feature/keep")).exit, 0);
    w.commit("feature/keep");
    let report = w.invoke(Command::Merge {
        branch: Some("feature/keep".to_string()),
        push: false,
        no_cleanup: true,
        repo: repo(),
        json: false,
        print_paths: false,
    });
    assert_eq!(report.exit, 0);
    let stdout = stdout(&report);
    assert!(stdout.contains("Merged 'feature/keep' into main"));
    assert!(!stdout.contains("Removed"));
    assert_eq!(w.linked_dirs(), 1, "worktree should still exist");
    assert!(w.has_branch("feature/keep"));
}

#[test]
fn merge_conflict_is_given_up_with_exit_5() {
    let mut w = world();
    assert_eq!(w.invoke(add("feature/conflict")).exit, 0);
    w.commit("feature/conflict");
    w.conflicting.push("feature/conflict".to_string());
    let report = w.invoke(merge("feature/conflict"));
    assert_eq!(report.exit, 5);
    assert!(stderr(&report).contains("merge conflicts"));
    assert!(stderr(&report).contains("merge aborted"));
    assert_eq!(stdout(&report), "");
    assert_eq!(w.linked_dirs(), 1, "worktree should still exist after conflict");
    assert!(w.has_branch("feature/conflict"));
    assert!(w.aborted, "main worktree should be clean after abort");
}

#[test]
fn merge_refuses_main_worktree() {
    let mut w = world();
    let report = w.invoke(merge("main"));
    assert_eq!(report.exit, 4); // Invariant violation
    assert!(stderr(&report).contains("refusing to merge the main worktree"));
}

#[test]
fn merge_refuses_when_main_worktree_not_on_mainline() {
    let mut w = world();
    assert_eq!(w.invoke(add("feature/diverged")).exit, 0);
    w.commit("feature/diverged");

    // Switch the main worktree off mainline.
    w.branches.push("other-branch".to_string());
    w.trees[0].branch = Some("other-branch".to_string());

    // Merge should refuse because HEAD != mainline.
    let report = w.invoke(merge("feature/diverged"));
    assert_eq!(report.exit, 4); // Invariant violation
    assert!(stderr(&report).contains("main worktree is on 'other-branch'"));
    assert!(stderr(&report).contains("checkout mainline first"));
}

#[test]
fn merge_with_push_pushes_mainline() {
    let mut w = world();
    w.remote_head = Some("main".to_string());
    assert_eq!(w.invoke(add("feature/pushed")).exit, 0);
    w.commit("feature/pushed");
    let report = w.invoke(Command::Merge {
        branch: Some("feature/pushed".to_string()),
        push: true,
        no_cleanup: false,
        repo: repo(),
        json: false,
        print_paths: false,
    });
    assert_eq!(report.exit, 0);
    let stdout = stdout(&report);
    assert!(stdout.contains("Merged 'feature/pushed' into main"));
    assert!(stdout.contains("Pushed main to origin"));
    assert_eq!(w.pushed, vec!["main".to_string()]);
}

#[test]
fn merge_push_failure_reports_warning() {
    let mut w = world();
    // No upstream configured → push will fail
    w.push_fails = true;
    assert_eq!(w.invoke(add("feature/no-remote")).exit, 0);
    w.commit("feature/no-remote");

    // Merge succeeds but push fails → success with warning on stderr
    let report = w.invoke(Command::Merge {
        branch: Some("feature/no-remote".to_string()),
        push: true,
        no_cleanup: false,
        repo: repo(),
        json: false,
        print_paths: false,
    });
    assert_eq!(report.exit, 0);
    assert!(stdout(&report).contains("Merged 'feature/no-remote' into main"));
    assert!(stderr(&report).contains("warning:"));
    assert!(!stdout(&report).contains("Pushed"));
}

#[test]
fn merge_json_output_structure() {
    let mut w = world();
    assert_eq!(w.invoke(add("feature/json-merge")).exit, 0);
    w.commit("feature/json-merge");
    let report = w.invoke(Command::Merge {
        branch: Some("feature/json-merge".to_string()),
        push: false,
        no_cleanup: false,
        repo: repo(),
        json: true,
        print_paths: false,
    });
    assert_eq!(report.exit, 0);
    match json(&report) {
        JsonBody::Merge(json) => {
            assert_eq!(json.ok, true);
            assert_eq!(json.branch, "feature/json-merge");
            assert_eq!(json.mainline, "main");
            assert_eq!(json.repo_root, "/repo");
            assert_eq!(json.cleaned_up, true);
            assert_eq!(json.pushed, false);
            assert!(json.removed_path.is_some());
            assert!(json.warnings.is_empty());
        }
        other => panic!("no merge response: {:?}", other),
    }
}

#[test]
fn merge_json_no_cleanup_shows_false() {
    let mut w = world();
    assert_eq!(w.invoke(add("feature/json-nc")).exit, 0);
    w.commit("feature/json-nc");
    let report = w.invoke(Command::Merge {
        branch: Some("feature/json-nc".to_string()),
        push: false,
        no_cleanup: true,
        repo: repo(),
        json: true,
        print_paths: false,
    });
    assert_eq!(report.exit, 0);
    match json(&report) {
        JsonBody::Merge(json) => {
            assert_eq!(json.ok, true);
            assert_eq!(json.cleaned_up, false);
            assert_eq!(json.removed_path, None);
        }
        other => panic!("no merge response: {:?}", other),
    }
}

#[test]
fn merge_print_paths_returns_five_lines() {
    let mut w = world();
    assert_eq!(w.invoke(add("feature/paths-merge")).exit, 0);
    w.commit("feature/paths-merge");
    let report = w.invoke(Command::Merge {
        branch: Some("feature/paths-merge".to_string()),
        push: false,
        no_cleanup: false,
        repo: repo(),
        json: false,
        print_paths: true,
    });
    assert_eq!(report.exit, 0);
    let stdout = stdout(&report);
    let lines: Vec<&str> = stdout.trim().lines().collect();
    assert_eq!(lines.len(), 5, "expected 5 lines: {stdout}");

    // Line 1: repo root
    assert!(!lines[0].contains(".worktrees/"), "line 1 should be repo root: {}", lines[0]);

    // Line 2: branch name
    assert_eq!(lines[1], "feature/paths-merge");

    // Line 3: mainline
    assert_eq!(lines[2], "main");

    // Line 4: cleaned_up
    assert_eq!(lines[3], "true");

    // Line 5: pushed
    assert_eq!(lines[4], "false");
}

#[test]
fn merge_auto_detects_mainline() {
    let mut w = world();
    assert_eq!(w.invoke(add("feature/mainline-test")).exit, 0);
    w.commit("feature/mainline-test");
    let report = w.invoke(merge("feature/mainline-test"));
    assert_eq!(report.exit, 0);
    assert!(stdout(&report).contains("into main"));
}

#[test]
fn merge_no_branch_non_tty_inside_worktree_uses_cwd_inference() {
    let mut w = world();
    let wt_path = add_printing_path(&mut w, "infer-merge");
    w.commit("infer-merge");

    // Merge from inside the worktree without specifying a branch
    let report = w.invoke_at(
        Command::Merge {
            branch: None,
            push: false,
            no_cleanup: false,
            repo: None,
            json: false,
            print_paths: false,
        },
        &wt_path,
        false,
    );
    assert_eq!(report.exit, 0);
    assert!(stdout(&report).contains("infer-merge"));
}

#[test]
fn merge_no_branch_non_tty_from_main_worktree_errors() {
    let mut w = world();
    let report = w.invoke_at(
        Command::Merge {
            branch: None,
            push: false,
            no_cleanup: false,
            repo: None,
            json: false,
            print_paths: false,
        },
        "/repo",
        false,
    );
    assert!(stderr(&report).contains("refusing to merge the main worktree"));
    assert_eq!(report.exit, 4);
}

// ── prune ───────────────────────────────────────────────────────────

#[test]
fn prune_dry_run_no_worktrees() {
    let mut w = world();
    let report = w.invoke(prune(false));
    assert_eq!(report.exit, 0);
    assert!(stdout(&report).contains("No worktrees to prune."));
    assert_eq!(stdout(&report), "Mainline: main\n\nNo worktrees to prune.\n");
}

#[test]
fn prune_dry_run_shows_integrated_merged() {
    let mut w = world();
    assert_eq!(w.invoke(add("feature/merged")).exit, 0);
    w.commit("feature/merged");
    w.merged.push("feature/merged".to_string());
    let report = w.invoke(prune(false));
    assert_eq!(report.exit, 0);
    let stdout = stdout(&report);
    assert!(stdout.contains("integrated (merged)"));
    assert!(stdout.contains("can be pruned"));
    assert_eq!(
        stdout,
        format!(
            "Mainline: main\n  ✓ {:<20} integrated (merged)\n\n1 integrated worktree can be pruned. Run with --execute to remove.\n",
            "feature/merged"
        )
    );
}

#[test]
fn prune_dry_run_shows_not_integrated() {
    let mut w = world();
    assert_eq!(w.invoke(add("feature/wip")).exit, 0);
    w.commit("feature/wip");
    let report = w.invoke(prune(false));
    assert_eq!(report.exit, 0);
    let stdout = stdout(&report);
    assert!(stdout.contains("not integrated"));
    assert!(stdout.contains("No integrated worktrees found."));
}

#[test]
fn prune_dry_run_shows_rebase_integrated() {
    let mut w = world();
    assert_eq!(w.invoke(add("feature/rebased")).exit, 0);
    w.commit("feature/rebased");
    w.rebased.push("feature/rebased".to_string());
    let report = w.invoke(prune(false));
    assert_eq!(report.exit, 0);
    assert!(stdout(&report).contains("integrated (rebase)"));
}

#[test]
fn prune_dry_run_counts_in_the_plural() {
    let mut w = world();
    for name in ["a", "b", "c", "d", "e", "f", "g", "h", "i", "j", "k", "l"] {
        assert_eq!(w.invoke(add(name)).exit, 0);
    }
    let report = w.invoke(prune(false));
    assert!(stdout(&report)
        .ends_with("\n12 integrated worktrees can be pruned. Run with --execute to remove.\n"));
    let report = w.invoke(prune(true));
    assert!(stdout(&report).ends_with("\nPruned 12 worktrees.\n"));
}

#[test]
fn prune_execute_rebase_deletes_branch_without_force() {
    let mut w = world();
    assert_eq!(w.invoke(add("feature/rebased-exec")).exit, 0);
    w.commit("feature/rebased-exec");
    w.rebased.push("feature/rebased-exec".to_string());
    let report = w.invoke(prune(true));
    assert_eq!(report.exit, 0);
    let stdout = stdout(&report);
    assert!(stdout.contains("Removed feature/rebased-exec"));
    assert!(stdout.contains("Pruned 1 worktree."));
    assert!(!w.has_branch("feature/rebased-exec"));
    assert_eq!(stderr(&report), "");
}

#[test]
fn prune_execute_removes_integrated_worktrees() {
    let mut w = world();
    assert_eq!(w.invoke(add("feature/done")).exit, 0);
    assert_eq!(w.invoke(add("feature/pending")).exit, 0);
    w.commit("feature/done");
    w.commit("feature/pending");
    w.merged.push("feature/done".to_string());
    let report = w.invoke(prune(true));
    assert_eq!(report.exit, 0);
    let stdout = stdout(&report);
    assert!(stdout.contains("Removed feature/done"));
    assert!(stdout.contains("Skipped feature/pending"));
    assert!(stdout.contains("Pruned 1 worktree."));
    assert_eq!(w.linked_dirs(), 1, "only pending worktree should remain");
    assert_eq!(
        stdout,
        "Mainline: main\n  Removed feature/done\n  Skipped feature/pending (not integrated)\n\nPruned 1 worktree.\n"
    );
}

#[test]
fn prune_execute_no_integrated_worktrees() {
    let mut w = world();
    assert_eq!(w.invoke(add("feature/active")).exit, 0);
    w.commit("feature/active");
    let report = w.invoke(prune(true));
    assert_eq!(report.exit, 0);
    assert!(stdout(&report).contains("No worktrees pruned."));
}

#[test]
fn prune_mainline_auto_detects_main() {
    let mut w = world();
    let report = w.invoke(prune(false));
    assert_eq!(report.exit, 0);
    assert!(stdout(&report).contains("Mainline: main"));
}

#[test]
fn prune_mainline_override() {
    let mut w = world();
    w.branches.push("develop".to_string());
    let report = w.invoke(Command::Prune {
        execute: false,
        force: false,
        mainline: Some("develop".to_string()),
        repo: repo(),
        json: false,
    });
    assert_eq!(report.exit, 0);
    assert!(stdout(&report).contains("Mainline: develop"));
}

#[test]
fn prune_mainline_override_invalid_fails() {
    let mut w = world();
    let report = w.invoke(Command::Prune {
        execute: false,
        force: false,
        mainline: Some("nonexistent".to_string()),
        repo: repo(),
        json: false,
    });
    assert_ne!(report.exit, 0);
    assert!(stderr(&report).contains("mainline branch 'nonexistent' does not exist"));
    assert_eq!(report.exit, 1);
}

#[test]
fn prune_mainline_detects_master() {
    let mut w = world();
    w.branches = vec!["master".to_string()];
    w.trees[0].branch = Some("master".to_string());
    let report = w.invoke(prune(false));
    assert_eq!(report.exit, 0);
    assert!(stdout(&report).contains("Mainline: master"));
}

#[test]
fn prune_never_prunes_main_worktree() {
    let mut w = world();
    let report = w.invoke(Command::Prune {
        execute: false,
        force: false,
        mainline: None,
        repo: repo(),
        json: true,
    });
    assert_eq!(report.exit, 0);
    match json(&report) {
        JsonBody::PruneDryRun(json) => assert!(json.worktrees.is_empty()),
        other => panic!("no dry-run response: {:?}", other),
    }
    let report = w.invoke(prune(true));
    assert_eq!(report.exit, 0);
    assert_eq!(w.trees.len(), 1);
    assert!(w.has_branch("main"));
}

#[test]
fn prune_json_dry_run_structure() {
    let mut w = world();
    assert_eq!(w.invoke(add("feature/json-test")).exit, 0);
    w.commit("feature/json-test");
    w.merged.push("feature/json-test".to_string());
    let report = w.invoke(Command::Prune {
        execute: false,
        force: false,
        mainline: None,
        repo: repo(),
        json: true,
    });
    assert_eq!(report.exit, 0);
    match json(&report) {
        JsonBody::PruneDryRun(json) => {
            assert_eq!(json.ok, true);
            assert_eq!(json.mainline, "main");
            assert_eq!(json.prunable, 1);
            let wts = &json.worktrees;
            assert_eq!(wts.len(), 1);
            assert_eq!(wts[0].branch.as_deref(), Some("feature/json-test"));
            assert_eq!(wts[0].status, "integrated");
            assert_eq!(wts[0].method.as_deref(), Some("merged"));
            assert!(wts[0].path.starts_with("/repo/.worktrees/"));
        }
        other => panic!("no dry-run response: {:?}", other),
    }
}

#[test]
fn prune_json_execute_structure() {
    let mut w = world();
    assert_eq!(w.invoke(add("feature/exec-json")).exit, 0);
    w.commit("feature/exec-json");
    w.merged.push("feature/exec-json".to_string());
    let report = w.invoke(Command::Prune {
        execute: true,
        force: false,
        mainline: None,
        repo: repo(),
        json: true,
    });
    assert_eq!(report.exit, 0);
    match json(&report) {
        JsonBody::PruneExecute(json) => {
            assert_eq!(json.ok, true);
            assert_eq!(json.mainline, "main");
            assert_eq!(json.pruned.len(), 1);
            assert_eq!(json.pruned[0].branch, "feature/exec-json");
            assert!(json.skipped.is_empty());
            assert!(json.warnings.is_empty());
        }
        other => panic!("no prune response: {:?}", other),
    }
}

#[test]
fn prune_squash_merge_shows_not_integrated() {
    let mut w = world();
    assert_eq!(w.invoke(add("feature/squashed")).exit, 0);
    // Two commits on the branch, squashed into one on main: the commits
    // are no ancestors of main, and the one patch on main is none of theirs.
    w.commit("feature/squashed");
    let report = w.invoke(prune(false));
    assert_eq!(report.exit, 0);
    assert!(stdout(&report).contains("not integrated"));
}

#[test]
fn prune_force_removes_dirty_integrated_worktree() {
    let mut w = world();
    assert_eq!(w.invoke(add("feature/dirty")).exit, 0);
    w.trees[1].dirty = true;
    let report = w.invoke(Command::Prune {
        execute: true,
        force: true,
        mainline: None,
        repo: repo(),
        json: false,
    });
    assert_eq!(report.exit, 0);
    assert!(stdout(&report).contains("Removed feature/dirty"));
}

#[test]
fn prune_without_force_skips_dirty_worktree_with_warning() {
    let mut w = world();
    assert_eq!(w.invoke(add("feature/dirty")).exit, 0);
    w.trees[1].dirty = true;
    let report = w.invoke(prune(true));
    assert_eq!(report.exit, 0);
    assert!(stdout(&report).contains("  Skipped feature/dirty (removal failed)\n"));
    assert!(stdout(&report).ends_with("\nNo worktrees pruned.\n"));
    assert!(stderr(&report).starts_with("warning: failed to remove worktree for 'feature/dirty': "));
    assert!(w.has_branch("feature/dirty"));
}

#[test]
fn prune_detached_head_skipped() {
    let mut w = world();
    w.trees.push(Tree {
        path: "/repo/.worktrees/detached-test".to_string(),
        branch: None,
        dirty: false,
    });
    let report = w.invoke(prune(false));
    assert_eq!(report.exit, 0);
    assert!(stdout(&report).contains("no branch (detached HEAD)"));
    assert!(stdout(&report).contains(&format!("  ⚠ {:<20} no branch (detached HEAD)", "(detached)")));

    let report = w.invoke(prune(true));
    assert_eq!(report.exit, 0);
    assert!(stdout(&report).contains("Skipped (detached) (no branch)"));
}

#[test]
fn prune_empty_repo_no_worktrees() {
    let mut w = world();
    let report = w.invoke(prune(true));
    assert_eq!(report.exit, 0);
    assert!(stdout(&report).contains("No worktrees pruned."));
}
