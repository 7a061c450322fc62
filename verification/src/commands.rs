use vstd::prelude::*;
use crate::cli::{Cli, Command, Shell};
use crate::doctor::doctor_flow;
use crate::domain::{BranchName, RepoRoot};
use crate::error::{AppError, AppErrorView};
use crate::git::{list_worktrees_flow, repo_root_flow};
use crate::merge::{merge_flow, MergeResultView};
use crate::output::{NavigationFormat, OutputFormat, PruneFormat, RemoveFormat, StatusFormat};
use crate::prune::{prune_dry_run_flow, prune_execute_flow};
use crate::report::{
    add_emits, doctor_emits, dry_run_emits, emit, gave_up, give_up, go_emits, list_emits,
    merge_emits, no_emits, prune_emits, remove_emits, render_add, render_doctor, render_go,
    render_list, render_merge, render_prune_dry_run, render_prune_execute, render_remove, succeed,
    success, Emit, EmitView, Report, ReportView,
};
use crate::select::{
    go_branch_flow, lemma_selection_stands, named, remove_branch_flow, resolve_interactive_branch,
    resolve_remove_branch, Selection, SelectionView,
};
use crate::text::concat2;
use crate::vcs::{extends, stands, Reply, ReplyView, Step, StepView};
use crate::worktree::{add_flow, go_flow, remove_flow, RemoveResult, RemoveResultView};

verus! {

/// The current directory of the process.
#[derive(Debug, Clone, PartialEq, Eq)]
pub enum WorkingDir {
    /// The process is in this directory.
    At(String),
    /// The directory cannot be told; the reason.
    Unknown(String),
}

/// What the process knows of its surroundings when it starts.
#[derive(Debug, Clone, PartialEq, Eq)]
pub struct Ambient {
    pub cwd: WorkingDir,
    /// Whether standard input is a terminal.
    pub stdin_is_terminal: bool,
}

/// The format of a command that produces a path to go to: the bare path
/// where that is asked for, else JSON where that is asked for, else text.
pub fn nav_fmt(json: bool, cd_path: bool) -> (f: NavigationFormat)
    ensures
        f == if cd_path {
            NavigationFormat::CdPath
        } else if json {
            NavigationFormat::Json
        } else {
            NavigationFormat::Human
        },
{
    if cd_path {
        NavigationFormat::CdPath
    } else if json {
        NavigationFormat::Json
    } else {
        NavigationFormat::Human
    }
}

/// The format of a command that produces a status or a list.
pub fn status_fmt(json: bool) -> (f: StatusFormat)
    ensures
        f == if json {
            StatusFormat::Json
        } else {
            StatusFormat::Human
        },
{
    if json {
        StatusFormat::Json
    } else {
        StatusFormat::Human
    }
}

/// The format of the remove and merge commands: the bare facts where they
/// are asked for, else JSON where that is asked for, else text.
pub fn remove_fmt(json: bool, print_paths: bool) -> (f: RemoveFormat)
    ensures
        f == if print_paths {
            RemoveFormat::PrintPaths
        } else if json {
            RemoveFormat::Json
        } else {
            RemoveFormat::Human
        },
{
    if print_paths {
        RemoveFormat::PrintPaths
    } else if json {
        RemoveFormat::Json
    } else {
        RemoveFormat::Human
    }
}

/// The format of the prune command.
pub fn prune_fmt(json: bool) -> (f: PruneFormat)
    ensures
        f == if json {
            PruneFormat::Json
        } else {
            PruneFormat::Human
        },
{
    if json {
        PruneFormat::Json
    } else {
        PruneFormat::Human
    }
}

/// The one format of a command from its two flags, the bare path first.
pub fn fmt_flag(json: bool, cd_path: bool) -> (f: OutputFormat)
    ensures
        f == if cd_path {
            OutputFormat::CdPath
        } else if json {
            OutputFormat::Json
        } else {
            OutputFormat::Human
        },
{
    if cd_path {
        OutputFormat::CdPath
    } else if json {
        OutputFormat::Json
    } else {
        OutputFormat::Human
    }
}

/// The one format of the remove command from its two flags, the bare paths
/// first.
pub fn fmt_remove(json: bool, print_paths: bool) -> (f: OutputFormat)
    ensures
        f == if print_paths {
            OutputFormat::RemovePaths
        } else if json {
            OutputFormat::Json
        } else {
            OutputFormat::Human
        },
{
    if print_paths {
        OutputFormat::RemovePaths
    } else if json {
        OutputFormat::Json
    } else {
        OutputFormat::Human
    }
}

/// The directory that the repository is looked for from: the one that is
/// named, else the current directory.
pub open spec fn start_dir(repo: Option<Seq<char>>, cwd: WorkingDir) -> Result<
    Seq<char>,
    AppErrorView,
> {
    match repo {
        Some(path) => Ok(path),
        None => match cwd {
            WorkingDir::At(dir) => Ok(dir@),
            WorkingDir::Unknown(reason) => Err(
                AppErrorView::not_a_repo("cannot determine cwd: "@ + reason@),
            ),
        },
    }
}

/// The root of the repository that a command works on.
pub open spec fn resolve_repo_flow(
    repo: Option<Seq<char>>,
    ambient: Ambient,
    replies: Seq<ReplyView>,
    from: nat,
) -> StepView<Seq<char>> {
    match start_dir(repo, ambient.cwd) {
        Ok(start) => repo_root_flow(start, replies, from),
        Err(e) => StepView::Fail(e, from),
    }
}

fn as_text(text: &Option<String>) -> (r: Option<&str>)
    ensures
        r.deep_view() == text.deep_view(),
{
    match text {
        Some(s) => Some(s.as_str()),
        None => None,
    }
}

/// Resolve the root of the repository that a command works on.
pub fn resolve_repo(repo: Option<&str>, ambient: &Ambient, replies: &Vec<Reply>, from: usize) -> (r:
    Step<RepoRoot>)
    ensures
        r.deep_view() == resolve_repo_flow(
            repo.deep_view(),
            *ambient,
            replies.deep_view(),
            from as nat,
        ),
{
    match repo {
        Some(path) => crate::git::repo_root(path, replies, from),
        None => match &ambient.cwd {
            WorkingDir::At(dir) => crate::git::repo_root(dir.as_str(), replies, from),
            WorkingDir::Unknown(reason) => Step::Fail(
                AppError::not_a_repo(concat2("cannot determine cwd: ", reason.as_str())),
                from,
            ),
        },
    }
}

/// The list command: the root is resolved, the catalog is read and printed.
pub open spec fn cmd_list_flow(
    repo: Option<Seq<char>>,
    fmt: StatusFormat,
    ambient: Ambient,
    replies: Seq<ReplyView>,
    from: nat,
) -> StepView<ReportView> {
    match resolve_repo_flow(repo, ambient, replies, from) {
        StepView::Done(root, at) => match list_worktrees_flow(root, replies, at) {
            StepView::Done(worktrees, end) => StepView::Done(
                success(list_emits(worktrees, fmt)),
                end,
            ),
            other => other.pass(),
        },
        other => other.pass(),
    }
}

/// The list command.
pub fn cmd_list(
    repo: Option<&str>,
    fmt: StatusFormat,
    ambient: &Ambient,
    replies: &Vec<Reply>,
    from: usize,
) -> (r: Step<Report>)
    ensures
        r.deep_view() == cmd_list_flow(
            repo.deep_view(),
            fmt,
            *ambient,
            replies.deep_view(),
            from as nat,
        ),
{
    let (root, at) = match resolve_repo(repo, ambient, replies, from) {
        Step::Done(v, at) => (v, at),
        other => {
            return other.pass();
        },
    };
    match crate::git::list_worktrees(&root, replies, at) {
        Step::Done(worktrees, end) => Step::Done(succeed(render_list(&worktrees, fmt)), end),
        other => other.pass(),
    }
}

/// The add command: the root is resolved, the worktree is added, and the
/// result is printed.
pub open spec fn cmd_add_flow(
    branch: Seq<char>,
    base: Option<Seq<char>>,
    repo: Option<Seq<char>>,
    fmt: NavigationFormat,
    ambient: Ambient,
    replies: Seq<ReplyView>,
    from: nat,
) -> StepView<ReportView> {
    match resolve_repo_flow(repo, ambient, replies, from) {
        StepView::Done(root, at) => match add_flow(root, branch, base, replies, at) {
            StepView::Done(added, end) => StepView::Done(success(add_emits(added, fmt)), end),
            other => other.pass(),
        },
        other => other.pass(),
    }
}

/// The add command.
pub fn cmd_add(
    branch: &BranchName,
    base: Option<&str>,
    repo: Option<&str>,
    fmt: NavigationFormat,
    ambient: &Ambient,
    replies: &Vec<Reply>,
    from: usize,
) -> (r: Step<Report>)
    ensures
        r.deep_view() == cmd_add_flow(
            branch@,
            base.deep_view(),
            repo.deep_view(),
            fmt,
            *ambient,
            replies.deep_view(),
            from as nat,
        ),
{
    let (root, at) = match resolve_repo(repo, ambient, replies, from) {
        Step::Done(v, at) => (v, at),
        other => {
            return other.pass();
        },
    };
    match crate::worktree::add(&root, branch, base, replies, at) {
        Step::Done(added, end) => Step::Done(succeed(render_add(&added, fmt)), end),
        other => other.pass(),
    }
}

/// The go command: the root is resolved; the branch is the named one or a
/// selected one; its worktree is looked up and printed.
pub open spec fn cmd_go_flow(
    branch: Option<Seq<char>>,
    interactive: bool,
    repo: Option<Seq<char>>,
    fmt: NavigationFormat,
    ambient: Ambient,
    replies: Seq<ReplyView>,
    from: nat,
) -> StepView<ReportView> {
    match resolve_repo_flow(repo, ambient, replies, from) {
        StepView::Done(root, at) => match go_branch_flow(
            branch,
            root,
            interactive,
            fmt,
            ambient,
            replies,
            at,
        ) {
            StepView::Done(SelectionView::Branch(name), at) => match go_flow(
                root,
                name,
                replies,
                at,
            ) {
                StepView::Done(found, end) => StepView::Done(success(go_emits(found, fmt)), end),
                other => other.pass(),
            },
            StepView::Done(_, at) => StepView::Done(gave_up(), at),
            other => other.pass(),
        },
        other => other.pass(),
    }
}

/// The go command.
pub fn cmd_go(
    branch: Option<&str>,
    interactive: bool,
    repo: Option<&str>,
    fmt: NavigationFormat,
    ambient: &Ambient,
    replies: &Vec<Reply>,
    from: usize,
) -> (r: Step<Report>)
    ensures
        r.deep_view() == cmd_go_flow(
            branch.deep_view(),
            interactive,
            repo.deep_view(),
            fmt,
            *ambient,
            replies.deep_view(),
            from as nat,
        ),
{
    let (root, at) = match resolve_repo(repo, ambient, replies, from) {
        Step::Done(v, at) => (v, at),
        other => {
            return other.pass();
        },
    };
    let (selection, at) = match branch {
        Some(name) => (Selection::Branch(BranchName::new(name)), at),
        None => match resolve_interactive_branch(&root, interactive, fmt, ambient, replies, at) {
            Step::Done(v, at) => (v, at),
            other => {
                return other.pass();
            },
        },
    };
    let name = match selection {
        Selection::Branch(name) => name,
        _ => {
            return Step::Done(give_up(), at);
        },
    };
    match crate::worktree::go(&root, &name, replies, at) {
        Step::Done(found, end) => Step::Done(succeed(render_go(&found, fmt)), end),
        other => other.pass(),
    }
}

/// The failure of an operation that has to go by the current directory
/// where that cannot be told: the catalog is read first, as it is in any
/// case.
pub open spec fn cwd_unknown_flow<V>(
    repo: Seq<char>,
    reason: Seq<char>,
    replies: Seq<ReplyView>,
    from: nat,
) -> StepView<V> {
    match list_worktrees_flow(repo, replies, from) {
        StepView::Done(_, at) => StepView::Fail(
            AppErrorView::usage("cannot determine cwd: "@ + reason),
            at,
        ),
        other => other.pass(),
    }
}

/// Removal as the command line asks for it: where no branch is named, the
/// current directory tells it, and must be known.
pub open spec fn remove_here_flow(
    repo: Seq<char>,
    branch: Option<Seq<char>>,
    force: bool,
    ambient: Ambient,
    replies: Seq<ReplyView>,
    from: nat,
) -> StepView<RemoveResultView> {
    match ambient.cwd {
        WorkingDir::At(dir) => remove_flow(repo, branch, force, dir@, replies, from),
        WorkingDir::Unknown(reason) => if branch is Some {
            remove_flow(repo, branch, force, Seq::empty(), replies, from)
        } else {
            cwd_unknown_flow(repo, reason@, replies, from)
        },
    }
}

fn cwd_unknown<T: DeepView>(repo: &RepoRoot, reason: &str, replies: &Vec<Reply>, from: usize) -> (r:
    Step<T>)
    ensures
        r.deep_view() == cwd_unknown_flow::<T::V>(
            repo@,
            reason@,
            replies.deep_view(),
            from as nat,
        ),
{
    match crate::git::list_worktrees(repo, replies, from) {
        Step::Done(_, at) => Step::Fail(
            AppError::usage(concat2("cannot determine cwd: ", reason)),
            at,
        ),
        other => other.pass(),
    }
}

fn remove_here(
    repo: &RepoRoot,
    branch: Option<&BranchName>,
    force: bool,
    ambient: &Ambient,
    replies: &Vec<Reply>,
    from: usize,
) -> (r: Step<RemoveResult>)
    ensures
        r.deep_view() == remove_here_flow(
            repo@,
            branch.deep_view(),
            force,
            *ambient,
            replies.deep_view(),
            from as nat,
        ),
{
    match &ambient.cwd {
        WorkingDir::At(dir) => crate::worktree::remove(
            repo,
            branch,
            force,
            dir.as_str(),
            replies,
            from,
        ),
        WorkingDir::Unknown(reason) => {
            if branch.is_some() {
                let r = crate::worktree::remove(repo, branch, force, "", replies, from);
                r
            } else {
                cwd_unknown(repo, reason.as_str(), replies, from)
            }
        },
    }
}

/// The remove command: the root is resolved; the branch is the named one, a
/// selected one, or the one that the current directory tells; the worktree
/// is removed and the result printed.
pub open spec fn cmd_remove_flow(
    branch: Option<Seq<char>>,
    force: bool,
    repo: Option<Seq<char>>,
    fmt: RemoveFormat,
    ambient: Ambient,
    replies: Seq<ReplyView>,
    from: nat,
) -> StepView<ReportView> {
    match resolve_repo_flow(repo, ambient, replies, from) {
        StepView::Done(root, at) => match remove_branch_flow(
            branch,
            root,
            fmt,
            ambient,
            replies,
            at,
        ) {
            StepView::Done(SelectionView::GaveUp, at) => StepView::Done(gave_up(), at),
            StepView::Done(selection, at) => match remove_here_flow(
                root,
                named(selection),
                force,
                ambient,
                replies,
                at,
            ) {
                StepView::Done(removed, end) => StepView::Done(
                    success(remove_emits(removed, fmt)),
                    end,
                ),
                other => other.pass(),
            },
            other => other.pass(),
        },
        other => other.pass(),
    }
}

/// The remove command.
pub fn cmd_remove(
    branch: Option<&str>,
    force: bool,
    repo: Option<&str>,
    fmt: RemoveFormat,
    ambient: &Ambient,
    replies: &Vec<Reply>,
    from: usize,
) -> (r: Step<Report>)
    ensures
        r.deep_view() == cmd_remove_flow(
            branch.deep_view(),
            force,
            repo.deep_view(),
            fmt,
            *ambient,
            replies.deep_view(),
            from as nat,
        ),
{
    let (root, at) = match resolve_repo(repo, ambient, replies, from) {
        Step::Done(v, at) => (v, at),
        other => {
            return other.pass();
        },
    };
    let (selection, at) = match branch {
        Some(name) => (Selection::Branch(BranchName::new(name)), at),
        None => match resolve_remove_branch(&root, fmt, ambient, replies, at) {
            Step::Done(v, at) => (v, at),
            other => {
                return other.pass();
            },
        },
    };
    let removal = match &selection {
        Selection::GaveUp => {
            return Step::Done(give_up(), at);
        },
        Selection::Branch(name) => remove_here(&root, Some(name), force, ambient, replies, at),
        Selection::Infer => remove_here(&root, None, force, ambient, replies, at),
    };
    match removal {
        Step::Done(removed, end) => Step::Done(succeed(render_remove(&removed, fmt)), end),
        other => other.pass(),
    }
}

/// A merge as the command line asks for it: where no branch is named, the
/// current directory tells it, and must be known.
pub open spec fn merge_here_flow(
    repo: Seq<char>,
    branch: Option<Seq<char>>,
    push: bool,
    no_cleanup: bool,
    ambient: Ambient,
    replies: Seq<ReplyView>,
    from: nat,
) -> StepView<MergeResultView> {
    match ambient.cwd {
        WorkingDir::At(dir) => merge_flow(repo, branch, push, no_cleanup, dir@, replies, from),
        WorkingDir::Unknown(reason) => if branch is Some {
            merge_flow(repo, branch, push, no_cleanup, Seq::empty(), replies, from)
        } else {
            cwd_unknown_flow(repo, reason@, replies, from)
        },
    }
}

/// The merge command: the root is resolved; the branch is the named one or
/// the one that the current directory tells; it is merged and the result
/// printed.
pub open spec fn cmd_merge_flow(
    branch: Option<Seq<char>>,
    push: bool,
    no_cleanup: bool,
    repo: Option<Seq<char>>,
    fmt: RemoveFormat,
    ambient: Ambient,
    replies: Seq<ReplyView>,
    from: nat,
) -> StepView<ReportView> {
    match resolve_repo_flow(repo, ambient, replies, from) {
        StepView::Done(root, at) => match merge_here_flow(
            root,
            branch,
            push,
            no_cleanup,
            ambient,
            replies,
            at,
        ) {
            StepView::Done(merged, end) => StepView::Done(success(merge_emits(merged, fmt)), end),
            other => other.pass(),
        },
        other => other.pass(),
    }
}

/// The merge command.
pub fn cmd_merge(
    branch: Option<&str>,
    push: bool,
    no_cleanup: bool,
    repo: Option<&str>,
    fmt: RemoveFormat,
    ambient: &Ambient,
    replies: &Vec<Reply>,
    from: usize,
) -> (r: Step<Report>)
    ensures
        r.deep_view() == cmd_merge_flow(
            branch.deep_view(),
            push,
            no_cleanup,
            repo.deep_view(),
            fmt,
            *ambient,
            replies.deep_view(),
            from as nat,
        ),
{
    let (root, at) = match resolve_repo(repo, ambient, replies, from) {
        Step::Done(v, at) => (v, at),
        other => {
            return other.pass();
        },
    };
    let name = match branch {
        Some(b) => Some(BranchName::new(b)),
        None => None,
    };
    let merging = match &ambient.cwd {
        WorkingDir::At(dir) => crate::merge::merge(
            &root,
            name.as_ref(),
            push,
            no_cleanup,
            dir.as_str(),
            replies,
            at,
        ),
        WorkingDir::Unknown(reason) => {
            if name.is_some() {
                let r = crate::merge::merge(
                    &root,
                    name.as_ref(),
                    push,
                    no_cleanup,
                    "",
                    replies,
                    at,
                );
                r
            } else {
                cwd_unknown(&root, reason.as_str(), replies, at)
            }
        },
    };
    match merging {
        Step::Done(merged, end) => Step::Done(succeed(render_merge(&merged, fmt)), end),
        other => other.pass(),
    }
}

/// The prune command: the root is resolved; then a dry run, or the pruning
/// itself where it is asked for; the result is printed.
pub open spec fn cmd_prune_flow(
    execute: bool,
    force: bool,
    mainline: Option<Seq<char>>,
    repo: Option<Seq<char>>,
    fmt: PruneFormat,
    ambient: Ambient,
    replies: Seq<ReplyView>,
    from: nat,
) -> StepView<ReportView> {
    match resolve_repo_flow(repo, ambient, replies, from) {
        StepView::Done(root, at) => if execute {
            match prune_execute_flow(root, mainline, force, replies, at) {
                StepView::Done(result, end) => StepView::Done(
                    success(prune_emits(result, fmt)),
                    end,
                ),
                other => other.pass(),
            }
        } else {
            match prune_dry_run_flow(root, mainline, replies, at) {
                StepView::Done(dry_run, end) => StepView::Done(
                    success(dry_run_emits(dry_run, fmt)),
                    end,
                ),
                other => other.pass(),
            }
        },
        other => other.pass(),
    }
}

/// The prune command without `--execute`.
pub fn cmd_prune_dry_run(
    repo: &RepoRoot,
    mainline: Option<&str>,
    fmt: PruneFormat,
    replies: &Vec<Reply>,
    from: usize,
) -> (r: Step<Report>)
    ensures
        r.deep_view() == (match prune_dry_run_flow(
            repo@,
            mainline.deep_view(),
            replies.deep_view(),
            from as nat,
        ) {
            StepView::Done(dry_run, end) => StepView::Done(
                success(dry_run_emits(dry_run, fmt)),
                end,
            ),
            other => other.pass(),
        }),
{
    match crate::prune::prune_dry_run(repo, mainline, replies, from) {
        Step::Done(dry_run, end) => Step::Done(
            succeed(render_prune_dry_run(&dry_run, fmt)),
            end,
        ),
        other => other.pass(),
    }
}

/// The prune command with `--execute`.
pub fn cmd_prune_execute(
    repo: &RepoRoot,
    mainline: Option<&str>,
    force: bool,
    fmt: PruneFormat,
    replies: &Vec<Reply>,
    from: usize,
) -> (r: Step<Report>)
    ensures
        r.deep_view() == (match prune_execute_flow(
            repo@,
            mainline.deep_view(),
            force,
            replies.deep_view(),
            from as nat,
        ) {
            StepView::Done(result, end) => StepView::Done(success(prune_emits(result, fmt)), end),
            other => other.pass(),
        }),
{
    match crate::prune::prune_execute(repo, mainline, force, replies, from) {
        Step::Done(result, end) => Step::Done(succeed(render_prune_execute(&result, fmt)), end),
        other => other.pass(),
    }
}

/// The prune command.
pub fn cmd_prune(
    execute: bool,
    force: bool,
    mainline: Option<&str>,
    repo: Option<&str>,
    fmt: PruneFormat,
    ambient: &Ambient,
    replies: &Vec<Reply>,
    from: usize,
) -> (r: Step<Report>)
    ensures
        r.deep_view() == cmd_prune_flow(
            execute,
            force,
            mainline.deep_view(),
            repo.deep_view(),
            fmt,
            *ambient,
            replies.deep_view(),
            from as nat,
        ),
{
    let (root, at) = match resolve_repo(repo, ambient, replies, from) {
        Step::Done(v, at) => (v, at),
        other => {
            return other.pass();
        },
    };
    if execute {
        cmd_prune_execute(&root, mainline, force, fmt, replies, at)
    } else {
        cmd_prune_dry_run(&root, mainline, fmt, replies, at)
    }
}

/// The init command: the bindings of the shell are printed.
pub fn cmd_init(shell: Shell, from: usize) -> (r: Step<Report>)
    ensures
        r.deep_view() == StepView::Done(success(seq![EmitView::Script(shell)]), from as nat),
{
    let mut emits = no_emits();
    emit(&mut emits, Emit::Script(shell));
    Step::Done(succeed(emits), from)
}

/// The doctor command: the root is resolved, the diagnostics are made and
/// printed.
pub open spec fn cmd_doctor_flow(
    repo: Option<Seq<char>>,
    fmt: StatusFormat,
    ambient: Ambient,
    replies: Seq<ReplyView>,
    from: nat,
) -> StepView<ReportView> {
    match resolve_repo_flow(repo, ambient, replies, from) {
        StepView::Done(root, at) => match doctor_flow(root, replies, at) {
            StepView::Done(diags, end) => StepView::Done(success(doctor_emits(diags, fmt)), end),
            other => other.pass(),
        },
        other => other.pass(),
    }
}

/// The doctor command.
pub fn cmd_doctor(
    repo: Option<&str>,
    fmt: StatusFormat,
    ambient: &Ambient,
    replies: &Vec<Reply>,
    from: usize,
) -> (r: Step<Report>)
    ensures
        r.deep_view() == cmd_doctor_flow(
            repo.deep_view(),
            fmt,
            *ambient,
            replies.deep_view(),
            from as nat,
        ),
{
    let (root, at) = match resolve_repo(repo, ambient, replies, from) {
        Step::Done(v, at) => (v, at),
        other => {
            return other.pass();
        },
    };
    match crate::doctor::doctor(&root, replies, at) {
        Step::Done(diags, end) => Step::Done(succeed(render_doctor(&diags, fmt)), end),
        other => other.pass(),
    }
}

/// What a format is for two flags, as [`nav_fmt`] gives it.
pub open spec fn navigation_format(json: bool, cd_path: bool) -> NavigationFormat {
    if cd_path {
        NavigationFormat::CdPath
    } else if json {
        NavigationFormat::Json
    } else {
        NavigationFormat::Human
    }
}

/// What a format is for one flag, as [`status_fmt`] gives it.
pub open spec fn status_format(json: bool) -> StatusFormat {
    if json {
        StatusFormat::Json
    } else {
        StatusFormat::Human
    }
}

/// What a format is for two flags, as [`remove_fmt`] gives it.
pub open spec fn remove_format(json: bool, print_paths: bool) -> RemoveFormat {
    if print_paths {
        RemoveFormat::PrintPaths
    } else if json {
        RemoveFormat::Json
    } else {
        RemoveFormat::Human
    }
}

/// What a format is for one flag, as [`prune_fmt`] gives it.
pub open spec fn prune_format(json: bool) -> PruneFormat {
    if json {
        PruneFormat::Json
    } else {
        PruneFormat::Human
    }
}

/// The whole of one invocation: the command that the arguments name, in the
/// format that its flags name.
pub open spec fn run_flow(cli: Cli, ambient: Ambient, replies: Seq<ReplyView>, from: nat)
    -> StepView<ReportView> {
    match cli.command {
        Command::List { repo, json } => cmd_list_flow(
            repo.deep_view(),
            status_format(json),
            ambient,
            replies,
            from,
        ),
        Command::Add { branch, base, repo, json, print_cd_path } => cmd_add_flow(
            branch@,
            base.deep_view(),
            repo.deep_view(),
            navigation_format(json, print_cd_path),
            ambient,
            replies,
            from,
        ),
        Command::Go { branch, interactive, repo, json, print_cd_path } => cmd_go_flow(
            branch.deep_view(),
            interactive,
            repo.deep_view(),
            navigation_format(json, print_cd_path),
            ambient,
            replies,
            from,
        ),
        Command::Remove { branch, force, repo, json, print_paths } => cmd_remove_flow(
            branch.deep_view(),
            force,
            repo.deep_view(),
            remove_format(json, print_paths),
            ambient,
            replies,
            from,
        ),
        Command::Merge { branch, push, no_cleanup, repo, json, print_paths } => cmd_merge_flow(
            branch.deep_view(),
            push,
            no_cleanup,
            repo.deep_view(),
            remove_format(json, print_paths),
            ambient,
            replies,
            from,
        ),
        Command::Prune { execute, force, mainline, repo, json } => cmd_prune_flow(
            execute,
            force,
            mainline.deep_view(),
            repo.deep_view(),
            prune_format(json),
            ambient,
            replies,
            from,
        ),
        Command::Init { shell } => StepView::Done(success(seq![EmitView::Script(shell)]), from),
        Command::Doctor { repo, json } => cmd_doctor_flow(
            repo.deep_view(),
            status_format(json),
            ambient,
            replies,
            from,
        ),
    }
}

/// Run one invocation of the tool.
pub fn run(cli: &Cli, ambient: &Ambient, replies: &Vec<Reply>, from: usize) -> (r: Step<Report>)
    ensures
        r.deep_view() == run_flow(*cli, *ambient, replies.deep_view(), from as nat),
{
    match &cli.command {
        Command::List { repo, json } => cmd_list(
            as_text(repo),
            status_fmt(*json),
            ambient,
            replies,
            from,
        ),
        Command::Add { branch, base, repo, json, print_cd_path } => cmd_add(
            &BranchName::new(branch.as_str()),
            as_text(base),
            as_text(repo),
            nav_fmt(*json, *print_cd_path),
            ambient,
            replies,
            from,
        ),
        Command::Go { branch, interactive, repo, json, print_cd_path } => cmd_go(
            as_text(branch),
            *interactive,
            as_text(repo),
            nav_fmt(*json, *print_cd_path),
            ambient,
            replies,
            from,
        ),
        Command::Remove { branch, force, repo, json, print_paths } => cmd_remove(
            as_text(branch),
            *force,
            as_text(repo),
            remove_fmt(*json, *print_paths),
            ambient,
            replies,
            from,
        ),
        Command::Merge { branch, push, no_cleanup, repo, json, print_paths } => cmd_merge(
            as_text(branch),
            *push,
            *no_cleanup,
            as_text(repo),
            remove_fmt(*json, *print_paths),
            ambient,
            replies,
            from,
        ),
        Command::Prune { execute, force, mainline, repo, json } => cmd_prune(
            *execute,
            *force,
            as_text(mainline),
            as_text(repo),
            prune_fmt(*json),
            ambient,
            replies,
            from,
        ),
        Command::Init { shell } => cmd_init(*shell, from),
        Command::Doctor { repo, json } => cmd_doctor(
            as_text(repo),
            status_fmt(*json),
            ambient,
            replies,
            from,
        ),
    }
}

proof fn lemma_cmd_remove_stands(
    branch: Option<Seq<char>>,
    force: bool,
    repo: Option<Seq<char>>,
    fmt: RemoveFormat,
    ambient: Ambient,
    replies: Seq<ReplyView>,
    longer: Seq<ReplyView>,
    from: nat,
)
    requires
        extends(longer, replies),
    ensures
        stands(
            cmd_remove_flow(branch, force, repo, fmt, ambient, replies, from),
            cmd_remove_flow(branch, force, repo, fmt, ambient, longer, from),
            from,
            replies.len(),
        ),
{
    match start_dir(repo, ambient.cwd) {
        Ok(start) => {
            crate::git::lemma_repo_root_stands(start, replies, longer, from);
            match repo_root_flow(start, replies, from) {
                StepView::Done(root, at) => {
                    lemma_selection_stands(
                        branch,
                        root,
                        false,
                        NavigationFormat::Human,
                        fmt,
                        ambient,
                        replies,
                        longer,
                        at,
                    );
                    match remove_branch_flow(branch, root, fmt, ambient, replies, at) {
                        StepView::Done(selection, next) => {
                            crate::git::lemma_list_worktrees_stands(root, replies, longer, next);
                            match ambient.cwd {
                                WorkingDir::At(dir) => {
                                    crate::worktree::lemma_remove_stands(
                                        root,
                                        named(selection),
                                        force,
                                        dir@,
                                        replies,
                                        longer,
                                        next,
                                    );
                                },
                                WorkingDir::Unknown(_) => {
                                    crate::worktree::lemma_remove_stands(
                                        root,
                                        named(selection),
                                        force,
                                        Seq::empty(),
                                        replies,
                                        longer,
                                        next,
                                    );
                                },
                            }
                        },
                        _ => {},
                    }
                },
                _ => {},
            }
        },
        Err(_) => {},
    }
}

proof fn lemma_cmd_merge_stands(
    branch: Option<Seq<char>>,
    push: bool,
    no_cleanup: bool,
    repo: Option<Seq<char>>,
    fmt: RemoveFormat,
    ambient: Ambient,
    replies: Seq<ReplyView>,
    longer: Seq<ReplyView>,
    from: nat,
)
    requires
        extends(longer, replies),
    ensures
        stands(
            cmd_merge_flow(branch, push, no_cleanup, repo, fmt, ambient, replies, from),
            cmd_merge_flow(branch, push, no_cleanup, repo, fmt, ambient, longer, from),
            from,
            replies.len(),
        ),
{
    match start_dir(repo, ambient.cwd) {
        Ok(start) => {
            crate::git::lemma_repo_root_stands(start, replies, longer, from);
            match repo_root_flow(start, replies, from) {
                StepView::Done(root, at) => {
                    crate::git::lemma_list_worktrees_stands(root, replies, longer, at);
                    match ambient.cwd {
                        WorkingDir::At(dir) => {
                            crate::merge::lemma_merge_stands(
                                root,
                                branch,
                                push,
                                no_cleanup,
                                dir@,
                                replies,
                                longer,
                                at,
                            );
                        },
                        WorkingDir::Unknown(_) => {
                            crate::merge::lemma_merge_stands(
                                root,
                                branch,
                                push,
                                no_cleanup,
                                Seq::empty(),
                                replies,
                                longer,
                                at,
                            );
                        },
                    }
                },
                _ => {},
            }
        },
        Err(_) => {},
    }
}

proof fn lemma_cmd_go_stands(
    branch: Option<Seq<char>>,
    interactive: bool,
    repo: Option<Seq<char>>,
    fmt: NavigationFormat,
    ambient: Ambient,
    replies: Seq<ReplyView>,
    longer: Seq<ReplyView>,
    from: nat,
)
    requires
        extends(longer, replies),
    ensures
        stands(
            cmd_go_flow(branch, interactive, repo, fmt, ambient, replies, from),
            cmd_go_flow(branch, interactive, repo, fmt, ambient, longer, from),
            from,
            replies.len(),
        ),
{
    match start_dir(repo, ambient.cwd) {
        Ok(start) => {
            crate::git::lemma_repo_root_stands(start, replies, longer, from);
            match repo_root_flow(start, replies, from) {
                StepView::Done(root, at) => {
                    lemma_selection_stands(
                        branch,
                        root,
                        interactive,
                        fmt,
                        RemoveFormat::Human,
                        ambient,
                        replies,
                        longer,
                        at,
                    );
                    match go_branch_flow(branch, root, interactive, fmt, ambient, replies, at) {
                        StepView::Done(SelectionView::Branch(name), next) => {
                            crate::worktree::lemma_go_stands(root, name, replies, longer, next);
                        },
                        _ => {},
                    }
                },
                _ => {},
            }
        },
        Err(_) => {},
    }
}

proof fn lemma_cmd_prune_stands(
    execute: bool,
    force: bool,
    mainline: Option<Seq<char>>,
    repo: Option<Seq<char>>,
    fmt: PruneFormat,
    ambient: Ambient,
    replies: Seq<ReplyView>,
    longer: Seq<ReplyView>,
    from: nat,
)
    requires
        extends(longer, replies),
    ensures
        stands(
            cmd_prune_flow(execute, force, mainline, repo, fmt, ambient, replies, from),
            cmd_prune_flow(execute, force, mainline, repo, fmt, ambient, longer, from),
            from,
            replies.len(),
        ),
{
    match start_dir(repo, ambient.cwd) {
        Ok(start) => {
            crate::git::lemma_repo_root_stands(start, replies, longer, from);
            match repo_root_flow(start, replies, from) {
                StepView::Done(root, at) => {
                    crate::prune::lemma_prune_execute_stands(
                        root,
                        mainline,
                        force,
                        replies,
                        longer,
                        at,
                    );
                    crate::prune::lemma_prune_dry_run_stands(root, mainline, replies, longer, at);
                },
                _ => {},
            }
        },
        Err(_) => {},
    }
}

proof fn lemma_cmd_simple_stands(
    branch: Seq<char>,
    base: Option<Seq<char>>,
    repo: Option<Seq<char>>,
    nav: NavigationFormat,
    fmt: StatusFormat,
    ambient: Ambient,
    replies: Seq<ReplyView>,
    longer: Seq<ReplyView>,
    from: nat,
)
    requires
        extends(longer, replies),
    ensures
        stands(
            cmd_list_flow(repo, fmt, ambient, replies, from),
            cmd_list_flow(repo, fmt, ambient, longer, from),
            from,
            replies.len(),
        ),
        stands(
            cmd_add_flow(branch, base, repo, nav, ambient, replies, from),
            cmd_add_flow(branch, base, repo, nav, ambient, longer, from),
            from,
            replies.len(),
        ),
        stands(
            cmd_doctor_flow(repo, fmt, ambient, replies, from),
            cmd_doctor_flow(repo, fmt, ambient, longer, from),
            from,
            replies.len(),
        ),
{
    match start_dir(repo, ambient.cwd) {
        Ok(start) => {
            crate::git::lemma_repo_root_stands(start, replies, longer, from);
            match repo_root_flow(start, replies, from) {
                StepView::Done(root, at) => {
                    crate::git::lemma_list_worktrees_stands(root, replies, longer, at);
                    crate::worktree::lemma_add_stands(root, branch, base, replies, longer, at);
                    crate::doctor::lemma_doctor_stands(root, replies, longer, at);
                },
                _ => {},
            }
        },
        Err(_) => {},
    }
}

/// What an invocation has come to stands however many replies follow: once
/// a command has come to its end on the replies recorded so far, it has
/// read none but those replies, and no reply that is recorded later changes
/// what it printed or failed with. So a caller may run the command anew
/// each time a reply has come in.
pub proof fn lemma_run_stands(
    cli: Cli,
    ambient: Ambient,
    replies: Seq<ReplyView>,
    longer: Seq<ReplyView>,
    from: nat,
)
    requires
        extends(longer, replies),
    ensures
        stands(
            run_flow(cli, ambient, replies, from),
            run_flow(cli, ambient, longer, from),
            from,
            replies.len(),
        ),
{
    match cli.command {
        Command::List { repo, json } => {
            lemma_cmd_simple_stands(
                Seq::empty(),
                None,
                repo.deep_view(),
                NavigationFormat::Human,
                status_format(json),
                ambient,
                replies,
                longer,
                from,
            );
        },
        Command::Add { branch, base, repo, json, print_cd_path } => {
            lemma_cmd_simple_stands(
                branch@,
                base.deep_view(),
                repo.deep_view(),
                navigation_format(json, print_cd_path),
                StatusFormat::Human,
                ambient,
                replies,
                longer,
                from,
            );
        },
        Command::Go { branch, interactive, repo, json, print_cd_path } => {
            lemma_cmd_go_stands(
                branch.deep_view(),
                interactive,
                repo.deep_view(),
                navigation_format(json, print_cd_path),
                ambient,
                replies,
                longer,
                from,
            );
        },
        Command::Remove { branch, force, repo, json, print_paths } => {
            lemma_cmd_remove_stands(
                branch.deep_view(),
                force,
                repo.deep_view(),
                remove_format(json, print_paths),
                ambient,
                replies,
                longer,
                from,
            );
        },
        Command::Merge { branch, push, no_cleanup, repo, json, print_paths } => {
            lemma_cmd_merge_stands(
                branch.deep_view(),
                push,
                no_cleanup,
                repo.deep_view(),
                remove_format(json, print_paths),
                ambient,
                replies,
                longer,
                from,
            );
        },
        Command::Prune { execute, force, mainline, repo, json } => {
            lemma_cmd_prune_stands(
                execute,
                force,
                mainline.deep_view(),
                repo.deep_view(),
                prune_format(json),
                ambient,
                replies,
                longer,
                from,
            );
        },
        Command::Init { shell } => {},
        Command::Doctor { repo, json } => {
            lemma_cmd_simple_stands(
                Seq::empty(),
                None,
                repo.deep_view(),
                NavigationFormat::Human,
                status_format(json),
                ambient,
                replies,
                longer,
                from,
            );
        },
    }
}

} // verus!
