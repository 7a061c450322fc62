use vstd::prelude::*;
use vstd::string::StringExecFns;
use crate::domain::{BranchName, RepoRoot};
use crate::error::{AppError, AppErrorView, ExitCode};
use crate::catalog::main_branch;
use crate::git::{
    git_request, list_worktrees_flow, merge_abort_args, merge_abort_flow, merge_no_ff_flow,
    push_flow, resolve_mainline_flow,
};
use crate::text::{concat2, concat3, same_text};
use crate::vcs::{extends, stands, Reply, ReplyView, Step, StepView};
use crate::worktree::{
    fails_with, lemma_remove_stands, remove, remove_flow, resolve_target, resolves_to_main, target,
};

verus! {

/// Result of a successful `merge` operation.
#[derive(Debug, Clone, PartialEq, Eq)]
pub struct MergeResult {
    pub branch: BranchName,
    pub mainline: String,
    pub repo_root: String,
    pub cleaned_up: bool,
    /// Path of the removed worktree, where `cleaned_up` is true.
    pub removed_path: Option<String>,
    pub pushed: bool,
    /// Non-fatal warnings: cleanup or push failed after the merge.
    pub warnings: Vec<String>,
}

/// What a [`MergeResult`] stands for in contracts.
pub struct MergeResultView {
    pub branch: Seq<char>,
    pub mainline: Seq<char>,
    pub repo_root: Seq<char>,
    pub cleaned_up: bool,
    pub removed_path: Option<Seq<char>>,
    pub pushed: bool,
    pub warnings: Seq<Seq<char>>,
}

impl DeepView for MergeResult {
    type V = MergeResultView;

    open spec fn deep_view(&self) -> MergeResultView {
        MergeResultView {
            branch: self.branch@,
            mainline: self.mainline@,
            repo_root: self.repo_root@,
            cleaned_up: self.cleaned_up,
            removed_path: self.removed_path.deep_view(),
            pushed: self.pushed,
            warnings: self.warnings.deep_view(),
        }
    }
}

/// The branch that the main worktree is on, as a message names it.
pub open spec fn branch_or_detached(branch: Option<Seq<char>>) -> Seq<char> {
    match branch {
        Some(name) => name,
        None => "(detached)"@,
    }
}

/// The message that tells that the main worktree is not on the mainline.
pub open spec fn off_mainline_message(on: Option<Seq<char>>, mainline: Seq<char>) -> Seq<char> {
    "main worktree is on '"@ + branch_or_detached(on) + "', expected '"@ + mainline
        + "' — checkout mainline first"@
}

/// The message that tells that a merge met conflicts and was given up.
pub open spec fn conflict_message(branch: Seq<char>, e: AppErrorView) -> Seq<char> {
    "merge conflicts with '"@ + branch
        + "' — merge aborted; use `git merge` directly to handle conflicts\n"@ + e.message
}

/// What the cleanup after a merge came to.
pub struct Cleanup {
    pub cleaned_up: bool,
    pub removed_path: Option<String>,
    pub warnings: Vec<String>,
}

/// What a [`Cleanup`] stands for in contracts.
pub struct CleanupView {
    pub cleaned_up: bool,
    pub removed_path: Option<Seq<char>>,
    pub warnings: Seq<Seq<char>>,
}

impl DeepView for Cleanup {
    type V = CleanupView;

    open spec fn deep_view(&self) -> CleanupView {
        CleanupView {
            cleaned_up: self.cleaned_up,
            removed_path: self.removed_path.deep_view(),
            warnings: self.warnings.deep_view(),
        }
    }
}

/// The warnings that a removal leaves: its own warning, if it has one.
pub open spec fn warnings_of(warning: Option<Seq<char>>) -> Seq<Seq<char>> {
    match warning {
        Some(text) => seq![text],
        None => Seq::empty(),
    }
}

/// The cleanup after a merge: unless it is switched off, the worktree and
/// the branch are removed, without force. A removal that fails is no
/// failure of the merge: it leaves a warning.
pub open spec fn cleanup_flow(
    repo: Seq<char>,
    name: Seq<char>,
    no_cleanup: bool,
    cwd: Seq<char>,
    replies: Seq<ReplyView>,
    from: nat,
) -> StepView<CleanupView> {
    if no_cleanup {
        StepView::Done(
            CleanupView { cleaned_up: false, removed_path: None, warnings: Seq::empty() },
            from,
        )
    } else {
        match remove_flow(repo, Some(name), false, cwd, replies, from) {
            StepView::Ask(q) => StepView::Ask(q),
            StepView::Done(removed, at) => StepView::Done(
                CleanupView {
                    cleaned_up: true,
                    removed_path: Some(removed.removed_path),
                    warnings: warnings_of(removed.warning),
                },
                at,
            ),
            StepView::Fail(e, at) => StepView::Done(
                CleanupView {
                    cleaned_up: false,
                    removed_path: None,
                    warnings: seq!["merge succeeded but cleanup failed: "@ + e.message],
                },
                at,
            ),
        }
    }
}

/// The push after a merge, where one is asked for: whether the mainline was
/// pushed, and the warning that a failed push leaves.
pub open spec fn push_after_merge_flow(
    repo: Seq<char>,
    mainline: Seq<char>,
    push: bool,
    replies: Seq<ReplyView>,
    from: nat,
) -> StepView<(bool, Option<Seq<char>>)> {
    if !push {
        StepView::Done((false, None), from)
    } else {
        match push_flow(repo, mainline, replies, from) {
            StepView::Ask(q) => StepView::Ask(q),
            StepView::Done(_, at) => StepView::Done((true, None), at),
            StepView::Fail(e, at) => StepView::Done(
                (false, Some("merge succeeded but push failed: "@ + e.message)),
                at,
            ),
        }
    }
}

/// The merge itself and what follows it, once the checks have passed. A
/// merge that fails is given up, so that the main worktree is left clean,
/// and the operation fails with a conflict: nothing is removed or pushed.
pub open spec fn merge_checked(
    repo: Seq<char>,
    name: Seq<char>,
    mainline: Seq<char>,
    push: bool,
    no_cleanup: bool,
    cwd: Seq<char>,
    replies: Seq<ReplyView>,
    from: nat,
) -> StepView<MergeResultView> {
    match merge_no_ff_flow(repo, name, replies, from) {
        StepView::Ask(q) => StepView::Ask(q),
        StepView::Fail(e, at) => match merge_abort_flow(repo, replies, at) {
            StepView::Done(_, end) => StepView::Fail(
                AppErrorView::conflict(conflict_message(name, e)),
                end,
            ),
            other => other.pass(),
        },
        StepView::Done(_, at) => match cleanup_flow(repo, name, no_cleanup, cwd, replies, at) {
            StepView::Done(cleanup, at) => match push_after_merge_flow(
                repo,
                mainline,
                push,
                replies,
                at,
            ) {
                StepView::Done(pushed, end) => StepView::Done(
                    MergeResultView {
                        branch: name,
                        mainline,
                        repo_root: repo,
                        cleaned_up: cleanup.cleaned_up,
                        removed_path: cleanup.removed_path,
                        pushed: pushed.0,
                        warnings: cleanup.warnings + warnings_of(pushed.1),
                    },
                    end,
                ),
                other => other.pass(),
            },
            other => other.pass(),
        },
    }
}

/// Merge the branch of a worktree into the mainline: the catalog is read;
/// the branch is the named one or that of the worktree that `cwd` lies in;
/// the main worktree is never merged; the mainline is resolved, and the main
/// worktree must be on it; then the merge is made.
pub open spec fn merge_flow(
    repo: Seq<char>,
    branch: Option<Seq<char>>,
    push: bool,
    no_cleanup: bool,
    cwd: Seq<char>,
    replies: Seq<ReplyView>,
    from: nat,
) -> StepView<MergeResultView> {
    match list_worktrees_flow(repo, replies, from) {
        StepView::Done(worktrees, at) => match target(worktrees, branch, cwd) {
            Ok((name, wt)) => if wt.is_main {
                StepView::Fail(
                    AppErrorView::invariant_violation("refusing to merge the main worktree"@),
                    at,
                )
            } else {
                match resolve_mainline_flow(repo, replies, at) {
                    StepView::Done(mainline, at) => if main_branch(worktrees) != Some(mainline) {
                        StepView::Fail(
                            AppErrorView::invariant_violation(
                                off_mainline_message(main_branch(worktrees), mainline),
                            ),
                            at,
                        )
                    } else {
                        merge_checked(repo, name, mainline, push, no_cleanup, cwd, replies, at)
                    },
                    other => other.pass(),
                }
            },
            Err(e) => StepView::Fail(e, at),
        },
        other => other.pass(),
    }
}

fn no_warnings() -> (w: Vec<String>)
    ensures
        w.deep_view() == Seq::<Seq<char>>::empty(),
{
    let w: Vec<String> = Vec::new();
    w
}

fn add_warning(warnings: &mut Vec<String>, warning: String)
    ensures
        final(warnings).deep_view() == old(warnings).deep_view().push(warning@),
{
    warnings.push(warning);
}

/// Remove the worktree and the branch after a merge, unless that is
/// switched off.
pub fn cleanup(
    repo: &RepoRoot,
    name: &BranchName,
    no_cleanup: bool,
    cwd: &str,
    replies: &Vec<Reply>,
    from: usize,
) -> (r: Step<Cleanup>)
    ensures
        r.deep_view() == cleanup_flow(
            repo@,
            name@,
            no_cleanup,
            cwd@,
            replies.deep_view(),
            from as nat,
        ),
{
    let mut warnings = no_warnings();
    if no_cleanup {
        return Step::Done(Cleanup { cleaned_up: false, removed_path: None, warnings }, from);
    }
    match remove(repo, Some(name), false, cwd, replies, from) {
        Step::Ask(q) => Step::Ask(q),
        Step::Done(removed, at) => {
            if let Some(w) = removed.warning {
                add_warning(&mut warnings, w);
            }
            Step::Done(
                Cleanup { cleaned_up: true, removed_path: Some(removed.removed_path), warnings },
                at,
            )
        },
        Step::Fail(e, at) => {
            add_warning(
                &mut warnings,
                concat2("merge succeeded but cleanup failed: ", e.message.as_str()),
            );
            Step::Done(Cleanup { cleaned_up: false, removed_path: None, warnings }, at)
        },
    }
}

/// Merge a worktree's branch into the mainline.
///
/// 1. Resolve the target branch: the argument, or the worktree that `cwd`
///    lies in.
/// 2. Refuse if it is the main worktree.
/// 3. Resolve the mainline branch; refuse if the main worktree is not on it.
/// 4. Merge the branch from the main worktree, never as a fast-forward.
/// 5. On conflict: give the merge up and fail.
/// 6. On success: remove the worktree and the branch unless `no_cleanup`,
///    and push the mainline if `push`.
pub fn merge(
    repo: &RepoRoot,
    branch: Option<&BranchName>,
    push: bool,
    no_cleanup: bool,
    cwd: &str,
    replies: &Vec<Reply>,
    from: usize,
) -> (r: Step<MergeResult>)
    ensures
        r.deep_view() == merge_flow(
            repo@,
            branch.deep_view(),
            push,
            no_cleanup,
            cwd@,
            replies.deep_view(),
            from as nat,
        ),
{
    let (worktrees, at) = match crate::git::list_worktrees(repo, replies, from) {
        Step::Done(v, at) => (v, at),
        other => {
            return other.pass();
        },
    };
    let (target_branch, k) = match resolve_target(&worktrees, branch, cwd) {
        Ok(found) => found,
        Err(e) => {
            return Step::Fail(e, at);
        },
    };
    if worktrees[k].is_main {
        return Step::Fail(
            AppError::invariant_violation("refusing to merge the main worktree".to_owned()),
            at,
        );
    }
    let (mainline, at) = match crate::git::resolve_mainline(repo, replies, at) {
        Step::Done(v, at) => (v, at),
        other => {
            return other.pass();
        },
    };
    let main_wt_branch = crate::catalog::main_worktree_branch(&worktrees);
    let on_mainline = match &main_wt_branch {
        Some(name) => same_text(name.as_str(), mainline.as_str()),
        None => false,
    };
    if !on_mainline {
        let on = match &main_wt_branch {
            Some(name) => name.as_str(),
            None => "(detached)",
        };
        let mut message = concat3("main worktree is on '", on, "', expected '");
        message.append(mainline.as_str());
        message.append("' — checkout mainline first");
        return Step::Fail(AppError::invariant_violation(message), at);
    }
    let at = match crate::git::merge_no_ff(repo, target_branch.as_str(), replies, at) {
        Step::Ask(q) => {
            return Step::Ask(q);
        },
        Step::Fail(e, at) => {
            return match crate::git::merge_abort(repo, replies, at) {
                Step::Done(_, end) => {
                    let mut message = concat3(
                        "merge conflicts with '",
                        target_branch.as_str(),
                        "' — merge aborted; use `git merge` directly to handle conflicts\n",
                    );
                    message.append(e.message.as_str());
                    Step::Fail(AppError::conflict(message), end)
                },
                other => other.pass(),
            };
        },
        Step::Done(_, at) => at,
    };
    let (cleaned, at) = match cleanup(repo, &target_branch, no_cleanup, cwd, replies, at) {
        Step::Done(v, at) => (v, at),
        other => {
            return other.pass();
        },
    };
    let mut warnings = cleaned.warnings;
    let (pushed, end) = if push {
        match crate::git::push(repo, mainline.as_str(), replies, at) {
            Step::Ask(q) => {
                return Step::Ask(q);
            },
            Step::Done(_, end) => {
                (true, end)
            },
            Step::Fail(e, end) => {
                let warning = concat2("merge succeeded but push failed: ", e.message.as_str());
                add_warning(&mut warnings, warning);
                (false, end)
            },
        }
    } else {
        (false, at)
    };
    Step::Done(
        MergeResult {
            branch: target_branch,
            mainline,
            repo_root: repo.to_path_buf(),
            cleaned_up: cleaned.cleaned_up,
            removed_path: cleaned.removed_path,
            pushed,
            warnings,
        },
        end,
    )
}

/// Whether the main worktree is on another branch than the mainline, seen
/// once the branch has resolved to a worktree that is not the main one.
pub open spec fn main_worktree_off_mainline(
    repo: Seq<char>,
    branch: Option<Seq<char>>,
    cwd: Seq<char>,
    replies: Seq<ReplyView>,
    from: nat,
) -> bool {
    match list_worktrees_flow(repo, replies, from) {
        StepView::Done(worktrees, at) => match target(worktrees, branch, cwd) {
            Ok(found) => !found.1.is_main && match resolve_mainline_flow(repo, replies, at) {
                StepView::Done(mainline, _) => main_branch(worktrees) != Some(mainline),
                _ => false,
            },
            Err(_) => false,
        },
        _ => false,
    }
}

/// A merge fails for breaking a safety rule exactly where the branch
/// resolves to the main worktree, or where the main worktree is not on the
/// mainline: both are seen before anything is changed.
pub proof fn lemma_merge_refusals(
    repo: Seq<char>,
    branch: Option<Seq<char>>,
    push: bool,
    no_cleanup: bool,
    cwd: Seq<char>,
    replies: Seq<ReplyView>,
    from: nat,
)
    ensures
        fails_with(
            merge_flow(repo, branch, push, no_cleanup, cwd, replies, from),
            ExitCode::Invariant,
        ) <==> resolves_to_main(repo, branch, cwd, replies, from) || main_worktree_off_mainline(
            repo,
            branch,
            cwd,
            replies,
            from,
        ),
{
}

/// A merge that fails is given up and nothing else is done: the request
/// that follows the failed merge gives it up, and with its reply the
/// operation ends in a conflict. No worktree is removed, no branch deleted,
/// nothing pushed.
pub proof fn lemma_failed_merge_is_given_up(
    repo: Seq<char>,
    name: Seq<char>,
    mainline: Seq<char>,
    push: bool,
    no_cleanup: bool,
    cwd: Seq<char>,
    replies: Seq<ReplyView>,
    from: nat,
)
    requires
        merge_no_ff_flow(repo, name, replies, from) is Fail,
    ensures
        ({
            let e = merge_no_ff_flow(repo, name, replies, from)->Fail_0;
            let at = merge_no_ff_flow(repo, name, replies, from)->Fail_1;
            let merging = merge_checked(repo, name, mainline, push, no_cleanup, cwd, replies, from);
            &&& at == from + 1
            &&& at >= replies.len() ==> merging == StepView::<MergeResultView>::Ask(
                git_request(repo, merge_abort_args()),
            )
            &&& at < replies.len() ==> merging == StepView::<MergeResultView>::Fail(
                AppErrorView::conflict(conflict_message(name, e)),
                at + 1,
            )
        }),
{
}

/// Once the merge is made, the operation succeeds: neither a cleanup that
/// fails nor a push that fails turns it into a failure.
pub proof fn lemma_merge_made_is_success(
    repo: Seq<char>,
    name: Seq<char>,
    mainline: Seq<char>,
    push: bool,
    no_cleanup: bool,
    cwd: Seq<char>,
    replies: Seq<ReplyView>,
    from: nat,
)
    requires
        merge_no_ff_flow(repo, name, replies, from) is Done,
    ensures
        !(merge_checked(repo, name, mainline, push, no_cleanup, cwd, replies, from) is Fail),
{
}

/// What the cleanup after a merge has come to stands however many replies
/// follow.
pub proof fn lemma_cleanup_stands(
    repo: Seq<char>,
    name: Seq<char>,
    no_cleanup: bool,
    cwd: Seq<char>,
    replies: Seq<ReplyView>,
    longer: Seq<ReplyView>,
    from: nat,
)
    requires
        extends(longer, replies),
    ensures
        stands(
            cleanup_flow(repo, name, no_cleanup, cwd, replies, from),
            cleanup_flow(repo, name, no_cleanup, cwd, longer, from),
            from,
            replies.len(),
        ),
{
    if !no_cleanup {
        lemma_remove_stands(repo, Some(name), false, cwd, replies, longer, from);
    }
}

/// What a merge that has passed its checks has come to stands however many
/// replies follow.
pub proof fn lemma_merge_checked_stands(
    repo: Seq<char>,
    name: Seq<char>,
    mainline: Seq<char>,
    push: bool,
    no_cleanup: bool,
    cwd: Seq<char>,
    replies: Seq<ReplyView>,
    longer: Seq<ReplyView>,
    from: nat,
)
    requires
        extends(longer, replies),
    ensures
        stands(
            merge_checked(repo, name, mainline, push, no_cleanup, cwd, replies, from),
            merge_checked(repo, name, mainline, push, no_cleanup, cwd, longer, from),
            from,
            replies.len(),
        ),
{
    match merge_no_ff_flow(repo, name, replies, from) {
        StepView::Done(_, at) => {
            lemma_cleanup_stands(repo, name, no_cleanup, cwd, replies, longer, at);
        },
        _ => {},
    }
}

/// What a merge has come to stands however many replies follow.
pub proof fn lemma_merge_stands(
    repo: Seq<char>,
    branch: Option<Seq<char>>,
    push: bool,
    no_cleanup: bool,
    cwd: Seq<char>,
    replies: Seq<ReplyView>,
    longer: Seq<ReplyView>,
    from: nat,
)
    requires
        extends(longer, replies),
    ensures
        stands(
            merge_flow(repo, branch, push, no_cleanup, cwd, replies, from),
            merge_flow(repo, branch, push, no_cleanup, cwd, longer, from),
            from,
            replies.len(),
        ),
{
    crate::git::lemma_list_worktrees_stands(repo, replies, longer, from);
    match list_worktrees_flow(repo, replies, from) {
        StepView::Done(worktrees, at) => {
            crate::git::lemma_resolve_mainline_stands(repo, replies, longer, at);
            match target(worktrees, branch, cwd) {
                Ok((name, wt)) => {
                    match resolve_mainline_flow(repo, replies, at) {
                        StepView::Done(mainline, next) => {
                            lemma_merge_checked_stands(
                                repo,
                                name,
                                mainline,
                                push,
                                no_cleanup,
                                cwd,
                                replies,
                                longer,
                                next,
                            );
                        },
                        _ => {},
                    }
                },
                Err(_) => {},
            }
        },
        _ => {},
    }
}

} // verus!
