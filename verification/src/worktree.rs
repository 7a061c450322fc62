use vstd::prelude::*;
use vstd::utf8::encode_utf8;
use crate::domain::{worktree_dir, BranchName, RepoRoot, Worktree, WorktreeView};
use crate::error::{outcome, AppError, AppErrorView, ExitCode};
use crate::git::{
    add_worktree_flow, branch_exists_flow, delete_branch_flow, list_worktrees_flow,
    remote_branch_exists_flow, remove_worktree_flow, rev_exists_flow, set_upstream_flow,
};
use crate::path::{is_within, join_path, path_is_within};
use crate::text::{concat2, concat3, same_text};
use crate::vcs::{
    answer, ask, extends, stands, Reply, ReplyView, Request, RequestView, Step, StepView,
};

verus! {

/// Result of a successful `add` operation.
#[derive(Debug, Clone, PartialEq, Eq)]
pub struct AddResult {
    pub worktree_path: String,
    pub branch: BranchName,
    pub repo_root: String,
    /// Whether the branch was created to track an existing remote branch.
    pub tracking: bool,
}

/// What an [`AddResult`] stands for in contracts.
pub struct AddResultView {
    pub worktree_path: Seq<char>,
    pub branch: Seq<char>,
    pub repo_root: Seq<char>,
    pub tracking: bool,
}

impl DeepView for AddResult {
    type V = AddResultView;

    open spec fn deep_view(&self) -> AddResultView {
        AddResultView {
            worktree_path: self.worktree_path@,
            branch: self.branch@,
            repo_root: self.repo_root@,
            tracking: self.tracking,
        }
    }
}

/// Result of a successful `go` operation.
#[derive(Debug, Clone, PartialEq, Eq)]
pub struct GoResult {
    pub worktree_path: String,
    pub branch: BranchName,
    pub repo_root: String,
}

/// What a [`GoResult`] stands for in contracts.
pub struct GoResultView {
    pub worktree_path: Seq<char>,
    pub branch: Seq<char>,
    pub repo_root: Seq<char>,
}

impl DeepView for GoResult {
    type V = GoResultView;

    open spec fn deep_view(&self) -> GoResultView {
        GoResultView {
            worktree_path: self.worktree_path@,
            branch: self.branch@,
            repo_root: self.repo_root@,
        }
    }
}

/// Result of a successful `remove` operation.
#[derive(Debug, Clone, PartialEq, Eq)]
pub struct RemoveResult {
    pub removed_path: String,
    pub branch: BranchName,
    pub repo_root: String,
    /// Non-fatal warning: the branch could not be deleted after the
    /// worktree was removed.
    pub warning: Option<String>,
}

/// What a [`RemoveResult`] stands for in contracts.
pub struct RemoveResultView {
    pub removed_path: Seq<char>,
    pub branch: Seq<char>,
    pub repo_root: Seq<char>,
    pub warning: Option<Seq<char>>,
}

impl DeepView for RemoveResult {
    type V = RemoveResultView;

    open spec fn deep_view(&self) -> RemoveResultView {
        RemoveResultView {
            removed_path: self.removed_path@,
            branch: self.branch@,
            repo_root: self.repo_root@,
            warning: self.warning.deep_view(),
        }
    }
}

/// The first worktree that is on `branch`.
pub open spec fn find_branch(worktrees: Seq<WorktreeView>, branch: Seq<char>) -> Option<
    WorktreeView,
>
    decreases worktrees.len(),
{
    if worktrees.len() == 0 {
        None
    } else if worktrees[0].branch == Some(branch) {
        Some(worktrees[0])
    } else {
        find_branch(worktrees.drop_first(), branch)
    }
}

/// The position of the first worktree that is on `branch`.
pub fn find_worktree(worktrees: &Vec<Worktree>, branch: &str) -> (r: Option<usize>)
    ensures
        match r {
            Some(k) => k < worktrees.len() && find_branch(worktrees.deep_view(), branch@) == Some(
                worktrees@[k as int]@,
            ),
            None => find_branch(worktrees.deep_view(), branch@) is None,
        },
{
    let mut i: usize = 0;
    assert(worktrees.deep_view().skip(0) =~= worktrees.deep_view());
    while i < worktrees.len()
        invariant
            i <= worktrees.len(),
            find_branch(worktrees.deep_view(), branch@) == find_branch(
                worktrees.deep_view().skip(i as int),
                branch@,
            ),
        decreases worktrees.len() - i,
    {
        let ghost rest = worktrees.deep_view().skip(i as int);
        assert(rest.drop_first() =~= worktrees.deep_view().skip(i + 1));
        let on_branch = match &worktrees[i].branch {
            Some(b) => same_text(b.as_str(), branch),
            None => false,
        };
        if on_branch {
            return Some(i);
        }
        i += 1;
    }
    None
}

/// The length of a path in bytes.
pub open spec fn byte_len(path: Seq<char>) -> usize {
    encode_utf8(path).len() as usize
}

/// The worktree that `cwd` lies in: of the worktrees whose path is at or
/// above `cwd`, the one with the longest path, and of several such the last.
pub open spec fn innermost(worktrees: Seq<WorktreeView>, cwd: Seq<char>) -> Option<WorktreeView>
    decreases worktrees.len(),
{
    if worktrees.len() == 0 {
        None
    } else {
        let before = innermost(worktrees.drop_last(), cwd);
        let last = worktrees.last();
        if is_within(cwd, last.path) && (before is None || byte_len(before->0.path) <= byte_len(
            last.path,
        )) {
            Some(last)
        } else {
            before
        }
    }
}

/// The innermost worktree holds `cwd`, and no worktree that holds `cwd` has
/// a longer path.
pub proof fn lemma_innermost_is_longest(worktrees: Seq<WorktreeView>, cwd: Seq<char>)
    ensures
        innermost(worktrees, cwd) is None <==> forall|i: int|
            0 <= i < worktrees.len() ==> !is_within(cwd, #[trigger] worktrees[i].path),
        innermost(worktrees, cwd) matches Some(wt) ==> {
            &&& is_within(cwd, wt.path)
            &&& exists|k: int| 0 <= k < worktrees.len() && worktrees[k] == wt
            &&& forall|i: int|
                0 <= i < worktrees.len() && is_within(cwd, #[trigger] worktrees[i].path)
                    ==> byte_len(worktrees[i].path) <= byte_len(wt.path)
        },
    decreases worktrees.len(),
{
    if worktrees.len() > 0 {
        let front = worktrees.drop_last();
        lemma_innermost_is_longest(front, cwd);
        assert forall|i: int| 0 <= i < front.len() implies front[i] == worktrees[i] by {}
    }
}

/// The branch of the worktree that `cwd` lies in.
pub open spec fn branch_at(worktrees: Seq<WorktreeView>, cwd: Seq<char>) -> Result<
    Seq<char>,
    AppErrorView,
> {
    match innermost(worktrees, cwd) {
        Some(wt) => match wt.branch {
            Some(branch) => Ok(branch),
            None => Err(AppErrorView::usage("current worktree has no branch"@)),
        },
        None => Err(
            AppErrorView::usage("no branch specified and cwd is not inside a worktree"@),
        ),
    }
}

/// Infer the target branch from the current directory: the branch of the
/// worktree whose path is the most specific one at or above it.
pub fn resolve_branch_from_cwd(worktrees: &Vec<Worktree>, cwd: &str) -> (r: Result<
    BranchName,
    AppError,
>)
    ensures
        outcome(r) == branch_at(worktrees.deep_view(), cwd@),
{
    let mut best: Option<usize> = None;
    let mut i: usize = 0;
    while i < worktrees.len()
        invariant
            i <= worktrees.len(),
            match best {
                Some(k) => k < i && innermost(worktrees.deep_view().take(i as int), cwd@) == Some(
                    worktrees@[k as int]@,
                ),
                None => innermost(worktrees.deep_view().take(i as int), cwd@) is None,
            },
        decreases worktrees.len() - i,
    {
        proof {
            let sofar = worktrees.deep_view().take(i + 1);
            assert(sofar.drop_last() =~= worktrees.deep_view().take(i as int));
        }
        let wt = &worktrees[i];
        if path_is_within(cwd, wt.path.as_str()) {
            let longer = match best {
                Some(k) => worktrees[k].path.as_str().len() <= wt.path.as_str().len(),
                None => true,
            };
            if longer {
                best = Some(i);
            }
        }
        i += 1;
    }
    assert(worktrees.deep_view().take(worktrees.len() as int) =~= worktrees.deep_view());
    match best {
        Some(k) => match &worktrees[k].branch {
            Some(branch) => Ok(BranchName::new(branch.as_str())),
            None => Err(AppError::usage("current worktree has no branch".to_owned())),
        },
        None => Err(
            AppError::usage("no branch specified and cwd is not inside a worktree".to_owned()),
        ),
    }
}

/// The branch that an operation is about: the one that is named, else the
/// one of the worktree that `cwd` lies in.
pub open spec fn target_branch(
    worktrees: Seq<WorktreeView>,
    branch: Option<Seq<char>>,
    cwd: Seq<char>,
) -> Result<Seq<char>, AppErrorView> {
    match branch {
        Some(name) => Ok(name),
        None => branch_at(worktrees, cwd),
    }
}

/// The message that tells that no worktree is on a branch.
pub open spec fn no_worktree_message(branch: Seq<char>) -> Seq<char> {
    "no worktree found for branch '"@ + branch + "'"@
}

/// The branch that an operation is about, and its worktree.
pub open spec fn target(worktrees: Seq<WorktreeView>, branch: Option<Seq<char>>, cwd: Seq<char>)
    -> Result<(Seq<char>, WorktreeView), AppErrorView> {
    match target_branch(worktrees, branch, cwd) {
        Ok(name) => match find_branch(worktrees, name) {
            Some(wt) => Ok((name, wt)),
            None => Err(AppErrorView::usage(no_worktree_message(name))),
        },
        Err(e) => Err(e),
    }
}

/// Resolve the branch that an operation is about and the position of its
/// worktree in the catalog.
pub fn resolve_target(worktrees: &Vec<Worktree>, branch: Option<&BranchName>, cwd: &str) -> (r:
    Result<(BranchName, usize), AppError>)
    ensures
        match r {
            Ok((name, k)) => k < worktrees.len() && target(
                worktrees.deep_view(),
                branch.deep_view(),
                cwd@,
            ) == Ok::<(Seq<char>, WorktreeView), AppErrorView>((name@, worktrees@[k as int]@)),
            Err(e) => target(worktrees.deep_view(), branch.deep_view(), cwd@) == Err::<
                (Seq<char>, WorktreeView),
                AppErrorView,
            >(e@),
        },
{
    let name = match branch {
        Some(b) => b.duplicate(),
        None => match resolve_branch_from_cwd(worktrees, cwd) {
            Ok(b) => b,
            Err(e) => {
                return Err(e);
            },
        },
    };
    match find_worktree(worktrees, name.as_str()) {
        Some(k) => Ok((name, k)),
        None => Err(
            AppError::usage(concat3("no worktree found for branch '", name.as_str(), "'")),
        ),
    }
}

/// Whether a step is a failure of the given kind.
pub open spec fn fails_with<V>(step: StepView<V>, code: ExitCode) -> bool {
    match step {
        StepView::Fail(e, _) => e.code == code,
        _ => false,
    }
}

/// Where the worktree of a branch is: the catalog is read, and the first
/// worktree on the branch is the answer.
pub open spec fn go_flow(repo: Seq<char>, branch: Seq<char>, replies: Seq<ReplyView>, from: nat)
    -> StepView<GoResultView> {
    match list_worktrees_flow(repo, replies, from) {
        StepView::Done(worktrees, at) => match find_branch(worktrees, branch) {
            Some(wt) => StepView::Done(
                GoResultView { worktree_path: wt.path, branch, repo_root: repo },
                at,
            ),
            None => StepView::Fail(AppErrorView::usage(no_worktree_message(branch)), at),
        },
        other => other.pass(),
    }
}

/// Resolve and return the path of an existing worktree for the given
/// branch.
pub fn go(repo: &RepoRoot, branch: &BranchName, replies: &Vec<Reply>, from: usize) -> (r: Step<
    GoResult,
>)
    ensures
        r.deep_view() == go_flow(repo@, branch@, replies.deep_view(), from as nat),
{
    let (worktrees, at) = match crate::git::list_worktrees(repo, replies, from) {
        Step::Done(v, at) => (v, at),
        other => {
            return other.pass();
        },
    };
    match find_worktree(&worktrees, branch.as_str()) {
        Some(k) => Step::Done(
            GoResult {
                worktree_path: worktrees[k].path.clone(),
                branch: branch.duplicate(),
                repo_root: repo.to_path_buf(),
            },
            at,
        ),
        None => Step::Fail(
            AppError::usage(concat3("no worktree found for branch '", branch.as_str(), "'")),
            at,
        ),
    }
}

/// Where a worktree was found stands however many replies follow.
pub proof fn lemma_go_stands(
    repo: Seq<char>,
    branch: Seq<char>,
    replies: Seq<ReplyView>,
    longer: Seq<ReplyView>,
    from: nat,
)
    requires
        extends(longer, replies),
    ensures
        stands(
            go_flow(repo, branch, replies, from),
            go_flow(repo, branch, longer, from),
            from,
            replies.len(),
        ),
{
}

/// The warning that tells that the branch is still there after its worktree
/// was removed.
pub open spec fn deletion_warning(e: AppErrorView) -> Seq<char> {
    "worktree removed but branch deletion failed: "@ + e.message
}

/// Remove the worktree at `path` and then its branch `name`. A worktree that
/// cannot be removed ends the operation. A branch that cannot be deleted
/// does not: the result then carries a warning.
pub open spec fn remove_found(
    repo: Seq<char>,
    name: Seq<char>,
    path: Seq<char>,
    force: bool,
    replies: Seq<ReplyView>,
    from: nat,
) -> StepView<RemoveResultView> {
    match remove_worktree_flow(repo, path, force, replies, from) {
        StepView::Done(_, at) => match delete_branch_flow(repo, name, force, replies, at) {
            StepView::Ask(q) => StepView::Ask(q),
            StepView::Done(_, end) => StepView::Done(
                RemoveResultView {
                    removed_path: path,
                    branch: name,
                    repo_root: repo,
                    warning: None,
                },
                end,
            ),
            StepView::Fail(e, end) => StepView::Done(
                RemoveResultView {
                    removed_path: path,
                    branch: name,
                    repo_root: repo,
                    warning: Some(deletion_warning(e)),
                },
                end,
            ),
        },
        other => other.pass(),
    }
}

/// Remove a worktree and its branch: the catalog is read; the branch is the
/// named one or that of the worktree that `cwd` lies in; the main worktree
/// is never removed, with `force` or without.
pub open spec fn remove_flow(
    repo: Seq<char>,
    branch: Option<Seq<char>>,
    force: bool,
    cwd: Seq<char>,
    replies: Seq<ReplyView>,
    from: nat,
) -> StepView<RemoveResultView> {
    match list_worktrees_flow(repo, replies, from) {
        StepView::Done(worktrees, at) => match target(worktrees, branch, cwd) {
            Ok((name, wt)) => if wt.is_main {
                StepView::Fail(
                    AppErrorView::invariant_violation("refusing to remove the main worktree"@),
                    at,
                )
            } else {
                remove_found(repo, name, wt.path, force, replies, at)
            },
            Err(e) => StepView::Fail(e, at),
        },
        other => other.pass(),
    }
}

/// Remove a worktree and delete its local branch.
pub fn remove(
    repo: &RepoRoot,
    branch: Option<&BranchName>,
    force: bool,
    cwd: &str,
    replies: &Vec<Reply>,
    from: usize,
) -> (r: Step<RemoveResult>)
    ensures
        r.deep_view() == remove_flow(
            repo@,
            branch.deep_view(),
            force,
            cwd@,
            replies.deep_view(),
            from as nat,
        ),
{
    let (worktrees, at) = match crate::git::list_worktrees(repo, replies, from) {
        Step::Done(v, at) => (v, at),
        other => {
            return other.pass();
        },
    };
    let (target_branch, k) = match resolve_target(&worktrees, branch, cwd) {
        Ok(found) => found,
        Err(e) => {
            return Step::Fail(e, at);
        },
    };
    let wt = &worktrees[k];
    if wt.is_main {
        return Step::Fail(
            AppError::invariant_violation("refusing to remove the main worktree".to_owned()),
            at,
        );
    }
    let removed_path = wt.path.clone();
    let at = match crate::git::remove_worktree(repo, removed_path.as_str(), force, replies, at) {
        Step::Done(_, at) => at,
        other => {
            return other.pass();
        },
    };
    let (warning, end) = match crate::git::delete_branch(repo, &target_branch, force, replies, at) {
        Step::Ask(q) => {
            return Step::Ask(q);
        },
        Step::Done(_, end) => (None, end),
        Step::Fail(e, end) => (
            Some(concat2("worktree removed but branch deletion failed: ", e.message.as_str())),
            end,
        ),
    };
    Step::Done(
        RemoveResult {
            removed_path,
            branch: target_branch,
            repo_root: repo.to_path_buf(),
            warning,
        },
        end,
    )
}

/// Whether the operation resolves to the main worktree: the catalog can be
/// read, the branch resolves to a worktree, and that worktree is the main
/// one.
pub open spec fn resolves_to_main(
    repo: Seq<char>,
    branch: Option<Seq<char>>,
    cwd: Seq<char>,
    replies: Seq<ReplyView>,
    from: nat,
) -> bool {
    match list_worktrees_flow(repo, replies, from) {
        StepView::Done(worktrees, _) => match target(worktrees, branch, cwd) {
            Ok(found) => found.1.is_main,
            Err(_) => false,
        },
        _ => false,
    }
}

/// Removal fails for breaking a safety rule exactly when the worktree it
/// resolves to is the main one: with `force` or without, wherever the
/// operation is called from, and whatever the commands reply.
pub proof fn lemma_remove_refuses_main_only(
    repo: Seq<char>,
    branch: Option<Seq<char>>,
    force: bool,
    cwd: Seq<char>,
    replies: Seq<ReplyView>,
    from: nat,
)
    ensures
        fails_with(remove_flow(repo, branch, force, cwd, replies, from), ExitCode::Invariant)
            <==> resolves_to_main(repo, branch, cwd, replies, from),
{
}

/// Once the worktree is removed, removal succeeds: a branch that cannot be
/// deleted leaves a warning that is not empty, and no error.
pub proof fn lemma_remove_survives_branch_failure(
    repo: Seq<char>,
    name: Seq<char>,
    path: Seq<char>,
    force: bool,
    replies: Seq<ReplyView>,
    from: nat,
)
    requires
        remove_worktree_flow(repo, path, force, replies, from) is Done,
    ensures
        !(remove_found(repo, name, path, force, replies, from) is Fail),
        delete_branch_flow(
            repo,
            name,
            force,
            replies,
            remove_worktree_flow(repo, path, force, replies, from)->Done_1,
        ) matches StepView::Fail(e, end) ==> remove_found(repo, name, path, force, replies, from)
            == StepView::<RemoveResultView>::Done(
            RemoveResultView {
                removed_path: path,
                branch: name,
                repo_root: repo,
                warning: Some(deletion_warning(e)),
            },
            end,
        ) && deletion_warning(e).len() > 0,
{
    reveal_strlit("worktree removed but branch deletion failed: ");
}

/// What a removal has come to stands however many replies follow.
pub proof fn lemma_remove_stands(
    repo: Seq<char>,
    branch: Option<Seq<char>>,
    force: bool,
    cwd: Seq<char>,
    replies: Seq<ReplyView>,
    longer: Seq<ReplyView>,
    from: nat,
)
    requires
        extends(longer, replies),
    ensures
        stands(
            remove_flow(repo, branch, force, cwd, replies, from),
            remove_flow(repo, branch, force, cwd, longer, from),
            from,
            replies.len(),
        ),
{
}

/// The revision that a worktree is added from: the branch of the default
/// remote where that is tracked, else the given base.
pub open spec fn effective_base(branch: Seq<char>, base: Option<Seq<char>>, tracking: bool)
    -> Option<Seq<char>> {
    if tracking {
        Some("origin/"@ + branch)
    } else {
        base
    }
}

/// Whether the new branch is to track the branch of the same name on the
/// default remote: only where no base is given, and then where that branch
/// exists.
pub open spec fn tracking_flow(
    repo: Seq<char>,
    branch: Seq<char>,
    base: Option<Seq<char>>,
    replies: Seq<ReplyView>,
    from: nat,
) -> StepView<bool> {
    if base is Some {
        StepView::Done(false, from)
    } else {
        remote_branch_exists_flow(repo, branch, replies, from)
    }
}

/// Whether the base revision, where one is given, exists.
pub open spec fn base_exists_flow(
    repo: Seq<char>,
    base: Option<Seq<char>>,
    replies: Seq<ReplyView>,
    from: nat,
) -> StepView<bool> {
    match base {
        Some(rev) => rev_exists_flow(repo, rev, replies, from),
        None => StepView::Done(true, from),
    }
}

/// Whether anything stands at `path`.
pub open spec fn path_exists_flow(path: Seq<char>, replies: Seq<ReplyView>, from: nat) -> StepView<
    bool,
> {
    match answer(RequestView::PathExists { path }, replies, from) {
        StepView::Done(reply, at) => StepView::Done(reply is Output, at),
        other => other.pass(),
    }
}

/// Create the worktree once every check has passed, and set its upstream
/// where it tracks a remote branch.
pub open spec fn add_checked(
    repo: Seq<char>,
    branch: Seq<char>,
    base: Option<Seq<char>>,
    tracking: bool,
    replies: Seq<ReplyView>,
    from: nat,
) -> StepView<AddResultView> {
    let dir = worktree_dir(repo, branch);
    let created = AddResultView { worktree_path: dir, branch, repo_root: repo, tracking };
    match add_worktree_flow(
        repo,
        dir,
        branch,
        effective_base(branch, base, tracking),
        replies,
        from,
    ) {
        StepView::Done(_, at) => if tracking {
            match set_upstream_flow(repo, branch, replies, at) {
                StepView::Done(_, end) => StepView::Done(created, end),
                other => other.pass(),
            }
        } else {
            StepView::Done(created, at)
        },
        other => other.pass(),
    }
}

/// Create a worktree for a new branch. In this order: the branch must not
/// exist; a given base must exist; nothing may stand where the worktree
/// goes; whether to track a remote branch is decided; then the worktree is
/// created. Nothing is changed before every check has passed.
pub open spec fn add_flow(
    repo: Seq<char>,
    branch: Seq<char>,
    base: Option<Seq<char>>,
    replies: Seq<ReplyView>,
    from: nat,
) -> StepView<AddResultView> {
    match branch_exists_flow(repo, branch, replies, from) {
        StepView::Done(true, at) => StepView::Fail(
            AppErrorView::conflict("branch '"@ + branch + "' already exists"@),
            at,
        ),
        StepView::Done(false, at) => match base_exists_flow(repo, base, replies, at) {
            StepView::Done(false, at) => StepView::Fail(
                AppErrorView::git("revision '"@ + base->0 + "' not found"@),
                at,
            ),
            StepView::Done(true, at) => match path_exists_flow(
                worktree_dir(repo, branch),
                replies,
                at,
            ) {
                StepView::Done(true, at) => StepView::Fail(
                    AppErrorView::conflict(
                        "worktree directory already exists: "@ + worktree_dir(repo, branch),
                    ),
                    at,
                ),
                StepView::Done(false, at) => match tracking_flow(repo, branch, base, replies, at) {
                    StepView::Done(tracking, at) => add_checked(
                        repo,
                        branch,
                        base,
                        tracking,
                        replies,
                        at,
                    ),
                    other => other.pass(),
                },
                other => other.pass(),
            },
            other => other.pass(),
        },
        other => other.pass(),
    }
}

/// Ask whether anything stands at `path`.
pub fn path_exists(path: &str, replies: &Vec<Reply>, from: usize) -> (r: Step<bool>)
    ensures
        r.deep_view() == path_exists_flow(path@, replies.deep_view(), from as nat),
{
    match ask(Request::PathExists { path: path.to_owned() }, replies, from) {
        Step::Done(reply, at) => Step::Done(reply.succeeded(), at),
        other => other.pass(),
    }
}

/// Create a new worktree for the given branch.
///
/// Where `base` is `None` and the default remote has a branch of this name,
/// the worktree is created from that branch, and it is set as the upstream.
/// Where `base` is given, the new branch always starts from that revision.
pub fn add(
    repo: &RepoRoot,
    branch: &BranchName,
    base: Option<&str>,
    replies: &Vec<Reply>,
    from: usize,
) -> (r: Step<AddResult>)
    ensures
        r.deep_view() == add_flow(
            repo@,
            branch@,
            base.deep_view(),
            replies.deep_view(),
            from as nat,
        ),
{
    let (exists, at) = match crate::git::branch_exists(repo, branch, replies, from) {
        Step::Done(v, at) => (v, at),
        other => {
            return other.pass();
        },
    };
    if exists {
        return Step::Fail(
            AppError::conflict(concat3("branch '", branch.as_str(), "' already exists")),
            at,
        );
    }
    let at = match base {
        Some(rev) => {
            let (found, at) = match crate::git::rev_exists(repo, rev, replies, at) {
                Step::Done(v, at) => (v, at),
                other => {
                    return other.pass();
                },
            };
            if !found {
                return Step::Fail(AppError::git(concat3("revision '", rev, "' not found")), at);
            }
            at
        },
        None => at,
    };
    let wt_dir = join_path(repo.worktrees_dir().as_str(), branch.to_dir_name().as_str());
    let (occupied, at) = match path_exists(wt_dir.as_str(), replies, at) {
        Step::Done(v, at) => (v, at),
        other => {
            return other.pass();
        },
    };
    if occupied {
        return Step::Fail(
            AppError::conflict(concat2("worktree directory already exists: ", wt_dir.as_str())),
            at,
        );
    }
    let (tracking, at) = if base.is_some() {
        (false, at)
    } else {
        match crate::git::remote_branch_exists(repo, branch, replies, at) {
            Step::Done(v, at) => (v, at),
            other => {
                return other.pass();
            },
        }
    };
    let at = if tracking {
        let remote = concat2("origin/", branch.as_str());
        match crate::git::add_worktree(
            repo,
            wt_dir.as_str(),
            branch,
            Some(remote.as_str()),
            replies,
            at,
        ) {
            Step::Done(_, at) => at,
            other => {
                return other.pass();
            },
        }
    } else {
        match crate::git::add_worktree(repo, wt_dir.as_str(), branch, base, replies, at) {
            Step::Done(_, at) => at,
            other => {
                return other.pass();
            },
        }
    };
    let at = if tracking {
        match crate::git::set_upstream(repo, branch, replies, at) {
            Step::Done(_, at) => at,
            other => {
                return other.pass();
            },
        }
    } else {
        at
    };
    Step::Done(
        AddResult {
            worktree_path: wt_dir,
            branch: branch.duplicate(),
            repo_root: repo.to_path_buf(),
            tracking,
        },
        at,
    )
}

/// Whether a request asks a question and changes nothing: whether a path
/// exists, or whether a revision exists.
pub open spec fn is_check(request: RequestView) -> bool {
    match request {
        RequestView::PathExists { .. } => true,
        RequestView::Git { args, .. } => args.len() == 3 && args[0] == "rev-parse"@ && args[1]
            == "--verify"@,
        _ => false,
    }
}

/// Whether every check of an addition has passed: the branch does not
/// exist, the base exists where one is given, and nothing stands where the
/// worktree goes.
pub open spec fn add_checks_passed(
    repo: Seq<char>,
    branch: Seq<char>,
    base: Option<Seq<char>>,
    replies: Seq<ReplyView>,
    from: nat,
) -> bool {
    match branch_exists_flow(repo, branch, replies, from) {
        StepView::Done(false, at) => match base_exists_flow(repo, base, replies, at) {
            StepView::Done(true, at) => match path_exists_flow(
                worktree_dir(repo, branch),
                replies,
                at,
            ) {
                StepView::Done(false, at) => tracking_flow(repo, branch, base, replies, at) is Done,
                _ => false,
            },
            _ => false,
        },
        _ => false,
    }
}

/// An addition changes nothing before every check has passed: until then
/// each request that it makes is a check, and it never succeeds.
pub proof fn lemma_add_checks_first(
    repo: Seq<char>,
    branch: Seq<char>,
    base: Option<Seq<char>>,
    replies: Seq<ReplyView>,
    from: nat,
)
    requires
        !add_checks_passed(repo, branch, base, replies, from),
    ensures
        !(add_flow(repo, branch, base, replies, from) is Done),
        add_flow(repo, branch, base, replies, from) matches StepView::Ask(request) ==> is_check(
            request,
        ),
{
}

/// What an addition has come to stands however many replies follow.
pub proof fn lemma_add_stands(
    repo: Seq<char>,
    branch: Seq<char>,
    base: Option<Seq<char>>,
    replies: Seq<ReplyView>,
    longer: Seq<ReplyView>,
    from: nat,
)
    requires
        extends(longer, replies),
    ensures
        stands(
            add_flow(repo, branch, base, replies, from),
            add_flow(repo, branch, base, longer, from),
            from,
            replies.len(),
        ),
{
}

} // verus!
