use vstd::pervasive::unreached;
use vstd::prelude::*;
use vstd::string::StringExecFns;
use crate::domain::{BranchName, RepoRoot, WorktreeView};
use crate::error::{AppError, AppErrorView};
use crate::git::{
    cherry_flow, delete_branch_flow, git_request, is_ancestor_flow, list_worktrees_flow,
    remove_worktree_flow, resolve_mainline_flow, rev_exists_flow,
};
use crate::text::concat3;
use crate::vcs::{extends, stands, Reply, ReplyView, Step, StepView};

verus! {

/// How a branch was found to be integrated into the mainline.
#[derive(Debug, Clone, Copy, PartialEq, Eq, Structural)]
pub enum IntegrationMethod {
    /// Every commit of the branch is reachable from the mainline: a merge
    /// or a fast-forward.
    Merged,
    /// Every patch of the branch is in the mainline: a rebase.
    Rebase,
}

/// Integration status of the branch of one worktree.
#[derive(Debug, Clone, Copy, PartialEq, Eq, Structural)]
pub enum IntegrationStatus {
    /// The branch is fully integrated into the mainline.
    Integrated(IntegrationMethod),
    /// The branch has commits that the mainline lacks.
    NotIntegrated,
    /// The worktree has no branch: its head is detached.
    NoBranch,
}

impl DeepView for IntegrationStatus {
    type V = IntegrationStatus;

    open spec fn deep_view(&self) -> IntegrationStatus {
        *self
    }
}

/// A worktree entry with its integration status, for pruning.
#[derive(Debug, Clone, PartialEq, Eq)]
pub struct WorktreePruneEntry {
    pub branch: Option<String>,
    pub path: String,
    pub status: IntegrationStatus,
}

/// What a [`WorktreePruneEntry`] stands for in contracts.
pub struct WorktreePruneEntryView {
    pub branch: Option<Seq<char>>,
    pub path: Seq<char>,
    pub status: IntegrationStatus,
}

impl DeepView for WorktreePruneEntry {
    type V = WorktreePruneEntryView;

    open spec fn deep_view(&self) -> WorktreePruneEntryView {
        WorktreePruneEntryView {
            branch: self.branch.deep_view(),
            path: self.path@,
            status: self.status,
        }
    }
}

/// Result of a prune dry run.
#[derive(Debug, Clone, PartialEq, Eq)]
pub struct PruneDryRun {
    pub mainline: String,
    pub entries: Vec<WorktreePruneEntry>,
}

/// What a [`PruneDryRun`] stands for in contracts.
pub struct PruneDryRunView {
    pub mainline: Seq<char>,
    pub entries: Seq<WorktreePruneEntryView>,
}

impl DeepView for PruneDryRun {
    type V = PruneDryRunView;

    open spec fn deep_view(&self) -> PruneDryRunView {
        PruneDryRunView { mainline: self.mainline@, entries: self.entries.deep_view() }
    }
}

/// An entry that was pruned: its worktree is removed.
#[derive(Debug, Clone, PartialEq, Eq)]
pub struct PrunedEntry {
    pub branch: String,
    pub path: String,
}

/// What a [`PrunedEntry`] stands for in contracts.
pub struct PrunedEntryView {
    pub branch: Seq<char>,
    pub path: Seq<char>,
}

impl DeepView for PrunedEntry {
    type V = PrunedEntryView;

    open spec fn deep_view(&self) -> PrunedEntryView {
        PrunedEntryView { branch: self.branch@, path: self.path@ }
    }
}

/// An entry that was skipped during pruning.
#[derive(Debug, Clone, PartialEq, Eq)]
pub struct SkippedEntry {
    pub branch: Option<String>,
    pub path: String,
    pub reason: String,
}

/// What a [`SkippedEntry`] stands for in contracts.
pub struct SkippedEntryView {
    pub branch: Option<Seq<char>>,
    pub path: Seq<char>,
    pub reason: Seq<char>,
}

impl DeepView for SkippedEntry {
    type V = SkippedEntryView;

    open spec fn deep_view(&self) -> SkippedEntryView {
        SkippedEntryView {
            branch: self.branch.deep_view(),
            path: self.path@,
            reason: self.reason@,
        }
    }
}

/// Result of a prune execution.
#[derive(Debug, Clone, PartialEq, Eq)]
pub struct PruneExecuteResult {
    pub mainline: String,
    pub pruned: Vec<PrunedEntry>,
    pub skipped: Vec<SkippedEntry>,
    pub warnings: Vec<String>,
}

/// What a [`PruneExecuteResult`] stands for in contracts.
pub struct PruneExecuteResultView {
    pub mainline: Seq<char>,
    pub pruned: Seq<PrunedEntryView>,
    pub skipped: Seq<SkippedEntryView>,
    pub warnings: Seq<Seq<char>>,
}

impl DeepView for PruneExecuteResult {
    type V = PruneExecuteResultView;

    open spec fn deep_view(&self) -> PruneExecuteResultView {
        PruneExecuteResultView {
            mainline: self.mainline@,
            pruned: self.pruned.deep_view(),
            skipped: self.skipped.deep_view(),
            warnings: self.warnings.deep_view(),
        }
    }
}

/// The status that the two checks give: a branch whose commits are all
/// reachable from the mainline is merged; else one whose patches are all in
/// the mainline is rebased; else it is not integrated.
pub open spec fn integration_of(is_ancestor: bool, patches_present: bool) -> IntegrationStatus {
    if is_ancestor {
        IntegrationStatus::Integrated(IntegrationMethod::Merged)
    } else if patches_present {
        IntegrationStatus::Integrated(IntegrationMethod::Rebase)
    } else {
        IntegrationStatus::NotIntegrated
    }
}

/// Decide the integration status from what the two checks say.
pub fn integration_status(is_ancestor: bool, patches_present: bool) -> (status: IntegrationStatus)
    ensures
        status == integration_of(is_ancestor, patches_present),
        status != IntegrationStatus::NoBranch,
{
    if is_ancestor {
        IntegrationStatus::Integrated(IntegrationMethod::Merged)
    } else if patches_present {
        IntegrationStatus::Integrated(IntegrationMethod::Rebase)
    } else {
        IntegrationStatus::NotIntegrated
    }
}

/// The integration status of a branch: the ancestry check is made first,
/// and the patch comparison only where it says no.
pub open spec fn classify_integration_flow(
    repo: Seq<char>,
    branch: Seq<char>,
    mainline: Seq<char>,
    replies: Seq<ReplyView>,
    from: nat,
) -> StepView<IntegrationStatus> {
    match is_ancestor_flow(repo, branch, mainline, replies, from) {
        StepView::Done(true, at) => StepView::Done(integration_of(true, false), at),
        StepView::Done(false, at) => match cherry_flow(repo, mainline, branch, replies, at) {
            StepView::Done(present, end) => StepView::Done(integration_of(false, present), end),
            other => other.pass(),
        },
        other => other.pass(),
    }
}

/// Classify the integration status of a branch against the mainline.
pub fn classify_integration(
    repo: &RepoRoot,
    branch: &str,
    mainline: &str,
    replies: &Vec<Reply>,
    from: usize,
) -> (r: Step<IntegrationStatus>)
    ensures
        r.deep_view() == classify_integration_flow(
            repo@,
            branch@,
            mainline@,
            replies.deep_view(),
            from as nat,
        ),
{
    let (ancestor, at) = match crate::git::is_ancestor(repo, branch, mainline, replies, from) {
        Step::Done(v, at) => (v, at),
        other => {
            return other.pass();
        },
    };
    if ancestor {
        return Step::Done(integration_status(true, false), at);
    }
    match crate::git::cherry(repo, mainline, branch, replies, at) {
        Step::Done(present, end) => Step::Done(integration_status(false, present), end),
        other => other.pass(),
    }
}

/// The integration status of a worktree: that of its branch, where it has
/// one.
pub open spec fn status_flow(
    repo: Seq<char>,
    mainline: Seq<char>,
    branch: Option<Seq<char>>,
    replies: Seq<ReplyView>,
    from: nat,
) -> StepView<IntegrationStatus> {
    match branch {
        Some(name) => classify_integration_flow(repo, name, mainline, replies, from),
        None => StepView::Done(IntegrationStatus::NoBranch, from),
    }
}

/// The entries of a dry run for the worktrees from position `i` on, behind
/// the `entries` found before: the main worktree is left out, every other
/// one is classified, in the order of the catalog.
pub open spec fn survey_from(
    repo: Seq<char>,
    mainline: Seq<char>,
    worktrees: Seq<WorktreeView>,
    i: nat,
    entries: Seq<WorktreePruneEntryView>,
    replies: Seq<ReplyView>,
    from: nat,
) -> StepView<Seq<WorktreePruneEntryView>>
    decreases worktrees.len() - i,
{
    if i >= worktrees.len() {
        StepView::Done(entries, from)
    } else if worktrees[i as int].is_main {
        survey_from(repo, mainline, worktrees, i + 1, entries, replies, from)
    } else {
        match status_flow(repo, mainline, worktrees[i as int].branch, replies, from) {
            StepView::Done(status, at) => survey_from(
                repo,
                mainline,
                worktrees,
                i + 1,
                entries.push(
                    WorktreePruneEntryView {
                        branch: worktrees[i as int].branch,
                        path: worktrees[i as int].path,
                        status,
                    },
                ),
                replies,
                at,
            ),
            other => other.pass(),
        }
    }
}

/// The mainline that pruning goes by: the given one, which must exist, or
/// the mainline of the repository.
pub open spec fn prune_mainline_flow(
    repo: Seq<char>,
    mainline_override: Option<Seq<char>>,
    replies: Seq<ReplyView>,
    from: nat,
) -> StepView<Seq<char>> {
    match mainline_override {
        Some(name) => match rev_exists_flow(repo, name, replies, from) {
            StepView::Done(true, at) => StepView::Done(name, at),
            StepView::Done(false, at) => StepView::Fail(
                AppErrorView::usage("mainline branch '"@ + name + "' does not exist"@),
                at,
            ),
            other => other.pass(),
        },
        None => resolve_mainline_flow(repo, replies, from),
    }
}

/// A dry run of pruning: the mainline is resolved, the catalog is read, and
/// every worktree but the main one is classified. Nothing is removed.
pub open spec fn prune_dry_run_flow(
    repo: Seq<char>,
    mainline_override: Option<Seq<char>>,
    replies: Seq<ReplyView>,
    from: nat,
) -> StepView<PruneDryRunView> {
    match prune_mainline_flow(repo, mainline_override, replies, from) {
        StepView::Done(mainline, at) => match list_worktrees_flow(repo, replies, at) {
            StepView::Done(worktrees, at) => dry_run_of(
                mainline,
                survey_from(repo, mainline, worktrees, 0, Seq::empty(), replies, at),
            ),
            other => other.pass(),
        },
        other => other.pass(),
    }
}

/// The dry run that a survey of the worktrees makes.
pub open spec fn dry_run_of(mainline: Seq<char>, survey: StepView<Seq<WorktreePruneEntryView>>)
    -> StepView<PruneDryRunView> {
    match survey {
        StepView::Done(entries, end) => StepView::Done(PruneDryRunView { mainline, entries }, end),
        other => other.pass(),
    }
}

/// Dry run: scan the worktrees and report their integration status without
/// removing anything.
pub fn prune_dry_run(
    repo: &RepoRoot,
    mainline_override: Option<&str>,
    replies: &Vec<Reply>,
    from: usize,
) -> (r: Step<PruneDryRun>)
    ensures
        r.deep_view() == prune_dry_run_flow(
            repo@,
            mainline_override.deep_view(),
            replies.deep_view(),
            from as nat,
        ),
{
    let (mainline, at) = match mainline_override {
        Some(name) => {
            let (found, at) = match crate::git::rev_exists(repo, name, replies, from) {
                Step::Done(v, at) => (v, at),
                other => {
                    return other.pass();
                },
            };
            if !found {
                return Step::Fail(
                    AppError::usage(concat3("mainline branch '", name, "' does not exist")),
                    at,
                );
            }
            (name.to_owned(), at)
        },
        None => match crate::git::resolve_mainline(repo, replies, from) {
            Step::Done(v, at) => (v, at),
            other => {
                return other.pass();
            },
        },
    };
    let (worktrees, start) = match crate::git::list_worktrees(repo, replies, at) {
        Step::Done(v, at) => (v, at),
        other => {
            return other.pass();
        },
    };
    let mut entries: Vec<WorktreePruneEntry> = Vec::new();
    let mut at: usize = start;
    let mut i: usize = 0;
    assert(entries.deep_view() =~= Seq::<WorktreePruneEntryView>::empty());
    while i < worktrees.len()
        invariant
            i <= worktrees.len(),
            prune_dry_run_flow(
                repo@,
                mainline_override.deep_view(),
                replies.deep_view(),
                from as nat,
            ) == dry_run_of(
                mainline@,
                survey_from(
                    repo@,
                    mainline@,
                    worktrees.deep_view(),
                    0,
                    Seq::empty(),
                    replies.deep_view(),
                    start as nat,
                ),
            ),
            survey_from(
                repo@,
                mainline@,
                worktrees.deep_view(),
                0,
                Seq::empty(),
                replies.deep_view(),
                start as nat,
            ) == survey_from(
                repo@,
                mainline@,
                worktrees.deep_view(),
                i as nat,
                entries.deep_view(),
                replies.deep_view(),
                at as nat,
            ),
        decreases worktrees.len() - i,
    {
        let wt = &worktrees[i];
        if !wt.is_main {
            let (status, next) = match &wt.branch {
                Some(branch) => match classify_integration(
                    repo,
                    branch.as_str(),
                    mainline.as_str(),
                    replies,
                    at,
                ) {
                    Step::Done(v, next) => (v, next),
                    other => {
                        return other.pass();
                    },
                },
                None => (IntegrationStatus::NoBranch, at),
            };
            let ghost before = entries.deep_view();
            entries.push(
                WorktreePruneEntry { branch: wt.branch.clone(), path: wt.path.clone(), status },
            );
            assert(entries.deep_view() =~= before.push(
                WorktreePruneEntryView { branch: wt@.branch, path: wt@.path, status },
            ));
            at = next;
        }
        i += 1;
    }
    Step::Done(PruneDryRun { mainline, entries }, at)
}

/// Whether a dry-run entry stands for one of the worktrees that is not the
/// main one.
pub open spec fn is_linked_entry(entry: WorktreePruneEntryView, worktrees: Seq<WorktreeView>)
    -> bool {
    exists|j: int|
        0 <= j < worktrees.len() && !(#[trigger] worktrees[j]).is_main && entry.path
            == worktrees[j].path && entry.branch == worktrees[j].branch
}

/// How many of the worktrees from position `i` on are not the main one.
pub open spec fn linked_count(worktrees: Seq<WorktreeView>, i: nat) -> nat
    decreases worktrees.len() - i,
{
    if i >= worktrees.len() {
        0
    } else if worktrees[i as int].is_main {
        linked_count(worktrees, i + 1)
    } else {
        linked_count(worktrees, i + 1) + 1
    }
}

/// A survey leaves the main worktree out and takes every other worktree in:
/// each of its entries stands for a worktree that is not the main one, and
/// it has as many entries as there are such worktrees.
pub proof fn lemma_survey_leaves_out_main(
    repo: Seq<char>,
    mainline: Seq<char>,
    worktrees: Seq<WorktreeView>,
    i: nat,
    entries: Seq<WorktreePruneEntryView>,
    replies: Seq<ReplyView>,
    from: nat,
)
    requires
        forall|k: int| 0 <= k < entries.len() ==> is_linked_entry(#[trigger] entries[k], worktrees),
    ensures
        survey_from(repo, mainline, worktrees, i, entries, replies, from) matches StepView::Done(
            all,
            _,
        ) ==> all.len() == entries.len() + linked_count(worktrees, i) && forall|k: int|
            0 <= k < all.len() ==> is_linked_entry(#[trigger] all[k], worktrees),
    decreases worktrees.len() - i,
{
    if i < worktrees.len() {
        let wt = worktrees[i as int];
        if wt.is_main {
            lemma_survey_leaves_out_main(repo, mainline, worktrees, i + 1, entries, replies, from);
        } else {
            match status_flow(repo, mainline, wt.branch, replies, from) {
                StepView::Done(status, at) => {
                    let entry = WorktreePruneEntryView { branch: wt.branch, path: wt.path, status };
                    lemma_survey_leaves_out_main(
                        repo,
                        mainline,
                        worktrees,
                        i + 1,
                        entries.push(entry),
                        replies,
                        at,
                    );
                },
                _ => {},
            }
        }
    }
}

/// Whether an entry has a branch if it is integrated.
pub open spec fn integrated_has_branch(entry: WorktreePruneEntryView) -> bool {
    entry.status is Integrated ==> entry.branch is Some
}

/// Every entry of a survey that is integrated has a branch.
pub proof fn lemma_survey_integrated_has_branch(
    repo: Seq<char>,
    mainline: Seq<char>,
    worktrees: Seq<WorktreeView>,
    i: nat,
    entries: Seq<WorktreePruneEntryView>,
    replies: Seq<ReplyView>,
    from: nat,
)
    requires
        forall|k: int| 0 <= k < entries.len() ==> integrated_has_branch(#[trigger] entries[k]),
    ensures
        survey_from(repo, mainline, worktrees, i, entries, replies, from) matches StepView::Done(
            all,
            _,
        ) ==> forall|k: int| 0 <= k < all.len() ==> integrated_has_branch(#[trigger] all[k]),
    decreases worktrees.len() - i,
{
    if i < worktrees.len() {
        if worktrees[i as int].is_main {
            lemma_survey_integrated_has_branch(
                repo,
                mainline,
                worktrees,
                i + 1,
                entries,
                replies,
                from,
            );
        } else {
            match status_flow(repo, mainline, worktrees[i as int].branch, replies, from) {
                StepView::Done(status, at) => {
                    let entry = WorktreePruneEntryView {
                        branch: worktrees[i as int].branch,
                        path: worktrees[i as int].path,
                        status,
                    };
                    lemma_survey_integrated_has_branch(
                        repo,
                        mainline,
                        worktrees,
                        i + 1,
                        entries.push(entry),
                        replies,
                        at,
                    );
                },
                _ => {},
            }
        }
    }
}

/// Every entry of a dry run that is integrated has a branch.
pub proof fn lemma_dry_run_integrated_has_branch(
    repo: Seq<char>,
    mainline_override: Option<Seq<char>>,
    replies: Seq<ReplyView>,
    from: nat,
)
    ensures
        prune_dry_run_flow(repo, mainline_override, replies, from) matches StepView::Done(
            dry_run,
            _,
        ) ==> forall|k: int|
            0 <= k < dry_run.entries.len() ==> integrated_has_branch(
                #[trigger] dry_run.entries[k],
            ),
{
    match prune_mainline_flow(repo, mainline_override, replies, from) {
        StepView::Done(mainline, at) => match list_worktrees_flow(repo, replies, at) {
            StepView::Done(worktrees, at) => {
                lemma_survey_integrated_has_branch(
                    repo,
                    mainline,
                    worktrees,
                    0,
                    Seq::empty(),
                    replies,
                    at,
                );
            },
            _ => {},
        },
        _ => {},
    }
}

/// A survey that was made stands however many replies follow.
pub proof fn lemma_survey_stands(
    repo: Seq<char>,
    mainline: Seq<char>,
    worktrees: Seq<WorktreeView>,
    i: nat,
    entries: Seq<WorktreePruneEntryView>,
    replies: Seq<ReplyView>,
    longer: Seq<ReplyView>,
    from: nat,
)
    requires
        extends(longer, replies),
    ensures
        stands(
            survey_from(repo, mainline, worktrees, i, entries, replies, from),
            survey_from(repo, mainline, worktrees, i, entries, longer, from),
            from,
            replies.len(),
        ),
    decreases worktrees.len() - i,
{
    if i < worktrees.len() {
        let wt = worktrees[i as int];
        if wt.is_main {
            lemma_survey_stands(repo, mainline, worktrees, i + 1, entries, replies, longer, from);
        } else {
            match status_flow(repo, mainline, wt.branch, replies, from) {
                StepView::Done(status, at) => {
                    lemma_survey_stands(
                        repo,
                        mainline,
                        worktrees,
                        i + 1,
                        entries.push(
                            WorktreePruneEntryView { branch: wt.branch, path: wt.path, status },
                        ),
                        replies,
                        longer,
                        at,
                    );
                },
                _ => {},
            }
        }
    }
}

/// A dry run that was made stands however many replies follow.
pub proof fn lemma_prune_dry_run_stands(
    repo: Seq<char>,
    mainline_override: Option<Seq<char>>,
    replies: Seq<ReplyView>,
    longer: Seq<ReplyView>,
    from: nat,
)
    requires
        extends(longer, replies),
    ensures
        stands(
            prune_dry_run_flow(repo, mainline_override, replies, from),
            prune_dry_run_flow(repo, mainline_override, longer, from),
            from,
            replies.len(),
        ),
{
    crate::git::lemma_resolve_mainline_stands(repo, replies, longer, from);
    match prune_mainline_flow(repo, mainline_override, replies, from) {
        StepView::Done(mainline, at) => {
            crate::git::lemma_list_worktrees_stands(repo, replies, longer, at);
            match list_worktrees_flow(repo, replies, at) {
                StepView::Done(worktrees, next) => {
                    lemma_survey_stands(
                        repo,
                        mainline,
                        worktrees,
                        0,
                        Seq::empty(),
                        replies,
                        longer,
                        next,
                    );
                },
                _ => {},
            }
        },
        _ => {},
    }
}

/// What pruning has done so far.
#[derive(Debug, Clone, PartialEq, Eq)]
pub struct PruneAccumulator {
    pub pruned: Vec<PrunedEntry>,
    pub skipped: Vec<SkippedEntry>,
    pub warnings: Vec<String>,
}

/// What a [`PruneAccumulator`] stands for in contracts.
pub struct PruneAccumulatorView {
    pub pruned: Seq<PrunedEntryView>,
    pub skipped: Seq<SkippedEntryView>,
    pub warnings: Seq<Seq<char>>,
}

impl DeepView for PruneAccumulator {
    type V = PruneAccumulatorView;

    open spec fn deep_view(&self) -> PruneAccumulatorView {
        PruneAccumulatorView {
            pruned: self.pruned.deep_view(),
            skipped: self.skipped.deep_view(),
            warnings: self.warnings.deep_view(),
        }
    }
}

impl PruneAccumulatorView {
    /// Nothing done yet.
    pub open spec fn empty() -> PruneAccumulatorView {
        PruneAccumulatorView {
            pruned: Seq::empty(),
            skipped: Seq::empty(),
            warnings: Seq::empty(),
        }
    }

    /// With one more entry pruned.
    pub open spec fn prune(self, branch: Seq<char>, path: Seq<char>) -> PruneAccumulatorView {
        PruneAccumulatorView { pruned: self.pruned.push(PrunedEntryView { branch, path }), ..self }
    }

    /// With one more entry skipped.
    pub open spec fn skip(self, branch: Option<Seq<char>>, path: Seq<char>, reason: Seq<char>)
        -> PruneAccumulatorView {
        PruneAccumulatorView {
            skipped: self.skipped.push(SkippedEntryView { branch, path, reason }),
            ..self
        }
    }

    /// With one more warning.
    pub open spec fn warn(self, warning: Seq<char>) -> PruneAccumulatorView {
        PruneAccumulatorView { warnings: self.warnings.push(warning), ..self }
    }
}

impl PruneAccumulator {
    pub fn new() -> (acc: Self)
        ensures
            acc.deep_view() == PruneAccumulatorView::empty(),
    {
        let acc = PruneAccumulator {
            pruned: Vec::new(),
            skipped: Vec::new(),
            warnings: Vec::new(),
        };
        assert(acc.pruned.deep_view() =~= Seq::<PrunedEntryView>::empty());
        assert(acc.skipped.deep_view() =~= Seq::<SkippedEntryView>::empty());
        assert(acc.warnings.deep_view() =~= Seq::<Seq<char>>::empty());
        acc
    }

    pub fn prune(&mut self, branch: String, path: String)
        ensures
            final(self).deep_view() == old(self).deep_view().prune(branch@, path@),
    {
        let ghost before = self.pruned.deep_view();
        self.pruned.push(PrunedEntry { branch, path });
        assert(self.pruned.deep_view() =~= before.push(
            PrunedEntryView { branch: branch@, path: path@ },
        ));
    }

    pub fn skip(&mut self, branch: Option<String>, path: String, reason: &str)
        ensures
            final(self).deep_view() == old(self).deep_view().skip(
                branch.deep_view(),
                path@,
                reason@,
            ),
    {
        let ghost before = self.skipped.deep_view();
        self.skipped.push(SkippedEntry { branch, path, reason: reason.to_owned() });
        assert(self.skipped.deep_view() =~= before.push(
            SkippedEntryView { branch: branch.deep_view(), path: path@, reason: reason@ },
        ));
    }

    pub fn warn(&mut self, warning: String)
        ensures
            final(self).deep_view() == old(self).deep_view().warn(warning@),
    {
        let ghost before = self.warnings.deep_view();
        self.warnings.push(warning);
        assert(self.warnings.deep_view() =~= before.push(warning@));
    }
}

/// Whether the branch of a pruned worktree is deleted whatever its state:
/// where the caller forces it, and always where the branch was found
/// integrated by its patches, since the version-control command trusts
/// ancestry alone and would refuse.
pub open spec fn forced_deletion(force: bool, status: IntegrationStatus) -> bool {
    force || status == IntegrationStatus::Integrated(IntegrationMethod::Rebase)
}

/// The warning that tells that the worktree of a branch could not be
/// removed.
pub open spec fn removal_failed_warning(branch: Seq<char>, e: AppErrorView) -> Seq<char> {
    "failed to remove worktree for '"@ + branch + "': "@ + e.message
}

/// The warning that tells that a branch is still there after its worktree
/// was pruned.
pub open spec fn branch_left_warning(branch: Seq<char>, e: AppErrorView) -> Seq<char> {
    "worktree removed but branch deletion failed for '"@ + branch + "': "@ + e.message
}

/// Prune one integrated entry: its worktree is removed, then its branch is
/// deleted. A worktree that cannot be removed is skipped with a warning. A
/// branch that cannot be deleted gives a warning, and the entry counts as
/// pruned.
pub open spec fn prune_integrated_entry_flow(
    repo: Seq<char>,
    entry: WorktreePruneEntryView,
    force: bool,
    acc: PruneAccumulatorView,
    replies: Seq<ReplyView>,
    from: nat,
) -> StepView<PruneAccumulatorView> {
    let branch = entry.branch->0;
    match remove_worktree_flow(repo, entry.path, force, replies, from) {
        StepView::Ask(q) => StepView::Ask(q),
        StepView::Fail(e, at) => StepView::Done(
            acc.warn(removal_failed_warning(branch, e)).skip(
                Some(branch),
                entry.path,
                "removal_failed"@,
            ),
            at,
        ),
        StepView::Done(_, at) => match delete_branch_flow(
            repo,
            branch,
            forced_deletion(force, entry.status),
            replies,
            at,
        ) {
            StepView::Ask(q) => StepView::Ask(q),
            StepView::Fail(e, end) => StepView::Done(
                acc.warn(branch_left_warning(branch, e)).prune(branch, entry.path),
                end,
            ),
            StepView::Done(_, end) => StepView::Done(acc.prune(branch, entry.path), end),
        },
    }
}

/// Try to remove an integrated worktree and its branch.
pub fn prune_integrated_entry(
    repo: &RepoRoot,
    entry: &WorktreePruneEntry,
    force: bool,
    acc: PruneAccumulator,
    replies: &Vec<Reply>,
    from: usize,
) -> (r: Step<PruneAccumulator>)
    requires
        entry.branch is Some,
    ensures
        r.deep_view() == prune_integrated_entry_flow(
            repo@,
            entry.deep_view(),
            force,
            acc.deep_view(),
            replies.deep_view(),
            from as nat,
        ),
{
    let mut acc = acc;
    let branch_name = match &entry.branch {
        Some(name) => name.clone(),
        None => unreached(),
    };
    let force_branch = force || match entry.status {
        IntegrationStatus::Integrated(IntegrationMethod::Rebase) => true,
        _ => false,
    };
    let at = match crate::git::remove_worktree(repo, entry.path.as_str(), force, replies, from) {
        Step::Ask(q) => {
            return Step::Ask(q);
        },
        Step::Fail(e, at) => {
            let mut warning = concat3(
                "failed to remove worktree for '",
                branch_name.as_str(),
                "': ",
            );
            warning.append(e.message.as_str());
            acc.warn(warning);
            acc.skip(Some(branch_name), entry.path.clone(), "removal_failed");
            return Step::Done(acc, at);
        },
        Step::Done(_, at) => at,
    };
    let bn = BranchName::new(branch_name.as_str());
    let end = match crate::git::delete_branch(repo, &bn, force_branch, replies, at) {
        Step::Ask(q) => {
            return Step::Ask(q);
        },
        Step::Fail(e, end) => {
            let mut warning = concat3(
                "worktree removed but branch deletion failed for '",
                branch_name.as_str(),
                "': ",
            );
            warning.append(e.message.as_str());
            acc.warn(warning);
            end
        },
        Step::Done(_, end) => end,
    };
    acc.prune(branch_name, entry.path.clone());
    Step::Done(acc, end)
}

/// The branch of a worktree that was found integrated by its patches is
/// deleted with `-D` whether or not the caller forces anything: once its
/// worktree is removed, that deletion is the next request; and where both
/// succeed, the entry is pruned.
pub proof fn lemma_rebase_branch_is_force_deleted(
    repo: Seq<char>,
    entry: WorktreePruneEntryView,
    force: bool,
    acc: PruneAccumulatorView,
    replies: Seq<ReplyView>,
    from: nat,
)
    requires
        entry.status == IntegrationStatus::Integrated(IntegrationMethod::Rebase),
        entry.branch is Some,
        remove_worktree_flow(repo, entry.path, force, replies, from) is Done,
    ensures
        ({
            let at = remove_worktree_flow(repo, entry.path, force, replies, from)->Done_1;
            let branch = entry.branch->0;
            let pruning = prune_integrated_entry_flow(repo, entry, force, acc, replies, from);
            &&& at >= replies.len() ==> pruning == StepView::<PruneAccumulatorView>::Ask(
                git_request(repo, seq!["branch"@, "-D"@, branch]),
            )
            &&& delete_branch_flow(repo, branch, true, replies, at) matches StepView::Done(_, end)
                ==> pruning == StepView::Done(acc.prune(branch, entry.path), end)
        }),
{
}

/// Pruning from entry `i` on, `acc` holding what was done before: an
/// integrated entry is pruned; any other is skipped, with the reason
/// `not_integrated` or `no_branch`. Each entry is handled by itself: what
/// fails for one does not stop the others.
pub open spec fn prune_from(
    repo: Seq<char>,
    entries: Seq<WorktreePruneEntryView>,
    i: nat,
    force: bool,
    acc: PruneAccumulatorView,
    replies: Seq<ReplyView>,
    from: nat,
) -> StepView<PruneAccumulatorView>
    decreases entries.len() - i,
{
    if i >= entries.len() {
        StepView::Done(acc, from)
    } else {
        let entry = entries[i as int];
        match entry.status {
            IntegrationStatus::Integrated(_) => match prune_integrated_entry_flow(
                repo,
                entry,
                force,
                acc,
                replies,
                from,
            ) {
                StepView::Done(after, at) => prune_from(
                    repo,
                    entries,
                    i + 1,
                    force,
                    after,
                    replies,
                    at,
                ),
                other => other.pass(),
            },
            IntegrationStatus::NotIntegrated => prune_from(
                repo,
                entries,
                i + 1,
                force,
                acc.skip(entry.branch, entry.path, "not_integrated"@),
                replies,
                from,
            ),
            IntegrationStatus::NoBranch => prune_from(
                repo,
                entries,
                i + 1,
                force,
                acc.skip(None, entry.path, "no_branch"@),
                replies,
                from,
            ),
        }
    }
}

/// The result of pruning that the work on the entries makes.
pub open spec fn prune_result_of(mainline: Seq<char>, work: StepView<PruneAccumulatorView>)
    -> StepView<PruneExecuteResultView> {
    match work {
        StepView::Done(acc, end) => StepView::Done(
            PruneExecuteResultView {
                mainline,
                pruned: acc.pruned,
                skipped: acc.skipped,
                warnings: acc.warnings,
            },
            end,
        ),
        other => other.pass(),
    }
}

/// Pruning: a dry run, and then every entry of it handled in its order.
pub open spec fn prune_execute_flow(
    repo: Seq<char>,
    mainline_override: Option<Seq<char>>,
    force: bool,
    replies: Seq<ReplyView>,
    from: nat,
) -> StepView<PruneExecuteResultView> {
    match prune_dry_run_flow(repo, mainline_override, replies, from) {
        StepView::Done(dry_run, at) => prune_result_of(
            dry_run.mainline,
            prune_from(
                repo,
                dry_run.entries,
                0,
                force,
                PruneAccumulatorView::empty(),
                replies,
                at,
            ),
        ),
        other => other.pass(),
    }
}

/// Execute prune: remove integrated worktrees and their branches.
pub fn prune_execute(
    repo: &RepoRoot,
    mainline_override: Option<&str>,
    force: bool,
    replies: &Vec<Reply>,
    from: usize,
) -> (r: Step<PruneExecuteResult>)
    ensures
        r.deep_view() == prune_execute_flow(
            repo@,
            mainline_override.deep_view(),
            force,
            replies.deep_view(),
            from as nat,
        ),
{
    let (dry_run, start) = match prune_dry_run(repo, mainline_override, replies, from) {
        Step::Done(v, at) => (v, at),
        other => {
            return other.pass();
        },
    };
    proof {
        lemma_dry_run_integrated_has_branch(
            repo@,
            mainline_override.deep_view(),
            replies.deep_view(),
            from as nat,
        );
    }
    let mainline = dry_run.mainline;
    let entries = dry_run.entries;
    let mut acc = PruneAccumulator::new();
    let mut at: usize = start;
    let mut i: usize = 0;
    while i < entries.len()
        invariant
            i <= entries.len(),
            forall|k: int|
                0 <= k < entries.deep_view().len() ==> integrated_has_branch(
                    #[trigger] entries.deep_view()[k],
                ),
            prune_execute_flow(
                repo@,
                mainline_override.deep_view(),
                force,
                replies.deep_view(),
                from as nat,
            ) == prune_result_of(
                mainline@,
                prune_from(
                    repo@,
                    entries.deep_view(),
                    i as nat,
                    force,
                    acc.deep_view(),
                    replies.deep_view(),
                    at as nat,
                ),
            ),
        decreases entries.len() - i,
    {
        let entry = &entries[i];
        match entry.status {
            IntegrationStatus::Integrated(_) => {
                match prune_integrated_entry(repo, entry, force, acc, replies, at) {
                    Step::Done(after, next) => {
                        acc = after;
                        at = next;
                    },
                    other => {
                        return other.pass();
                    },
                }
            },
            IntegrationStatus::NotIntegrated => {
                acc.skip(entry.branch.clone(), entry.path.clone(), "not_integrated");
            },
            IntegrationStatus::NoBranch => {
                acc.skip(None, entry.path.clone(), "no_branch");
            },
        }
        i += 1;
    }
    Step::Done(
        PruneExecuteResult {
            mainline,
            pruned: acc.pruned,
            skipped: acc.skipped,
            warnings: acc.warnings,
        },
        at,
    )
}

/// Pruning never fails on an entry: what goes wrong with one entry is
/// recorded, and the others are still handled. Where pruning comes to its
/// end, every entry is either pruned or skipped.
pub proof fn lemma_prune_handles_every_entry(
    repo: Seq<char>,
    entries: Seq<WorktreePruneEntryView>,
    i: nat,
    force: bool,
    acc: PruneAccumulatorView,
    replies: Seq<ReplyView>,
    from: nat,
)
    requires
        i <= entries.len(),
    ensures
        !(prune_from(repo, entries, i, force, acc, replies, from) is Fail),
        prune_from(repo, entries, i, force, acc, replies, from) matches StepView::Done(after, _)
            ==> after.pruned.len() + after.skipped.len() == acc.pruned.len() + acc.skipped.len()
            + entries.len() - i,
    decreases entries.len() - i,
{
    if i < entries.len() {
        let entry = entries[i as int];
        match entry.status {
            IntegrationStatus::Integrated(_) => {
                match prune_integrated_entry_flow(repo, entry, force, acc, replies, from) {
                    StepView::Done(after, at) => {
                        lemma_prune_handles_every_entry(
                            repo,
                            entries,
                            i + 1,
                            force,
                            after,
                            replies,
                            at,
                        );
                    },
                    _ => {},
                }
            },
            IntegrationStatus::NotIntegrated => {
                lemma_prune_handles_every_entry(
                    repo,
                    entries,
                    i + 1,
                    force,
                    acc.skip(entry.branch, entry.path, "not_integrated"@),
                    replies,
                    from,
                );
            },
            IntegrationStatus::NoBranch => {
                lemma_prune_handles_every_entry(
                    repo,
                    entries,
                    i + 1,
                    force,
                    acc.skip(None, entry.path, "no_branch"@),
                    replies,
                    from,
                );
            },
        }
    }
}

/// The pruning that was done stands however many replies follow.
pub proof fn lemma_prune_from_stands(
    repo: Seq<char>,
    entries: Seq<WorktreePruneEntryView>,
    i: nat,
    force: bool,
    acc: PruneAccumulatorView,
    replies: Seq<ReplyView>,
    longer: Seq<ReplyView>,
    from: nat,
)
    requires
        extends(longer, replies),
    ensures
        stands(
            prune_from(repo, entries, i, force, acc, replies, from),
            prune_from(repo, entries, i, force, acc, longer, from),
            from,
            replies.len(),
        ),
    decreases entries.len() - i,
{
    if i < entries.len() {
        let entry = entries[i as int];
        match entry.status {
            IntegrationStatus::Integrated(_) => {
                match prune_integrated_entry_flow(repo, entry, force, acc, replies, from) {
                    StepView::Done(after, at) => {
                        lemma_prune_from_stands(
                            repo,
                            entries,
                            i + 1,
                            force,
                            after,
                            replies,
                            longer,
                            at,
                        );
                    },
                    _ => {},
                }
            },
            IntegrationStatus::NotIntegrated => {
                lemma_prune_from_stands(
                    repo,
                    entries,
                    i + 1,
                    force,
                    acc.skip(entry.branch, entry.path, "not_integrated"@),
                    replies,
                    longer,
                    from,
                );
            },
            IntegrationStatus::NoBranch => {
                lemma_prune_from_stands(
                    repo,
                    entries,
                    i + 1,
                    force,
                    acc.skip(None, entry.path, "no_branch"@),
                    replies,
                    longer,
                    from,
                );
            },
        }
    }
}

/// A pruning that was done stands however many replies follow.
pub proof fn lemma_prune_execute_stands(
    repo: Seq<char>,
    mainline_override: Option<Seq<char>>,
    force: bool,
    replies: Seq<ReplyView>,
    longer: Seq<ReplyView>,
    from: nat,
)
    requires
        extends(longer, replies),
    ensures
        stands(
            prune_execute_flow(repo, mainline_override, force, replies, from),
            prune_execute_flow(repo, mainline_override, force, longer, from),
            from,
            replies.len(),
        ),
{
    lemma_prune_dry_run_stands(repo, mainline_override, replies, longer, from);
    match prune_dry_run_flow(repo, mainline_override, replies, from) {
        StepView::Done(dry_run, at) => {
            lemma_prune_from_stands(
                repo,
                dry_run.entries,
                0,
                force,
                PruneAccumulatorView::empty(),
                replies,
                longer,
                at,
            );
        },
        _ => {},
    }
}

} // verus!
