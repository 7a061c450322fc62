use vstd::prelude::*;
use vstd::string::StringExecFns;
use crate::commands::{Ambient, WorkingDir};
use crate::domain::{BranchName, RepoRoot, Worktree, WorktreeView};
use crate::error::{outcome, AppError, AppErrorView};
use crate::git::list_worktrees_flow;
use crate::output::{NavigationFormat, RemoveFormat};
use crate::path::{is_within, path_is_within};
use crate::report::{branch_label, branch_text, main_tag, main_tag_text};
use crate::text::{concat2, pad, pad_right, same_text};
use crate::vcs::{
    answer, ask, extends, stands, Reply, ReplyView, Request, RequestView, Step, StepView,
};

verus! {

/// The worktrees but the main one, in the order of the catalog.
pub open spec fn non_main(worktrees: Seq<WorktreeView>) -> Seq<WorktreeView>
    decreases worktrees.len(),
{
    if worktrees.len() == 0 {
        Seq::empty()
    } else if worktrees.last().is_main {
        non_main(worktrees.drop_last())
    } else {
        non_main(worktrees.drop_last()).push(worktrees.last())
    }
}

/// The worktrees that can be selected: all but the main one.
pub fn candidates(worktrees: &Vec<Worktree>) -> (r: Vec<Worktree>)
    ensures
        r.deep_view() == non_main(worktrees.deep_view()),
{
    let mut r: Vec<Worktree> = Vec::new();
    let mut i: usize = 0;
    while i < worktrees.len()
        invariant
            i <= worktrees.len(),
            r.deep_view() == non_main(worktrees.deep_view().take(i as int)),
        decreases worktrees.len() - i,
    {
        proof {
            let sofar = worktrees.deep_view().take(i + 1);
            assert(sofar.drop_last() =~= worktrees.deep_view().take(i as int));
        }
        let wt = &worktrees[i];
        if !wt.is_main {
            r.push(
                Worktree {
                    path: wt.path.clone(),
                    branch: wt.branch.clone(),
                    commit: wt.commit.clone(),
                    is_main: wt.is_main,
                },
            );
        }
        i += 1;
    }
    assert(worktrees.deep_view().take(worktrees.len() as int) =~= worktrees.deep_view());
    r
}

/// The item that stands for a worktree in a choice: its branch in 30
/// columns, its path in 50, and its commit; where `tagged`, the main
/// worktree is marked.
pub open spec fn choice_label(wt: WorktreeView, tagged: bool) -> Seq<char> {
    pad(branch_label(wt.branch), 30) + " "@ + pad(wt.path, 50) + " "@ + wt.commit + main_tag(
        tagged && wt.is_main,
    )
}

/// The items of a choice among worktrees, in their order.
pub open spec fn choice_labels(offered: Seq<WorktreeView>, tagged: bool) -> Seq<Seq<char>> {
    Seq::new(offered.len(), |i: int| choice_label(offered[i], tagged))
}

/// The first of the offered worktrees that an item stands for.
pub open spec fn chosen(offered: Seq<WorktreeView>, tagged: bool, item: Seq<char>) -> Option<
    WorktreeView,
>
    decreases offered.len(),
{
    if offered.len() == 0 {
        None
    } else if choice_label(offered[0], tagged) == item {
        Some(offered[0])
    } else {
        chosen(offered.drop_first(), tagged, item)
    }
}

/// What a selection of a branch came to.
#[derive(Debug, Clone, PartialEq, Eq)]
pub enum Selection {
    /// This branch.
    Branch(BranchName),
    /// No branch is named: the operation is to go by the current directory.
    Infer,
    /// The user gave up.
    GaveUp,
}

/// What a [`Selection`] stands for in contracts.
pub enum SelectionView {
    Branch(Seq<char>),
    Infer,
    GaveUp,
}

impl DeepView for Selection {
    type V = SelectionView;

    open spec fn deep_view(&self) -> SelectionView {
        match self {
            Selection::Branch(b) => SelectionView::Branch(b@),
            Selection::Infer => SelectionView::Infer,
            Selection::GaveUp => SelectionView::GaveUp,
        }
    }
}

/// What the reply to a choice among worktrees means: the branch of the
/// worktree that the chosen item stands for; an error where that worktree
/// has no branch, where the item was not offered, or where the choice could
/// not be shown; and no branch where the user gave up.
pub open spec fn selection_of(offered: Seq<WorktreeView>, tagged: bool, reply: ReplyView) -> Result<
    SelectionView,
    AppErrorView,
> {
    match reply {
        ReplyView::Output(item) => match chosen(offered, tagged, item) {
            Some(wt) => match wt.branch {
                Some(branch) => Ok(SelectionView::Branch(branch)),
                None => Err(
                    AppErrorView::usage("selected worktree has no branch (detached HEAD)"@),
                ),
            },
            None => Err(AppErrorView::usage("picker failed: unknown selection"@)),
        },
        ReplyView::Failure(reason) => Err(AppErrorView::usage("picker failed: "@ + reason)),
        ReplyView::Unavailable(_) => Ok(SelectionView::GaveUp),
    }
}

/// Let the user choose among worktrees.
pub open spec fn pick_flow(
    offered: Seq<WorktreeView>,
    tagged: bool,
    prompt: Seq<char>,
    default: usize,
    replies: Seq<ReplyView>,
    from: nat,
) -> StepView<SelectionView> {
    match answer(
        RequestView::Choose { prompt, items: choice_labels(offered, tagged), default },
        replies,
        from,
    ) {
        StepView::Done(reply, at) => match selection_of(offered, tagged, reply) {
            Ok(selection) => StepView::Done(selection, at),
            Err(e) => StepView::Fail(e, at),
        },
        other => other.pass(),
    }
}

fn label_of(wt: &Worktree, tagged: bool) -> (r: String)
    ensures
        r@ == choice_label(wt@, tagged),
{
    let mut line = pad_right(branch_text(&wt.branch).as_str(), 30);
    line.append(" ");
    line.append(pad_right(wt.path.as_str(), 50).as_str());
    line.append(" ");
    line.append(wt.commit.as_str());
    line.append(main_tag_text(tagged && wt.is_main));
    line
}

fn find_chosen(offered: &Vec<Worktree>, tagged: bool, item: &str) -> (r: Option<usize>)
    ensures
        match r {
            Some(k) => k < offered.len() && chosen(offered.deep_view(), tagged, item@) == Some(
                offered@[k as int]@,
            ),
            None => chosen(offered.deep_view(), tagged, item@) is None,
        },
{
    let mut i: usize = 0;
    assert(offered.deep_view().skip(0) =~= offered.deep_view());
    while i < offered.len()
        invariant
            i <= offered.len(),
            chosen(offered.deep_view(), tagged, item@) == chosen(
                offered.deep_view().skip(i as int),
                tagged,
                item@,
            ),
        decreases offered.len() - i,
    {
        let ghost rest = offered.deep_view().skip(i as int);
        assert(rest.drop_first() =~= offered.deep_view().skip(i + 1));
        if same_text(label_of(&offered[i], tagged).as_str(), item) {
            return Some(i);
        }
        i += 1;
    }
    None
}

/// Read the reply to a choice among worktrees.
pub fn read_selection(offered: &Vec<Worktree>, tagged: bool, reply: &Reply) -> (r: Result<
    Selection,
    AppError,
>)
    ensures
        outcome(r) == selection_of(offered.deep_view(), tagged, reply@),
{
    match reply {
        Reply::Output(item) => match find_chosen(offered, tagged, item.as_str()) {
            Some(k) => match &offered[k].branch {
                Some(branch) => Ok(Selection::Branch(BranchName::new(branch.as_str()))),
                None => Err(
                    AppError::usage("selected worktree has no branch (detached HEAD)".to_owned()),
                ),
            },
            None => Err(AppError::usage("picker failed: unknown selection".to_owned())),
        },
        Reply::Failure(reason) => Err(
            AppError::usage(concat2("picker failed: ", reason.as_str())),
        ),
        Reply::Unavailable(_) => Ok(Selection::GaveUp),
    }
}

/// Present a choice among worktrees and return the branch of the chosen
/// one.
pub fn pick_worktree(
    offered: &Vec<Worktree>,
    tagged: bool,
    prompt: &str,
    default: usize,
    replies: &Vec<Reply>,
    from: usize,
) -> (r: Step<Selection>)
    ensures
        r.deep_view() == pick_flow(
            offered.deep_view(),
            tagged,
            prompt@,
            default,
            replies.deep_view(),
            from as nat,
        ),
{
    let mut items: Vec<String> = Vec::new();
    let mut i: usize = 0;
    while i < offered.len()
        invariant
            i <= offered.len(),
            items.len() == i,
            forall|j: int|
                0 <= j < i ==> (#[trigger] items@[j])@ == choice_label(offered@[j]@, tagged),
        decreases offered.len() - i,
    {
        items.push(label_of(&offered[i], tagged));
        i += 1;
    }
    assert(items.deep_view() =~= choice_labels(offered.deep_view(), tagged));
    let request = Request::Choose { prompt: prompt.to_owned(), items, default };
    match ask(request, replies, from) {
        Step::Done(reply, at) => match read_selection(offered, tagged, &reply) {
            Ok(selection) => Step::Done(selection, at),
            Err(e) => Step::Fail(e, at),
        },
        other => other.pass(),
    }
}

/// The branch to go to where none is named. JSON output takes a named
/// branch. A single worktree beside the main one is taken without asking,
/// unless a choice is asked for. Else the user chooses, which takes a
/// terminal.
pub open spec fn resolve_interactive_branch_flow(
    repo: Seq<char>,
    interactive: bool,
    fmt: NavigationFormat,
    ambient: Ambient,
    replies: Seq<ReplyView>,
    from: nat,
) -> StepView<SelectionView> {
    if fmt == NavigationFormat::Json {
        StepView::Fail(AppErrorView::usage("branch argument is required with --json"@), from)
    } else {
        match list_worktrees_flow(repo, replies, from) {
            StepView::Done(worktrees, at) => {
                let candidates = non_main(worktrees);
                if candidates.len() == 0 {
                    StepView::Fail(
                        AppErrorView::usage("no worktrees to select (create one with `wt add`)"@),
                        at,
                    )
                } else if !interactive && candidates.len() == 1 {
                    match candidates[0].branch {
                        Some(branch) => StepView::Done(SelectionView::Branch(branch), at),
                        None => StepView::Fail(
                            AppErrorView::usage("worktree has no branch (detached HEAD)"@),
                            at,
                        ),
                    }
                } else if !ambient.stdin_is_terminal {
                    StepView::Fail(
                        AppErrorView::usage(
                            "no branch specified; interactive mode requires a terminal"@,
                        ),
                        at,
                    )
                } else {
                    pick_flow(worktrees, true, "Select worktree"@, 1, replies, at)
                }
            },
            other => other.pass(),
        }
    }
}

/// Resolve the branch to go to where none is named.
pub fn resolve_interactive_branch(
    repo: &RepoRoot,
    interactive: bool,
    fmt: NavigationFormat,
    ambient: &Ambient,
    replies: &Vec<Reply>,
    from: usize,
) -> (r: Step<Selection>)
    ensures
        r.deep_view() == resolve_interactive_branch_flow(
            repo@,
            interactive,
            fmt,
            *ambient,
            replies.deep_view(),
            from as nat,
        ),
{
    match fmt {
        NavigationFormat::Json => {
            return Step::Fail(
                AppError::usage("branch argument is required with --json".to_owned()),
                from,
            );
        },
        _ => {},
    }
    let (worktrees, at) = match crate::git::list_worktrees(repo, replies, from) {
        Step::Done(v, at) => (v, at),
        other => {
            return other.pass();
        },
    };
    let found = candidates(&worktrees);
    if found.len() == 0 {
        return Step::Fail(
            AppError::usage("no worktrees to select (create one with `wt add`)".to_owned()),
            at,
        );
    }
    if !interactive && found.len() == 1 {
        return match &found[0].branch {
            Some(branch) => Step::Done(Selection::Branch(BranchName::new(branch.as_str())), at),
            None => Step::Fail(
                AppError::usage("worktree has no branch (detached HEAD)".to_owned()),
                at,
            ),
        };
    }
    if !ambient.stdin_is_terminal {
        return Step::Fail(
            AppError::usage(
                "no branch specified; interactive mode requires a terminal".to_owned(),
            ),
            at,
        );
    }
    pick_worktree(&worktrees, true, "Select worktree", 1, replies, at)
}

/// The branch that the go command is about.
pub open spec fn go_branch_flow(
    branch: Option<Seq<char>>,
    repo: Seq<char>,
    interactive: bool,
    fmt: NavigationFormat,
    ambient: Ambient,
    replies: Seq<ReplyView>,
    from: nat,
) -> StepView<SelectionView> {
    match branch {
        Some(name) => StepView::Done(SelectionView::Branch(name), from),
        None => resolve_interactive_branch_flow(repo, interactive, fmt, ambient, replies, from),
    }
}

/// The position of the first of the offered worktrees, from `i` on, that
/// holds `dir`.
pub open spec fn first_holding(offered: Seq<WorktreeView>, dir: Seq<char>, i: nat) -> Option<nat>
    decreases offered.len() - i,
{
    if i >= offered.len() {
        None
    } else if is_within(dir, offered[i as int].path) {
        Some(i)
    } else {
        first_holding(offered, dir, i + 1)
    }
}

/// The item that a choice among worktrees to remove begins at: the first
/// worktree that holds the current directory, else the first of all.
pub open spec fn preselected(offered: Seq<WorktreeView>, cwd: WorkingDir) -> usize {
    match cwd {
        WorkingDir::At(dir) => match first_holding(offered, dir@, 0) {
            Some(k) => k as usize,
            None => 0,
        },
        WorkingDir::Unknown(_) => 0,
    }
}

fn find_holding(offered: &Vec<Worktree>, dir: &str) -> (r: Option<usize>)
    ensures
        match r {
            Some(k) => first_holding(offered.deep_view(), dir@, 0) == Some(k as nat),
            None => first_holding(offered.deep_view(), dir@, 0) is None,
        },
{
    let mut i: usize = 0;
    while i < offered.len()
        invariant
            i <= offered.len(),
            first_holding(offered.deep_view(), dir@, 0) == first_holding(
                offered.deep_view(),
                dir@,
                i as nat,
            ),
        decreases offered.len() - i,
    {
        if path_is_within(dir, offered[i].path.as_str()) {
            return Some(i);
        }
        i += 1;
    }
    None
}

fn preselect(offered: &Vec<Worktree>, cwd: &WorkingDir) -> (r: usize)
    ensures
        r == preselected(offered.deep_view(), *cwd),
{
    match cwd {
        WorkingDir::At(dir) => match find_holding(offered, dir.as_str()) {
            Some(k) => k,
            None => 0,
        },
        WorkingDir::Unknown(_) => 0,
    }
}

/// The branch to remove where none is named. The formats for machines go by
/// the current directory, and so does a process without a terminal. Else
/// the user chooses among the worktrees but the main one.
pub open spec fn resolve_remove_branch_flow(
    repo: Seq<char>,
    fmt: RemoveFormat,
    ambient: Ambient,
    replies: Seq<ReplyView>,
    from: nat,
) -> StepView<SelectionView> {
    if fmt != RemoveFormat::Human || !ambient.stdin_is_terminal {
        StepView::Done(SelectionView::Infer, from)
    } else {
        match list_worktrees_flow(repo, replies, from) {
            StepView::Done(worktrees, at) => {
                let candidates = non_main(worktrees);
                if candidates.len() == 0 {
                    StepView::Fail(
                        AppErrorView::usage("no worktrees to remove (create one with `wt add`)"@),
                        at,
                    )
                } else {
                    pick_flow(
                        candidates,
                        false,
                        "Remove worktree"@,
                        preselected(candidates, ambient.cwd),
                        replies,
                        at,
                    )
                }
            },
            other => other.pass(),
        }
    }
}

/// Resolve the branch to remove where none is named.
pub fn resolve_remove_branch(
    repo: &RepoRoot,
    fmt: RemoveFormat,
    ambient: &Ambient,
    replies: &Vec<Reply>,
    from: usize,
) -> (r: Step<Selection>)
    ensures
        r.deep_view() == resolve_remove_branch_flow(
            repo@,
            fmt,
            *ambient,
            replies.deep_view(),
            from as nat,
        ),
{
    match fmt {
        RemoveFormat::Human => {},
        _ => {
            return Step::Done(Selection::Infer, from);
        },
    }
    if !ambient.stdin_is_terminal {
        return Step::Done(Selection::Infer, from);
    }
    let (worktrees, at) = match crate::git::list_worktrees(repo, replies, from) {
        Step::Done(v, at) => (v, at),
        other => {
            return other.pass();
        },
    };
    let found = candidates(&worktrees);
    if found.len() == 0 {
        return Step::Fail(
            AppError::usage("no worktrees to remove (create one with `wt add`)".to_owned()),
            at,
        );
    }
    let default = preselect(&found, &ambient.cwd);
    pick_worktree(&found, false, "Remove worktree", default, replies, at)
}

/// The branch that the remove command is about.
pub open spec fn remove_branch_flow(
    branch: Option<Seq<char>>,
    repo: Seq<char>,
    fmt: RemoveFormat,
    ambient: Ambient,
    replies: Seq<ReplyView>,
    from: nat,
) -> StepView<SelectionView> {
    match branch {
        Some(name) => StepView::Done(SelectionView::Branch(name), from),
        None => resolve_remove_branch_flow(repo, fmt, ambient, replies, from),
    }
}

/// The named branch of a selection.
pub open spec fn named(selection: SelectionView) -> Option<Seq<char>> {
    match selection {
        SelectionView::Branch(name) => Some(name),
        _ => None,
    }
}

/// The branch that the user was asked for stands however many replies
/// follow.
pub(crate) proof fn lemma_selection_stands(
    branch: Option<Seq<char>>,
    root: Seq<char>,
    interactive: bool,
    nav: NavigationFormat,
    fmt: RemoveFormat,
    ambient: Ambient,
    replies: Seq<ReplyView>,
    longer: Seq<ReplyView>,
    from: nat,
)
    requires
        extends(longer, replies),
    ensures
        stands(
            go_branch_flow(branch, root, interactive, nav, ambient, replies, from),
            go_branch_flow(branch, root, interactive, nav, ambient, longer, from),
            from,
            replies.len(),
        ),
        stands(
            remove_branch_flow(branch, root, fmt, ambient, replies, from),
            remove_branch_flow(branch, root, fmt, ambient, longer, from),
            from,
            replies.len(),
        ),
{
    crate::git::lemma_list_worktrees_stands(root, replies, longer, from);
}

} // verus!
