use vstd::prelude::*;
use crate::domain::{worktrees_dir, RepoRoot, Worktree, WorktreeView};
use crate::git::list_worktrees_flow;
use crate::path::{parts, path_parts};
use crate::text::{chars_of, concat2, lines, same_chars, split_lines, text_of};
use crate::vcs::{
    answer, ask, extends, stands, Reply, ReplyView, Request, RequestView, Step, StepView,
};
use crate::worktree::{path_exists, path_exists_flow};

verus! {

/// How grave a diagnostic is.
#[derive(Debug, Clone, Copy, PartialEq, Eq, Structural)]
pub enum DiagLevel {
    /// Nothing to report.
    Okay,
    /// Something that wants attention.
    Warn,
    /// Something that is broken.
    Error,
}

/// Diagnostic from the `doctor` command.
#[derive(Debug, Clone, PartialEq, Eq)]
pub struct Diagnostic {
    pub level: DiagLevel,
    pub message: String,
}

/// What a [`Diagnostic`] stands for in contracts.
pub struct DiagnosticView {
    pub level: DiagLevel,
    pub message: Seq<char>,
}

impl DeepView for Diagnostic {
    type V = DiagnosticView;

    open spec fn deep_view(&self) -> DiagnosticView {
        DiagnosticView { level: self.level, message: self.message@ }
    }
}

/// The directories that a reply names, one on each line; none where the
/// request failed.
pub open spec fn subdirectories(reply: ReplyView) -> Seq<Seq<char>> {
    match reply {
        ReplyView::Output(text) => lines(text),
        _ => Seq::empty(),
    }
}

/// Whether `path` is the path of one of the worktrees: the two name the
/// same parts.
pub open spec fn is_managed(worktrees: Seq<WorktreeView>, path: Seq<char>) -> bool {
    exists|i: int| 0 <= i < worktrees.len() && parts(#[trigger] worktrees[i].path) == parts(path)
}

/// The diagnostic for a directory that no worktree accounts for.
pub open spec fn orphan_diagnostic(dir: Seq<char>) -> DiagnosticView {
    DiagnosticView {
        level: DiagLevel::Warn,
        message: "orphaned directory not tracked by git: "@ + dir,
    }
}

/// The diagnostic for a worktree that is on no branch.
pub open spec fn detached_diagnostic(path: Seq<char>) -> DiagnosticView {
    DiagnosticView {
        level: DiagLevel::Warn,
        message: "worktree has no branch (detached HEAD): "@ + path,
    }
}

/// One warning for each directory that is the path of no worktree, in the
/// order of the directories.
pub open spec fn orphans(worktrees: Seq<WorktreeView>, dirs: Seq<Seq<char>>) -> Seq<DiagnosticView>
    decreases dirs.len(),
{
    if dirs.len() == 0 {
        Seq::empty()
    } else if is_managed(worktrees, dirs.last()) {
        orphans(worktrees, dirs.drop_last())
    } else {
        orphans(worktrees, dirs.drop_last()).push(orphan_diagnostic(dirs.last()))
    }
}

/// One warning for each worktree but the main one that is on no branch, in
/// the order of the catalog.
pub open spec fn detached(worktrees: Seq<WorktreeView>) -> Seq<DiagnosticView>
    decreases worktrees.len(),
{
    if worktrees.len() == 0 {
        Seq::empty()
    } else if !worktrees.last().is_main && worktrees.last().branch is None {
        detached(worktrees.drop_last()).push(detached_diagnostic(worktrees.last().path))
    } else {
        detached(worktrees.drop_last())
    }
}

/// The diagnostics for a catalog and the directories that stand under the
/// worktrees directory: the orphaned directories, then the detached
/// worktrees; a single all-clear where there is neither.
pub open spec fn diagnostics_of(worktrees: Seq<WorktreeView>, dirs: Seq<Seq<char>>) -> Seq<
    DiagnosticView,
> {
    let found = orphans(worktrees, dirs) + detached(worktrees);
    if found.len() == 0 {
        seq![DiagnosticView { level: DiagLevel::Okay, message: "all worktrees healthy"@ }]
    } else {
        found
    }
}

/// The health of the repository's worktrees: where the worktrees directory
/// does not exist, a single all-clear; else the catalog is read, then the
/// directories under the worktrees directory, and the two are compared.
pub open spec fn doctor_flow(repo: Seq<char>, replies: Seq<ReplyView>, from: nat) -> StepView<
    Seq<DiagnosticView>,
> {
    match path_exists_flow(worktrees_dir(repo), replies, from) {
        StepView::Done(false, at) => StepView::Done(
            seq![
                DiagnosticView {
                    level: DiagLevel::Okay,
                    message: "no .worktrees directory (no worktrees created yet)"@,
                },
            ],
            at,
        ),
        StepView::Done(true, at) => match list_worktrees_flow(repo, replies, at) {
            StepView::Done(worktrees, at) => match answer(
                RequestView::Subdirectories { path: worktrees_dir(repo) },
                replies,
                at,
            ) {
                StepView::Done(reply, end) => StepView::Done(
                    diagnostics_of(worktrees, subdirectories(reply)),
                    end,
                ),
                other => other.pass(),
            },
            other => other.pass(),
        },
        other => other.pass(),
    }
}

fn same_parts(a: &Vec<Vec<char>>, b: &Vec<Vec<char>>) -> (r: bool)
    ensures
        r == (a.deep_view() == b.deep_view()),
{
    if a.len() != b.len() {
        assert(a.deep_view().len() != b.deep_view().len());
        return false;
    }
    let mut i: usize = 0;
    while i < a.len()
        invariant
            i <= a.len(),
            a.len() == b.len(),
            forall|j: int| 0 <= j < i ==> a@[j]@ == b@[j]@,
        decreases a.len() - i,
    {
        if !same_chars(&a[i], &b[i]) {
            assert(a.deep_view()[i as int] =~= a@[i as int]@);
            assert(b.deep_view()[i as int] =~= b@[i as int]@);
            return false;
        }
        i += 1;
    }
    assert(a.deep_view() =~~= b.deep_view());
    true
}

fn path_is_managed(worktrees: &Vec<Worktree>, path: &str) -> (r: bool)
    ensures
        r == is_managed(worktrees.deep_view(), path@),
{
    let wanted = path_parts(path);
    let mut i: usize = 0;
    while i < worktrees.len()
        invariant
            i <= worktrees.len(),
            wanted.deep_view() == parts(path@),
            forall|j: int|
                0 <= j < i ==> parts(#[trigger] worktrees.deep_view()[j].path) != parts(path@),
        decreases worktrees.len() - i,
    {
        let have = path_parts(worktrees[i].path.as_str());
        assert(worktrees.deep_view()[i as int].path == worktrees@[i as int].path@);
        if same_parts(&have, &wanted) {
            return true;
        }
        i += 1;
    }
    false
}

/// Compare the catalog with the directories under the worktrees directory.
pub fn diagnose(worktrees: &Vec<Worktree>, dirs: &Vec<String>) -> (diags: Vec<Diagnostic>)
    ensures
        diags.deep_view() == diagnostics_of(worktrees.deep_view(), dirs.deep_view()),
{
    let mut diags: Vec<Diagnostic> = Vec::new();
    let mut i: usize = 0;
    while i < dirs.len()
        invariant
            i <= dirs.len(),
            diags.deep_view() == orphans(worktrees.deep_view(), dirs.deep_view().take(i as int)),
        decreases dirs.len() - i,
    {
        proof {
            let sofar = dirs.deep_view().take(i + 1);
            assert(sofar.drop_last() =~= dirs.deep_view().take(i as int));
        }
        if !path_is_managed(worktrees, dirs[i].as_str()) {
            let ghost before = diags.deep_view();
            diags.push(
                Diagnostic {
                    level: DiagLevel::Warn,
                    message: concat2("orphaned directory not tracked by git: ", dirs[i].as_str()),
                },
            );
        }
        i += 1;
    }
    assert(dirs.deep_view().take(dirs.len() as int) =~= dirs.deep_view());
    let ghost first = diags.deep_view();
    let mut k: usize = 0;
    while k < worktrees.len()
        invariant
            k <= worktrees.len(),
            first == orphans(worktrees.deep_view(), dirs.deep_view()),
            diags.deep_view() == first + detached(worktrees.deep_view().take(k as int)),
        decreases worktrees.len() - k,
    {
        proof {
            let sofar = worktrees.deep_view().take(k + 1);
            assert(sofar.drop_last() =~= worktrees.deep_view().take(k as int));
        }
        let wt = &worktrees[k];
        if !wt.is_main && wt.branch.is_none() {
            let ghost before = diags.deep_view();
            diags.push(
                Diagnostic {
                    level: DiagLevel::Warn,
                    message: concat2("worktree has no branch (detached HEAD): ", wt.path.as_str()),
                },
            );
            assert(before.push(detached_diagnostic(wt.path@)) =~= first + detached(
                worktrees.deep_view().take(k as int),
            ).push(detached_diagnostic(wt.path@)));
        }
        k += 1;
    }
    assert(worktrees.deep_view().take(worktrees.len() as int) =~= worktrees.deep_view());
    if diags.len() == 0 {
        diags.push(
            Diagnostic { level: DiagLevel::Okay, message: "all worktrees healthy".to_owned() },
        );
    }
    diags
}

/// The lines of a text, each as a string.
pub fn text_lines(text: &str) -> (out: Vec<String>)
    ensures
        out.deep_view() == lines(text@),
{
    let all = split_lines(&chars_of(text));
    let mut out: Vec<String> = Vec::new();
    let mut i: usize = 0;
    while i < all.len()
        invariant
            i <= all.len(),
            all.deep_view() == lines(text@),
            out.deep_view() == all.deep_view().take(i as int),
        decreases all.len() - i,
    {
        let ghost before = out.deep_view();
        out.push(text_of(&all[i]));
        assert(all.deep_view().take(i + 1) =~~= before.push(all@[i as int]@));
        i += 1;
    }
    out
}

/// Run health diagnostics on the repository's worktree state.
pub fn doctor(repo: &RepoRoot, replies: &Vec<Reply>, from: usize) -> (r: Step<Vec<Diagnostic>>)
    ensures
        r.deep_view() == doctor_flow(repo@, replies.deep_view(), from as nat),
{
    let wt_dir = repo.worktrees_dir();
    let (exists, at) = match path_exists(wt_dir.as_str(), replies, from) {
        Step::Done(v, at) => (v, at),
        other => {
            return other.pass();
        },
    };
    if !exists {
        let mut diags: Vec<Diagnostic> = Vec::new();
        diags.push(
            Diagnostic {
                level: DiagLevel::Okay,
                message: "no .worktrees directory (no worktrees created yet)".to_owned(),
            },
        );
        assert(diags.deep_view() =~= seq![
            DiagnosticView {
                level: DiagLevel::Okay,
                message: "no .worktrees directory (no worktrees created yet)"@,
            },
        ]);
        return Step::Done(diags, at);
    }
    let (worktrees, at) = match crate::git::list_worktrees(repo, replies, at) {
        Step::Done(v, at) => (v, at),
        other => {
            return other.pass();
        },
    };
    let (reply, end) = match ask(Request::Subdirectories { path: wt_dir }, replies, at) {
        Step::Done(reply, end) => (reply, end),
        other => {
            return other.pass();
        },
    };
    let dirs = match reply {
        Reply::Output(text) => text_lines(text.as_str()),
        _ => {
            let none: Vec<String> = Vec::new();
            none
        },
    };
    Step::Done(diagnose(&worktrees, &dirs), end)
}

/// The diagnostics that were made stand however many replies follow.
pub proof fn lemma_doctor_stands(
    repo: Seq<char>,
    replies: Seq<ReplyView>,
    longer: Seq<ReplyView>,
    from: nat,
)
    requires
        extends(longer, replies),
    ensures
        stands(
            doctor_flow(repo, replies, from),
            doctor_flow(repo, longer, from),
            from,
            replies.len(),
        ),
{
}

} // verus!
