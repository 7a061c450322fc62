use vstd::prelude::*;
use vstd::string::StringExecFns;
use crate::cli::Shell;
use crate::doctor::{DiagLevel, Diagnostic, DiagnosticView};
use crate::domain::{Worktree, WorktreeView};
use crate::error::{AppError, AppErrorView};
use crate::merge::{MergeResult, MergeResultView};
use crate::output::{
    json_doctor, json_list, JsonDoctorResponse, JsonDoctorResponseView, JsonListResponse,
    JsonListResponseView, JsonMergeResponse, JsonMergeResponseView, JsonPruneDryRunEntry,
    JsonPruneDryRunEntryView, JsonPruneDryRunResponse, JsonPruneDryRunResponseView,
    JsonPruneExecuteResponse, JsonPruneExecuteResponseView, JsonPrunedEntry, JsonPrunedEntryView,
    JsonResponse, JsonResponseView, JsonSkippedEntry, JsonSkippedEntryView, NavigationFormat,
    PruneFormat, RemoveFormat, StatusFormat,
};
use crate::prune::{
    IntegrationMethod, IntegrationStatus, PruneDryRun, PruneDryRunView, PruneExecuteResult,
    PruneExecuteResultView, SkippedEntryView, WorktreePruneEntry, WorktreePruneEntryView,
};
use crate::text::{
    concat2, concat3, decimal, decimal_text, pad, pad_right, same_text, truth, truth_text,
};
use crate::worktree::{
    AddResult, AddResultView, GoResult, GoResultView, RemoveResult, RemoveResultView,
};

verus! {

/// A JSON document to print.
#[derive(Debug, Clone, PartialEq, Eq)]
pub enum JsonBody {
    Response(JsonResponse),
    List(JsonListResponse),
    Doctor(JsonDoctorResponse),
    PruneDryRun(JsonPruneDryRunResponse),
    PruneExecute(JsonPruneExecuteResponse),
    Merge(JsonMergeResponse),
}

/// What a [`JsonBody`] stands for in contracts.
pub enum JsonBodyView {
    Response(JsonResponseView),
    List(JsonListResponseView),
    Doctor(JsonDoctorResponseView),
    PruneDryRun(JsonPruneDryRunResponseView),
    PruneExecute(JsonPruneExecuteResponseView),
    Merge(JsonMergeResponseView),
}

impl DeepView for JsonBody {
    type V = JsonBodyView;

    open spec fn deep_view(&self) -> JsonBodyView {
        match self {
            JsonBody::Response(r) => JsonBodyView::Response(r.deep_view()),
            JsonBody::List(r) => JsonBodyView::List(r.deep_view()),
            JsonBody::Doctor(r) => JsonBodyView::Doctor(r.deep_view()),
            JsonBody::PruneDryRun(r) => JsonBodyView::PruneDryRun(r.deep_view()),
            JsonBody::PruneExecute(r) => JsonBodyView::PruneExecute(r.deep_view()),
            JsonBody::Merge(r) => JsonBodyView::Merge(r.deep_view()),
        }
    }
}

/// One thing to print.
#[derive(Debug, Clone, PartialEq, Eq)]
pub enum Emit {
    /// A line to standard output.
    Stdout(String),
    /// A line to standard error.
    Stderr(String),
    /// A JSON document, pretty-printed, to standard output.
    Json(JsonBody),
    /// The bindings for a shell, to standard output.
    Script(Shell),
}

/// What an [`Emit`] stands for in contracts.
pub enum EmitView {
    Stdout(Seq<char>),
    Stderr(Seq<char>),
    Json(JsonBodyView),
    Script(Shell),
}

impl DeepView for Emit {
    type V = EmitView;

    open spec fn deep_view(&self) -> EmitView {
        match self {
            Emit::Stdout(s) => EmitView::Stdout(s@),
            Emit::Stderr(s) => EmitView::Stderr(s@),
            Emit::Json(body) => EmitView::Json(body.deep_view()),
            Emit::Script(shell) => EmitView::Script(*shell),
        }
    }
}

/// What a command prints, in order, and the status that the process exits
/// with.
#[derive(Debug, Clone, PartialEq, Eq)]
pub struct Report {
    pub emits: Vec<Emit>,
    pub exit: u8,
}

/// What a [`Report`] stands for in contracts.
pub struct ReportView {
    pub emits: Seq<EmitView>,
    pub exit: u8,
}

impl DeepView for Report {
    type V = ReportView;

    open spec fn deep_view(&self) -> ReportView {
        ReportView { emits: self.emits.deep_view(), exit: self.exit }
    }
}

/// The report of a command that succeeded and printed `emits`.
pub open spec fn success(emits: Seq<EmitView>) -> ReportView {
    ReportView { emits, exit: 0 }
}

pub(crate) fn no_emits() -> (emits: Vec<Emit>)
    ensures
        emits.deep_view() == Seq::<EmitView>::empty(),
{
    let emits: Vec<Emit> = Vec::new();
    emits
}

pub(crate) fn emit(emits: &mut Vec<Emit>, e: Emit)
    ensures
        final(emits).deep_view() == old(emits).deep_view().push(e.deep_view()),
{
    emits.push(e);
}

pub(crate) fn say(emits: &mut Vec<Emit>, line: String)
    ensures
        final(emits).deep_view() == old(emits).deep_view().push(EmitView::Stdout(line@)),
{
    emit(emits, Emit::Stdout(line));
}

pub(crate) fn warn(emits: &mut Vec<Emit>, warning: &str)
    ensures
        final(emits).deep_view() == old(emits).deep_view().push(
            EmitView::Stderr("warning: "@ + warning@),
        ),
{
    emit(emits, Emit::Stderr(concat2("warning: ", warning)));
}

pub(crate) fn succeed(emits: Vec<Emit>) -> (r: Report)
    ensures
        r.deep_view() == success(emits.deep_view()),
{
    Report { emits, exit: 0 }
}

/// The word for a way of integration.
pub open spec fn method_word(method: IntegrationMethod) -> Seq<char> {
    match method {
        IntegrationMethod::Merged => "merged"@,
        IntegrationMethod::Rebase => "rebase"@,
    }
}

/// The status of an entry in words: the status, and the way of integration
/// where it is integrated.
pub open spec fn status_words(status: IntegrationStatus) -> (Seq<char>, Option<Seq<char>>) {
    match status {
        IntegrationStatus::Integrated(method) => ("integrated"@, Some(method_word(method))),
        IntegrationStatus::NotIntegrated => ("not_integrated"@, None),
        IntegrationStatus::NoBranch => ("no_branch"@, None),
    }
}

pub(crate) fn method_text(method: IntegrationMethod) -> (r: &'static str)
    ensures
        r@ == method_word(method),
{
    match method {
        IntegrationMethod::Merged => "merged",
        IntegrationMethod::Rebase => "rebase",
    }
}

/// The status of a prune entry in words.
pub fn format_prune_entry(entry: &WorktreePruneEntry) -> (r: (String, Option<String>))
    ensures
        r.deep_view() == status_words(entry.status),
{
    match entry.status {
        IntegrationStatus::Integrated(m) => (
            "integrated".to_owned(),
            Some(method_text(m).to_owned()),
        ),
        IntegrationStatus::NotIntegrated => ("not_integrated".to_owned(), None),
        IntegrationStatus::NoBranch => ("no_branch".to_owned(), None),
    }
}

/// A branch as a line names it: `(detached)` where there is none.
pub open spec fn branch_label(branch: Option<Seq<char>>) -> Seq<char> {
    match branch {
        Some(name) => name,
        None => "(detached)"@,
    }
}

pub(crate) fn branch_text(branch: &Option<String>) -> (r: String)
    ensures
        r@ == branch_label(branch.deep_view()),
{
    match branch {
        Some(name) => name.clone(),
        None => "(detached)".to_owned(),
    }
}

/// The mark behind the main worktree.
pub open spec fn main_tag(is_main: bool) -> Seq<char> {
    if is_main {
        " [main]"@
    } else {
        ""@
    }
}

/// The line of a worktree in the list: its path in 50 columns, its branch
/// in 20, its commit, and the mark of the main worktree.
pub open spec fn list_line(wt: WorktreeView) -> Seq<char> {
    pad(wt.path, 50) + " "@ + pad(branch_label(wt.branch), 20) + " "@ + wt.commit + main_tag(
        wt.is_main,
    )
}

/// What the list command prints.
pub open spec fn list_emits(worktrees: Seq<WorktreeView>, fmt: StatusFormat) -> Seq<EmitView> {
    match fmt {
        StatusFormat::Json => seq![EmitView::Json(JsonBodyView::List(json_list(worktrees)))],
        StatusFormat::Human => if worktrees.len() == 0 {
            seq![EmitView::Stdout("No worktrees found."@)]
        } else {
            Seq::new(worktrees.len(), |i: int| EmitView::Stdout(list_line(worktrees[i])))
        },
    }
}

pub(crate) fn main_tag_text(is_main: bool) -> (r: &'static str)
    ensures
        r@ == main_tag(is_main),
{
    if is_main {
        " [main]"
    } else {
        ""
    }
}

/// Render the list of worktrees.
pub fn render_list(worktrees: &Vec<Worktree>, fmt: StatusFormat) -> (emits: Vec<Emit>)
    ensures
        emits.deep_view() == list_emits(worktrees.deep_view(), fmt),
{
    let mut emits = no_emits();
    match fmt {
        StatusFormat::Json => {
            let list = JsonListResponse::from_worktrees(worktrees);
            emit(&mut emits, Emit::Json(JsonBody::List(list)));
        },
        StatusFormat::Human => {
            if worktrees.len() == 0 {
                say(&mut emits, "No worktrees found.".to_owned());
                return emits;
            }
            let mut i: usize = 0;
            while i < worktrees.len()
                invariant
                    i <= worktrees.len(),
                    emits.deep_view() == Seq::new(
                        i as nat,
                        |k: int| EmitView::Stdout(list_line(worktrees.deep_view()[k])),
                    ),
                decreases worktrees.len() - i,
            {
                let wt = &worktrees[i];
                let mut line = pad_right(wt.path.as_str(), 50);
                line.append(" ");
                line.append(pad_right(branch_text(&wt.branch).as_str(), 20).as_str());
                line.append(" ");
                line.append(wt.commit.as_str());
                line.append(main_tag_text(wt.is_main));
                say(&mut emits, line);
                i += 1;
            }
        },
    }
    emits
}

/// What a command prints that produces a path to go to: the bare path, or a
/// JSON response with the path, the root and the branch, or a line of text.
pub open spec fn navigation_emits(
    fmt: NavigationFormat,
    json_message: Seq<char>,
    human_line: Seq<char>,
    path: Seq<char>,
    root: Seq<char>,
    branch: Seq<char>,
) -> Seq<EmitView> {
    match fmt {
        NavigationFormat::CdPath => seq![EmitView::Stdout(path)],
        NavigationFormat::Json => seq![
            EmitView::Json(
                JsonBodyView::Response(
                    JsonResponseView {
                        ok: true,
                        message: json_message,
                        repo_root: Some(root),
                        worktree_path: Some(path),
                        cd_path: Some(path),
                        removed_path: None,
                        branch: Some(branch),
                    },
                ),
            ),
        ],
        NavigationFormat::Human => seq![EmitView::Stdout(human_line)],
    }
}

fn render_navigation(
    fmt: NavigationFormat,
    json_message: String,
    human_line: String,
    path: &str,
    root: &str,
    branch: &str,
) -> (emits: Vec<Emit>)
    ensures
        emits.deep_view() == navigation_emits(
            fmt,
            json_message@,
            human_line@,
            path@,
            root@,
            branch@,
        ),
{
    let mut emits = no_emits();
    match fmt {
        NavigationFormat::CdPath => {
            say(&mut emits, path.to_owned());
        },
        NavigationFormat::Json => {
            let resp = JsonResponse::success(json_message.as_str()).with_repo_root(
                root,
            ).with_worktree_path(path).with_cd_path(path).with_branch(branch);
            emit(&mut emits, Emit::Json(JsonBody::Response(resp)));
        },
        NavigationFormat::Human => {
            say(&mut emits, human_line);
        },
    }
    emits
}

/// What the add command prints.
pub open spec fn add_emits(added: AddResultView, fmt: NavigationFormat) -> Seq<EmitView> {
    navigation_emits(
        fmt,
        "created worktree for branch '"@ + added.branch + "'"@,
        "Created worktree for branch '"@ + added.branch + "' at "@ + added.worktree_path,
        added.worktree_path,
        added.repo_root,
        added.branch,
    )
}

/// Render the result of the add command.
pub fn render_add(added: &AddResult, fmt: NavigationFormat) -> (emits: Vec<Emit>)
    ensures
        emits.deep_view() == add_emits(added.deep_view(), fmt),
{
    let branch = added.branch.as_str();
    let mut human = concat3("Created worktree for branch '", branch, "' at ");
    human.append(added.worktree_path.as_str());
    render_navigation(
        fmt,
        concat3("created worktree for branch '", branch, "'"),
        human,
        added.worktree_path.as_str(),
        added.repo_root.as_str(),
        branch,
    )
}

/// What the go command prints.
pub open spec fn go_emits(found: GoResultView, fmt: NavigationFormat) -> Seq<EmitView> {
    navigation_emits(
        fmt,
        "resolved worktree for branch '"@ + found.branch + "'"@,
        "Worktree for branch '"@ + found.branch + "' is at "@ + found.worktree_path,
        found.worktree_path,
        found.repo_root,
        found.branch,
    )
}

/// Render the result of the go command.
pub fn render_go(found: &GoResult, fmt: NavigationFormat) -> (emits: Vec<Emit>)
    ensures
        emits.deep_view() == go_emits(found.deep_view(), fmt),
{
    let branch = found.branch.as_str();
    let mut human = concat3("Worktree for branch '", branch, "' is at ");
    human.append(found.worktree_path.as_str());
    render_navigation(
        fmt,
        concat3("resolved worktree for branch '", branch, "'"),
        human,
        found.worktree_path.as_str(),
        found.repo_root.as_str(),
        branch,
    )
}

/// The warnings as lines for standard error, each behind `warning: `.
pub open spec fn warning_emits(warnings: Seq<Seq<char>>) -> Seq<EmitView> {
    Seq::new(warnings.len(), |i: int| EmitView::Stderr("warning: "@ + warnings[i]))
}

pub(crate) fn warn_all(emits: &mut Vec<Emit>, warnings: &Vec<String>)
    ensures
        final(emits).deep_view() == old(emits).deep_view() + warning_emits(warnings.deep_view()),
{
    let ghost before = emits.deep_view();
    let mut i: usize = 0;
    while i < warnings.len()
        invariant
            i <= warnings.len(),
            emits.deep_view() == before + warning_emits(warnings.deep_view().take(i as int)),
        decreases warnings.len() - i,
    {
        warn(emits, warnings[i].as_str());
        i += 1;
    }
}

/// The warning of a removal as lines for standard error.
pub open spec fn warning_of(warning: Option<Seq<char>>) -> Seq<EmitView> {
    match warning {
        Some(text) => seq![EmitView::Stderr("warning: "@ + text)],
        None => Seq::empty(),
    }
}

/// What the remove command prints: the result in the format asked for, and
/// then the warning, if there is one.
pub open spec fn remove_emits(removed: RemoveResultView, fmt: RemoveFormat) -> Seq<EmitView> {
    (match fmt {
        RemoveFormat::PrintPaths => seq![
            EmitView::Stdout(removed.removed_path),
            EmitView::Stdout(removed.repo_root),
            EmitView::Stdout(removed.branch),
        ],
        RemoveFormat::Json => seq![
            EmitView::Json(
                JsonBodyView::Response(
                    JsonResponseView {
                        ok: true,
                        message: "removed worktree for branch '"@ + removed.branch + "'"@,
                        repo_root: Some(removed.repo_root),
                        worktree_path: None,
                        cd_path: None,
                        removed_path: Some(removed.removed_path),
                        branch: Some(removed.branch),
                    },
                ),
            ),
        ],
        RemoveFormat::Human => seq![
            EmitView::Stdout(
                "Removed worktree and branch '"@ + removed.branch + "' ("@ + removed.removed_path
                    + ")"@,
            ),
        ],
    }) + warning_of(removed.warning)
}

/// Render the result of the remove command.
pub fn render_remove(removed: &RemoveResult, fmt: RemoveFormat) -> (emits: Vec<Emit>)
    ensures
        emits.deep_view() == remove_emits(removed.deep_view(), fmt),
{
    let mut emits = no_emits();
    let branch = removed.branch.as_str();
    match fmt {
        RemoveFormat::PrintPaths => {
            say(&mut emits, removed.removed_path.clone());
            say(&mut emits, removed.repo_root.clone());
            say(&mut emits, branch.to_owned());
        },
        RemoveFormat::Json => {
            let resp = JsonResponse::success(
                concat3("removed worktree for branch '", branch, "'").as_str(),
            ).with_repo_root(removed.repo_root.as_str()).with_removed_path(
                removed.removed_path.as_str(),
            ).with_branch(branch);
            emit(&mut emits, Emit::Json(JsonBody::Response(resp)));
        },
        RemoveFormat::Human => {
            let mut line = concat3("Removed worktree and branch '", branch, "' (");
            line.append(removed.removed_path.as_str());
            line.append(")");
            say(&mut emits, line);
        },
    }
    if let Some(w) = &removed.warning {
        warn(&mut emits, w.as_str());
    }
    emits
}

/// How many of the entries are integrated.
pub open spec fn integrated_count(entries: Seq<WorktreePruneEntryView>) -> nat
    decreases entries.len(),
{
    if entries.len() == 0 {
        0
    } else if entries.last().status is Integrated {
        integrated_count(entries.drop_last()) + 1
    } else {
        integrated_count(entries.drop_last())
    }
}

proof fn lemma_integrated_count_bound(entries: Seq<WorktreePruneEntryView>)
    ensures
        integrated_count(entries) <= entries.len(),
    decreases entries.len(),
{
    if entries.len() > 0 {
        lemma_integrated_count_bound(entries.drop_last());
    }
}

/// Count the entries that are integrated.
pub fn count_integrated(entries: &Vec<WorktreePruneEntry>) -> (n: usize)
    ensures
        n == integrated_count(entries.deep_view()),
{
    let mut n: usize = 0;
    let mut i: usize = 0;
    while i < entries.len()
        invariant
            i <= entries.len(),
            n <= i,
            n == integrated_count(entries.deep_view().take(i as int)),
        decreases entries.len() - i,
    {
        proof {
            let sofar = entries.deep_view().take(i + 1);
            assert(sofar.drop_last() =~= entries.deep_view().take(i as int));
        }
        match entries[i].status {
            IntegrationStatus::Integrated(_) => {
                n += 1;
            },
            _ => {},
        }
        i += 1;
    }
    assert(entries.deep_view().take(entries.len() as int) =~= entries.deep_view());
    n
}

/// The name of an entry in a line of text.
pub open spec fn entry_name(branch: Option<Seq<char>>) -> Seq<char> {
    match branch {
        Some(name) => name,
        None => "(unknown)"@,
    }
}

/// The line of an entry in a dry run.
pub open spec fn dry_run_line(entry: WorktreePruneEntryView) -> Seq<char> {
    match entry.status {
        IntegrationStatus::Integrated(method) => "  ✓ "@ + pad(entry_name(entry.branch), 20)
            + " integrated ("@ + method_word(method) + ")"@,
        IntegrationStatus::NotIntegrated => "  ✗ "@ + pad(entry_name(entry.branch), 20)
            + " not integrated"@,
        IntegrationStatus::NoBranch => "  ⚠ "@ + pad("(detached)"@, 20)
            + " no branch (detached HEAD)"@,
    }
}

/// The ending of a word for a count: none for one, `s` for any other.
pub open spec fn plural(n: nat) -> Seq<char> {
    if n == 1 {
        ""@
    } else {
        "s"@
    }
}

/// The last line of a dry run.
pub open spec fn dry_run_summary(entries: Seq<WorktreePruneEntryView>) -> Seq<char> {
    let prunable = integrated_count(entries);
    if entries.len() == 0 {
        "\nNo worktrees to prune."@
    } else if prunable == 0 {
        "\nNo integrated worktrees found."@
    } else {
        "\n"@ + decimal(prunable) + " integrated worktree"@ + plural(prunable)
            + " can be pruned. Run with --execute to remove."@
    }
}

/// The entry of a dry-run response for an entry.
pub open spec fn json_dry_run_entry(entry: WorktreePruneEntryView) -> JsonPruneDryRunEntryView {
    JsonPruneDryRunEntryView {
        branch: entry.branch,
        status: status_words(entry.status).0,
        method: status_words(entry.status).1,
        path: entry.path,
    }
}

/// What a prune dry run prints.
pub open spec fn dry_run_emits(dry_run: PruneDryRunView, fmt: PruneFormat) -> Seq<EmitView> {
    match fmt {
        PruneFormat::Json => seq![
            EmitView::Json(
                JsonBodyView::PruneDryRun(
                    JsonPruneDryRunResponseView {
                        ok: true,
                        mainline: dry_run.mainline,
                        worktrees: Seq::new(
                            dry_run.entries.len(),
                            |i: int| json_dry_run_entry(dry_run.entries[i]),
                        ),
                        prunable: integrated_count(dry_run.entries) as usize,
                    },
                ),
            ),
        ],
        PruneFormat::Human => seq![EmitView::Stdout("Mainline: "@ + dry_run.mainline)] + Seq::new(
            dry_run.entries.len(),
            |i: int| EmitView::Stdout(dry_run_line(dry_run.entries[i])),
        ) + seq![EmitView::Stdout(dry_run_summary(dry_run.entries))],
    }
}

fn plural_text(n: usize) -> (r: &'static str)
    ensures
        r@ == plural(n as nat),
{
    if n == 1 {
        ""
    } else {
        "s"
    }
}

fn entry_name_text(branch: &Option<String>) -> (r: String)
    ensures
        r@ == entry_name(branch.deep_view()),
{
    match branch {
        Some(name) => name.clone(),
        None => "(unknown)".to_owned(),
    }
}

/// The line of an entry in a dry run.
pub fn print_prune_entry_human(entry: &WorktreePruneEntry) -> (line: String)
    ensures
        line@ == dry_run_line(entry.deep_view()),
{
    match entry.status {
        IntegrationStatus::Integrated(method) => {
            let mut line = concat2(
                "  ✓ ",
                pad_right(entry_name_text(&entry.branch).as_str(), 20).as_str(),
            );
            line.append(" integrated (");
            line.append(method_text(method));
            line.append(")");
            line
        },
        IntegrationStatus::NotIntegrated => concat3(
            "  ✗ ",
            pad_right(entry_name_text(&entry.branch).as_str(), 20).as_str(),
            " not integrated",
        ),
        IntegrationStatus::NoBranch => concat3(
            "  ⚠ ",
            pad_right("(detached)", 20).as_str(),
            " no branch (detached HEAD)",
        ),
    }
}

/// Render the result of a prune dry run.
pub fn render_prune_dry_run(dry_run: &PruneDryRun, fmt: PruneFormat) -> (emits: Vec<Emit>)
    ensures
        emits.deep_view() == dry_run_emits(dry_run.deep_view(), fmt),
{
    let prunable = count_integrated(&dry_run.entries);
    let mut emits = no_emits();
    match fmt {
        PruneFormat::Json => {
            let mut entries: Vec<JsonPruneDryRunEntry> = Vec::new();
            let mut i: usize = 0;
            while i < dry_run.entries.len()
                invariant
                    i <= dry_run.entries.len(),
                    entries.len() == i,
                    forall|j: int|
                        0 <= j < i ==> (#[trigger] entries@[j]).deep_view() == json_dry_run_entry(
                            dry_run.entries@[j].deep_view(),
                        ),
                decreases dry_run.entries.len() - i,
            {
                let e = &dry_run.entries[i];
                let (status, method) = format_prune_entry(e);
                entries.push(
                    JsonPruneDryRunEntry {
                        branch: e.branch.clone(),
                        status,
                        method,
                        path: e.path.clone(),
                    },
                );
                i += 1;
            }
            assert(entries.deep_view() =~= Seq::new(
                dry_run.deep_view().entries.len(),
                |i: int| json_dry_run_entry(dry_run.deep_view().entries[i]),
            ));
            emit(
                &mut emits,
                Emit::Json(
                    JsonBody::PruneDryRun(
                        JsonPruneDryRunResponse {
                            ok: true,
                            mainline: dry_run.mainline.clone(),
                            worktrees: entries,
                            prunable,
                        },
                    ),
                ),
            );
        },
        PruneFormat::Human => {
            say(&mut emits, concat2("Mainline: ", dry_run.mainline.as_str()));
            let ghost head = emits.deep_view();
            let mut i: usize = 0;
            while i < dry_run.entries.len()
                invariant
                    i <= dry_run.entries.len(),
                    emits.deep_view() == head + Seq::new(
                        i as nat,
                        |k: int| EmitView::Stdout(dry_run_line(dry_run.deep_view().entries[k])),
                    ),
                decreases dry_run.entries.len() - i,
            {
                say(&mut emits, print_prune_entry_human(&dry_run.entries[i]));
                i += 1;
            }
            let summary = if dry_run.entries.len() == 0 {
                "\nNo worktrees to prune.".to_owned()
            } else if prunable == 0 {
                "\nNo integrated worktrees found.".to_owned()
            } else {
                let mut line = concat3(
                    "\n",
                    decimal_text(prunable).as_str(),
                    " integrated worktree",
                );
                line.append(plural_text(prunable));
                line.append(" can be pruned. Run with --execute to remove.");
                line
            };
            say(&mut emits, summary);
        },
    }
    emits
}

/// A reason for skipping an entry, in words.
pub open spec fn reason_words(reason: Seq<char>) -> Seq<char> {
    if reason == "not_integrated"@ {
        "not integrated"@
    } else if reason == "no_branch"@ {
        "no branch"@
    } else if reason == "removal_failed"@ {
        "removal failed"@
    } else {
        reason
    }
}

/// The line of a skipped entry.
pub open spec fn skipped_line(entry: SkippedEntryView) -> Seq<char> {
    "  Skipped "@ + branch_label(entry.branch) + " ("@ + reason_words(entry.reason) + ")"@
}

/// The last line of a prune.
pub open spec fn prune_summary(count: nat) -> Seq<char> {
    if count == 0 {
        "\nNo worktrees pruned."@
    } else {
        "\nPruned "@ + decimal(count) + " worktree"@ + plural(count) + "."@
    }
}

/// What a prune prints.
pub open spec fn prune_emits(result: PruneExecuteResultView, fmt: PruneFormat) -> Seq<EmitView> {
    match fmt {
        PruneFormat::Json => seq![
            EmitView::Json(
                JsonBodyView::PruneExecute(
                    JsonPruneExecuteResponseView {
                        ok: true,
                        mainline: result.mainline,
                        pruned: Seq::new(
                            result.pruned.len(),
                            |i: int|
                                JsonPrunedEntryView {
                                    branch: result.pruned[i].branch,
                                    path: result.pruned[i].path,
                                },
                        ),
                        skipped: Seq::new(
                            result.skipped.len(),
                            |i: int|
                                JsonSkippedEntryView {
                                    branch: result.skipped[i].branch,
                                    reason: result.skipped[i].reason,
                                    path: result.skipped[i].path,
                                },
                        ),
                        warnings: result.warnings,
                    },
                ),
            ),
        ],
        PruneFormat::Human => seq![EmitView::Stdout("Mainline: "@ + result.mainline)] + Seq::new(
            result.pruned.len(),
            |i: int| EmitView::Stdout("  Removed "@ + result.pruned[i].branch),
        ) + Seq::new(
            result.skipped.len(),
            |i: int| EmitView::Stdout(skipped_line(result.skipped[i])),
        ) + warning_emits(result.warnings) + seq![
            EmitView::Stdout(prune_summary(result.pruned.len())),
        ],
    }
}

fn reason_text(reason: &str) -> (r: String)
    ensures
        r@ == reason_words(reason@),
{
    if same_text(reason, "not_integrated") {
        "not integrated".to_owned()
    } else if same_text(reason, "no_branch") {
        "no branch".to_owned()
    } else if same_text(reason, "removal_failed") {
        "removal failed".to_owned()
    } else {
        reason.to_owned()
    }
}

fn copy_texts(texts: &Vec<String>) -> (r: Vec<String>)
    ensures
        r.deep_view() == texts.deep_view(),
{
    let mut r: Vec<String> = Vec::new();
    let mut i: usize = 0;
    while i < texts.len()
        invariant
            i <= texts.len(),
            r.len() == i,
            forall|j: int| 0 <= j < i ==> (#[trigger] r@[j])@ == texts@[j]@,
        decreases texts.len() - i,
    {
        r.push(texts[i].clone());
        i += 1;
    }
    r
}

/// Render the result of a prune.
pub fn render_prune_execute(result: &PruneExecuteResult, fmt: PruneFormat) -> (emits: Vec<Emit>)
    ensures
        emits.deep_view() == prune_emits(result.deep_view(), fmt),
{
    let mut emits = no_emits();
    let ghost view = result.deep_view();
    match fmt {
        PruneFormat::Json => {
            let mut pruned: Vec<JsonPrunedEntry> = Vec::new();
            let mut i: usize = 0;
            while i < result.pruned.len()
                invariant
                    i <= result.pruned.len(),
                    pruned.len() == i,
                    forall|j: int|
                        0 <= j < i ==> (#[trigger] pruned@[j]).deep_view() == (JsonPrunedEntryView {
                            branch: result.pruned@[j].branch@,
                            path: result.pruned@[j].path@,
                        }),
                decreases result.pruned.len() - i,
            {
                let e = &result.pruned[i];
                pruned.push(JsonPrunedEntry { branch: e.branch.clone(), path: e.path.clone() });
                i += 1;
            }
            let mut skipped: Vec<JsonSkippedEntry> = Vec::new();
            let mut k: usize = 0;
            while k < result.skipped.len()
                invariant
                    k <= result.skipped.len(),
                    skipped.len() == k,
                    forall|j: int|
                        0 <= j < k ==> (#[trigger] skipped@[j]).deep_view() == (
                        JsonSkippedEntryView {
                            branch: result.skipped@[j].branch.deep_view(),
                            reason: result.skipped@[j].reason@,
                            path: result.skipped@[j].path@,
                        }),
                decreases result.skipped.len() - k,
            {
                let e = &result.skipped[k];
                skipped.push(
                    JsonSkippedEntry {
                        branch: e.branch.clone(),
                        reason: e.reason.clone(),
                        path: e.path.clone(),
                    },
                );
                k += 1;
            }
            assert(pruned.deep_view() =~= Seq::new(
                view.pruned.len(),
                |i: int|
                    JsonPrunedEntryView {
                        branch: view.pruned[i].branch,
                        path: view.pruned[i].path,
                    },
            ));
            assert(skipped.deep_view() =~= Seq::new(
                view.skipped.len(),
                |i: int|
                    JsonSkippedEntryView {
                        branch: view.skipped[i].branch,
                        reason: view.skipped[i].reason,
                        path: view.skipped[i].path,
                    },
            ));
            emit(
                &mut emits,
                Emit::Json(
                    JsonBody::PruneExecute(
                        JsonPruneExecuteResponse {
                            ok: true,
                            mainline: result.mainline.clone(),
                            pruned,
                            skipped,
                            warnings: copy_texts(&result.warnings),
                        },
                    ),
                ),
            );
        },
        PruneFormat::Human => {
            say(&mut emits, concat2("Mainline: ", result.mainline.as_str()));
            let ghost head = emits.deep_view();
            let mut i: usize = 0;
            while i < result.pruned.len()
                invariant
                    i <= result.pruned.len(),
                    view == result.deep_view(),
                    emits.deep_view() == head + Seq::new(
                        i as nat,
                        |k: int| EmitView::Stdout("  Removed "@ + view.pruned[k].branch),
                    ),
                decreases result.pruned.len() - i,
            {
                say(&mut emits, concat2("  Removed ", result.pruned[i].branch.as_str()));
                i += 1;
            }
            let ghost removed = emits.deep_view();
            let mut k: usize = 0;
            while k < result.skipped.len()
                invariant
                    k <= result.skipped.len(),
                    view == result.deep_view(),
                    emits.deep_view() == removed + Seq::new(
                        k as nat,
                        |j: int| EmitView::Stdout(skipped_line(view.skipped[j])),
                    ),
                decreases result.skipped.len() - k,
            {
                let e = &result.skipped[k];
                let mut line = concat3("  Skipped ", branch_text(&e.branch).as_str(), " (");
                line.append(reason_text(e.reason.as_str()).as_str());
                line.append(")");
                say(&mut emits, line);
                k += 1;
            }
            warn_all(&mut emits, &result.warnings);
            let count = result.pruned.len();
            let summary = if count == 0 {
                "\nNo worktrees pruned.".to_owned()
            } else {
                let mut line = concat3("\nPruned ", decimal_text(count).as_str(), " worktree");
                line.append(plural_text(count));
                line.append(".");
                line
            };
            say(&mut emits, summary);
        },
    }
    emits
}

/// The sign of a diagnostic.
pub open spec fn level_sign(level: DiagLevel) -> Seq<char> {
    match level {
        DiagLevel::Okay => "✓"@,
        DiagLevel::Warn => "⚠"@,
        DiagLevel::Error => "✗"@,
    }
}

/// What the doctor command prints.
pub open spec fn doctor_emits(diags: Seq<DiagnosticView>, fmt: StatusFormat) -> Seq<EmitView> {
    match fmt {
        StatusFormat::Json => seq![EmitView::Json(JsonBodyView::Doctor(json_doctor(diags)))],
        StatusFormat::Human => Seq::new(
            diags.len(),
            |i: int| EmitView::Stdout(level_sign(diags[i].level) + " "@ + diags[i].message),
        ),
    }
}

/// Render the diagnostics.
pub fn render_doctor(diags: &Vec<Diagnostic>, fmt: StatusFormat) -> (emits: Vec<Emit>)
    ensures
        emits.deep_view() == doctor_emits(diags.deep_view(), fmt),
{
    let mut emits = no_emits();
    match fmt {
        StatusFormat::Json => {
            let doc = JsonDoctorResponse::from_diagnostics(diags);
            emit(&mut emits, Emit::Json(JsonBody::Doctor(doc)));
        },
        StatusFormat::Human => {
            let mut i: usize = 0;
            while i < diags.len()
                invariant
                    i <= diags.len(),
                    emits.deep_view() == Seq::new(
                        i as nat,
                        |k: int|
                            EmitView::Stdout(
                                level_sign(diags.deep_view()[k].level) + " "@
                                    + diags.deep_view()[k].message,
                            ),
                    ),
                decreases diags.len() - i,
            {
                let d = &diags[i];
                let sign = match d.level {
                    DiagLevel::Okay => "✓",
                    DiagLevel::Warn => "⚠",
                    DiagLevel::Error => "✗",
                };
                say(&mut emits, concat3(sign, " ", d.message.as_str()));
                i += 1;
            }
        },
    }
    emits
}

/// The line that tells that the worktree and the branch were removed after
/// a merge, where they were.
pub open spec fn cleanup_line(merged: MergeResultView) -> Seq<EmitView> {
    if merged.cleaned_up {
        seq![EmitView::Stdout("Removed worktree and branch '"@ + merged.branch + "'"@)]
    } else {
        Seq::empty()
    }
}

/// The line that tells that the mainline was pushed, where it was.
pub open spec fn pushed_line(merged: MergeResultView) -> Seq<EmitView> {
    if merged.pushed {
        seq![EmitView::Stdout("Pushed "@ + merged.mainline + " to origin"@)]
    } else {
        Seq::empty()
    }
}

/// What the merge command prints: the result in the format asked for, and
/// then the warnings.
pub open spec fn merge_emits(merged: MergeResultView, fmt: RemoveFormat) -> Seq<EmitView> {
    (match fmt {
        RemoveFormat::PrintPaths => seq![
            EmitView::Stdout(merged.repo_root),
            EmitView::Stdout(merged.branch),
            EmitView::Stdout(merged.mainline),
            EmitView::Stdout(truth(merged.cleaned_up)),
            EmitView::Stdout(truth(merged.pushed)),
        ],
        RemoveFormat::Json => seq![
            EmitView::Json(
                JsonBodyView::Merge(
                    JsonMergeResponseView {
                        ok: true,
                        branch: merged.branch,
                        mainline: merged.mainline,
                        repo_root: merged.repo_root,
                        cleaned_up: merged.cleaned_up,
                        removed_path: merged.removed_path,
                        pushed: merged.pushed,
                        warnings: merged.warnings,
                    },
                ),
            ),
        ],
        RemoveFormat::Human => seq![
            EmitView::Stdout("Merged '"@ + merged.branch + "' into "@ + merged.mainline),
        ] + cleanup_line(merged) + pushed_line(merged),
    }) + warning_emits(merged.warnings)
}

/// Render the result of the merge command.
pub fn render_merge(merged: &MergeResult, fmt: RemoveFormat) -> (emits: Vec<Emit>)
    ensures
        emits.deep_view() == merge_emits(merged.deep_view(), fmt),
{
    let mut emits = no_emits();
    let branch = merged.branch.as_str();
    match fmt {
        RemoveFormat::PrintPaths => {
            say(&mut emits, merged.repo_root.clone());
            say(&mut emits, branch.to_owned());
            say(&mut emits, merged.mainline.clone());
            say(&mut emits, truth_text(merged.cleaned_up));
            say(&mut emits, truth_text(merged.pushed));
        },
        RemoveFormat::Json => {
            emit(
                &mut emits,
                Emit::Json(
                    JsonBody::Merge(
                        JsonMergeResponse {
                            ok: true,
                            branch: branch.to_owned(),
                            mainline: merged.mainline.clone(),
                            repo_root: merged.repo_root.clone(),
                            cleaned_up: merged.cleaned_up,
                            removed_path: merged.removed_path.clone(),
                            pushed: merged.pushed,
                            warnings: copy_texts(&merged.warnings),
                        },
                    ),
                ),
            );
        },
        RemoveFormat::Human => {
            let mut line = concat3("Merged '", branch, "' into ");
            line.append(merged.mainline.as_str());
            say(&mut emits, line);
            if merged.cleaned_up {
                say(&mut emits, concat3("Removed worktree and branch '", branch, "'"));
            }
            if merged.pushed {
                say(&mut emits, concat3("Pushed ", merged.mainline.as_str(), " to origin"));
            }
        },
    }
    warn_all(&mut emits, &merged.warnings);
    emits
}

/// The report of a command that the user gave up: nothing is printed, and
/// the exit status is that of an interrupt.
pub open spec fn gave_up() -> ReportView {
    ReportView { emits: Seq::empty(), exit: 130 }
}

pub(crate) fn give_up() -> (r: Report)
    ensures
        r.deep_view() == gave_up(),
{
    Report { emits: no_emits(), exit: 130 }
}

/// The report of a command that failed: the error on standard error, and
/// the exit status of its kind.
pub open spec fn failure_report(e: AppErrorView) -> ReportView {
    ReportView {
        emits: seq![EmitView::Stderr("error: "@ + e.message)],
        exit: e.code.number() as u8,
    }
}

/// What a process is to print and to exit with for an error.
pub fn report_failure(e: &AppError) -> (r: Report)
    ensures
        r.deep_view() == failure_report(e@),
{
    let mut emits = no_emits();
    emit(&mut emits, Emit::Stderr(concat2("error: ", e.message.as_str())));
    Report { emits, exit: e.code.as_u8() }
}

} // verus!
