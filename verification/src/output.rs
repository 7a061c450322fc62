use vstd::prelude::*;
use crate::domain::{Worktree, WorktreeView};
use crate::doctor::{DiagLevel, Diagnostic, DiagnosticView};

verus! {

/// Output format for commands that produce a path to go to (add, go).
#[derive(Debug, Clone, Copy, PartialEq, Eq, Structural)]
pub enum NavigationFormat {
    Human,
    Json,
    /// The bare path, for shell wrappers.
    CdPath,
}

/// Output format for commands that produce a status or a list (list,
/// doctor).
#[derive(Debug, Clone, Copy, PartialEq, Eq, Structural)]
pub enum StatusFormat {
    Human,
    Json,
}

/// Output format for the remove and merge commands.
#[derive(Debug, Clone, Copy, PartialEq, Eq, Structural)]
pub enum RemoveFormat {
    Human,
    Json,
    /// The facts of the result, one on each line, for shell wrappers.
    PrintPaths,
}

/// Output format for the prune command.
#[derive(Debug, Clone, Copy, PartialEq, Eq, Structural)]
pub enum PruneFormat {
    Human,
    Json,
}

/// Output format in one type for every command.
#[derive(Debug, Clone, Copy, PartialEq, Eq, Structural)]
pub enum OutputFormat {
    Human,
    Json,
    /// The bare path of the worktree.
    CdPath,
    /// The removed path and the repository root.
    RemovePaths,
}

/// JSON envelope for the response to a single operation.
#[derive(Debug, Clone, PartialEq, Eq)]
pub struct JsonResponse {
    pub ok: bool,
    pub message: String,
    pub repo_root: Option<String>,
    pub worktree_path: Option<String>,
    pub cd_path: Option<String>,
    pub removed_path: Option<String>,
    pub branch: Option<String>,
}

/// What a [`JsonResponse`] stands for in contracts.
pub struct JsonResponseView {
    pub ok: bool,
    pub message: Seq<char>,
    pub repo_root: Option<Seq<char>>,
    pub worktree_path: Option<Seq<char>>,
    pub cd_path: Option<Seq<char>>,
    pub removed_path: Option<Seq<char>>,
    pub branch: Option<Seq<char>>,
}

impl DeepView for JsonResponse {
    type V = JsonResponseView;

    open spec fn deep_view(&self) -> JsonResponseView {
        JsonResponseView {
            ok: self.ok,
            message: self.message@,
            repo_root: self.repo_root.deep_view(),
            worktree_path: self.worktree_path.deep_view(),
            cd_path: self.cd_path.deep_view(),
            removed_path: self.removed_path.deep_view(),
            branch: self.branch.deep_view(),
        }
    }
}

impl JsonResponse {
    /// A response that tells of success, with no other field set.
    pub fn success(message: &str) -> (r: Self)
        ensures
            r.deep_view() == (JsonResponseView {
                ok: true,
                message: message@,
                repo_root: None,
                worktree_path: None,
                cd_path: None,
                removed_path: None,
                branch: None,
            }),
    {
        JsonResponse {
            ok: true,
            message: message.to_owned(),
            repo_root: None,
            worktree_path: None,
            cd_path: None,
            removed_path: None,
            branch: None,
        }
    }

    pub fn with_repo_root(self, root: &str) -> (r: Self)
        ensures
            r.deep_view() == (JsonResponseView { repo_root: Some(root@), ..self.deep_view() }),
    {
        let mut r = self;
        r.repo_root = Some(root.to_owned());
        r
    }

    pub fn with_worktree_path(self, path: &str) -> (r: Self)
        ensures
            r.deep_view() == (JsonResponseView { worktree_path: Some(path@), ..self.deep_view() }),
    {
        let mut r = self;
        r.worktree_path = Some(path.to_owned());
        r
    }

    pub fn with_cd_path(self, path: &str) -> (r: Self)
        ensures
            r.deep_view() == (JsonResponseView { cd_path: Some(path@), ..self.deep_view() }),
    {
        let mut r = self;
        r.cd_path = Some(path.to_owned());
        r
    }

    pub fn with_removed_path(self, path: &str) -> (r: Self)
        ensures
            r.deep_view() == (JsonResponseView { removed_path: Some(path@), ..self.deep_view() }),
    {
        let mut r = self;
        r.removed_path = Some(path.to_owned());
        r
    }

    pub fn with_branch(self, branch: &str) -> (r: Self)
        ensures
            r.deep_view() == (JsonResponseView { branch: Some(branch@), ..self.deep_view() }),
    {
        let mut r = self;
        r.branch = Some(branch.to_owned());
        r
    }
}

/// One worktree of a list response.
#[derive(Debug, Clone, PartialEq, Eq)]
pub struct JsonWorktreeEntry {
    pub path: String,
    pub branch: Option<String>,
    pub commit: String,
    pub is_main: bool,
}

/// What a [`JsonWorktreeEntry`] stands for in contracts.
pub struct JsonWorktreeEntryView {
    pub path: Seq<char>,
    pub branch: Option<Seq<char>>,
    pub commit: Seq<char>,
    pub is_main: bool,
}

impl DeepView for JsonWorktreeEntry {
    type V = JsonWorktreeEntryView;

    open spec fn deep_view(&self) -> JsonWorktreeEntryView {
        JsonWorktreeEntryView {
            path: self.path@,
            branch: self.branch.deep_view(),
            commit: self.commit@,
            is_main: self.is_main,
        }
    }
}

/// JSON envelope for list responses.
#[derive(Debug, Clone, PartialEq, Eq)]
pub struct JsonListResponse {
    pub ok: bool,
    pub worktrees: Vec<JsonWorktreeEntry>,
}

/// What a [`JsonListResponse`] stands for in contracts.
pub struct JsonListResponseView {
    pub ok: bool,
    pub worktrees: Seq<JsonWorktreeEntryView>,
}

impl DeepView for JsonListResponse {
    type V = JsonListResponseView;

    open spec fn deep_view(&self) -> JsonListResponseView {
        JsonListResponseView {
            ok: self.ok,
            worktrees: self.worktrees.deep_view(),
        }
    }
}

/// The entry of a list response for a worktree.
pub open spec fn json_entry(wt: WorktreeView) -> JsonWorktreeEntryView {
    JsonWorktreeEntryView {
        path: wt.path,
        branch: wt.branch,
        commit: wt.commit,
        is_main: wt.is_main,
    }
}

/// The list response for a catalog: one entry for each worktree, in order.
pub open spec fn json_list(worktrees: Seq<WorktreeView>) -> JsonListResponseView {
    JsonListResponseView {
        ok: true,
        worktrees: Seq::new(worktrees.len(), |i: int| json_entry(worktrees[i])),
    }
}

impl JsonWorktreeEntry {
    /// The entry for a worktree.
    pub fn from_worktree(wt: &Worktree) -> (r: Self)
        ensures
            r.deep_view() == json_entry(wt@),
    {
        JsonWorktreeEntry {
            path: wt.path.clone(),
            branch: wt.branch.clone(),
            commit: wt.commit.clone(),
            is_main: wt.is_main,
        }
    }
}

impl JsonListResponse {
    pub fn from_worktrees(worktrees: &Vec<Worktree>) -> (r: Self)
        ensures
            r.deep_view() == json_list(worktrees.deep_view()),
    {
        let mut entries: Vec<JsonWorktreeEntry> = Vec::new();
        let mut i: usize = 0;
        while i < worktrees.len()
            invariant
                i <= worktrees.len(),
                entries.len() == i,
                forall|j: int|
                    0 <= j < i ==> (#[trigger] entries@[j]).deep_view() == json_entry(
                        worktrees@[j]@,
                    ),
            decreases worktrees.len() - i,
        {
            entries.push(JsonWorktreeEntry::from_worktree(&worktrees[i]));
            i += 1;
        }
        assert(entries.deep_view() =~= json_list(worktrees.deep_view()).worktrees);
        JsonListResponse { ok: true, worktrees: entries }
    }
}

/// One diagnostic of a doctor response.
#[derive(Debug, Clone, PartialEq, Eq)]
pub struct JsonDiagEntry {
    pub level: DiagLevel,
    pub message: String,
}

/// What a [`JsonDiagEntry`] stands for in contracts.
pub struct JsonDiagEntryView {
    pub level: DiagLevel,
    pub message: Seq<char>,
}

impl DeepView for JsonDiagEntry {
    type V = JsonDiagEntryView;

    open spec fn deep_view(&self) -> JsonDiagEntryView {
        JsonDiagEntryView {
            level: self.level,
            message: self.message@,
        }
    }
}

/// JSON envelope for doctor responses.
#[derive(Debug, Clone, PartialEq, Eq)]
pub struct JsonDoctorResponse {
    pub ok: bool,
    pub diagnostics: Vec<JsonDiagEntry>,
}

/// What a [`JsonDoctorResponse`] stands for in contracts.
pub struct JsonDoctorResponseView {
    pub ok: bool,
    pub diagnostics: Seq<JsonDiagEntryView>,
}

impl DeepView for JsonDoctorResponse {
    type V = JsonDoctorResponseView;

    open spec fn deep_view(&self) -> JsonDoctorResponseView {
        JsonDoctorResponseView {
            ok: self.ok,
            diagnostics: self.diagnostics.deep_view(),
        }
    }
}

/// Whether none of the diagnostics is an error.
pub open spec fn no_errors(diags: Seq<DiagnosticView>) -> bool {
    forall|i: int| 0 <= i < diags.len() ==> (#[trigger] diags[i]).level != DiagLevel::Error
}

/// The doctor response for a run of diagnostics: every diagnostic in its
/// order, and `ok` unless one of them is an error.
pub open spec fn json_doctor(diags: Seq<DiagnosticView>) -> JsonDoctorResponseView {
    JsonDoctorResponseView {
        ok: no_errors(diags),
        diagnostics: Seq::new(
            diags.len(),
            |i: int| JsonDiagEntryView { level: diags[i].level, message: diags[i].message },
        ),
    }
}

impl JsonDoctorResponse {
    pub fn from_diagnostics(diags: &Vec<Diagnostic>) -> (r: Self)
        ensures
            r.deep_view() == json_doctor(diags.deep_view()),
    {
        let mut entries: Vec<JsonDiagEntry> = Vec::new();
        let mut has_errors = false;
        let mut i: usize = 0;
        while i < diags.len()
            invariant
                i <= diags.len(),
                entries.len() == i,
                has_errors == !no_errors(diags.deep_view().take(i as int)),
                forall|j: int|
                    0 <= j < i ==> (#[trigger] entries@[j]).deep_view() == (JsonDiagEntryView {
                        level: diags@[j].level,
                        message: diags@[j].message@,
                    }),
            decreases diags.len() - i,
        {
            let d = &diags[i];
            proof {
                let after = diags.deep_view().take(i + 1);
                assert(after[i as int] == d.deep_view());
            }
            if d.level == DiagLevel::Error {
                has_errors = true;
            }
            entries.push(JsonDiagEntry { level: d.level, message: d.message.clone() });
            i += 1;
        }
        assert(diags.deep_view().take(diags.len() as int) =~= diags.deep_view());
        assert(entries.deep_view() =~= json_doctor(diags.deep_view()).diagnostics);
        JsonDoctorResponse { ok: !has_errors, diagnostics: entries }
    }
}

/// One worktree of a prune dry-run response.
#[derive(Debug, Clone, PartialEq, Eq)]
pub struct JsonPruneDryRunEntry {
    pub branch: Option<String>,
    pub status: String,
    pub method: Option<String>,
    pub path: String,
}

/// What a [`JsonPruneDryRunEntry`] stands for in contracts.
pub struct JsonPruneDryRunEntryView {
    pub branch: Option<Seq<char>>,
    pub status: Seq<char>,
    pub method: Option<Seq<char>>,
    pub path: Seq<char>,
}

impl DeepView for JsonPruneDryRunEntry {
    type V = JsonPruneDryRunEntryView;

    open spec fn deep_view(&self) -> JsonPruneDryRunEntryView {
        JsonPruneDryRunEntryView {
            branch: self.branch.deep_view(),
            status: self.status@,
            method: self.method.deep_view(),
            path: self.path@,
        }
    }
}

/// JSON envelope for prune dry-run responses.
#[derive(Debug, Clone, PartialEq, Eq)]
pub struct JsonPruneDryRunResponse {
    pub ok: bool,
    pub mainline: String,
    pub worktrees: Vec<JsonPruneDryRunEntry>,
    /// How many of the worktrees are integrated.
    pub prunable: usize,
}

/// What a [`JsonPruneDryRunResponse`] stands for in contracts.
pub struct JsonPruneDryRunResponseView {
    pub ok: bool,
    pub mainline: Seq<char>,
    pub worktrees: Seq<JsonPruneDryRunEntryView>,
    pub prunable: usize,
}

impl DeepView for JsonPruneDryRunResponse {
    type V = JsonPruneDryRunResponseView;

    open spec fn deep_view(&self) -> JsonPruneDryRunResponseView {
        JsonPruneDryRunResponseView {
            ok: self.ok,
            mainline: self.mainline@,
            worktrees: self.worktrees.deep_view(),
            prunable: self.prunable,
        }
    }
}

/// One pruned worktree of a prune response.
#[derive(Debug, Clone, PartialEq, Eq)]
pub struct JsonPrunedEntry {
    pub branch: String,
    pub path: String,
}

/// What a [`JsonPrunedEntry`] stands for in contracts.
pub struct JsonPrunedEntryView {
    pub branch: Seq<char>,
    pub path: Seq<char>,
}

impl DeepView for JsonPrunedEntry {
    type V = JsonPrunedEntryView;

    open spec fn deep_view(&self) -> JsonPrunedEntryView {
        JsonPrunedEntryView {
            branch: self.branch@,
            path: self.path@,
        }
    }
}

/// One skipped worktree of a prune response.
#[derive(Debug, Clone, PartialEq, Eq)]
pub struct JsonSkippedEntry {
    pub branch: Option<String>,
    pub reason: String,
    pub path: String,
}

/// What a [`JsonSkippedEntry`] stands for in contracts.
pub struct JsonSkippedEntryView {
    pub branch: Option<Seq<char>>,
    pub reason: Seq<char>,
    pub path: Seq<char>,
}

impl DeepView for JsonSkippedEntry {
    type V = JsonSkippedEntryView;

    open spec fn deep_view(&self) -> JsonSkippedEntryView {
        JsonSkippedEntryView {
            branch: self.branch.deep_view(),
            reason: self.reason@,
            path: self.path@,
        }
    }
}

/// JSON envelope for prune responses.
#[derive(Debug, Clone, PartialEq, Eq)]
pub struct JsonPruneExecuteResponse {
    pub ok: bool,
    pub mainline: String,
    pub pruned: Vec<JsonPrunedEntry>,
    pub skipped: Vec<JsonSkippedEntry>,
    pub warnings: Vec<String>,
}

/// What a [`JsonPruneExecuteResponse`] stands for in contracts.
pub struct JsonPruneExecuteResponseView {
    pub ok: bool,
    pub mainline: Seq<char>,
    pub pruned: Seq<JsonPrunedEntryView>,
    pub skipped: Seq<JsonSkippedEntryView>,
    pub warnings: Seq<Seq<char>>,
}

impl DeepView for JsonPruneExecuteResponse {
    type V = JsonPruneExecuteResponseView;

    open spec fn deep_view(&self) -> JsonPruneExecuteResponseView {
        JsonPruneExecuteResponseView {
            ok: self.ok,
            mainline: self.mainline@,
            pruned: self.pruned.deep_view(),
            skipped: self.skipped.deep_view(),
            warnings: self.warnings.deep_view(),
        }
    }
}

/// JSON envelope for merge responses.
#[derive(Debug, Clone, PartialEq, Eq)]
pub struct JsonMergeResponse {
    pub ok: bool,
    pub branch: String,
    pub mainline: String,
    pub repo_root: String,
    pub cleaned_up: bool,
    pub removed_path: Option<String>,
    pub pushed: bool,
    pub warnings: Vec<String>,
}

/// What a [`JsonMergeResponse`] stands for in contracts.
pub struct JsonMergeResponseView {
    pub ok: bool,
    pub branch: Seq<char>,
    pub mainline: Seq<char>,
    pub repo_root: Seq<char>,
    pub cleaned_up: bool,
    pub removed_path: Option<Seq<char>>,
    pub pushed: bool,
    pub warnings: Seq<Seq<char>>,
}

impl DeepView for JsonMergeResponse {
    type V = JsonMergeResponseView;

    open spec fn deep_view(&self) -> JsonMergeResponseView {
        JsonMergeResponseView {
            ok: self.ok,
            branch: self.branch@,
            mainline: self.mainline@,
            repo_root: self.repo_root@,
            cleaned_up: self.cleaned_up,
            removed_path: self.removed_path.deep_view(),
            pushed: self.pushed,
            warnings: self.warnings.deep_view(),
        }
    }
}

} // verus!
