use vstd::prelude::*;

verus! {

/// Stable exit codes of the command-line contract.
#[derive(Debug, Clone, Copy, PartialEq, Eq, Structural)]
pub enum ExitCode {
    /// 0: success
    Success,
    /// 1: usage or argument error
    Usage,
    /// 2: the version-control command failed for an unclassified reason
    Git,
    /// 3: the starting path is not inside a repository
    NotARepo,
    /// 4: a hard safety rule would be violated
    Invariant,
    /// 5: the current state prevents the operation
    Conflict,
}

impl ExitCode {
    /// The number that the process exits with.
    pub open spec fn number(self) -> int {
        match self {
            ExitCode::Success => 0,
            ExitCode::Usage => 1,
            ExitCode::Git => 2,
            ExitCode::NotARepo => 3,
            ExitCode::Invariant => 4,
            ExitCode::Conflict => 5,
        }
    }

    /// The exit status as a byte.
    pub fn as_u8(self) -> (n: u8)
        ensures
            n == self.number(),
    {
        match self {
            ExitCode::Success => 0,
            ExitCode::Usage => 1,
            ExitCode::Git => 2,
            ExitCode::NotARepo => 3,
            ExitCode::Invariant => 4,
            ExitCode::Conflict => 5,
        }
    }
}

/// Application-level error with a stable exit code.
#[derive(Debug, Clone, PartialEq, Eq)]
pub struct AppError {
    pub code: ExitCode,
    pub message: String,
}

/// What an [`AppError`] stands for in contracts.
pub struct AppErrorView {
    pub code: ExitCode,
    pub message: Seq<char>,
}

impl View for AppError {
    type V = AppErrorView;

    open spec fn view(&self) -> AppErrorView {
        AppErrorView { code: self.code, message: self.message@ }
    }
}

impl DeepView for AppError {
    type V = AppErrorView;

    open spec fn deep_view(&self) -> AppErrorView {
        self@
    }
}

impl AppErrorView {
    pub open spec fn usage(message: Seq<char>) -> AppErrorView {
        AppErrorView { code: ExitCode::Usage, message }
    }

    pub open spec fn git(message: Seq<char>) -> AppErrorView {
        AppErrorView { code: ExitCode::Git, message }
    }

    pub open spec fn not_a_repo(message: Seq<char>) -> AppErrorView {
        AppErrorView { code: ExitCode::NotARepo, message }
    }

    pub open spec fn invariant_violation(message: Seq<char>) -> AppErrorView {
        AppErrorView { code: ExitCode::Invariant, message }
    }

    pub open spec fn conflict(message: Seq<char>) -> AppErrorView {
        AppErrorView { code: ExitCode::Conflict, message }
    }
}

impl AppError {
    pub fn usage(msg: String) -> (e: Self)
        ensures
            e@ == AppErrorView::usage(msg@),
    {
        AppError { code: ExitCode::Usage, message: msg }
    }

    pub fn git(msg: String) -> (e: Self)
        ensures
            e@ == AppErrorView::git(msg@),
    {
        AppError { code: ExitCode::Git, message: msg }
    }

    pub fn not_a_repo(msg: String) -> (e: Self)
        ensures
            e@ == AppErrorView::not_a_repo(msg@),
    {
        AppError { code: ExitCode::NotARepo, message: msg }
    }

    pub fn invariant_violation(msg: String) -> (e: Self)
        ensures
            e@ == AppErrorView::invariant_violation(msg@),
    {
        AppError { code: ExitCode::Invariant, message: msg }
    }

    pub fn conflict(msg: String) -> (e: Self)
        ensures
            e@ == AppErrorView::conflict(msg@),
    {
        AppError { code: ExitCode::Conflict, message: msg }
    }

    /// The text shown to the user: the message alone.
    pub fn to_text(&self) -> (s: String)
        ensures
            s@ == self@.message,
    {
        self.message.clone()
    }
}

/// What a fallible result stands for in contracts.
pub open spec fn outcome<T: DeepView>(r: Result<T, AppError>) -> Result<T::V, AppErrorView> {
    match r {
        Ok(v) => Ok(v.deep_view()),
        Err(e) => Err(e@),
    }
}

} // verus!
