//! Lifecycle of git worktrees under `<root>/.worktrees/`: add, go, remove,
//! merge, prune and diagnose, with the rules that decide which commands to
//! issue and how to read what they reply.
//!
//! The library never runs a command and never touches the filesystem. An
//! operation is a function of its arguments and of the replies to the
//! requests it has made so far. Called with those replies, it returns a
//! [`vcs::Step`]: the next [`vcs::Request`] to carry out, or its result, or
//! its error. The caller carries out the request, records the
//! [`vcs::Reply`] behind the others, and calls again:
//!
//! ```text
//! let mut replies = Vec::new();
//! loop {
//!     match commands::run(&cli, &ambient, &replies, 0) {
//!         Step::Ask(request) => replies.push(carry_out(request)),
//!         Step::Done(report, _) => return print(report),
//!         Step::Fail(error, _) => return print(commands::report_failure(&error)),
//!     }
//! }
//! ```
//!
//! Every operation has a specification function over the views of its
//! arguments and replies (`add_flow`, `merge_flow`, `run_flow`, and so on),
//! and its contract says that it computes exactly that. The laws of the
//! library are proof functions over those specification functions.
//!
//! - [`domain`]: branch names, directory names, worktree entries
//! - [`error`]: the kinds of error and their exit codes
//! - [`text`], [`path`]: character sequences and paths as text
//! - [`vcs`]: requests, replies and steps
//! - [`catalog`]: the listing of worktrees and how it is read
//! - [`git`]: the commands, and the classification of their failures
//! - [`worktree`]: adding, finding and removing a worktree
//! - [`prune`]: the integration status of branches, and pruning
//! - [`merge`]: merging a branch into the mainline
//! - [`doctor`]: diagnostics
//! - [`cli`], [`commands`]: the arguments of an invocation, and the
//!   commands they name
//! - [`select`]: the choice of a branch where none is named
//! - [`output`], [`report`]: documents, and what each command prints

pub mod catalog;
pub mod cli;
pub mod commands;
pub mod doctor;
pub mod domain;
pub mod error;
pub mod git;
pub mod merge;
pub mod output;
pub mod path;
pub mod prune;
pub mod report;
pub mod select;
pub mod text;
pub mod vcs;
pub mod worktree;
