use vstd::prelude::*;

verus! {

/// The shells that bindings exist for.
#[derive(Debug, Clone, Copy, PartialEq, Eq, Structural)]
pub enum Shell {
    Bash,
    Zsh,
    Fish,
    Nu,
}

/// One invocation of the tool, as its arguments spell it.
#[derive(Debug, Clone, PartialEq, Eq)]
pub enum Command {
    /// List all worktrees in the repository.
    List {
        /// Repository path; the current directory where none is given.
        repo: Option<String>,
        /// Output as JSON.
        json: bool,
    },
    /// Create a new worktree and branch.
    Add {
        /// Branch name to create.
        branch: String,
        /// Base revision to branch from; `HEAD` where none is given.
        base: Option<String>,
        repo: Option<String>,
        json: bool,
        /// Print only the worktree path.
        print_cd_path: bool,
    },
    /// Switch to an existing worktree.
    Go {
        /// Branch name of the worktree to switch to.
        branch: Option<String>,
        /// Force the interactive picker.
        interactive: bool,
        repo: Option<String>,
        json: bool,
        /// Print only the worktree path.
        print_cd_path: bool,
    },
    /// Remove a worktree and its local branch.
    Remove {
        /// Branch name; the branch of the current worktree where none is
        /// given.
        branch: Option<String>,
        /// Remove even if dirty, and delete the branch whatever its state.
        force: bool,
        repo: Option<String>,
        json: bool,
        /// Print the removed path, the repository root and the branch, one
        /// on each line.
        print_paths: bool,
    },
    /// Merge a worktree's branch into the mainline and clean up.
    Merge {
        /// Branch name; the branch of the current worktree where none is
        /// given.
        branch: Option<String>,
        /// Push the mainline to the default remote after the merge.
        push: bool,
        /// Keep worktree and branch after the merge.
        no_cleanup: bool,
        repo: Option<String>,
        json: bool,
        /// Print the repository root, the branch, the mainline, and whether
        /// cleanup and push took place, one on each line.
        print_paths: bool,
    },
    /// Remove worktrees whose branches are fully integrated into the
    /// mainline.
    Prune {
        /// Remove integrated worktrees; without it nothing is removed.
        execute: bool,
        /// Remove dirty worktrees too, and delete branches whatever their
        /// state.
        force: bool,
        /// The mainline branch; found out where none is given.
        mainline: Option<String>,
        repo: Option<String>,
        json: bool,
    },
    /// Print shell bindings.
    Init {
        /// Shell to print bindings for.
        shell: Shell,
    },
    /// Diagnose worktree and repository health.
    Doctor { repo: Option<String>, json: bool },
}

/// The parsed command line.
#[derive(Debug, Clone, PartialEq, Eq)]
pub struct Cli {
    pub command: Command,
}

} // verus!
