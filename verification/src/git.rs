use vstd::prelude::*;
use crate::catalog::{catalog, main_branch, main_worktree_branch, parse_worktree_porcelain};
use crate::domain::{BranchName, RepoRoot, Worktree, WorktreeView};
use crate::error::{outcome, AppError, AppErrorView, ExitCode};
use crate::path::{join, join_path, parent, parent_dir};
use crate::text::{
    chars_of, concat2, contains, has_substring, lines, split_lines, strip_prefix,
    strip_prefix_chars, text_of, trim, trimmed,
};
use crate::vcs::{
    answer, ask, extends, stands, Reply, ReplyView, Request, RequestView, Step, StepView,
};

verus! {

/// The text that `str::to_lowercase` of the standard library makes of a
/// text: each character replaced by its Unicode lower-case form. Nothing is
/// stated of it here but that it is a function of the text.
pub uninterp spec fn lowercase_of(text: Seq<char>) -> Seq<char>;

/// `str::to_lowercase` of the standard library, taken on trust: what it
/// returns is the lower-case form of the text, which depends on the text
/// alone.
#[verifier::external_body]
fn to_lowercase(text: &str) -> (lower: String)
    ensures
        lower@ == lowercase_of(text@),
{
    text.to_lowercase()
}

/// The kind of failure that a lower-case failure text tells of.
pub open spec fn failure_kind(lower: Seq<char>) -> ExitCode {
    if contains(lower, "not a git repository"@) {
        ExitCode::NotARepo
    } else if contains(lower, "unmerged"@) || contains(lower, "modified"@) || contains(
        lower,
        "dirty"@,
    ) || contains(lower, "already exists"@) || contains(lower, "already checked out"@)
        || contains(lower, "is not fully merged"@) {
        ExitCode::Conflict
    } else {
        ExitCode::Git
    }
}

/// The error that a failure text of the version-control command stands for.
pub open spec fn classified(msg: Seq<char>) -> AppErrorView {
    AppErrorView { code: failure_kind(lowercase_of(msg)), message: msg }
}

fn mentions(text: &Vec<char>, phrase: &str) -> (r: bool)
    ensures
        r == contains(text@, phrase@),
{
    let p = chars_of(phrase);
    has_substring(text, &p)
}

/// Map a failure text, given with its lower-case form, to the error it
/// stands for. The message of the error is the text as it came.
pub fn classify_lowered(lower: &str, msg: String) -> (e: AppError)
    ensures
        e@ == (AppErrorView { code: failure_kind(lower@), message: msg@ }),
        e@.code != ExitCode::Invariant,
        e@.code != ExitCode::Usage,
        e@.code != ExitCode::Success,
{
    let text = chars_of(lower);
    if mentions(&text, "not a git repository") {
        return AppError::not_a_repo(msg);
    }
    if mentions(&text, "unmerged") || mentions(&text, "modified") || mentions(&text, "dirty")
        || mentions(&text, "already exists") || mentions(&text, "already checked out")
        || mentions(&text, "is not fully merged") {
        return AppError::conflict(msg);
    }
    AppError::git(msg)
}

/// Inspect the failure text of the version-control command to map known
/// phrases to the right kind of error.
pub fn classify_git_error(msg: String) -> (e: AppError)
    ensures
        e@ == classified(msg@),
{
    let lower = to_lowercase(msg.as_str());
    classify_lowered(lower.as_str(), msg)
}

/// The request to run the version-control command in `dir` with `args`.
pub open spec fn git_request(dir: Seq<char>, args: Seq<Seq<char>>) -> RequestView {
    RequestView::Git { dir, args }
}

/// The reply to a command as it is read: the text of its output or of its
/// failure without the white space around it.
pub open spec fn tidy(reply: ReplyView) -> ReplyView {
    match reply {
        ReplyView::Output(text) => ReplyView::Output(trimmed(text)),
        ReplyView::Failure(text) => ReplyView::Failure(trimmed(text)),
        ReplyView::Unavailable(reason) => ReplyView::Unavailable(reason),
    }
}

/// The reply to the command `args` run in `dir`, read at position `from`;
/// the request for it where no reply stands there.
pub open spec fn command_answer(
    dir: Seq<char>,
    args: Seq<Seq<char>>,
    replies: Seq<ReplyView>,
    from: nat,
) -> StepView<ReplyView> {
    match answer(git_request(dir, args), replies, from) {
        StepView::Done(reply, at) => StepView::Done(tidy(reply), at),
        other => other,
    }
}

/// What the reply to a command holds: its output, or the error that the
/// failure stands for.
pub open spec fn output_of(reply: ReplyView) -> Result<Seq<char>, AppErrorView> {
    match reply {
        ReplyView::Output(text) => Ok(text),
        ReplyView::Failure(text) => Err(classified(text)),
        ReplyView::Unavailable(reason) => Err(AppErrorView::git("failed to run git: "@ + reason)),
    }
}

/// Run a command for its output: a failure ends the operation with the
/// error that it stands for.
pub open spec fn run(dir: Seq<char>, args: Seq<Seq<char>>, replies: Seq<ReplyView>, from: nat)
    -> StepView<Seq<char>> {
    match command_answer(dir, args, replies, from) {
        StepView::Done(reply, at) => match output_of(reply) {
            Ok(text) => StepView::Done(text, at),
            Err(e) => StepView::Fail(e, at),
        },
        other => other.pass(),
    }
}

/// Run a command for its verdict alone: whether it succeeded.
pub open spec fn succeeds(
    dir: Seq<char>,
    args: Seq<Seq<char>>,
    replies: Seq<ReplyView>,
    from: nat,
) -> StepView<bool> {
    match command_answer(dir, args, replies, from) {
        StepView::Done(reply, at) => StepView::Done(reply is Output, at),
        other => other.pass(),
    }
}

/// Run a command for its effect: its output is dropped, a failure ends the
/// operation.
pub open spec fn perform(
    dir: Seq<char>,
    args: Seq<Seq<char>>,
    replies: Seq<ReplyView>,
    from: nat,
) -> StepView<()> {
    match run(dir, args, replies, from) {
        StepView::Done(_, at) => StepView::Done((), at),
        other => other.pass(),
    }
}

/// Read what the reply to a command holds.
pub fn read_output(reply: Reply) -> (r: Result<String, AppError>)
    ensures
        outcome(r) == output_of(reply@),
{
    match reply {
        Reply::Output(text) => Ok(text),
        Reply::Failure(text) => Err(classify_git_error(text)),
        Reply::Unavailable(reason) => Err(
            AppError::git(concat2("failed to run git: ", reason.as_str())),
        ),
    }
}

fn command(dir: &str, args: Vec<String>) -> (q: Request)
    ensures
        q@ == git_request(dir@, args.deep_view()),
{
    Request::Git { dir: dir.to_owned(), args }
}

fn ask_git(dir: &str, args: Vec<String>, replies: &Vec<Reply>, from: usize) -> (r: Step<Reply>)
    ensures
        r.deep_view() == command_answer(dir@, args.deep_view(), replies.deep_view(), from as nat),
{
    match ask(command(dir, args), replies, from) {
        Step::Done(reply, at) => {
            let read = match reply {
                Reply::Output(text) => Reply::Output(trim(text.as_str())),
                Reply::Failure(text) => Reply::Failure(trim(text.as_str())),
                Reply::Unavailable(reason) => Reply::Unavailable(reason),
            };
            Step::Done(read, at)
        },
        other => other,
    }
}

fn run_git(dir: &str, args: Vec<String>, replies: &Vec<Reply>, from: usize) -> (r: Step<String>)
    ensures
        r.deep_view() == run(dir@, args.deep_view(), replies.deep_view(), from as nat),
{
    match ask_git(dir, args, replies, from) {
        Step::Done(reply, at) => match read_output(reply) {
            Ok(text) => Step::Done(text, at),
            Err(e) => Step::Fail(e, at),
        },
        other => other.pass(),
    }
}

fn git_success(dir: &str, args: Vec<String>, replies: &Vec<Reply>, from: usize) -> (r: Step<bool>)
    ensures
        r.deep_view() == succeeds(dir@, args.deep_view(), replies.deep_view(), from as nat),
{
    match ask_git(dir, args, replies, from) {
        Step::Done(reply, at) => Step::Done(reply.succeeded(), at),
        other => other.pass(),
    }
}

fn git_perform(dir: &str, args: Vec<String>, replies: &Vec<Reply>, from: usize) -> (r: Step<()>)
    ensures
        r.deep_view() == perform(dir@, args.deep_view(), replies.deep_view(), from as nat),
{
    match run_git(dir, args, replies, from) {
        Step::Done(_, at) => Step::Done((), at),
        other => other.pass(),
    }
}

fn arg(args: &mut Vec<String>, text: &str)
    ensures
        final(args).deep_view() == old(args).deep_view().push(text@),
{
    args.push(text.to_owned());
}

fn no_args() -> (args: Vec<String>)
    ensures
        args.deep_view() == Seq::<Seq<char>>::empty(),
{
    let args: Vec<String> = Vec::new();
    args
}

/// The arguments that check whether a revision exists.
pub open spec fn verify_args(rev: Seq<char>) -> Seq<Seq<char>> {
    seq!["rev-parse"@, "--verify"@, rev]
}

fn verify_command(rev: &str) -> (args: Vec<String>)
    ensures
        args.deep_view() == verify_args(rev@),
{
    let mut args = no_args();
    arg(&mut args, "rev-parse");
    arg(&mut args, "--verify");
    arg(&mut args, rev);
    args
}

/// Whether a revision exists: one request, and its verdict.
pub open spec fn rev_exists_flow(
    repo: Seq<char>,
    rev: Seq<char>,
    replies: Seq<ReplyView>,
    from: nat,
) -> StepView<bool> {
    succeeds(repo, verify_args(rev), replies, from)
}

/// Resolve a revision to confirm that it exists.
pub fn rev_exists(repo: &RepoRoot, rev: &str, replies: &Vec<Reply>, from: usize) -> (r: Step<bool>)
    ensures
        r.deep_view() == rev_exists_flow(repo@, rev@, replies.deep_view(), from as nat),
{
    git_success(repo.as_str(), verify_command(rev), replies, from)
}

/// Whether a local branch exists.
pub open spec fn branch_exists_flow(
    repo: Seq<char>,
    branch: Seq<char>,
    replies: Seq<ReplyView>,
    from: nat,
) -> StepView<bool> {
    rev_exists_flow(repo, "refs/heads/"@ + branch, replies, from)
}

/// Check whether a local branch exists.
pub fn branch_exists(repo: &RepoRoot, branch: &BranchName, replies: &Vec<Reply>, from: usize) -> (r:
    Step<bool>)
    ensures
        r.deep_view() == branch_exists_flow(repo@, branch@, replies.deep_view(), from as nat),
{
    let refspec = concat2("refs/heads/", branch.as_str());
    rev_exists(repo, refspec.as_str(), replies, from)
}

/// Whether the default remote has a branch of this name.
pub open spec fn remote_branch_exists_flow(
    repo: Seq<char>,
    branch: Seq<char>,
    replies: Seq<ReplyView>,
    from: nat,
) -> StepView<bool> {
    rev_exists_flow(repo, "refs/remotes/origin/"@ + branch, replies, from)
}

/// Check whether the default remote has a branch of this name.
pub fn remote_branch_exists(
    repo: &RepoRoot,
    branch: &BranchName,
    replies: &Vec<Reply>,
    from: usize,
) -> (r: Step<bool>)
    ensures
        r.deep_view() == remote_branch_exists_flow(
            repo@,
            branch@,
            replies.deep_view(),
            from as nat,
        ),
{
    let refspec = concat2("refs/remotes/origin/", branch.as_str());
    rev_exists(repo, refspec.as_str(), replies, from)
}

/// The arguments that clear the records of worktrees that are gone.
pub open spec fn prune_args() -> Seq<Seq<char>> {
    seq!["worktree"@, "prune"@]
}

/// The arguments that list the worktrees.
pub open spec fn list_args() -> Seq<Seq<char>> {
    seq!["worktree"@, "list"@, "--porcelain"@]
}

/// The catalog of worktrees: stale records are cleared first, whatever
/// comes of that, and then the listing is read and parsed.
pub open spec fn list_worktrees_flow(repo: Seq<char>, replies: Seq<ReplyView>, from: nat)
    -> StepView<Seq<WorktreeView>> {
    match command_answer(repo, prune_args(), replies, from) {
        StepView::Done(_, at) => match run(repo, list_args(), replies, at) {
            StepView::Done(raw, end) => StepView::Done(catalog(raw), end),
            other => other.pass(),
        },
        other => other.pass(),
    }
}

/// List all worktrees of the repository.
pub fn list_worktrees(repo: &RepoRoot, replies: &Vec<Reply>, from: usize) -> (r: Step<
    Vec<Worktree>,
>)
    ensures
        r.deep_view() == list_worktrees_flow(repo@, replies.deep_view(), from as nat),
{
    let mut prune = no_args();
    arg(&mut prune, "worktree");
    arg(&mut prune, "prune");
    assert(prune.deep_view() =~= prune_args());
    let at = match ask_git(repo.as_str(), prune, replies, from) {
        Step::Done(_, at) => at,
        other => {
            return other.pass();
        },
    };
    let mut list = no_args();
    arg(&mut list, "worktree");
    arg(&mut list, "list");
    arg(&mut list, "--porcelain");
    assert(list.deep_view() =~= list_args());
    match run_git(repo.as_str(), list, replies, at) {
        Step::Done(raw, end) => match parse_worktree_porcelain(raw.as_str(), repo) {
            Ok(worktrees) => Step::Done(worktrees, end),
            Err(e) => Step::Fail(e, end),
        },
        other => other.pass(),
    }
}

/// The revision that a new branch starts from where none is given.
pub open spec fn base_or_head(base: Option<Seq<char>>) -> Seq<char> {
    match base {
        Some(rev) => rev,
        None => "HEAD"@,
    }
}

/// The arguments that add a worktree at `dir` on a new branch.
pub open spec fn add_worktree_args(dir: Seq<char>, branch: Seq<char>, base: Option<Seq<char>>)
    -> Seq<Seq<char>> {
    seq!["worktree"@, "add"@, "-b"@, branch, dir, base_or_head(base)]
}

/// Add a worktree on a new branch.
pub open spec fn add_worktree_flow(
    repo: Seq<char>,
    dir: Seq<char>,
    branch: Seq<char>,
    base: Option<Seq<char>>,
    replies: Seq<ReplyView>,
    from: nat,
) -> StepView<()> {
    perform(repo, add_worktree_args(dir, branch, base), replies, from)
}

/// Add a new worktree.
pub fn add_worktree(
    repo: &RepoRoot,
    dir: &str,
    branch: &BranchName,
    base: Option<&str>,
    replies: &Vec<Reply>,
    from: usize,
) -> (r: Step<()>)
    ensures
        r.deep_view() == add_worktree_flow(
            repo@,
            dir@,
            branch@,
            base.deep_view(),
            replies.deep_view(),
            from as nat,
        ),
{
    let mut args = no_args();
    arg(&mut args, "worktree");
    arg(&mut args, "add");
    arg(&mut args, "-b");
    arg(&mut args, branch.as_str());
    arg(&mut args, dir);
    match base {
        Some(rev) => arg(&mut args, rev),
        None => arg(&mut args, "HEAD"),
    }
    assert(args.deep_view() =~= add_worktree_args(dir@, branch@, base.deep_view()));
    git_perform(repo.as_str(), args, replies, from)
}

/// The arguments that remove the worktree at `dir`.
pub open spec fn remove_worktree_args(dir: Seq<char>, force: bool) -> Seq<Seq<char>> {
    if force {
        seq!["worktree"@, "remove"@, "--force"@, dir]
    } else {
        seq!["worktree"@, "remove"@, dir]
    }
}

/// Remove a worktree.
pub open spec fn remove_worktree_flow(
    repo: Seq<char>,
    dir: Seq<char>,
    force: bool,
    replies: Seq<ReplyView>,
    from: nat,
) -> StepView<()> {
    perform(repo, remove_worktree_args(dir, force), replies, from)
}

/// Remove a worktree directory.
pub fn remove_worktree(
    repo: &RepoRoot,
    dir: &str,
    force: bool,
    replies: &Vec<Reply>,
    from: usize,
) -> (r: Step<()>)
    ensures
        r.deep_view() == remove_worktree_flow(
            repo@,
            dir@,
            force,
            replies.deep_view(),
            from as nat,
        ),
{
    let mut args = no_args();
    arg(&mut args, "worktree");
    arg(&mut args, "remove");
    if force {
        arg(&mut args, "--force");
    }
    arg(&mut args, dir);
    assert(args.deep_view() =~= remove_worktree_args(dir@, force));
    git_perform(repo.as_str(), args, replies, from)
}

/// The arguments that delete a local branch: `-D` deletes it whatever its
/// state, `-d` only where the command itself holds it for merged.
pub open spec fn delete_branch_args(branch: Seq<char>, force: bool) -> Seq<Seq<char>> {
    seq!["branch"@, if force { "-D"@ } else { "-d"@ }, branch]
}

/// Delete a local branch.
pub open spec fn delete_branch_flow(
    repo: Seq<char>,
    branch: Seq<char>,
    force: bool,
    replies: Seq<ReplyView>,
    from: nat,
) -> StepView<()> {
    perform(repo, delete_branch_args(branch, force), replies, from)
}

fn delete_branch_command(branch: &str, force: bool) -> (args: Vec<String>)
    ensures
        args.deep_view() == delete_branch_args(branch@, force),
{
    let mut args = no_args();
    arg(&mut args, "branch");
    if force {
        arg(&mut args, "-D");
    } else {
        arg(&mut args, "-d");
    }
    arg(&mut args, branch);
    args
}

/// Delete a local branch.
pub fn delete_branch(
    repo: &RepoRoot,
    branch: &BranchName,
    force: bool,
    replies: &Vec<Reply>,
    from: usize,
) -> (r: Step<()>)
    ensures
        r.deep_view() == delete_branch_flow(
            repo@,
            branch@,
            force,
            replies.deep_view(),
            from as nat,
        ),
{
    git_perform(repo.as_str(), delete_branch_command(branch.as_str(), force), replies, from)
}

/// The arguments that ask whether `branch` is an ancestor of `mainline`.
pub open spec fn is_ancestor_args(branch: Seq<char>, mainline: Seq<char>) -> Seq<Seq<char>> {
    seq!["merge-base"@, "--is-ancestor"@, branch, mainline]
}

/// Whether every commit of `branch` is reachable from `mainline`.
pub open spec fn is_ancestor_flow(
    repo: Seq<char>,
    branch: Seq<char>,
    mainline: Seq<char>,
    replies: Seq<ReplyView>,
    from: nat,
) -> StepView<bool> {
    succeeds(repo, is_ancestor_args(branch, mainline), replies, from)
}

/// Check whether `branch` is an ancestor of `mainline`: whether all commits
/// of `branch` are reachable from `mainline`.
pub fn is_ancestor(
    repo: &RepoRoot,
    branch: &str,
    mainline: &str,
    replies: &Vec<Reply>,
    from: usize,
) -> (r: Step<bool>)
    ensures
        r.deep_view() == is_ancestor_flow(
            repo@,
            branch@,
            mainline@,
            replies.deep_view(),
            from as nat,
        ),
{
    let mut args = no_args();
    arg(&mut args, "merge-base");
    arg(&mut args, "--is-ancestor");
    arg(&mut args, branch);
    arg(&mut args, mainline);
    assert(args.deep_view() =~= is_ancestor_args(branch@, mainline@));
    git_success(repo.as_str(), args, replies, from)
}

/// The arguments that compare the patches of `branch` with `mainline`.
pub open spec fn cherry_args(mainline: Seq<char>, branch: Seq<char>) -> Seq<Seq<char>> {
    seq!["cherry"@, mainline, branch]
}

/// Whether a patch comparison says that every patch of the branch is in the
/// mainline: it has at least one line, and every line begins with `-`.
pub open spec fn all_patches_present(output: Seq<char>) -> bool {
    &&& lines(output).len() > 0
    &&& forall|i: int|
        0 <= i < lines(output).len() ==> starts_with_minus(#[trigger] lines(output)[i])
}

/// Whether a line of a patch comparison marks a patch that the mainline has.
pub open spec fn starts_with_minus(line: Seq<char>) -> bool {
    line.len() > 0 && line[0] == '-'
}

/// Whether the reply to a patch comparison says that every patch of the
/// branch is in the mainline. A failed comparison says that it is not.
pub open spec fn patches_verdict(reply: ReplyView) -> bool {
    match reply {
        ReplyView::Output(text) => all_patches_present(text),
        _ => false,
    }
}

/// Whether every patch of `branch` has an equivalent in `mainline`.
pub open spec fn cherry_flow(
    repo: Seq<char>,
    mainline: Seq<char>,
    branch: Seq<char>,
    replies: Seq<ReplyView>,
    from: nat,
) -> StepView<bool> {
    match command_answer(repo, cherry_args(mainline, branch), replies, from) {
        StepView::Done(reply, at) => StepView::Done(patches_verdict(reply), at),
        other => other.pass(),
    }
}

/// Whether a patch comparison says that every patch is in the mainline.
pub fn reads_all_patches_present(output: &str) -> (r: bool)
    ensures
        r == all_patches_present(output@),
{
    let all = split_lines(&chars_of(output));
    if all.len() == 0 {
        return false;
    }
    let mut i: usize = 0;
    while i < all.len()
        invariant
            i <= all.len(),
            all.deep_view() == lines(output@),
            forall|j: int| 0 <= j < i ==> starts_with_minus(#[trigger] lines(output@)[j]),
        decreases all.len() - i,
    {
        let line = &all[i];
        if line.len() == 0 || line[0] != '-' {
            assert(!starts_with_minus(lines(output@)[i as int]));
            return false;
        }
        i += 1;
    }
    true
}

/// Read the reply to a patch comparison.
pub fn read_patches_verdict(reply: &Reply) -> (r: bool)
    ensures
        r == patches_verdict(reply@),
{
    match reply {
        Reply::Output(text) => reads_all_patches_present(text.as_str()),
        _ => false,
    }
}

/// Compare the patches of `branch` with `mainline` and return true if every
/// one of them has an equivalent in `mainline`, which covers rebased and
/// cherry-picked branches.
pub fn cherry(repo: &RepoRoot, mainline: &str, branch: &str, replies: &Vec<Reply>, from: usize)
    -> (r: Step<bool>)
    ensures
        r.deep_view() == cherry_flow(
            repo@,
            mainline@,
            branch@,
            replies.deep_view(),
            from as nat,
        ),
{
    let mut args = no_args();
    arg(&mut args, "cherry");
    arg(&mut args, mainline);
    arg(&mut args, branch);
    assert(args.deep_view() =~= cherry_args(mainline@, branch@));
    match ask_git(repo.as_str(), args, replies, from) {
        Step::Done(reply, at) => Step::Done(read_patches_verdict(&reply), at),
        other => other.pass(),
    }
}

/// The arguments that set the branch of the default remote with the same
/// name as the upstream of `branch`.
pub open spec fn set_upstream_args(branch: Seq<char>) -> Seq<Seq<char>> {
    seq!["branch"@, "--set-upstream-to"@, "origin/"@ + branch, branch]
}

/// Set the upstream of a branch.
pub open spec fn set_upstream_flow(
    repo: Seq<char>,
    branch: Seq<char>,
    replies: Seq<ReplyView>,
    from: nat,
) -> StepView<()> {
    perform(repo, set_upstream_args(branch), replies, from)
}

/// Set the upstream of `branch` to the branch of the same name on the
/// default remote.
pub fn set_upstream(repo: &RepoRoot, branch: &BranchName, replies: &Vec<Reply>, from: usize) -> (r:
    Step<()>)
    ensures
        r.deep_view() == set_upstream_flow(repo@, branch@, replies.deep_view(), from as nat),
{
    let remote = concat2("origin/", branch.as_str());
    let mut args = no_args();
    arg(&mut args, "branch");
    arg(&mut args, "--set-upstream-to");
    arg(&mut args, remote.as_str());
    arg(&mut args, branch.as_str());
    assert(args.deep_view() =~= set_upstream_args(branch@));
    git_perform(repo.as_str(), args, replies, from)
}

/// The arguments that merge `branch` into the checked-out branch, always
/// with a merge commit.
pub open spec fn merge_args(branch: Seq<char>) -> Seq<Seq<char>> {
    seq!["merge"@, "--no-ff"@, "--no-edit"@, branch]
}

/// Merge a branch into the branch that the main worktree is on.
pub open spec fn merge_no_ff_flow(
    repo: Seq<char>,
    branch: Seq<char>,
    replies: Seq<ReplyView>,
    from: nat,
) -> StepView<()> {
    perform(repo, merge_args(branch), replies, from)
}

/// Merge `branch` into the branch that the main worktree is on, never as a
/// fast-forward.
pub fn merge_no_ff(repo: &RepoRoot, branch: &str, replies: &Vec<Reply>, from: usize) -> (r: Step<
    (),
>)
    ensures
        r.deep_view() == merge_no_ff_flow(repo@, branch@, replies.deep_view(), from as nat),
{
    let mut args = no_args();
    arg(&mut args, "merge");
    arg(&mut args, "--no-ff");
    arg(&mut args, "--no-edit");
    arg(&mut args, branch);
    assert(args.deep_view() =~= merge_args(branch@));
    git_perform(repo.as_str(), args, replies, from)
}

/// The arguments that give up a merge that is under way.
pub open spec fn merge_abort_args() -> Seq<Seq<char>> {
    seq!["merge"@, "--abort"@]
}

/// Give up the merge that is under way; what comes of it is not looked at.
pub open spec fn merge_abort_flow(repo: Seq<char>, replies: Seq<ReplyView>, from: nat) -> StepView<
    (),
> {
    match command_answer(repo, merge_abort_args(), replies, from) {
        StepView::Done(_, at) => StepView::Done((), at),
        other => other.pass(),
    }
}

/// Give up the merge that is under way, to leave the main worktree clean.
pub fn merge_abort(repo: &RepoRoot, replies: &Vec<Reply>, from: usize) -> (r: Step<()>)
    ensures
        r.deep_view() == merge_abort_flow(repo@, replies.deep_view(), from as nat),
{
    let mut args = no_args();
    arg(&mut args, "merge");
    arg(&mut args, "--abort");
    assert(args.deep_view() =~= merge_abort_args());
    match ask_git(repo.as_str(), args, replies, from) {
        Step::Done(_, at) => Step::Done((), at),
        other => other.pass(),
    }
}

/// The arguments that push `branch` to the default remote.
pub open spec fn push_args(branch: Seq<char>) -> Seq<Seq<char>> {
    seq!["push"@, "origin"@, branch]
}

/// Push a branch to the default remote.
pub open spec fn push_flow(repo: Seq<char>, branch: Seq<char>, replies: Seq<ReplyView>, from: nat)
    -> StepView<()> {
    perform(repo, push_args(branch), replies, from)
}

/// Push `branch` to the default remote.
pub fn push(repo: &RepoRoot, branch: &str, replies: &Vec<Reply>, from: usize) -> (r: Step<()>)
    ensures
        r.deep_view() == push_flow(repo@, branch@, replies.deep_view(), from as nat),
{
    let mut args = no_args();
    arg(&mut args, "push");
    arg(&mut args, "origin");
    arg(&mut args, branch);
    assert(args.deep_view() =~= push_args(branch@));
    git_perform(repo.as_str(), args, replies, from)
}

/// The arguments that ask for the branch that the default remote's head
/// points to.
pub open spec fn remote_head_args() -> Seq<Seq<char>> {
    seq!["symbolic-ref"@, "--short"@, "refs/remotes/origin/HEAD"@]
}

/// A branch of the default remote without the remote's name before it.
pub open spec fn without_remote(reference: Seq<char>) -> Seq<char> {
    match strip_prefix(reference, "origin/"@) {
        Some(name) => name,
        None => reference,
    }
}

/// The mainline where the default remote names none and neither `main` nor
/// `master` exists: the branch of the main worktree.
pub open spec fn mainline_of_main_worktree(repo: Seq<char>, replies: Seq<ReplyView>, from: nat)
    -> StepView<Seq<char>> {
    match list_worktrees_flow(repo, replies, from) {
        StepView::Done(worktrees, at) => match main_branch(worktrees) {
            Some(branch) => StepView::Done(branch, at),
            None => StepView::Fail(
                AppErrorView::git(
                    "could not determine mainline branch; use --mainline to specify"@,
                ),
                at,
            ),
        },
        other => other.pass(),
    }
}

/// The mainline where the default remote names none: a local branch `main`,
/// else a local branch `master`, else the branch of the main worktree.
pub open spec fn mainline_by_name(repo: Seq<char>, replies: Seq<ReplyView>, from: nat)
    -> StepView<Seq<char>> {
    match branch_exists_flow(repo, "main"@, replies, from) {
        StepView::Done(has_main, at) => if has_main {
            StepView::Done("main"@, at)
        } else {
            match branch_exists_flow(repo, "master"@, replies, at) {
                StepView::Done(has_master, next) => if has_master {
                    StepView::Done("master"@, next)
                } else {
                    mainline_of_main_worktree(repo, replies, next)
                },
                other => other.pass(),
            }
        },
        other => other.pass(),
    }
}

/// The mainline of the repository: the branch that the default remote's
/// head points to; else a local branch `main`; else a local branch
/// `master`; else the branch of the main worktree.
pub open spec fn resolve_mainline_flow(repo: Seq<char>, replies: Seq<ReplyView>, from: nat)
    -> StepView<Seq<char>> {
    match command_answer(repo, remote_head_args(), replies, from) {
        StepView::Done(reply, at) => match reply {
            ReplyView::Output(reference) => StepView::Done(without_remote(reference), at),
            _ => mainline_by_name(repo, replies, at),
        },
        other => other.pass(),
    }
}

/// Find the mainline branch of the repository.
pub fn resolve_mainline(repo: &RepoRoot, replies: &Vec<Reply>, from: usize) -> (r: Step<String>)
    ensures
        r.deep_view() == resolve_mainline_flow(repo@, replies.deep_view(), from as nat),
{
    let mut args = no_args();
    arg(&mut args, "symbolic-ref");
    arg(&mut args, "--short");
    arg(&mut args, "refs/remotes/origin/HEAD");
    assert(args.deep_view() =~= remote_head_args());
    let (reply, at) = match ask_git(repo.as_str(), args, replies, from) {
        Step::Done(reply, at) => (reply, at),
        other => {
            return other.pass();
        },
    };
    if let Reply::Output(reference) = reply {
        let text = chars_of(reference.as_str());
        let remote = chars_of("origin/");
        return match strip_prefix_chars(&text, &remote) {
            Some(name) => Step::Done(text_of(&name), at),
            None => Step::Done(reference, at),
        };
    }
    let main_name = BranchName::new("main");
    let (has_main, at) = match branch_exists(repo, &main_name, replies, at) {
        Step::Done(v, at) => (v, at),
        other => {
            return other.pass();
        },
    };
    if has_main {
        return Step::Done("main".to_owned(), at);
    }
    let master_name = BranchName::new("master");
    let (has_master, at) = match branch_exists(repo, &master_name, replies, at) {
        Step::Done(v, at) => (v, at),
        other => {
            return other.pass();
        },
    };
    if has_master {
        return Step::Done("master".to_owned(), at);
    }
    let (worktrees, at) = match list_worktrees(repo, replies, at) {
        Step::Done(v, at) => (v, at),
        other => {
            return other.pass();
        },
    };
    match main_worktree_branch(&worktrees) {
        Some(branch) => Step::Done(branch, at),
        None => Step::Fail(
            AppError::git(
                "could not determine mainline branch; use --mainline to specify".to_owned(),
            ),
            at,
        ),
    }
}

/// The arguments that ask for the top directory of the checkout.
pub open spec fn toplevel_args() -> Seq<Seq<char>> {
    seq!["rev-parse"@, "--show-toplevel"@]
}

/// The arguments that ask for the directory of the shared metadata.
pub open spec fn common_dir_args() -> Seq<Seq<char>> {
    seq!["rev-parse"@, "--git-common-dir"@]
}

/// The directory of the shared metadata as a reply names it; `.git` where
/// the request failed.
pub open spec fn common_dir(reply: ReplyView) -> Seq<char> {
    match reply {
        ReplyView::Output(dir) => dir,
        _ => ".git"@,
    }
}

/// The canonical form of a path as a reply names it; the path itself where
/// the request failed.
pub open spec fn canonical_or(reply: ReplyView, path: Seq<char>) -> Seq<char> {
    match reply {
        ReplyView::Output(canonical) => canonical,
        _ => path,
    }
}

/// The root that the directory of the shared metadata lies in; the top
/// directory of the checkout where that directory has no parent.
pub open spec fn root_above(common: Seq<char>, toplevel: Seq<char>) -> Seq<char> {
    match parent(common) {
        Some(dir) => dir,
        None => toplevel,
    }
}

/// The root of the main checkout as seen from `start`: the parent of the
/// directory of the shared metadata, so that a linked worktree resolves to
/// the main checkout and not to itself.
pub open spec fn repo_root_flow(start: Seq<char>, replies: Seq<ReplyView>, from: nat) -> StepView<
    Seq<char>,
> {
    match command_answer(start, toplevel_args(), replies, from) {
        StepView::Done(ReplyView::Output(toplevel), at) => match command_answer(
            start,
            common_dir_args(),
            replies,
            at,
        ) {
            StepView::Done(reply, next) => {
                let located = join(start, common_dir(reply));
                match answer(RequestView::Canonicalize { path: located }, replies, next) {
                    StepView::Done(canonical, end) => StepView::Done(
                        root_above(canonical_or(canonical, located), toplevel),
                        end,
                    ),
                    other => other.pass(),
                }
            },
            other => other.pass(),
        },
        StepView::Done(_, at) => StepView::Fail(
            AppErrorView::not_a_repo("not a git repository: "@ + start),
            at,
        ),
        other => other.pass(),
    }
}

/// Resolve the root of the main checkout from a starting path.
pub fn repo_root(start: &str, replies: &Vec<Reply>, from: usize) -> (r: Step<RepoRoot>)
    ensures
        r.deep_view() == repo_root_flow(start@, replies.deep_view(), from as nat),
{
    let mut args = no_args();
    arg(&mut args, "rev-parse");
    arg(&mut args, "--show-toplevel");
    assert(args.deep_view() =~= toplevel_args());
    let (toplevel, at) = match ask_git(start, args, replies, from) {
        Step::Done(Reply::Output(toplevel), at) => (toplevel, at),
        Step::Done(_, at) => {
            return Step::Fail(
                AppError::not_a_repo(concat2("not a git repository: ", start)),
                at,
            );
        },
        other => {
            return other.pass();
        },
    };
    let mut args = no_args();
    arg(&mut args, "rev-parse");
    arg(&mut args, "--git-common-dir");
    assert(args.deep_view() =~= common_dir_args());
    let (common, at) = match ask_git(start, args, replies, at) {
        Step::Done(Reply::Output(dir), at) => (dir, at),
        Step::Done(_, at) => (".git".to_owned(), at),
        other => {
            return other.pass();
        },
    };
    let located = join_path(start, common.as_str());
    let query = Request::Canonicalize { path: located.clone() };
    let (canonical, at) = match ask(query, replies, at) {
        Step::Done(Reply::Output(canonical), at) => (canonical, at),
        Step::Done(_, at) => (located, at),
        other => {
            return other.pass();
        },
    };
    match parent_dir(canonical.as_str()) {
        Some(dir) => Step::Done(RepoRoot(dir), at),
        None => Step::Done(RepoRoot(toplevel), at),
    }
}

/// A catalog that was read stands however many replies follow.
pub proof fn lemma_list_worktrees_stands(
    repo: Seq<char>,
    replies: Seq<ReplyView>,
    longer: Seq<ReplyView>,
    from: nat,
)
    requires
        extends(longer, replies),
    ensures
        stands(
            list_worktrees_flow(repo, replies, from),
            list_worktrees_flow(repo, longer, from),
            from,
            replies.len(),
        ),
{
}

/// A mainline that was resolved stands however many replies follow.
pub proof fn lemma_resolve_mainline_stands(
    repo: Seq<char>,
    replies: Seq<ReplyView>,
    longer: Seq<ReplyView>,
    from: nat,
)
    requires
        extends(longer, replies),
    ensures
        stands(
            resolve_mainline_flow(repo, replies, from),
            resolve_mainline_flow(repo, longer, from),
            from,
            replies.len(),
        ),
{
}

/// A root that was resolved stands however many replies follow.
pub proof fn lemma_repo_root_stands(
    start: Seq<char>,
    replies: Seq<ReplyView>,
    longer: Seq<ReplyView>,
    from: nat,
)
    requires
        extends(longer, replies),
    ensures
        stands(
            repo_root_flow(start, replies, from),
            repo_root_flow(start, longer, from),
            from,
            replies.len(),
        ),
{
}

} // verus!
