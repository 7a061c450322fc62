use vstd::prelude::*;
use crate::domain::{RepoRoot, Worktree, WorktreeView};
use crate::error::AppError;
use crate::text::{
    blocks, chars_of, contains, lemma_blocks_with_final_separator, lemma_single_block, lines,
    same_chars, slice_of, split_blocks, split_lines, strip_prefix, strip_prefix_chars, text_of,
};

verus! {

/// What the lines of one block of the listing have told so far.
pub struct RawEntry {
    pub path: Option<String>,
    pub commit: String,
    pub branch: Option<String>,
    pub is_bare: bool,
}

/// What a [`RawEntry`] stands for in contracts.
pub struct RawEntryView {
    pub path: Option<Seq<char>>,
    pub commit: Seq<char>,
    pub branch: Option<Seq<char>>,
    pub is_bare: bool,
}

impl View for RawEntry {
    type V = RawEntryView;

    open spec fn view(&self) -> RawEntryView {
        RawEntryView {
            path: self.path.deep_view(),
            commit: self.commit@,
            branch: self.branch.deep_view(),
            is_bare: self.is_bare,
        }
    }
}

/// The entry of a block before any of its lines is read.
pub open spec fn blank_entry() -> RawEntryView {
    RawEntryView { path: None, commit: Seq::empty(), branch: None, is_bare: false }
}

/// The first seven characters of a commit id, or all of a shorter one.
pub open spec fn short_id(id: Seq<char>) -> Seq<char> {
    if id.len() <= 7 {
        id
    } else {
        id.take(7)
    }
}

/// A branch reference without the namespace of local branches before it.
pub open spec fn short_branch(reference: Seq<char>) -> Seq<char> {
    match strip_prefix(reference, "refs/heads/"@) {
        Some(name) => name,
        None => reference,
    }
}

/// What one line adds to the entry of its block. A line is known by the tag
/// it begins with; a later line of a kind replaces an earlier one; a line of
/// no known kind changes nothing.
pub open spec fn with_line(entry: RawEntryView, line: Seq<char>) -> RawEntryView {
    if let Some(p) = strip_prefix(line, "worktree "@) {
        RawEntryView { path: Some(p), ..entry }
    } else if let Some(h) = strip_prefix(line, "HEAD "@) {
        RawEntryView { commit: short_id(h), ..entry }
    } else if let Some(b) = strip_prefix(line, "branch "@) {
        RawEntryView { branch: Some(short_branch(b)), ..entry }
    } else if line == "bare"@ {
        RawEntryView { is_bare: true, ..entry }
    } else {
        entry
    }
}

/// What a run of lines adds to an entry, line by line.
pub open spec fn with_lines(entry: RawEntryView, lines: Seq<Seq<char>>) -> RawEntryView
    decreases lines.len(),
{
    if lines.len() == 0 {
        entry
    } else {
        with_line(with_lines(entry, lines.drop_last()), lines.last())
    }
}

/// The entry that a block of the listing describes.
pub open spec fn block_entry(block: Seq<char>) -> RawEntryView {
    with_lines(blank_entry(), lines(block))
}

/// Whether a block describes a worktree that the catalog lists: it names a
/// path and is not marked bare.
pub open spec fn is_listed(block: Seq<char>) -> bool {
    block_entry(block).path is Some && !block_entry(block).is_bare
}

/// The catalog entries of a run of blocks, in their order. The first entry
/// is the main worktree, whatever its path.
pub open spec fn catalog_of(blocks: Seq<Seq<char>>) -> Seq<WorktreeView>
    decreases blocks.len(),
{
    if blocks.len() == 0 {
        Seq::empty()
    } else {
        let head = catalog_of(blocks.drop_last());
        let entry = block_entry(blocks.last());
        if is_listed(blocks.last()) {
            head.push(
                WorktreeView {
                    path: entry.path->0,
                    branch: entry.branch,
                    commit: entry.commit,
                    is_main: head.len() == 0,
                },
            )
        } else {
            head
        }
    }
}

/// The catalog that a listing describes.
pub open spec fn catalog(raw: Seq<char>) -> Seq<WorktreeView> {
    catalog_of(blocks(raw))
}

/// How many of the blocks describe a worktree that the catalog lists.
pub open spec fn listed_count(blocks: Seq<Seq<char>>) -> nat
    decreases blocks.len(),
{
    if blocks.len() == 0 {
        0
    } else if is_listed(blocks.last()) {
        listed_count(blocks.drop_last()) + 1
    } else {
        listed_count(blocks.drop_last())
    }
}

/// The catalog has one entry for each block that names a path and is not
/// marked bare, and none for any other block.
pub proof fn lemma_catalog_length(blocks: Seq<Seq<char>>)
    ensures
        catalog_of(blocks).len() == listed_count(blocks),
        (forall|i: int| 0 <= i < blocks.len() ==> is_listed(#[trigger] blocks[i]))
            ==> catalog_of(blocks).len() == blocks.len(),
        (forall|i: int| 0 <= i < blocks.len() ==> !is_listed(#[trigger] blocks[i]))
            ==> catalog_of(blocks).len() == 0,
    decreases blocks.len(),
{
    if blocks.len() > 0 {
        let front = blocks.drop_last();
        lemma_catalog_length(front);
    }
}

/// The first entry of the catalog is the main worktree, and no other entry
/// is.
pub proof fn lemma_catalog_main_is_first(blocks: Seq<Seq<char>>)
    ensures
        forall|i: int|
            0 <= i < catalog_of(blocks).len() ==> (#[trigger] catalog_of(blocks)[i]).is_main == (i
                == 0),
    decreases blocks.len(),
{
    if blocks.len() > 0 {
        lemma_catalog_main_is_first(blocks.drop_last());
    }
}

/// An empty block describes no worktree.
pub proof fn lemma_empty_block_not_listed()
    ensures
        !is_listed(Seq::empty()),
{
}

/// A listing that holds no separator is parsed as its one block.
pub proof fn lemma_catalog_of_single_block(raw: Seq<char>)
    requires
        !contains(raw, "\n\n"@),
    ensures
        catalog(raw) == catalog_of(seq![raw]),
        is_listed(raw) ==> catalog(raw).len() == 1 && catalog(raw)[0].is_main,
        !is_listed(raw) ==> catalog(raw).len() == 0,
{
    lemma_single_block(raw);
    let one = seq![raw];
    assert(catalog_of(one.drop_last()).len() == 0);
}

/// The catalog does not depend on a separator behind the last block: a
/// listing that does not end with a line feed is parsed as the same listing
/// with a separator at its end.
pub proof fn lemma_catalog_ignores_final_separator(raw: Seq<char>)
    requires
        raw.len() == 0 || raw.last() != '\n',
    ensures
        catalog(raw + "\n\n"@) == catalog(raw),
{
    lemma_blocks_with_final_separator(raw);
    let with_empty = blocks(raw).push(Seq::empty());
    assert(with_empty.drop_last() =~= blocks(raw));
}

/// Take in one line of a block.
pub fn apply_porcelain_line(line: &Vec<char>, entry: &mut RawEntry)
    ensures
        final(entry)@ == with_line(old(entry)@, line@),
{
    let worktree_tag = chars_of("worktree ");
    if let Some(p) = strip_prefix_chars(line, &worktree_tag) {
        entry.path = Some(text_of(&p));
        return ;
    }
    let head_tag = chars_of("HEAD ");
    if let Some(h) = strip_prefix_chars(line, &head_tag) {
        if h.len() <= 7 {
            entry.commit = text_of(&h);
        } else {
            let short = slice_of(&h, 0, 7);
            entry.commit = text_of(&short);
        }
        return ;
    }
    let branch_tag = chars_of("branch ");
    if let Some(b) = strip_prefix_chars(line, &branch_tag) {
        let heads = chars_of("refs/heads/");
        match strip_prefix_chars(&b, &heads) {
            Some(name) => {
                entry.branch = Some(text_of(&name));
            },
            None => {
                entry.branch = Some(text_of(&b));
            },
        }
        return ;
    }
    let bare = chars_of("bare");
    if same_chars(line, &bare) {
        entry.is_bare = true;
    }
}

/// Parse a single block of the listing: the lines between blank-line
/// separators.
pub fn parse_porcelain_block(block: &Vec<char>) -> (entry: RawEntry)
    ensures
        entry@ == block_entry(block@),
{
    let mut entry = RawEntry { path: None, commit: String::new(), branch: None, is_bare: false };
    let all = split_lines(block);
    let mut i: usize = 0;
    while i < all.len()
        invariant
            i <= all.len(),
            all.deep_view() == lines(block@),
            entry@ == with_lines(blank_entry(), all.deep_view().take(i as int)),
        decreases all.len() - i,
    {
        proof {
            let sofar = all.deep_view().take(i + 1);
            assert(sofar.drop_last() =~= all.deep_view().take(i as int));
            assert(sofar.last() =~= all@[i as int]@);
        }
        apply_porcelain_line(&all[i], &mut entry);
        i += 1;
    }
    assert(all.deep_view().take(all.len() as int) =~= all.deep_view());
    entry
}

/// Parse the listing of worktrees.
///
/// The first entry of the listing is always the main worktree, so `is_main`
/// goes by position, not by comparing paths: two paths of one directory may
/// differ in their spelling.
pub fn parse_worktree_porcelain(raw: &str, _repo: &RepoRoot) -> (result: Result<
    Vec<Worktree>,
    AppError,
>)
    ensures
        result is Ok,
        result->Ok_0.deep_view() == catalog(raw@),
{
    let text = chars_of(raw);
    let all = split_blocks(&text);
    let mut worktrees: Vec<Worktree> = Vec::new();
    let mut i: usize = 0;
    while i < all.len()
        invariant
            i <= all.len(),
            all.deep_view() == blocks(raw@),
            worktrees.deep_view() == catalog_of(all.deep_view().take(i as int)),
        decreases all.len() - i,
    {
        proof {
            let sofar = all.deep_view().take(i + 1);
            assert(sofar.drop_last() =~= all.deep_view().take(i as int));
            assert(sofar.last() =~= all@[i as int]@);
        }
        let entry = parse_porcelain_block(&all[i]);
        if !entry.is_bare {
            if let Some(path) = entry.path {
                let is_main = worktrees.len() == 0;
                worktrees.push(
                    Worktree { path, branch: entry.branch, commit: entry.commit, is_main },
                );
            }
        }
        i += 1;
    }
    assert(all.deep_view().take(all.len() as int) =~= all.deep_view());
    Ok(worktrees)
}

/// The branch of the first worktree that is marked as the main one.
pub open spec fn main_branch(worktrees: Seq<WorktreeView>) -> Option<Seq<char>>
    decreases worktrees.len(),
{
    if worktrees.len() == 0 {
        None
    } else if worktrees[0].is_main {
        worktrees[0].branch
    } else {
        main_branch(worktrees.drop_first())
    }
}

/// The branch that the main worktree is on, if it is on one.
pub fn main_worktree_branch(worktrees: &Vec<Worktree>) -> (r: Option<String>)
    ensures
        r.deep_view() == main_branch(worktrees.deep_view()),
{
    let mut i: usize = 0;
    assert(worktrees.deep_view().skip(0) =~= worktrees.deep_view());
    while i < worktrees.len()
        invariant
            i <= worktrees.len(),
            main_branch(worktrees.deep_view()) == main_branch(
                worktrees.deep_view().skip(i as int),
            ),
        decreases worktrees.len() - i,
    {
        let ghost rest = worktrees.deep_view().skip(i as int);
        assert(rest.drop_first() =~= worktrees.deep_view().skip(i + 1));
        if worktrees[i].is_main {
            return worktrees[i].branch.clone();
        }
        i += 1;
    }
    None
}

} // verus!
