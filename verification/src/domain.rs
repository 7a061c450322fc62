use vstd::prelude::*;
use vstd::utf8::encode_utf8;
use crate::path::{join, join_path};
use crate::text::{chars_of, concat3, text_of};

verus! {

/// Whether `c` is an ASCII letter or digit.
pub open spec fn is_alnum(c: char) -> bool {
    ||| 'a' <= c <= 'z'
    ||| 'A' <= c <= 'Z'
    ||| '0' <= c <= '9'
}

/// `c` with an ASCII capital turned into its small letter.
pub open spec fn lower(c: char) -> char {
    if 'A' <= c <= 'Z' {
        ((c as u8) + 32) as char
    } else {
        c
    }
}

/// The slug before a hyphen at its end is cut: every letter or digit in lower
/// case, and one hyphen for each run of other characters that follows a
/// letter or digit.
pub open spec fn slug_untrimmed(s: Seq<char>) -> Seq<char>
    decreases s.len(),
{
    if s.len() == 0 {
        Seq::empty()
    } else {
        let head = slug_untrimmed(s.drop_last());
        let c = s.last();
        if is_alnum(c) {
            head.push(lower(c))
        } else if head.len() > 0 && head.last() != '-' {
            head.push('-')
        } else {
            head
        }
    }
}

/// The slug of a branch name: its runs of letters and digits in lower case,
/// joined by single hyphens.
pub open spec fn slug(s: Seq<char>) -> Seq<char> {
    let raw = slug_untrimmed(s);
    if raw.len() > 0 && raw.last() == '-' {
        raw.drop_last()
    } else {
        raw
    }
}

fn is_alnum_char(c: char) -> (r: bool)
    ensures
        r == is_alnum(c),
{
    (c >= 'a' && c <= 'z') || (c >= 'A' && c <= 'Z') || (c >= '0' && c <= '9')
}

fn lower_char(c: char) -> (r: char)
    ensures
        r == lower(c),
{
    if c >= 'A' && c <= 'Z' {
        ((c as u8) + 32) as char
    } else {
        c
    }
}

/// Slugify a branch name: replace runs of characters that are no ASCII letter
/// or digit by one hyphen, drop hyphens at both ends, and lower the case.
pub fn slugify(input: &str) -> (result: String)
    ensures
        result@ == slug(input@),
{
    let chars = chars_of(input);
    let mut out: Vec<char> = Vec::new();
    let mut i: usize = 0;
    while i < chars.len()
        invariant
            i <= chars.len(),
            out@ == slug_untrimmed(chars@.take(i as int)),
        decreases chars.len() - i,
    {
        let c = chars[i];
        proof {
            assert(chars@.take(i + 1).drop_last() =~= chars@.take(i as int));
        }
        if is_alnum_char(c) {
            out.push(lower_char(c));
        } else if out.len() > 0 && out[out.len() - 1] != '-' {
            out.push('-');
        }
        i += 1;
    }
    assert(chars@.take(chars.len() as int) =~= chars@);
    if out.len() > 0 && out[out.len() - 1] == '-' {
        out.pop();
    }
    text_of(&out)
}

/// The FNV-1a checksum of a byte string, in 64 bits.
pub open spec fn fnv1a(bytes: Seq<u8>) -> u64
    decreases bytes.len(),
{
    if bytes.len() == 0 {
        0xcbf29ce484222325
    } else {
        (fnv1a(bytes.drop_last()) ^ (bytes.last() as u64)).wrapping_mul(0x100000001b3)
    }
}

/// The character of one hexadecimal digit, `0` to `9` and `a` to `f`.
pub open spec fn hex_digit(d: int) -> char {
    if d < 10 {
        ((48 + d) as u8) as char
    } else {
        ((87 + d) as u8) as char
    }
}

/// The low 32 bits of `h` as eight hexadecimal digits, the highest first.
pub open spec fn hex8(h: u64) -> Seq<char> {
    let x = h as int % 0x1_0000_0000;
    seq![
        hex_digit(x / 0x1000_0000 % 16),
        hex_digit(x / 0x100_0000 % 16),
        hex_digit(x / 0x10_0000 % 16),
        hex_digit(x / 0x1_0000 % 16),
        hex_digit(x / 0x1000 % 16),
        hex_digit(x / 0x100 % 16),
        hex_digit(x / 0x10 % 16),
        hex_digit(x % 16),
    ]
}

/// The eight hexadecimal digits that stand for a name: the low 32 bits of
/// the FNV-1a checksum of its UTF-8 bytes.
pub open spec fn name_hash(name: Seq<char>) -> Seq<char> {
    hex8(fnv1a(encode_utf8(name)))
}

fn hex_char(d: u32) -> (c: char)
    requires
        d < 16,
    ensures
        c == hex_digit(d as int),
{
    if d < 10 {
        ((48 + d) as u8) as char
    } else {
        ((87 + d) as u8) as char
    }
}

/// Produce the 8-character hexadecimal hash of the input (FNV-1a based).
pub fn hash8(input: &str) -> (result: String)
    ensures
        result@ == name_hash(input@),
        result@.len() == 8,
{
    let bytes = input.as_bytes();
    let mut h: u64 = 0xcbf29ce484222325;
    let mut i: usize = 0;
    while i < bytes.len()
        invariant
            i <= bytes.len(),
            h == fnv1a(bytes@.take(i as int)),
        decreases bytes.len() - i,
    {
        proof {
            assert(bytes@.take(i + 1).drop_last() =~= bytes@.take(i as int));
        }
        h = (h ^ (bytes[i] as u64)).wrapping_mul(0x100000001b3);
        i += 1;
    }
    assert(bytes@.take(bytes.len() as int) =~= bytes@);
    let x: u32 = (h % 0x1_0000_0000) as u32;
    let mut out: Vec<char> = Vec::new();
    out.push(hex_char(x / 0x1000_0000 % 16));
    out.push(hex_char(x / 0x100_0000 % 16));
    out.push(hex_char(x / 0x10_0000 % 16));
    out.push(hex_char(x / 0x1_0000 % 16));
    out.push(hex_char(x / 0x1000 % 16));
    out.push(hex_char(x / 0x100 % 16));
    out.push(hex_char(x / 0x10 % 16));
    out.push(hex_char(x % 16));
    text_of(&out)
}

/// The directory name of a branch: its slug, two hyphens, and the eight
/// hexadecimal digits of its hash.
pub open spec fn dir_name(name: Seq<char>) -> Seq<char> {
    slug(name) + "--"@ + name_hash(name)
}

/// Root path of a repository: the directory of its main checkout.
#[derive(Debug, Clone, PartialEq, Eq)]
pub struct RepoRoot(pub String);

impl View for RepoRoot {
    type V = Seq<char>;

    open spec fn view(&self) -> Seq<char> {
        self.0@
    }
}

impl DeepView for RepoRoot {
    type V = Seq<char>;

    open spec fn deep_view(&self) -> Seq<char> {
        self.0@
    }
}

/// The directory under a repository root that holds its worktrees.
pub open spec fn worktrees_dir(root: Seq<char>) -> Seq<char> {
    join(root, ".worktrees"@)
}

/// Where the worktree of a branch stands under a repository root.
pub open spec fn worktree_dir(root: Seq<char>, branch: Seq<char>) -> Seq<char> {
    join(worktrees_dir(root), dir_name(branch))
}

impl RepoRoot {
    /// The `.worktrees/` directory under the repository root.
    pub fn worktrees_dir(&self) -> (dir: String)
        ensures
            dir@ == worktrees_dir(self@),
    {
        join_path(self.0.as_str(), ".worktrees")
    }

    /// The root path as text.
    pub fn as_str(&self) -> (s: &str)
        ensures
            s@ == self@,
    {
        self.0.as_str()
    }

    /// A copy of the root path.
    pub fn to_path_buf(&self) -> (s: String)
        ensures
            s@ == self@,
    {
        self.0.clone()
    }
}

/// A branch name.
#[derive(Debug, Clone, PartialEq, Eq)]
pub struct BranchName(pub String);

impl View for BranchName {
    type V = Seq<char>;

    open spec fn view(&self) -> Seq<char> {
        self.0@
    }
}

impl DeepView for BranchName {
    type V = Seq<char>;

    open spec fn deep_view(&self) -> Seq<char> {
        self.0@
    }
}

impl BranchName {
    pub fn new(name: &str) -> (b: Self)
        ensures
            b@ == name@,
    {
        BranchName(name.to_owned())
    }

    /// Return the branch name as a string slice.
    pub fn as_str(&self) -> (s: &str)
        ensures
            s@ == self@,
    {
        self.0.as_str()
    }

    /// Convert the branch name to a collision-safe directory name,
    /// `<slug>--<8 hex digits>`.
    pub fn to_dir_name(&self) -> (dir: String)
        ensures
            dir@ == dir_name(self@),
    {
        let slug = slugify(self.0.as_str());
        let hash = hash8(self.0.as_str());
        concat3(slug.as_str(), "--", hash.as_str())
    }

    /// A copy of this name.
    pub fn duplicate(&self) -> (b: Self)
        ensures
            b@ == self@,
    {
        BranchName(self.0.clone())
    }
}

/// A worktree entry of the repository's listing.
#[derive(Debug, Clone, PartialEq, Eq)]
pub struct Worktree {
    pub path: String,
    pub branch: Option<String>,
    pub commit: String,
    pub is_main: bool,
}

/// What a [`Worktree`] stands for in contracts.
pub struct WorktreeView {
    pub path: Seq<char>,
    pub branch: Option<Seq<char>>,
    pub commit: Seq<char>,
    pub is_main: bool,
}

impl View for Worktree {
    type V = WorktreeView;

    open spec fn view(&self) -> WorktreeView {
        WorktreeView {
            path: self.path@,
            branch: self.branch.deep_view(),
            commit: self.commit@,
            is_main: self.is_main,
        }
    }
}

impl DeepView for Worktree {
    type V = WorktreeView;

    open spec fn deep_view(&self) -> WorktreeView {
        self@
    }
}

/// Two names have the same directory name exactly when they have the same
/// slug and the same hash.
pub proof fn lemma_dir_name_equal(a: Seq<char>, b: Seq<char>)
    ensures
        dir_name(a) == dir_name(b) <==> slug(a) == slug(b) && name_hash(a) == name_hash(b),
{
    reveal_strlit("--");
    if dir_name(a) == dir_name(b) {
        let da = dir_name(a);
        let db = dir_name(b);
        assert(slug(a) =~= da.take(slug(a).len() as int));
        assert(slug(b) =~= db.take(slug(b).len() as int));
        assert(name_hash(b) =~= db.skip(slug(b).len() as int + 2));
    }
}

/// Branch names that slugify alike get different directory names whenever
/// their hashes differ.
pub proof fn lemma_same_slug_distinct_dir_names(a: Seq<char>, b: Seq<char>)
    requires
        a != b,
        slug(a) == slug(b),
        name_hash(a) != name_hash(b),
    ensures
        dir_name(a) != dir_name(b),
{
    lemma_dir_name_equal(a, b);
}

/// The directory name depends on the branch name alone.
pub proof fn lemma_dir_name_deterministic(a: &BranchName, b: &BranchName)
    requires
        a@ == b@,
    ensures
        dir_name(a@) == dir_name(b@),
{
}

/// Whether `c` is a hexadecimal digit in lower case.
pub open spec fn is_hex_char(c: char) -> bool {
    ||| '0' <= c <= '9'
    ||| 'a' <= c <= 'f'
}

/// A directory name is a slug, two hyphens, and eight hexadecimal digits in
/// lower case.
pub proof fn lemma_dir_name_shape(name: Seq<char>)
    ensures
        dir_name(name).len() == slug(name).len() + 10,
        dir_name(name).take(slug(name).len() as int) == slug(name),
        dir_name(name)[slug(name).len() as int] == '-',
        dir_name(name)[slug(name).len() as int + 1] == '-',
        forall|i: int|
            slug(name).len() + 2 <= i < dir_name(name).len() ==> is_hex_char(
                #[trigger] dir_name(name)[i],
            ),
{
    reveal_strlit("--");
}

/// The worktree of a branch stands right under the worktrees directory, in
/// the directory of the branch's name.
pub proof fn lemma_worktree_dir_is_under_worktrees_dir(root: Seq<char>, branch: Seq<char>)
    ensures
        worktree_dir(root, branch) == worktrees_dir(root) + "/"@ + dir_name(branch),
{
    reveal_strlit("--");
    reveal_strlit(".worktrees");
    lemma_slug_shape(branch);
}

/// Whether `c` may stand in a slug.
pub open spec fn is_slug_char(c: char) -> bool {
    ||| 'a' <= c <= 'z'
    ||| '0' <= c <= '9'
    ||| c == '-'
}

/// A slug holds small letters, digits and hyphens only; it neither begins
/// nor ends with a hyphen, and no two hyphens stand side by side.
pub proof fn lemma_slug_shape(name: Seq<char>)
    ensures
        forall|i: int| 0 <= i < slug(name).len() ==> is_slug_char(#[trigger] slug(name)[i]),
        slug(name).len() > 0 ==> slug(name)[0] != '-' && slug(name).last() != '-',
        forall|i: int|
            0 <= i < slug(name).len() - 1 ==> !(#[trigger] slug(name)[i] == '-' && slug(name)[i
                + 1] == '-'),
{
    lemma_slug_untrimmed_shape(name);
}

proof fn lemma_slug_untrimmed_shape(s: Seq<char>)
    ensures
        forall|i: int|
            0 <= i < slug_untrimmed(s).len() ==> is_slug_char(#[trigger] slug_untrimmed(s)[i]),
        slug_untrimmed(s).len() > 0 ==> slug_untrimmed(s)[0] != '-',
        forall|i: int|
            0 <= i < slug_untrimmed(s).len() - 1 ==> !(#[trigger] slug_untrimmed(s)[i] == '-'
                && slug_untrimmed(s)[i + 1] == '-'),
    decreases s.len(),
{
    if s.len() > 0 {
        lemma_slug_untrimmed_shape(s.drop_last());
    }
}

} // verus!
