use vstd::prelude::*;
use crate::text::{chars_of, concat2, concat3, same_chars, slice_of, text_of_range};

verus! {

/// `name` under the directory `base`: an absolute `name` stands alone;
/// otherwise one separator stands between the two unless `base` is empty or
/// already ends with one.
pub open spec fn join(base: Seq<char>, name: Seq<char>) -> Seq<char> {
    if name.len() > 0 && name[0] == '/' {
        name
    } else if base.len() == 0 || base.last() == '/' {
        base + name
    } else {
        base + "/"@ + name
    }
}

/// Join a path to a directory.
pub fn join_path(base: &str, name: &str) -> (joined: String)
    ensures
        joined@ == join(base@, name@),
{
    let b = chars_of(base);
    let n = chars_of(name);
    if n.len() > 0 && n[0] == '/' {
        name.to_owned()
    } else if b.len() == 0 || b[b.len() - 1] == '/' {
        concat2(base, name)
    } else {
        concat3(base, "/", name)
    }
}

/// How much of `s` is left when the separators at its end are cut.
pub open spec fn trimmed_len(s: Seq<char>) -> nat
    decreases s.len(),
{
    if s.len() == 0 {
        0
    } else if s.last() == '/' {
        trimmed_len(s.drop_last())
    } else {
        s.len()
    }
}

/// The position of the last separator in `s`, or -1 where it holds none.
pub open spec fn last_separator(s: Seq<char>) -> int
    decreases s.len(),
{
    if s.len() == 0 {
        -1
    } else if s.last() == '/' {
        s.len() - 1
    } else {
        last_separator(s.drop_last())
    }
}

/// The directory that holds `path`: the path without its last name and the
/// separators around it. The root and the empty path have none; a single
/// name has the empty path; a name right under the root has the root.
pub open spec fn parent(path: Seq<char>) -> Option<Seq<char>> {
    let body = path.take(trimmed_len(path) as int);
    if body.len() == 0 {
        None
    } else {
        let head = body.take(last_separator(body) + 1);
        let dir = head.take(trimmed_len(head) as int);
        if head.len() > 0 && dir.len() == 0 {
            Some("/"@)
        } else {
            Some(dir)
        }
    }
}

fn trimmed_end(v: &Vec<char>, len: usize) -> (end: usize)
    requires
        len <= v.len(),
    ensures
        end == trimmed_len(v@.take(len as int)),
        end <= len,
{
    let mut end: usize = len;
    while end > 0 && v[end - 1] == '/'
        invariant
            end <= len <= v.len(),
            trimmed_len(v@.take(len as int)) == trimmed_len(v@.take(end as int)),
        decreases end,
    {
        assert(v@.take(end as int).drop_last() =~= v@.take(end - 1));
        end -= 1;
    }
    end
}

/// One more than the position of the last separator in `v[..len]`.
fn after_last_separator(v: &Vec<char>, len: usize) -> (cut: usize)
    requires
        len <= v.len(),
    ensures
        cut == last_separator(v@.take(len as int)) + 1,
        cut <= len,
{
    let mut cut: usize = len;
    while cut > 0 && v[cut - 1] != '/'
        invariant
            cut <= len <= v.len(),
            last_separator(v@.take(len as int)) == last_separator(v@.take(cut as int)),
        decreases cut,
    {
        assert(v@.take(cut as int).drop_last() =~= v@.take(cut - 1));
        cut -= 1;
    }
    cut
}

/// The directory that holds a path, if it has one.
pub fn parent_dir(path: &str) -> (dir: Option<String>)
    ensures
        dir.deep_view() == parent(path@),
{
    let v = chars_of(path);
    let end = trimmed_end(&v, v.len());
    assert(v@.take(v.len() as int) =~= v@);
    if end == 0 {
        return None;
    }
    let cut = after_last_separator(&v, end);
    let stop = trimmed_end(&v, cut);
    proof {
        let body = v@.take(end as int);
        assert(body.take(cut as int) =~= v@.take(cut as int));
    }
    if cut > 0 && stop == 0 {
        Some("/".to_owned())
    } else {
        Some(text_of_range(&v, 0, stop))
    }
}

/// The names of a path from `start` on, `i` being the position that is read:
/// what stands between separators, without the empty pieces and without
/// the pieces `.` that do not begin the path.
pub open spec fn names_from(s: Seq<char>, start: int, i: int) -> Seq<Seq<char>>
    decreases s.len() - i,
{
    if i >= s.len() {
        name_piece(s, start, s.len() as int)
    } else if s[i] == '/' {
        name_piece(s, start, i) + names_from(s, i + 1, i + 1)
    } else {
        names_from(s, start, i + 1)
    }
}

/// The piece `s[start..end]` as a run of names: none where it is empty or a
/// `.` that does not begin the path.
pub open spec fn name_piece(s: Seq<char>, start: int, end: int) -> Seq<Seq<char>> {
    let piece = s.subrange(start, end);
    if piece.len() == 0 || (piece == "."@ && start > 0) {
        Seq::empty()
    } else {
        seq![piece]
    }
}

/// The parts of a path: the root, where the path begins with a separator,
/// and then its names.
pub open spec fn parts(path: Seq<char>) -> Seq<Seq<char>> {
    if path.len() > 0 && path[0] == '/' {
        seq!["/"@] + names_from(path, 0, 0)
    } else {
        names_from(path, 0, 0)
    }
}

/// Whether `path` lies at or under `base`: the parts of `base` begin the
/// parts of `path`.
pub open spec fn is_within(path: Seq<char>, base: Seq<char>) -> bool {
    parts(base).is_prefix_of(parts(path))
}

/// The parts of a path.
pub fn path_parts(path: &str) -> (out: Vec<Vec<char>>)
    ensures
        out.deep_view() == parts(path@),
{
    let s = chars_of(path);
    let dot = chars_of(".");
    let mut out: Vec<Vec<char>> = Vec::new();
    if s.len() > 0 && s[0] == '/' {
        let ghost before = out.deep_view();
        let root = chars_of("/");
        out.push(root);
        assert(out.deep_view() =~~= before.push("/"@));
    }
    let ghost lead = out.deep_view();
    let mut start: usize = 0;
    let mut i: usize = 0;
    let ghost mut done: Seq<Seq<char>> = Seq::empty();
    while i < s.len()
        invariant
            start <= i <= s.len(),
            dot@ == "."@,
            out.deep_view() == lead + done,
            names_from(s@, 0, 0) == done + names_from(s@, start as int, i as int),
        decreases s.len() - i,
    {
        if s[i] == '/' {
            let piece = slice_of(&s, start, i);
            let ghost before = out.deep_view();
            if piece.len() > 0 && !(start > 0 && same_chars(&piece, &dot)) {
                out.push(piece);
                assert(out.deep_view() =~~= before.push(s@.subrange(start as int, i as int)));
            }
            proof {
                let added = name_piece(s@, start as int, i as int);
                done = done + added;
            }
            i += 1;
            start = i;
        } else {
            i += 1;
        }
    }
    let piece = slice_of(&s, start, s.len());
    let ghost before = out.deep_view();
    if piece.len() > 0 && !(start > 0 && same_chars(&piece, &dot)) {
        out.push(piece);
        assert(out.deep_view() =~~= before.push(s@.subrange(start as int, s.len() as int)));
    }
    out
}

/// Whether `path` lies at or under `base`.
pub fn path_is_within(path: &str, base: &str) -> (r: bool)
    ensures
        r == is_within(path@, base@),
{
    let p = path_parts(path);
    let b = path_parts(base);
    if b.len() > p.len() {
        return false;
    }
    let mut i: usize = 0;
    while i < b.len()
        invariant
            i <= b.len() <= p.len(),
            b.deep_view() == parts(base@),
            p.deep_view() == parts(path@),
            forall|j: int| 0 <= j < i ==> b@[j]@ == p@[j]@,
        decreases b.len() - i,
    {
        if !same_chars(&b[i], &p[i]) {
            proof {
                let bs = b.deep_view();
                let ps = p.deep_view();
                assert(bs[i as int] =~= b@[i as int]@);
                assert(ps[i as int] =~= p@[i as int]@);
            }
            return false;
        }
        i += 1;
    }
    true
}

} // verus!
