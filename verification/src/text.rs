use vstd::prelude::*;
use vstd::string::{StrSliceExecFns, StringExecFns};

verus! {

/// `String::push` of the standard library, taken on trust from its
/// documentation: it appends the character to the end of the string.
pub assume_specification[ String::push ](s: &mut String, c: char)
    ensures
        final(s)@ == old(s)@.push(c),
;

/// The characters of a string slice, in order.
pub fn chars_of(s: &str) -> (v: Vec<char>)
    ensures
        v@ == s@,
{
    let mut v: Vec<char> = Vec::new();
    for c in it: s.chars()
        invariant
            it.seq() == s@,
            v@ == it.seq().take(it.index() as int),
    {
        v.push(c);
    }
    v
}

/// The string made of the characters `v[from..to]`.
pub fn text_of_range(v: &Vec<char>, from: usize, to: usize) -> (s: String)
    requires
        from <= to <= v.len(),
    ensures
        s@ == v@.subrange(from as int, to as int),
{
    let mut s = String::new();
    let mut i: usize = from;
    while i < to
        invariant
            from <= i <= to <= v.len(),
            s@ == v@.subrange(from as int, i as int),
        decreases to - i,
    {
        s.push(v[i]);
        i += 1;
    }
    s
}

/// The string made of the characters of `v`.
pub fn text_of(v: &Vec<char>) -> (s: String)
    ensures
        s@ == v@,
{
    let s = text_of_range(v, 0, v.len());
    s
}

/// `a` followed by `b`.
pub fn concat2(a: &str, b: &str) -> (s: String)
    ensures
        s@ == a@ + b@,
{
    let mut s = a.to_owned();
    s.append(b);
    s
}

/// `a`, `b` and `c` in a row.
pub fn concat3(a: &str, b: &str, c: &str) -> (s: String)
    ensures
        s@ == a@ + b@ + c@,
{
    let mut s = a.to_owned();
    s.append(b);
    s.append(c);
    s
}

/// Whether `c` is white space: a character with the Unicode property
/// `White_Space`.
pub open spec fn is_space(c: char) -> bool {
    ||| '\u{9}' <= c <= '\u{d}'
    ||| c == ' '
    ||| c == '\u{85}'
    ||| c == '\u{a0}'
    ||| c == '\u{1680}'
    ||| '\u{2000}' <= c <= '\u{200a}'
    ||| c == '\u{2028}'
    ||| c == '\u{2029}'
    ||| c == '\u{202f}'
    ||| c == '\u{205f}'
    ||| c == '\u{3000}'
}

/// `s` without the white space at its end.
pub open spec fn trim_end(s: Seq<char>) -> Seq<char>
    decreases s.len(),
{
    if s.len() > 0 && is_space(s.last()) {
        trim_end(s.drop_last())
    } else {
        s
    }
}

/// `s` without the white space at its start.
pub open spec fn trim_start(s: Seq<char>) -> Seq<char>
    decreases s.len(),
{
    if s.len() > 0 && is_space(s[0]) {
        trim_start(s.drop_first())
    } else {
        s
    }
}

/// `s` without the white space at its two ends.
pub open spec fn trimmed(s: Seq<char>) -> Seq<char> {
    trim_start(trim_end(s))
}

fn is_space_char(c: char) -> (r: bool)
    ensures
        r == is_space(c),
{
    (c >= '\u{9}' && c <= '\u{d}') || c == ' ' || c == '\u{85}' || c == '\u{a0}' || c
        == '\u{1680}' || (c >= '\u{2000}' && c <= '\u{200a}') || c == '\u{2028}' || c
        == '\u{2029}' || c == '\u{202f}' || c == '\u{205f}' || c == '\u{3000}'
}

/// Cut the white space at the two ends of a text.
pub fn trim(s: &str) -> (r: String)
    ensures
        r@ == trimmed(s@),
{
    let v = chars_of(s);
    let mut end: usize = v.len();
    assert(v@.take(v.len() as int) =~= v@);
    while end > 0 && is_space_char(v[end - 1])
        invariant
            end <= v.len(),
            trim_end(v@) == trim_end(v@.take(end as int)),
        decreases end,
    {
        assert(v@.take(end as int).drop_last() =~= v@.take(end - 1));
        end -= 1;
    }
    let mut start: usize = 0;
    while start < end && is_space_char(v[start])
        invariant
            start <= end <= v.len(),
            trimmed(v@) == trim_start(v@.subrange(start as int, end as int)),
        decreases end - start,
    {
        assert(v@.subrange(start as int, end as int).drop_first() =~= v@.subrange(
            start + 1,
            end as int,
        ));
        start += 1;
    }
    text_of_range(&v, start, end)
}

/// Whether `needle` stands in `s` at position `i`.
pub open spec fn occurs_at(s: Seq<char>, needle: Seq<char>, i: int) -> bool {
    &&& 0 <= i
    &&& i + needle.len() <= s.len()
    &&& s.subrange(i, i + needle.len()) == needle
}

/// Whether `needle` stands somewhere in `s`.
pub open spec fn contains(s: Seq<char>, needle: Seq<char>) -> bool {
    exists|i: int| occurs_at(s, needle, i)
}

/// Whether `s` begins with `prefix`.
pub open spec fn starts_with(s: Seq<char>, prefix: Seq<char>) -> bool {
    occurs_at(s, prefix, 0)
}

/// `s` without `prefix` at its start, if it begins with it.
pub open spec fn strip_prefix(s: Seq<char>, prefix: Seq<char>) -> Option<Seq<char>> {
    if starts_with(s, prefix) {
        Some(s.skip(prefix.len() as int))
    } else {
        None
    }
}

/// Whether `needle` stands in `s` at position `i`.
pub fn matches_at(s: &Vec<char>, needle: &Vec<char>, i: usize) -> (r: bool)
    ensures
        r == occurs_at(s@, needle@, i as int),
{
    if needle.len() > s.len() || i > s.len() - needle.len() {
        return false;
    }
    let mut k: usize = 0;
    while k < needle.len()
        invariant
            k <= needle.len(),
            i + needle.len() <= s.len(),
            forall|j: int| 0 <= j < k ==> s@[i + j] == needle@[j],
        decreases needle.len() - k,
    {
        if s[i + k] != needle[k] {
            return false;
        }
        k += 1;
    }
    assert(s@.subrange(i as int, i + needle.len()) =~= needle@);
    true
}

/// Whether `needle` stands somewhere in `s`.
pub fn has_substring(s: &Vec<char>, needle: &Vec<char>) -> (r: bool)
    ensures
        r == contains(s@, needle@),
{
    if needle.len() > s.len() {
        return false;
    }
    let last: usize = s.len() - needle.len();
    let mut i: usize = 0;
    while i < last
        invariant
            i <= last,
            last == s.len() - needle.len(),
            forall|j: int| 0 <= j < i ==> !occurs_at(s@, needle@, j),
        decreases last - i,
    {
        if matches_at(s, needle, i) {
            return true;
        }
        i += 1;
    }
    let found = matches_at(s, needle, last);
    found
}

/// A copy of the characters `v[from..to]`.
pub fn slice_of(v: &Vec<char>, from: usize, to: usize) -> (r: Vec<char>)
    requires
        from <= to <= v.len(),
    ensures
        r@ == v@.subrange(from as int, to as int),
{
    let mut r: Vec<char> = Vec::new();
    let mut i: usize = from;
    while i < to
        invariant
            from <= i <= to <= v.len(),
            r@ == v@.subrange(from as int, i as int),
        decreases to - i,
    {
        r.push(v[i]);
        i += 1;
    }
    r
}

/// The rest of `s` behind `prefix`, where `s` begins with it.
pub fn strip_prefix_chars(s: &Vec<char>, prefix: &Vec<char>) -> (r: Option<Vec<char>>)
    ensures
        match r {
            Some(rest) => strip_prefix(s@, prefix@) == Some(rest@),
            None => strip_prefix(s@, prefix@) is None,
        },
{
    if matches_at(s, prefix, 0) {
        let rest = slice_of(s, prefix.len(), s.len());
        Some(rest)
    } else {
        None
    }
}

/// Whether two character sequences are the same.
pub fn same_chars(a: &Vec<char>, b: &Vec<char>) -> (r: bool)
    ensures
        r == (a@ == b@),
{
    if a.len() != b.len() {
        return false;
    }
    let r = matches_at(a, b, 0);
    assert(a@.subrange(0, a.len() as int) =~= a@);
    r
}

/// Whether two strings hold the same text.
pub fn same_text(a: &str, b: &str) -> (r: bool)
    ensures
        r == (a@ == b@),
{
    let x = chars_of(a);
    let y = chars_of(b);
    same_chars(&x, &y)
}

/// The pieces of `s` between separators of two line feeds, the separators
/// taken from the left and never overlapping. `start` is where the piece
/// being read began and `i` the position being read.
pub open spec fn blocks_from(s: Seq<char>, start: int, i: int) -> Seq<Seq<char>>
    decreases s.len() - i,
{
    if i >= s.len() {
        seq![s.subrange(start, s.len() as int)]
    } else if s[i] == '\n' && i + 1 < s.len() && s[i + 1] == '\n' {
        seq![s.subrange(start, i)] + blocks_from(s, i + 2, i + 2)
    } else {
        blocks_from(s, start, i + 1)
    }
}

/// The blocks of a text: what stands between its blank-line separators. A
/// text without a separator is one block; what follows the last separator is
/// a block like the others.
pub open spec fn blocks(s: Seq<char>) -> Seq<Seq<char>> {
    blocks_from(s, 0, 0)
}

/// `line` without one carriage return at its end.
pub open spec fn strip_cr(line: Seq<char>) -> Seq<char> {
    if line.len() > 0 && line.last() == '\r' {
        line.drop_last()
    } else {
        line
    }
}

/// The lines of `s` from `start` on, `i` being the position that is read.
pub open spec fn lines_from(s: Seq<char>, start: int, i: int) -> Seq<Seq<char>>
    decreases s.len() - i,
{
    if i >= s.len() {
        if start < s.len() {
            seq![s.subrange(start, s.len() as int)]
        } else {
            Seq::empty()
        }
    } else if s[i] == '\n' {
        seq![strip_cr(s.subrange(start, i))] + lines_from(s, i + 1, i + 1)
    } else {
        lines_from(s, start, i + 1)
    }
}

/// The lines of a text. A line ends with a line feed, which is not part of
/// it, nor is a carriage return just before the line feed. What follows the
/// last line feed is a line if it is not empty.
pub open spec fn lines(s: Seq<char>) -> Seq<Seq<char>> {
    lines_from(s, 0, 0)
}

/// Split a text into its blocks.
pub fn split_blocks(s: &Vec<char>) -> (out: Vec<Vec<char>>)
    ensures
        out.deep_view() == blocks(s@),
{
    let mut out: Vec<Vec<char>> = Vec::new();
    let mut start: usize = 0;
    let mut i: usize = 0;
    while i < s.len()
        invariant
            start <= i <= s.len(),
            blocks(s@) == out.deep_view() + blocks_from(s@, start as int, i as int),
        decreases s.len() - i,
    {
        if s[i] == '\n' && i + 1 < s.len() && s[i + 1] == '\n' {
            let ghost before = out.deep_view();
            let piece = slice_of(s, start, i);
            out.push(piece);
            assert(out.deep_view() =~~= before.push(s@.subrange(start as int, i as int)));
            i += 2;
            start = i;
        } else {
            i += 1;
        }
    }
    let ghost before = out.deep_view();
    let piece = slice_of(s, start, s.len());
    out.push(piece);
    assert(out.deep_view() =~~= before.push(s@.subrange(start as int, s.len() as int)));
    out
}

/// Split a text into its lines.
pub fn split_lines(s: &Vec<char>) -> (out: Vec<Vec<char>>)
    ensures
        out.deep_view() == lines(s@),
{
    let mut out: Vec<Vec<char>> = Vec::new();
    let mut start: usize = 0;
    let mut i: usize = 0;
    while i < s.len()
        invariant
            start <= i <= s.len(),
            lines(s@) == out.deep_view() + lines_from(s@, start as int, i as int),
        decreases s.len() - i,
    {
        if s[i] == '\n' {
            let ghost before = out.deep_view();
            let end: usize = if i > start && s[i - 1] == '\r' {
                i - 1
            } else {
                i
            };
            let piece = slice_of(s, start, end);
            out.push(piece);
            assert(out.deep_view() =~~= before.push(strip_cr(s@.subrange(start as int, i as int))));
            i += 1;
            start = i;
        } else {
            i += 1;
        }
    }
    if start < s.len() {
        let ghost before = out.deep_view();
        let piece = slice_of(s, start, s.len());
        out.push(piece);
        assert(out.deep_view() =~~= before.push(s@.subrange(start as int, s.len() as int)));
    }
    out
}

/// A text that holds no separator is one block.
pub proof fn lemma_single_block(s: Seq<char>)
    requires
        !contains(s, "\n\n"@),
    ensures
        blocks(s) == seq![s],
{
    lemma_no_separator_from(s, 0, 0);
    assert(s.subrange(0, s.len() as int) =~= s);
}

proof fn lemma_no_separator_from(s: Seq<char>, start: int, i: int)
    requires
        !contains(s, "\n\n"@),
        0 <= start <= i <= s.len(),
    ensures
        blocks_from(s, start, i) == seq![s.subrange(start, s.len() as int)],
    decreases s.len() - i,
{
    reveal_strlit("\n\n");
    if i < s.len() {
        if s[i] == '\n' && i + 1 < s.len() && s[i + 1] == '\n' {
            assert(s.subrange(i, i + 2) =~= "\n\n"@);
            assert(occurs_at(s, "\n\n"@, i));
        } else {
            lemma_no_separator_from(s, start, i + 1);
        }
    }
}

/// A separator at the end of a text that does not end with a line feed adds
/// one empty block, and leaves the blocks before it as they are: the last
/// block of a text needs no separator behind it.
pub proof fn lemma_blocks_with_final_separator(s: Seq<char>)
    requires
        s.len() == 0 || s.last() != '\n',
    ensures
        blocks(s + "\n\n"@) == blocks(s).push(Seq::empty()),
{
    lemma_final_separator_from(s, 0, 0);
}

proof fn lemma_final_separator_from(s: Seq<char>, start: int, i: int)
    requires
        s.len() == 0 || s.last() != '\n',
        0 <= start <= i <= s.len(),
    ensures
        blocks_from(s + "\n\n"@, start, i) == blocks_from(s, start, i).push(Seq::empty()),
    decreases s.len() - i,
{
    reveal_strlit("\n\n");
    let t = s + "\n\n"@;
    if i >= s.len() {
        assert(t.subrange(start, i) =~= s.subrange(start, s.len() as int));
        assert(t.subrange(i + 2, t.len() as int) =~= Seq::<char>::empty());
        assert(blocks_from(t, i + 2, i + 2) == seq![t.subrange(i + 2, t.len() as int)]);
    } else {
        if s[i] == '\n' && i + 1 < s.len() && s[i + 1] == '\n' {
            lemma_final_separator_from(s, i + 2, i + 2);
            assert(t.subrange(start, i) =~= s.subrange(start, i));
        } else {
            lemma_final_separator_from(s, start, i + 1);
        }
    }
}

/// `s` with blanks behind it until it is `width` characters long; `s`
/// itself where it is that long already.
pub open spec fn pad(s: Seq<char>, width: nat) -> Seq<char> {
    if s.len() >= width {
        s
    } else {
        s + Seq::new((width - s.len()) as nat, |i: int| ' ')
    }
}

/// Fill a text with blanks on the right up to a width in characters.
pub fn pad_right(s: &str, width: usize) -> (r: String)
    ensures
        r@ == pad(s@, width as nat),
{
    let len = s.unicode_len();
    let mut r = s.to_owned();
    if len >= width {
        return r;
    }
    let mut i: usize = len;
    while i < width
        invariant
            len <= i <= width,
            len == s@.len(),
            r@ == s@ + Seq::new((i - len) as nat, |k: int| ' '),
        decreases width - i,
    {
        r.push(' ');
        i += 1;
    }
    r
}

/// The character of a decimal digit.
pub open spec fn digit(d: nat) -> char {
    ((48 + d) as u8) as char
}

/// A number in decimal digits, without leading zeros.
pub open spec fn decimal(n: nat) -> Seq<char>
    decreases n,
{
    if n < 10 {
        seq![digit(n)]
    } else {
        decimal(n / 10).push(digit(n % 10))
    }
}

/// Write a number in decimal digits.
pub fn decimal_text(n: usize) -> (r: String)
    ensures
        r@ == decimal(n as nat),
{
    let mut reversed: Vec<char> = Vec::new();
    let mut rest: usize = n;
    let ghost mut tail: Seq<char> = Seq::empty();
    while rest >= 10
        invariant
            decimal(n as nat) == decimal(rest as nat) + tail,
            reversed@.len() == tail.len(),
            forall|k: int| 0 <= k < tail.len() ==> reversed@[k] == tail[tail.len() - 1 - k],
        decreases rest,
    {
        let d: u8 = (rest % 10) as u8;
        let c = (48 + d) as char;
        proof {
            let low = seq![c];
            tail = low + tail;
        }
        reversed.push(c);
        rest = rest / 10;
    }
    let d: u8 = rest as u8;
    let c = (48 + d) as char;
    proof {
        tail = seq![c] + tail;
    }
    reversed.push(c);
    let mut out: Vec<char> = Vec::new();
    let mut i: usize = reversed.len();
    while i > 0
        invariant
            i <= reversed.len(),
            reversed@.len() == tail.len(),
            forall|k: int| 0 <= k < tail.len() ==> reversed@[k] == tail[tail.len() - 1 - k],
            out@ == tail.take(reversed.len() - i),
        decreases i,
    {
        i -= 1;
        out.push(reversed[i]);
    }
    text_of(&out)
}

/// `true` or `false` in letters.
pub open spec fn truth(value: bool) -> Seq<char> {
    if value {
        "true"@
    } else {
        "false"@
    }
}

/// Write a truth value in letters.
pub fn truth_text(value: bool) -> (r: String)
    ensures
        r@ == truth(value),
{
    if value {
        "true".to_owned()
    } else {
        "false".to_owned()
    }
}

} // verus!
