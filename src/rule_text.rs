//! The text of a rule list: its lines, which of them are comments, the
//! removal of a leading comment block, and the count of rule entries.
use vstd::prelude::*;
use crate::text::{white_space, chars_of, push_chars};

verus! {

/// `l` without one trailing carriage return, if it has one.
pub open spec fn strip_cr(l: Seq<char>) -> Seq<char> {
    if l.len() > 0 && l.last() == '\r' {
        l.drop_last()
    } else {
        l
    }
}

/// Reading `s` from the left: the lines already ended by a line feed, and
/// the characters read since the last line feed.
pub open spec fn scan_lines(s: Seq<char>) -> (Seq<Seq<char>>, Seq<char>)
    decreases s.len(),
{
    if s.len() == 0 {
        (Seq::empty(), Seq::empty())
    } else {
        let prev = scan_lines(s.drop_last());
        if s.last() == '\n' {
            (prev.0.push(strip_cr(prev.1)), Seq::empty())
        } else {
            (prev.0, prev.1.push(s.last()))
        }
    }
}

/// The lines of `s`: split at each line feed, one carriage return before a
/// line feed dropped, and no empty line after a final line feed.
pub open spec fn lines_of(s: Seq<char>) -> Seq<Seq<char>> {
    let sc = scan_lines(s);
    if sc.1.len() > 0 {
        sc.0.push(sc.1)
    } else {
        sc.0
    }
}

/// The lines `ls` joined with a line feed between each two.
pub open spec fn join_lines(ls: Seq<Seq<char>>) -> Seq<char>
    decreases ls.len(),
{
    if ls.len() == 0 {
        Seq::empty()
    } else if ls.len() == 1 {
        ls[0]
    } else {
        join_lines(ls.drop_last()) + seq!['\n'] + ls.last()
    }
}

/// Every character of the line is whitespace (an empty line included).
pub open spec fn blank(l: Seq<char>) -> bool {
    forall|i: int| 0 <= i < l.len() ==> white_space(#[trigger] l[i])
}

/// The first character of `l` that is not whitespace stands at `j`.
pub open spec fn text_starts_at(l: Seq<char>, j: int) -> bool {
    &&& 0 <= j < l.len()
    &&& !white_space(l[j])
    &&& forall|i: int| 0 <= i < j ==> white_space(#[trigger] l[i])
}

/// A comment marker (`#` or `//`) starts at `j`.
pub open spec fn marker_at(l: Seq<char>, j: int) -> bool {
    l[j] == '#' || (j + 1 < l.len() && l[j] == '/' && l[j + 1] == '/')
}

/// The line's text, once leading whitespace is skipped, starts with `#` or `//`.
pub open spec fn comment(l: Seq<char>) -> bool {
    exists|j: int| #[trigger] text_starts_at(l, j) && marker_at(l, j)
}

/// A rule entry: a line that is neither blank nor a comment.
pub open spec fn entry_line(l: Seq<char>) -> bool {
    !blank(l) && !comment(l)
}

/// How many lines at the start of `ls` are blank or comments.
pub open spec fn leading_non_entries(ls: Seq<Seq<char>>) -> nat
    decreases ls.len(),
{
    if ls.len() > 0 && !entry_line(ls[0]) {
        1 + leading_non_entries(ls.drop_first())
    } else {
        0
    }
}

/// The number of entry lines among `ls`.
pub open spec fn entry_count(ls: Seq<Seq<char>>) -> nat
    decreases ls.len(),
{
    if ls.len() == 0 {
        0
    } else {
        entry_count(ls.drop_last()) + if entry_line(ls.last()) {
            1nat
        } else {
            0nat
        }
    }
}

/// The text of `s` from its first entry line on: the leading blank and
/// comment lines removed, the remaining lines joined by line feeds.
pub open spec fn stripped(s: Seq<char>) -> Seq<char> {
    let ls = lines_of(s);
    join_lines(ls.skip(leading_non_entries(ls) as int))
}

/// The number of entry lines of `s`.
pub open spec fn entries_of(s: Seq<char>) -> nat {
    entry_count(lines_of(s))
}

/// A carriage return stands right before a line feed somewhere in `t`.
pub open spec fn has_crlf(t: Seq<char>) -> bool {
    exists|i: int| 0 <= i && i + 1 < t.len() && #[trigger] t[i] == '\r' && t[i + 1] == '\n'
}

/// `t` ends with a line feed.
pub open spec fn ends_with_newline(t: Seq<char>) -> bool {
    t.len() > 0 && t.last() == '\n'
}

/// The character sequences held by a sequence of character vectors.
pub open spec fn views(v: Seq<Vec<char>>) -> Seq<Seq<char>> {
    v.map_values(|x: Vec<char>| x@)
}

/// Splits `cs` into its lines.
pub fn split_lines(cs: &Vec<char>) -> (r: Vec<Vec<char>>)
    ensures
        views(r@) == lines_of(cs@),
{
    let mut done: Vec<Vec<char>> = Vec::new();
    let mut cur: Vec<char> = Vec::new();
    let mut i: usize = 0;
    while i < cs.len()
        invariant
            i <= cs@.len(),
            (views(done@), cur@) == scan_lines(cs@.take(i as int)),
        decreases cs@.len() - i,
    {
        let c = cs[i];
        let ghost before = cs@.take(i as int);
        assert(cs@.take(i + 1 as int).drop_last() == before);
        if c == '\n' {
            let n = cur.len();
            if n > 0 && cur[n - 1] == '\r' {
                cur.pop();
                assert(cur@ == strip_cr(scan_lines(before).1));
            }
            let line = cur;
            done.push(line);
            assert(views(done@) == scan_lines(before).0.push(line@));
            cur = Vec::new();
        } else {
            cur.push(c);
        }
        i += 1;
    }
    assert(cs@.take(cs@.len() as int) == cs@);
    if cur.len() > 0 {
        done.push(cur);
        assert(views(done@) == scan_lines(cs@).0.push(scan_lines(cs@).1));
    }
    done
}

/// Whether the line is a rule entry, neither blank nor a comment.
pub fn is_entry_line(l: &Vec<char>) -> (r: bool)
    ensures
        r == entry_line(l@),
{
    let mut j: usize = 0;
    while j < l.len() && l[j].is_whitespace()
        invariant
            j <= l@.len(),
            forall|i: int| 0 <= i < j ==> white_space(#[trigger] l@[i]),
        decreases l@.len() - j,
    {
        j += 1;
    }
    if j == l.len() {
        false
    } else {
        assert(text_starts_at(l@, j as int));
        assert forall|k: int| #[trigger] text_starts_at(l@, k) implies k == j by {
            if k < j {
                assert(white_space(l@[k]));
            } else if k > j {
                assert(white_space(l@[j as int]));
            }
        }
        assert(!blank(l@));
        let c = l[j];
        let marked = c == '#' || (j + 1 < l.len() && c == '/' && l[j + 1] == '/');
        !marked
    }
}

fn leading_count(ls: &Vec<Vec<char>>) -> (k: usize)
    ensures
        k == leading_non_entries(views(ls@)),
        k <= ls@.len(),
{
    let ghost all = views(ls@);
    assert(all.skip(0) == all);
    let mut i: usize = 0;
    while i < ls.len() && !is_entry_line(&ls[i])
        invariant
            i <= ls@.len(),
            all == views(ls@),
            leading_non_entries(all) == i + leading_non_entries(all.skip(i as int)),
        decreases ls@.len() - i,
    {
        assert(all.skip(i as int).drop_first() == all.skip(i + 1 as int));
        i += 1;
    }
    i
}

/// The lines `ls[from..]` joined by line feeds.
fn join_from(ls: &Vec<Vec<char>>, from: usize) -> (r: String)
    requires
        from <= ls@.len(),
    ensures
        r@ == join_lines(views(ls@).skip(from as int)),
{
    let ghost all = views(ls@);
    let mut out = String::new();
    let mut j: usize = from;
    while j < ls.len()
        invariant
            from <= j <= ls@.len(),
            all == views(ls@),
            out@ == join_lines(all.subrange(from as int, j as int)),
        decreases ls@.len() - j,
    {
        let ghost prev = all.subrange(from as int, j as int);
        let ghost next = all.subrange(from as int, j + 1 as int);
        assert(next.drop_last() == prev);
        if j > from {
            out.push('\n');
        }
        push_chars(&mut out, &ls[j]);
        j += 1;
    }
    assert(all.subrange(from as int, ls@.len() as int) == all.skip(from as int));
    out
}

/// The rule text from its first entry line on: a leading block of blank and
/// comment lines is dropped and the remaining lines are joined by line feeds.
/// A text of comments alone gives an empty text.
pub fn strip_header(content: &str) -> (r: String)
    ensures
        r@ == stripped(content@),
{
    let cs = chars_of(content);
    let ls = split_lines(&cs);
    let k = leading_count(&ls);
    join_from(&ls, k)
}

/// The number of rule entries of `content`: its lines that are neither blank
/// nor comments.
pub fn count_entries(content: &str) -> (r: usize)
    ensures
        r == entries_of(content@),
{
    let cs = chars_of(content);
    let ls = split_lines(&cs);
    let ghost all = views(ls@);
    let mut n: usize = 0;
    let mut i: usize = 0;
    while i < ls.len()
        invariant
            i <= ls@.len(),
            all == views(ls@),
            n == entry_count(all.take(i as int)),
            n <= i,
        decreases ls@.len() - i,
    {
        assert(all.take(i + 1 as int).drop_last() == all.take(i as int));
        if is_entry_line(&ls[i]) {
            n += 1;
        }
        i += 1;
    }
    assert(all.take(ls@.len() as int) == all);
    n
}

} // verus!
