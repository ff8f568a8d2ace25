//! What holds of header stripping across calls, proved from the line model.
use vstd::prelude::*;
use crate::rule_text::{
    scan_lines, lines_of, join_lines, strip_cr, entry_line, blank, leading_non_entries,
    entry_count, stripped, entries_of, has_crlf, ends_with_newline,
};

verus! {

/// `l` holds no line feed.
pub open spec fn no_newline(l: Seq<char>) -> bool {
    forall|i: int| 0 <= i < l.len() ==> #[trigger] l[i] != '\n'
}

proof fn lemma_scan_no_newline(s: Seq<char>)
    ensures
        no_newline(scan_lines(s).1),
        forall|j: int| 0 <= j < scan_lines(s).0.len() ==> no_newline(#[trigger] scan_lines(s).0[j]),
    decreases s.len(),
{
    if s.len() > 0 {
        lemma_scan_no_newline(s.drop_last());
        let prev = scan_lines(s.drop_last());
        if s.last() == '\n' {
            assert(no_newline(strip_cr(prev.1)));
            assert forall|j: int| 0 <= j < scan_lines(s).0.len() implies no_newline(
                #[trigger] scan_lines(s).0[j],
            ) by {
                if j < prev.0.len() {
                    assert(scan_lines(s).0[j] == prev.0[j]);
                }
            }
        } else {
            assert(no_newline(prev.1.push(s.last())));
        }
    }
}

proof fn lemma_lines_no_newline(s: Seq<char>)
    ensures
        forall|j: int| 0 <= j < lines_of(s).len() ==> no_newline(#[trigger] lines_of(s)[j]),
{
    lemma_scan_no_newline(s);
}

/// Reading characters that hold no line feed only extends the line in progress.
pub(crate) proof fn lemma_scan_append(a: Seq<char>, b: Seq<char>)
    requires
        no_newline(b),
    ensures
        scan_lines(a + b) == (scan_lines(a).0, scan_lines(a).1 + b),
    decreases b.len(),
{
    if b.len() == 0 {
        assert(a + b == a);
        assert(scan_lines(a).1 + b == scan_lines(a).1);
    } else {
        let b0 = b.drop_last();
        assert(no_newline(b0)) by {
            assert forall|i: int| 0 <= i < b0.len() implies #[trigger] b0[i] != '\n' by {
                assert(b0[i] == b[i]);
            }
        }
        lemma_scan_append(a, b0);
        assert((a + b).drop_last() == a + b0);
        assert((a + b).last() == b.last());
        assert(b.last() == b[b.len() - 1]);
        assert(scan_lines(a).1 + b0.push(b.last()) == scan_lines(a).1 + b);
        assert(b0.push(b.last()) == b);
        assert((scan_lines(a).1 + b0).push(b.last()) == scan_lines(a).1 + b);
    }
}

proof fn lemma_scan_join(m: Seq<Seq<char>>)
    requires
        m.len() > 0,
        forall|j: int| 0 <= j < m.len() ==> no_newline(#[trigger] m[j]),
    ensures
        scan_lines(join_lines(m)) == (m.drop_last().map_values(|l: Seq<char>| strip_cr(l)), m.last()),
    decreases m.len(),
{
    if m.len() == 1 {
        lemma_scan_append(Seq::empty(), m[0]);
        assert(Seq::<char>::empty() + m[0] == m[0]);
        assert(scan_lines(Seq::<char>::empty()) == (Seq::<Seq<char>>::empty(), Seq::<char>::empty()));
        assert(m.drop_last().map_values(|l: Seq<char>| strip_cr(l)) == Seq::<Seq<char>>::empty());
        assert(Seq::<char>::empty() + m[0] == m[0]);
    } else {
        let mp = m.drop_last();
        assert forall|j: int| 0 <= j < mp.len() implies no_newline(#[trigger] mp[j]) by {
            assert(mp[j] == m[j]);
        }
        lemma_scan_join(mp);
        let a = join_lines(mp).push('\n');
        assert(join_lines(m) == a + m.last());
        assert(a.drop_last() == join_lines(mp));
        assert(m.last() == m[m.len() - 1]);
        lemma_scan_append(a, m.last());
        assert(Seq::<char>::empty() + m.last() == m.last());
        assert(mp.drop_last().map_values(|l: Seq<char>| strip_cr(l)).push(strip_cr(mp.last()))
            == mp.map_values(|l: Seq<char>| strip_cr(l)));
    }
}

/// The last line of `join_lines(m)` ends the joined text.
proof fn lemma_join_ends_with_last(m: Seq<Seq<char>>)
    requires
        m.len() > 0,
    ensures
        exists|p: Seq<char>| p + m.last() == #[trigger] join_lines(m),
{
    if m.len() == 1 {
        assert(Seq::<char>::empty() + m.last() == join_lines(m));
    } else {
        let p = join_lines(m.drop_last()) + seq!['\n'];
        assert(p + m.last() == join_lines(m));
    }
}

/// With no carriage return right before a line feed in the joined text, no
/// line but the last ends with a carriage return.
proof fn lemma_join_no_crlf(m: Seq<Seq<char>>)
    requires
        !has_crlf(join_lines(m)),
    ensures
        forall|j: int| 0 <= j < m.len() - 1 ==> strip_cr(#[trigger] m[j]) == m[j],
    decreases m.len(),
{
    if m.len() >= 2 {
        let mp = m.drop_last();
        let t = join_lines(m);
        let tp = join_lines(mp);
        assert(t == tp + seq!['\n'] + m.last());
        assert(!has_crlf(tp)) by {
            if has_crlf(tp) {
                let i = choose|i: int| 0 <= i && i + 1 < tp.len() && #[trigger] tp[i] == '\r' && tp[i + 1] == '\n';
                assert(t[i] == tp[i]);
                assert(t[i + 1] == tp[i + 1]);
            }
        }
        lemma_join_no_crlf(mp);
        let last = mp.last();
        if last.len() > 0 && last.last() == '\r' {
            lemma_join_ends_with_last(mp);
            let p = choose|p: Seq<char>| p + mp.last() == #[trigger] join_lines(mp);
            let i = tp.len() - 1;
            assert(tp[i] == last[last.len() - 1]);
            assert(t[i] == '\r');
            assert(t[i + 1] == '\n');
        }
        assert forall|j: int| 0 <= j < m.len() - 1 implies strip_cr(#[trigger] m[j]) == m[j] by {
            if j < mp.len() - 1 {
                assert(m[j] == mp[j]);
            } else {
                assert(m[j] == last);
            }
        }
    }
}

proof fn lemma_first_after_leading_is_entry(ls: Seq<Seq<char>>)
    requires
        leading_non_entries(ls) < ls.len(),
    ensures
        entry_line(ls[leading_non_entries(ls) as int]),
        leading_non_entries(ls) <= ls.len(),
    decreases ls.len(),
{
    if ls.len() > 0 && !entry_line(ls[0]) {
        lemma_first_after_leading_is_entry(ls.drop_first());
        assert(ls.drop_first()[leading_non_entries(ls.drop_first()) as int]
            == ls[leading_non_entries(ls) as int]);
    }
}

pub(crate) proof fn lemma_leading_bound(ls: Seq<Seq<char>>)
    ensures
        leading_non_entries(ls) <= ls.len(),
    decreases ls.len(),
{
    if ls.len() > 0 && !entry_line(ls[0]) {
        lemma_leading_bound(ls.drop_first());
    }
}

/// Under the conditions of idempotence, the lines of the stripped text are
/// the lines of the input from its first entry on.
proof fn lemma_lines_of_stripped(s: Seq<char>)
    requires
        !has_crlf(stripped(s)),
        !ends_with_newline(stripped(s)),
    ensures
        lines_of(stripped(s)) == lines_of(s).skip(leading_non_entries(lines_of(s)) as int),
{
    let ls = lines_of(s);
    let k = leading_non_entries(ls);
    lemma_leading_bound(ls);
    let m = ls.skip(k as int);
    let t = stripped(s);
    assert(t == join_lines(m));
    if m.len() == 0 {
        assert(t == Seq::<char>::empty());
        assert(scan_lines(t) == (Seq::<Seq<char>>::empty(), Seq::<char>::empty()));
        assert(lines_of(t) == m);
    } else {
        lemma_lines_no_newline(s);
        assert forall|j: int| 0 <= j < m.len() implies no_newline(#[trigger] m[j]) by {
            assert(m[j] == ls[k + j]);
        }
        lemma_first_after_leading_is_entry(ls);
        assert(m[0] == ls[k as int]);
        lemma_scan_join(m);
        lemma_join_no_crlf(m);
        assert(m.last().len() > 0) by {
            if m.len() == 1 {
                assert(!blank(m[0]));
            } else {
                assert(t == join_lines(m.drop_last()) + seq!['\n'] + m.last());
                if m.last().len() == 0 {
                    assert(t.last() == '\n');
                }
            }
        }
        assert(m.drop_last().map_values(|l: Seq<char>| strip_cr(l)) == m.drop_last()) by {
            assert forall|j: int| 0 <= j < m.drop_last().len() implies #[trigger] m.drop_last()[j]
                == strip_cr(m.drop_last()[j]) by {
                assert(m.drop_last()[j] == m[j]);
            }
        }
        assert(m.drop_last().push(m.last()) == m);
    }
}

/// Stripping a body that was already stripped gives the same body back.
/// The body must not hold a carriage return right before a line feed, nor
/// end with a line feed: line splitting drops both, so stripping again
/// would remove them.
pub proof fn lemma_strip_idempotent(s: Seq<char>)
    requires
        !has_crlf(stripped(s)),
        !ends_with_newline(stripped(s)),
    ensures
        stripped(stripped(s)) == stripped(s),
{
    let ls = lines_of(s);
    let k = leading_non_entries(ls);
    let m = ls.skip(k as int);
    lemma_lines_of_stripped(s);
    lemma_leading_bound(ls);
    if m.len() > 0 {
        lemma_first_after_leading_is_entry(ls);
        assert(m[0] == ls[k as int]);
        assert(leading_non_entries(m) == 0);
    } else {
        assert(leading_non_entries(m) == 0);
    }
    assert(m.skip(0) == m);
}

proof fn lemma_leading_are_non_entries(ls: Seq<Seq<char>>)
    ensures
        forall|j: int| 0 <= j < leading_non_entries(ls) ==> !entry_line(#[trigger] ls[j]),
    decreases ls.len(),
{
    if ls.len() > 0 && !entry_line(ls[0]) {
        let rest = ls.drop_first();
        lemma_leading_are_non_entries(rest);
        lemma_leading_bound(rest);
        assert forall|j: int| 0 <= j < leading_non_entries(ls) implies !entry_line(#[trigger] ls[j]) by {
            if j > 0 {
                assert(ls[j] == rest[j - 1]);
            }
        }
    }
}

pub(crate) proof fn lemma_count_concat(a: Seq<Seq<char>>, b: Seq<Seq<char>>)
    ensures
        entry_count(a + b) == entry_count(a) + entry_count(b),
    decreases b.len(),
{
    if b.len() == 0 {
        assert(a + b == a);
    } else {
        lemma_count_concat(a, b.drop_last());
        assert((a + b).drop_last() == a + b.drop_last());
        assert((a + b).last() == b.last());
    }
}

/// Stripping keeps every entry: the stripped text has as many entry lines as
/// the input, under the same conditions as idempotence.
pub proof fn lemma_strip_keeps_entries(s: Seq<char>)
    requires
        !has_crlf(stripped(s)),
        !ends_with_newline(stripped(s)),
    ensures
        entries_of(stripped(s)) == entries_of(s),
{
    let ls = lines_of(s);
    let k = leading_non_entries(ls);
    lemma_leading_bound(ls);
    lemma_lines_of_stripped(s);
    lemma_leading_are_non_entries(ls);
    let head = ls.take(k as int);
    assert forall|j: int| 0 <= j < head.len() implies !entry_line(#[trigger] head[j]) by {
        assert(head[j] == ls[j]);
    }
    lemma_count_none(head);
    lemma_count_concat(head, ls.skip(k as int));
    assert(head + ls.skip(k as int) == ls);
}

/// A text whose lines are all blank or comments strips to nothing, and the
/// stripped text counts no entries.
pub proof fn lemma_all_comments(s: Seq<char>)
    requires
        forall|j: int| 0 <= j < lines_of(s).len() ==> !entry_line(#[trigger] lines_of(s)[j]),
    ensures
        stripped(s) == Seq::<char>::empty(),
        entries_of(s) == 0,
        entries_of(stripped(s)) == 0,
{
    let ls = lines_of(s);
    lemma_leading_bound(ls);
    if leading_non_entries(ls) < ls.len() {
        lemma_first_after_leading_is_entry(ls);
    }
    assert(ls.skip(ls.len() as int) == Seq::<Seq<char>>::empty());
    lemma_count_none(ls);
    let e = Seq::<char>::empty();
    assert(scan_lines(e) == (Seq::<Seq<char>>::empty(), Seq::<char>::empty()));
    assert(lines_of(e) == Seq::<Seq<char>>::empty());
}

pub(crate) proof fn lemma_count_none(ls: Seq<Seq<char>>)
    requires
        forall|j: int| 0 <= j < ls.len() ==> !entry_line(#[trigger] ls[j]),
    ensures
        entry_count(ls) == 0,
    decreases ls.len(),
{
    if ls.len() > 0 {
        let lp = ls.drop_last();
        assert forall|j: int| 0 <= j < lp.len() implies !entry_line(#[trigger] lp[j]) by {
            assert(lp[j] == ls[j]);
        }
        lemma_count_none(lp);
        assert(!entry_line(ls[ls.len() - 1]));
    }
}

/// The total number of characters of the lines `ls`.
pub open spec fn total_len(ls: Seq<Seq<char>>) -> nat
    decreases ls.len(),
{
    if ls.len() == 0 {
        0
    } else {
        total_len(ls.drop_last()) + ls.last().len()
    }
}

proof fn lemma_join_len(ls: Seq<Seq<char>>)
    requires
        ls.len() > 0,
    ensures
        join_lines(ls).len() == total_len(ls) + ls.len() - 1,
    decreases ls.len(),
{
    if ls.len() > 1 {
        lemma_join_len(ls.drop_last());
    } else {
        assert(ls.drop_last().len() == 0);
        assert(total_len(ls.drop_last()) == 0);
        assert(ls.last() == ls[0]);
    }
}

proof fn lemma_total_concat(a: Seq<Seq<char>>, b: Seq<Seq<char>>)
    ensures
        total_len(a + b) == total_len(a) + total_len(b),
    decreases b.len(),
{
    if b.len() == 0 {
        assert(a + b == a);
    } else {
        lemma_total_concat(a, b.drop_last());
        assert((a + b).drop_last() == a + b.drop_last());
        assert((a + b).last() == b.last());
    }
}

/// Scanning never yields more characters (line feeds counted as one each)
/// than it read, and a carriage return before a line feed is lost.
proof fn lemma_scan_len(x: Seq<char>)
    ensures
        total_len(scan_lines(x).0) + scan_lines(x).0.len() + scan_lines(x).1.len()
            + (if has_crlf(x) { 1int } else { 0int }) <= x.len(),
        x.len() > 0 && x.last() == '\n' ==> scan_lines(x).1.len() == 0 && scan_lines(x).0.len() > 0,
        x.len() > 0 && x.last() != '\n' ==> scan_lines(x).1.len() > 0 && scan_lines(x).1.last() == x.last(),
    decreases x.len(),
{
    if x.len() > 0 {
        let y = x.drop_last();
        lemma_scan_len(y);
        let prev = scan_lines(y);
        if has_crlf(x) && !has_crlf(y) {
            let i = choose|i: int| 0 <= i && i + 1 < x.len() && #[trigger] x[i] == '\r' && x[i + 1] == '\n';
            if i + 1 < y.len() {
                assert(y[i] == x[i] && y[i + 1] == x[i + 1]);
            }
            assert(i + 1 == x.len() - 1);
            assert(y.last() == '\r');
            assert(prev.1.len() > 0 && prev.1.last() == '\r');
        }
        if has_crlf(y) {
            let i = choose|i: int| 0 <= i && i + 1 < y.len() && #[trigger] y[i] == '\r' && y[i + 1] == '\n';
            assert(x[i] == y[i] && x[i + 1] == y[i + 1]);
        }
        if x.last() == '\n' {
            let l = strip_cr(prev.1);
            assert(prev.0.push(l).drop_last() == prev.0);
            assert(total_len(prev.0.push(l)) == total_len(prev.0) + l.len());
        }
    }
}

proof fn lemma_lines_len(x: Seq<char>)
    ensures
        join_lines(lines_of(x)).len() + (if has_crlf(x) || ends_with_newline(x) { 1int } else { 0int }) <= x.len(),
{
    lemma_scan_len(x);
    let sc = scan_lines(x);
    if sc.1.len() > 0 {
        lemma_join_len(sc.0.push(sc.1));
        assert(sc.0.push(sc.1).drop_last() == sc.0);
    } else if sc.0.len() > 0 {
        lemma_join_len(sc.0);
        if x.len() > 0 && x.last() != '\n' {
            assert(false);
        }
    } else {
        if x.len() > 0 && x.last() != '\n' {
            assert(false);
        }
    }
}

proof fn lemma_join_skip_len(ls: Seq<Seq<char>>, k: int)
    requires
        0 <= k <= ls.len(),
    ensures
        join_lines(ls.skip(k)).len() <= join_lines(ls).len(),
{
    let tail = ls.skip(k);
    if tail.len() > 0 {
        lemma_join_len(tail);
        lemma_join_len(ls);
        lemma_total_concat(ls.take(k), tail);
        assert(ls.take(k) + tail == ls);
    }
}

/// Stripping changes any text that holds a carriage return right before a
/// line feed, or ends with a line feed: it comes out shorter.
pub proof fn lemma_strip_shortens(x: Seq<char>)
    requires
        has_crlf(x) || ends_with_newline(x),
    ensures
        stripped(x).len() < x.len(),
{
    let ls = lines_of(x);
    lemma_leading_bound(ls);
    lemma_join_skip_len(ls, leading_non_entries(ls) as int);
    lemma_lines_len(x);
}

/// Stripping is idempotent on exactly the stripped bodies that hold no
/// carriage return right before a line feed and do not end with a line feed.
pub proof fn lemma_strip_idempotent_exactly(s: Seq<char>)
    ensures
        stripped(stripped(s)) == stripped(s) <==> (!has_crlf(stripped(s)) && !ends_with_newline(stripped(s))),
{
    if !has_crlf(stripped(s)) && !ends_with_newline(stripped(s)) {
        lemma_strip_idempotent(s);
    } else {
        lemma_strip_shortens(stripped(s));
    }
}

} // verus!
