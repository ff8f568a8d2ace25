//! What holds of the files that the tools write: the banner is comment
//! lines only, so stripping a written rule file gives back its rules and the
//! banner's entry count is the number of entries in the file.
use vstd::prelude::*;
use crate::text::{decimal, digit_char};
use crate::header::{BANNER_RULE, BANNER_HOME, banner_line, rule_banner, single_line};
use crate::rule_text::{
    scan_lines, lines_of, comment, entry_line, text_starts_at, marker_at,
    leading_non_entries, stripped, entries_of,
};
use crate::rules::rule_file_text;
use crate::strip_laws::{no_newline, lemma_scan_append, lemma_leading_bound, lemma_count_concat, lemma_count_none};

verus! {

proof fn lemma_decimal_single_line(n: nat)
    ensures
        single_line(decimal(n)),
    decreases n,
{
    if n >= 10 {
        lemma_decimal_single_line(n / 10);
        assert(decimal(n) == decimal(n / 10).push(digit_char(n % 10)));
    }
}

/// Reading on after a line feed starts afresh.
proof fn lemma_scan_after_newline(p: Seq<char>, b: Seq<char>)
    requires
        scan_lines(p).1.len() == 0,
    ensures
        scan_lines(p + b) == (scan_lines(p).0 + scan_lines(b).0, scan_lines(b).1),
    decreases b.len(),
{
    if b.len() == 0 {
        assert(p + b == p);
        assert(scan_lines(p).0 + Seq::<Seq<char>>::empty() == scan_lines(p).0);
    } else {
        lemma_scan_after_newline(p, b.drop_last());
        assert((p + b).drop_last() == p + b.drop_last());
        assert((p + b).last() == b.last());
        let a = scan_lines(p).0;
        let prev = scan_lines(b.drop_last());
        if b.last() == '\n' {
            assert((a + prev.0).push(crate::rule_text::strip_cr(prev.1)) == a + prev.0.push(
                crate::rule_text::strip_cr(prev.1),
            ));
        }
    }
}

proof fn lemma_lines_after_newline(p: Seq<char>, b: Seq<char>)
    requires
        scan_lines(p).1.len() == 0,
    ensures
        lines_of(p + b) == scan_lines(p).0 + lines_of(b),
{
    lemma_scan_after_newline(p, b);
    let a = scan_lines(p).0;
    let sb = scan_lines(b);
    assert((a + sb.0).push(sb.1) == a + sb.0.push(sb.1));
}

/// A line of text ended by a line feed scans to that one line.
proof fn lemma_one_line(c: Seq<char>)
    requires
        single_line(c),
    ensures
        scan_lines(c.push('\n')) == (seq![c], Seq::<char>::empty()),
{
    assert(no_newline(c));
    lemma_scan_append(Seq::empty(), c);
    assert(Seq::<char>::empty() + c == c);
    assert(scan_lines(Seq::<char>::empty()) == (Seq::<Seq<char>>::empty(), Seq::<char>::empty()));
    assert(c.push('\n').drop_last() == c);
    if c.len() > 0 {
        assert(c.last() == c[c.len() - 1]);
    }
    assert(Seq::<Seq<char>>::empty().push(c) == seq![c]);
}

/// A line whose first character is `#` is a comment.
proof fn lemma_hash_comment(c: Seq<char>)
    requires
        c.len() > 0,
        c[0] == '#',
    ensures
        comment(c),
{
    assert(text_starts_at(c, 0));
    assert(marker_at(c, 0));
}

/// A banner line scans to one comment line.
proof fn lemma_banner_line(label: Seq<char>, value: Seq<char>)
    requires
        label.len() > 0,
        label[0] == '#',
        single_line(label),
        single_line(value),
    ensures
        scan_lines(banner_line(label, value)) == (seq![label + value], Seq::<char>::empty()),
        comment(label + value),
{
    let c = label + value;
    assert(single_line(c)) by {
        assert forall|i: int| 0 <= i < c.len() implies #[trigger] c[i] != '\n' && c[i] != '\r' by {
            if i < label.len() {
                assert(c[i] == label[i]);
            } else {
                assert(c[i] == value[i - label.len()]);
            }
        }
    }
    assert(banner_line(label, value) == c.push('\n'));
    lemma_one_line(c);
    assert(c[0] == label[0]);
    lemma_hash_comment(c);
}

proof fn lemma_labels()
    ensures
        BANNER_RULE@.len() > 0 && BANNER_RULE@[0] == '#' && single_line(BANNER_RULE@),
        BANNER_HOME@.len() > 0 && BANNER_HOME@[0] == '#' && single_line(BANNER_HOME@),
        "# "@.len() > 0 && "# "@[0] == '#' && single_line("# "@),
        "# Last Updated: "@.len() > 0 && "# Last Updated: "@[0] == '#' && single_line("# Last Updated: "@),
        "# Entries: "@.len() > 0 && "# Entries: "@[0] == '#' && single_line("# Entries: "@),
        "# Upstream: "@.len() > 0 && "# Upstream: "@[0] == '#' && single_line("# Upstream: "@),
        single_line(Seq::<char>::empty()),
{
    reveal_strlit("#########################################");
    reveal_strlit("# GitHub: https://github.com/hsuyelin/surge-conf");
    reveal_strlit("# ");
    reveal_strlit("# Last Updated: ");
    reveal_strlit("# Entries: ");
    reveal_strlit("# Upstream: ");
}

/// The lines of the rule banner: seven comment lines.
pub open spec fn rule_banner_lines(name: Seq<char>, timestamp: Seq<char>, count: nat, url: Seq<char>) -> Seq<Seq<char>> {
    seq![
        BANNER_RULE@,
        "# "@ + name,
        "# Last Updated: "@ + timestamp,
        "# Entries: "@ + decimal(count),
        "# Upstream: "@ + url,
        BANNER_HOME@,
        BANNER_RULE@,
    ]
}

proof fn lemma_rule_banner_scan(name: Seq<char>, timestamp: Seq<char>, count: nat, url: Seq<char>)
    requires
        single_line(name),
        single_line(timestamp),
        single_line(url),
    ensures
        scan_lines(rule_banner(name, timestamp, count, url)) == (
            rule_banner_lines(name, timestamp, count, url),
            Seq::<char>::empty(),
        ),
        forall|j: int| 0 <= j < 7 ==> comment(#[trigger] rule_banner_lines(name, timestamp, count, url)[j]),
{
    lemma_labels();
    lemma_decimal_single_line(count);
    let e = Seq::<char>::empty();
    let b1 = banner_line(BANNER_RULE@, e);
    let b2 = banner_line("# "@, name);
    let b3 = banner_line("# Last Updated: "@, timestamp);
    let b4 = banner_line("# Entries: "@, decimal(count));
    let b5 = banner_line("# Upstream: "@, url);
    let b6 = banner_line(BANNER_HOME@, e);
    lemma_banner_line(BANNER_RULE@, e);
    lemma_banner_line("# "@, name);
    lemma_banner_line("# Last Updated: "@, timestamp);
    lemma_banner_line("# Entries: "@, decimal(count));
    lemma_banner_line("# Upstream: "@, url);
    lemma_banner_line(BANNER_HOME@, e);
    assert(BANNER_RULE@ + e == BANNER_RULE@);
    assert(BANNER_HOME@ + e == BANNER_HOME@);
    lemma_scan_after_newline(b1, b2);
    lemma_scan_after_newline(b1 + b2, b3);
    lemma_scan_after_newline(b1 + b2 + b3, b4);
    lemma_scan_after_newline(b1 + b2 + b3 + b4, b5);
    lemma_scan_after_newline(b1 + b2 + b3 + b4 + b5, b6);
    lemma_scan_after_newline(b1 + b2 + b3 + b4 + b5 + b6, b1);
    assert(rule_banner(name, timestamp, count, url) == b1 + b2 + b3 + b4 + b5 + b6 + b1);
    assert(scan_lines(rule_banner(name, timestamp, count, url)).0 =~= rule_banner_lines(
        name,
        timestamp,
        count,
        url,
    ));
}

proof fn lemma_leading_concat(x: Seq<Seq<char>>, y: Seq<Seq<char>>)
    requires
        forall|j: int| 0 <= j < x.len() ==> !entry_line(#[trigger] x[j]),
    ensures
        leading_non_entries(x + y) == x.len() + leading_non_entries(y),
    decreases x.len(),
{
    if x.len() == 0 {
        assert(x + y == y);
    } else {
        let xr = x.drop_first();
        assert forall|j: int| 0 <= j < xr.len() implies !entry_line(#[trigger] xr[j]) by {
            assert(xr[j] == x[j + 1]);
        }
        lemma_leading_concat(xr, y);
        assert((x + y).drop_first() == xr + y);
        assert((x + y)[0] == x[0]);
    }
}

/// The banner of a rule file is seven comment lines, with the entry count
/// on its fourth; it strips to nothing and counts no entries.
pub proof fn lemma_rule_banner_is_comments(name: Seq<char>, timestamp: Seq<char>, count: nat, url: Seq<char>)
    requires
        single_line(name),
        single_line(timestamp),
        single_line(url),
    ensures
        lines_of(rule_banner(name, timestamp, count, url)) == rule_banner_lines(name, timestamp, count, url),
        forall|j: int| 0 <= j < 7 ==> comment(#[trigger] lines_of(rule_banner(name, timestamp, count, url))[j]),
        lines_of(rule_banner(name, timestamp, count, url))[3] == "# Entries: "@ + decimal(count),
        entries_of(rule_banner(name, timestamp, count, url)) == 0,
        stripped(rule_banner(name, timestamp, count, url)).len() == 0,
{
    lemma_rule_banner_scan(name, timestamp, count, url);
    let ls = rule_banner_lines(name, timestamp, count, url);
    assert forall|j: int| 0 <= j < ls.len() implies !entry_line(#[trigger] ls[j]) by {
        assert(comment(ls[j]));
    }
    lemma_count_none(ls);
    lemma_leading_concat(ls, Seq::empty());
    assert(ls + Seq::<Seq<char>>::empty() == ls);
    assert(ls.skip(7) == Seq::<Seq<char>>::empty());
}

/// Stripping a rule file as the tool writes it gives back its stripped
/// rules: the banner and the empty line after it go entirely. The entry
/// count in the banner is the number of entries of the written file.
pub proof fn lemma_written_rule_file(name: Seq<char>, url: Seq<char>, raw: Seq<char>, timestamp: Seq<char>)
    requires
        single_line(name),
        single_line(timestamp),
        single_line(url),
    ensures
        stripped(rule_file_text(name, url, raw, timestamp)) == stripped(stripped(raw)),
        entries_of(rule_file_text(name, url, raw, timestamp)) == entries_of(stripped(raw)),
{
    let body = stripped(raw);
    let count = entries_of(body);
    let banner = rule_banner(name, timestamp, count, url);
    let ls = rule_banner_lines(name, timestamp, count, url);
    lemma_rule_banner_scan(name, timestamp, count, url);
    let e = Seq::<char>::empty();
    lemma_one_line(e);
    assert(e.push('\n') == seq!['\n']);
    lemma_scan_after_newline(banner, seq!['\n']);
    let p = banner + seq!['\n'];
    let head = ls + seq![e];
    assert(scan_lines(p).0 == head);
    lemma_lines_after_newline(p, body);
    assert(rule_file_text(name, url, raw, timestamp) == p + body);
    assert forall|j: int| 0 <= j < head.len() implies !entry_line(#[trigger] head[j]) by {
        if j < 7 {
            assert(head[j] == ls[j]);
            assert(comment(ls[j]));
        } else {
            assert(head[j] == e);
        }
    }
    let lb = lines_of(body);
    lemma_leading_concat(head, lb);
    lemma_leading_bound(lb);
    assert((head + lb).skip((head.len() + leading_non_entries(lb)) as int) =~= lb.skip(leading_non_entries(lb) as int));
    lemma_count_none(head);
    lemma_count_concat(head, lb);
}

} // verus!
