//! The banner written at the top of each synced rule and module file.
use vstd::prelude::*;
use crate::text::{decimal, push_decimal};

verus! {

/// Relies on `String::push_str`: the text is appended at the end.
pub assume_specification[ String::push_str ](s: &mut String, string: &str)
    ensures
        final(s)@ == old(s)@ + string@,
;

/// The line of `#` that opens and closes a banner.
pub const BANNER_RULE: &'static str = "#########################################";

/// The repository named at the foot of each banner.
pub const BANNER_HOME: &'static str = "# GitHub: https://github.com/hsuyelin/surge-conf";

/// `s` holds neither a line feed nor a carriage return.
pub open spec fn single_line(s: Seq<char>) -> bool {
    forall|i: int| 0 <= i < s.len() ==> #[trigger] s[i] != '\n' && s[i] != '\r'
}

/// The local time as `YYYY-MM-DD HH:MM:SS`.
/// Relies on chrono's `Local::now` and its `format`: the time depends on the
/// clock, but the pattern holds only digits, signs, `-`, `:` and a space, so
/// the text is one line.
#[verifier::external_body]
pub fn current_timestamp() -> (r: String)
    ensures
        single_line(r@),
{
    chrono::Local::now().format("%Y-%m-%d %H:%M:%S").to_string()
}

/// A line of the banner: `label` and `value` followed by a line feed.
pub open spec fn banner_line(label: Seq<char>, value: Seq<char>) -> Seq<char> {
    label + value + seq!['\n']
}

/// The banner of a rule file with `count` entries.
pub open spec fn rule_banner(name: Seq<char>, timestamp: Seq<char>, count: nat, url: Seq<char>) -> Seq<char> {
    banner_line(BANNER_RULE@, Seq::empty())
        + banner_line("# "@, name)
        + banner_line("# Last Updated: "@, timestamp)
        + banner_line("# Entries: "@, decimal(count))
        + banner_line("# Upstream: "@, url)
        + banner_line(BANNER_HOME@, Seq::empty())
        + banner_line(BANNER_RULE@, Seq::empty())
}

/// The banner of a module file.
pub open spec fn module_banner(name: Seq<char>, timestamp: Seq<char>, url: Seq<char>) -> Seq<char> {
    banner_line(BANNER_RULE@, Seq::empty())
        + banner_line("# "@, name)
        + banner_line("# Last Updated: "@, timestamp)
        + banner_line("# Upstream: "@, url)
        + banner_line(BANNER_HOME@, Seq::empty())
        + banner_line(BANNER_RULE@, Seq::empty())
}

fn push_line(out: &mut String, label: &str, value: &str)
    ensures
        final(out)@ == old(out)@ + banner_line(label@, value@),
{
    out.push_str(label);
    out.push_str(value);
    out.push('\n');
}

/// The banner of a rule file, for the given time of writing.
pub fn rule_banner_at(name: &str, upstream_url: &str, entry_count: usize, timestamp: &str) -> (r: String)
    ensures
        r@ == rule_banner(name@, timestamp@, entry_count as nat, upstream_url@),
{
    let mut out = String::new();
    push_line(&mut out, BANNER_RULE, "");
    push_line(&mut out, "# ", name);
    push_line(&mut out, "# Last Updated: ", timestamp);
    let mut count = String::new();
    push_decimal(&mut count, entry_count as u128);
    push_line(&mut out, "# Entries: ", count.as_str());
    push_line(&mut out, "# Upstream: ", upstream_url);
    push_line(&mut out, BANNER_HOME, "");
    push_line(&mut out, BANNER_RULE, "");
    proof {
        reveal_strlit("");
    }
    out
}

/// The banner of a module file, for the given time of writing.
pub fn module_banner_at(name: &str, upstream_url: &str, timestamp: &str) -> (r: String)
    ensures
        r@ == module_banner(name@, timestamp@, upstream_url@),
{
    let mut out = String::new();
    push_line(&mut out, BANNER_RULE, "");
    push_line(&mut out, "# ", name);
    push_line(&mut out, "# Last Updated: ", timestamp);
    push_line(&mut out, "# Upstream: ", upstream_url);
    push_line(&mut out, BANNER_HOME, "");
    push_line(&mut out, BANNER_RULE, "");
    proof {
        reveal_strlit("");
    }
    out
}

} // verus!
