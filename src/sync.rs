//! What a sync run writes and reports, decided from what each fetch returned.
use vstd::prelude::*;
use crate::text::{decimal, push_decimal};
use crate::log::{LogLevel, status_text, status_line};
use crate::rules::{RuleSource, rule_plan, rule_output};
use crate::modules::{ModuleSource, module_plan, module_output};

verus! {

/// A text file to write: the source it comes from, the category directory,
/// the file name, the text.
pub struct TextFile {
    pub name: String,
    pub dir: String,
    pub file_name: String,
    pub contents: String,
}

pub open spec fn file_view(f: TextFile) -> (Seq<char>, Seq<char>, Seq<char>, Seq<char>) {
    (f.name@, f.dir@, f.file_name@, f.contents@)
}

/// How many fetches succeeded.
pub open spec fn fetched_count<T>(fetched: Seq<Option<T>>) -> nat
    decreases fetched.len(),
{
    if fetched.len() == 0 {
        0
    } else {
        fetched_count(fetched.drop_last()) + if fetched.last() is Some {
            1nat
        } else {
            0nat
        }
    }
}

/// The warning closing a run in which fewer than `total` items succeeded:
/// the number that failed, then `what` (`rules failed to sync`).
pub open spec fn shortfall_text(total: nat, succeeded: nat, what: Seq<char>) -> Option<Seq<char>> {
    if succeeded < total {
        Some(status_text("Warning"@, decimal((total - succeeded) as nat) + seq![' '] + what, LogLevel::Warning))
    } else {
        None
    }
}

/// The closing warning of a run of `total` items of which `succeeded`
/// succeeded; `None` when none failed.
pub fn shortfall_warning(total: usize, succeeded: usize, what: &str) -> (r: Option<String>)
    ensures
        r matches Some(line) ==> shortfall_text(total as nat, succeeded as nat, what@) == Some(line@),
        r is None ==> shortfall_text(total as nat, succeeded as nat, what@) is None,
{
    if succeeded < total {
        let mut msg = String::new();
        push_decimal(&mut msg, (total - succeeded) as u128);
        msg.push(' ');
        msg.push_str(what);
        Some(status_line("Warning", msg.as_str(), LogLevel::Warning))
    } else {
        None
    }
}

/// The file `f` is the output of some source of the run whose fetch succeeded.
pub open spec fn rule_file_from_fetch(
    f: (Seq<char>, Seq<char>, Seq<char>, Seq<char>),
    sources: Seq<RuleSource>,
    fetched: Seq<Option<String>>,
    timestamp: Seq<char>,
) -> bool {
    exists|i: int|
        0 <= i < fetched.len() && #[trigger] fetched[i] is Some && f == rule_output(sources[i], fetched[i]->0@, timestamp)
}

/// A rule sync writes exactly one file per successful fetch, and each file
/// comes from a source whose fetch succeeded: a failed fetch writes nothing.
pub proof fn lemma_rule_files_match_fetches(
    sources: Seq<RuleSource>,
    fetched: Seq<Option<String>>,
    timestamp: Seq<char>,
)
    requires
        sources.len() == fetched.len(),
    ensures
        rule_plan(sources, fetched, timestamp).len() == fetched_count(fetched),
        forall|j: int| 0 <= j < rule_plan(sources, fetched, timestamp).len() ==> rule_file_from_fetch(
            #[trigger] rule_plan(sources, fetched, timestamp)[j], sources, fetched, timestamp),
    decreases fetched.len(),
{
    if fetched.len() > 0 {
        let sp = sources.drop_last();
        let fp = fetched.drop_last();
        lemma_rule_files_match_fetches(sp, fp, timestamp);
        let prev = rule_plan(sp, fp, timestamp);
        let plan = rule_plan(sources, fetched, timestamp);
        let n = fetched.len() - 1;
        assert forall|j: int| 0 <= j < plan.len() implies rule_file_from_fetch(#[trigger] plan[j], sources, fetched, timestamp) by {
            if j < prev.len() {
                assert(rule_file_from_fetch(prev[j], sp, fp, timestamp));
                let i = choose|i: int| 0 <= i < fp.len() && #[trigger] fp[i] is Some
                    && prev[j] == rule_output(sp[i], fp[i]->0@, timestamp);
                assert(fetched[i] == fp[i] && sources[i] == sp[i]);
                assert(plan[j] == prev[j]);
            } else {
                assert(fetched[n] is Some);
                assert(plan[j] == rule_output(sources[n], fetched[n]->0@, timestamp));
            }
        }
    }
}

/// The file `f` is the output of some source of the run whose fetch succeeded.
pub open spec fn module_file_from_fetch(
    f: (Seq<char>, Seq<char>, Seq<char>, Seq<char>),
    sources: Seq<ModuleSource>,
    fetched: Seq<Option<String>>,
    timestamp: Seq<char>,
) -> bool {
    exists|i: int|
        0 <= i < fetched.len() && #[trigger] fetched[i] is Some && f == module_output(sources[i], fetched[i]->0@, timestamp)
}

/// A module sync writes exactly one file per successful fetch, and each file
/// comes from a source whose fetch succeeded: a failed fetch writes nothing.
pub proof fn lemma_module_files_match_fetches(
    sources: Seq<ModuleSource>,
    fetched: Seq<Option<String>>,
    timestamp: Seq<char>,
)
    requires
        sources.len() == fetched.len(),
    ensures
        module_plan(sources, fetched, timestamp).len() == fetched_count(fetched),
        forall|j: int| 0 <= j < module_plan(sources, fetched, timestamp).len() ==> module_file_from_fetch(
            #[trigger] module_plan(sources, fetched, timestamp)[j], sources, fetched, timestamp),
    decreases fetched.len(),
{
    if fetched.len() > 0 {
        let sp = sources.drop_last();
        let fp = fetched.drop_last();
        lemma_module_files_match_fetches(sp, fp, timestamp);
        let prev = module_plan(sp, fp, timestamp);
        let plan = module_plan(sources, fetched, timestamp);
        let n = fetched.len() - 1;
        assert forall|j: int| 0 <= j < plan.len() implies module_file_from_fetch(#[trigger] plan[j], sources, fetched, timestamp) by {
            if j < prev.len() {
                assert(module_file_from_fetch(prev[j], sp, fp, timestamp));
                let i = choose|i: int| 0 <= i < fp.len() && #[trigger] fp[i] is Some
                    && prev[j] == module_output(sp[i], fp[i]->0@, timestamp);
                assert(fetched[i] == fp[i] && sources[i] == sp[i]);
                assert(plan[j] == prev[j]);
            } else {
                assert(fetched[n] is Some);
                assert(plan[j] == module_output(sources[n], fetched[n]->0@, timestamp));
            }
        }
    }
}

proof fn lemma_none_fetched<T>(fetched: Seq<Option<T>>)
    requires
        forall|i: int| 0 <= i < fetched.len() ==> #[trigger] fetched[i] is None,
    ensures
        fetched_count(fetched) == 0,
    decreases fetched.len(),
{
    if fetched.len() > 0 {
        let fp = fetched.drop_last();
        assert forall|i: int| 0 <= i < fp.len() implies #[trigger] fp[i] is None by {
            assert(fp[i] == fetched[i]);
        }
        lemma_none_fetched(fp);
        assert(fetched[fetched.len() - 1] is None);
    }
}

/// When every fetch of a rule sync fails, no file is written and the run
/// closes with a warning that counts every source as failed.
pub proof fn lemma_rule_total_failure(sources: Seq<RuleSource>, fetched: Seq<Option<String>>, timestamp: Seq<char>)
    requires
        sources.len() == fetched.len(),
        sources.len() > 0,
        forall|i: int| 0 <= i < fetched.len() ==> #[trigger] fetched[i] is None,
    ensures
        rule_plan(sources, fetched, timestamp).len() == 0,
        shortfall_text(sources.len(), fetched_count(fetched), "rules failed to sync"@) == Some(
            status_text("Warning"@, decimal(sources.len()) + seq![' '] + "rules failed to sync"@, LogLevel::Warning),
        ),
{
    lemma_none_fetched(fetched);
    lemma_rule_files_match_fetches(sources, fetched, timestamp);
}

/// When every fetch of a module sync fails, no file is written and the run
/// closes with a warning that counts every source as failed.
pub proof fn lemma_module_total_failure(sources: Seq<ModuleSource>, fetched: Seq<Option<String>>, timestamp: Seq<char>)
    requires
        sources.len() == fetched.len(),
        sources.len() > 0,
        forall|i: int| 0 <= i < fetched.len() ==> #[trigger] fetched[i] is None,
    ensures
        module_plan(sources, fetched, timestamp).len() == 0,
        shortfall_text(sources.len(), fetched_count(fetched), "modules failed to sync"@) == Some(
            status_text("Warning"@, decimal(sources.len()) + seq![' '] + "modules failed to sync"@, LogLevel::Warning),
        ),
{
    lemma_none_fetched(fetched);
    lemma_module_files_match_fetches(sources, fetched, timestamp);
}

} // verus!
