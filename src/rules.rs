//! Rule lists: their categories, the fixed table of upstream sources, and
//! the file written for each of them.
use vstd::prelude::*;
use crate::header::{single_line, current_timestamp, rule_banner, rule_banner_at};
use crate::rule_text::{stripped, entries_of, strip_header, count_entries};
use crate::sync::{TextFile, file_view, fetched_count};

verus! {

/// The directory that a rule list is filed under.
#[derive(Debug, Clone, Copy, PartialEq, Eq, Structural)]
pub enum RuleCategory {
    Adblock,
    Ai,
    Apple,
    Media,
    Social,
    Gaming,
    Proxy,
}

impl RuleCategory {
    pub open spec fn dir_name(self) -> Seq<char> {
        match self {
            RuleCategory::Adblock => "adblock"@,
            RuleCategory::Ai => "ai"@,
            RuleCategory::Apple => "apple"@,
            RuleCategory::Media => "media"@,
            RuleCategory::Social => "social"@,
            RuleCategory::Gaming => "gaming"@,
            RuleCategory::Proxy => "proxy"@,
        }
    }

    /// The directory name of the category.
    pub fn as_str(&self) -> (r: &'static str)
        ensures
            r@ == self.dir_name(),
    {
        match self {
            RuleCategory::Adblock => "adblock",
            RuleCategory::Ai => "ai",
            RuleCategory::Apple => "apple",
            RuleCategory::Media => "media",
            RuleCategory::Social => "social",
            RuleCategory::Gaming => "gaming",
            RuleCategory::Proxy => "proxy",
        }
    }
}

/// An upstream rule list: its local name, where it is fetched from, and its
/// category.
pub struct RuleSource {
    pub name: &'static str,
    pub url: &'static str,
    pub category: RuleCategory,
}

/// The number of rule lists that are synced.
pub const RULE_SOURCE_COUNT: usize = 17;

/// The rule lists as (name, upstream URL, category), in processing order.
pub open spec fn rule_source_table() -> Seq<(Seq<char>, Seq<char>, RuleCategory)> {
    seq![
        ("adblock4limbo"@, "https://raw.githubusercontent.com/limbopro/Adblock4limbo/main/Adblock4limbo_surge.list"@, RuleCategory::Adblock),
        ("ai"@, "https://ruleset.skk.moe/List/non_ip/ai.conf"@, RuleCategory::Ai),
        ("appleCn"@, "https://ruleset.skk.moe/List/non_ip/apple_cn.conf"@, RuleCategory::Apple),
        ("appleServices"@, "https://ruleset.skk.moe/List/non_ip/apple_services.conf"@, RuleCategory::Apple),
        ("appleCdn"@, "https://ruleset.skk.moe/List/non_ip/apple_cdn.conf"@, RuleCategory::Apple),
        ("appleServicesIp"@, "https://ruleset.skk.moe/List/ip/apple_services.conf"@, RuleCategory::Apple),
        ("emby"@, "https://raw.githubusercontent.com/blackmatrix7/ios_rule_script/refs/heads/master/rule/Surge/Emby/Emby.list"@, RuleCategory::Media),
        ("youtube"@, "https://raw.githubusercontent.com/blackmatrix7/ios_rule_script/master/rule/Surge/YouTube/YouTube.list"@, RuleCategory::Media),
        ("spotify"@, "https://raw.githubusercontent.com/blackmatrix7/ios_rule_script/master/rule/Surge/Spotify/Spotify.list"@, RuleCategory::Media),
        ("bilibili"@, "https://raw.githubusercontent.com/blackmatrix7/ios_rule_script/master/rule/Surge/BiliBili/BiliBili.list"@, RuleCategory::Media),
        ("streamNonIp"@, "https://ruleset.skk.moe/List/non_ip/stream.conf"@, RuleCategory::Media),
        ("streamIp"@, "https://ruleset.skk.moe/List/ip/stream.conf"@, RuleCategory::Media),
        ("telegram"@, "https://raw.githubusercontent.com/blackmatrix7/ios_rule_script/master/rule/Surge/Telegram/Telegram.list"@, RuleCategory::Social),
        ("discord"@, "https://raw.githubusercontent.com/blackmatrix7/ios_rule_script/master/rule/Surge/Discord/Discord.list"@, RuleCategory::Social),
        ("game"@, "https://raw.githubusercontent.com/blackmatrix7/ios_rule_script/master/rule/Surge/Game/Game.list"@, RuleCategory::Gaming),
        ("global"@, "https://raw.githubusercontent.com/blackmatrix7/ios_rule_script/refs/heads/master/rule/Surge/Global/Global_All_No_Resolve.list"@, RuleCategory::Proxy),
        ("china"@, "https://raw.githubusercontent.com/blackmatrix7/ios_rule_script/refs/heads/master/rule/Surge/China/China_All_No_Resolve.list"@, RuleCategory::Proxy),
    ]
}

/// The rule lists that are synced, in the order they are processed.
pub fn get_rule_sources() -> (r: Vec<RuleSource>)
    ensures
        r@.len() == RULE_SOURCE_COUNT,
        r@.map_values(|s: RuleSource| (s.name@, s.url@, s.category)) == rule_source_table(),
{
    let r = vec![
        RuleSource {
            name: "adblock4limbo",
            url: "https://raw.githubusercontent.com/limbopro/Adblock4limbo/main/Adblock4limbo_surge.list",
            category: RuleCategory::Adblock,
        },
        RuleSource {
            name: "ai",
            url: "https://ruleset.skk.moe/List/non_ip/ai.conf",
            category: RuleCategory::Ai,
        },
        RuleSource {
            name: "appleCn",
            url: "https://ruleset.skk.moe/List/non_ip/apple_cn.conf",
            category: RuleCategory::Apple,
        },
        RuleSource {
            name: "appleServices",
            url: "https://ruleset.skk.moe/List/non_ip/apple_services.conf",
            category: RuleCategory::Apple,
        },
        RuleSource {
            name: "appleCdn",
            url: "https://ruleset.skk.moe/List/non_ip/apple_cdn.conf",
            category: RuleCategory::Apple,
        },
        RuleSource {
            name: "appleServicesIp",
            url: "https://ruleset.skk.moe/List/ip/apple_services.conf",
            category: RuleCategory::Apple,
        },
        RuleSource {
            name: "emby",
            url: "https://raw.githubusercontent.com/blackmatrix7/ios_rule_script/refs/heads/master/rule/Surge/Emby/Emby.list",
            category: RuleCategory::Media,
        },
        RuleSource {
            name: "youtube",
            url: "https://raw.githubusercontent.com/blackmatrix7/ios_rule_script/master/rule/Surge/YouTube/YouTube.list",
            category: RuleCategory::Media,
        },
        RuleSource {
            name: "spotify",
            url: "https://raw.githubusercontent.com/blackmatrix7/ios_rule_script/master/rule/Surge/Spotify/Spotify.list",
            category: RuleCategory::Media,
        },
        RuleSource {
            name: "bilibili",
            url: "https://raw.githubusercontent.com/blackmatrix7/ios_rule_script/master/rule/Surge/BiliBili/BiliBili.list",
            category: RuleCategory::Media,
        },
        RuleSource {
            name: "streamNonIp",
            url: "https://ruleset.skk.moe/List/non_ip/stream.conf",
            category: RuleCategory::Media,
        },
        RuleSource {
            name: "streamIp",
            url: "https://ruleset.skk.moe/List/ip/stream.conf",
            category: RuleCategory::Media,
        },
        RuleSource {
            name: "telegram",
            url: "https://raw.githubusercontent.com/blackmatrix7/ios_rule_script/master/rule/Surge/Telegram/Telegram.list",
            category: RuleCategory::Social,
        },
        RuleSource {
            name: "discord",
            url: "https://raw.githubusercontent.com/blackmatrix7/ios_rule_script/master/rule/Surge/Discord/Discord.list",
            category: RuleCategory::Social,
        },
        RuleSource {
            name: "game",
            url: "https://raw.githubusercontent.com/blackmatrix7/ios_rule_script/master/rule/Surge/Game/Game.list",
            category: RuleCategory::Gaming,
        },
        RuleSource {
            name: "global",
            url: "https://raw.githubusercontent.com/blackmatrix7/ios_rule_script/refs/heads/master/rule/Surge/Global/Global_All_No_Resolve.list",
            category: RuleCategory::Proxy,
        },
        RuleSource {
            name: "china",
            url: "https://raw.githubusercontent.com/blackmatrix7/ios_rule_script/refs/heads/master/rule/Surge/China/China_All_No_Resolve.list",
            category: RuleCategory::Proxy,
        },
    ];
    assert(r@.map_values(|s: RuleSource| (s.name@, s.url@, s.category)) =~= rule_source_table());
    r
}

/// The file name of a rule list.
pub open spec fn rule_file_name(name: Seq<char>) -> Seq<char> {
    name + ".conf"@
}

/// The text written for a rule list fetched as `raw` at `timestamp`: the
/// banner with the entry count, an empty line, and the stripped rules.
pub open spec fn rule_file_text(name: Seq<char>, url: Seq<char>, raw: Seq<char>, timestamp: Seq<char>) -> Seq<char> {
    rule_banner(name, timestamp, entries_of(stripped(raw)), url) + seq!['\n'] + stripped(raw)
}

/// The banner of a rule file with `entry_count` entries, stamped with the
/// current local time.
pub fn generate_header(name: &str, upstream_url: &str, entry_count: usize) -> (r: String)
    ensures
        exists|timestamp: Seq<char>| single_line(timestamp) && r@ == rule_banner(name@, timestamp, entry_count as nat, upstream_url@),
{
    let timestamp = current_timestamp();
    rule_banner_at(name, upstream_url, entry_count, timestamp.as_str())
}

/// The text written for a rule list fetched as `content` at `timestamp`.
pub fn render_rule_file(name: &str, upstream_url: &str, content: &str, timestamp: &str) -> (r: String)
    ensures
        r@ == rule_file_text(name@, upstream_url@, content@, timestamp@),
{
    let rules = strip_header(content);
    let count = count_entries(rules.as_str());
    let mut out = rule_banner_at(name, upstream_url, count, timestamp);
    out.push('\n');
    out.push_str(rules.as_str());
    out
}

/// The file that a fetched rule list becomes: source name, category
/// directory, file name and text.
pub open spec fn rule_output(source: RuleSource, raw: Seq<char>, timestamp: Seq<char>) -> (Seq<char>, Seq<char>, Seq<char>, Seq<char>) {
    (
        source.name@,
        source.category.dir_name(),
        rule_file_name(source.name@),
        rule_file_text(source.name@, source.url@, raw, timestamp),
    )
}

/// The files of a rule sync: one for each source whose fetch succeeded, in
/// source order.
pub open spec fn rule_plan(sources: Seq<RuleSource>, fetched: Seq<Option<String>>, timestamp: Seq<char>) -> Seq<(Seq<char>, Seq<char>, Seq<char>, Seq<char>)>
    decreases fetched.len(),
{
    if fetched.len() == 0 || sources.len() == 0 {
        Seq::empty()
    } else {
        let prev = rule_plan(sources.drop_last(), fetched.drop_last(), timestamp);
        match fetched.last() {
            Some(text) => prev.push(rule_output(sources.last(), text@, timestamp)),
            None => prev,
        }
    }
}

/// The file written for one fetched rule list.
pub fn rule_file(source: &RuleSource, content: &str, timestamp: &str) -> (r: TextFile)
    ensures
        file_view(r) == rule_output(*source, content@, timestamp@),
{
    let mut file_name = String::new();
    file_name.push_str(source.name);
    file_name.push_str(".conf");
    TextFile {
        name: String::from_str(source.name),
        dir: String::from_str(source.category.as_str()),
        file_name,
        contents: render_rule_file(source.name, source.url, content, timestamp),
    }
}

/// The files of a rule sync, given what each source's fetch returned
/// (`None` where it failed).
pub fn plan_rule_files(sources: &Vec<RuleSource>, fetched: &Vec<Option<String>>, timestamp: &str) -> (r: Vec<TextFile>)
    requires
        sources@.len() == fetched@.len(),
    ensures
        r@.map_values(|f: TextFile| file_view(f)) == rule_plan(sources@, fetched@, timestamp@),
        r@.len() == fetched_count(fetched@),
{
    let mut out: Vec<TextFile> = Vec::new();
    let mut i: usize = 0;
    while i < sources.len()
        invariant
            i <= sources@.len() == fetched@.len(),
            out@.map_values(|f: TextFile| file_view(f)) == rule_plan(sources@.take(i as int), fetched@.take(i as int), timestamp@),
            out@.len() == fetched_count(fetched@.take(i as int)),
        decreases sources@.len() - i,
    {
        assert(sources@.take(i + 1 as int).drop_last() == sources@.take(i as int));
        assert(fetched@.take(i + 1 as int).drop_last() == fetched@.take(i as int));
        match &fetched[i] {
            Some(text) => {
                let f = rule_file(&sources[i], text.as_str(), timestamp);
                out.push(f);
            }
            None => {}
        }
        i += 1;
        assert(out@.map_values(|f: TextFile| file_view(f)) == rule_plan(sources@.take(i as int), fetched@.take(i as int), timestamp@));
    }
    assert(sources@.take(i as int) == sources@);
    assert(fetched@.take(i as int) == fetched@);
    out
}

} // verus!
