//! Surge modules: their categories, the fixed table of upstream sources,
//! and the file written for each of them.
use vstd::prelude::*;
use crate::header::{single_line, current_timestamp, module_banner, module_banner_at};
use crate::sync::{TextFile, file_view, fetched_count};

verus! {

/// The directory that a module is filed under.
#[derive(Debug, Clone, Copy, PartialEq, Eq, Structural)]
pub enum ModuleCategory {
    /// Modules that enhance a service.
    Enhance,
    /// Modules that block ads.
    Adblock,
    /// Utility modules.
    Utility,
    /// Subtitle modules.
    Subtitle,
}

impl ModuleCategory {
    pub open spec fn dir_name(self) -> Seq<char> {
        match self {
            ModuleCategory::Enhance => "enhance"@,
            ModuleCategory::Adblock => "adblock"@,
            ModuleCategory::Utility => "utility"@,
            ModuleCategory::Subtitle => "subtitle"@,
        }
    }

    /// The directory name of the category.
    pub fn as_str(&self) -> (r: &'static str)
        ensures
            r@ == self.dir_name(),
    {
        match self {
            ModuleCategory::Enhance => "enhance",
            ModuleCategory::Adblock => "adblock",
            ModuleCategory::Utility => "utility",
            ModuleCategory::Subtitle => "subtitle",
        }
    }
}

/// An upstream module: its local name, where it is fetched from, and its
/// category.
pub struct ModuleSource {
    pub name: &'static str,
    pub url: &'static str,
    pub category: ModuleCategory,
}

/// The number of modules that are synced.
pub const MODULE_SOURCE_COUNT: usize = 12;

/// The modules as (name, upstream URL, category), in processing order.
pub open spec fn module_source_table() -> Seq<(Seq<char>, Seq<char>, ModuleCategory)> {
    seq![
        ("googleRedirect"@, "https://raw.githubusercontent.com/QingRex/LoonKissSurge/refs/heads/main/Surge/Beta/Google%E9%87%8D%E5%AE%9A%E5%90%91.beta.sgmodule"@, ModuleCategory::Enhance),
        ("bilibili"@, "https://raw.githubusercontent.com/kokoryh/Sparkle/refs/heads/master/release/surge/module/bilibili.sgmodule"@, ModuleCategory::Enhance),
        ("telegramIp"@, "https://raw.githubusercontent.com/Repcz/Tool/X/Surge/Module/Function/FKTG.sgmodule"@, ModuleCategory::Enhance),
        ("googleCaptcha"@, "https://raw.githubusercontent.com/NobyDa/Script/master/Surge/Module/GoogleCAPTCHA.sgmodule"@, ModuleCategory::Enhance),
        ("baiduIndex"@, "https://raw.githubusercontent.com/Keywos/rule/main/script/baidu_index/bd.sgmodule"@, ModuleCategory::Adblock),
        ("spotify"@, "https://raw.githubusercontent.com/001ProMax/Surge/refs/heads/main/Module/AD/Spotify.sgmodule"@, ModuleCategory::Adblock),
        ("hideVpnIcon"@, "https://raw.githubusercontent.com/QingRex/LoonKissSurge/refs/heads/main/Surge/Official/%E9%9A%90%E8%97%8F%E7%8A%B6%E6%80%81%E6%A0%8F%20VPN%20%E5%9B%BE%E6%A0%87.official.sgmodule"@, ModuleCategory::Utility),
        ("wechatUnblock"@, "https://raw.githubusercontent.com/zZPiglet/Task/master/UnblockURLinWeChat.sgmodule"@, ModuleCategory::Utility),
        ("spotifyHifi"@, "https://raw.githubusercontent.com/app2smile/rules/master/module/spotify.module"@, ModuleCategory::Utility),
        ("ipPurity"@, "https://raw.githubusercontent.com/Likhixang/Egerny/refs/heads/main/sgmodule/IPPure.sgmodule"@, ModuleCategory::Utility),
        ("youtube"@, "https://github.com/DualSubs/YouTube/releases/latest/download/DualSubs.YouTube.sgmodule"@, ModuleCategory::Subtitle),
        ("universal"@, "https://github.com/DualSubs/Universal/releases/latest/download/DualSubs.Universal.sgmodule"@, ModuleCategory::Subtitle),
    ]
}

/// The modules that are synced, in the order they are processed.
pub fn get_module_sources() -> (r: Vec<ModuleSource>)
    ensures
        r@.len() == MODULE_SOURCE_COUNT,
        r@.map_values(|s: ModuleSource| (s.name@, s.url@, s.category)) == module_source_table(),
{
    let r = vec![
        ModuleSource {
            name: "googleRedirect",
            url: "https://raw.githubusercontent.com/QingRex/LoonKissSurge/refs/heads/main/Surge/Beta/Google%E9%87%8D%E5%AE%9A%E5%90%91.beta.sgmodule",
            category: ModuleCategory::Enhance,
        },
        ModuleSource {
            name: "bilibili",
            url: "https://raw.githubusercontent.com/kokoryh/Sparkle/refs/heads/master/release/surge/module/bilibili.sgmodule",
            category: ModuleCategory::Enhance,
        },
        ModuleSource {
            name: "telegramIp",
            url: "https://raw.githubusercontent.com/Repcz/Tool/X/Surge/Module/Function/FKTG.sgmodule",
            category: ModuleCategory::Enhance,
        },
        ModuleSource {
            name: "googleCaptcha",
            url: "https://raw.githubusercontent.com/NobyDa/Script/master/Surge/Module/GoogleCAPTCHA.sgmodule",
            category: ModuleCategory::Enhance,
        },
        ModuleSource {
            name: "baiduIndex",
            url: "https://raw.githubusercontent.com/Keywos/rule/main/script/baidu_index/bd.sgmodule",
            category: ModuleCategory::Adblock,
        },
        ModuleSource {
            name: "spotify",
            url: "https://raw.githubusercontent.com/001ProMax/Surge/refs/heads/main/Module/AD/Spotify.sgmodule",
            category: ModuleCategory::Adblock,
        },
        ModuleSource {
            name: "hideVpnIcon",
            url: "https://raw.githubusercontent.com/QingRex/LoonKissSurge/refs/heads/main/Surge/Official/%E9%9A%90%E8%97%8F%E7%8A%B6%E6%80%81%E6%A0%8F%20VPN%20%E5%9B%BE%E6%A0%87.official.sgmodule",
            category: ModuleCategory::Utility,
        },
        ModuleSource {
            name: "wechatUnblock",
            url: "https://raw.githubusercontent.com/zZPiglet/Task/master/UnblockURLinWeChat.sgmodule",
            category: ModuleCategory::Utility,
        },
        ModuleSource {
            name: "spotifyHifi",
            url: "https://raw.githubusercontent.com/app2smile/rules/master/module/spotify.module",
            category: ModuleCategory::Utility,
        },
        ModuleSource {
            name: "ipPurity",
            url: "https://raw.githubusercontent.com/Likhixang/Egerny/refs/heads/main/sgmodule/IPPure.sgmodule",
            category: ModuleCategory::Utility,
        },
        ModuleSource {
            name: "youtube",
            url: "https://github.com/DualSubs/YouTube/releases/latest/download/DualSubs.YouTube.sgmodule",
            category: ModuleCategory::Subtitle,
        },
        ModuleSource {
            name: "universal",
            url: "https://github.com/DualSubs/Universal/releases/latest/download/DualSubs.Universal.sgmodule",
            category: ModuleCategory::Subtitle,
        },
    ];
    assert(r@.map_values(|s: ModuleSource| (s.name@, s.url@, s.category)) =~= module_source_table());
    r
}

/// The file name of a module.
pub open spec fn module_file_name(name: Seq<char>) -> Seq<char> {
    name + ".sgmodule"@
}

/// The text written for a module fetched as `raw` at `timestamp`: the
/// banner, an empty line, and the module as fetched.
pub open spec fn module_file_text(name: Seq<char>, url: Seq<char>, raw: Seq<char>, timestamp: Seq<char>) -> Seq<char> {
    module_banner(name, timestamp, url) + seq!['\n'] + raw
}

/// The banner of a module file, stamped with the current local time.
pub fn generate_header(name: &str, upstream_url: &str) -> (r: String)
    ensures
        exists|timestamp: Seq<char>| single_line(timestamp) && r@ == module_banner(name@, timestamp, upstream_url@),
{
    let timestamp = current_timestamp();
    module_banner_at(name, upstream_url, timestamp.as_str())
}

/// The text written for a module fetched as `content` at `timestamp`.
pub fn render_module_file(name: &str, upstream_url: &str, content: &str, timestamp: &str) -> (r: String)
    ensures
        r@ == module_file_text(name@, upstream_url@, content@, timestamp@),
{
    let mut out = module_banner_at(name, upstream_url, timestamp);
    out.push('\n');
    out.push_str(content);
    out
}

/// The file that a fetched module becomes: source name, category
/// directory, file name and text.
pub open spec fn module_output(source: ModuleSource, raw: Seq<char>, timestamp: Seq<char>) -> (Seq<char>, Seq<char>, Seq<char>, Seq<char>) {
    (
        source.name@,
        source.category.dir_name(),
        module_file_name(source.name@),
        module_file_text(source.name@, source.url@, raw, timestamp),
    )
}

/// The files of a module sync: one for each source whose fetch succeeded,
/// in source order.
pub open spec fn module_plan(sources: Seq<ModuleSource>, fetched: Seq<Option<String>>, timestamp: Seq<char>) -> Seq<(Seq<char>, Seq<char>, Seq<char>, Seq<char>)>
    decreases fetched.len(),
{
    if fetched.len() == 0 || sources.len() == 0 {
        Seq::empty()
    } else {
        let prev = module_plan(sources.drop_last(), fetched.drop_last(), timestamp);
        match fetched.last() {
            Some(text) => prev.push(module_output(sources.last(), text@, timestamp)),
            None => prev,
        }
    }
}

/// The file written for one fetched module.
pub fn module_file(source: &ModuleSource, content: &str, timestamp: &str) -> (r: TextFile)
    ensures
        file_view(r) == module_output(*source, content@, timestamp@),
{
    let mut file_name = String::new();
    file_name.push_str(source.name);
    file_name.push_str(".sgmodule");
    TextFile {
        name: String::from_str(source.name),
        dir: String::from_str(source.category.as_str()),
        file_name,
        contents: render_module_file(source.name, source.url, content, timestamp),
    }
}

/// The files of a module sync, given what each source's fetch returned
/// (`None` where it failed).
pub fn plan_module_files(sources: &Vec<ModuleSource>, fetched: &Vec<Option<String>>, timestamp: &str) -> (r: Vec<TextFile>)
    requires
        sources@.len() == fetched@.len(),
    ensures
        r@.map_values(|f: TextFile| file_view(f)) == module_plan(sources@, fetched@, timestamp@),
        r@.len() == fetched_count(fetched@),
{
    let mut out: Vec<TextFile> = Vec::new();
    let mut i: usize = 0;
    while i < sources.len()
        invariant
            i <= sources@.len() == fetched@.len(),
            out@.map_values(|f: TextFile| file_view(f)) == module_plan(sources@.take(i as int), fetched@.take(i as int), timestamp@),
            out@.len() == fetched_count(fetched@.take(i as int)),
        decreases sources@.len() - i,
    {
        assert(sources@.take(i + 1 as int).drop_last() == sources@.take(i as int));
        assert(fetched@.take(i + 1 as int).drop_last() == fetched@.take(i as int));
        match &fetched[i] {
            Some(text) => {
                let f = module_file(&sources[i], text.as_str(), timestamp);
                out.push(f);
            }
            None => {}
        }
        i += 1;
        assert(out@.map_values(|f: TextFile| file_view(f)) == module_plan(sources@.take(i as int), fetched@.take(i as int), timestamp@));
    }
    assert(sources@.take(i as int) == sources@);
    assert(fetched@.take(i as int) == fetched@);
    out
}

} // verus!
