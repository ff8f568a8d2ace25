//! Policy icons: their categories, the fixed table of upstream images, the
//! file each is saved as, and the index of the icons that were saved.
use vstd::prelude::*;
use crate::text::chars_of;

verus! {

/// The directory that an icon is filed under.
#[derive(Debug, Clone, Copy, PartialEq, Eq, Structural)]
pub enum IconCategory {
    Apps,
    Country,
    Policy,
}

impl IconCategory {
    pub open spec fn dir_name(self) -> Seq<char> {
        match self {
            IconCategory::Apps => "apps"@,
            IconCategory::Country => "country"@,
            IconCategory::Policy => "policy"@,
        }
    }

    /// The directory name of the category.
    pub fn as_str(&self) -> (r: &'static str)
        ensures
            r@ == self.dir_name(),
    {
        match self {
            IconCategory::Apps => "apps",
            IconCategory::Country => "country",
            IconCategory::Policy => "policy",
        }
    }
}

/// The number of icons that are synced.
pub const ICON_SOURCE_COUNT: usize = 22;

/// The icons as (name, upstream URL, category), in processing order.
pub open spec fn icon_source_table() -> Seq<(Seq<char>, Seq<char>, IconCategory)> {
    seq![
        ("chatgpt"@, "https://raw.githubusercontent.com/fmz200/wool_scripts/main/icons/apps/ChatGPT.png"@, IconCategory::Apps),
        ("youtube"@, "https://raw.githubusercontent.com/fmz200/wool_scripts/main/icons/apps/YouTube_02.png"@, IconCategory::Apps),
        ("spotify"@, "https://raw.githubusercontent.com/fmz200/wool_scripts/main/icons/apps/Spotify_02.png"@, IconCategory::Apps),
        ("telegram"@, "https://raw.githubusercontent.com/fmz200/wool_scripts/main/icons/apps/Telegram_03.png"@, IconCategory::Apps),
        ("bilibiliTv"@, "https://raw.githubusercontent.com/fmz200/wool_scripts/main/icons/apps/BiliBiliTV.png"@, IconCategory::Apps),
        ("discord"@, "https://raw.githubusercontent.com/fmz200/wool_scripts/main/icons/apps/Discord.png"@, IconCategory::Apps),
        ("game"@, "https://raw.githubusercontent.com/fmz200/wool_scripts/main/icons/apps/Game.png"@, IconCategory::Apps),
        ("google"@, "https://raw.githubusercontent.com/fmz200/wool_scripts/main/icons/apps/Google_02.png"@, IconCategory::Apps),
        ("apple"@, "https://raw.githubusercontent.com/Koolson/Qure/master/IconSet/Color/Apple_1.png"@, IconCategory::Apps),
        ("hk"@, "https://raw.githubusercontent.com/erdongchanyo/icon/main/Policy-Country/HK02.png"@, IconCategory::Country),
        ("tw"@, "https://raw.githubusercontent.com/erdongchanyo/icon/main/Policy-Country/TW.png"@, IconCategory::Country),
        ("jp"@, "https://raw.githubusercontent.com/erdongchanyo/icon/main/Policy-Country/JP.png"@, IconCategory::Country),
        ("kr"@, "https://raw.githubusercontent.com/erdongchanyo/icon/main/Policy-Country/KR.png"@, IconCategory::Country),
        ("sg"@, "https://raw.githubusercontent.com/erdongchanyo/icon/main/Policy-Country/SG.png"@, IconCategory::Country),
        ("us"@, "https://raw.githubusercontent.com/erdongchanyo/icon/main/Policy-Country/US.png"@, IconCategory::Country),
        ("uk"@, "https://raw.githubusercontent.com/erdongchanyo/icon/main/Policy-Country/UK.png"@, IconCategory::Country),
        ("in"@, "https://raw.githubusercontent.com/erdongchanyo/icon/main/Policy-Country/IN.png"@, IconCategory::Country),
        ("surge"@, "https://raw.githubusercontent.com/Irrucky/Tool/main/Surge/icon/surge_2.png"@, IconCategory::Policy),
        ("final"@, "https://raw.githubusercontent.com/erdongchanyo/icon/main/Policy-Filter/Final01.png"@, IconCategory::Policy),
        ("vpn"@, "https://raw.githubusercontent.com/blackmatrix7/ios_rule_script/master/icon/color/vpn.png"@, IconCategory::Policy),
        ("gMedia"@, "https://raw.githubusercontent.com/erdongchanyo/icon/main/Policy-Filter/GMedia.png"@, IconCategory::Policy),
        ("emby"@, "https://raw.githubusercontent.com/erdongchanyo/icon/main/Policy-Filter/Emby.png"@, IconCategory::Policy),
    ]
}

/// The icons that are synced, as (name, upstream URL, category), in the
/// order they are processed.
pub fn get_icon_sources() -> (r: Vec<(&'static str, &'static str, IconCategory)>)
    ensures
        r@.len() == ICON_SOURCE_COUNT,
        r@.map_values(|t: (&'static str, &'static str, IconCategory)| (t.0@, t.1@, t.2)) == icon_source_table(),
{
    let r = vec![
        ("chatgpt", "https://raw.githubusercontent.com/fmz200/wool_scripts/main/icons/apps/ChatGPT.png", IconCategory::Apps),
        ("youtube", "https://raw.githubusercontent.com/fmz200/wool_scripts/main/icons/apps/YouTube_02.png", IconCategory::Apps),
        ("spotify", "https://raw.githubusercontent.com/fmz200/wool_scripts/main/icons/apps/Spotify_02.png", IconCategory::Apps),
        ("telegram", "https://raw.githubusercontent.com/fmz200/wool_scripts/main/icons/apps/Telegram_03.png", IconCategory::Apps),
        ("bilibiliTv", "https://raw.githubusercontent.com/fmz200/wool_scripts/main/icons/apps/BiliBiliTV.png", IconCategory::Apps),
        ("discord", "https://raw.githubusercontent.com/fmz200/wool_scripts/main/icons/apps/Discord.png", IconCategory::Apps),
        ("game", "https://raw.githubusercontent.com/fmz200/wool_scripts/main/icons/apps/Game.png", IconCategory::Apps),
        ("google", "https://raw.githubusercontent.com/fmz200/wool_scripts/main/icons/apps/Google_02.png", IconCategory::Apps),
        ("apple", "https://raw.githubusercontent.com/Koolson/Qure/master/IconSet/Color/Apple_1.png", IconCategory::Apps),
        ("hk", "https://raw.githubusercontent.com/erdongchanyo/icon/main/Policy-Country/HK02.png", IconCategory::Country),
        ("tw", "https://raw.githubusercontent.com/erdongchanyo/icon/main/Policy-Country/TW.png", IconCategory::Country),
        ("jp", "https://raw.githubusercontent.com/erdongchanyo/icon/main/Policy-Country/JP.png", IconCategory::Country),
        ("kr", "https://raw.githubusercontent.com/erdongchanyo/icon/main/Policy-Country/KR.png", IconCategory::Country),
        ("sg", "https://raw.githubusercontent.com/erdongchanyo/icon/main/Policy-Country/SG.png", IconCategory::Country),
        ("us", "https://raw.githubusercontent.com/erdongchanyo/icon/main/Policy-Country/US.png", IconCategory::Country),
        ("uk", "https://raw.githubusercontent.com/erdongchanyo/icon/main/Policy-Country/UK.png", IconCategory::Country),
        ("in", "https://raw.githubusercontent.com/erdongchanyo/icon/main/Policy-Country/IN.png", IconCategory::Country),
        ("surge", "https://raw.githubusercontent.com/Irrucky/Tool/main/Surge/icon/surge_2.png", IconCategory::Policy),
        ("final", "https://raw.githubusercontent.com/erdongchanyo/icon/main/Policy-Filter/Final01.png", IconCategory::Policy),
        ("vpn", "https://raw.githubusercontent.com/blackmatrix7/ios_rule_script/master/icon/color/vpn.png", IconCategory::Policy),
        ("gMedia", "https://raw.githubusercontent.com/erdongchanyo/icon/main/Policy-Filter/GMedia.png", IconCategory::Policy),
        ("emby", "https://raw.githubusercontent.com/erdongchanyo/icon/main/Policy-Filter/Emby.png", IconCategory::Policy),
    ];
    assert(r@.map_values(|t: (&'static str, &'static str, IconCategory)| (t.0@, t.1@, t.2)) =~= icon_source_table());
    r
}

/// Where the saved icons are published.
pub const ICON_BASE_URL: &'static str = "https://raw.githubusercontent.com/hsuyelin/surge-conf/main/icons";

/// The title of the icon index.
pub const INDEX_NAME: &'static str = "Surge Icons";

/// The description of the icon index.
pub const INDEX_DESCRIPTION: &'static str = "Icons collected from the internet, copyright belongs to original authors";

/// Index of the last `.` in `s`, or -1 when it has none.
pub open spec fn last_dot(s: Seq<char>) -> int
    decreases s.len(),
{
    if s.len() == 0 {
        -1
    } else if s.last() == '.' {
        s.len() - 1
    } else {
        last_dot(s.drop_last())
    }
}

/// What follows the last `.` of a URL; the whole URL when it has no `.`.
pub open spec fn extension_of(url: Seq<char>) -> Seq<char> {
    url.skip(last_dot(url) + 1)
}

/// The file an icon is saved as: its name, a `.`, the URL's extension.
pub open spec fn icon_file_name(name: Seq<char>, url: Seq<char>) -> Seq<char> {
    name + seq!['.'] + extension_of(url)
}

/// The published URL of a saved icon: base, category, file name.
pub open spec fn icon_public_url(name: Seq<char>, url: Seq<char>, category: IconCategory) -> Seq<char> {
    ICON_BASE_URL@ + seq!['/'] + category.dir_name() + seq!['/'] + icon_file_name(name, url)
}

/// The extension of an icon's URL.
pub fn url_extension(url: &str) -> (r: String)
    ensures
        r@ == extension_of(url@),
{
    let cs = chars_of(url);
    let mut k: usize = cs.len();
    assert(cs@.take(cs@.len() as int) == cs@);
    while k > 0 && cs[k - 1] != '.'
        invariant
            k <= cs@.len(),
            last_dot(cs@) == last_dot(cs@.take(k as int)),
        decreases k,
    {
        assert(cs@.take(k as int).drop_last() == cs@.take(k - 1 as int));
        k -= 1;
    }
    if k > 0 {
        assert(cs@.take(k as int).last() == '.');
    }
    let mut out = String::new();
    let mut i: usize = k;
    while i < cs.len()
        invariant
            k <= i <= cs@.len(),
            out@ == cs@.subrange(k as int, i as int),
        decreases cs@.len() - i,
    {
        out.push(cs[i]);
        i += 1;
        assert(out@ == cs@.subrange(k as int, i as int));
    }
    assert(cs@.subrange(k as int, cs@.len() as int) == cs@.skip(k as int));
    out
}

/// The file name an icon is saved under.
pub fn icon_file(name: &str, url: &str) -> (r: String)
    ensures
        r@ == icon_file_name(name@, url@),
{
    let mut out = String::new();
    out.push_str(name);
    out.push('.');
    out.push_str(url_extension(url).as_str());
    out
}

/// An entry of the icon index.
pub struct IconEntry {
    pub name: String,
    pub url: String,
}

/// The icon index: a title, a description, when it was made, and one entry
/// per saved icon.
pub struct IconIndex {
    pub name: String,
    pub description: String,
    pub updated_at: String,
    pub icons: Vec<IconEntry>,
}

/// The index of the icons in `downloaded` (those that were saved), made at
/// `timestamp`: one entry per icon, in order, each with its name and its
/// published URL.
pub fn build_index(downloaded: &Vec<(&'static str, &'static str, IconCategory)>, timestamp: &str) -> (r: IconIndex)
    ensures
        r.name@ == INDEX_NAME@,
        r.description@ == INDEX_DESCRIPTION@,
        r.updated_at@ == timestamp@,
        r.icons@.len() == downloaded@.len(),
        forall|i: int| 0 <= i < downloaded@.len() ==> {
            &&& (#[trigger] r.icons@[i]).name@ == downloaded@[i].0@
            &&& r.icons@[i].url@ == icon_public_url(downloaded@[i].0@, downloaded@[i].1@, downloaded@[i].2)
        },
{
    let mut icons: Vec<IconEntry> = Vec::new();
    let mut i: usize = 0;
    while i < downloaded.len()
        invariant
            i <= downloaded@.len(),
            icons@.len() == i,
            forall|j: int| 0 <= j < i ==> {
                &&& (#[trigger] icons@[j]).name@ == downloaded@[j].0@
                &&& icons@[j].url@ == icon_public_url(downloaded@[j].0@, downloaded@[j].1@, downloaded@[j].2)
            },
        decreases downloaded@.len() - i,
    {
        let (name, url, category) = downloaded[i];
        let mut public_url = String::new();
        public_url.push_str(ICON_BASE_URL);
        public_url.push('/');
        public_url.push_str(category.as_str());
        public_url.push('/');
        public_url.push_str(icon_file(name, url).as_str());
        icons.push(IconEntry { name: String::from_str(name), url: public_url });
        i += 1;
    }
    IconIndex {
        name: String::from_str(INDEX_NAME),
        description: String::from_str(INDEX_DESCRIPTION),
        updated_at: String::from_str(timestamp),
        icons,
    }
}

/// The items whose flag in `ok` is set, in order.
pub open spec fn kept<T>(items: Seq<T>, ok: Seq<bool>) -> Seq<T>
    decreases ok.len(),
{
    if ok.len() == 0 || items.len() == 0 {
        Seq::empty()
    } else {
        let prev = kept(items.drop_last(), ok.drop_last());
        if ok.last() {
            prev.push(items.last())
        } else {
            prev
        }
    }
}

/// How many flags of `ok` are set.
pub open spec fn true_count(ok: Seq<bool>) -> nat
    decreases ok.len(),
{
    if ok.len() == 0 {
        0
    } else {
        true_count(ok.drop_last()) + if ok.last() {
            1nat
        } else {
            0nat
        }
    }
}

/// The index of an icon sync, given which sources were saved (`succeeded`,
/// one flag per source), made at `timestamp`: exactly one entry per saved
/// icon, in source order, with its name and published URL.
pub fn plan_icon_index(
    sources: &Vec<(&'static str, &'static str, IconCategory)>,
    succeeded: &Vec<bool>,
    timestamp: &str,
) -> (r: IconIndex)
    requires
        sources@.len() == succeeded@.len(),
    ensures
        r.updated_at@ == timestamp@,
        r.icons@.len() == true_count(succeeded@),
        r.icons@.len() == kept(sources@, succeeded@).len(),
        forall|i: int| 0 <= i < r.icons@.len() ==> {
            &&& (#[trigger] r.icons@[i]).name@ == kept(sources@, succeeded@)[i].0@
            &&& r.icons@[i].url@ == icon_public_url(
                kept(sources@, succeeded@)[i].0@,
                kept(sources@, succeeded@)[i].1@,
                kept(sources@, succeeded@)[i].2,
            )
        },
{
    let mut downloaded: Vec<(&'static str, &'static str, IconCategory)> = Vec::new();
    let mut i: usize = 0;
    while i < sources.len()
        invariant
            i <= sources@.len() == succeeded@.len(),
            downloaded@ == kept(sources@.take(i as int), succeeded@.take(i as int)),
            downloaded@.len() == true_count(succeeded@.take(i as int)),
        decreases sources@.len() - i,
    {
        assert(sources@.take(i + 1 as int).drop_last() == sources@.take(i as int));
        assert(succeeded@.take(i + 1 as int).drop_last() == succeeded@.take(i as int));
        if succeeded[i] {
            downloaded.push(sources[i]);
        }
        i += 1;
    }
    assert(sources@.take(i as int) == sources@);
    assert(succeeded@.take(i as int) == succeeded@);
    build_index(&downloaded, timestamp)
}

} // verus!
