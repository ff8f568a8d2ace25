use surge_sync::fetch::{decode_text, FetchError};
use surge_sync::header::{current_timestamp, module_banner_at, rule_banner_at};
use surge_sync::icons::{build_index, get_icon_sources, icon_file, plan_icon_index, url_extension, IconCategory};
use surge_sync::log::{annotation_line, finished_line, status_line, sub_line, LogLevel, Timer};
use surge_sync::modules::{get_module_sources, plan_module_files, render_module_file, ModuleCategory};
use surge_sync::naming::{camel_case_from, to_camel_case};
use surge_sync::rule_text::{count_entries, strip_header};
use surge_sync::rules::{get_rule_sources, plan_rule_files, render_rule_file, RuleCategory};
use surge_sync::sync::shortfall_warning;

#[test]
fn test_to_camel_case() {
    assert_eq!(to_camel_case("chat_gpt"), "chatGpt");
    assert_eq!(to_camel_case("you-tube"), "youTube");
    assert_eq!(to_camel_case("DISCORD"), "discord");
    assert_eq!(to_camel_case("Apple 1"), "apple1");
}

#[test]
fn camel_case_drops_empty_words_and_lowers_the_rest() {
    assert_eq!(to_camel_case("a__b"), "aB");
    assert_eq!(to_camel_case("foo_BAR baz"), "fooBarBaz");
    assert_eq!(to_camel_case(""), "");
    assert_eq!(to_camel_case("_x"), "X");
    assert_eq!(to_camel_case("trailing_"), "trailing");
}

#[test]
fn camel_case_from_keeps_the_given_first_word() {
    assert_eq!(camel_case_from("chat", "CHAT_gpt"), "chatGpt");
    assert_eq!(camel_case_from("x", "abc"), "x");
}

#[test]
fn strip_header_example() {
    let input = "# header\n\nfoo.com\nbar.com\n// trailing";
    let body = strip_header(input);
    assert_eq!(body, "foo.com\nbar.com\n// trailing");
    assert_eq!(count_entries(&body), 2);
}

#[test]
fn strip_header_is_idempotent_on_examples() {
    for input in [
        "# a\n// b\n  \nDOMAIN,x.com\n# c\nDOMAIN,y.com",
        "plain",
        "",
        "   # indented comment\n\t\nIP-CIDR,1.2.3.4/32",
    ] {
        let once = strip_header(input);
        let twice = strip_header(&once);
        assert_eq!(once, twice);
    }
}

#[test]
fn strip_header_drops_final_newline_and_crlf() {
    assert_eq!(strip_header("# h\r\nfoo\r\nbar\r\n"), "foo\nbar");
    assert_eq!(strip_header("foo\n\n"), "foo\n");
    assert_eq!(strip_header("foo\n"), "foo");
}

#[test]
fn all_comment_input_strips_to_nothing() {
    let input = "# one\n// two\n\n   \n# three\n";
    let body = strip_header(input);
    assert_eq!(body, "");
    assert_eq!(count_entries(&body), 0);
    assert_eq!(count_entries(input), 0);
}

#[test]
fn count_entries_skips_indented_comments_and_blanks() {
    let text = "a\n  # c\n\t// d\n\nb\n /x\n/ /y\n";
    assert_eq!(count_entries(text), 4);
    assert_eq!(count_entries(""), 0);
    assert_eq!(count_entries("\u{3000}\n x"), 1);
}

#[test]
fn rule_banner_exact() {
    let banner = rule_banner_at("ai", "https://e.com/ai.conf", 12, "2024-01-02 03:04:05");
    assert_eq!(
        banner,
        "#########################################\n# ai\n# Last Updated: 2024-01-02 03:04:05\n# Entries: 12\n# Upstream: https://e.com/ai.conf\n# GitHub: https://github.com/hsuyelin/surge-conf\n#########################################\n"
    );
}

#[test]
fn module_banner_exact() {
    let banner = module_banner_at("m", "u", "t");
    assert_eq!(
        banner,
        "#########################################\n# m\n# Last Updated: t\n# Upstream: u\n# GitHub: https://github.com/hsuyelin/surge-conf\n#########################################\n"
    );
}

#[test]
fn rule_file_is_banner_blank_line_and_rules() {
    let text = render_rule_file("x", "u", "# old\nfoo.com\n", "T");
    let expected = format!("{}\n{}", rule_banner_at("x", "u", 1, "T"), "foo.com");
    assert_eq!(text, expected);
}

#[test]
fn module_file_keeps_the_body() {
    let text = render_module_file("m", "u", "#!name=M\n[Rule]\n", "T");
    let expected = format!("{}\n{}", module_banner_at("m", "u", "T"), "#!name=M\n[Rule]\n");
    assert_eq!(text, expected);
}

#[test]
fn rule_plan_writes_one_file_per_success() {
    let sources = get_rule_sources();
    let mut fetched: Vec<Option<String>> = Vec::new();
    for i in 0..sources.len() {
        if i % 3 == 0 {
            fetched.push(Some(format!("# head\nrule{}", i)));
        } else {
            fetched.push(None);
        }
    }
    let files = plan_rule_files(&sources, &fetched, "T");
    let successes = fetched.iter().filter(|f| f.is_some()).count();
    assert_eq!(files.len(), successes);
    assert_eq!(files[0].name, "adblock4limbo");
    assert_eq!(files[0].dir, "adblock");
    assert_eq!(files[0].file_name, "adblock4limbo.conf");
    assert!(files[0].contents.ends_with("\nrule0"));
    assert!(files[0].contents.contains("# Entries: 1\n"));
}

#[test]
fn rule_plan_with_every_fetch_failed() {
    let sources = get_rule_sources();
    let fetched: Vec<Option<String>> = sources.iter().map(|_| None).collect();
    let files = plan_rule_files(&sources, &fetched, "T");
    assert!(files.is_empty());
    let warning = shortfall_warning(sources.len(), 0, "rules failed to sync").unwrap();
    assert_eq!(
        warning,
        format!("\x1b[33m     Warning\x1b[0m {} rules failed to sync", sources.len())
    );
}

#[test]
fn module_plan_writes_one_file_per_success() {
    let sources = get_module_sources();
    let mut fetched: Vec<Option<String>> = sources.iter().map(|_| None).collect();
    fetched[1] = Some("body".to_string());
    let files = plan_module_files(&sources, &fetched, "T");
    assert_eq!(files.len(), 1);
    assert_eq!(files[0].dir, "enhance");
    assert_eq!(files[0].file_name, "bilibili.sgmodule");
    assert!(files[0].contents.ends_with("\nbody"));
    let none: Vec<Option<String>> = sources.iter().map(|_| None).collect();
    assert!(plan_module_files(&sources, &none, "T").is_empty());
}

#[test]
fn no_warning_when_all_succeed() {
    assert!(shortfall_warning(3, 3, "icons failed to download").is_none());
    assert_eq!(
        shortfall_warning(3, 1, "icons failed to download").unwrap(),
        "\x1b[33m     Warning\x1b[0m 2 icons failed to download"
    );
}

#[test]
fn source_tables_have_their_sizes() {
    assert_eq!(get_rule_sources().len(), 17);
    assert_eq!(get_module_sources().len(), 12);
    assert_eq!(get_icon_sources().len(), 22);
    assert_eq!(RuleCategory::Gaming.as_str(), "gaming");
    assert_eq!(ModuleCategory::Subtitle.as_str(), "subtitle");
    assert_eq!(IconCategory::Country.as_str(), "country");
}

#[test]
fn icon_file_name_takes_the_url_extension() {
    assert_eq!(url_extension("https://e.com/a/ChatGPT.png"), "png");
    assert_eq!(url_extension("noext"), "noext");
    assert_eq!(url_extension("a.b.jpeg"), "jpeg");
    assert_eq!(icon_file("chatgpt", "https://e.com/a/ChatGPT.png"), "chatgpt.png");
}

#[test]
fn icon_index_has_one_entry_per_download() {
    let sources = get_icon_sources();
    let downloaded = vec![sources[0], sources[9], sources[17]];
    let index = build_index(&downloaded, "2024-05-06 07:08:09");
    assert_eq!(index.name, "Surge Icons");
    assert_eq!(index.updated_at, "2024-05-06 07:08:09");
    assert_eq!(index.icons.len(), 3);
    assert_eq!(index.icons[0].name, "chatgpt");
    assert_eq!(
        index.icons[0].url,
        "https://raw.githubusercontent.com/hsuyelin/surge-conf/main/icons/apps/chatgpt.png"
    );
    assert_eq!(index.icons[1].name, "hk");
    assert_eq!(
        index.icons[1].url,
        "https://raw.githubusercontent.com/hsuyelin/surge-conf/main/icons/country/hk.png"
    );
    assert_eq!(
        index.icons[2].url,
        "https://raw.githubusercontent.com/hsuyelin/surge-conf/main/icons/policy/surge.png"
    );
}

#[test]
fn icon_index_empty_when_nothing_downloaded() {
    let index = build_index(&Vec::new(), "T");
    assert!(index.icons.is_empty());
    assert_eq!(
        index.description,
        "Icons collected from the internet, copyright belongs to original authors"
    );
}

#[test]
fn status_lines_are_padded_and_colored() {
    assert_eq!(
        status_line("Syncing", "rules", LogLevel::Info),
        "\x1b[36m     Syncing\x1b[0m rules"
    );
    assert_eq!(
        status_line("AVeryLongStatus", "m", LogLevel::Error),
        "\x1b[31mAVeryLongStatus\x1b[0m m"
    );
    assert_eq!(sub_line("Downloading ai"), "    \x1b[36m===>\x1b[0m  Downloading ai");
    assert_eq!(annotation_line("warning", "oops"), "::warning::oops");
}

#[test]
fn finished_line_rounds_to_hundredths() {
    assert_eq!(
        finished_line("syncing", 17, 1_234_567),
        "\x1b[32m    Finished\x1b[0m syncing 17 in 1.23s"
    );
    assert_eq!(
        finished_line("syncing", 0, 1_235_000),
        "\x1b[32m    Finished\x1b[0m syncing 0 in 1.24s"
    );
    assert_eq!(
        finished_line("syncing", 3, 99_995_000),
        "\x1b[32m    Finished\x1b[0m syncing 3 in 100.00s"
    );
}

#[test]
fn timer_reports_label_and_count() {
    let timer = Timer::start("syncing");
    let line = timer.stop(5);
    assert!(line.starts_with("\x1b[32m    Finished\x1b[0m syncing 5 in "));
    assert!(line.ends_with('s'));
}

#[test]
fn decode_text_accepts_utf8_only() {
    let ok = decode_text("u", "héllo".as_bytes().to_vec());
    assert!(matches!(ok, Ok(ref s) if s == "héllo"));
    let bad = decode_text("u", vec![0x66, 0xff, 0x6f]);
    match bad {
        Err(e) => {
            assert!(matches!(e, FetchError::Decode { ref url } if url == "u"));
            assert_eq!(e.message(), "response from u is not valid UTF-8");
        }
        Ok(_) => panic!("invalid UTF-8 was accepted"),
    }
}

#[test]
fn fetch_error_messages() {
    let status = FetchError::Status {
        url: "https://e.com".to_string(),
        code: 404,
        reason: "Not Found".to_string(),
    };
    assert_eq!(status.message(), "HTTP 404 Not Found for https://e.com");
    let transport = FetchError::Transport { url: "u".to_string(), detail: "timed out".to_string() };
    assert_eq!(transport.message(), "fetch failed for u: timed out");
}

#[test]
fn icon_index_plan_keeps_exactly_the_saved_icons() {
    let sources = get_icon_sources();
    let mut succeeded = vec![false; sources.len()];
    succeeded[1] = true;
    succeeded[21] = true;
    let index = plan_icon_index(&sources, &succeeded, "T");
    assert_eq!(index.icons.len(), 2);
    assert_eq!(index.icons[0].name, "youtube");
    assert_eq!(
        index.icons[0].url,
        "https://raw.githubusercontent.com/hsuyelin/surge-conf/main/icons/apps/youtube.png"
    );
    assert_eq!(index.icons[1].name, "emby");
    assert_eq!(
        index.icons[1].url,
        "https://raw.githubusercontent.com/hsuyelin/surge-conf/main/icons/policy/emby.png"
    );
    let none = plan_icon_index(&sources, &vec![false; sources.len()], "T");
    assert!(none.icons.is_empty());
}

#[test]
fn source_tables_hold_their_entries() {
    let rules = get_rule_sources();
    assert_eq!(rules[0].name, "adblock4limbo");
    assert_eq!(rules[16].name, "china");
    assert_eq!(rules[16].category, RuleCategory::Proxy);
    let modules = get_module_sources();
    assert_eq!(modules[0].name, "googleRedirect");
    assert_eq!(modules[11].name, "universal");
    let icons = get_icon_sources();
    assert_eq!(
        icons[0],
        (
            "chatgpt",
            "https://raw.githubusercontent.com/fmz200/wool_scripts/main/icons/apps/ChatGPT.png",
            IconCategory::Apps
        )
    );
    assert!(icons.iter().all(|(_, url, _)| url.ends_with(".png")));
}

#[test]
fn timestamp_is_one_line() {
    let ts = current_timestamp();
    assert_eq!(ts.len(), 19);
    assert!(!ts.contains('\n'));
}

#[test]
fn written_rule_file_strips_back_to_its_rules() {
    let raw = "# upstream header\n\nDOMAIN,a.com\n# note\nDOMAIN,b.com";
    let file = render_rule_file("ai", "https://e.com/ai.conf", raw, "2024-01-02 03:04:05");
    assert_eq!(strip_header(&file), strip_header(&strip_header(raw)));
    assert_eq!(count_entries(&file), 2);
    assert!(file.contains("# Entries: 2\n"));
    let banner = rule_banner_at("ai", "u", 2, "2024-01-02 03:04:05");
    assert_eq!(banner.lines().count(), 7);
    assert_eq!(count_entries(&banner), 0);
    assert_eq!(strip_header(&banner), "");
}
