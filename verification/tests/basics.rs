//! Texts, numbers, orders and rates.

use nbox::domain::custom::display;
use nbox::domain::circuit_view::{endpoint_kind, title_first, with_first};
use nbox::domain::prefix_view::{pct_bar, percent_number};
use nbox::domain::util::{pad_right, repeat, section};
use nbox::domain::vrf_view::util_bar;
use nbox::json::{pretty, shown_form, values_equal, Json, JsonNumber};
use nbox::number::{decimal, parse_u16, parse_u64, parse_u8};
use nbox::order::{insert_name, le_text};
use nbox::output::KeyValues;
use nbox::rate::humanize_kbps;
use nbox::split::{contains, head_before, split_lines, split_once, split_words, tail_after};
use nbox::text::{
    join, same_ignoring_case, trimmed, trimmed_end, trimmed_end_char, trimmed_start, white,
};

#[test]
fn numbers_read_back() {
    for n in [0, 9, 10, 208, 65_535, u64::MAX] {
        assert_eq!(decimal(n), n.to_string());
        assert_eq!(parse_u64(&decimal(n)), Some(n));
    }
    for text in ["", "+", "-1", "+7", "007", "1 ", "12a", "18446744073709551616", "٣"] {
        assert_eq!(parse_u64(text), text.parse::<u64>().ok(), "{text:?}");
        assert_eq!(parse_u16(text), text.parse::<u16>().ok(), "{text:?}");
        assert_eq!(parse_u8(text), text.parse::<u8>().ok(), "{text:?}");
    }
    assert_eq!(parse_u8("256"), None);
    assert_eq!(parse_u16("65536"), None);
}

fn rate_by_float(kbps: u64) -> String {
    if kbps == 0 {
        "0".to_string()
    } else if kbps % 1_000_000 == 0 {
        format!("{} Gbps", kbps / 1_000_000)
    } else if kbps >= 1_000_000 {
        format!("{:.1} Gbps", kbps as f64 / 1_000_000.0)
    } else if kbps % 1000 == 0 {
        format!("{} Mbps", kbps / 1000)
    } else if kbps >= 1000 {
        format!("{:.1} Mbps", kbps as f64 / 1000.0)
    } else {
        format!("{kbps} kbps")
    }
}

#[test]
fn rates_round_as_floats_do() {
    assert_eq!(humanize_kbps(1_250), "1.2 Mbps");
    assert_eq!(humanize_kbps(1_350), "1.4 Mbps");
    assert_eq!(humanize_kbps(999_999), "1000.0 Mbps");
    assert_eq!(humanize_kbps(64), "64 kbps");
    for n in 0..200_000 {
        assert_eq!(humanize_kbps(n), rate_by_float(n));
    }
    let mut n: u64 = 0x9e37_79b9_7f4a_7c15;
    for _ in 0..200_000 {
        n ^= n << 13;
        n ^= n >> 7;
        n ^= n << 17;
        for shift in [0, 8, 11, 20, 33, 40] {
            let rate = n >> shift;
            assert_eq!(humanize_kbps(rate), rate_by_float(rate), "{rate}");
        }
    }
    for rate in [(1 << 53) + 1, (1 << 53) + 3, u64::MAX, u64::MAX - 1, 1_050_000, 2_150_000] {
        assert_eq!(humanize_kbps(rate), rate_by_float(rate), "{rate}");
    }
}

#[test]
fn texts_are_trimmed_and_split_as_std_does() {
    for c in ('\u{0}'..='\u{3100}').chain(['\u{feff}', '\u{10ffff}']) {
        assert_eq!(white(c), c.is_whitespace(), "{c:?}");
    }
    for s in ["", "  ", " a b ", "\u{2003}x\u{a0}", "a", "\t\nq\u{85}"] {
        assert_eq!(trimmed(s), s.trim());
        assert_eq!(trimmed_start(s), s.trim_start());
        assert_eq!(trimmed_end(s), s.trim_end());
        assert_eq!(split_words(s), s.split_whitespace().collect::<Vec<_>>());
    }
    for s in ["", "\n", "a\nb", "a\r\nb\n", "a\n\nb", "\r\n", "a\rb", "x\n"] {
        assert_eq!(split_lines(s), s.lines().collect::<Vec<_>>(), "{s:?}");
    }
    assert_eq!(trimmed_end_char("https://nb///", '/'), "https://nb");
    assert_eq!(split_once("a/b/c", '/'), Some(("a".to_string(), "b/c".to_string())));
    assert_eq!(split_once("abc", '/'), None);
    assert_eq!(head_before("10.0.0.1/24", '/'), "10.0.0.1");
    assert_eq!(tail_after("dcim.cable", '.'), "cable");
    assert!(contains("edge01 xe", "01 x") && contains("x", "") && !contains("ab", "ba"));
    assert!(same_ignoring_case("BeArEr", "bearer") && !same_ignoring_case("É", "é"));
    assert_eq!(join(&vec!["a".to_string(), "b".to_string()], ", "), "a, b");
}

#[test]
fn names_stay_in_ascending_order() {
    let mut names: Vec<String> = vec![];
    for name in ["status", "comments", "site_id", "status", "Zed", "é"] {
        insert_name(&mut names, name);
    }
    assert_eq!(names, vec!["Zed", "comments", "site_id", "status", "é"]);
    assert!(le_text("a", "ab") && le_text("a", "a") && !le_text("b", "ab"));
}

#[test]
fn rows_render_one_per_line() {
    let mut kv = KeyValues::new();
    kv.push("name", "edge01");
    kv.push_opt("serial", &None);
    kv.push_opt("site", &Some("iad1".to_string()));
    kv.push_count("mtu", Some(9000));
    kv.push_list("tags", &vec!["a".to_string(), "b".to_string()]);
    kv.push_list("none", &vec![]);
    kv.push_flag("enabled", Some(false));
    assert_eq!(kv.render(), "name: edge01\nsite: iad1\nmtu: 9000\ntags: a, b\nenabled: false");
    assert_eq!(KeyValues::new().render(), "");
}

#[test]
fn json_values_are_printed() {
    let value = |text: &str| serde_json::from_str::<serde_json::Value>(text).unwrap();
    assert_eq!(pretty(&value("{\"b\":1}")), "{\n  \"b\": 1\n}");
    assert_eq!(shown_form(None, "1".to_string()), "1");
    assert_eq!(shown_form(Some("2".to_string()), "1".to_string()), "2");
    let list = Json::Array { items: vec![], raw: value("{ \"b\": [1, 2.50] }") };
    assert_eq!(display(&list), "{\"b\":[1,2.5]}");
    let number = |text: &str| {
        Json::Number(JsonNumber { text: text.to_string(), decimal: text.to_string() })
    };
    assert!(values_equal(&number("1"), &number("1")));
    assert!(!values_equal(&number("1"), &number("2")));
    assert!(!values_equal(&Json::Null, &Json::Bool(false)));
}

#[test]
fn bars_and_columns_have_a_fixed_width() {
    assert_eq!(pct_bar(0), "[----------------]");
    assert_eq!(pct_bar(12), "[############----]");
    assert_eq!(pct_bar(99), "[################]");
    assert_eq!(pad_right("ab", 4), "ab  ");
    assert_eq!(pad_right("abcde", 4), "abcde");
    assert_eq!(repeat("ab", 3), "ababab");
    assert_eq!(
        section("IP Addresses", &vec!["10.0.0.1/31".to_string()]),
        "\n\nIP Addresses\n  10.0.0.1/31"
    );
    assert_eq!(util_bar(0).chars().count(), util_bar(100).chars().count());
}

#[test]
fn a_percentage_is_read_without_its_sign() {
    assert_eq!(percent_number("50%"), "50");
    assert_eq!(percent_number(" 42.5 %% "), "42.5");
    assert_eq!(percent_number("nope"), "nope");
}

#[test]
fn the_first_letter_is_raised() {
    assert_eq!(title_first("active"), "Active");
    assert_eq!(title_first("ßa"), "SSa");
    assert_eq!(title_first(""), "");
    assert_eq!(with_first("X", "abc"), "Xbc");
    assert_eq!(endpoint_kind(Some("circuits.providernetwork")), "provider network");
    assert_eq!(endpoint_kind(Some("dcim.site")), "site");
}
