use vpnctl_admin::json::{int_member, text_member, Member};
use vpnctl_admin::lists::{distinct_sorted, has_text};
use vpnctl_admin::locale::{tr, Locale};
use vpnctl_admin::numbers::{clip, greatest_of, percent_of, total_of};
use vpnctl_admin::order::text_before;
use vpnctl_admin::ports::{copy_port, difference, has_port, port_label, same_port, sorted_ports, Port};
use vpnctl_admin::shell::topbar;
use vpnctl_admin::text::{cat2, cat3, cat4, cat5, chars_of, dec, parse_u16, parse_u64, text_of, trim};

fn texts(v: &[&str]) -> Vec<String> {
    v.iter().map(|s| s.to_string()).collect()
}

fn port(proto: &str, port: u16) -> Port {
    Port { proto: proto.to_string(), port }
}

#[test]
fn decimals_read_back() {
    for n in [0, 7, 10, 65_535, 1_000_000_007, u64::MAX] {
        assert_eq!(parse_u64(&dec(n)), Some(n));
    }
    assert_eq!(parse_u16(&chars_of("65535")), Some(65_535));
    assert_eq!(parse_u16(&chars_of("65536")), None);
    assert_eq!(parse_u16(&chars_of("-1")), None);
}

#[test]
fn texts_are_ordered_by_character() {
    let ordered = ["", "1", "10", "2", "A", "a", "aa", "b", "я"];
    for i in 0..ordered.len() {
        for j in 0..ordered.len() {
            assert_eq!(text_before(ordered[i], ordered[j]), i < j);
        }
    }
}

#[test]
fn distinct_texts_do_not_depend_on_order() {
    let a = distinct_sorted(&texts(&["nl", "de", "nl", "us"]));
    let b = distinct_sorted(&texts(&["us", "us", "de", "nl"]));
    assert_eq!(a, texts(&["de", "nl", "us"]));
    assert_eq!(a, b);
    assert!(has_text(&a, "nl") && !has_text(&a, "n"));
}

#[test]
fn sums_and_maxima() {
    assert_eq!(clip(u128::from(u64::MAX) + 1), u64::MAX);
    assert_eq!(clip(5), 5);
    assert_eq!(greatest_of(&vec![]), 0);
    assert_eq!(greatest_of(&vec![3, 9, 4]), 9);
    assert_eq!(total_of(&vec![u64::MAX, 2]), u128::from(u64::MAX) + 2);
    assert_eq!(percent_of(1, 3), 33);
    assert_eq!(percent_of(u64::MAX, 1), 999);
}

#[test]
fn port_sets_do_not_depend_on_order() {
    let a = sorted_ports(&vec![port("udp", 9), port("tcp", 443), port("tcp", 22)]);
    let b = sorted_ports(&vec![port("tcp", 22), port("tcp", 22), port("tcp", 443), port("udp", 9)]);
    let labels = |v: &Vec<Port>| v.iter().map(port_label).collect::<Vec<String>>();
    assert_eq!(labels(&a), texts(&["tcp/22", "tcp/443", "udp/9"]));
    assert_eq!(labels(&a), labels(&b));
    let rest = difference(&a, &sorted_ports(&vec![port("tcp", 443), port("udp", 1)]));
    assert_eq!(labels(&rest), texts(&["tcp/22", "udp/9"]));
    assert!(same_port(&a[0], &copy_port(&a[0])) && !same_port(&a[0], &a[1]));
    assert!(has_port(&a, &port("udp", 9)) && !has_port(&a, &port("udp", 22)));
}

#[test]
fn switching_language_twice_returns() {
    for lang in [Locale::En, Locale::Ru] {
        let there = topbar("users", lang, 0).other;
        let back = topbar("users", there, 0).other;
        assert!(there != lang && back == lang);
    }
    assert_eq!((tr(Locale::En, "a", "б"), tr(Locale::Ru, "a", "б")), ("a", "б"));
}

#[test]
fn concatenations() {
    assert_eq!(cat2("a", "б"), "aб");
    assert_eq!(cat3("a", "", "c"), "ac");
    assert_eq!(cat4("a", "b", "c", "d"), "abcd");
    assert_eq!(cat5("1", "2", "3", "4", "5"), "12345");
    assert_eq!(text_of(&chars_of("кабель"), 2, 4), "бе");
}

#[test]
fn white_space_is_that_of_unicode() {
    for c in (0..=0x10_ffff_u32).filter_map(char::from_u32) {
        assert_eq!(trim(&c.to_string()).is_empty(), c.is_whitespace(), "{:?}", c);
    }
    assert_eq!(trim("\u{3000}a \u{85}b\t\u{2028}"), "a \u{85}b");
}

#[test]
fn members_are_found_by_name() {
    let m = |name: &str, value: Option<&str>, number: Option<i64>| Member {
        name: name.to_string(),
        value: value.map(|v| v.to_string()),
        number,
    };
    let v = vec![m("a", Some("x"), None), m("n", None, Some(-7)), m("z", None, None)];
    assert_eq!(text_member(&v, "a").as_deref(), Some("x"));
    assert_eq!((text_member(&v, "n"), int_member(&v, "n")), (None, Some(-7)));
    assert_eq!((text_member(&v, "z"), int_member(&v, "z")), (None, None));
    assert_eq!((text_member(&v, "b"), int_member(&v, "b")), (None, None));
}
