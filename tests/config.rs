use rusty::config::{parse_delay_buckets, parse_delay_list, parse_error_fraction, Component};
use rusty::decoration::get_smiley;
use rusty::text::{parse_u32, push_decimal, same_text, trim_text};

#[test]
fn smiley_known_names() {
    assert_eq!(get_smiley("Grinning"), "&#x1F603;");
    assert_eq!(get_smiley("Sleeping"), "&#x1F634;");
    assert_eq!(get_smiley("Cursing"), "&#x1F92C;");
    assert_eq!(get_smiley("Kaboom"), "&#x1F92F;");
    assert_eq!(get_smiley("HeartEyes"), "&#x1F60D;");
    assert_eq!(get_smiley("Neutral"), "&#x1F610;");
    assert_eq!(get_smiley("RollingEyes"), "&#x1F644;");
    assert_eq!(get_smiley("Screaming"), "&#x1F631;");
    assert_eq!(get_smiley("Vomiting"), "&#x1F92E;");
    assert_eq!(get_smiley("Rusty"), "&#x1F980;");
}

#[test]
fn smiley_unknown_name_gives_default() {
    assert_eq!(get_smiley("NoSuchFace"), "&#x1F92E;");
    assert_eq!(get_smiley(""), "&#x1F92E;");
    assert_eq!(get_smiley("rusty"), "&#x1F92E;");
    assert_eq!(get_smiley("Rusty "), "&#x1F92E;");
}

#[test]
fn text_comparison() {
    assert!(same_text("abc", "abc"));
    assert!(!same_text("abc", "abd"));
    assert!(!same_text("abc", "ab"));
    assert!(same_text("", ""));
}

#[test]
fn trimming_unicode_white_space() {
    assert_eq!(trim_text("  7 \t"), "7");
    assert_eq!(trim_text("\u{3000}7\u{a0}"), "7");
    assert_eq!(trim_text(" a b "), "a b");
    assert_eq!(trim_text("   "), "");
    assert_eq!(trim_text(""), "");
}

#[test]
fn parsing_numbers() {
    assert_eq!(parse_u32("0"), Some(0));
    assert_eq!(parse_u32("42"), Some(42));
    assert_eq!(parse_u32("+7"), Some(7));
    assert_eq!(parse_u32("007"), Some(7));
    assert_eq!(parse_u32("4294967295"), Some(4294967295));
    assert_eq!(parse_u32("4294967296"), None);
    assert_eq!(parse_u32("99999999999999999999"), None);
    assert_eq!(parse_u32("+"), None);
    assert_eq!(parse_u32("-1"), None);
    assert_eq!(parse_u32("-0"), None);
    assert_eq!(parse_u32(""), None);
    assert_eq!(parse_u32(" 5"), None);
    assert_eq!(parse_u32("5x"), None);
    for n in [0u32, 1, 9, 10, 99, 100, 12345, u32::MAX] {
        assert_eq!(parse_u32(&n.to_string()), n.to_string().parse::<u32>().ok());
    }
}

#[test]
fn decimal_printing() {
    for n in [0u32, 5, 10, 100, 500, 4294967295] {
        let mut s = String::from("x=");
        push_decimal(&mut s, n);
        assert_eq!(s, format!("x={}", n));
    }
}

#[test]
fn error_fraction_values() {
    assert_eq!(parse_error_fraction(None), 0);
    assert_eq!(parse_error_fraction(Some("0")), 0);
    assert_eq!(parse_error_fraction(Some("25")), 25);
    assert_eq!(parse_error_fraction(Some("100")), 100);
    assert_eq!(parse_error_fraction(Some("150")), 100);
    assert_eq!(parse_error_fraction(Some("4294967295")), 100);
    assert_eq!(parse_error_fraction(Some("4294967296")), 0);
    assert_eq!(parse_error_fraction(Some("abc")), 0);
    assert_eq!(parse_error_fraction(Some("-5")), 0);
    assert_eq!(parse_error_fraction(Some(" 5")), 0);
    assert_eq!(parse_error_fraction(Some("")), 0);
}

#[test]
fn delay_bucket_lists() {
    assert_eq!(parse_delay_list("0,0"), vec![0, 0]);
    assert_eq!(parse_delay_list("10,20,30"), vec![10, 20, 30]);
    assert_eq!(parse_delay_list(" 10 , x, 20,,"), vec![10, 20]);
    assert_eq!(parse_delay_list("\u{3000}5\u{a0},+6"), vec![5, 6]);
    assert_eq!(parse_delay_list("-1,2"), vec![2]);
    assert_eq!(parse_delay_list(""), Vec::<u32>::new());
    assert_eq!(parse_delay_list(","), Vec::<u32>::new());
    assert_eq!(parse_delay_list("5,5,0"), vec![5, 5, 0]);
    assert_eq!(parse_delay_buckets(None), Vec::<u32>::new());
    assert_eq!(parse_delay_buckets(Some("1, 2")), vec![1, 2]);
}

#[test]
fn settings_from_config() {
    let c = Component::from_config(Some("30"), Some("100, 200"), Some("Kaboom"));
    assert_eq!(c.error_fraction, 30);
    assert_eq!(c.delay_buckets, vec![100, 200]);
    assert_eq!(c.smiley, "&#x1F92F;");
}

#[test]
fn settings_defaults() {
    let c = Component::from_config(None, None, None);
    assert_eq!(c.error_fraction, 0);
    assert!(c.delay_buckets.is_empty());
    assert_eq!(c.smiley, "&#x1F980;");
    let d = Component::from_config(Some("lots"), Some("a,b"), Some("Nobody"));
    assert_eq!(d.error_fraction, 0);
    assert!(d.delay_buckets.is_empty());
    assert_eq!(d.smiley, "&#x1F92E;");
}
