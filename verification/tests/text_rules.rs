use promptforge::text::{blank, decimal_string, text_eq, trim, white_space};
use promptforge::clipboard::{frame_snippet, make_sentinel, sentinel_for, sentinel_for_reading, snippet};
use promptforge::clock::{
    gen_id, id_for_reading, label_for_reading, nanos_for_reading, now_iso, project_id_for,
    timestamp_label,
};

#[test]
fn white_space_agrees_with_std_on_every_char() {
    for u in 0u32..=0x10FFFF {
        if let Some(c) = char::from_u32(u) {
            assert_eq!(white_space(c), c.is_whitespace(), "code point {u:#x}");
        }
    }
}

#[test]
fn trim_agrees_with_std() {
    let samples = [
        "",
        "   ",
        "abc",
        "  abc  ",
        "\t\n fix the dashboard \r\n",
        "\u{3000}全角\u{3000}",
        "a b c",
        "\u{85}x\u{A0}",
        " \u{200B} ",
    ];
    for s in samples {
        assert_eq!(trim(s), s.trim(), "input {s:?}");
    }
}

#[test]
fn blank_detects_white_space_only_text() {
    assert!(blank(""));
    assert!(blank(" \t\n"));
    assert!(!blank("  x "));
}

#[test]
fn decimal_matches_display() {
    for n in [0u128, 7, 10, 42, 999, 1_000_000, u64::MAX as u128, u128::MAX] {
        assert_eq!(decimal_string(n), n.to_string());
    }
}

#[test]
fn text_eq_compares_whole_texts() {
    assert!(text_eq("quit", "quit"));
    assert!(!text_eq("quit", "quits"));
    assert!(!text_eq("Quit", "quit"));
    assert!(text_eq("", ""));
}

#[test]
fn short_snippet_is_the_debug_quote() {
    assert_eq!(snippet("hello"), "\"hello\"");
    assert_eq!(snippet("a \"b\"\n"), format!("{:?}", "a \"b\"\n"));
    let forty = "x".repeat(40);
    assert_eq!(snippet(&forty), format!("{:?}", forty));
}

#[test]
fn long_snippet_quotes_forty_chars_and_counts() {
    let s = "é".repeat(50);
    let head = "é".repeat(40);
    assert_eq!(snippet(&s), format!("{:?}…(50 chars)", head));
    assert_eq!(frame_snippet("\"q\"".to_string(), 41), "\"q\"…(41 chars)");
    assert_eq!(frame_snippet("\"q\"".to_string(), 40), "\"q\"");
}

#[test]
fn sentinel_has_the_expected_shape() {
    assert_eq!(sentinel_for(123), "__PROMPTFORGE_CAPTURE_SENTINEL_123__");
    let s = make_sentinel();
    assert!(s.starts_with("__PROMPTFORGE_CAPTURE_SENTINEL_"));
    assert!(s.ends_with("__"));
    let digits = &s["__PROMPTFORGE_CAPTURE_SENTINEL_".len()..s.len() - 2];
    assert!(!digits.is_empty() && digits.chars().all(|c| c.is_ascii_digit()));
}

#[test]
fn clock_labels() {
    assert_eq!(timestamp_label(1_700_000_000), "1700000000s");
    assert_eq!(timestamp_label(0), "0s");
    assert_eq!(project_id_for(1_700_000_000_123), "proj_1700000000123");
    let now = now_iso();
    assert!(now.ends_with('s'));
    assert!(now[..now.len() - 1].parse::<u64>().unwrap() > 1_600_000_000);
    let id = gen_id();
    assert!(id.starts_with("proj_"));
    assert!(id["proj_".len()..].parse::<u128>().unwrap() > 1_600_000_000_000);
}

#[test]
fn clock_readings_map_to_labels() {
    assert_eq!(label_for_reading(None), "0s");
    assert_eq!(label_for_reading(Some((1_700_000_000, 999_999_999))), "1700000000s");
    assert_eq!(id_for_reading(None), "proj_0");
    assert_eq!(id_for_reading(Some((1_700_000_000, 123_456_789))), "proj_1700000000123");
    assert_eq!(nanos_for_reading(Some((2, 5))), 2_000_000_005);
    assert_eq!(nanos_for_reading(Some((u64::MAX, 999_999_999))), u64::MAX as u128 * 1_000_000_000 + 999_999_999);
    assert_eq!(sentinel_for_reading(None), "__PROMPTFORGE_CAPTURE_SENTINEL_0__");
    assert_eq!(sentinel_for_reading(Some((1, 2))), "__PROMPTFORGE_CAPTURE_SENTINEL_1000000002__");
}
