use venus::text::{contains_text, decimal_text, find_text, parse_u16, text_eq};

#[test]
fn parses_like_u16_from_str() {
    for s in ["0", "7", "+7", "007", "65535", "", "+", "-0", "65536", " 1", "1 ", "1a", "٣"] {
        assert_eq!(parse_u16(s), s.parse::<u16>().ok(), "{s:?}");
    }
}

#[test]
fn renders_decimal() {
    for n in [0u64, 9, 10, 443, 65535, u64::MAX] {
        assert_eq!(decimal_text(n), n.to_string());
    }
}

#[test]
fn compares_and_searches_text() {
    assert!(text_eq("ws", "ws"));
    assert!(!text_eq("ws", "wss"));
    assert!(!text_eq("ws", "WS"));
    assert_eq!(find_text("vmess://abc://", "://"), Some(5));
    assert_eq!(find_text("abc", ""), Some(0));
    assert_eq!(find_text("abc", "abcd"), None);
    assert!(contains_text("core started at 1", "started"));
    assert!(!contains_text("starting", "started"));
}
