use server_gui::text::{contains_chars, decimal_string, parse_u64_str, to_chars, trim_str};
use server_gui::uptime::format_uptime;

#[test]
fn trims_unicode_white_space() {
    assert_eq!(trim_str("  a b \t\n"), "a b");
    assert_eq!(trim_str("\u{2003}x\u{205f}"), "x");
    assert_eq!(trim_str("   "), "");
    assert_eq!(trim_str(""), "");
    for s in ["  a  ", "\u{85}q", "x\u{2028}"] {
        assert_eq!(trim_str(s), s.trim());
        assert_eq!(trim_str(&trim_str(s)), trim_str(s));
    }
}

#[test]
fn parses_like_u64_from_str() {
    for s in ["0", "007", "+12", "18446744073709551615", "18446744073709551616", "", "+", "-1", " 1", "1a"] {
        assert_eq!(parse_u64_str(s), s.parse::<u64>().ok(), "{s}");
    }
}

#[test]
fn decimal_round_trip() {
    for n in [0u64, 9, 10, 99, 100, 12345, u64::MAX] {
        let s = decimal_string(n);
        assert_eq!(s, n.to_string());
        assert_eq!(parse_u64_str(&s), Some(n));
    }
}

#[test]
fn uptime_is_hh_mm_ss() {
    assert_eq!(format_uptime(0), "00:00:00");
    assert_eq!(format_uptime(59), "00:00:59");
    assert_eq!(format_uptime(3661), "01:01:01");
    assert_eq!(format_uptime(86399), "23:59:59");
    assert_eq!(format_uptime(360000), "100:00:00");
    for secs in [0u64, 7, 600, 3599, 3600, 45296, 359999, 1_000_000] {
        let (h, m, s) = (secs / 3600, (secs % 3600) / 60, secs % 60);
        assert_eq!(format_uptime(secs), format!("{h:02}:{m:02}:{s:02}"));
    }
}

#[test]
fn substring_search() {
    let c = |s: &str| to_chars(s);
    assert!(contains_chars(&c("hello world"), &c("lo w")));
    assert!(contains_chars(&c("abc"), &c("")));
    assert!(contains_chars(&c(""), &c("")));
    assert!(!contains_chars(&c("abc"), &c("abcd")));
    assert!(!contains_chars(&c("abc"), &c("ac")));
    assert!(contains_chars(&c("abc"), &c("abc")));
}

#[test]
fn uptime_text_reads_back() {
    for secs in [0u64, 61, 3599, 359999, 360000, 987654321] {
        let t = format_uptime(secs);
        let parts: Vec<&str> = t.split(':').collect();
        assert_eq!(parts.len(), 3);
        assert!(parts[0].len() >= 2 && parts[1].len() == 2 && parts[2].len() == 2);
        let (h, m, s): (u64, u64, u64) =
            (parts[0].parse().unwrap(), parts[1].parse().unwrap(), parts[2].parse().unwrap());
        assert!(m < 60 && s < 60);
        assert_eq!(h * 3600 + m * 60 + s, secs);
    }
}
