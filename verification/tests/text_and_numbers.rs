use mockapi::numeric::{parse_u32, u64_to_decimal, IntErrorKind};
use mockapi::service::{parse_pid, pid_file_text};
use mockapi::text::{split, str_eq, strip_prefix, trim};

#[test]
fn trim_removes_unicode_whitespace_at_both_ends() {
    assert_eq!(trim("  a b \t\n"), "a b");
    assert_eq!(trim("\u{3000}x\u{a0}"), "x");
    assert_eq!(trim("   "), "");
    assert_eq!(trim(""), "");
    assert_eq!(trim("x"), "x");
}

#[test]
fn split_keeps_empty_pieces() {
    assert_eq!(split("a,b,,c", ','), vec!["a", "b", "", "c"]);
    assert_eq!(split("", ','), vec![""]);
    assert_eq!(split(",", ','), vec!["", ""]);
    assert_eq!(split("abc", ';'), vec!["abc"]);
}

#[test]
fn strip_prefix_and_equality() {
    assert_eq!(strip_prefix("for=1.2.3.4", "for="), Some("1.2.3.4".to_string()));
    assert_eq!(strip_prefix("for", "for="), None);
    assert_eq!(strip_prefix("by=x", "for="), None);
    assert!(str_eq("abc", "abc"));
    assert!(!str_eq("abc", "abd"));
    assert!(!str_eq("abc", "ab"));
}

#[test]
fn decimal_rendering() {
    assert_eq!(u64_to_decimal(0), "0");
    assert_eq!(u64_to_decimal(7), "7");
    assert_eq!(u64_to_decimal(8344), "8344");
    assert_eq!(u64_to_decimal(u64::MAX), u64::MAX.to_string());
}

#[test]
fn parse_u32_like_std() {
    assert_eq!(parse_u32("42"), Ok(42));
    assert_eq!(parse_u32("+7"), Ok(7));
    assert_eq!(parse_u32("007"), Ok(7));
    assert_eq!(parse_u32("4294967295"), Ok(u32::MAX));
    assert_eq!(parse_u32(""), Err(IntErrorKind::Empty));
    assert_eq!(parse_u32("+"), Err(IntErrorKind::InvalidDigit));
    assert_eq!(parse_u32("-"), Err(IntErrorKind::InvalidDigit));
    assert_eq!(parse_u32("-1"), Err(IntErrorKind::InvalidDigit));
    assert_eq!(parse_u32("12a"), Err(IntErrorKind::InvalidDigit));
    assert_eq!(parse_u32("4294967296"), Err(IntErrorKind::PosOverflow));
    assert_eq!(parse_u32("99999999999a"), Err(IntErrorKind::PosOverflow));
    assert_eq!(parse_u32("9a99999999999"), Err(IntErrorKind::InvalidDigit));
    for s in ["0", "1", "+12", "123456", "4294967295", "4294967296", "x", "", "+", "-3", "1 2"] {
        let ours = parse_u32(s).ok();
        let std = s.parse::<u32>().ok();
        assert_eq!(ours, std, "{}", s);
    }
}

#[test]
fn pid_file_round_trip() {
    for pid in [0u32, 1, 42, 31337, u32::MAX] {
        let text = pid_file_text(pid);
        assert_eq!(text, pid.to_string());
        assert_eq!(parse_pid(&text), Ok(pid));
        assert_eq!(parse_pid(&format!("{}\n", text)), Ok(pid));
    }
    assert_eq!(parse_pid("  12 \n"), Ok(12));
    assert_eq!(parse_pid("\n"), Err(IntErrorKind::Empty));
    assert_eq!(parse_pid("abc"), Err(IntErrorKind::InvalidDigit));
}

#[test]
fn trim_agrees_with_std_on_every_char_up_to_3100() {
    for code in 0u32..0x3100 {
        if let Some(c) = char::from_u32(code) {
            let s = format!("{}a{}", c, c);
            assert_eq!(trim(&s), s.trim(), "U+{:04X}", code);
        }
    }
}
