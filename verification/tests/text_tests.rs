use auth_core::text::decimal_string;
use auth_core::text::parse_decimal;
use auth_core::text::MAX_MAGNITUDE;

#[test]
fn decimal_string_writes_exact_texts() {
    assert_eq!(decimal_string(0), "0");
    assert_eq!(decimal_string(7), "7");
    assert_eq!(decimal_string(10), "10");
    assert_eq!(decimal_string(1000), "1000");
    assert_eq!(decimal_string(-1), "-1");
    assert_eq!(decimal_string(-120), "-120");
    assert_eq!(decimal_string(i64::MAX), "9223372036854775807");
    assert_eq!(decimal_string(i64::MIN), "-9223372036854775808");
}

#[test]
fn decimal_string_agrees_with_display() {
    for n in -2000i64..2000 {
        assert_eq!(decimal_string(n), n.to_string());
        assert_eq!(decimal_string(i64::MAX - n.abs()), (i64::MAX - n.abs()).to_string());
        assert_eq!(decimal_string(i64::MIN + n.abs()), (i64::MIN + n.abs()).to_string());
    }
}

#[test]
fn parse_decimal_reads_exact_values() {
    assert_eq!(MAX_MAGNITUDE, 1u64 << 63);
    assert_eq!(parse_decimal("0"), Some(0));
    assert_eq!(parse_decimal("-0"), Some(0));
    assert_eq!(parse_decimal("+0"), Some(0));
    assert_eq!(parse_decimal("42"), Some(42));
    assert_eq!(parse_decimal("+42"), Some(42));
    assert_eq!(parse_decimal("-42"), Some(-42));
    assert_eq!(parse_decimal("000123"), Some(123));
    assert_eq!(parse_decimal("9223372036854775807"), Some(i64::MAX));
    assert_eq!(parse_decimal("-9223372036854775808"), Some(i64::MIN));
    assert_eq!(parse_decimal("-9223372036854775807"), Some(i64::MIN + 1));
    assert_eq!(parse_decimal(&format!("{}1", "0".repeat(10_000))), Some(1));
}

#[test]
fn parse_decimal_refuses_other_texts() {
    for text in [
        "", "+", "-", "+-1", "-+1", "--1", "++1", "1-", "1+", "1_0", " 1", "1 ", "12a", "a", "0x10",
        "1.0", "1e3", "9223372036854775808", "-9223372036854775809", "18446744073709551616",
        "99999999999999999999999999", "-99999999999999999999999999", "\u{ff11}", "1\u{e9}",
        "\u{e9}1", "-\u{ff11}", "\u{661}",
    ] {
        assert_eq!(parse_decimal(text), None);
        assert!(text.parse::<i64>().is_err());
    }
}

#[test]
fn parse_decimal_undoes_decimal_string() {
    for n in [0i64, 1, -1, 9, 10, -10, 99, 100, 1_700_000_000, i64::MAX, i64::MIN] {
        assert_eq!(parse_decimal(&decimal_string(n)), Some(n));
    }
}

#[test]
fn parse_decimal_agrees_with_std() {
    let pieces = ["", "+", "-", "0", "1", "9", "a", " ", "92233720368547758", "07", "08", "_"];
    for a in pieces {
        for b in pieces {
            for c in pieces {
                let text = format!("{a}{b}{c}");
                assert_eq!(parse_decimal(&text), text.parse::<i64>().ok());
            }
        }
    }
}
