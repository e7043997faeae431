use memcrs::memcache::decimal::{format_decimal, parse_decimal};

#[test]
fn format_writes_the_shortest_text() {
    assert_eq!(format_decimal(0), b"0".to_vec());
    assert_eq!(format_decimal(7), b"7".to_vec());
    assert_eq!(format_decimal(10), b"10".to_vec());
    assert_eq!(format_decimal(1234567890), b"1234567890".to_vec());
    assert_eq!(format_decimal(u64::MAX), b"18446744073709551615".to_vec());
}

#[test]
fn format_agrees_with_the_standard_library() {
    let samples: Vec<u64> = vec![0, 1, 9, 10, 11, 99, 100, 101, 65535, 4294967296, u64::MAX - 1];
    for n in samples {
        assert_eq!(format_decimal(n), n.to_string().into_bytes());
    }
}

#[test]
fn parse_reads_digits() {
    assert_eq!(parse_decimal(b"0", u64::MAX), Some(0));
    assert_eq!(parse_decimal(b"42", u64::MAX), Some(42));
    assert_eq!(parse_decimal(b"18446744073709551615", u64::MAX), Some(u64::MAX));
    assert_eq!(parse_decimal(b"000000000000000000000000000012", u64::MAX), Some(12));
}

#[test]
fn parse_accepts_one_leading_plus() {
    assert_eq!(parse_decimal(b"+42", u64::MAX), Some(42));
    assert_eq!(parse_decimal(b"+0", u64::MAX), Some(0));
    assert_eq!(parse_decimal(b"++42", u64::MAX), None);
    assert_eq!(parse_decimal(b"+", u64::MAX), None);
    assert_eq!(parse_decimal(b"4+2", u64::MAX), None);
}

#[test]
fn parse_refuses_everything_else() {
    assert_eq!(parse_decimal(b"", u64::MAX), None);
    assert_eq!(parse_decimal(b"-1", u64::MAX), None);
    assert_eq!(parse_decimal(b" 1", u64::MAX), None);
    assert_eq!(parse_decimal(b"1 ", u64::MAX), None);
    assert_eq!(parse_decimal(b"12a", u64::MAX), None);
    assert_eq!(parse_decimal(b"0x10", u64::MAX), None);
    assert_eq!(parse_decimal(b"/", u64::MAX), None);
    assert_eq!(parse_decimal(b":", u64::MAX), None);
    assert_eq!(parse_decimal(&[0x31, 0x80], u64::MAX), None);
}

#[test]
fn parse_respects_the_limit() {
    assert_eq!(parse_decimal(b"18446744073709551616", u64::MAX), None);
    assert_eq!(parse_decimal(b"99999999999999999999999999", u64::MAX), None);
    assert_eq!(parse_decimal(b"65535", 65535), Some(65535));
    assert_eq!(parse_decimal(b"65536", 65535), None);
    assert_eq!(parse_decimal(b"0", 0), Some(0));
    assert_eq!(parse_decimal(b"1", 0), None);
    assert_eq!(parse_decimal(b"100", 99), None);
    assert_eq!(parse_decimal(b"99", 99), Some(99));
    assert_eq!(parse_decimal(b"18446744073709551615x", u64::MAX), None);
}

#[test]
fn parse_agrees_with_the_standard_library() {
    let samples: Vec<&str> = vec![
        "", "0", "+", "+1", "-1", "007", "1_000", "18446744073709551615",
        "18446744073709551616", "1e3", "٣", " 5", "5\n",
    ];
    for text in samples {
        assert_eq!(parse_decimal(text.as_bytes(), u64::MAX), text.parse::<u64>().ok());
    }
}

#[test]
fn parse_reads_back_what_format_wrote() {
    let samples: Vec<u64> = vec![0, 1, 9, 10, 99, 100, 12345, u64::MAX / 10, u64::MAX];
    for n in samples {
        assert_eq!(parse_decimal(&format_decimal(n), u64::MAX), Some(n));
    }
}
