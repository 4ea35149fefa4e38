use std::path::Path;

use mk_dl_bot::text::{
    i64_text, parse_i16, parse_i32, parse_i64, parse_i8, parse_isize, parse_u16, parse_u32,
    parse_u64, parse_u8, parse_usize, path_join, str_contains, str_eq, u64_text,
};

#[test]
fn decimal_texts() {
    assert_eq!(u64_text(0), "0");
    assert_eq!(u64_text(7), "7");
    assert_eq!(u64_text(1234567890), "1234567890");
    assert_eq!(u64_text(u64::MAX), u64::MAX.to_string());
    assert_eq!(i64_text(-42), "-42");
    assert_eq!(i64_text(i64::MIN), i64::MIN.to_string());
    assert_eq!(i64_text(i64::MAX), i64::MAX.to_string());
}

#[test]
fn decimal_text_reads_back() {
    for n in [0i64, 1, -1, 9, 10, -10, 99, 123456, -987654321, i64::MIN, i64::MAX] {
        assert_eq!(parse_i64(&i64_text(n)), Some(n));
    }
    for n in [0u64, 5, 10, 65535, u64::MAX] {
        assert_eq!(parse_u64(&u64_text(n)), Some(n));
    }
}

#[test]
fn parsing_like_std() {
    let cases = ["", "+", "-", "0", "+0", "-0", "12", "-12", "+12", "1a", " 1", "1 ",
        "9223372036854775807", "9223372036854775808", "-9223372036854775808",
        "-9223372036854775809", "2147483647", "2147483648", "-2147483648", "-2147483649",
        "255", "256", "-1", "-128", "-129", "127", "128", "32767", "32768", "-32768", "-32769",
        "65535", "65536", "4294967295", "4294967296", "18446744073709551615", "18446744073709551616", "007", "٣"];
    for c in cases {
        assert_eq!(parse_i64(c), c.parse::<i64>().ok(), "i64 {:?}", c);
        assert_eq!(parse_i32(c), c.parse::<i32>().ok(), "i32 {:?}", c);
        assert_eq!(parse_u64(c), c.parse::<u64>().ok(), "u64 {:?}", c);
        assert_eq!(parse_u8(c), c.parse::<u8>().ok(), "u8 {:?}", c);
        assert_eq!(parse_u16(c), c.parse::<u16>().ok(), "u16 {:?}", c);
        assert_eq!(parse_u32(c), c.parse::<u32>().ok(), "u32 {:?}", c);
        assert_eq!(parse_usize(c), c.parse::<usize>().ok(), "usize {:?}", c);
        assert_eq!(parse_i8(c), c.parse::<i8>().ok(), "i8 {:?}", c);
        assert_eq!(parse_i16(c), c.parse::<i16>().ok(), "i16 {:?}", c);
        assert_eq!(parse_isize(c), c.parse::<isize>().ok(), "isize {:?}", c);
    }
}

#[test]
fn paths_join_like_std() {
    let cases = [(".", "mk-dl-bot.db"), ("/var/lib/mk-dl-bot", "mk-dl-bot.db"), ("/tmp/", "a"),
        ("", "a"), ("/tmp", "/etc/x"), ("a", ""), ("a/", "")];
    for (base, rest) in cases {
        assert_eq!(path_join(base, rest), Path::new(base).join(rest).to_str().unwrap(), "{:?}", (base, rest));
    }
}

#[test]
fn equality_and_search() {
    assert!(str_eq("mp4", "mp4"));
    assert!(!str_eq("mp4", "mp3"));
    assert!(!str_eq("mp4", "mp4 "));
    assert!(str_contains("1080p Premium", "Premium"));
    assert!(!str_contains("1080p", "Premium"));
    assert!(str_contains("anything", ""));
    assert!(!str_contains("Prem", "Premium"));
    assert!(str_contains("Премиум Premium", "Premium"));
}
