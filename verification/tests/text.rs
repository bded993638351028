use oslearn::text::{
    append_flush_right, append_number, append_signed, parse_number, same_text, split,
    split_nonempty, starts_with, Cut,
};

fn number(n: u64, radix: u64) -> String {
    let mut s = String::new();
    append_number(&mut s, n, radix);
    s
}

fn signed(n: i32) -> String {
    let mut s = String::new();
    append_signed(&mut s, n);
    s
}

#[test]
fn split_keeps_empty_pieces() {
    assert_eq!(split("a-b", Cut::At('-')), vec!["a", "b"]);
    assert_eq!(split("-a--b-", Cut::At('-')), vec!["", "a", "", "b", ""]);
    assert_eq!(split("", Cut::At('-')), vec![""]);
}

#[test]
fn split_nonempty_drops_empty_pieces() {
    assert_eq!(split_nonempty("\n\nx\ny\n", Cut::At('\n')), vec!["x", "y"]);
    assert_eq!(split_nonempty("  a \t b\u{3000}c\r\n", Cut::White), vec!["a", "b", "c"]);
    assert_eq!(split_nonempty(" \t ", Cut::White), Vec::<String>::new());
}

#[test]
fn split_pieces_join_to_the_text() {
    for s in ["", "a", "-", "a-b--c-", "--"] {
        assert_eq!(split(s, Cut::At('-')).join("-"), s);
    }
}

#[test]
fn white_space_is_the_unicode_property() {
    for u in 0..=0x10ffffu32 {
        if let Some(c) = char::from_u32(u) {
            assert_eq!(Cut::White.is_at(c), c.is_whitespace(), "{:x}", u);
        }
    }
}

#[test]
fn parse_number_reads_decimal_numbers() {
    assert_eq!(parse_number("0", 10, u64::MAX), Some(0));
    assert_eq!(parse_number("+42", 10, u64::MAX), Some(42));
    assert_eq!(parse_number("0042", 10, u64::MAX), Some(42));
    assert_eq!(parse_number("18446744073709551615", 10, u64::MAX), Some(u64::MAX));
    assert_eq!(parse_number("18446744073709551616", 10, u64::MAX), None);
    assert_eq!(parse_number("4294967295", 10, u32::MAX as u64), Some(4294967295));
    assert_eq!(parse_number("4294967296", 10, u32::MAX as u64), None);
}

#[test]
fn parse_number_rejects_what_std_rejects() {
    for s in ["", "+", "-", "-1", "++1", " 1", "1 ", "1a", "1_000", "0x10", "１"] {
        assert_eq!(parse_number(s, 10, u64::MAX), None, "{}", s);
        assert!(s.parse::<u64>().is_err(), "{}", s);
    }
}

#[test]
fn parse_number_reads_hexadecimal_numbers() {
    assert_eq!(parse_number("76620e828000", 16, u64::MAX), Some(0x76620e828000));
    assert_eq!(parse_number("DEADbeef", 16, u64::MAX), Some(0xdeadbeef));
    assert_eq!(parse_number("ffffffffffffffff", 16, u64::MAX), Some(u64::MAX));
    assert_eq!(parse_number("10000000000000000", 16, u64::MAX), None);
    assert_eq!(parse_number("g", 16, u64::MAX), None);
}

#[test]
fn numbers_are_written_as_std_writes_them() {
    for n in [0u64, 1, 9, 10, 11, 255, 256, 1568, 0x188000, u64::MAX] {
        assert_eq!(number(n, 10), format!("{}", n));
        assert_eq!(number(n, 16), format!("{:x}", n));
    }
    for n in [0i32, 1, -1, 10, -10, 25938, i32::MAX, i32::MIN] {
        assert_eq!(signed(n), format!("{}", n));
    }
}

#[test]
fn written_numbers_read_back() {
    for n in [0u64, 7, 16, 99, 4096, 0x7fff_ffff_f000, u64::MAX] {
        assert_eq!(parse_number(&number(n, 16), 16, u64::MAX), Some(n));
        assert_eq!(parse_number(&number(n, 10), 10, u64::MAX), Some(n));
    }
}

#[test]
fn flush_right_fills_with_spaces() {
    for s in ["", "1", "1568", "12345678", "123456789"] {
        let mut out = "|".to_string();
        append_flush_right(&mut out, s, 8);
        assert_eq!(out, format!("|{:>8}", s));
    }
}

#[test]
fn texts_are_compared_by_their_characters() {
    assert!(starts_with("VmSize:  1 kB", "VmSize:"));
    assert!(starts_with("x", ""));
    assert!(!starts_with("VmSiz", "VmSize:"));
    assert!(!starts_with("vmSize:", "VmSize:"));
    assert!(same_text("step5-1", "step5-1"));
    assert!(!same_text("step5-1", "step5-2"));
    assert!(!same_text("step2 ", "step2"));
    assert!(!same_text("", "step2"));
}
