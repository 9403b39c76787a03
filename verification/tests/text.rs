use ducklake::text;

#[test]
fn trimming_agrees_with_the_standard_library_on_every_character() {
    let mut buffer = [0u8; 4];
    for c in '\0'..=char::MAX {
        let single: &str = c.encode_utf8(&mut buffer);
        assert_eq!(text::trim(single), single.trim(), "{:?}", c);
    }
}

#[test]
fn trimming_takes_both_ends_and_leaves_the_middle() {
    assert_eq!(text::trim("  a b\t\n"), "a b");
    assert_eq!(text::trim("\u{a0}\u{3000}path\u{2028}"), "path");
    assert_eq!(text::trim(" \t "), "");
    assert_eq!(text::trim(""), "");
    assert_eq!(text::trim("plain"), "plain");
    assert_eq!(text::trim(text::trim("  x ").as_str()), "x");
}

#[test]
fn same_text_compares_all_characters() {
    assert!(text::same_text("", ""));
    assert!(text::same_text("größe", "größe"));
    assert!(!text::same_text("open", "opem"));
    assert!(!text::same_text("open", "opens"));
    assert!(!text::same_text("open", ""));
}

#[test]
fn searching_agrees_with_the_standard_library() {
    let texts = ["", "a", "ab", "aab", "abab", "grpc://x", "grpc+tls://x", "ü+ü"];
    let needles = ["", "a", "b", "ab", "ba", "grpc://", "grpc+tls://", "ü"];
    for t in texts {
        for n in needles {
            assert_eq!(text::contains(t, n), t.contains(n), "{:?} in {:?}", n, t);
            assert_eq!(text::starts_with(t, n), t.starts_with(n), "{:?} before {:?}", n, t);
        }
    }
}

#[test]
fn doubling_agrees_with_the_standard_library() {
    for t in ["", "\"", "\"\"", "a\"b", "\"a\"", "it's", "''", "ä'ö\"ü"] {
        assert_eq!(text::double(t, '"'), t.replace('"', "\"\""));
        assert_eq!(text::double(t, '\''), t.replace('\'', "''"));
    }
    assert_eq!(text::double("a\"b", '"'), "a\"\"b");
}

#[test]
fn numbers_are_read_as_the_standard_library_reads_them() {
    let texts = [
        "", "+", "-", "0", "7", "+7", "-7", "++7", "+-7", "007", "00000000000000000042", " 7", "7 ", "7_0",
        "7.0", "x", "4294967295", "4294967296", "+4294967295", "42949672950", "99999999999999999999999",
        "99999999999999999999999x", "٣", "1e3",
    ];
    for t in texts {
        assert_eq!(text::parse_u32(t), t.parse::<u32>().ok(), "{:?}", t);
    }
    assert_eq!(text::parse_u32("4294967295"), Some(4294967295));
    assert_eq!(text::parse_u32("4294967296"), None);
    assert_eq!(text::parse_u32("+12"), Some(12));
}

#[test]
fn written_numbers_are_read_back() {
    for n in [0i16, 1, 9, 10, 99, 100, 255, 12345, 32767] {
        assert_eq!(text::parse_u32(text::format_decimal(n).as_str()), Some(n as u32));
    }
}

#[test]
fn numbers_are_written_as_the_standard_library_writes_them() {
    for n in i16::MIN..=i16::MAX {
        assert_eq!(text::format_decimal(n), n.to_string());
    }
    assert_eq!(text::format_decimal(-32768), "-32768");
    assert_eq!(text::format_decimal(-5), "-5");
}
