use charactermap::text::{
    chars_of, contains, format_number, parse_u32, replace, starts_with, value_of_digit,
};

#[test]
fn numbers_are_written_in_a_radix() {
    assert_eq!(format_number(0, 16, 0), "0");
    assert_eq!(format_number(0x1F600, 16, 0), "1F600");
    assert_eq!(format_number(0x41, 16, 4), "0041");
    assert_eq!(format_number(0x1F600, 16, 4), "1F600");
    assert_eq!(format_number(128512, 10, 0), "128512");
    assert_eq!(format_number(u32::MAX, 2, 0), "1".repeat(32));
    assert_eq!(format_number(35, 36, 0), "Z");
}

#[test]
fn numbers_are_read_as_std_reads_them() {
    let texts = [
        "", "+", "-", "-1", "0", "+41", "41", "ff", "FF", "10FFFF", "ffffffff", "100000000", "g",
        " 1", "1 ", "0x41", "+-1", "++1", "4294967295", "4294967296", "00000000000041", "é", "１",
    ];
    for text in texts {
        assert_eq!(parse_u32(text, 16), u32::from_str_radix(text, 16).ok(), "{text}");
        assert_eq!(parse_u32(text, 10), text.parse::<u32>().ok(), "{text}");
    }
}

#[test]
fn written_numbers_read_back() {
    for number in [0, 1, 9, 10, 0xA0, 0x10FFFF, u32::MAX] {
        for radix in 2..=36 {
            assert_eq!(parse_u32(&format_number(number, radix, 0), radix), Some(number));
        }
    }
}

#[test]
fn digits_have_values() {
    assert_eq!(value_of_digit('7', 10), Some(7));
    assert_eq!(value_of_digit('a', 16), Some(10));
    assert_eq!(value_of_digit('F', 16), Some(15));
    assert_eq!(value_of_digit('a', 10), None);
    assert_eq!(value_of_digit('@', 36), None);
}

#[test]
fn parts_are_found_as_std_finds_them() {
    let texts = ["", "a", "abc", "aab", "aabaab", "x", "ab", "€uro", "u"];
    for text in texts {
        for part in texts {
            assert_eq!(contains(text, part), text.contains(part), "{text} {part}");
            assert_eq!(starts_with(text, part), text.starts_with(part), "{text} {part}");
        }
    }
}

#[test]
fn parts_are_replaced() {
    assert_eq!(replace("Search results ({})", "{}", "12"), "Search results (12)");
    assert_eq!(replace("{}{}", "{}", "{}"), "{}{}");
    assert_eq!(replace("aaa", "aa", "b"), "ba");
    assert_eq!(replace("none", "{}", "1"), "none");
    for (text, part, by) in [("abcabc", "bc", "é"), ("xx", "x", ""), ("", "x", "y")] {
        assert_eq!(replace(text, part, by), text.replace(part, by));
    }
}

#[test]
fn texts_are_lists_of_characters() {
    let text = "a€😀\u{0}";
    assert_eq!(chars_of(text), text.chars().collect::<Vec<char>>());
}
