use charactermap::unicode::char_list_model::{
    displayable_count, is_excluded, nth_displayable_char, shown_char,
};
use charactermap::unicode::{
    raw_offset_to_filtered_index, UnicodeCharModel, UnicodeEntry, UnicodeSet,
};

/// Brute-force reference: every displayable char in `start..=end`, in order.
fn brute_force(start: u32, end: u32) -> Vec<char> {
    (start..=end)
        .filter_map(|code| char::from_u32(code).filter(|ch| !ch.is_control()))
        .collect()
}

fn check(start: u32, end: u32) {
    let expected = brute_force(start, end);
    assert_eq!(
        displayable_count(start, end),
        expected.len() as u32,
        "count mismatch for {start:#x}..={end:#x}"
    );
    for (i, &ch) in expected.iter().enumerate() {
        assert_eq!(
            nth_displayable_char(start, end, i as u32),
            Some(ch),
            "mismatch at offset {i} for {start:#x}..={end:#x}"
        );
    }
    assert_eq!(
        nth_displayable_char(start, end, expected.len() as u32),
        None,
        "expected None past the end for {start:#x}..={end:#x}"
    );
}

#[test]
fn basic_latin_and_c0_controls() {
    check(0x00, 0x7F); // C0 controls + printable ASCII + DEL
}

#[test]
fn latin1_supplement_and_c1_controls() {
    check(0x80, 0xFF); // C1 controls + Latin-1 Supplement
}

#[test]
fn plain_block_no_exclusions() {
    check(0x0370, 0x03FF); // Greek and Coptic -- no overlap with any excluded range
}

#[test]
fn surrogates_fully_excluded() {
    check(0xD800, 0xDFFF);
    assert_eq!(displayable_count(0xD800, 0xDFFF), 0);
    assert_eq!(nth_displayable_char(0xD800, 0xDFFF, 0), None);
}

#[test]
fn block_spanning_into_surrogates() {
    check(0xD700, 0xD900);
}

#[test]
fn single_codepoint() {
    check(0x0041, 0x0041); // 'A'
    check(0x0000, 0x0000); // NUL, excluded
    assert_eq!(displayable_count(0x0000, 0x0000), 0);
}

/// Diagnostic: validate the analytical count/mapping against the real
/// production block list, to catch any real-data edge case a synthetic test
/// might miss.
#[test]
fn matches_brute_force_over_real_unicode_set() {
    let sections = UnicodeSet::new().unicode_sections;

    let mut cumulative = 0u32;
    for section in &sections {
        let count = displayable_count(section.start_index, section.end_index);
        let expected: Vec<char> = brute_force(section.start_index, section.end_index);
        assert_eq!(
            count,
            expected.len() as u32,
            "count mismatch for block {:?} ({:#x}..={:#x})",
            section.description,
            section.start_index,
            section.end_index
        );
        for (i, &ch) in expected.iter().enumerate() {
            let got = nth_displayable_char(section.start_index, section.end_index, i as u32);
            assert_eq!(
                got,
                Some(ch),
                "mismatch at local offset {i} (flat position {}) in block {:?} ({:#x}..={:#x})",
                cumulative + i as u32,
                section.description,
                section.start_index,
                section.end_index
            );
            assert!(
                !ch.is_control(),
                "produced a control char {:?} at local offset {i} in block {:?}",
                ch,
                section.description
            );
        }
        cumulative += count;
    }
}

#[test]
fn model_matches_brute_force() {
    let sections = vec![
        UnicodeEntry::new(0x00, "C0 Controls and Basic Latin", 0x7F, true),
        UnicodeEntry::new(0xD800, "Surrogates", 0xDFFF, true), // fully excluded, must be skipped
        UnicodeEntry::new(0x0370, "Greek and Coptic", 0x0373, true),
    ];

    let model = UnicodeCharModel::new(&sections);

    let mut expected = brute_force(0x00, 0x7F);
    expected.extend(brute_force(0xD800, 0xDFFF));
    expected.extend(brute_force(0x0370, 0x0373));

    assert_eq!(model.n_items(), expected.len() as u32);
    for (i, &ch) in expected.iter().enumerate() {
        let item = model.item(i as u32).expect("item should exist");
        assert_eq!(Some(item), Some(ch), "mismatch at flat position {i}");
    }
    assert!(model.item(expected.len() as u32).is_none());

    // Now against the real, unfiltered production block list.
    let real_sections = UnicodeSet::new().unicode_sections;
    let mut real_expected = Vec::new();
    for section in &real_sections {
        real_expected.extend(brute_force(section.start_index, section.end_index));
    }

    let real_model = UnicodeCharModel::new(&real_sections);
    assert_eq!(real_model.n_items(), real_expected.len() as u32);

    for (i, &ch) in real_expected.iter().enumerate() {
        let item = real_model
            .item(i as u32)
            .unwrap_or_else(|| panic!("item {i} should exist"));
        assert_eq!(Some(item), Some(ch), "mismatch at flat position {i}");
    }
}

#[test]
fn reversed_range_shows_nothing() {
    assert_eq!(displayable_count(0x50, 0x41), 0);
    assert_eq!(nth_displayable_char(0x50, 0x41, 0), None);
}

#[test]
fn excluded_codes_are_controls_and_surrogates() {
    for code in 0..=0x11_0000u32 {
        let displayed = char::from_u32(code).is_some_and(|ch| !ch.is_control());
        assert_eq!(is_excluded(code), !displayed, "{code:#x}");
        assert_eq!(shown_char(code), char::from_u32(code).filter(|ch| !ch.is_control()));
    }
}

#[test]
fn empty_model_has_no_items() {
    let model = UnicodeCharModel::new(&[]);
    assert_eq!(model.n_items(), 0);
    assert_eq!(model.item(0), None);
}

#[test]
fn filtered_index_skips_controls() {
    assert_eq!(raw_offset_to_filtered_index(0x00, 0x7F, 0x41), Some(0x21));
    assert_eq!(raw_offset_to_filtered_index(0x00, 0x7F, 0x1F), None);
    assert_eq!(raw_offset_to_filtered_index(0x00, 0x7F, 0x20), Some(0));
    assert_eq!(raw_offset_to_filtered_index(0x00, 0x7F, 0x80), None);
    assert_eq!(raw_offset_to_filtered_index(0x80, 0xFF, 0x20), Some(0));
    assert_eq!(raw_offset_to_filtered_index(0x370, 0x3FF, 5), Some(5));
    assert_eq!(raw_offset_to_filtered_index(0x50, 0x41, 0), None);
}

#[test]
fn filtered_index_leads_back_to_the_codepoint() {
    for (start, end) in [(0x00, 0xFF), (0xD700, 0xE100)] {
        for offset in 0..=(end - start) {
            match raw_offset_to_filtered_index(start, end, offset) {
                Some(index) => assert_eq!(
                    nth_displayable_char(start, end, index),
                    char::from_u32(start + offset)
                ),
                None => assert!(is_excluded(start + offset)),
            }
        }
    }
}

#[test]
fn numbers_past_the_last_codepoint_do_not_count() {
    check(0x10_FFF0, 0x11_0010);
    check(0x11_0000, 0x11_0010);
    assert_eq!(displayable_count(0x10_FFFF, 0x11_0000), 1);
    assert_eq!(nth_displayable_char(0x10_FFFF, 0x11_0000, 0), Some('\u{10FFFF}'));
    assert_eq!(nth_displayable_char(0x10_FFFF, 0x11_0000, 1), None);
    assert_eq!(displayable_count(0x11_0000, u32::MAX), 0);
    assert_eq!(displayable_count(0, u32::MAX), 0x11_0000 - 0x20 - 0x21 - 0x800);
    assert_eq!(raw_offset_to_filtered_index(0x10_FFFF, 0x11_0000, 1), None);
    let model = UnicodeCharModel::new(&[
        UnicodeEntry::new(0x10_FFFE, "End", u32::MAX, true),
        UnicodeEntry::new(0x41, "A", 0x41, true),
    ]);
    assert_eq!(model.n_items(), 3);
    assert_eq!(model.item(2), Some('A'));
}
