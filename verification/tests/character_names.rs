use charactermap::helpers::character_names::{
    hangul_syllable_name, range_name, CharacterNames,
};
use charactermap::helpers::character_names_data::NAMES;
use charactermap::table::parse_table;
use charactermap::unicode::{UnicodeEntry, UnicodeSet};

#[test]
fn resolves_names() {
    let names = CharacterNames::new();
    assert_eq!(names.name('A').as_deref(), Some("Latin capital letter a"));
    assert_eq!(names.name('€').as_deref(), Some("Euro sign"));
    assert_eq!(names.name('中').as_deref(), Some("cjk ideograph-4E2D"));
    assert_eq!(names.name('가').as_deref(), Some("hangul syllable-AC00"));
    assert_eq!(names.name('힣').as_deref(), Some("hangul syllable-D7A3"));
}

#[test]
fn unnamed_characters_have_no_name() {
    let names = CharacterNames::default();
    assert_eq!(names.name('\u{0378}'), None);
    assert_eq!(names.name('\u{10FFFF}').is_some(), false);
}

#[test]
fn ranges_are_named_by_their_label() {
    assert_eq!(range_name("CJK Ideograph", 0x4E2D), "CJK Ideograph-4E2D");
    assert_eq!(range_name("CJK Ideograph Extension B", 0x20000), "CJK Ideograph-20000");
    assert_eq!(range_name("Tangut Ideograph Supplement", 0x18D00), "Tangut Ideograph-18D00");
    assert_eq!(range_name("Hangul Syllable", 0xAC00), "HANGUL SYLLABLE GA");
    assert_eq!(range_name("Private Use", 0xE000), "private use-E000");
    assert_eq!(range_name("Ä Range", 0x41), "ä range-0041");
}

#[test]
fn hangul_syllables_are_spelled_by_their_letters() {
    assert_eq!(hangul_syllable_name(0xAC00), "HANGUL SYLLABLE GA");
    assert_eq!(hangul_syllable_name(0xAC01), "HANGUL SYLLABLE GAG");
    assert_eq!(hangul_syllable_name(0xC544), "HANGUL SYLLABLE A");
    assert_eq!(hangul_syllable_name(0xD55C), "HANGUL SYLLABLE HAN");
    assert_eq!(hangul_syllable_name(0xD7A3), "HANGUL SYLLABLE HIH");
}

fn small() -> CharacterNames {
    CharacterNames::with_tables(
        vec![(0x09, "Tab mark"), (0x41, "Letter A"), (0x42, "Letter B"), (0x61, "Small Ä letter")],
        vec![(0x43, 0x46, "Some Range"), (0xAC00, 0xAC01, "Hangul Syllable"), (0xD7FE, 0xE001, "Edge")],
    )
}

fn block(start: u32, end: u32) -> UnicodeEntry {
    UnicodeEntry::new(start, "Block", end, true)
}

#[test]
fn own_tables_give_names() {
    let names = small();
    assert_eq!(names.name('A').as_deref(), Some("Letter A"));
    assert_eq!(names.name('C').as_deref(), Some("some range-0043"));
    assert_eq!(names.name('각').as_deref(), Some("HANGUL SYLLABLE GAG"));
    assert_eq!(names.name('G'), None);
}

#[test]
fn search_goes_by_names_then_labels() {
    let names = small();
    assert_eq!(names.search("letter", &[block(0, 0x7F)], 500), vec!['A', 'B', 'a']);
    assert_eq!(names.search("RANGE", &[block(0x44, 0x45)], 500), vec!['D', 'E']);
    assert_eq!(names.search("e", &[block(0, 0x7F)], 500), vec!['A', 'B', 'a', 'C', 'D', 'E', 'F']);
    assert_eq!(names.search("zzz", &[block(0, 0x7F)], 500), Vec::<char>::new());
}

#[test]
fn search_ignores_case_beyond_ascii() {
    let names = small();
    assert_eq!(names.search("ä LETTER", &[block(0, 0x7F)], 500), vec!['a']);
    assert_eq!(names.search("Ä letter", &[block(0, 0x7F)], 500), vec!['a']);
}

#[test]
fn search_leaves_out_what_is_not_displayed() {
    let names = small();
    assert_eq!(names.search("mark", &[block(0, 0x7F)], 500), Vec::<char>::new());
    assert_eq!(
        names.search("edge", &[block(0, 0x10FFFF)], 500),
        vec!['\u{D7FE}', '\u{D7FF}', '\u{E000}', '\u{E001}']
    );
}

#[test]
fn search_is_capped() {
    let names = small();
    let all = [block(0, 0x7F)];
    assert_eq!(names.search("e", &all, 2), vec!['A', 'B']);
    assert_eq!(names.search("e", &all, 5), vec!['A', 'B', 'a', 'C', 'D']);
    assert_eq!(names.search("e", &all, 0), Vec::<char>::new());
}

#[test]
fn search_goes_block_by_block() {
    let names = small();
    assert_eq!(names.search("letter", &[block(0x42, 0x42), block(0x41, 0x41)], 9), vec!['B', 'A']);
    assert_eq!(names.search("letter", &[], 9), Vec::<char>::new());
    assert_eq!(names.search("letter", &[block(0x42, 0x41)], 9), Vec::<char>::new());
}

#[test]
fn empty_query_finds_everything_named() {
    let names = small();
    assert_eq!(names.search("", &[block(0, 0x45)], 9), vec!['A', 'B', 'C', 'D', 'E']);
}

#[test]
fn found_characters_have_the_query_in_their_name() {
    let names = CharacterNames::new();
    let sections = UnicodeSet::new().unicode_sections;
    let found = names.search("euro", &sections, 500);
    assert!(found.contains(&'€'));
    for ch in &found {
        assert!(names.name(*ch).unwrap().to_lowercase().contains("euro"));
    }
    assert_eq!(names.search("EURO", &sections, 500), found);
    assert_eq!(names.search("latin", &sections, 500).len(), 500);
    let hangul = names.search("hangul syllable", &sections, usize::MAX);
    assert!(hangul.contains(&'가') && hangul.contains(&'힣'));
    assert_eq!(hangul.len(), 11172);
}

#[test]
fn derived_names_are_searched() {
    let names = CharacterNames::new();
    let one = [UnicodeEntry::new(0x4E2D, "CJK", 0x4E2D, true)];
    assert_eq!(names.search("4e2d", &one, 10), vec!['中']);
    assert_eq!(names.search("4E2D", &one, 10), vec!['中']);
    assert_eq!(names.search("cjk ideograph-4e2d", &one, 10), vec!['中']);
    assert_eq!(names.search("graph-4E", &one, 10), vec!['中']);
    assert_eq!(names.search("h-", &one, 10), vec!['中']);
    assert_eq!(names.search("ideograph", &one, 10), vec!['中']);
    assert_eq!(names.search("4e2e", &one, 10), Vec::<char>::new());
    assert_eq!(names.search("-d", &one, 10), Vec::<char>::new());
    assert_eq!(names.search("x4e2d", &one, 10), Vec::<char>::new());
    let block = [UnicodeEntry::new(0x4E00, "CJK", 0x4EFF, true)];
    assert_eq!(names.search("-4e2", &block, 3), vec!['\u{4E20}', '\u{4E21}', '\u{4E22}']);
    assert_eq!(names.search("-4e2", &block, 500).len(), 16);
}

#[test]
fn derived_names_are_searched_in_all_blocks() {
    let names = CharacterNames::new();
    let sections = UnicodeSet::new().unicode_sections;
    for query in ["4e2d", "face", "-d7a3", "use-e0"] {
        let found = names.search(query, &sections, usize::MAX);
        let mut expected = Vec::new();
        for section in &sections {
            let mut derived = Vec::new();
            for code in section.start_index..=section.end_index {
                let Some(ch) = char::from_u32(code).filter(|ch| !ch.is_control()) else {
                    continue;
                };
                if let Some(name) = names.name(ch) {
                    if name.to_lowercase().contains(query) {
                        if name.ends_with(&format!("-{code:04X}")) {
                            derived.push(ch);
                        } else {
                            expected.push(ch);
                        }
                    }
                }
            }
            expected.extend(derived);
        }
        assert_eq!(found, expected, "{query}");
        assert!(!found.is_empty());
    }
}

#[test]
fn spelled_out_syllables_are_searched() {
    let names = CharacterNames::with_tables(
        vec![],
        vec![(0xAC00, 0xD7A3, "Hangul Syllable"), (0xE000, 0xE001, "Ölfarben")],
    );
    let all = [block(0, 0x10FFFF)];
    assert_eq!(names.name('한').as_deref(), Some("HANGUL SYLLABLE HAN"));
    assert_eq!(names.search("syllable han", &all, 1), vec!['한']);
    assert_eq!(names.search("hangul", &all, usize::MAX).len(), 11172);
    assert_eq!(names.search("ÖLFARBEN-e001", &all, 9), vec!['\u{E001}']);
}

#[test]
fn longer_ideograph_labels_do_not_count() {
    let names = CharacterNames::with_tables(
        vec![],
        vec![(0x20000, 0x20001, "CJK Ideograph Extension B")],
    );
    let all = [block(0, 0x10FFFF)];
    assert_eq!(names.search("extension", &all, 9), Vec::<char>::new());
    assert_eq!(names.search("cjk ideo", &all, 9), vec!['\u{20000}', '\u{20001}']);
    assert_eq!(names.search("h-20001", &all, 9), vec!['\u{20001}']);
}

#[test]
fn two_lists_of_blocks_are_searched_one_after_the_other() {
    let names = CharacterNames::new();
    let sections = UnicodeSet::new().unicode_sections;
    let (first, second) = sections.split_at(50);
    let mut expected = names.search("arrow", first, usize::MAX);
    expected.extend(names.search("arrow", second, usize::MAX));
    assert_eq!(names.search("arrow", &sections, usize::MAX), expected);
}

#[test]
fn characters_of_a_range_differ_in_name() {
    let mut seen: Vec<String> = (0xAC00..=0xD7A3).map(hangul_syllable_name).collect();
    seen.sort();
    seen.dedup();
    assert_eq!(seen.len(), 11172);
    assert_ne!(range_name("Private Use", 0xE000), range_name("Private Use", 0xE001));
    assert_ne!(range_name("Any", 0x41), range_name("Any", 0x410));
}

#[test]
fn every_listed_name_is_kept() {
    let names = CharacterNames::new();
    let listed = parse_table(&NAMES, false);
    assert!(listed.len() > 30000);
    for (code, _, name) in listed {
        if let Some(ch) = char::from_u32(code) {
            assert_eq!(names.name(ch).as_deref(), Some(name));
        }
    }
}
