use charactermap::unicode::unicode_set::{copy_sections, keep_sections};
use charactermap::unicode::{UnicodeEntry, UnicodeSet};

#[test]
fn entry_knows_its_plane() {
    let entry = UnicodeEntry::new(0x1F600, "Emoticons", 0x1F64F, true);
    assert_eq!(entry.start_index, 0x1F600);
    assert_eq!(entry.description, "Emoticons");
    assert_eq!(entry.end_index, 0x1F64F);
    assert_eq!(entry.code_plan, 1);
    assert!(entry.included);
    assert_eq!(UnicodeEntry::new(0x10_0000, "Plane 16", 0x10_FFFF, false).code_plan, 16);
    assert_eq!(UnicodeEntry::new(0xFFFF, "End", 0xFFFF, false).code_plan, 0);
    assert_eq!(UnicodeEntry::new(0xFF01_0000, "Far", 0xFF01_0000, false).code_plan, 1);
}

#[test]
fn entry_holds_its_bounds() {
    let entry = UnicodeEntry::new(0x370, "Greek and Coptic", 0x3FF, true);
    assert!(!entry.contains(0x36F));
    assert!(entry.contains(0x370));
    assert!(entry.contains(0x3FF));
    assert!(!entry.contains(0x400));
    assert_eq!(entry.clone(), entry);
}

#[test]
fn blocks_ascend_and_differ_in_name() {
    let sections = UnicodeSet::new().unicode_sections;
    assert!(sections.len() > 300);
    assert_eq!(sections[0].start_index, 0);
    assert_eq!(sections[0].end_index, 0x7F);
    assert_eq!(sections[0].description, "C0 Controls and Basic Latin");
    assert_eq!(sections[sections.len() - 1].end_index, 0x10_FFFF);
    for pair in sections.windows(2) {
        assert!(pair[0].start_index <= pair[0].end_index);
        assert!(pair[0].end_index < pair[1].start_index);
    }
    let mut names: Vec<&str> = sections.iter().map(|entry| entry.description.as_str()).collect();
    names.sort();
    names.dedup();
    assert_eq!(names.len(), sections.len());
}

#[test]
fn no_block_is_shown_at_first() {
    assert!(UnicodeSet::new().filtered_unicode_sections.is_empty());
}

#[test]
fn characters_are_found_in_their_block() {
    let set = UnicodeSet::new();
    let (entry, offset) = set.find_character(0x3B1);
    assert_eq!(entry.unwrap().description, "Greek and Coptic");
    assert_eq!(offset, Some(0x41));
    assert_eq!(set.find_character(0x11_0000), (None, None));
    assert_eq!(set.find_character(0x2FE0), (None, None));
}

#[test]
fn blocks_are_kept_by_flag() {
    let all = vec![
        UnicodeEntry::new(0, "a", 1, true),
        UnicodeEntry::new(2, "b", 3, true),
        UnicodeEntry::new(4, "c", 5, true),
    ];
    let kept = keep_sections(&all, &[true, false, true]);
    assert_eq!(kept, vec![all[0].clone(), all[2].clone()]);
    assert_eq!(copy_sections(&all), all);
}
