use charactermap::helpers::utils::{
    block_index, build_unicode_store, class_change, compute_positions_boundaries,
    covered_sections,    fallback_columns, font_covers_range, grid_columns, is_alternate_block, is_better_top_cell,
    lacks_glyph, positions_of, sticky_header, ClassChange, RowRelation,
};
use charactermap::unicode::{UnicodeEntry, UnicodeSet};

fn blocks() -> Vec<UnicodeEntry> {
    vec![
        UnicodeEntry::new(0x00, "C0 Controls and Basic Latin", 0x7F, true),
        UnicodeEntry::new(0xD800, "Surrogates", 0xDFFF, true),
        UnicodeEntry::new(0x370, "Greek and Coptic", 0x373, true),
        UnicodeEntry::new(0x400, "Cyrillic", 0x4FF, true),
    ]
}

#[test]
fn blocks_start_where_the_ones_before_end() {
    let (positions, boundaries) = compute_positions_boundaries(&blocks());
    assert_eq!(
        boundaries,
        vec![
            (0, "C0 Controls and Basic Latin".to_string()),
            (95, "Greek and Coptic".to_string()),
            (99, "Cyrillic".to_string()),
        ]
    );
    assert_eq!(positions.len(), 3);
    assert_eq!(positions.get("Greek and Coptic"), Some(&95));
    assert_eq!(positions.get("Surrogates"), None);
}

#[test]
fn of_blocks_with_one_name_the_last_counts() {
    let twice = vec![
        UnicodeEntry::new(0x41, "Same", 0x42, true),
        UnicodeEntry::new(0x50, "Same", 0x51, true),
    ];
    let (positions, boundaries) = compute_positions_boundaries(&twice);
    assert_eq!(boundaries.len(), 2);
    assert_eq!(positions.get("Same"), Some(&2));
    assert_eq!(positions_of(&boundaries).get("Same"), Some(&2));
}

#[test]
fn no_blocks_have_no_places() {
    let (positions, boundaries) = compute_positions_boundaries(&[]);
    assert!(positions.is_empty());
    assert!(boundaries.is_empty());
    assert_eq!(sticky_header(&boundaries, 0), None);
    assert!(!is_alternate_block(&boundaries, 7));
}

#[test]
fn header_names_the_block_of_the_cell() {
    let (_, boundaries) = compute_positions_boundaries(&blocks());
    assert_eq!(sticky_header(&boundaries, 0).as_deref(), Some("C0 Controls and Basic Latin"));
    assert_eq!(sticky_header(&boundaries, 94).as_deref(), Some("C0 Controls and Basic Latin"));
    assert_eq!(sticky_header(&boundaries, 95).as_deref(), Some("Greek and Coptic"));
    assert_eq!(sticky_header(&boundaries, 1000).as_deref(), Some("Cyrillic"));
    assert_eq!(block_index(&boundaries, 98), 1);
    assert!(!is_alternate_block(&boundaries, 94));
    assert!(is_alternate_block(&boundaries, 95));
    assert!(!is_alternate_block(&boundaries, 99));
}

#[test]
fn boundaries_mirror_the_store() {
    let sections = UnicodeSet::new().unicode_sections;
    let store = build_unicode_store(&sections);
    let (_, boundaries) = compute_positions_boundaries(&sections);
    assert_eq!(boundaries[0].0, 0);
    for (start, description) in &boundaries {
        let ch = store.item(*start).unwrap() as u32;
        let block = sections.iter().find(|entry| entry.contains(ch)).unwrap();
        assert_eq!(&block.description, description);
        assert_eq!(sticky_header(&boundaries, *start).as_ref(), Some(description));
    }
}

#[test]
fn fonts_cover_ranges_by_one_character() {
    let has_b = |ch: char| ch == 'b';
    assert!(font_covers_range(&has_b, 0x61, 0x7A));
    assert!(font_covers_range(&has_b, 0x62, 0x62));
    assert!(!font_covers_range(&has_b, 0x63, 0x7A));
    assert!(!font_covers_range(&has_b, 0x7A, 0x61));
    // Every character counts, a control too; surrogates are none.
    let has_all = |_: char| true;
    assert!(font_covers_range(&has_all, 0x00, 0x1F));
    assert!(font_covers_range(&|ch: char| ch == '\n', 0x0A, 0x0A));
    assert!(!font_covers_range(&|ch: char| ch == '\n', 0x0B, 0x20));
    assert!(!font_covers_range(&has_all, 0xD800, 0xDFFF));
    assert!(!font_covers_range(&has_all, 0x11_0000, 0x11_0010));
    assert!(!font_covers_range(&has_all, u32::MAX, u32::MAX));
}

#[test]
fn glyphs_are_lacked_only_by_a_font() {
    let font = Some(|ch: char| ch == 'a');
    assert!(!lacks_glyph(&font, Some('a')));
    assert!(lacks_glyph(&font, Some('b')));
    assert!(!lacks_glyph(&font, None));
    assert!(!lacks_glyph(&None::<fn(char) -> bool>, Some('b')));
}

#[test]
fn classes_change_only_where_needed() {
    assert_eq!(class_change(true, false), ClassChange::Add);
    assert_eq!(class_change(false, true), ClassChange::Remove);
    assert_eq!(class_change(true, true), ClassChange::Keep);
    assert_eq!(class_change(false, false), ClassChange::Keep);
}

#[test]
fn top_cell_is_the_upper_left_one() {
    assert!(is_better_top_cell(None, 7));
    assert!(is_better_top_cell(Some((RowRelation::Above, 3)), 7));
    assert!(is_better_top_cell(Some((RowRelation::Same, 8)), 7));
    assert!(!is_better_top_cell(Some((RowRelation::Same, 7)), 7));
    assert!(!is_better_top_cell(Some((RowRelation::Below, 8)), 7));
}

#[test]
fn columns_go_by_the_fullest_row() {
    assert_eq!(grid_columns(&[]), None);
    assert_eq!(grid_columns(&[5]), None);
    assert_eq!(grid_columns(&[5, 5, 2]), Some(5));
    assert_eq!(grid_columns(&[0, 0]), Some(1));
}

#[test]
fn columns_fall_back_to_the_width() {
    assert_eq!(fallback_columns(800, 48), 16);
    assert_eq!(fallback_columns(0, 48), 1);
    assert_eq!(fallback_columns(-5, 48), 1);
    assert_eq!(fallback_columns(47, 48), 1);
    assert_eq!(fallback_columns(48, 48), 1);
    assert_eq!(fallback_columns(100_000, 48), 100);
}

#[test]
fn blocks_are_covered_one_by_one() {
    let font = Some(|ch: char| ch == 'A' || ch == 'Ѐ');
    assert_eq!(covered_sections(&blocks(), &font), vec![true, false, false, true]);
    let none = None::<fn(char) -> bool>;
    assert_eq!(covered_sections(&blocks(), &none), vec![false; 4]);
}
