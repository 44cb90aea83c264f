use charactermap::helpers::secure_font_coverage::{code_in_range, CmapPlatform, SecureFontCoverage};

fn u16s(values: &[u16]) -> Vec<u8> {
    values.iter().flat_map(|value| value.to_be_bytes()).collect()
}

fn u32s(values: &[u32]) -> Vec<u8> {
    values.iter().flat_map(|value| value.to_be_bytes()).collect()
}

/// A font file with one table.
fn font_with_table(tag: &[u8; 4], table: &[u8]) -> Vec<u8> {
    let mut font = u32s(&[0x0001_0000]);
    font.extend(u16s(&[1, 16, 0, 0]));
    font.extend_from_slice(tag);
    font.extend(u32s(&[0, 28, table.len() as u32]));
    font.extend_from_slice(table);
    font
}

/// A font file whose `cmap` table has the given subtables, each with its
/// platform and encoding.
fn font(subtables: &[(u16, u16, Vec<u8>)]) -> Vec<u8> {
    let mut table = u16s(&[0, subtables.len() as u16]);
    let mut offset = 4 + 8 * subtables.len();
    for (platform, encoding, subtable) in subtables {
        table.extend(u16s(&[*platform, *encoding]));
        table.extend(u32s(&[offset as u32]));
        offset += subtable.len();
    }
    for (_, _, subtable) in subtables {
        table.extend_from_slice(subtable);
    }
    font_with_table(b"cmap", &table)
}

/// A subtable of format 4 that maps one run of codepoints.
fn format4(first: u16, last: u16) -> Vec<u8> {
    u16s(&[
        4, 32, 0, 4, 4, 1, 0, // header, two segments
        last, 0xFFFF, 0, // ends, padding
        first, 0xFFFF, // starts
        1u16.wrapping_sub(first), 1, // deltas
        0, 0, // range offsets
    ])
}

/// A subtable of format 12 that maps one run of codepoints.
fn format12(first: u32, last: u32) -> Vec<u8> {
    let mut table = u16s(&[12, 0]);
    table.extend(u32s(&[28, 0, 1, first, last, 1]));
    table
}

/// A subtable of format 10 that maps `length` codepoints.
fn format10(first: u32, length: u32) -> Vec<u8> {
    let mut table = u16s(&[10, 0]);
    table.extend(u32s(&[20 + 2 * length, 0, first, length]));
    for glyph in 0..length {
        table.extend(u16s(&[glyph as u16 + 1]));
    }
    table
}

fn covers(font: &[u8], start: u32, end: u32) -> bool {
    let coverage = SecureFontCoverage::new(font).expect("a font");
    assert!(coverage.is_scannable());
    let covered = coverage.covers_range(start, end);
    assert_eq!(coverage.try_covers_range(start, end), Some(covered));
    covered
}

#[test]
fn bytes_that_are_no_font_are_refused() {
    assert!(SecureFontCoverage::new(b"").is_none());
    assert!(SecureFontCoverage::new(b"no font at all").is_none());
}

#[test]
fn font_without_character_map_covers_nothing() {
    assert!(!covers(&font_with_table(b"xxxx", b"data"), 0, u32::MAX));
}

#[test]
fn windows_character_map_covers_its_run() {
    let font = font(&[(3, 1, format4(0x41, 0x45))]);
    assert!(covers(&font, 0x41, 0x41));
    assert!(covers(&font, 0x45, 0x50));
    assert!(covers(&font, 0x00, 0xFF));
    assert!(!covers(&font, 0x00, 0x40));
    assert!(!covers(&font, 0x46, 0xFF));
    assert!(!covers(&font, 0x45, 0x41));
}

#[test]
fn unicode_character_map_covers_its_run() {
    let font = font(&[(0, 4, format12(0x1F600, 0x1F610))]);
    assert!(covers(&font, 0x1F610, 0x1F64F));
    assert!(!covers(&font, 0x1F611, 0x1F64F));
}

#[test]
fn other_platforms_do_not_count() {
    assert!(!covers(&font(&[(1, 0, format4(0x41, 0x45))]), 0x41, 0x45));
    assert!(!CmapPlatform::Macintosh.is_unicode());
    assert!(CmapPlatform::Windows.is_unicode() && CmapPlatform::Unicode.is_unicode());
}

#[test]
fn every_record_is_looked_at() {
    let font = font(&[
        (0, 3, format4(0x41, 0x45)),
        (1, 0, format4(0x61, 0x65)),
        (3, 10, format12(0x1F600, 0x1F610)),
    ]);
    assert!(covers(&font, 0x41, 0x41));
    assert!(!covers(&font, 0x61, 0x65));
    assert!(covers(&font, 0x1F600, 0x1F600));
}

#[test]
fn unreadable_subtable_is_passed_over() {
    let font = font(&[(3, 1, u16s(&[99, 0])), (3, 10, format12(0x61, 0x62))]);
    assert!(covers(&font, 0x61, 0x61));
    assert!(!covers(&font, 0x63, 0xFFFF));
}

#[test]
fn dense_character_map_covers_its_run() {
    let font = font(&[(0, 4, format10(0x61, 3))]);
    assert!(covers(&font, 0x63, 0x70));
    assert!(!covers(&font, 0x64, 0x70));
}

#[test]
fn codepoints_past_the_end_get_no_answer() {
    let font = font(&[(0, 4, format10(u32::MAX, 2))]);
    let coverage = SecureFontCoverage::new(&font).expect("a font");
    assert!(!coverage.is_scannable());
    assert_eq!(coverage.try_covers_range(0, u32::MAX), None);
}

#[test]
fn wider_ranges_and_halves_agree() {
    let font = font(&[(3, 1, format4(0x41, 0x45))]);
    assert!(covers(&font, 0x45, 0x45) && covers(&font, 0x40, 0x50));
    for middle in 0x40..0x50 {
        assert!(covers(&font, 0x40, middle) || covers(&font, middle + 1, 0x50));
    }
}

#[test]
fn codes_lie_in_ranges() {
    assert!(code_in_range(5, 5, 5));
    assert!(!code_in_range(4, 5, 5));
    assert!(!code_in_range(6, 5, 5));
}
