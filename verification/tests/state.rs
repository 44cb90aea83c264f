use charactermap::app::{
    parse_entry, App, AppSettings, Effect, Messages, MAX_SEARCH_RESULTS,
};

fn fresh() -> App {
    App::new(AppSettings { render_font_preview: true, filter_unicode_pages: false })
}

/// A state that shows all blocks in some font.
fn browsing() -> App {
    let mut app = fresh();
    send(&mut app, Messages::FontSelected("Noto Sans".to_string()));
    app
}

fn send(app: &mut App, message: Messages) -> Vec<Effect> {
    let covered = vec![false; app.unicode_set.unicode_sections.len()];
    app.update(message, &covered, None)
}

const REBUILT: [Effect; 5] = [
    Effect::ApplyFont,
    Effect::ShowBlocks,
    Effect::SetHeader,
    Effect::ScrollToTop,
    Effect::ListBlocks,
];

#[test]
fn first_run_previews_fonts_and_does_not_filter() {
    let settings = AppSettings::default();
    assert!(settings.render_font_preview);
    assert!(!settings.filter_unicode_pages);
    assert_eq!(AppSettings::or_default(None), settings);
    let stored = AppSettings { render_font_preview: false, filter_unicode_pages: true };
    assert_eq!(AppSettings::or_default(Some(stored)), stored);
    assert_eq!(App::new(stored).settings(), stored);
}

#[test]
fn selecting_a_font_builds_the_grid() {
    let mut app = fresh();
    let effects = send(&mut app, Messages::FontSelected("Noto Sans".to_string()));
    let mut expected = REBUILT.to_vec();
    expected.extend([Effect::SetEntries, Effect::ClearSelection]);
    assert_eq!(effects, expected);
    assert_eq!(app.selected_font, "Noto Sans");
    assert_eq!(app.header, "C0 Controls and Basic Latin");
    assert_eq!(app.browse_header, "C0 Controls and Basic Latin");
    assert_eq!(app.section_positions.get("C1 Controls and Latin-1 Supplement"), Some(&95));
    assert_eq!(
        app.unicode_set.filtered_unicode_sections,
        app.unicode_set.unicode_sections
    );
}

#[test]
fn same_blocks_are_only_repainted() {
    let mut app = browsing();
    let effects = send(&mut app, Messages::FontSelected("Mono".to_string()));
    assert_eq!(
        effects,
        vec![
            Effect::ApplyFont,
            Effect::RepaintCells,
            Effect::ListBlocks,
            Effect::SetEntries,
            Effect::ClearSelection,
        ]
    );
}

#[test]
fn filter_keeps_the_covered_blocks() {
    let mut app = browsing();
    assert!(!app.needs_coverage(&Messages::FontSelected("x".to_string())));
    assert!(app.needs_coverage(&Messages::SetFilterUnicodePages(true)));
    assert!(!app.needs_coverage(&Messages::FindHex));
    let covered: Vec<bool> = app
        .unicode_set
        .unicode_sections
        .iter()
        .map(|entry| entry.description == "Greek and Coptic" || entry.description == "Cyrillic")
        .collect();
    let effects = app.update(Messages::SetFilterUnicodePages(true), &covered, None);
    let mut expected = vec![Effect::SaveConfig];
    expected.extend(REBUILT);
    assert_eq!(effects, expected);
    assert!(app.settings().filter_unicode_pages);
    let shown: Vec<&str> = app
        .unicode_set
        .filtered_unicode_sections
        .iter()
        .map(|entry| entry.description.as_str())
        .collect();
    assert_eq!(shown, vec!["Greek and Coptic", "Cyrillic"]);
    assert_eq!(app.header, "Greek and Coptic");
    assert_eq!(app.section_positions.get("Cyrillic"), Some(&144));
    assert!(app.needs_coverage(&Messages::FontSelected("x".to_string())));
    // A character of a hidden block is not found.
    assert_eq!(send(&mut app, Messages::SearchChanged("A".to_string())), vec![]);
    // Nothing is covered: nothing is shown.
    send(&mut app, Messages::FontSelected("empty".to_string()));
    assert!(app.block_boundaries.is_empty());
    assert_eq!(app.header, "");
    // With the filter off all blocks come back.
    send(&mut app, Messages::SetFilterUnicodePages(false));
    assert_eq!(
        app.unicode_set.filtered_unicode_sections.len(),
        app.unicode_set.unicode_sections.len()
    );
}

#[test]
fn selected_character_is_previewed() {
    let mut app = browsing();
    assert_eq!(send(&mut app, Messages::CharacterSelected(0x20AC)), vec![Effect::SetEntries]);
    assert_eq!(app.selected_character, Some('€'));
    assert_eq!(app.hex_value, "20AC");
    assert_eq!(app.dec_value, "8364");
    assert_eq!(app.character_name, "Euro sign");
    assert_eq!(
        send(&mut app, Messages::CopySelectedCharacter),
        vec![Effect::CopyCharacter('€')]
    );
    send(&mut app, Messages::CharacterSelected(0x0378));
    assert_eq!(app.character_name, "");
    assert_eq!(app.hex_value, "378");
    send(&mut app, Messages::CharacterSelected(0xD800));
    assert_eq!(app.selected_character, None);
    assert_eq!(app.hex_value, "");
    assert_eq!(app.dec_value, "");
    assert_eq!(send(&mut app, Messages::CopySelectedCharacter), vec![]);
}

#[test]
fn double_clicks_collect_characters() {
    let mut app = browsing();
    assert_eq!(send(&mut app, Messages::CharacterDoubleClicked(0x41)), vec![]);
    send(&mut app, Messages::CharacterDoubleClicked(0x1F600));
    send(&mut app, Messages::CharacterDoubleClicked(0xDFFF));
    assert_eq!(app.collected_text, "A😀");
    assert_eq!(send(&mut app, Messages::ClearCollectedText), vec![]);
    assert_eq!(app.collected_text, "");
}

#[test]
fn jumping_selects_the_first_character_of_a_block() {
    let mut app = browsing();
    let position = *app.section_positions.get("Greek and Coptic").unwrap();
    assert_eq!(
        send(&mut app, Messages::JumpToUnicodeSet("Greek and Coptic".to_string())),
        vec![Effect::ScrollTo(position), Effect::SetHeader, Effect::Select(position)]
    );
    assert_eq!(app.header, "Greek and Coptic");
    assert_eq!(send(&mut app, Messages::JumpToUnicodeSet("Nowhere".to_string())), vec![]);
    assert_eq!(app.header, "Greek and Coptic");
}

#[test]
fn numbers_find_characters() {
    let mut app = browsing();
    send(&mut app, Messages::SetHexValue("41".to_string()));
    assert_eq!(
        send(&mut app, Messages::FindHex),
        vec![Effect::ScrollTo(0), Effect::SetHeader, Effect::Select(33)]
    );
    send(&mut app, Messages::SetDecValue("255".to_string()));
    assert_eq!(
        send(&mut app, Messages::FindDec),
        vec![Effect::ScrollTo(95), Effect::SetHeader, Effect::Select(95 + 95)]
    );
    for text in ["", "xyz", "110000", "1F", "D800", "-1"] {
        send(&mut app, Messages::SetHexValue(text.to_string()));
        assert_eq!(send(&mut app, Messages::FindHex), vec![], "{text}");
    }
    send(&mut app, Messages::SetDecValue("41h".to_string()));
    assert_eq!(send(&mut app, Messages::FindDec), vec![]);
}

#[test]
fn a_character_in_a_number_field_finds_itself() {
    assert_eq!(parse_entry("g", 16), Some(0x67));
    assert_eq!(parse_entry("a", 16), Some(0xA));
    assert_eq!(parse_entry("a", 10), Some(0x61));
    assert_eq!(parse_entry("€", 10), Some(0x20AC));
    assert_eq!(parse_entry("7", 10), Some(7));
    assert_eq!(parse_entry("gg", 16), None);
    assert_eq!(parse_entry("", 16), None);
    let mut app = browsing();
    send(&mut app, Messages::SetDecValue("A".to_string()));
    assert_eq!(
        send(&mut app, Messages::FindDec),
        vec![Effect::ScrollTo(0), Effect::SetHeader, Effect::Select(33)]
    );
}

#[test]
fn the_preview_finds_its_own_character() {
    let mut app = browsing();
    send(&mut app, Messages::CharacterSelected(0x3B1));
    let by_hex = send(&mut app, Messages::FindHex);
    let by_dec = send(&mut app, Messages::FindDec);
    let position = *app.section_positions.get("Greek and Coptic").unwrap();
    assert_eq!(
        by_hex,
        vec![Effect::ScrollTo(position), Effect::SetHeader, Effect::Select(position + 0x41)]
    );
    assert_eq!(by_dec, by_hex);
}

#[test]
fn a_single_letter_is_looked_for_directly() {
    let mut app = browsing();
    assert_eq!(
        send(&mut app, Messages::SearchChanged("A".to_string())),
        vec![Effect::ScrollTo(0), Effect::SetHeader, Effect::Select(33)]
    );
    assert!(!app.is_showing_search_results);
}

#[test]
fn searching_by_name_and_leaving_restores() {
    let mut app = browsing();
    send(&mut app, Messages::JumpToUnicodeSet("Cyrillic".to_string()));
    send(&mut app, Messages::CharacterSelected(0x41));
    let boundaries = app.block_boundaries.clone();
    let effects = send(&mut app, Messages::SearchChanged("euro s".to_string()));
    assert_eq!(
        effects,
        vec![
            Effect::SetEntries,
            Effect::ShowSearchResults,
            Effect::ClearSelection,
            Effect::SetSearchHeader,
            Effect::ScrollToTop,
        ]
    );
    assert!(app.is_showing_search_results);
    assert_eq!(app.search_results, vec!['€', '💶']);
    assert_eq!(app.search_header("Search results ({})"), "Search results (2)");
    assert_eq!(app.selected_character, None);
    assert_eq!(app.hex_value, "");
    assert!(app.block_boundaries.is_empty());
    assert!(app.section_positions.is_empty());
    // Nothing can be jumped to meanwhile.
    assert_eq!(send(&mut app, Messages::JumpToUnicodeSet("Cyrillic".to_string())), vec![]);
    send(&mut app, Messages::SetHexValue("41".to_string()));
    assert_eq!(send(&mut app, Messages::FindHex), vec![]);

    let effects = send(&mut app, Messages::SearchChanged("".to_string()));
    assert_eq!(
        effects,
        vec![
            Effect::SetEntries,
            Effect::ShowBrowseGrid,
            Effect::ClearSelection,
            Effect::SetHeader,
            Effect::ScrollToTop,
        ]
    );
    assert!(!app.is_showing_search_results);
    assert_eq!(app.block_boundaries, boundaries);
    assert_eq!(app.header, "C0 Controls and Basic Latin");
    assert_eq!(app.section_positions.get("C1 Controls and Latin-1 Supplement"), Some(&95));
}

#[test]
fn a_letter_after_a_search_restores_and_finds() {
    let mut app = browsing();
    send(&mut app, Messages::SearchChanged("euro".to_string()));
    let effects = send(&mut app, Messages::SearchChanged("A".to_string()));
    assert_eq!(effects.len(), 8);
    assert_eq!(
        effects[5..],
        [Effect::ScrollTo(0), Effect::SetHeader, Effect::Select(33)]
    );
}

#[test]
fn search_results_are_limited() {
    let mut app = browsing();
    send(&mut app, Messages::SearchChanged("letter".to_string()));
    assert_eq!(app.search_results.len(), MAX_SEARCH_RESULTS);
    assert_eq!(MAX_SEARCH_RESULTS, 500);
}

#[test]
fn hiding_the_search_leaves_it() {
    let mut app = browsing();
    assert_eq!(send(&mut app, Messages::ShowHideSearch), vec![Effect::FocusSearch]);
    assert!(app.is_search_visible);
    assert_eq!(send(&mut app, Messages::ShowHideSearch), vec![]);
    assert!(!app.is_search_visible);
    send(&mut app, Messages::ShowHideSearch);
    send(&mut app, Messages::SearchChanged("euro".to_string()));
    assert_eq!(send(&mut app, Messages::ShowHideSearch).len(), 5);
    assert!(!app.is_showing_search_results);
}

#[test]
fn a_search_is_run_again_under_another_font() {
    let mut app = browsing();
    send(&mut app, Messages::ShowHideSearch);
    app.update(Messages::SearchChanged("euro".to_string()), &[], Some("euro"));
    let effects = app.update(Messages::FontSelected("Mono".to_string()), &[], Some("euro"));
    let mut expected = REBUILT.to_vec();
    expected.extend([
        Effect::SetEntries,
        Effect::SetEntries,
        Effect::ShowSearchResults,
        Effect::ClearSelection,
        Effect::SetSearchHeader,
        Effect::ScrollToTop,
        Effect::ClearSelection,
    ]);
    assert_eq!(effects, expected);
    assert!(app.is_showing_search_results);
    // A single letter, or a hidden field, is no search to run again.
    let effects = app.update(Messages::FontSelected("Sans".to_string()), &[], Some("e"));
    assert_eq!(effects.len(), 7);
    assert!(!app.is_showing_search_results);
    send(&mut app, Messages::ShowHideSearch);
    let effects = app.update(Messages::FontSelected("Serif".to_string()), &[], Some("euro"));
    assert_eq!(effects.len(), 5);
}

#[test]
fn settings_are_kept_when_they_change() {
    let mut app = browsing();
    assert_eq!(
        send(&mut app, Messages::SetFontPreview(false)),
        vec![Effect::SaveConfig, Effect::PreviewFonts]
    );
    assert!(!app.settings().render_font_preview);
    assert_eq!(send(&mut app, Messages::SetCollapsed(true)), vec![]);
    assert!(app.is_collapsed);
}

#[test]
fn messages_leave_other_things_alone() {
    let mut app = browsing();
    send(&mut app, Messages::CharacterDoubleClicked(0x41));
    let blocks = app.unicode_set.unicode_sections.clone();
    send(&mut app, Messages::FontSelected("Mono".to_string()));
    send(&mut app, Messages::SearchChanged("euro".to_string()));
    send(&mut app, Messages::SetFilterUnicodePages(true));
    assert_eq!(app.collected_text, "A");
    assert_eq!(app.selected_font, "Mono");
    assert!(app.render_font_preview);
    assert_eq!(app.unicode_set.unicode_sections, blocks);
}

#[test]
fn leaving_several_searches_restores() {
    let mut app = browsing();
    let boundaries = app.block_boundaries.clone();
    for query in ["euro", "arrow", "4e2d"] {
        send(&mut app, Messages::SearchChanged(query.to_string()));
    }
    assert_eq!(send(&mut app, Messages::SearchChanged("".to_string())).len(), 5);
    assert_eq!(app.block_boundaries, boundaries);
    assert_eq!(app.header, app.browse_header);
    assert_eq!(send(&mut app, Messages::SearchChanged("".to_string())), vec![]);
    assert_eq!(app.block_boundaries, boundaries);
}

#[test]
fn kept_settings_are_read_again() {
    for render_font_preview in [false, true] {
        for filter_unicode_pages in [false, true] {
            let app = App::new(AppSettings { render_font_preview, filter_unicode_pages });
            assert_eq!(AppSettings::or_default(Some(app.settings())), app.settings());
        }
    }
}
