//! Laws of what the messages do.
use vstd::prelude::*;

use crate::app::{
    coverage_needed, found, goes_to, in_blocks, lemma_kept_exactly, lemma_results_in_blocks,
    lemma_start_of_block, previewed, refreshed, results_header, updated, AppModel, Effect, Messages,
};
use crate::helpers::character_names::{
    all_found, law_search_finds_by_name, law_search_finds_every_name, name_of, tables_disjoint,
};
use crate::helpers::utils::{block_starts, law_boundaries_mirror_model};
use crate::laws::blocks::law_descriptions_lead_to_starts;
use crate::laws::text::{law_number_ignores_case, law_replacing};
use crate::text::{
    ascii_lowercase, digits, has_part, law_digits_parse_back, lowercase, parsed_u32, stands_at,
};
use crate::unicode::char_list_model::{
    displayable_codes, flat_codes, lemma_flat_part, ranges_of, shown,
};
use crate::unicode::unicode_set::{
    descriptions_differ, law_ascending_fit, law_kept_ascend, sections_ascend,
};
use crate::unicode::UnicodeEntry;

verus! {

/// A message starts a search for a text, or runs one again: the search field comes
/// to hold the text, or holds it, shown, while the font or the filter changes. The
/// text has two characters at least.
pub open spec fn searches_for(
    m: AppModel,
    message: Messages,
    search_text: Option<Seq<char>>,
    query: Seq<char>,
) -> bool {
    &&& query.len() >= 2
    &&& match message {
        Messages::SearchChanged(text) => text@ == query,
        Messages::FontSelected(_) => m.is_search_visible && search_text == Some(query),
        Messages::SetFilterUnicodePages(_) => m.is_search_visible && search_text == Some(query),
        _ => false,
    }
}

/// A message that searches shows search results, five hundred at most. Each of them
/// lies in one of the blocks that are shown then and has a name with the text in
/// it, letter case aside. Below the limit no displayable character of those blocks
/// with such a name is missing.
#[verifier::rlimit(40)]
pub proof fn law_search_results(
    m: AppModel,
    message: Messages,
    covered: Seq<bool>,
    search_text: Option<Seq<char>>,
    query: Seq<char>,
)
    requires
        searches_for(m, message, search_text, query),
        tables_disjoint(m.names, m.ranges),
    ensures
        ({
            let next = updated(m, message, covered, search_text).0;
            let results = next.search_results;
            &&& next.is_showing_search_results
            &&& results.len() <= 500
            &&& forall|i: int|
                0 <= i < results.len() ==> exists|k: int|
                    0 <= k < next.filtered_unicode_sections.len() && (
                    #[trigger] next.filtered_unicode_sections[k]).start_index <= (
                    #[trigger] results[i]) as u32 <= next.filtered_unicode_sections[k].end_index
            &&& forall|i: int|
                0 <= i < results.len() ==> name_of(
                    m.names,
                    m.ranges,
                    (#[trigger] results[i]) as u32,
                ) is Some && has_part(
                    lowercase(name_of(m.names, m.ranges, results[i] as u32)->0),
                    lowercase(query),
                )
            &&& results.len() < 500 ==> forall|k: int, ch: char|
                0 <= k < next.filtered_unicode_sections.len() && (
                #[trigger] next.filtered_unicode_sections[k]).start_index <= ch as u32
                    <= next.filtered_unicode_sections[k].end_index && #[trigger] shown(ch as int)
                    && name_of(m.names, m.ranges, ch as u32) is Some && has_part(
                    lowercase(name_of(m.names, m.ranges, ch as u32)->0),
                    lowercase(query),
                ) ==> results.contains(ch)
        }),
{
    let next = updated(m, message, covered, search_text).0;
    let results = next.search_results;
    let sections = next.filtered_unicode_sections;
    let all = all_found(m.names, m.ranges, query, sections);
    match message {
        Messages::SearchChanged(text) => {
            lemma_results_in_blocks(m, query);
        },
        Messages::FontSelected(font) => {
            let selected = AppModel { selected_font: font@, selected_character: None, ..m };
            let a = refreshed(selected, covered).0;
            lemma_results_in_blocks(previewed(a), query);
        },
        Messages::SetFilterUnicodePages(enabled) => {
            let switched = AppModel { filter_unicode_pages: enabled, ..m };
            let a = refreshed(switched, covered).0;
            lemma_results_in_blocks(a, query);
        },
        _ => {},
    }
    assert(results.is_prefix_of(all));
    assert forall|i: int| 0 <= i < results.len() implies exists|k: int|
        0 <= k < sections.len() && (#[trigger] sections[k]).start_index <= (
        #[trigger] results[i]) as u32 <= sections[k].end_index by {
        assert(in_blocks(sections, results[i]));
    }
    assert forall|i: int| 0 <= i < results.len() implies name_of(
        m.names,
        m.ranges,
        (#[trigger] results[i]) as u32,
    ) is Some && has_part(
        lowercase(name_of(m.names, m.ranges, results[i] as u32)->0),
        lowercase(query),
    ) by {
        assert(results[i] == all[i]);
        law_search_finds_by_name(m.names, m.ranges, query, sections, results[i]);
    }
    if results.len() < 500 {
        assert(results =~= all);
        assert forall|k: int, ch: char|
            0 <= k < sections.len() && (#[trigger] sections[k]).start_index <= ch as u32
                <= sections[k].end_index && #[trigger] shown(ch as int) && name_of(
                m.names,
                m.ranges,
                ch as u32,
            ) is Some && has_part(
                lowercase(name_of(m.names, m.ranges, ch as u32)->0),
                lowercase(query),
            ) implies results.contains(ch) by {
            law_search_finds_every_name(m.names, m.ranges, query, sections, k, ch);
        }
    }
}

/// A message that searches shows the results in a fresh grid under a header with
/// their number, and leaves nothing selected and nothing in the preview.
pub proof fn law_searching_shows_results(
    m: AppModel,
    message: Messages,
    covered: Seq<bool>,
    search_text: Option<Seq<char>>,
    query: Seq<char>,
)
    requires
        searches_for(m, message, search_text, query),
    ensures
        ({
            let (next, effects) = updated(m, message, covered, search_text);
            &&& effects.contains(Effect::ShowSearchResults)
            &&& effects.contains(Effect::SetSearchHeader)
            &&& effects.contains(Effect::ScrollToTop)
            &&& effects.contains(Effect::SetEntries)
            &&& effects.contains(Effect::ClearSelection)
            &&& next.selected_character is None
            &&& next.hex_value.len() == 0 && next.dec_value.len() == 0
                && next.character_name.len() == 0
        }),
{
    let effects = updated(m, message, covered, search_text).1;
    let n = match message {
        Messages::FontSelected(font) => {
            let selected = AppModel { selected_font: font@, selected_character: None, ..m };
            refreshed(selected, covered).1.len() as int + 1
        },
        Messages::SetFilterUnicodePages(enabled) => {
            let switched = AppModel { filter_unicode_pages: enabled, ..m };
            refreshed(switched, covered).1.len() as int + 1
        },
        _ => 0int,
    };
    assert(effects[n] == Effect::SetEntries);
    assert(effects[n + 1] == Effect::ShowSearchResults);
    assert(effects[n + 2] == Effect::ClearSelection);
    assert(effects[n + 3] == Effect::SetSearchHeader);
    assert(effects[n + 4] == Effect::ScrollToTop);
}

/// Search results that are shown always lie in the shown blocks, whatever message
/// came last.
#[verifier::rlimit(40)]
pub proof fn law_shown_results_lie_in_shown_blocks(
    m: AppModel,
    message: Messages,
    covered: Seq<bool>,
    search_text: Option<Seq<char>>,
)
    requires
        m.well_formed(),
    ensures
        ({
            let next = updated(m, message, covered, search_text).0;
            next.is_showing_search_results ==> forall|i: int|
                0 <= i < next.search_results.len() ==> exists|k: int|
                    0 <= k < next.filtered_unicode_sections.len() && (
                    #[trigger] next.filtered_unicode_sections[k]).start_index <= (
                    #[trigger] next.search_results[i]) as u32
                        <= next.filtered_unicode_sections[k].end_index
        }),
{
    let next = updated(m, message, covered, search_text).0;
    let results = next.search_results;
    let sections = next.filtered_unicode_sections;
    match message {
        Messages::SearchChanged(text) => {
            lemma_results_in_blocks(m, text@);
        },
        Messages::FontSelected(font) => {
            if search_text is Some {
                let selected = AppModel { selected_font: font@, selected_character: None, ..m };
                let a = refreshed(selected, covered).0;
                lemma_results_in_blocks(previewed(a), search_text->0);
            }
        },
        Messages::SetFilterUnicodePages(enabled) => {
            if search_text is Some {
                let switched = AppModel { filter_unicode_pages: enabled, ..m };
                let a = refreshed(switched, covered).0;
                lemma_results_in_blocks(a, search_text->0);
            }
        },
        _ => {},
    }
    if next.is_showing_search_results {
        assert forall|i: int| 0 <= i < results.len() implies exists|k: int|
            0 <= k < sections.len() && (#[trigger] sections[k]).start_index <= (
            #[trigger] results[i]) as u32 <= sections[k].end_index by {
            assert(in_blocks(sections, results[i]));
        }
    }
}

/// A change of the font or of the filter without a search under way shows blocks,
/// not search results.
pub proof fn law_changes_leave_no_results(
    m: AppModel,
    message: Messages,
    covered: Seq<bool>,
    search_text: Option<Seq<char>>,
)
    requires
        message is FontSelected || message is SetFilterUnicodePages,
        !m.is_search_visible || search_text is None || search_text->0.len() < 2,
    ensures
        !updated(m, message, covered, search_text).0.is_showing_search_results,
        !updated(m, message, covered, search_text).1.contains(Effect::ShowSearchResults),
{
}

/// A double click on a character adds it to the collected text, whatever stands
/// there: the text is one longer, ends with the character, and is otherwise the
/// one before. A number that is no character adds nothing. Nothing else changes.
pub proof fn law_double_click_collects(
    m: AppModel,
    code: u32,
    covered: Seq<bool>,
    search_text: Option<Seq<char>>,
)
    ensures
        ({
            let (next, effects) = updated(
                m,
                Messages::CharacterDoubleClicked(code),
                covered,
                search_text,
            );
            let text = next.collected_text;
            &&& (code <= 0xD7FF || 0xE000 <= code <= 0x10FFFF) ==> {
                &&& text.len() == m.collected_text.len() + 1
                &&& text.last() as int == code
                &&& text.drop_last() == m.collected_text
            }
            &&& !(code <= 0xD7FF || 0xE000 <= code <= 0x10FFFF) ==> text == m.collected_text
            &&& AppModel { collected_text: m.collected_text, ..next } == m
            &&& effects.len() == 0
        }),
{
    let next = updated(m, Messages::CharacterDoubleClicked(code), covered, search_text).0;
    if code <= 0xD7FF || 0xE000 <= code <= 0x10FFFF {
        assert(next.collected_text.drop_last() =~= m.collected_text);
    }
}

/// Clearing empties the collected text and changes nothing else.
pub proof fn law_clearing_empties(
    m: AppModel,
    covered: Seq<bool>,
    search_text: Option<Seq<char>>,
)
    ensures
        ({
            let (next, effects) = updated(m, Messages::ClearCollectedText, covered, search_text);
            &&& next.collected_text.len() == 0
            &&& AppModel { collected_text: m.collected_text, ..next } == m
            &&& effects.len() == 0
        }),
{
}

/// Copying copies the selected character, once, if there is one, and changes
/// nothing.
pub proof fn law_copying(m: AppModel, covered: Seq<bool>, search_text: Option<Seq<char>>)
    ensures
        ({
            let (next, effects) = updated(
                m,
                Messages::CopySelectedCharacter,
                covered,
                search_text,
            );
            &&& next == m
            &&& m.selected_character is None ==> effects.len() == 0
            &&& m.selected_character matches Some(ch) ==> effects == seq![
                Effect::CopyCharacter(ch),
            ]
        }),
{
}

/// Selecting a character selects that one and shows its two numbers, which read
/// back as its codepoint, and its name, if it has one. A number that is no
/// character selects none and shows nothing.
pub proof fn law_selecting_shows_the_character(
    m: AppModel,
    code: u32,
    covered: Seq<bool>,
    search_text: Option<Seq<char>>,
)
    ensures
        ({
            let (next, effects) = updated(
                m,
                Messages::CharacterSelected(code),
                covered,
                search_text,
            );
            &&& effects == seq![Effect::SetEntries]
            &&& (code <= 0xD7FF || 0xE000 <= code <= 0x10FFFF) ==> {
                &&& next.selected_character is Some
                &&& next.selected_character->0 as int == code
                &&& next.hex_value == digits(code as nat, 16)
                &&& next.dec_value == digits(code as nat, 10)
                &&& parsed_u32(next.hex_value, 16) == Some(code)
                &&& parsed_u32(next.dec_value, 10) == Some(code)
                &&& name_of(m.names, m.ranges, code) is Some ==> next.character_name == name_of(
                    m.names,
                    m.ranges,
                    code,
                )->0
                &&& name_of(m.names, m.ranges, code) is None ==> next.character_name.len() == 0
            }
            &&& !(code <= 0xD7FF || 0xE000 <= code <= 0x10FFFF) ==> {
                &&& next.selected_character is None
                &&& next.hex_value.len() == 0
                &&& next.dec_value.len() == 0
                &&& next.character_name.len() == 0
            }
            &&& AppModel {
                selected_character: m.selected_character,
                hex_value: m.hex_value,
                dec_value: m.dec_value,
                character_name: m.character_name,
                ..next
            } == m
        }),
{
    if code <= 0xD7FF || 0xE000 <= code <= 0x10FFFF {
        law_digits_parse_back(code, 16);
        law_digits_parse_back(code, 10);
        assert((code as char) as nat == code as nat);
        assert((code as char) as u32 == code);
    }
}

/// Entering the digits of a codepoint, in capital or in small letters, and pressing
/// Enter looks for that codepoint. Entering a single character that is no digit
/// looks for the character. Any other text that is no number does nothing.
pub proof fn law_entered_numbers_find_their_codepoint(
    m: AppModel,
    code: u32,
    covered: Seq<bool>,
    search_text: Option<Seq<char>>,
)
    ensures
        m.hex_value == digits(code as nat, 16) || m.hex_value == ascii_lowercase(
            digits(code as nat, 16),
        ) ==> updated(m, Messages::FindHex, covered, search_text) == found(m, code),
        m.dec_value == digits(code as nat, 10) ==> updated(
            m,
            Messages::FindDec,
            covered,
            search_text,
        ) == found(m, code),
        m.hex_value.len() == 1 && parsed_u32(m.hex_value, 16) is None ==> updated(
            m,
            Messages::FindHex,
            covered,
            search_text,
        ) == found(m, m.hex_value[0] as u32),
        m.dec_value.len() == 1 && parsed_u32(m.dec_value, 10) is None ==> updated(
            m,
            Messages::FindDec,
            covered,
            search_text,
        ) == found(m, m.dec_value[0] as u32),
        m.hex_value.len() != 1 && parsed_u32(m.hex_value, 16) is None ==> updated(
            m,
            Messages::FindHex,
            covered,
            search_text,
        ) == (m, Seq::<Effect>::empty()),
        m.dec_value.len() != 1 && parsed_u32(m.dec_value, 10) is None ==> updated(
            m,
            Messages::FindDec,
            covered,
            search_text,
        ) == (m, Seq::<Effect>::empty()),
        parsed_u32(m.hex_value, 16) is Some ==> updated(
            m,
            Messages::FindHex,
            covered,
            search_text,
        ) == found(m, parsed_u32(m.hex_value, 16)->0),
        parsed_u32(m.dec_value, 10) is Some ==> updated(
            m,
            Messages::FindDec,
            covered,
            search_text,
        ) == found(m, parsed_u32(m.dec_value, 10)->0),
{
    law_digits_parse_back(code, 16);
    law_digits_parse_back(code, 10);
    law_number_ignores_case(m.hex_value, code, 16);
}

/// What is typed into a number field is what is looked for, and typing changes
/// nothing else.
pub proof fn law_fields_hold_what_is_typed(
    m: AppModel,
    text: String,
    covered: Seq<bool>,
    search_text: Option<Seq<char>>,
)
    ensures
        ({
            let (hex, hex_effects) = updated(
                m,
                Messages::SetHexValue(text),
                covered,
                search_text,
            );
            let (dec, dec_effects) = updated(
                m,
                Messages::SetDecValue(text),
                covered,
                search_text,
            );
            &&& hex.hex_value == text@
            &&& AppModel { hex_value: m.hex_value, ..hex } == m
            &&& hex_effects.len() == 0
            &&& dec.dec_value == text@
            &&& AppModel { dec_value: m.dec_value, ..dec } == m
            &&& dec_effects.len() == 0
        }),
{
}

/// Jumping to a shown block that has displayable characters scrolls to it, names it
/// in the header, and selects the first of them.
pub proof fn law_jump_leads_to_the_block(
    m: AppModel,
    description: String,
    j: int,
    covered: Seq<bool>,
    search_text: Option<Seq<char>>,
)
    requires
        m.well_formed(),
        !m.is_showing_search_results,
        descriptions_differ(m.filtered_unicode_sections),
        0 <= j < m.filtered_unicode_sections.len(),
        description@ == m.filtered_unicode_sections[j].description@,
        displayable_codes(
            m.filtered_unicode_sections[j].start_index as int,
            m.filtered_unicode_sections[j].end_index as int,
        ).len() > 0,
    ensures
        ({
            let (next, effects) = updated(
                m,
                Messages::JumpToUnicodeSet(description),
                covered,
                search_text,
            );
            let entry = m.filtered_unicode_sections[j];
            let codes = flat_codes(ranges_of(m.filtered_unicode_sections));
            &&& next == AppModel { header: entry.description@, ..m }
            &&& exists|place: u32|
                #[trigger] goes_to(effects, place, place) && place < codes.len()
                    && codes[place as int] == displayable_codes(
                    entry.start_index as int,
                    entry.end_index as int,
                )[0]
        }),
{
    let shown_blocks = m.filtered_unicode_sections;
    let entry = shown_blocks[j];
    lemma_start_of_block(shown_blocks, j);
    lemma_flat_part(ranges_of(shown_blocks), j);
    law_ascending_fit(shown_blocks);
    assert(ranges_of(shown_blocks)[j] == (entry.start_index, entry.end_index));
    let place = m.section_positions[entry.description@];
    let codes = flat_codes(ranges_of(shown_blocks));
    assert(codes[place + 0] == displayable_codes(
        entry.start_index as int,
        entry.end_index as int,
    )[0]);
    let effects = updated(
        m,
        Messages::JumpToUnicodeSet(description),
        covered,
        search_text,
    ).1;
    assert(goes_to(effects, place, place));
}

/// Searching for a single character looks for it in the blocks, after leaving the
/// search results if some are shown, as emptying the field first would do.
pub proof fn law_single_characters_are_looked_for(
    m: AppModel,
    text: String,
    empty: String,
    covered: Seq<bool>,
    search_text: Option<Seq<char>>,
)
    requires
        text@.len() == 1,
        empty@.len() == 0,
    ensures
        ({
            let (next, effects) = updated(m, Messages::SearchChanged(text), covered, search_text);
            let (left, leaving) = updated(m, Messages::SearchChanged(empty), covered, search_text);
            let (there, going) = found(left, text@[0] as u32);
            &&& !left.is_showing_search_results
            &&& !m.is_showing_search_results ==> left == m && leaving.len() == 0
            &&& next == there
            &&& effects == leaving + going
        }),
{
    let (left, leaving) = updated(m, Messages::SearchChanged(empty), covered, search_text);
    let going = found(left, text@[0] as u32).1;
    let effects = updated(m, Messages::SearchChanged(text), covered, search_text).1;
    assert(effects =~= leaving + going);
}

/// Selecting a font selects that one, and no character. The font is applied and the
/// blocks are listed. The grid is built afresh if search results were shown or the
/// shown ranges are others than before, and is repainted otherwise. In the end
/// nothing is selected in it.
pub proof fn law_selecting_a_font(
    m: AppModel,
    font: String,
    covered: Seq<bool>,
    search_text: Option<Seq<char>>,
)
    ensures
        ({
            let (next, effects) = updated(m, Messages::FontSelected(font), covered, search_text);
            let others = m.is_showing_search_results || next.displayed_ranges
                != m.displayed_ranges;
            &&& next.selected_font == font@
            &&& next.selected_character is None
            &&& next.hex_value.len() == 0 && next.dec_value.len() == 0
                && next.character_name.len() == 0
            &&& next.displayed_ranges == ranges_of(next.filtered_unicode_sections)
            &&& effects.len() > 0 && effects[0] == Effect::ApplyFont && effects.last()
                == Effect::ClearSelection
            &&& effects.contains(Effect::ListBlocks)
            &&& effects.contains(Effect::ShowBlocks) == others
            &&& effects.contains(Effect::RepaintCells) == !others
            &&& others ==> effects.contains(Effect::SetHeader) && effects.contains(
                Effect::ScrollToTop,
            )
            &&& others ==> next.has_browse_grid
            &&& !m.filter_unicode_pages ==> next.filtered_unicode_sections == m.unicode_sections
        }),
{
    let (next, effects) = updated(m, Messages::FontSelected(font), covered, search_text);
    let others = m.is_showing_search_results || next.displayed_ranges != m.displayed_ranges;
    if others {
        assert(effects[1] == Effect::ShowBlocks);
        assert(effects[2] == Effect::SetHeader);
        assert(effects[3] == Effect::ScrollToTop);
        assert(effects[4] == Effect::ListBlocks);
    } else {
        assert(effects[1] == Effect::RepaintCells);
        assert(effects[2] == Effect::ListBlocks);
    }
}

/// Switching the filter keeps the setting, and builds the grid afresh or repaints
/// it, as selecting a font does.
pub proof fn law_switching_the_filter(
    m: AppModel,
    enabled: bool,
    covered: Seq<bool>,
    search_text: Option<Seq<char>>,
)
    ensures
        ({
            let (next, effects) = updated(
                m,
                Messages::SetFilterUnicodePages(enabled),
                covered,
                search_text,
            );
            let others = m.is_showing_search_results || next.displayed_ranges
                != m.displayed_ranges;
            &&& next.filter_unicode_pages == enabled
            &&& next.displayed_ranges == ranges_of(next.filtered_unicode_sections)
            &&& effects.len() > 1 && effects[0] == Effect::SaveConfig && effects[1]
                == Effect::ApplyFont
            &&& effects.contains(Effect::ListBlocks)
            &&& effects.contains(Effect::ShowBlocks) == others
            &&& effects.contains(Effect::RepaintCells) == !others
            &&& others ==> effects.contains(Effect::SetHeader) && effects.contains(
                Effect::ScrollToTop,
            )
        }),
{
    let (next, effects) = updated(
        m,
        Messages::SetFilterUnicodePages(enabled),
        covered,
        search_text,
    );
    let others = m.is_showing_search_results || next.displayed_ranges != m.displayed_ranges;
    if others {
        assert(effects[2] == Effect::ShowBlocks);
        assert(effects[3] == Effect::SetHeader);
        assert(effects[4] == Effect::ScrollToTop);
        assert(effects[5] == Effect::ListBlocks);
    } else {
        assert(effects[2] == Effect::RepaintCells);
        assert(effects[3] == Effect::ListBlocks);
    }
}

/// Switching the font preview keeps the setting and shows the fonts that way.
/// Folding the side bar is remembered. Neither changes anything else.
pub proof fn law_switches(
    m: AppModel,
    on: bool,
    covered: Seq<bool>,
    search_text: Option<Seq<char>>,
)
    ensures
        ({
            let (next, effects) = updated(m, Messages::SetFontPreview(on), covered, search_text);
            &&& next.render_font_preview == on
            &&& AppModel { render_font_preview: m.render_font_preview, ..next } == m
            &&& effects == seq![Effect::SaveConfig, Effect::PreviewFonts]
        }),
        ({
            let (next, effects) = updated(m, Messages::SetCollapsed(on), covered, search_text);
            &&& next.is_collapsed == on
            &&& AppModel { is_collapsed: m.is_collapsed, ..next } == m
            &&& effects.len() == 0
        }),
{
}

/// Showing the search field moves the focus there. Hiding it leaves the search, as
/// emptying it does.
pub proof fn law_search_field(
    m: AppModel,
    empty: String,
    covered: Seq<bool>,
    search_text: Option<Seq<char>>,
)
    requires
        empty@.len() == 0,
    ensures
        ({
            let (next, effects) = updated(m, Messages::ShowHideSearch, covered, search_text);
            &&& next.is_search_visible == !m.is_search_visible
            &&& !m.is_search_visible ==> effects == seq![Effect::FocusSearch] && AppModel {
                is_search_visible: m.is_search_visible,
                ..next
            } == m
            &&& m.is_search_visible ==> {
                let (left, leaving) = updated(
                    m,
                    Messages::SearchChanged(empty),
                    covered,
                    search_text,
                );
                effects == leaving && next == AppModel { is_search_visible: false, ..left }
            }
        }),
{
}

/// What the font covers matters only to the messages that ask for it.
pub proof fn law_coverage_matters_where_needed(
    m: AppModel,
    message: Messages,
    covered: Seq<bool>,
    other: Seq<bool>,
    search_text: Option<Seq<char>>,
)
    ensures
        !coverage_needed(m, message) ==> updated(m, message, covered, search_text) == updated(
            m,
            message,
            other,
            search_text,
        ),
        coverage_needed(m, message) ==> message is FontSelected || message
            is SetFilterUnicodePages,
{
}

/// Jumping to a description that no shown block has does nothing.
pub proof fn law_unknown_jumps_do_nothing(
    m: AppModel,
    description: String,
    covered: Seq<bool>,
    search_text: Option<Seq<char>>,
)
    requires
        m.well_formed(),
        forall|j: int|
            0 <= j < m.filtered_unicode_sections.len() ==> (
            #[trigger] m.filtered_unicode_sections[j]).description@ != description@,
    ensures
        updated(m, Messages::JumpToUnicodeSet(description), covered, search_text) == (
            m,
            Seq::<Effect>::empty(),
        ),
{
    let starts = m.block_boundaries;
    law_descriptions_lead_to_starts(starts, description@, 0);
    if m.section_positions.contains_key(description@) {
        let k = choose|k: int| 0 <= k < starts.len() && (#[trigger] starts[k]).1 == description@;
        law_ascending_fit(m.filtered_unicode_sections);
        let j = law_boundaries_mirror_model(m.filtered_unicode_sections, k);
        assert(m.filtered_unicode_sections[j].description@ == description@);
    }
}

/// With the filter on, a font shows exactly the blocks that it covers.
pub proof fn law_font_decides_blocks(
    m: AppModel,
    font: String,
    covered: Seq<bool>,
    search_text: Option<Seq<char>>,
    i: int,
)
    requires
        m.well_formed(),
        m.filter_unicode_pages,
        covered.len() == m.unicode_sections.len(),
        0 <= i < m.unicode_sections.len(),
    ensures
        updated(
            m,
            Messages::FontSelected(font),
            covered,
            search_text,
        ).0.filtered_unicode_sections.contains(m.unicode_sections[i]) <==> covered[i],
        sections_ascend(
            updated(
                m,
                Messages::FontSelected(font),
                covered,
                search_text,
            ).0.filtered_unicode_sections,
        ),
{
    lemma_kept_exactly(m.unicode_sections, covered);
    law_kept_ascend(m.unicode_sections, covered);
}

/// When the grid is built afresh for blocks, the header names the first of them that
/// shows anything, or is empty if none does.
pub proof fn law_first_block_heads(
    m: AppModel,
    message: Messages,
    covered: Seq<bool>,
    search_text: Option<Seq<char>>,
    k: int,
)
    requires
        message is FontSelected || message is SetFilterUnicodePages,
        updated(m, message, covered, search_text).1.contains(Effect::ShowBlocks),
        ({
            let sections = updated(m, message, covered, search_text).0.filtered_unicode_sections;
            &&& 0 <= k <= sections.len()
            &&& forall|i: int|
                0 <= i < k ==> displayable_codes(
                    (#[trigger] sections[i]).start_index as int,
                    sections[i].end_index as int,
                ).len() == 0
            &&& k < sections.len() ==> displayable_codes(
                sections[k].start_index as int,
                sections[k].end_index as int,
            ).len() > 0
        }),
    ensures
        ({
            let next = updated(m, message, covered, search_text).0;
            let sections = next.filtered_unicode_sections;
            &&& k < sections.len() ==> next.header == sections[k].description@
                && next.browse_header == sections[k].description@
            &&& k == sections.len() ==> next.header.len() == 0 && next.browse_header.len() == 0
        }),
{
    let sections = updated(m, message, covered, search_text).0.filtered_unicode_sections;
    lemma_first_start(sections, k);
}

/// The first start is that of the first block that shows anything.
proof fn lemma_first_start(sections: Seq<UnicodeEntry>, k: int)
    requires
        0 <= k <= sections.len(),
        forall|i: int|
            0 <= i < k ==> displayable_codes(
                (#[trigger] sections[i]).start_index as int,
                sections[i].end_index as int,
            ).len() == 0,
        k < sections.len() ==> displayable_codes(
            sections[k].start_index as int,
            sections[k].end_index as int,
        ).len() > 0,
    ensures
        k < sections.len() ==> block_starts(sections).len() > 0 && block_starts(sections)[0].1
            == sections[k].description@,
        k == sections.len() ==> block_starts(sections).len() == 0,
    decreases sections.len(),
{
    if sections.len() > 0 {
        let fewer = sections.drop_last();
        let last = sections.len() - 1;
        assert(displayable_codes(
            sections[last].start_index as int,
            sections[last].end_index as int,
        ).len() >= 0);
        if k < last {
            lemma_first_start(fewer, k);
        } else {
            lemma_first_start(fewer, last);
        }
    }
}

/// Searching for a text and then emptying the search field brings back what was
/// there: the blocks, their places, and the header of the first one; nothing is
/// selected. Emptying it without search results changes nothing.
pub proof fn law_emptying_the_search_restores(
    m: AppModel,
    text: String,
    empty: String,
    covered: Seq<bool>,
    search_text: Option<Seq<char>>,
)
    requires
        m.well_formed(),
        !m.is_showing_search_results,
        text@.len() >= 2,
        empty@.len() == 0,
    ensures
        ({
            let results = updated(m, Messages::SearchChanged(text), covered, search_text).0;
            let (next, effects) = updated(
                results,
                Messages::SearchChanged(empty),
                covered,
                search_text,
            );
            &&& !next.is_showing_search_results
            &&& next.filtered_unicode_sections == m.filtered_unicode_sections
            &&& next.section_positions == m.section_positions
            &&& next.block_boundaries == m.block_boundaries
            &&& next.header == m.browse_header
            &&& next.selected_character is None
            &&& next.hex_value.len() == 0 && next.dec_value.len() == 0
                && next.character_name.len() == 0
            &&& next.collected_text == m.collected_text
            &&& effects.contains(Effect::ShowBrowseGrid) == m.has_browse_grid
            &&& effects.contains(Effect::SetHeader)
            &&& effects.contains(Effect::ScrollToTop)
            &&& effects.contains(Effect::ClearSelection)
            &&& effects.contains(Effect::SetEntries)
        }),
        updated(m, Messages::SearchChanged(empty), covered, search_text) == (
            m,
            Seq::<Effect>::empty(),
        ),
{
    let results = updated(m, Messages::SearchChanged(text), covered, search_text).0;
    let (next, effects) = updated(results, Messages::SearchChanged(empty), covered, search_text);
    assert(effects[0] == Effect::SetEntries);
    if m.has_browse_grid {
        assert(effects[1] == Effect::ShowBrowseGrid);
        assert(effects[2] == Effect::ClearSelection);
        assert(effects[3] == Effect::SetHeader);
        assert(effects[4] == Effect::ScrollToTop);
    } else {
        assert(effects[1] == Effect::ClearSelection);
        assert(effects[2] == Effect::SetHeader);
        assert(effects[3] == Effect::ScrollToTop);
    }
}

/// The header over search results is what stands before and after the braces of the
/// template, with the number of the results between, where the template has the
/// braces once.
pub proof fn law_results_header(before: Seq<char>, after: Seq<char>, count: nat)
    requires
        forall|i: int| 0 <= i < before.len() ==> #[trigger] before[i] != '{',
        forall|i: int| 0 <= i < after.len() ==> #[trigger] after[i] != '{',
    ensures
        results_header(before + seq!['{', '}'] + after, count) == before + digits(count, 10)
            + after,
{
    let part = seq!['{', '}'];
    let s = before + part + after;
    assert forall|i: int| 0 <= i < before.len() implies !#[trigger] stands_at(s, part, i) by {
        if stands_at(s, part, i) {
            assert(s.subrange(i, i + 2)[0] == before[i]);
        }
    }
    assert(!has_part(after, part)) by {
        if has_part(after, part) {
            let i = choose|i: int| stands_at(after, part, i);
            assert(after.subrange(i, i + 2)[0] == after[i]);
        }
    }
    law_replacing(before, part, after, digits(count, 10));
    law_replacing(after, part, Seq::empty(), digits(count, 10));
}

/// Going to a place is scrolling to where its block starts, showing the header, and
/// selecting the place, in this order.
pub proof fn law_going_to_a_place(effects: Seq<Effect>, from: u32, place: u32)
    ensures
        goes_to(effects, from, place) <==> effects.len() == 3 && effects[0] == Effect::ScrollTo(
            from,
        ) && effects[1] == Effect::SetHeader && effects[2] == Effect::Select(place),
{
    if effects.len() == 3 && effects[0] == Effect::ScrollTo(from) && effects[1]
        == Effect::SetHeader && effects[2] == Effect::Select(place) {
        assert(effects =~= seq![
            Effect::ScrollTo(from),
            Effect::SetHeader,
            Effect::Select(place),
        ]);
    }
}

}
