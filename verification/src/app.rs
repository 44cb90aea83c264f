//! What the character map shows, and how it changes.
//!
//! The state of the application and the messages that change it. A message
//! gives a new state and a list of effects, which are left to the user
//! interface, in order.
use vstd::prelude::*;
use vstd::hash_map::StringHashMap;
use vstd::string::*;

use crate::helpers::character_names::{
    all_found, capped, database_names, database_ranges, law_search_stays_within, name_of,
    tables_disjoint, CharacterNames,
};
use crate::helpers::utils::{
    block_starts, boundaries_view, compute_positions_boundaries, law_boundaries_ascend,
    law_boundaries_mirror_model, positions_of, start_of_each,
};
use crate::table::{labels_once, table_rows};
use crate::text::{
    chars_of, digits, format_number, is_scalar, law_digits_parse_back, parse_u32, parsed_u32,
    replace, replaced,
};
use crate::unicode::char_list_model::{
    displayable_codes, excluded, filtered_index, flat_codes, law_filtered_index_inverts,
    lemma_codes_length, lemma_flat_part, ranges_of, raw_offset_to_filtered_index,
};
use crate::unicode::unicode_blocks_data::BLOCKS;
use crate::unicode::unicode_set::{
    copy_sections, descriptions_differ, entry_of_row, holds_first, keep_sections, kept_sections,
    law_ascending_fit, law_kept_ascend, lemma_kept_among, sections_ascend,
};
use crate::unicode::{UnicodeEntry, UnicodeSet};

verus! {

/// Caps how many characters a name search can display.
pub const MAX_SEARCH_RESULTS: usize = 500;

/// The settings that are kept from one run to the next.
#[derive(Debug, Clone, Copy, PartialEq, Eq, Structural)]
pub struct AppSettings {
    pub render_font_preview: bool,
    pub filter_unicode_pages: bool,
}

impl Default for AppSettings {
    /// The settings of the first run.
    fn default() -> (settings: Self)
        ensures
            settings.render_font_preview,
            !settings.filter_unicode_pages,
    {
        AppSettings { render_font_preview: true, filter_unicode_pages: false }
    }
}

/// The settings to start with: those that were read, or else those of the first
/// run.
pub open spec fn settings_read(stored: Option<AppSettings>) -> AppSettings {
    match stored {
        Some(settings) => settings,
        None => AppSettings { render_font_preview: true, filter_unicode_pages: false },
    }
}

impl AppSettings {
    /// The settings to start with: those that were read, or else those of the
    /// first run.
    pub fn or_default(stored: Option<AppSettings>) -> (settings: AppSettings)
        ensures
            settings == settings_read(stored),
    {
        match stored {
            Some(settings) => settings,
            None => AppSettings::default(),
        }
    }
}

/// What the user does.
#[derive(Debug)]
pub enum Messages {
    FontSelected(String),
    CharacterSelected(u32),
    CharacterDoubleClicked(u32),
    ClearCollectedText,
    SetCollapsed(bool),
    SetFontPreview(bool),
    SetFilterUnicodePages(bool),
    JumpToUnicodeSet(String),
    SetHexValue(String),
    SetDecValue(String),
    FindHex,
    FindDec,
    ShowHideSearch,
    SearchChanged(String),
    CopySelectedCharacter,
}

/// What the user interface is to do. What it needs for that stands in the state.
#[derive(Debug, Clone, Copy, PartialEq, Eq, Structural)]
pub enum Effect {
    /// Give the cells and the preview the selected font.
    ApplyFont,
    /// Show the characters of the shown blocks in a fresh grid, and keep its
    /// list for later.
    ShowBlocks,
    /// Show the list that was kept in a fresh grid.
    ShowBrowseGrid,
    /// Show the search results in a fresh grid.
    ShowSearchResults,
    /// Repaint the cells of the grid.
    RepaintCells,
    /// List the shown blocks to jump to.
    ListBlocks,
    /// Show the header of the state.
    SetHeader,
    /// Show the number of search results as the header.
    SetSearchHeader,
    /// Scroll the grid to its beginning.
    ScrollToTop,
    /// Scroll the grid so that the row of a place is at the top.
    ScrollTo(u32),
    /// Select a place of the grid.
    Select(u32),
    /// Select nothing in the grid.
    ClearSelection,
    /// Show the number values of the state in their fields.
    SetEntries,
    /// Copy a character to the clipboard, and say so.
    CopyCharacter(char),
    /// Keep the settings.
    SaveConfig,
    /// Show the font names in the way that is set.
    PreviewFonts,
    /// Move the focus to the search field.
    FocusSearch,
}

/// The state, seen through the contents of its parts.
#[verifier::ext_equal]
pub struct AppModel {
    pub selected_font: Seq<char>,
    pub is_collapsed: bool,
    pub is_search_visible: bool,
    pub render_font_preview: bool,
    pub filter_unicode_pages: bool,
    pub unicode_sections: Seq<UnicodeEntry>,
    pub filtered_unicode_sections: Seq<UnicodeEntry>,
    pub section_positions: Map<Seq<char>, u32>,
    pub block_boundaries: Seq<(u32, Seq<char>)>,
    pub displayed_ranges: Seq<(u32, u32)>,
    pub selected_character: Option<char>,
    pub hex_value: Seq<char>,
    pub dec_value: Seq<char>,
    pub character_name: Seq<char>,
    pub collected_text: Seq<char>,
    pub names: Seq<(u32, Seq<char>)>,
    pub ranges: Seq<(u32, u32, Seq<char>)>,
    pub header: Seq<char>,
    pub search_results: Seq<char>,
    pub is_showing_search_results: bool,
    pub has_browse_grid: bool,
    pub browse_block_boundaries: Seq<(u32, Seq<char>)>,
    pub browse_header: Seq<char>,
}

/// The description of the first block that shows anything.
pub open spec fn first_description(boundaries: Seq<(u32, Seq<char>)>) -> Seq<char> {
    if boundaries.len() > 0 {
        boundaries[0].1
    } else {
        Seq::empty()
    }
}

/// A character lies in one of some blocks.
pub open spec fn in_blocks(sections: Seq<UnicodeEntry>, ch: char) -> bool {
    exists|k: int|
        0 <= k < sections.len() && (#[trigger] sections[k]).start_index <= ch as u32
            <= sections[k].end_index
}

impl AppModel {
    /// The settings to keep.
    pub open spec fn settings(self) -> AppSettings {
        AppSettings {
            render_font_preview: self.render_font_preview,
            filter_unicode_pages: self.filter_unicode_pages,
        }
    }

    /// The blocks are in order, and the shown ones are among them. Where they lie
    /// in the grid goes by the blocks that are shown. While search results are
    /// shown no block lies anywhere, but the places are kept. There are no more
    /// search results than can be displayed, and those that are shown lie in the
    /// shown blocks.
    pub open spec fn well_formed(self) -> bool {
        let starts = block_starts(self.filtered_unicode_sections);
        &&& sections_ascend(self.unicode_sections)
        &&& sections_ascend(self.filtered_unicode_sections)
        &&& forall|i: int|
            0 <= i < self.filtered_unicode_sections.len() ==> self.unicode_sections.contains(
                #[trigger] self.filtered_unicode_sections[i],
            )
        &&& self.browse_block_boundaries == starts
        &&& self.browse_header == first_description(starts)
        &&& self.block_boundaries == (if self.is_showing_search_results {
            Seq::empty()
        } else {
            starts
        })
        &&& self.section_positions == start_of_each(self.block_boundaries)
        &&& self.displayed_ranges == ranges_of(self.filtered_unicode_sections)
        &&& self.search_results.len() <= MAX_SEARCH_RESULTS
        &&& self.is_showing_search_results ==> forall|i: int|
            0 <= i < self.search_results.len() ==> in_blocks(
                self.filtered_unicode_sections,
                #[trigger] self.search_results[i],
            )
    }
}

/// The state with the preview of the selected character.
pub open spec fn previewed(m: AppModel) -> AppModel {
    match m.selected_character {
        Some(ch) => AppModel {
            hex_value: digits(ch as nat, 16),
            dec_value: digits(ch as nat, 10),
            character_name: match name_of(m.names, m.ranges, ch as u32) {
                Some(name) => name,
                None => Seq::empty(),
            },
            ..m
        },
        None => AppModel {
            hex_value: Seq::empty(),
            dec_value: Seq::empty(),
            character_name: Seq::empty(),
            ..m
        },
    }
}

/// The state and the effects after the shown blocks were worked out again:
/// those the font covers where they are filtered, or else all of them.
pub open spec fn refreshed(m: AppModel, covered: Seq<bool>) -> (AppModel, Seq<Effect>) {
    let sections = if m.filter_unicode_pages {
        kept_sections(m.unicode_sections, covered)
    } else {
        m.unicode_sections
    };
    let starts = block_starts(sections);
    let first = first_description(starts);
    let rebuild = m.is_showing_search_results || ranges_of(sections) != m.displayed_ranges;
    let next = AppModel {
        is_showing_search_results: false,
        filtered_unicode_sections: sections,
        section_positions: start_of_each(starts),
        block_boundaries: starts,
        browse_block_boundaries: starts,
        browse_header: first,
        displayed_ranges: ranges_of(sections),
        header: if rebuild {
            first
        } else {
            m.header
        },
        has_browse_grid: m.has_browse_grid || rebuild,
        ..m
    };
    if rebuild {
        (
            next,
            seq![
                Effect::ApplyFont,
                Effect::ShowBlocks,
                Effect::SetHeader,
                Effect::ScrollToTop,
                Effect::ListBlocks,
            ],
        )
    } else {
        (next, seq![Effect::ApplyFont, Effect::RepaintCells, Effect::ListBlocks])
    }
}

/// The state and the effects after the grid went to a block, and to the given
/// place in it or to its first one. A block that is not shown changes nothing.
pub open spec fn scrolled(m: AppModel, description: Seq<char>, offset: Option<nat>) -> (
    AppModel,
    Seq<Effect>,
) {
    if m.section_positions.contains_key(description) {
        let position = m.section_positions[description];
        let step = match offset {
            Some(offset) => offset,
            None => 0,
        };
        (
            AppModel { header: description, ..m },
            seq![
                Effect::ScrollTo(position),
                Effect::SetHeader,
                Effect::Select((position + step) as u32),
            ],
        )
    } else {
        (m, Seq::empty())
    }
}

/// The state and the effects after a codepoint was looked for: the grid goes to
/// it, if a block holds it and it is one that is displayed.
pub open spec fn found(m: AppModel, code: u32) -> (AppModel, Seq<Effect>) {
    if exists|k: int| holds_first(m.unicode_sections, code, k) {
        let entry = m.unicode_sections[choose|k: int| holds_first(m.unicode_sections, code, k)];
        match filtered_index(
            entry.start_index as int,
            entry.end_index as int,
            code - entry.start_index,
        ) {
            Some(index) => scrolled(m, entry.description@, Some(index)),
            None => (m, Seq::empty()),
        }
    } else {
        (m, Seq::empty())
    }
}

/// The codepoint that a text in a number field stands for: the number it is, or
/// else, if it is a single character, that character.
pub open spec fn entered_code(text: Seq<char>, radix: nat) -> Option<u32> {
    match parsed_u32(text, radix) {
        Some(code) => Some(code),
        None => if text.len() == 1 {
            Some(text[0] as u32)
        } else {
            None
        },
    }
}

/// The state and the effects after a search by name.
pub open spec fn searched(m: AppModel, query: Seq<char>) -> (AppModel, Seq<Effect>) {
    (
        previewed(
            AppModel {
                search_results: capped(
                    all_found(m.names, m.ranges, query, m.filtered_unicode_sections),
                    MAX_SEARCH_RESULTS as nat,
                ),
                is_showing_search_results: true,
                section_positions: Map::empty(),
                block_boundaries: Seq::empty(),
                selected_character: None,
                ..m
            },
        ),
        seq![
            Effect::SetEntries,
            Effect::ShowSearchResults,
            Effect::ClearSelection,
            Effect::SetSearchHeader,
            Effect::ScrollToTop,
        ],
    )
}

/// A text that may be missing, seen through its characters.
pub open spec fn text_view(text: Option<&str>) -> Option<Seq<char>> {
    match text {
        Some(s) => Some(s@),
        None => None,
    }
}

/// The state and the effects after a search that is under way was run again.
/// Nothing happens where none is: the search field is hidden, or holds less than
/// two characters.
pub open spec fn searched_again(m: AppModel, search_text: Option<Seq<char>>) -> (
    AppModel,
    Seq<Effect>,
) {
    if m.is_search_visible && search_text is Some && search_text->0.len() >= 2 {
        searched(m, search_text->0)
    } else {
        (m, Seq::empty())
    }
}

/// The state and the effects after the search results gave way to what was shown
/// before them.
pub open spec fn restored(m: AppModel) -> (AppModel, Seq<Effect>) {
    if m.is_showing_search_results {
        (
            previewed(
                AppModel {
                    is_showing_search_results: false,
                    selected_character: None,
                    section_positions: start_of_each(m.browse_block_boundaries),
                    block_boundaries: m.browse_block_boundaries,
                    header: m.browse_header,
                    ..m
                },
            ),
            (if m.has_browse_grid {
                seq![Effect::SetEntries, Effect::ShowBrowseGrid]
            } else {
                seq![Effect::SetEntries]
            }) + seq![Effect::ClearSelection, Effect::SetHeader, Effect::ScrollToTop],
        )
    } else {
        (m, Seq::empty())
    }
}

/// The state and the effects after another font was selected.
pub open spec fn font_changed(
    m: AppModel,
    font: Seq<char>,
    covered: Seq<bool>,
    search_text: Option<Seq<char>>,
) -> (AppModel, Seq<Effect>) {
    let (shown, refresh) = refreshed(
        AppModel { selected_font: font, selected_character: None, ..m },
        covered,
    );
    let (next, search) = searched_again(previewed(shown), search_text);
    (next, refresh + seq![Effect::SetEntries] + search + seq![Effect::ClearSelection])
}

/// The state and the effects after the filter was switched.
pub open spec fn filter_changed(
    m: AppModel,
    enabled: bool,
    covered: Seq<bool>,
    search_text: Option<Seq<char>>,
) -> (AppModel, Seq<Effect>) {
    let (shown, refresh) = refreshed(AppModel { filter_unicode_pages: enabled, ..m }, covered);
    let (next, search) = searched_again(shown, search_text);
    (next, seq![Effect::SaveConfig] + refresh + search)
}

/// The state and the effects after the text in the search field changed. A
/// single character is looked for in the blocks; a longer text is looked for in
/// the character names.
pub open spec fn search_changed(m: AppModel, search: Seq<char>) -> (AppModel, Seq<Effect>) {
    if search.len() >= 2 {
        searched(m, search)
    } else if search.len() == 1 {
        let (browse, restore) = restored(m);
        let (next, find) = found(browse, search[0] as u32);
        (next, restore + find)
    } else {
        restored(m)
    }
}

/// The state and the effects after a message. `covered` tells which of all
/// blocks the font covers, `search_text` what stands in the search field.
pub open spec fn updated(
    m: AppModel,
    message: Messages,
    covered: Seq<bool>,
    search_text: Option<Seq<char>>,
) -> (AppModel, Seq<Effect>) {
    match message {
        Messages::FontSelected(font) => font_changed(m, font@, covered, search_text),
        Messages::CharacterSelected(code) => (
            previewed(
                AppModel {
                    selected_character: if is_scalar(code as int) {
                        Some(code as char)
                    } else {
                        None
                    },
                    ..m
                },
            ),
            seq![Effect::SetEntries],
        ),
        Messages::CharacterDoubleClicked(code) => (
            AppModel {
                collected_text: if is_scalar(code as int) {
                    m.collected_text.push(code as char)
                } else {
                    m.collected_text
                },
                ..m
            },
            Seq::empty(),
        ),
        Messages::ClearCollectedText => (
            AppModel { collected_text: Seq::empty(), ..m },
            Seq::empty(),
        ),
        Messages::SetCollapsed(is_collapsed) => (AppModel { is_collapsed, ..m }, Seq::empty()),
        Messages::SetFontPreview(enabled) => (
            AppModel { render_font_preview: enabled, ..m },
            seq![Effect::SaveConfig, Effect::PreviewFonts],
        ),
        Messages::SetFilterUnicodePages(enabled) => filter_changed(
            m,
            enabled,
            covered,
            search_text,
        ),
        Messages::JumpToUnicodeSet(description) => scrolled(m, description@, None),
        Messages::SetHexValue(hex) => (AppModel { hex_value: hex@, ..m }, Seq::empty()),
        Messages::SetDecValue(dec) => (AppModel { dec_value: dec@, ..m }, Seq::empty()),
        Messages::FindHex => match entered_code(m.hex_value, 16) {
            Some(code) => found(m, code),
            None => (m, Seq::empty()),
        },
        Messages::FindDec => match entered_code(m.dec_value, 10) {
            Some(code) => found(m, code),
            None => (m, Seq::empty()),
        },
        Messages::ShowHideSearch => {
            let shown = AppModel { is_search_visible: !m.is_search_visible, ..m };
            if shown.is_search_visible {
                (shown, seq![Effect::FocusSearch])
            } else {
                restored(shown)
            }
        },
        Messages::SearchChanged(search) => search_changed(m, search@),
        Messages::CopySelectedCharacter => (
            m,
            match m.selected_character {
                Some(ch) => seq![Effect::CopyCharacter(ch)],
                None => Seq::empty(),
            },
        ),
    }
}

/// The header over search results: a template with their number in place of each
/// `{}`.
pub open spec fn results_header(template: Seq<char>, count: nat) -> Seq<char> {
    replaced(template, seq!['{', '}'], digits(count, 10))
}

/// Whether a message makes the shown blocks depend on what the font covers.
pub open spec fn coverage_needed(m: AppModel, message: Messages) -> bool {
    match message {
        Messages::FontSelected(_) => m.filter_unicode_pages,
        Messages::SetFilterUnicodePages(enabled) => enabled,
        _ => false,
    }
}

/// The state of the application.
pub struct App {
    pub selected_font: String,
    pub is_collapsed: bool,
    pub is_search_visible: bool,
    pub render_font_preview: bool,
    /// When on, only shows unicode blocks the selected font covers.
    pub filter_unicode_pages: bool,
    pub unicode_set: UnicodeSet,
    /// Where each shown block starts in the grid.
    pub section_positions: StringHashMap<u32>,
    /// Flat-position -> unicode-block boundaries of the grid.
    pub block_boundaries: Vec<(u32, String)>,
    /// Codepoint ranges currently loaded into the grid model, used to skip
    /// rebuilding when a font change doesn't affect what's shown.
    pub displayed_ranges: Vec<(u32, u32)>,
    pub selected_character: Option<char>,
    pub hex_value: String,
    pub dec_value: String,
    pub character_name: String,
    pub collected_text: String,
    pub character_names: CharacterNames,
    /// The block that was last gone to.
    pub header: String,
    /// What the last search found.
    pub search_results: Vec<char>,
    /// Whether the character grid is currently showing name-search results
    /// instead of the normal font-filtered blocks.
    pub is_showing_search_results: bool,
    /// Whether a list of the shown blocks was made, for leaving search to
    /// restore.
    pub has_browse_grid: bool,
    /// Kept so that leaving search restores it without working it out again.
    pub browse_block_boundaries: Vec<(u32, String)>,
    pub browse_header: String,
}

impl View for App {
    type V = AppModel;

    open spec fn view(&self) -> AppModel {
        AppModel {
            selected_font: self.selected_font@,
            is_collapsed: self.is_collapsed,
            is_search_visible: self.is_search_visible,
            render_font_preview: self.render_font_preview,
            filter_unicode_pages: self.filter_unicode_pages,
            unicode_sections: self.unicode_set.unicode_sections@,
            filtered_unicode_sections: self.unicode_set.filtered_unicode_sections@,
            section_positions: self.section_positions@,
            block_boundaries: boundaries_view(self.block_boundaries@),
            displayed_ranges: self.displayed_ranges@,
            selected_character: self.selected_character,
            hex_value: self.hex_value@,
            dec_value: self.dec_value@,
            character_name: self.character_name@,
            collected_text: self.collected_text@,
            names: self.character_names.names(),
            ranges: self.character_names.ranges(),
            header: self.header@,
            search_results: self.search_results@,
            is_showing_search_results: self.is_showing_search_results,
            has_browse_grid: self.has_browse_grid,
            browse_block_boundaries: boundaries_view(self.browse_block_boundaries@),
            browse_header: self.browse_header@,
        }
    }
}

/// A copy of block boundaries.
fn copy_boundaries(boundaries: &[(u32, String)]) -> (copy: Vec<(u32, String)>)
    ensures
        boundaries_view(copy@) == boundaries_view(boundaries@),
{
    let mut copy: Vec<(u32, String)> = Vec::new();
    let mut i: usize = 0;
    while i < boundaries.len()
        invariant
            i <= boundaries@.len(),
            copy@.len() == i,
            forall|k: int|
                0 <= k < i ==> (#[trigger] copy@[k]).0 == boundaries@[k].0 && copy@[k].1@
                    == boundaries@[k].1@,
        decreases boundaries@.len() - i,
    {
        copy.push((boundaries[i].0, boundaries[i].1.clone()));
        i += 1;
    }
    assert(boundaries_view(copy@) =~= boundaries_view(boundaries@));
    copy
}

/// The codepoint ranges of some blocks.
fn section_ranges(sections: &[UnicodeEntry]) -> (ranges: Vec<(u32, u32)>)
    ensures
        ranges@ == ranges_of(sections@),
{
    let mut ranges: Vec<(u32, u32)> = Vec::new();
    let mut i: usize = 0;
    while i < sections.len()
        invariant
            i <= sections@.len(),
            ranges@ == ranges_of(sections@).take(i as int),
        decreases sections@.len() - i,
    {
        ranges.push((sections[i].start_index, sections[i].end_index));
        i += 1;
        assert(ranges@ =~= ranges_of(sections@).take(i as int));
    }
    assert(ranges@ =~= ranges_of(sections@));
    ranges
}

/// Whether two lists of ranges are the same.
fn same_ranges(a: &[(u32, u32)], b: &[(u32, u32)]) -> (r: bool)
    ensures
        r == (a@ == b@),
{
    if a.len() != b.len() {
        return false;
    }
    let mut i: usize = 0;
    while i < a.len()
        invariant
            i <= a@.len(),
            a@.len() == b@.len(),
            forall|k: int| 0 <= k < i ==> a@[k] == b@[k],
        decreases a@.len() - i,
    {
        if a[i].0 != b[i].0 || a[i].1 != b[i].1 {
            assert(a@[i as int] != b@[i as int]);
            return false;
        }
        i += 1;
    }
    assert(a@ =~= b@);
    true
}

/// Each place of a description table is that of one of the boundaries.
proof fn lemma_positions_among(boundaries: Seq<(u32, Seq<char>)>, description: Seq<char>)
    requires
        start_of_each(boundaries).contains_key(description),
    ensures
        exists|i: int|
            0 <= i < boundaries.len() && (#[trigger] boundaries[i]).1 == description
                && boundaries[i].0 == start_of_each(boundaries)[description],
    decreases boundaries.len(),
{
    let fewer = boundaries.drop_last();
    if boundaries.last().1 == description {
        assert(boundaries[boundaries.len() - 1].1 == description);
    } else {
        lemma_positions_among(fewer, description);
        let i = choose|i: int|
            0 <= i < fewer.len() && (#[trigger] fewer[i]).1 == description && fewer[i].0
                == start_of_each(fewer)[description];
        assert(boundaries[i] == fewer[i]);
    }
}

/// The places of blocks lie in the grid.
proof fn lemma_positions_bounded(m: AppModel, description: Seq<char>)
    requires
        m.well_formed(),
        m.section_positions.contains_key(description),
    ensures
        m.section_positions[description] < 0x11_0000,
{
    law_ascending_fit(m.filtered_unicode_sections);
    law_boundaries_ascend(m.filtered_unicode_sections);
    lemma_positions_among(m.block_boundaries, description);
}

/// Only one block is the first one to hold a codepoint.
proof fn lemma_holds_first_unique(sections: Seq<UnicodeEntry>, code: u32, k: int)
    requires
        holds_first(sections, code, k),
    ensures
        k == (choose|i: int| holds_first(sections, code, i)),
{
    let i = choose|i: int| holds_first(sections, code, i);
    if i < k {
        assert(!(sections[i].start_index <= code <= sections[i].end_index));
    } else if k < i {
        assert(!(sections[k].start_index <= code <= sections[k].end_index));
    }
}

/// Search results lie in the shown blocks.
pub proof fn lemma_results_in_blocks(m: AppModel, query: Seq<char>)
    ensures
        forall|i: int|
            0 <= i < searched(m, query).0.search_results.len() ==> in_blocks(
                m.filtered_unicode_sections,
                #[trigger] searched(m, query).0.search_results[i],
            ),
{
    let results = searched(m, query).0.search_results;
    let all = all_found(m.names, m.ranges, query, m.filtered_unicode_sections);
    assert forall|i: int| 0 <= i < results.len() implies in_blocks(
        m.filtered_unicode_sections,
        #[trigger] results[i],
    ) by {
        assert(results[i] == all[i]);
        law_search_stays_within(m.names, m.ranges, query, m.filtered_unicode_sections, all[i]);
    }
}

/// The codepoint of a character.
fn code_of(ch: char) -> (code: u32)
    ensures
        code == ch as u32,
        code as nat == ch as nat,
{
    ch as u32
}

/// The codepoint to find for a text in a number field.
pub fn parse_entry(text: &str, radix: u32) -> (code: Option<u32>)
    requires
        2 <= radix <= 36,
    ensures
        code == entered_code(text@, radix as nat),
{
    if let Some(code) = parse_u32(text, radix) {
        return Some(code);
    }
    let chars = chars_of(text);
    if chars.len() == 1 {
        Some(code_of(chars[0]))
    } else {
        None
    }
}

impl App {
    /// The state before anything is shown.
    pub fn new(settings: AppSettings) -> (app: Self)
        ensures
            app@.well_formed(),
            app@.settings() == settings,
            app@.unicode_sections.len() == labels_once(table_rows(BLOCKS@, true)).len(),
            forall|i: int|
                0 <= i < app@.unicode_sections.len() ==> entry_of_row(
                    #[trigger] app@.unicode_sections[i],
                    labels_once(table_rows(BLOCKS@, true))[i],
                ),
            descriptions_differ(app@.unicode_sections),
            app@.filtered_unicode_sections.len() == 0,
            app@.names == database_names(),
            app@.ranges == database_ranges(),
            tables_disjoint(app@.names, app@.ranges),
            app@.selected_font.len() == 0,
            app@.selected_character is None,
            app@.hex_value.len() == 0,
            app@.dec_value.len() == 0,
            app@.character_name.len() == 0,
            app@.collected_text.len() == 0,
            app@.header.len() == 0,
            app@.displayed_ranges.len() == 0,
            app@.search_results.len() == 0,
            !app@.is_collapsed,
            !app@.is_search_visible,
            !app@.is_showing_search_results,
            !app@.has_browse_grid,
    {
        let app = App {
            selected_font: String::new(),
            is_collapsed: false,
            is_search_visible: false,
            render_font_preview: settings.render_font_preview,
            filter_unicode_pages: settings.filter_unicode_pages,
            unicode_set: UnicodeSet::new(),
            section_positions: StringHashMap::new(),
            block_boundaries: Vec::new(),
            displayed_ranges: Vec::new(),
            selected_character: None,
            hex_value: String::new(),
            dec_value: String::new(),
            character_name: String::new(),
            collected_text: String::new(),
            character_names: CharacterNames::new(),
            header: String::new(),
            search_results: Vec::new(),
            is_showing_search_results: false,
            has_browse_grid: false,
            browse_block_boundaries: Vec::new(),
            browse_header: String::new(),
        };
        proof {
            assert(app@.block_boundaries =~= Seq::empty());
            assert(app@.browse_block_boundaries =~= Seq::empty());
            assert(app@.browse_header =~= Seq::empty());
            assert(app@.filtered_unicode_sections =~= Seq::empty());
            assert(app@.displayed_ranges =~= ranges_of(app@.filtered_unicode_sections));
        }
        app
    }

    /// The settings to keep.
    pub fn settings(&self) -> (settings: AppSettings)
        ensures
            settings == self@.settings(),
    {
        AppSettings {
            render_font_preview: self.render_font_preview,
            filter_unicode_pages: self.filter_unicode_pages,
        }
    }

    /// Shows what is known of the selected character.
    fn update_character_preview(&mut self)
        ensures
            final(self)@ == previewed(old(self)@),
    {
        match self.selected_character {
            Some(ch) => {
                let code: u32 = code_of(ch);
                self.hex_value = format_number(code, 16, 0);
                self.dec_value = format_number(code, 10, 0);
                self.character_name = match self.character_names.name(ch) {
                    Some(name) => name,
                    None => String::new(),
                };
                assert(self@.character_name =~= previewed(old(self)@).character_name);
            },
            None => {
                self.hex_value = String::new();
                self.dec_value = String::new();
                self.character_name = String::new();
            },
        }
        assert(self@ =~= previewed(old(self)@));
    }

    /// Recomputes which unicode blocks are shown, and whether the character grid
    /// has to be rebuilt for them.
    fn refresh_unicode_sections(&mut self, covered: &[bool]) -> (effects: Vec<Effect>)
        requires
            sections_ascend(old(self)@.unicode_sections),
            old(self)@.search_results.len() <= MAX_SEARCH_RESULTS,
            old(self)@.filter_unicode_pages ==> covered@.len() == old(
                self,
            )@.unicode_sections.len(),
        ensures
            final(self)@ == refreshed(old(self)@, covered@).0,
            effects@ == refreshed(old(self)@, covered@).1,
            final(self)@.well_formed(),
    {
        // Force a rebuild if search results were showing, even if the
        // filtered ranges themselves are unchanged.
        let restoring_from_search = self.is_showing_search_results;
        self.is_showing_search_results = false;

        let sections = if self.filter_unicode_pages {
            // Keep only the blocks the selected font actually covers.
            proof {
                law_kept_ascend(self@.unicode_sections, covered@);
                lemma_kept_among(self@.unicode_sections, covered@);
            }
            keep_sections(&self.unicode_set.unicode_sections, covered)
        } else {
            copy_sections(&self.unicode_set.unicode_sections)
        };
        proof {
            law_ascending_fit(sections@);
        }
        let (positions, boundaries) = compute_positions_boundaries(&sections);
        let first_block = if boundaries.len() > 0 {
            assert(boundaries_view(boundaries@)[0].1 == boundaries@[0].1@);
            boundaries[0].1.clone()
        } else {
            String::new()
        };
        assert(first_block@ =~= first_description(block_starts(sections@)));
        let new_ranges = section_ranges(&sections);
        let rebuild = restoring_from_search || !same_ranges(&new_ranges, &self.displayed_ranges);

        self.section_positions = positions;
        self.browse_block_boundaries = copy_boundaries(&boundaries);
        self.block_boundaries = boundaries;
        self.unicode_set.filtered_unicode_sections = sections;
        self.displayed_ranges = new_ranges;

        let mut effects: Vec<Effect> = Vec::new();
        effects.push(Effect::ApplyFont);
        if rebuild {
            self.header = first_block.clone();
            self.has_browse_grid = true;
            effects.push(Effect::ShowBlocks);
            effects.push(Effect::SetHeader);
            effects.push(Effect::ScrollToTop);
        } else {
            effects.push(Effect::RepaintCells);
        }
        self.browse_header = first_block;
        effects.push(Effect::ListBlocks);
        proof {
            assert(self@ =~= refreshed(old(self)@, covered@).0);
            assert(effects@ =~= refreshed(old(self)@, covered@).1);
        }
        effects
    }

    /// Goes to a block of the grid: to the given place in it, or to its first.
    fn scroll_to_unicode_set(&mut self, description: &str, offset: Option<u32>) -> (effects: Vec<
        Effect,
    >)
        requires
            old(self)@.well_formed(),
            offset matches Some(n) ==> n <= 0x11_0000,
        ensures
            final(self)@ == scrolled(
                old(self)@,
                description@,
                match offset {
                    Some(n) => Some(n as nat),
                    None => None,
                },
            ).0,
            effects@ == scrolled(
                old(self)@,
                description@,
                match offset {
                    Some(n) => Some(n as nat),
                    None => None,
                },
            ).1,
            final(self)@.well_formed(),
    {
        let mut effects: Vec<Effect> = Vec::new();
        let found = match self.section_positions.get(description) {
            Some(position) => Some(*position),
            None => None,
        };
        if let Some(position) = found {
            proof {
                lemma_positions_bounded(self@, description@);
            }
            let step: u32 = match offset {
                Some(n) => n,
                None => 0,
            };
            effects.push(Effect::ScrollTo(position));
            self.header = description.to_owned();
            effects.push(Effect::SetHeader);
            effects.push(Effect::Select(position + step));
        }
        effects
    }

    /// Goes to a codepoint, if it is one that the grid shows.
    fn find_char(&mut self, ch: u32) -> (effects: Vec<Effect>)
        requires
            old(self)@.well_formed(),
        ensures
            final(self)@ == found(old(self)@, ch).0,
            effects@ == found(old(self)@, ch).1,
            final(self)@.well_formed(),
    {
        let ghost sections = self@.unicode_sections;
        let target = match self.unicode_set.find_character(ch) {
            (Some(entry), Some(offset)) => {
                proof {
                    let k = choose|k: int| #[trigger]
                        holds_first(sections, ch, k) && entry == sections[k] && offset == (ch
                            - sections[k].start_index) as u32;
                    lemma_holds_first_unique(sections, ch, k);
                    law_filtered_index_inverts(entry.start_index as int, entry.end_index as int);
                    lemma_codes_length(entry.start_index as int, entry.end_index as int);
                }
                match raw_offset_to_filtered_index(entry.start_index, entry.end_index, offset) {
                    Some(place) => Some((entry.description.clone(), place)),
                    None => None,
                }
            },
            _ => None,
        };
        match target {
            Some((description, place)) => self.scroll_to_unicode_set(&description, Some(place)),
            None => Vec::new(),
        }
    }

    /// Switches the grid to show displayable characters (within the current
    /// filtered/covered blocks) whose name matches `query`.
    fn refresh_search_results(&mut self, query: &str) -> (effects: Vec<Effect>)
        requires
            old(self)@.well_formed(),
        ensures
            final(self)@ == searched(old(self)@, query@).0,
            effects@ == searched(old(self)@, query@).1,
            final(self)@.well_formed(),
    {
        self.search_results =
        self.character_names.search(
            query,
            &self.unicode_set.filtered_unicode_sections,
            MAX_SEARCH_RESULTS,
        );
        self.is_showing_search_results = true;
        self.section_positions = StringHashMap::new();
        self.block_boundaries = Vec::new();
        assert(self@.block_boundaries =~= Seq::empty());

        // The previously selected character no longer has any meaning
        // against the search-result model, so clear its preview.
        self.selected_character = None;
        self.update_character_preview();

        let mut effects: Vec<Effect> = Vec::new();
        effects.push(Effect::SetEntries);
        effects.push(Effect::ShowSearchResults);
        effects.push(Effect::ClearSelection);
        effects.push(Effect::SetSearchHeader);
        effects.push(Effect::ScrollToTop);
        proof {
            assert(self@ =~= searched(old(self)@, query@).0);
            lemma_results_in_blocks(old(self)@, query@);
            assert(effects@ =~= searched(old(self)@, query@).1);
        }
        effects
    }

    /// Re-runs the active name search after a font or filter change, since
    /// those can change which characters are covered.
    fn rerun_search_if_active(&mut self, search_text: Option<&str>) -> (effects: Vec<Effect>)
        requires
            old(self)@.well_formed(),
        ensures
            final(self)@ == searched_again(old(self)@, text_view(search_text)).0,
            effects@ == searched_again(old(self)@, text_view(search_text)).1,
            final(self)@.well_formed(),
    {
        if !self.is_search_visible {
            return Vec::new();
        }
        match search_text {
            Some(query) => {
                if query.unicode_len() >= 2 {
                    return self.refresh_search_results(query);
                }
            },
            None => {},
        }
        Vec::new()
    }

    /// Restores the grid to what was showing before search.
    fn restore_browse_grid(&mut self) -> (effects: Vec<Effect>)
        requires
            old(self)@.well_formed(),
        ensures
            final(self)@ == restored(old(self)@).0,
            effects@ == restored(old(self)@).1,
            final(self)@.well_formed(),
    {
        if !self.is_showing_search_results {
            return Vec::new();
        }
        self.is_showing_search_results = false;

        // Same reasoning as entering search: the selection belonged to the
        // search-result model, not the restored browse model.
        self.selected_character = None;
        self.update_character_preview();

        let mut effects: Vec<Effect> = Vec::new();
        effects.push(Effect::SetEntries);
        if self.has_browse_grid {
            effects.push(Effect::ShowBrowseGrid);
        }
        effects.push(Effect::ClearSelection);

        self.section_positions = positions_of(&self.browse_block_boundaries);
        self.block_boundaries = copy_boundaries(&self.browse_block_boundaries);
        self.header = self.browse_header.clone();
        effects.push(Effect::SetHeader);
        effects.push(Effect::ScrollToTop);
        proof {
            assert(self@ =~= restored(old(self)@).0);
            assert(effects@ =~= restored(old(self)@).1);
        }
        effects
    }

    /// Selects another font.
    fn select_font(&mut self, font_name: String, covered: &[bool], search_text: Option<&str>) -> (
        effects: Vec<Effect>)
        requires
            old(self)@.well_formed(),
            old(self)@.filter_unicode_pages ==> covered@.len() == old(
                self,
            )@.unicode_sections.len(),
        ensures
            final(self)@ == font_changed(
                old(self)@,
                font_name@,
                covered@,
                text_view(search_text),
            ).0,
            effects@ == font_changed(old(self)@, font_name@, covered@, text_view(search_text)).1,
            final(self)@.well_formed(),
    {
        self.selected_font = font_name;
        self.selected_character = None;
        let ghost selected = AppModel {
            selected_font: font_name@,
            selected_character: None,
            ..old(self)@
        };
        assert(self@ =~= selected);
        let mut effects = self.refresh_unicode_sections(covered);
        let ghost refresh = effects@;
        self.update_character_preview();
        effects.push(Effect::SetEntries);

        // Re-run an active search under the new font.
        let mut search = self.rerun_search_if_active(search_text);
        let ghost again = search@;
        effects.append(&mut search);
        effects.push(Effect::ClearSelection);
        assert(effects@ =~= refresh + seq![Effect::SetEntries] + again
            + seq![Effect::ClearSelection]);
        effects
    }

    /// Switches the filter on or off.
    fn set_filter(&mut self, enabled: bool, covered: &[bool], search_text: Option<&str>) -> (
        effects: Vec<Effect>)
        requires
            old(self)@.well_formed(),
            enabled ==> covered@.len() == old(self)@.unicode_sections.len(),
        ensures
            final(self)@ == filter_changed(
                old(self)@,
                enabled,
                covered@,
                text_view(search_text),
            ).0,
            effects@ == filter_changed(old(self)@, enabled, covered@, text_view(search_text)).1,
            final(self)@.well_formed(),
    {
        self.filter_unicode_pages = enabled;
        let ghost switched = AppModel { filter_unicode_pages: enabled, ..old(self)@ };
        assert(self@ =~= switched);
        let mut effects: Vec<Effect> = Vec::new();
        effects.push(Effect::SaveConfig);
        let mut refresh = self.refresh_unicode_sections(covered);
        let ghost shown = refresh@;
        effects.append(&mut refresh);
        let mut search = self.rerun_search_if_active(search_text);
        let ghost again = search@;
        effects.append(&mut search);
        assert(effects@ =~= seq![Effect::SaveConfig] + shown + again);
        effects
    }

    /// Follows the text in the search field.
    fn change_search(&mut self, search: &str) -> (effects: Vec<Effect>)
        requires
            old(self)@.well_formed(),
        ensures
            final(self)@ == search_changed(old(self)@, search@).0,
            effects@ == search_changed(old(self)@, search@).1,
            final(self)@.well_formed(),
    {
        let chars = chars_of(search);
        if chars.len() >= 2 {
            return self.refresh_search_results(search);
        }
        let mut effects = self.restore_browse_grid();
        if chars.len() == 1 {
            let mut find = self.find_char(code_of(chars[0]));
            effects.append(&mut find);
        }
        effects
    }

    /// The header over the search results: the template with their number in
    /// place of each `{}`.
    pub fn search_header(&self, template: &str) -> (header: String)
        requires
            self@.well_formed(),
        ensures
            header@ == results_header(template@, self@.search_results.len()),
            header@ == replaced(
                template@,
                seq!['{', '}'],
                digits(self@.search_results.len(), 10),
            ),
    {
        let count: String = format_number(self.search_results.len() as u32, 10, 0);
        proof {
            reveal_strlit("{}");
            assert("{}"@ =~= seq!['{', '}']);
        }
        replace(template, "{}", &count)
    }

    /// Whether [`App::update`] has to know which blocks the font covers.
    pub fn needs_coverage(&self, message: &Messages) -> (r: bool)
        ensures
            r == coverage_needed(self@, *message),
    {
        match message {
            Messages::FontSelected(_) => self.filter_unicode_pages,
            Messages::SetFilterUnicodePages(enabled) => *enabled,
            _ => false,
        }
    }

    /// Takes a message: changes the state and tells what the user interface has
    /// to do. `covered` tells which of all blocks the font covers, where that is
    /// needed, and `search_text` what stands in the search field.
    pub fn update(&mut self, message: Messages, covered: &[bool], search_text: Option<&str>) -> (
        effects: Vec<Effect>)
        requires
            old(self)@.well_formed(),
            coverage_needed(old(self)@, message) ==> covered@.len() == old(
                self,
            )@.unicode_sections.len() ,
        ensures
            final(self)@ == updated(old(self)@, message, covered@, text_view(search_text)).0,
            effects@ == updated(old(self)@, message, covered@, text_view(search_text)).1,
            final(self)@.well_formed(),
    {
        let ghost before = self@;
        let mut effects: Vec<Effect> = Vec::new();
        match message {
            Messages::FontSelected(font_name) => {
                effects = self.select_font(font_name, covered, search_text);
            },
            Messages::CharacterSelected(char_code) => {
                self.selected_character = char::from_u32(char_code);
                self.update_character_preview();
                effects.push(Effect::SetEntries);
            },
            Messages::CharacterDoubleClicked(char_code) => {
                if let Some(ch) = char::from_u32(char_code) {
                    self.collected_text.push(ch);
                }
            },
            Messages::CopySelectedCharacter => {
                if let Some(ch) = self.selected_character {
                    effects.push(Effect::CopyCharacter(ch));
                }
            },
            Messages::ClearCollectedText => {
                self.collected_text = String::new();
            },
            Messages::SetCollapsed(is_collapsed) => {
                self.is_collapsed = is_collapsed;
            },
            Messages::SetFilterUnicodePages(enabled) => {
                effects = self.set_filter(enabled, covered, search_text);
            },
            Messages::JumpToUnicodeSet(description) => {
                effects = self.scroll_to_unicode_set(&description, None);
            },
            Messages::SetFontPreview(enabled) => {
                self.render_font_preview = enabled;
                effects.push(Effect::SaveConfig);
                effects.push(Effect::PreviewFonts);
            },
            Messages::SetDecValue(dec) => {
                self.dec_value = dec;
            },
            Messages::SetHexValue(hex) => {
                self.hex_value = hex;
            },
            Messages::FindHex => {
                if let Some(code) = parse_entry(&self.hex_value, 16) {
                    effects = self.find_char(code);
                }
            },
            Messages::FindDec => {
                if let Some(code) = parse_entry(&self.dec_value, 10) {
                    effects = self.find_char(code);
                }
            },
            Messages::ShowHideSearch => {
                self.is_search_visible = !self.is_search_visible;
                if self.is_search_visible {
                    effects.push(Effect::FocusSearch);
                } else {
                    effects = self.restore_browse_grid();
                }
            },
            Messages::SearchChanged(search) => {
                effects = self.change_search(&search);
            },
        }
        proof {
            let (next, wanted) = updated(before, message, covered@, text_view(search_text));
            assert(self@ =~= next);
            assert(effects@ =~= wanted);
        }
        effects
    }
}

/// A shown block holds a codepoint.
pub open spec fn shows_block_of(m: AppModel, code: u32) -> bool {
    exists|j: int|
        0 <= j < m.filtered_unicode_sections.len() && (
        #[trigger] m.filtered_unicode_sections[j]).start_index <= code
            <= m.filtered_unicode_sections[j].end_index
}

/// The effects scroll the grid to a place, show the header, and select a place.
pub open spec fn goes_to(effects: Seq<Effect>, from: u32, place: u32) -> bool {
    effects == seq![Effect::ScrollTo(from), Effect::SetHeader, Effect::Select(place)]
}

/// Where blocks have different descriptions, a block that shows anything is
/// found by its description at the place where its characters start.
pub proof fn lemma_start_of_block(sections: Seq<UnicodeEntry>, j: int)
    requires
        descriptions_differ(sections),
        0 <= j < sections.len(),
        displayable_codes(
            sections[j].start_index as int,
            sections[j].end_index as int,
        ).len() > 0,
    ensures
        start_of_each(block_starts(sections)).contains_key(sections[j].description@),
        start_of_each(block_starts(sections))[sections[j].description@] == flat_codes(
            ranges_of(sections).take(j),
        ).len() as u32,
    decreases sections.len(),
{
    let last = sections.len() - 1;
    let fewer = sections.drop_last();
    let before = block_starts(fewer);
    let starts = block_starts(sections);
    assert(ranges_of(fewer) =~= ranges_of(sections).take(last));
    if j < last {
        lemma_start_of_block(fewer, j);
        assert(ranges_of(fewer).take(j) =~= ranges_of(sections).take(j));
        assert(sections[j].description@ != sections[last].description@);
    }
    if starts.len() > before.len() {
        assert(starts.drop_last() =~= before);
    }
}

/// A displayable codepoint of a shown block is found: the grid is scrolled to the
/// block, the header names it, and the place that is selected shows the
/// codepoint.
pub proof fn law_find_leads_to_character(m: AppModel, code: u32)
    requires
        m.well_formed(),
        descriptions_differ(m.unicode_sections),
        !m.is_showing_search_results,
        shows_block_of(m, code),
        !excluded(code as int),
    ensures
        ({
            let codes = flat_codes(ranges_of(m.filtered_unicode_sections));
            let (next, effects) = found(m, code);
            exists|from: u32, place: u32, k: int|
                {
                    &&& #[trigger] goes_to(effects, from, place)
                    &&& place < codes.len()
                    &&& codes[place as int] == code
                    &&& from <= place
                    &&& #[trigger] holds_first(m.filtered_unicode_sections, code, k)
                    &&& next == AppModel {
                        header: m.filtered_unicode_sections[k].description@,
                        ..m
                    }
                    &&& m.block_boundaries.contains(
                        (from, m.filtered_unicode_sections[k].description@),
                    )
                }
        }),
{
    let shown = m.filtered_unicode_sections;
    let all = m.unicode_sections;
    let j = choose|j: int|
        0 <= j < shown.len() && (#[trigger] shown[j]).start_index <= code <= shown[j].end_index;
    let entry = shown[j];
    let (start, end) = (entry.start_index as int, entry.end_index as int);
    lemma_shown_differ(m);
    assert(holds_first(shown, code, j)) by {
        assert forall|i: int| 0 <= i < j implies !((#[trigger] shown[i]).start_index <= code
            <= shown[i].end_index) by {
            assert(shown[i].end_index < shown[j].start_index);
        }
    }
    assert(all.contains(entry));
    let i = choose|i: int| 0 <= i < all.len() && all[i] == entry;
    assert(holds_first(all, code, i)) by {
        assert forall|h: int| 0 <= h < i implies !((#[trigger] all[h]).start_index <= code
            <= all[h].end_index) by {
            assert(all[h].end_index < all[i].start_index);
        }
    }
    lemma_holds_first_unique(all, code, i);
    law_filtered_index_inverts(start, end);
    let index = filtered_index(start, end, code - start)->0;
    assert(filtered_index(start, end, code - start) == Some(index));
    lemma_start_of_block(shown, j);
    lemma_flat_part(ranges_of(shown), j);
    law_ascending_fit(shown);
    let from = m.section_positions[entry.description@];
    let place = (from + index) as u32;
    assert(ranges_of(shown)[j] == (entry.start_index, entry.end_index));
    assert(flat_codes(ranges_of(shown))[from + index] == code);
    lemma_positions_among(m.block_boundaries, entry.description@);
    assert(m.block_boundaries.contains((from, entry.description@)));
    assert(goes_to(found(m, code).1, from, place));
}

/// The shown blocks differ in their descriptions as all blocks do.
proof fn lemma_shown_differ(m: AppModel)
    requires
        m.well_formed(),
        descriptions_differ(m.unicode_sections),
    ensures
        descriptions_differ(m.filtered_unicode_sections),
{
    let shown = m.filtered_unicode_sections;
    let all = m.unicode_sections;
    assert forall|i: int, j: int| 0 <= i < j < shown.len() implies (
    #[trigger] shown[i]).description@ != (#[trigger] shown[j]).description@ by {
        assert(all.contains(shown[i]) && all.contains(shown[j]));
        let a = choose|a: int| 0 <= a < all.len() && all[a] == shown[i];
        let b = choose|b: int| 0 <= b < all.len() && all[b] == shown[j];
        assert(shown[i].end_index < shown[j].start_index);
        assert(shown[i].start_index <= shown[i].end_index);
        if a < b {
            assert(all[a].description@ != all[b].description@);
        } else {
            assert(all[b].description@ != all[a].description@);
        }
    }
}

/// A codepoint that no shown block holds, or that is not displayable, is not
/// found: nothing changes.
pub proof fn law_find_ignores_hidden(m: AppModel, code: u32)
    requires
        m.well_formed(),
        descriptions_differ(m.unicode_sections),
        !shows_block_of(m, code) || excluded(code as int),
    ensures
        found(m, code) == (m, Seq::<Effect>::empty()),
{
    let all = m.unicode_sections;
    let shown = m.filtered_unicode_sections;
    if exists|k: int| holds_first(all, code, k) {
        let k = choose|k: int| holds_first(all, code, k);
        let entry = all[k];
        if !excluded(code as int) && m.section_positions.contains_key(entry.description@) {
            lemma_positions_among(m.block_boundaries, entry.description@);
            let i = choose|i: int|
                0 <= i < m.block_boundaries.len() && (#[trigger] m.block_boundaries[i]).1
                    == entry.description@;
            law_ascending_fit(shown);
            let j = law_boundaries_mirror_model(shown, i);
            assert(all.contains(shown[j]));
            let h = choose|h: int| 0 <= h < all.len() && all[h] == shown[j];
            if h < k {
                assert(all[h].description@ != all[k].description@);
            } else if k < h {
                assert(all[k].description@ != all[h].description@);
            }
            assert(shown[j].start_index <= code <= shown[j].end_index);
        }
    }
}

/// A selected character is found by the numbers that its preview shows.
pub proof fn law_preview_finds_itself(
    m: AppModel,
    code: u32,
    covered: Seq<bool>,
    search_text: Option<Seq<char>>,
)
    requires
        is_scalar(code as int),
    ensures
        ({
            let selected = updated(m, Messages::CharacterSelected(code), covered, search_text).0;
            &&& updated(selected, Messages::FindHex, covered, search_text) == found(selected, code)
            &&& updated(selected, Messages::FindDec, covered, search_text) == found(selected, code)
        }),
{
    law_digits_parse_back(code, 16);
    law_digits_parse_back(code, 10);
    assert((code as char) as nat == code as nat);
}

/// The state after searches by name, one after the other.
pub open spec fn searched_for_all(m: AppModel, queries: Seq<Seq<char>>) -> AppModel
    decreases queries.len(),
{
    if queries.len() == 0 {
        m
    } else {
        searched(searched_for_all(m, queries.drop_last()), queries.last()).0
    }
}

/// What any number of searches leaves as it was.
proof fn lemma_searched_for_all(m: AppModel, queries: Seq<Seq<char>>)
    requires
        queries.len() > 0,
    ensures
        searched_for_all(m, queries) == previewed(
            AppModel {
                search_results: searched_for_all(m, queries).search_results,
                is_showing_search_results: true,
                section_positions: Map::empty(),
                block_boundaries: Seq::empty(),
                selected_character: None,
                ..m
            },
        ),
    decreases queries.len(),
{
    if queries.len() > 1 {
        lemma_searched_for_all(m, queries.drop_last());
    } else {
        assert(searched_for_all(m, queries.drop_last()) == m);
    }
}

/// Leaving a search, after any number of queries, brings back what was shown
/// before it: the places of the blocks and the blocks themselves, with the header
/// of the first one, and nothing selected. Leaving it again changes nothing.
pub proof fn law_leaving_search_restores(m: AppModel, queries: Seq<Seq<char>>)
    requires
        m.well_formed(),
        !m.is_showing_search_results,
        queries.len() > 0,
    ensures
        ({
            let results = searched_for_all(m, queries);
            let (next, effects) = restored(results);
            &&& next == previewed(
                AppModel {
                    search_results: results.search_results,
                    header: first_description(m.block_boundaries),
                    selected_character: None,
                    ..m
                },
            )
            &&& next.section_positions == m.section_positions
            &&& next.block_boundaries == m.block_boundaries
            &&& next.header == m.browse_header
            &&& !next.is_showing_search_results
            &&& next.selected_character is None
            &&& effects.contains(Effect::ShowBrowseGrid) == m.has_browse_grid
            &&& restored(next) == (next, Seq::<Effect>::empty())
        }),
{
    lemma_searched_for_all(m, queries);
    let results = searched_for_all(m, queries);
    let (next, effects) = restored(results);
    assert(next =~= previewed(
        AppModel {
            search_results: results.search_results,
            header: first_description(m.block_boundaries),
            selected_character: None,
            ..m
        },
    ));
    if m.has_browse_grid {
        assert(effects[1] == Effect::ShowBrowseGrid);
    }
}

/// While search results are shown no block can be jumped to and no character is
/// looked for in the blocks.
pub proof fn law_search_suspends_jumps(
    m: AppModel,
    message: Messages,
    covered: Seq<bool>,
    search_text: Option<Seq<char>>,
)
    requires
        m.well_formed(),
        m.is_showing_search_results,
        message is JumpToUnicodeSet || message is FindHex || message is FindDec,
    ensures
        updated(m, message, covered, search_text) == (m, Seq::<Effect>::empty()),
{
}

/// With the filter off every block is shown; with it on, a block is shown exactly
/// if the font covers it.
pub proof fn law_filter_decides_blocks(
    m: AppModel,
    enabled: bool,
    covered: Seq<bool>,
    search_text: Option<Seq<char>>,
)
    requires
        m.well_formed(),
        enabled ==> covered.len() == m.unicode_sections.len(),
    ensures
        ({
            let shown = updated(
                m,
                Messages::SetFilterUnicodePages(enabled),
                covered,
                search_text,
            ).0.filtered_unicode_sections;
            &&& !enabled ==> shown == m.unicode_sections
            &&& enabled ==> forall|i: int|
                0 <= i < m.unicode_sections.len() ==> (shown.contains(
                    #[trigger] m.unicode_sections[i],
                ) <==> covered[i])
        }),
{
    if enabled {
        lemma_kept_exactly(m.unicode_sections, covered);
    }
}

/// A block is kept exactly if its flag is set.
pub proof fn lemma_kept_exactly(sections: Seq<UnicodeEntry>, keep: Seq<bool>)
    requires
        sections_ascend(sections),
        sections.len() <= keep.len(),
    ensures
        forall|i: int|
            0 <= i < sections.len() ==> (kept_sections(sections, keep).contains(
                #[trigger] sections[i],
            ) <==> keep[i]),
    decreases sections.len(),
{
    if sections.len() > 0 {
        let last = sections.len() - 1;
        let fewer = sections.drop_last();
        let before = kept_sections(fewer, keep);
        let kept = kept_sections(sections, keep);
        assert(sections_ascend(fewer));
        lemma_kept_exactly(fewer, keep);
        lemma_kept_among(fewer, keep);
        assert forall|i: int| 0 <= i < sections.len() implies (kept.contains(
            #[trigger] sections[i],
        ) <==> keep[i]) by {
            if i < last {
                assert(fewer[i] == sections[i]);
                assert(sections[i].end_index < sections[last].start_index);
                if before.contains(sections[i]) {
                    let j = choose|j: int| 0 <= j < before.len() && before[j] == sections[i];
                    assert(kept[j] == sections[i]);
                }
                if kept.contains(sections[i]) {
                    let j = choose|j: int| 0 <= j < kept.len() && kept[j] == sections[i];
                    assert(j < before.len());
                    assert(before[j] == sections[i]);
                }
            } else {
                if keep[last] {
                    assert(kept[before.len() as int] == sections[last]);
                }
                if kept.contains(sections[last]) && !keep[last] {
                    let j = choose|j: int| 0 <= j < kept.len() && kept[j] == sections[last];
                    assert(fewer.contains(before[j]));
                    let h = choose|h: int| 0 <= h < fewer.len() && fewer[h] == before[j];
                    assert(sections[h].end_index < sections[last].start_index);
                }
            }
        }
    }
}

/// A font that leaves the shown blocks as they are, outside a search, only
/// repaints the grid.
pub proof fn law_same_blocks_repaint(m: AppModel, covered: Seq<bool>)
    requires
        m.well_formed(),
        !m.is_showing_search_results,
        refreshed(m, covered).0.filtered_unicode_sections == m.filtered_unicode_sections,
    ensures
        refreshed(m, covered).0 == m,
        refreshed(m, covered).1 == seq![
            Effect::ApplyFont,
            Effect::RepaintCells,
            Effect::ListBlocks,
        ],
{
    assert(refreshed(m, covered).0 =~= m);
}

/// The blocks and the names that are known stay the same whatever happens. The
/// collected text changes by a double click and by clearing alone, and each
/// setting by its own switch.
pub proof fn law_messages_mind_their_business(
    m: AppModel,
    message: Messages,
    covered: Seq<bool>,
    search_text: Option<Seq<char>>,
)
    ensures
        ({
            let next = updated(m, message, covered, search_text).0;
            &&& next.unicode_sections == m.unicode_sections
            &&& next.names == m.names
            &&& next.ranges == m.ranges
            &&& message !is CharacterDoubleClicked && message !is ClearCollectedText
                ==> next.collected_text == m.collected_text
            &&& message !is SetFontPreview ==> next.render_font_preview == m.render_font_preview
            &&& message !is SetFilterUnicodePages ==> next.filter_unicode_pages
                == m.filter_unicode_pages
            &&& message !is FontSelected ==> next.selected_font == m.selected_font
            &&& message !is FontSelected && message !is SetFilterUnicodePages
                ==> next.filtered_unicode_sections == m.filtered_unicode_sections
        }),
{
}

/// Showing and hiding the search field without searching changes nothing.
pub proof fn law_search_field_toggles(
    m: AppModel,
    covered: Seq<bool>,
    search_text: Option<Seq<char>>,
)
    requires
        !m.is_showing_search_results,
    ensures
        ({
            let once = updated(m, Messages::ShowHideSearch, covered, search_text).0;
            updated(once, Messages::ShowHideSearch, covered, search_text).0 == m
        }),
{
}

/// The settings that are kept are the ones that are read again, and where none can
/// be read those of the first run hold.
pub proof fn law_settings_round_trip(m: AppModel)
    ensures
        settings_read(Some(m.settings())) == m.settings(),
        settings_read(Some(m.settings())).render_font_preview == m.render_font_preview,
        settings_read(Some(m.settings())).filter_unicode_pages == m.filter_unicode_pages,
        settings_read(None).render_font_preview,
        !settings_read(None).filter_unicode_pages,
{
}

}
