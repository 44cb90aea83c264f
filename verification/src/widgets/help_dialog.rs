//! The "Help" dialog, opened from the hamburger menu.
use vstd::prelude::*;
use vstd::string::*;

verus! {

pub const FONT_LIST_TITLE: &'static str = "Font List";

pub const FONT_LIST_LINES: [&'static str; 2] = [
    "Use the arrow keys to move the selection.",
    "Start typing to find a font by name.",
];

pub const GRID_TITLE: &'static str = "Grid";

pub const GRID_LINES: [&'static str; 2] = [
    "Use the arrow keys to move the selection.",
    "Double-click, or press Enter, to add the selected character to the collection box.",
];

pub const ENTRIES_TITLE: &'static str = "Hex and Dec Entries";

pub const ENTRIES_LINES: [&'static str; 1] = [
    "Enter a hex value, a decimal value, or a character, then press Enter to find it.",
];

pub const SEARCH_TITLE: &'static str = "Search";

pub const SEARCH_LINES: [&'static str; 3] = [
    "Click the search icon to open the search bar.",
    "Type a character's name to find every character whose name contains it.",
    "Type, or paste, a single character to find it directly.",
];

/// One label of the dialog.
#[derive(Debug, PartialEq, Eq)]
pub struct HelpLabel {
    pub text: String,
    pub is_heading: bool,
}

/// The labels, their texts seen as character sequences.
pub open spec fn labels_view(labels: Seq<HelpLabel>) -> Seq<(Seq<char>, bool)> {
    labels.map_values(|label: HelpLabel| (label.text@, label.is_heading))
}

/// A line of body text as a list item.
pub open spec fn bulleted(line: Seq<char>) -> Seq<char> {
    seq!['\u{2022}', '\u{a0}'] + line
}

/// The labels of a help section: its title as a heading, then each of its lines
/// as a list item.
pub open spec fn section_labels(title: Seq<char>, lines: Seq<&'static str>) -> Seq<
    (Seq<char>, bool),
> {
    seq![(title, true)] + lines.map_values(|line: &'static str| (bulleted(line@), false))
}

/// A line of body text as a list item.
fn bullet(line: &str) -> (text: String)
    ensures
        text@ == bulleted(line@),
{
    let mut text: String = String::new();
    text.push('\u{2022}');
    text.push('\u{a0}');
    text.append(line);
    assert(text@ =~= bulleted(line@));
    text
}

/// Adds the labels of a help section.
fn add_section(labels: &mut Vec<HelpLabel>, title: &'static str, lines: &[&'static str])
    ensures
        labels_view(final(labels)@) == labels_view(old(labels)@) + section_labels(title@, lines@),
{
    let ghost before = labels_view(labels@);
    labels.push(HelpLabel { text: title.to_owned(), is_heading: true });
    let mut i: usize = 0;
    assert(labels_view(labels@) =~= before + section_labels(title@, lines@.take(0)));
    while i < lines.len()
        invariant
            i <= lines@.len(),
            before == labels_view(old(labels)@),
            labels_view(labels@) == before + section_labels(title@, lines@.take(i as int)),
        decreases lines@.len() - i,
    {
        let ghost given = labels_view(labels@);
        let ghost line = (bulleted(lines@[i as int]@), false);
        labels.push(HelpLabel { text: bullet(lines[i]), is_heading: false });
        assert(labels_view(labels@) =~= given.push(line));
        assert(section_labels(title@, lines@.take(i + 1)) =~= section_labels(
            title@,
            lines@.take(i as int),
        ).push(line));
        i += 1;
        assert(labels_view(labels@) =~= before + section_labels(title@, lines@.take(i as int)));
    }
    assert(lines@.take(i as int) =~= lines@);
}

/// The labels of the dialog, from top to bottom.
pub fn help_labels() -> (labels: Vec<HelpLabel>)
    ensures
        labels_view(labels@) == section_labels(FONT_LIST_TITLE@, FONT_LIST_LINES@)
            + section_labels(GRID_TITLE@, GRID_LINES@) + section_labels(
            ENTRIES_TITLE@,
            ENTRIES_LINES@,
        ) + section_labels(SEARCH_TITLE@, SEARCH_LINES@),
{
    let font_list = FONT_LIST_LINES;
    let grid = GRID_LINES;
    let entries = ENTRIES_LINES;
    let search = SEARCH_LINES;
    let mut labels: Vec<HelpLabel> = Vec::new();
    assert(labels_view(labels@) =~= Seq::empty());
    add_section(&mut labels, FONT_LIST_TITLE, &font_list);
    assert(labels_view(labels@) =~= section_labels(FONT_LIST_TITLE@, FONT_LIST_LINES@));
    add_section(&mut labels, GRID_TITLE, &grid);
    add_section(&mut labels, ENTRIES_TITLE, &entries);
    add_section(&mut labels, SEARCH_TITLE, &search);
    labels
}

}
