use charactermap::widgets::help_dialog::{help_labels, ENTRIES_TITLE, SEARCH_LINES};

#[test]
fn help_has_headings_and_bullets() {
    let labels = help_labels();
    assert_eq!(labels.len(), 12);
    let headings: Vec<&str> = labels
        .iter()
        .filter(|label| label.is_heading)
        .map(|label| label.text.as_str())
        .collect();
    assert_eq!(headings, vec!["Font List", "Grid", "Hex and Dec Entries", "Search"]);
    assert_eq!(ENTRIES_TITLE, "Hex and Dec Entries");
    assert_eq!(labels[1].text, "•\u{a0}Use the arrow keys to move the selection.");
    assert!(!labels[1].is_heading);
    assert_eq!(labels[11].text, format!("•\u{a0}{}", SEARCH_LINES[2]));
    assert_eq!(
        labels[7].text,
        "•\u{a0}Enter a hex value, a decimal value, or a character, then press Enter to find it."
    );
}
