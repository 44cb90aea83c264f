use charactermap::helpers::font_list::{
    find_row, font_filter, font_matches_filter, sort_fonts, KeyOutcome, TypeAhead,
};

fn owned(names: &[&str]) -> Vec<String> {
    names.iter().map(|name| name.to_string()).collect()
}

#[test]
fn fonts_are_sorted_without_regard_to_case() {
    let fonts = sort_fonts(&owned(&["Noto Sans", "arial", "Zapfino", "Arial", "dejavu", "noto Sans"]));
    assert_eq!(fonts, owned(&["arial", "Arial", "dejavu", "Noto Sans", "noto Sans", "Zapfino"]));
}

#[test]
fn fonts_sort_as_std_does() {
    let names = owned(&["Ça", "Éa", "éa", "Zz", "b", "B", "", "b", "Éa", "日本", "a b", "a"]);
    let mut expected = names.clone();
    expected.sort_by_key(|name| name.to_lowercase());
    expected.dedup();
    assert_eq!(sort_fonts(&names), expected);
}

#[test]
fn repeated_fonts_are_listed_once() {
    assert_eq!(sort_fonts(&owned(&["Mono", "Sans", "Mono"])), owned(&["Mono", "Sans"]));
    // Names of one lowercase form keep their order, so these do not meet.
    assert_eq!(sort_fonts(&owned(&["A", "a", "A"])), owned(&["A", "a", "A"]));
    assert_eq!(sort_fonts(&[]), Vec::<String>::new());
}

#[test]
fn filter_goes_by_part_of_the_name() {
    let filter = font_filter("SaNs");
    assert_eq!(filter, "sans");
    assert!(font_matches_filter("Noto Sans Mono", &filter));
    assert!(!font_matches_filter("Noto Serif", &filter));
    assert!(font_matches_filter("anything", ""));
    assert!(font_matches_filter("ÉCRITURE", &font_filter("É")));
}

fn rows() -> Vec<Option<String>> {
    vec![
        None,
        Some("Arial".to_string()),
        Some("Noto Sans".to_string()),
        Some("Noto Serif".to_string()),
        Some("Ärger".to_string()),
    ]
}

#[test]
fn first_row_with_the_prefix_is_found() {
    assert_eq!(find_row(&rows(), "noto"), Some(2));
    assert_eq!(find_row(&rows(), "noto se"), Some(3));
    assert_eq!(find_row(&rows(), "är"), Some(4));
    assert_eq!(find_row(&rows(), ""), Some(1));
    assert_eq!(find_row(&rows(), "sans"), None);
}

#[test]
fn typing_adds_up() {
    let mut typing = TypeAhead::new();
    assert_eq!(
        typing.key_pressed(false, Some('N'), &rows()),
        KeyOutcome::Find { cancel_reset: false, row: Some(2) }
    );
    assert_eq!(typing.buffer, "n");
    assert!(typing.selecting && typing.reset_pending);
    // The selection that the typing makes leaves the text alone.
    assert!(!typing.row_selected());
    assert_eq!(typing.buffer, "n");
    typing.selection_done();
    for ch in "oto s".chars() {
        typing.key_pressed(false, Some(ch), &rows());
        typing.selection_done();
    }
    assert_eq!(
        typing.key_pressed(false, Some('E'), &rows()),
        KeyOutcome::Find { cancel_reset: true, row: Some(3) }
    );
    assert_eq!(typing.buffer, "noto se");
    typing.selection_done();
    assert_eq!(
        typing.key_pressed(false, Some('x'), &rows()),
        KeyOutcome::Find { cancel_reset: true, row: None }
    );
    assert!(!typing.selecting);
}

#[test]
fn other_keys_pass_through() {
    let mut typing = TypeAhead::new();
    assert_eq!(typing.key_pressed(true, Some('a'), &rows()), KeyOutcome::Proceed);
    assert_eq!(typing.key_pressed(false, None, &rows()), KeyOutcome::Proceed);
    assert_eq!(typing.key_pressed(false, Some('\u{1b}'), &rows()), KeyOutcome::Proceed);
    assert_eq!(typing.key_pressed(false, Some('\u{7f}'), &rows()), KeyOutcome::Proceed);
    assert_eq!(typing.buffer, "");
    assert!(!typing.reset_pending);
}

#[test]
fn another_selection_forgets_the_text() {
    let mut typing = TypeAhead::new();
    typing.key_pressed(false, Some('a'), &rows());
    typing.selection_done();
    assert!(typing.row_selected());
    assert_eq!(typing.buffer, "");
    assert!(!typing.reset_pending);
    assert!(!typing.row_selected());
}

#[test]
fn a_pause_forgets_the_text() {
    let mut typing = TypeAhead::new();
    typing.key_pressed(false, Some('q'), &rows());
    typing.reset();
    assert_eq!(typing.buffer, "");
    assert!(!typing.reset_pending);
}

#[test]
fn one_key_can_give_several_lowercase_characters() {
    let mut typing = TypeAhead::new();
    typing.key_pressed(false, Some('İ'), &rows());
    assert_eq!(typing.buffer, "i\u{307}");
    typing.reset();
    typing.key_pressed(false, Some('Ä'), &rows());
    assert_eq!(typing.buffer, "ä");
}
