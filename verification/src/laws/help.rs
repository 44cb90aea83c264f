//! Laws of the help text.
use vstd::prelude::*;

use crate::widgets::help_dialog::{bulleted, labels_view, section_labels, HelpLabel};

verus! {

/// A help section is its title, as the one heading, and then each of its lines with
/// a bullet and a space that does not break in front.
pub proof fn law_help_sections(title: Seq<char>, lines: Seq<&'static str>, i: int)
    ensures
        section_labels(title, lines).len() == lines.len() + 1,
        section_labels(title, lines)[0] == (title, true),
        0 <= i < lines.len() ==> {
            let (text, heading) = section_labels(title, lines)[i + 1];
            &&& !heading
            &&& text.len() == lines[i]@.len() + 2
            &&& text[0] == '\u{2022}' && text[1] == '\u{a0}'
            &&& text.skip(2) == lines[i]@
        },
{
    if 0 <= i < lines.len() {
        assert(bulleted(lines[i]@).skip(2) =~= lines[i]@);
    }
}

/// Labels are seen one by one, through their characters.
pub proof fn law_labels_are_seen(labels: Seq<HelpLabel>)
    ensures
        labels_view(labels).len() == labels.len(),
        forall|i: int|
            0 <= i < labels.len() ==> #[trigger] labels_view(labels)[i] == (
                labels[i].text@,
                labels[i].is_heading,
            ),
{
}

}
