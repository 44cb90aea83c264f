//! The list of all Unicode blocks, and the part of it that is shown.
use vstd::prelude::*;

use super::char_list_model::{flat_codes, lemma_codes_length, ranges_of};
use super::unicode_blocks_data::BLOCKS;
use super::unicode_entry::UnicodeEntry;
use crate::table::{labels_once, law_labels_once, parse_table, rows_view, table_rows};

verus! {

/// Blocks of codepoints, each of which ends before the next one starts.
pub open spec fn sections_ascend(sections: Seq<UnicodeEntry>) -> bool {
    &&& forall|i: int|
        0 <= i < sections.len() ==> (#[trigger] sections[i]).start_index <= sections[i].end_index
            <= 0x10FFFF
    &&& forall|i: int, j: int|
        0 <= i < j < sections.len() ==> (#[trigger] sections[i]).end_index < (
        #[trigger] sections[j]).start_index
}

/// The block of a table row.
pub open spec fn entry_of_row(entry: UnicodeEntry, row: (u32, u32, Seq<char>)) -> bool {
    &&& entry.start_index == row.0
    &&& entry.end_index == row.1
    &&& entry.description@ == row.2
    &&& entry.code_plan == (row.0 / 0x1_0000) % 0x100
    &&& entry.included
}

/// The blocks for which the flag at the same place is set.
pub open spec fn kept_sections(sections: Seq<UnicodeEntry>, keep: Seq<bool>) -> Seq<UnicodeEntry>
    decreases sections.len(),
{
    if sections.len() == 0 {
        Seq::empty()
    } else {
        let before = kept_sections(sections.drop_last(), keep);
        if keep[sections.len() - 1] {
            before.push(sections.last())
        } else {
            before
        }
    }
}

/// Every kept block is one of the blocks.
pub proof fn lemma_kept_among(sections: Seq<UnicodeEntry>, keep: Seq<bool>)
    ensures
        forall|i: int|
            0 <= i < kept_sections(sections, keep).len() ==> sections.contains(
                #[trigger] kept_sections(sections, keep)[i],
            ),
    decreases sections.len(),
{
    if sections.len() > 0 {
        let fewer = sections.drop_last();
        let before = kept_sections(fewer, keep);
        let kept = kept_sections(sections, keep);
        lemma_kept_among(fewer, keep);
        assert forall|i: int| 0 <= i < kept.len() implies sections.contains(
            #[trigger] kept[i],
        ) by {
            if i < before.len() {
                assert(fewer.contains(before[i]));
                let j = choose|j: int| 0 <= j < fewer.len() && fewer[j] == before[i];
                assert(sections[j] == kept[i]);
            } else {
                assert(sections[sections.len() - 1] == kept[i]);
            }
        }
    }
}

/// Keeping some of ascending blocks leaves them ascending.
pub proof fn law_kept_ascend(sections: Seq<UnicodeEntry>, keep: Seq<bool>)
    requires
        sections_ascend(sections),
    ensures
        sections_ascend(kept_sections(sections, keep)),
    decreases sections.len(),
{
    if sections.len() > 0 {
        let fewer = sections.drop_last();
        let before = kept_sections(fewer, keep);
        let kept = kept_sections(sections, keep);
        law_kept_ascend(fewer, keep);
        lemma_kept_among(fewer, keep);
        assert forall|i: int| 0 <= i < before.len() implies (#[trigger] before[i]).end_index
            < sections.last().start_index by {
            assert(fewer.contains(before[i]));
            let j = choose|j: int| 0 <= j < fewer.len() && fewer[j] == before[i];
            assert(sections[j].end_index < sections[sections.len() - 1].start_index);
        }
        assert forall|i: int, j: int| 0 <= i < j < kept.len() implies (
        #[trigger] kept[i]).end_index < (#[trigger] kept[j]).start_index by {
            assert(kept[i] == before[i]);
            if j < before.len() {
                assert(kept[j] == before[j]);
            }
        }
        assert forall|i: int| 0 <= i < kept.len() implies (#[trigger] kept[i]).start_index
            <= kept[i].end_index <= 0x10FFFF by {
            if i < before.len() {
                assert(kept[i] == before[i]);
            } else {
                assert(kept[i] == sections[sections.len() - 1]);
            }
        }
    }
}

/// Ascending blocks show no more than there are codepoints.
pub proof fn law_ascending_fit(sections: Seq<UnicodeEntry>)
    requires
        sections_ascend(sections),
    ensures
        flat_codes(ranges_of(sections)).len() <= 0x11_0000,
        sections.len() > 0 ==> flat_codes(ranges_of(sections)).len() <= sections.last().end_index
            + 1,
    decreases sections.len(),
{
    if sections.len() > 0 {
        let fewer = sections.drop_last();
        let last = sections.len() - 1;
        law_ascending_fit(fewer);
        assert(ranges_of(sections).drop_last() =~= ranges_of(fewer));
        lemma_codes_length(sections[last].start_index as int, sections[last].end_index as int);
        if fewer.len() > 0 {
            assert(sections[last - 1].end_index < sections[last].start_index);
        }
        assert(sections[last].end_index <= 0x10FFFF);
    }
}

/// Keeps the blocks whose flag is set.
pub fn keep_sections(sections: &[UnicodeEntry], keep: &[bool]) -> (kept: Vec<UnicodeEntry>)
    requires
        keep@.len() == sections@.len(),
    ensures
        kept@ == kept_sections(sections@, keep@),
{
    let mut kept: Vec<UnicodeEntry> = Vec::new();
    let mut i: usize = 0;
    assert(sections@.take(0) =~= Seq::<UnicodeEntry>::empty());
    while i < sections.len()
        invariant
            i <= sections@.len(),
            keep@.len() == sections@.len(),
            kept@ == kept_sections(sections@.take(i as int), keep@),
        decreases sections@.len() - i,
    {
        assert(sections@.take(i + 1).drop_last() =~= sections@.take(i as int));
        if keep[i] {
            kept.push(sections[i].clone());
        }
        i += 1;
    }
    assert(sections@.take(i as int) =~= sections@);
    kept
}

/// A copy of a list of blocks.
pub fn copy_sections(sections: &[UnicodeEntry]) -> (copy: Vec<UnicodeEntry>)
    ensures
        copy@ == sections@,
{
    let mut copy: Vec<UnicodeEntry> = Vec::new();
    let mut i: usize = 0;
    while i < sections.len()
        invariant
            i <= sections@.len(),
            copy@ == sections@.take(i as int),
        decreases sections@.len() - i,
    {
        copy.push(sections[i].clone());
        i += 1;
        assert(sections@.take(i as int) =~= sections@.take(i - 1).push(sections@[i - 1]));
    }
    assert(sections@.take(i as int) =~= sections@);
    copy
}

/// No two blocks have the same description.
pub open spec fn descriptions_differ(sections: Seq<UnicodeEntry>) -> bool {
    forall|i: int, j: int|
        0 <= i < j < sections.len() ==> (#[trigger] sections[i]).description@ != (
        #[trigger] sections[j]).description@
}

/// The block `k` is the first one that holds a codepoint.
pub open spec fn holds_first(sections: Seq<UnicodeEntry>, code: u32, k: int) -> bool {
    &&& 0 <= k < sections.len()
    &&& sections[k].start_index <= code <= sections[k].end_index
    &&& forall|j: int|
        0 <= j < k ==> !((#[trigger] sections[j]).start_index <= code <= sections[j].end_index)
}

/// Whether one of some blocks has a description.
fn has_description(sections: &[UnicodeEntry], description: &str) -> (r: bool)
    ensures
        r == exists|k: int|
            0 <= k < sections@.len() && (#[trigger] sections@[k]).description@ == description@,
{
    let wanted: String = description.to_owned();
    let mut i: usize = 0;
    while i < sections.len()
        invariant
            i <= sections@.len(),
            wanted@ == description@,
            forall|k: int|
                0 <= k < i ==> (#[trigger] sections@[k]).description@ != description@,
        decreases sections@.len() - i,
    {
        if sections[i].description == wanted {
            return true;
        }
        i += 1;
    }
    false
}

/// The Unicode blocks: all of them, and those that are shown.
pub struct UnicodeSet {
    pub unicode_sections: Vec<UnicodeEntry>,
    pub filtered_unicode_sections: Vec<UnicodeEntry>,
}

impl UnicodeSet {
    /// All Unicode blocks, none of them shown yet. No two of them have the same
    /// description.
    pub fn new() -> (set: Self)
        ensures
            set.unicode_sections@.len() == labels_once(table_rows(BLOCKS@, true)).len(),
            forall|i: int|
                0 <= i < set.unicode_sections@.len() ==> entry_of_row(
                    #[trigger] set.unicode_sections@[i],
                    labels_once(table_rows(BLOCKS@, true))[i],
                ),
            sections_ascend(set.unicode_sections@),
            descriptions_differ(set.unicode_sections@),
            set.filtered_unicode_sections@ == Seq::<UnicodeEntry>::empty(),
    {
        let parts = BLOCKS;
        let rows = parse_table(&parts, true);
        let ghost seen = rows_view(rows@);
        let mut sections: Vec<UnicodeEntry> = Vec::new();
        let mut i: usize = 0;
        assert(seen.take(0) =~= Seq::<(u32, u32, Seq<char>)>::empty());
        while i < rows.len()
            invariant
                i <= rows@.len(),
                seen == rows_view(rows@),
                sections@.len() == labels_once(seen.take(i as int)).len(),
                forall|k: int|
                    0 <= k < sections@.len() ==> entry_of_row(
                        #[trigger] sections@[k],
                        labels_once(seen.take(i as int))[k],
                    ),
            decreases rows@.len() - i,
        {
            let (start, end, description) = rows[i];
            let ghost before = labels_once(seen.take(i as int));
            proof {
                assert(seen[i as int] == (start, end, description@));
                assert(seen.take(i + 1).drop_last() =~= seen.take(i as int));
                assert forall|k: int| 0 <= k < sections@.len() implies (
                #[trigger] sections@[k]).description@ == before[k].2 by {}
            }
            if !has_description(&sections, description) {
                proof {
                    assert forall|k: int| 0 <= k < before.len() implies (#[trigger] before[k]).2
                        != description@ by {
                        assert(sections@[k].description@ == before[k].2);
                    }
                }
                sections.push(UnicodeEntry::new(start, description, end, true));
            } else {
                proof {
                    let k = choose|k: int|
                        0 <= k < sections@.len() && (#[trigger] sections@[k]).description@
                            == description@;
                    assert(before[k].2 == description@);
                }
            }
            i += 1;
        }
        proof {
            assert(seen.take(i as int) =~= seen);
            law_labels_once(seen);
            let once = labels_once(seen);
            assert forall|a: int, b: int| 0 <= a < b < sections@.len() implies (
            #[trigger] sections@[a]).end_index < (#[trigger] sections@[b]).start_index by {
                assert(once[a].1 < once[b].0);
            }
            assert forall|a: int, b: int| 0 <= a < b < sections@.len() implies (
            #[trigger] sections@[a]).description@ != (#[trigger] sections@[b]).description@ by {
                assert(once[a].2 != once[b].2);
            }
            assert forall|a: int| 0 <= a < sections@.len() implies (
            #[trigger] sections@[a]).start_index <= sections@[a].end_index <= 0x10FFFF by {
                assert(once[a].0 <= once[a].1 <= 0x10FFFF);
            }
        }
        UnicodeSet { unicode_sections: sections, filtered_unicode_sections: Vec::new() }
    }

    /// The block that holds a codepoint, and how far into the block it lies.
    pub fn find_character(&self, ch: u32) -> (r: (Option<&UnicodeEntry>, Option<u32>))
        ensures
            r.0 is Some == r.1 is Some,
            r.0 is Some ==> exists|k: int| #[trigger]
                holds_first(self.unicode_sections@, ch, k) && r.0 == Some(
                    &self.unicode_sections@[k],
                ) && r.1 == Some((ch - self.unicode_sections@[k].start_index) as u32),
            r.0 is None ==> forall|k: int|
                0 <= k < self.unicode_sections@.len() ==> !((
                #[trigger] self.unicode_sections@[k]).start_index <= ch
                    <= self.unicode_sections@[k].end_index),
    {
        let mut i: usize = 0;
        while i < self.unicode_sections.len()
            invariant
                i <= self.unicode_sections@.len(),
                forall|j: int|
                    0 <= j < i ==> !((#[trigger] self.unicode_sections@[j]).start_index <= ch
                        <= self.unicode_sections@[j].end_index),
            decreases self.unicode_sections@.len() - i,
        {
            if self.unicode_sections[i].contains(ch) {
                assert(holds_first(self.unicode_sections@, ch, i as int));
                let entry = &self.unicode_sections[i];
                return (Some(entry), Some(ch - entry.start_index));
            }
            i += 1;
        }
        (None, None)
    }
}

}
