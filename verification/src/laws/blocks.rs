//! Laws of the blocks, of the characters they show, and of the grid.
use vstd::prelude::*;

use crate::helpers::utils::{
    block_of, block_starts, blocks_started, boundaries_view, change_for, columns_in, header_of,
    law_header_names_owner, shaded, start_of_each, starts_sorted, takes_over, ClassChange,
    RowRelation,
};
use crate::unicode::char_list_model::{
    displayable_codes, excluded, filtered_index, flat_codes, law_displayable_codes, nth_char,
    ranges_of,
};
use crate::unicode::unicode_entry::plane_of;
use crate::unicode::unicode_set::{entry_of_row, holds_first, kept_sections, sections_ascend};
use crate::unicode::UnicodeEntry;

verus! {

/// The characters that are no controls, by number.
pub open spec fn visible(code: int) -> bool {
    0x20 <= code <= 0x7E || 0xA0 <= code <= 0xD7FF || 0xE000 <= code <= 0x10FFFF
}

/// The displayable codepoints of a range are the characters in it that are no
/// controls, each once and in ascending order.
pub proof fn law_displayable_are_visible(start: int, end: int)
    requires
        0 <= start,
    ensures
        forall|c: int|
            #[trigger] displayable_codes(start, end).contains(c) <==> start <= c <= end && visible(
                c,
            ),
        forall|i: int, j: int|
            0 <= i < j < displayable_codes(start, end).len() ==> displayable_codes(start, end)[i]
                < displayable_codes(start, end)[j],
{
    law_displayable_codes(start, end);
    assert forall|c: int| #[trigger] displayable_codes(start, end).contains(c) <==> start <= c
        <= end && visible(c) by {
        assert(0 <= c ==> (excluded(c) <==> !visible(c)));
    }
}

/// The character at a place of a range's displayable codepoints is that codepoint.
/// Past their end there is none.
pub proof fn law_nth_is_the_codepoint(start: int, end: int, i: int)
    requires
        0 <= start,
    ensures
        0 <= i < displayable_codes(start, end).len() ==> nth_char(
            displayable_codes(start, end),
            i,
        ) is Some && nth_char(displayable_codes(start, end), i)->0 as int == displayable_codes(
            start,
            end,
        )[i],
        !(0 <= i < displayable_codes(start, end).len()) ==> nth_char(
            displayable_codes(start, end),
            i,
        ) is None,
{
    law_displayable_are_visible(start, end);
    if 0 <= i < displayable_codes(start, end).len() {
        assert(displayable_codes(start, end).contains(displayable_codes(start, end)[i]));
    }
}

/// The character at a place of any list of codepoints is the codepoint there, if
/// there is one and it is a character.
pub proof fn law_list_holds_its_characters(codes: Seq<int>, i: int)
    ensures
        nth_char(codes, i) is Some <==> 0 <= i < codes.len() && (0 <= codes[i] <= 0xD7FF || 0xE000
            <= codes[i] <= 0x10FFFF),
        nth_char(codes, i) is Some ==> nth_char(codes, i)->0 as int == codes[i],
{
}

/// A codepoint of a range has a place among the displayable ones exactly if it is
/// visible, and as many visible ones come before it as its place says.
pub proof fn law_place_counts_before(start: int, end: int, offset: int)
    requires
        0 <= start,
    ensures
        filtered_index(start, end, offset) is Some <==> 0 <= offset <= end - start && visible(
            start + offset,
        ),
        filtered_index(start, end, offset) is Some ==> filtered_index(start, end, offset)->0
            == displayable_codes(start, start + offset - 1).len(),
{
    assert(offset >= 0 ==> (excluded(start + offset) <==> !visible(start + offset)));
}

/// The flat list of ranges and more ranges is that of the ones followed by that of
/// the others; one range gives its displayable codepoints, and no range nothing.
pub proof fn law_flat_list_follows_the_ranges(
    first: Seq<(u32, u32)>,
    second: Seq<(u32, u32)>,
    range: (u32, u32),
)
    ensures
        flat_codes(first + second) == flat_codes(first) + flat_codes(second),
        flat_codes(seq![range]) == displayable_codes(range.0 as int, range.1 as int),
        flat_codes(Seq::empty()) == Seq::<int>::empty(),
    decreases second.len(),
{
    let one = seq![range];
    assert(one.drop_last() =~= Seq::<(u32, u32)>::empty());
    assert(flat_codes(one.drop_last()) =~= Seq::<int>::empty());
    assert(flat_codes(one) =~= displayable_codes(range.0 as int, range.1 as int));
    if second.len() > 0 {
        let fewer = second.drop_last();
        law_flat_list_follows_the_ranges(first, fewer, range);
        assert((first + second).drop_last() =~= first + fewer);
        assert((first + second).last() == second.last());
        let tail = displayable_codes(second.last().0 as int, second.last().1 as int);
        assert((flat_codes(first) + flat_codes(fewer)) + tail =~= flat_codes(first) + (flat_codes(
            fewer,
        ) + tail));
    } else {
        assert(first + second =~= first);
        assert(flat_codes(first) + Seq::<int>::empty() =~= flat_codes(first));
    }
}

/// The ranges of blocks are their first and last codepoints, block by block.
pub proof fn law_ranges_are_those_of_the_blocks(sections: Seq<UnicodeEntry>)
    ensures
        ranges_of(sections).len() == sections.len(),
        forall|i: int|
            0 <= i < sections.len() ==> #[trigger] ranges_of(sections)[i] == (
                sections[i].start_index,
                sections[i].end_index,
            ),
{
}

/// A block of a row holds the codepoints of the row's range, has its label, lies in
/// the plane of its first codepoint, and is taken in.
pub proof fn law_blocks_are_rows(entry: UnicodeEntry, row: (u32, u32, Seq<char>), code: u32)
    requires
        entry_of_row(entry, row),
        row.0 <= row.1 <= 0x10FFFF,
    ensures
        entry.start_index <= code <= entry.end_index <==> row.0 <= code <= row.1,
        entry.start_index == row.0 && entry.end_index == row.1,
        entry.description@ == row.2,
        entry.code_plan * 0x1_0000 <= row.0 < (entry.code_plan + 1) * 0x1_0000,
        entry.included,
{
}

/// Of ascending blocks the one that is found for a codepoint is the one that holds
/// it, and it is found wherever it stands.
pub proof fn law_block_of_a_codepoint(sections: Seq<UnicodeEntry>, code: u32, k: int)
    requires
        sections_ascend(sections),
    ensures
        holds_first(sections, code, k) <==> 0 <= k < sections.len() && sections[k].start_index
            <= code <= sections[k].end_index,
{
    if 0 <= k < sections.len() && sections[k].start_index <= code <= sections[k].end_index {
        assert forall|j: int| 0 <= j < k implies !((#[trigger] sections[j]).start_index <= code
            <= sections[j].end_index) by {
            assert(sections[j].end_index < sections[k].start_index);
        }
    }
}

/// Keeping blocks looks at each with its own flag: a further block is kept after
/// the others, or left out, and the others are kept as before.
pub proof fn law_keeping_goes_by_the_flag(
    sections: Seq<UnicodeEntry>,
    keep: Seq<bool>,
    entry: UnicodeEntry,
    flag: bool,
)
    requires
        keep.len() == sections.len(),
    ensures
        kept_sections(Seq::empty(), Seq::empty()) == Seq::<UnicodeEntry>::empty(),
        flag ==> kept_sections(sections.push(entry), keep.push(flag)) == kept_sections(
            sections,
            keep,
        ).push(entry),
        !flag ==> kept_sections(sections.push(entry), keep.push(flag)) == kept_sections(
            sections,
            keep,
        ),
{
    assert(sections.push(entry).drop_last() =~= sections);
    lemma_flags_before(sections, keep, flag);
}

/// A flag past the blocks changes nothing.
proof fn lemma_flags_before(sections: Seq<UnicodeEntry>, keep: Seq<bool>, flag: bool)
    requires
        sections.len() <= keep.len(),
    ensures
        kept_sections(sections, keep.push(flag)) == kept_sections(sections, keep),
    decreases sections.len(),
{
    if sections.len() > 0 {
        lemma_flags_before(sections.drop_last(), keep, flag);
        assert(keep.push(flag)[sections.len() - 1] == keep[sections.len() - 1]);
    }
}

/// A description is known exactly if one of the boundaries has it, and it leads to
/// the start of the last one that does.
pub proof fn law_descriptions_lead_to_starts(
    boundaries: Seq<(u32, Seq<char>)>,
    description: Seq<char>,
    i: int,
)
    ensures
        start_of_each(boundaries).contains_key(description) <==> exists|k: int|
            0 <= k < boundaries.len() && (#[trigger] boundaries[k]).1 == description,
        0 <= i < boundaries.len() && (forall|k: int|
            i < k < boundaries.len() ==> (#[trigger] boundaries[k]).1 != boundaries[i].1)
            ==> start_of_each(boundaries).contains_key(boundaries[i].1) && start_of_each(
            boundaries,
        )[boundaries[i].1] == boundaries[i].0,
    decreases boundaries.len(),
{
    if boundaries.len() > 0 {
        let fewer = boundaries.drop_last();
        let last = boundaries.len() - 1;
        law_descriptions_lead_to_starts(fewer, description, i);
        let map = start_of_each(boundaries);
        if map.contains_key(description) {
            if boundaries[last].1 != description {
                let k = choose|k: int|
                    0 <= k < fewer.len() && (#[trigger] fewer[k]).1 == description;
                assert(boundaries[k].1 == description);
            }
        }
        if exists|k: int| 0 <= k < boundaries.len() && (#[trigger] boundaries[k]).1 == description {
            let k = choose|k: int|
                0 <= k < boundaries.len() && (#[trigger] boundaries[k]).1 == description;
            if k < last {
                assert(fewer[k].1 == description);
            }
        }
        if 0 <= i < last && (forall|k: int|
            i < k < boundaries.len() ==> (#[trigger] boundaries[k]).1 != boundaries[i].1) {
            assert(boundaries[last].1 != boundaries[i].1);
            assert(fewer[i] == boundaries[i]);
            assert forall|k: int| i < k < fewer.len() implies (#[trigger] fewer[k]).1
                != fewer[i].1 by {
                assert(fewer[k] == boundaries[k]);
            }
        }
    }
}

/// A place lies in the block that starts at or before it and is not followed by
/// one that does.
pub proof fn law_places_lie_in_their_block(
    boundaries: Seq<(u32, Seq<char>)>,
    position: u32,
    i: int,
)
    requires
        starts_sorted(boundaries),
        0 <= i < boundaries.len(),
        boundaries[i].0 <= position,
        i + 1 < boundaries.len() ==> position < boundaries[i + 1].0,
    ensures
        block_of(boundaries, position) == i,
{
    assert forall|k: int| 0 <= k <= i implies (#[trigger] boundaries[k]).0 <= position by {
        if k < i {
            assert(boundaries[k].0 <= boundaries[i].0);
        }
    }
    assert forall|k: int| i < k < boundaries.len() implies (#[trigger] boundaries[k]).0
        > position by {
        if i + 1 < k {
            assert(boundaries[i + 1].0 <= boundaries[k].0);
        }
    }
    lemma_started(boundaries, position, i + 1);
}

/// The number of starts up to a place.
proof fn lemma_started(boundaries: Seq<(u32, Seq<char>)>, position: u32, n: int)
    requires
        0 <= n <= boundaries.len(),
        forall|k: int| 0 <= k < n ==> (#[trigger] boundaries[k]).0 <= position,
        forall|k: int| n <= k < boundaries.len() ==> (#[trigger] boundaries[k]).0 > position,
    ensures
        blocks_started(boundaries, position) == n,
    decreases boundaries.len(),
{
    if boundaries.len() > 0 {
        let fewer = boundaries.drop_last();
        assert forall|k: int| 0 <= k < fewer.len() implies fewer[k] == boundaries[k] by {}
        let last = boundaries[boundaries.len() - 1];
        lemma_started(
            fewer,
            position,
            if n < boundaries.len() {
                n
            } else {
                n - 1
            },
        );
    }
}

/// A further block starts where the ones before it end, if it shows anything. The
/// starts of the others stay.
pub proof fn law_blocks_start_one_after_the_other(
    sections: Seq<UnicodeEntry>,
    entry: UnicodeEntry,
)
    ensures
        block_starts(Seq::empty()) == Seq::<(u32, Seq<char>)>::empty(),
        displayable_codes(entry.start_index as int, entry.end_index as int).len() == 0
            ==> block_starts(sections.push(entry)) == block_starts(sections),
        displayable_codes(entry.start_index as int, entry.end_index as int).len() > 0
            ==> block_starts(sections.push(entry)) == block_starts(sections).push(
            (flat_codes(ranges_of(sections)).len() as u32, entry.description@),
        ),
{
    assert(sections.push(entry).drop_last() =~= sections);
}

/// Boundaries are seen one by one, their descriptions through their characters.
pub proof fn law_boundaries_are_seen(boundaries: Seq<(u32, String)>)
    ensures
        boundaries_view(boundaries).len() == boundaries.len(),
        forall|i: int|
            0 <= i < boundaries.len() ==> #[trigger] boundaries_view(boundaries)[i] == (
                boundaries[i].0,
                boundaries[i].1@,
            ),
{
}

/// The first block is not shaded, and of two neighbouring blocks one is and the
/// other is not.
pub proof fn law_neighbours_differ_in_shade(
    boundaries: Seq<(u32, Seq<char>)>,
    here: u32,
    there: u32,
    i: int,
)
    requires
        starts_sorted(boundaries),
        0 <= i < boundaries.len() - 1,
        boundaries[i].0 <= here < boundaries[i + 1].0 <= there,
        i + 2 < boundaries.len() ==> there < boundaries[i + 2].0,
    ensures
        shaded(boundaries, here) != shaded(boundaries, there),
        i == 0 ==> !shaded(boundaries, here),
{
    law_places_lie_in_their_block(boundaries, here, i);
    law_places_lie_in_their_block(boundaries, there, i + 1);
}

/// Applying the change makes a class be there exactly if it is wanted, and nothing
/// is done where that is so already.
pub proof fn law_class_changes(wanted: bool, present: bool)
    ensures
        wanted == (match change_for(wanted, present) {
            ClassChange::Add => true,
            ClassChange::Remove => false,
            ClassChange::Keep => present,
        }),
        change_for(wanted, present) is Keep <==> wanted == present,
        change_for(wanted, present) is Add ==> !present,
        change_for(wanted, present) is Remove ==> present,
{
}

/// The first cell is taken; later a higher one is, and one of the same row if it
/// stands further left, so of two cells of one row never both take over from each
/// other.
pub proof fn law_top_cells(a: u32, b: u32)
    ensures
        takes_over(None, a),
        takes_over(Some((RowRelation::Above, b)), a),
        !takes_over(Some((RowRelation::Below, b)), a),
        a != b ==> (takes_over(Some((RowRelation::Same, b)), a) <==> !takes_over(
            Some((RowRelation::Same, a)),
            b,
        )),
        takes_over(Some((RowRelation::Same, b)), a) <==> a < b,
{
}

/// As many columns are taken as fit side by side, one more would not fit, but never
/// less than one or more than a hundred.
pub proof fn law_columns_fit_the_width(width: int, cell_size: int)
    requires
        cell_size > 0,
    ensures
        1 <= columns_in(width, cell_size) <= 100,
        columns_in(width, cell_size) > 1 ==> columns_in(width, cell_size) * cell_size <= width,
        columns_in(width, cell_size) < 100 ==> width < (columns_in(width, cell_size) + 1)
            * cell_size,
{
    let n = columns_in(width, cell_size);
    if width < cell_size {
        assert(2 * cell_size > width) by (nonlinear_arith)
            requires
                width < cell_size,
                cell_size > 0,
        ;
    } else {
        let q = width / cell_size;
        assert(q * cell_size <= width < (q + 1) * cell_size && q >= 1) by (nonlinear_arith)
            requires
                q == width / cell_size,
                width >= cell_size > 0,
        ;
        if q > 100 {
            assert(100 * cell_size <= width) by (nonlinear_arith)
                requires
                    q > 100,
                    q * cell_size <= width,
                    cell_size > 0,
            ;
        }
    }
}

/// The header for a place of the grid names a block that has the character at that
/// place among its displayable ones.
pub proof fn law_header_names_the_characters_block(sections: Seq<UnicodeEntry>, position: u32)
    requires
        position < flat_codes(ranges_of(sections)).len() <= u32::MAX,
    ensures
        exists|k: int|
            0 <= k < sections.len() && header_of(block_starts(sections), position) == Some(
                (#[trigger] sections[k]).description@,
            ) && sections[k].start_index <= flat_codes(ranges_of(sections))[position as int]
                <= sections[k].end_index,
        header_of(Seq::empty(), position) is None,
{
    let k = law_header_names_owner(sections, position);
    law_displayable_are_visible(sections[k].start_index as int, sections[k].end_index as int);
    assert(header_of(block_starts(sections), position) == Some(sections[k].description@));
}

/// A codepoint lies in its plane, one of those of 65536 codepoints each.
pub proof fn law_planes(code: u32)
    requires
        code <= 0x10FFFF,
    ensures
        plane_of(code) * 0x1_0000 <= code < (plane_of(code) + 1) * 0x1_0000,
        plane_of(code) <= 16,
{
}

}
