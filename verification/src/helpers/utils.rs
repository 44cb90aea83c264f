//! Where the blocks lie in the grid, and what the grid shows of its cells.
use vstd::prelude::*;
use vstd::hash_map::StringHashMap;

use crate::text::is_scalar;
use crate::unicode::char_list_model::{
    displayable_codes, displayable_count, flat_codes, lemma_flat_grows, lemma_flat_part, ranges_of,
};
use crate::unicode::{UnicodeCharModel, UnicodeEntry};

verus! {

/// Block boundaries, their descriptions seen as character sequences.
pub open spec fn boundaries_view(boundaries: Seq<(u32, String)>) -> Seq<(u32, Seq<char>)> {
    boundaries.map_values(|b: (u32, String)| (b.0, b.1@))
}

/// The place in the flat list at which each block that shows anything starts,
/// with the block's description, in order.
pub open spec fn block_starts(sections: Seq<UnicodeEntry>) -> Seq<(u32, Seq<char>)>
    decreases sections.len(),
{
    if sections.len() == 0 {
        Seq::empty()
    } else {
        let before = block_starts(sections.drop_last());
        let entry = sections.last();
        if displayable_codes(entry.start_index as int, entry.end_index as int).len() == 0 {
            before
        } else {
            before.push(
                (
                    flat_codes(ranges_of(sections.drop_last())).len() as u32,
                    entry.description@,
                ),
            )
        }
    }
}

/// Each description with the place at which its block starts; of several
/// blocks with one description the last one counts.
pub open spec fn start_of_each(boundaries: Seq<(u32, Seq<char>)>) -> Map<Seq<char>, u32>
    decreases boundaries.len(),
{
    if boundaries.len() == 0 {
        Map::empty()
    } else {
        start_of_each(boundaries.drop_last()).insert(boundaries.last().1, boundaries.last().0)
    }
}

/// Builds the grid's flat data store: a lazy `UnicodeCharModel` that
/// resolves codepoints on demand.
pub fn build_unicode_store(sections: &[UnicodeEntry]) -> (store: UnicodeCharModel)
    requires
        flat_codes(ranges_of(sections@)).len() <= u32::MAX,
    ensures
        store@ == flat_codes(ranges_of(sections@)),
{
    UnicodeCharModel::new(sections)
}

/// Computes block description -> flat start position, and the sorted list
/// of flat-position -> block boundaries, mirroring the grid's model order.
pub fn compute_positions_boundaries(sections: &[UnicodeEntry]) -> (r: (
    StringHashMap<u32>,
    Vec<(u32, String)>,
))
    requires
        flat_codes(ranges_of(sections@)).len() <= u32::MAX,
    ensures
        boundaries_view(r.1@) == block_starts(sections@),
        r.0@ == start_of_each(block_starts(sections@)),
{
    let ghost all = ranges_of(sections@);
    let mut positions: StringHashMap<u32> = StringHashMap::new();
    let mut boundaries: Vec<(u32, String)> = Vec::new();
    let mut position: u32 = 0;
    let mut i: usize = 0;
    proof {
        assert(sections@.take(0) =~= Seq::<UnicodeEntry>::empty());
        assert(all.take(0) =~= Seq::<(u32, u32)>::empty());
        assert(boundaries_view(boundaries@) =~= Seq::empty());
    }
    while i < sections.len()
        invariant
            i <= sections@.len(),
            all == ranges_of(sections@),
            flat_codes(all).len() <= u32::MAX,
            position == flat_codes(all.take(i as int)).len(),
            boundaries_view(boundaries@) == block_starts(sections@.take(i as int)),
            positions@ == start_of_each(block_starts(sections@.take(i as int))),
        decreases sections@.len() - i,
    {
        let count: u32 = displayable_count(sections[i].start_index, sections[i].end_index);
        let ghost before = boundaries_view(boundaries@);
        proof {
            assert(sections@.take(i + 1).drop_last() =~= sections@.take(i as int));
            assert(ranges_of(sections@.take(i as int)) =~= all.take(i as int));
            lemma_flat_part(all, i as int);
        }
        if count != 0 {
            positions.insert(sections[i].description.clone(), position);
            boundaries.push((position, sections[i].description.clone()));
            proof {
                let last = (position, sections@[i as int].description@);
                assert(boundaries_view(boundaries@) =~= before.push(last));
                assert(before.push(last).drop_last() =~= before);
            }
            position += count;
        }
        i += 1;
    }
    assert(sections@.take(i as int) =~= sections@);
    (positions, boundaries)
}

/// The description -> start position table of some boundaries.
pub fn positions_of(boundaries: &[(u32, String)]) -> (positions: StringHashMap<u32>)
    ensures
        positions@ == start_of_each(boundaries_view(boundaries@)),
{
    let ghost seen = boundaries_view(boundaries@);
    let mut positions: StringHashMap<u32> = StringHashMap::new();
    let mut i: usize = 0;
    assert(seen.take(0) =~= Seq::<(u32, Seq<char>)>::empty());
    while i < boundaries.len()
        invariant
            i <= boundaries@.len(),
            seen == boundaries_view(boundaries@),
            positions@ == start_of_each(seen.take(i as int)),
        decreases boundaries@.len() - i,
    {
        positions.insert(boundaries[i].1.clone(), boundaries[i].0);
        i += 1;
        assert(seen.take(i as int).drop_last() =~= seen.take(i - 1));
    }
    assert(seen.take(i as int) =~= seen);
    positions
}

/// The starts do not descend.
pub open spec fn starts_sorted(boundaries: Seq<(u32, Seq<char>)>) -> bool {
    forall|i: int, j: int|
        0 <= i < j < boundaries.len() ==> (#[trigger] boundaries[i]).0 <= (
        #[trigger] boundaries[j]).0
}

/// How many blocks start at or before a place.
pub open spec fn blocks_started(boundaries: Seq<(u32, Seq<char>)>, position: u32) -> nat
    decreases boundaries.len(),
{
    if boundaries.len() == 0 {
        0
    } else {
        blocks_started(boundaries.drop_last(), position) + (if boundaries.last().0 <= position {
            1nat
        } else {
            0nat
        })
    }
}

/// The block that a place lies in: the last one that starts at or before it.
pub open spec fn block_of(boundaries: Seq<(u32, Seq<char>)>, position: u32) -> int {
    let started = blocks_started(boundaries, position);
    if started == 0 {
        0
    } else {
        started - 1
    }
}

/// Counting the starts up to a place finds where they pass it.
proof fn lemma_blocks_started(boundaries: Seq<(u32, Seq<char>)>, position: u32, n: int)
    requires
        0 <= n <= boundaries.len(),
        forall|k: int| 0 <= k < n ==> (#[trigger] boundaries[k]).0 <= position,
        forall|k: int| n <= k < boundaries.len() ==> (#[trigger] boundaries[k]).0 > position,
    ensures
        blocks_started(boundaries, position) == n,
    decreases boundaries.len(),
{
    if boundaries.len() > 0 {
        if n < boundaries.len() {
            lemma_blocks_started(boundaries.drop_last(), position, n);
        } else {
            lemma_blocks_started(boundaries.drop_last(), position, n - 1);
        }
    }
}

/// The index of the block that a place of the flat list lies in.
pub fn block_index(boundaries: &[(u32, String)], position: u32) -> (index: usize)
    requires
        starts_sorted(boundaries_view(boundaries@)),
    ensures
        index == block_of(boundaries_view(boundaries@), position),
        boundaries@.len() > 0 ==> index < boundaries@.len(),
{
    let ghost seen = boundaries_view(boundaries@);
    let mut low: usize = 0;
    let mut high: usize = boundaries.len();
    while low < high
        invariant
            seen == boundaries_view(boundaries@),
            starts_sorted(seen),
            low <= high <= boundaries@.len(),
            forall|k: int| 0 <= k < low ==> (#[trigger] seen[k]).0 <= position,
            forall|k: int| high <= k < seen.len() ==> (#[trigger] seen[k]).0 > position,
        decreases high - low,
    {
        let middle: usize = low + (high - low) / 2;
        assert(seen[middle as int].0 == boundaries@[middle as int].0);
        if boundaries[middle].0 <= position {
            low = middle + 1;
        } else {
            high = middle;
        }
    }
    proof {
        lemma_blocks_started(seen, position, low as int);
    }
    if low == 0 {
        0
    } else {
        low - 1
    }
}

/// The header for a place: the description of its block, if there are blocks.
pub open spec fn header_of(boundaries: Seq<(u32, Seq<char>)>, position: u32) -> Option<Seq<char>> {
    if boundaries.len() == 0 {
        None
    } else {
        Some(boundaries[block_of(boundaries, position)].1)
    }
}

/// The description to show for the place at the top of the view: that of the
/// block the place lies in. Without blocks there is none.
pub fn sticky_header(boundaries: &[(u32, String)], position: u32) -> (header: Option<String>)
    requires
        starts_sorted(boundaries_view(boundaries@)),
    ensures
        match header {
            Some(text) => header_of(boundaries_view(boundaries@), position) == Some(text@),
            None => header_of(boundaries_view(boundaries@), position) is None,
        },
        boundaries@.len() == 0 ==> header is None,
        boundaries@.len() > 0 ==> header is Some && header->0@ == boundaries_view(
            boundaries@,
        )[block_of(boundaries_view(boundaries@), position)].1,
{
    if boundaries.len() == 0 {
        return None;
    }
    let index: usize = block_index(boundaries, position);
    Some(boundaries[index].1.clone())
}

/// A place is shaded: every second block is, the first one is not.
pub open spec fn shaded(boundaries: Seq<(u32, Seq<char>)>, position: u32) -> bool {
    block_of(boundaries, position) % 2 == 1
}

/// Whether a cell has the shade of every second block.
pub fn is_alternate_block(boundaries: &[(u32, String)], position: u32) -> (r: bool)
    requires
        starts_sorted(boundaries_view(boundaries@)),
    ensures
        r == shaded(boundaries_view(boundaries@), position),
        r == (block_of(boundaries_view(boundaries@), position) % 2 == 1),
{
    block_index(boundaries, position) % 2 == 1
}

/// The blocks start at ascending places, the first of them at the beginning.
pub proof fn law_boundaries_ascend(sections: Seq<UnicodeEntry>)
    requires
        flat_codes(ranges_of(sections)).len() <= u32::MAX,
    ensures
        block_starts(sections).len() > 0 ==> block_starts(sections)[0].0 == 0,
        forall|i: int, j: int|
            0 <= i < j < block_starts(sections).len() ==> (#[trigger] block_starts(sections)[i]).0
                < (#[trigger] block_starts(sections)[j]).0,
        forall|i: int|
            0 <= i < block_starts(sections).len() ==> (#[trigger] block_starts(sections)[i]).0
                < flat_codes(ranges_of(sections)).len(),
        starts_sorted(block_starts(sections)),
    decreases sections.len(),
{
    if sections.len() > 0 {
        let fewer = sections.drop_last();
        let ranges = ranges_of(sections);
        assert(ranges.drop_last() =~= ranges_of(fewer));
        law_boundaries_ascend(fewer);
        let before = block_starts(fewer);
        let now = block_starts(sections);
        if before.len() == 0 {
            lemma_no_blocks(fewer);
        }
        assert forall|i: int, j: int| 0 <= i < j < now.len() implies (#[trigger] now[i]).0 < (
        #[trigger] now[j]).0 by {
            assert(now[i] == before[i]);
            if j < before.len() {
                assert(now[j] == before[j]);
            }
        }
    }
}

/// Where no block shows anything the flat list is empty.
proof fn lemma_no_blocks(sections: Seq<UnicodeEntry>)
    requires
        block_starts(sections).len() == 0,
    ensures
        flat_codes(ranges_of(sections)).len() == 0,
    decreases sections.len(),
{
    if sections.len() > 0 {
        let ranges = ranges_of(sections);
        assert(ranges.drop_last() =~= ranges_of(sections.drop_last()));
        lemma_no_blocks(sections.drop_last());
    }
}

/// The blocks of the boundaries are those of the grid's model, in its order: at
/// the place where a block starts, and from there on as far as the block goes,
/// the flat list holds the block's characters.
pub proof fn law_boundaries_mirror_model(sections: Seq<UnicodeEntry>, i: int) -> (k: int)
    requires
        flat_codes(ranges_of(sections)).len() <= u32::MAX,
        0 <= i < block_starts(sections).len(),
    ensures
        0 <= k < sections.len(),
        block_starts(sections)[i].1 == sections[k].description@,
        ({
            let from = block_starts(sections)[i].0;
            let codes = displayable_codes(
                sections[k].start_index as int,
                sections[k].end_index as int,
            );
            &&& codes.len() > 0
            &&& from == flat_codes(ranges_of(sections).take(k)).len()
            &&& from + codes.len() <= flat_codes(ranges_of(sections)).len()
            &&& from + codes.len() == (if i + 1 < block_starts(sections).len() {
                block_starts(sections)[i + 1].0 as nat
            } else {
                flat_codes(ranges_of(sections)).len()
            })
            &&& forall|j: int|
                0 <= j < codes.len() ==> #[trigger] flat_codes(ranges_of(sections))[from + j]
                    == codes[j]
        }),
    decreases sections.len(),
{
    let fewer = sections.drop_last();
    let ranges = ranges_of(sections);
    let before = block_starts(fewer);
    assert(ranges.drop_last() =~= ranges_of(fewer));
    lemma_flat_grows(ranges, fewer.len() as int);
    assert(ranges.take(fewer.len() as int) =~= ranges_of(fewer));
    if i < before.len() {
        assert(block_starts(sections)[i] == before[i]);
        let k = law_boundaries_mirror_model(fewer, i);
        assert(ranges_of(fewer).take(k) =~= ranges.take(k));
        lemma_flat_part(ranges, k);
        k
    } else {
        let k = sections.len() - 1;
        lemma_flat_part(ranges, k);
        k
    }
}

/// The block named for a place of the grid holds the character at that place.
pub proof fn law_header_names_owner(sections: Seq<UnicodeEntry>, position: u32) -> (k: int)
    requires
        position < flat_codes(ranges_of(sections)).len() <= u32::MAX,
    ensures
        0 <= k < sections.len(),
        block_starts(sections).len() > 0,
        block_starts(sections)[block_of(block_starts(sections), position)].1
            == sections[k].description@,
        displayable_codes(
            sections[k].start_index as int,
            sections[k].end_index as int,
        ).contains(flat_codes(ranges_of(sections))[position as int]),
{
    let starts = block_starts(sections);
    law_boundaries_ascend(sections);
    if starts.len() == 0 {
        lemma_no_blocks(sections);
    }
    let n = lemma_pass_point(starts, position);
    lemma_blocks_started(starts, position, n);
    let i = n - 1;
    let k = law_boundaries_mirror_model(sections, i);
    let codes = displayable_codes(sections[k].start_index as int, sections[k].end_index as int);
    let j = position - starts[i].0;
    if i + 1 < starts.len() {
        assert(starts[i + 1].0 > position);
    }
    assert(flat_codes(ranges_of(sections))[starts[i].0 + j] == codes[j]);
    k
}

/// Where sorted starts pass a place.
proof fn lemma_pass_point(boundaries: Seq<(u32, Seq<char>)>, position: u32) -> (n: int)
    requires
        starts_sorted(boundaries),
    ensures
        0 <= n <= boundaries.len(),
        forall|k: int| 0 <= k < n ==> (#[trigger] boundaries[k]).0 <= position,
        forall|k: int| n <= k < boundaries.len() ==> (#[trigger] boundaries[k]).0 > position,
    decreases boundaries.len(),
{
    if boundaries.len() == 0 {
        0
    } else if boundaries.last().0 <= position {
        let last = boundaries.len() - 1;
        assert forall|k: int| 0 <= k < boundaries.len() implies (#[trigger] boundaries[k]).0
            <= position by {
            if k < last {
                assert(boundaries[k].0 <= boundaries[last].0);
            }
        }
        boundaries.len() as int
    } else {
        let fewer = boundaries.drop_last();
        let n = lemma_pass_point(fewer, position);
        assert forall|k: int| 0 <= k < n implies (#[trigger] boundaries[k]).0 <= position by {
            assert(fewer[k] == boundaries[k]);
        }
        assert forall|k: int| n <= k < boundaries.len() implies (#[trigger] boundaries[k]).0
            > position by {
            if k < fewer.len() {
                assert(fewer[k] == boundaries[k]);
            }
        }
        n
    }
}

/// What a font that is asked by `has_char` has for the characters in
/// `start..=end`: a glyph for one of them at least, or for none.
pub open spec fn covers_as<F: Fn(char) -> bool>(
    has_char: F,
    start: u32,
    end: u32,
    covered: bool,
) -> bool {
    if covered {
        exists|c: char|
            start <= c as u32 <= end && is_scalar(c as int) && #[trigger] has_char.ensures(
                (c,),
                true,
            )
    } else {
        forall|c: char|
            start <= c as u32 <= end && is_scalar(c as int) ==> #[trigger] has_char.ensures(
                (c,),
                false,
            )
    }
}

/// Whether a font has a glyph for at least one codepoint in the inclusive
/// `start..=end` range. `has_char` asks the font.
pub fn font_covers_range<F: Fn(char) -> bool>(has_char: &F, start: u32, end: u32) -> (r: bool)
    requires
        forall|c: char| #[trigger] has_char.requires((c,)),
    ensures
        covers_as(*has_char, start, end, r),
{
    if start > end {
        return false;
    }
    let mut code: u32 = start;
    loop
        invariant
            forall|c: char| #[trigger] has_char.requires((c,)),
            start <= code <= end,
            forall|c: char|
                start <= (c as u32) < code && is_scalar(c as int) ==> #[trigger] has_char.ensures(
                    (c,),
                    false,
                ),
        decreases end - code,
    {
        if let Some(ch) = char::from_u32(code) {
            if has_char(ch) {
                return true;
            }
        }
        if code == end {
            return false;
        }
        code += 1;
    }
}

/// Which of some blocks a font covers. Without a font none is covered.
pub fn covered_sections<F: Fn(char) -> bool>(
    sections: &[UnicodeEntry],
    has_char: &Option<F>,
) -> (covered: Vec<bool>)
    requires
        forall|c: char| has_char is Some ==> #[trigger] has_char->0.requires((c,)),
    ensures
        covered@.len() == sections@.len(),
        forall|i: int|
            0 <= i < covered@.len() ==> (match has_char {
                Some(has_char) => covers_as(
                    *has_char,
                    sections@[i].start_index,
                    sections@[i].end_index,
                    #[trigger] covered@[i],
                ),
                None => !covered@[i],
            }),
{
    let mut covered: Vec<bool> = Vec::new();
    let mut i: usize = 0;
    while i < sections.len()
        invariant
            i <= sections@.len(),
            covered@.len() == i,
            forall|c: char| has_char is Some ==> #[trigger] has_char->0.requires((c,)),
            forall|k: int|
                0 <= k < i ==> (match has_char {
                    Some(has_char) => covers_as(
                        *has_char,
                        sections@[k].start_index,
                        sections@[k].end_index,
                        #[trigger] covered@[k],
                    ),
                    None => !covered@[k],
                }),
        decreases sections@.len() - i,
    {
        let covers = match has_char {
            Some(has_char) => font_covers_range(
                has_char,
                sections[i].start_index,
                sections[i].end_index,
            ),
            None => false,
        };
        covered.push(covers);
        i += 1;
    }
    covered
}

/// Whether a cell shows that the font lacks its character: there is a font and a
/// character, and the one has no glyph for the other.
pub fn lacks_glyph<F: Fn(char) -> bool>(has_char: &Option<F>, ch: Option<char>) -> (r: bool)
    requires
        forall|c: char| has_char is Some ==> #[trigger] has_char->0.requires((c,)),
    ensures
        r ==> has_char is Some && ch is Some && has_char->0.ensures((ch->0,), false),
        has_char is None || ch is None ==> !r,
        has_char is Some && ch is Some ==> has_char->0.ensures((ch->0,), !r),
{
    match (has_char, ch) {
        (Some(has_char), Some(ch)) => !has_char(ch),
        _ => false,
    }
}

/// What to do to a CSS class of a cell.
#[derive(Debug, Clone, Copy, PartialEq, Eq, Structural)]
pub enum ClassChange {
    Add,
    Remove,
    Keep,
}

/// The change from a class that is there or not to one that is wanted or not.
pub open spec fn change_for(wanted: bool, present: bool) -> ClassChange {
    if wanted == present {
        ClassChange::Keep
    } else if wanted {
        ClassChange::Add
    } else {
        ClassChange::Remove
    }
}

/// The change that gives a cell a class, or takes it away, where that is needed.
pub fn class_change(wanted: bool, present: bool) -> (change: ClassChange)
    ensures
        change == change_for(wanted, present),
        wanted && !present ==> change == ClassChange::Add,
        !wanted && present ==> change == ClassChange::Remove,
        wanted == present ==> change == ClassChange::Keep,
{
    if wanted {
        if !present {
            ClassChange::Add
        } else {
            ClassChange::Keep
        }
    } else if present {
        ClassChange::Remove
    } else {
        ClassChange::Keep
    }
}

/// The row of a cell, compared with that of another one.
#[derive(Debug, Clone, Copy, PartialEq, Eq, Structural)]
pub enum RowRelation {
    Above,
    Same,
    Below,
}

/// A visible cell takes the place of the best one so far as the top-most cell.
pub open spec fn takes_over(best: Option<(RowRelation, u32)>, position: u32) -> bool {
    match best {
        None => true,
        Some((RowRelation::Above, _)) => true,
        Some((RowRelation::Same, best_position)) => position < best_position,
        Some((RowRelation::Below, _)) => false,
    }
}

/// Whether a visible cell takes the place of the best one so far as the top-most
/// cell. Ties within a row prefer the left-most.
pub fn is_better_top_cell(best: Option<(RowRelation, u32)>, position: u32) -> (replace: bool)
    ensures
        replace == takes_over(best, position),
        replace == (match best {
            None => true,
            Some((relation, best_position)) => relation is Above || relation is Same && position
                < best_position,
        }),
{
    match best {
        None => true,
        Some((relation, best_position)) => match relation {
            RowRelation::Above => true,
            RowRelation::Same => position < best_position,
            RowRelation::Below => false,
        },
    }
}

/// The largest number of a list, and at least the given one.
pub open spec fn largest(numbers: Seq<u32>, least: u32) -> u32
    decreases numbers.len(),
{
    if numbers.len() == 0 {
        least
    } else {
        let before = largest(numbers.drop_last(), least);
        if numbers.last() > before {
            numbers.last()
        } else {
            before
        }
    }
}

/// The number of columns of the grid, from the number of cells in each of its
/// rows: a full row has the maximum cell count. `None` if too few rows are
/// realized to measure.
pub fn grid_columns(cells_per_row: &[u32]) -> (columns: Option<u32>)
    ensures
        columns == (if cells_per_row@.len() < 2 {
            None
        } else {
            Some(largest(cells_per_row@, 1))
        }),
{
    if cells_per_row.len() < 2 {
        return None;
    }
    let mut columns: u32 = 1;
    let mut i: usize = 0;
    assert(cells_per_row@.take(0) =~= Seq::<u32>::empty());
    while i < cells_per_row.len()
        invariant
            i <= cells_per_row@.len(),
            columns == largest(cells_per_row@.take(i as int), 1),
        decreases cells_per_row@.len() - i,
    {
        assert(cells_per_row@.take(i + 1).drop_last() =~= cells_per_row@.take(i as int));
        if cells_per_row[i] > columns {
            columns = cells_per_row[i];
        }
        i += 1;
    }
    assert(cells_per_row@.take(i as int) =~= cells_per_row@);
    Some(columns)
}

/// No row has more cells than the grid has columns, and there is one at least.
pub proof fn law_columns_fit_rows(cells_per_row: Seq<u32>)
    ensures
        largest(cells_per_row, 1) >= 1,
        forall|i: int|
            0 <= i < cells_per_row.len() ==> #[trigger] cells_per_row[i] <= largest(
                cells_per_row,
                1,
            ),
        largest(cells_per_row, 1) > 1 ==> cells_per_row.contains(largest(cells_per_row, 1)),
    decreases cells_per_row.len(),
{
    if cells_per_row.len() > 0 {
        let fewer = cells_per_row.drop_last();
        law_columns_fit_rows(fewer);
        assert forall|i: int| 0 <= i < cells_per_row.len() implies #[trigger] cells_per_row[i]
            <= largest(cells_per_row, 1) by {
            if i < fewer.len() {
                assert(fewer[i] == cells_per_row[i]);
            }
        }
        if largest(cells_per_row, 1) > 1 {
            if fewer.contains(largest(cells_per_row, 1)) {
                let j = choose|j: int|
                    0 <= j < fewer.len() && fewer[j] == largest(cells_per_row, 1);
                assert(cells_per_row[j] == largest(cells_per_row, 1));
            } else {
                assert(cells_per_row[cells_per_row.len() - 1] == largest(cells_per_row, 1));
            }
        }
    }
}

/// The number of columns that fit into a width, between one and a hundred.
pub open spec fn columns_in(width: int, cell_size: int) -> int {
    if width < cell_size {
        1
    } else if width / cell_size > 100 {
        100
    } else {
        width / cell_size
    }
}

/// The number of columns that fit into a width, when the grid cannot be measured:
/// at least one, and no more than the grid allows.
pub fn fallback_columns(width: i32, cell_size: i32) -> (columns: u32)
    requires
        cell_size > 0,
    ensures
        columns == columns_in(width as int, cell_size as int),
        columns == (if width < cell_size {
            1
        } else if width as int / cell_size as int > 100 {
            100
        } else {
            width as int / cell_size as int
        }),
{
    if width < cell_size {
        return 1;
    }
    let fitting: u32 = (width as u32) / (cell_size as u32);
    if fitting > 100 {
        100
    } else {
        proof {
            assert(width as int / cell_size as int >= 1) by (nonlinear_arith)
                requires
                    width >= cell_size > 0,
            ;
        }
        fitting
    }
}

}
