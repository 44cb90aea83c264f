//! The flat list of the characters of a list of blocks, worked out from the
//! blocks' ranges alone: no character is stored.
use vstd::prelude::*;

use super::unicode_entry::UnicodeEntry;
use crate::text::is_scalar;

verus! {

/// The codepoints that are never shown: the controls and the surrogates.
pub const EXCLUDED_RANGES: [(u32, u32); 3] = [(0x00, 0x1F), (0x7F, 0x9F), (0xD800, 0xDFFF)];

/// The last codepoint.
pub const LAST_CODEPOINT: u32 = 0x10_FFFF;

/// A control code.
pub open spec fn control_code(code: int) -> bool {
    0x00 <= code <= 0x1F || 0x7F <= code <= 0x9F
}

/// A number that is never shown: a control, a surrogate, or none of the
/// codepoints, which end at U+10FFFF.
pub open spec fn excluded(code: int) -> bool {
    control_code(code) || 0xD800 <= code <= 0xDFFF || code > LAST_CODEPOINT
}

/// The codepoints of `start..=end` that are shown, in ascending order.
pub open spec fn displayable_codes(start: int, end: int) -> Seq<int>
    decreases end - start + 1,
{
    if start > end {
        Seq::empty()
    } else if excluded(end) {
        displayable_codes(start, end - 1)
    } else {
        displayable_codes(start, end - 1).push(end)
    }
}

/// A range is what lies up to a point of it, followed by what lies after.
pub proof fn lemma_codes_split(start: int, middle: int, end: int)
    requires
        start <= middle + 1,
        middle <= end,
    ensures
        displayable_codes(start, end) == displayable_codes(start, middle) + displayable_codes(
            middle + 1,
            end,
        ),
    decreases end - middle,
{
    if middle < end {
        lemma_codes_split(start, middle, end - 1);
        let head = displayable_codes(start, middle);
        let tail = displayable_codes(middle + 1, end - 1);
        assert(head + tail.push(end) =~= (head + tail).push(end));
    } else {
        let head = displayable_codes(start, middle);
        assert(head + Seq::<int>::empty() =~= head);
    }
}

/// A range of excluded codepoints shows nothing.
proof fn lemma_codes_excluded(start: int, end: int)
    requires
        forall|c: int| start <= c <= end ==> #[trigger] excluded(c),
    ensures
        displayable_codes(start, end) == Seq::<int>::empty(),
    decreases end - start + 1,
{
    if start <= end {
        assert(excluded(end));
        lemma_codes_excluded(start, end - 1);
    }
}

/// A range without excluded codepoints shows all of them.
proof fn lemma_codes_plain(start: int, end: int)
    requires
        start <= end + 1,
        forall|c: int| start <= c <= end ==> !#[trigger] excluded(c),
    ensures
        displayable_codes(start, end) == Seq::new((end - start + 1) as nat, |i: int| start + i),
    decreases end - start + 1,
{
    if start <= end {
        assert(!excluded(end));
        lemma_codes_plain(start, end - 1);
        assert(displayable_codes(start, end) =~= Seq::new(
            (end - start + 1) as nat,
            |i: int| start + i,
        ));
    } else {
        assert(displayable_codes(start, end) =~= Seq::new(
            (end - start + 1) as nat,
            |i: int| start + i,
        ));
    }
}

/// The shown codepoints of a range are exactly those in it that are not
/// excluded, and they ascend.
pub proof fn law_displayable_codes(start: int, end: int)
    ensures
        forall|c: int|
            #[trigger] displayable_codes(start, end).contains(c) <==> start <= c <= end
                && !excluded(c),
        forall|i: int, j: int|
            0 <= i < j < displayable_codes(start, end).len() ==> displayable_codes(start, end)[i]
                < displayable_codes(start, end)[j],
    decreases end - start + 1,
{
    let all = displayable_codes(start, end);
    if start <= end {
        law_displayable_codes(start, end - 1);
        let less = displayable_codes(start, end - 1);
        assert forall|i: int| 0 <= i < less.len() implies start <= #[trigger] less[i] < end by {
            assert(less.contains(less[i]));
        }
        assert forall|c: int| #[trigger] all.contains(c) <==> start <= c <= end && !excluded(c) by {
            if start <= c <= end && !excluded(c) {
                if c == end {
                    assert(all[all.len() - 1] == c);
                } else {
                    assert(less.contains(c));
                    let k = choose|k: int| 0 <= k < less.len() && less[k] == c;
                    assert(all[k] == c);
                }
            }
            if all.contains(c) {
                let k = choose|k: int| 0 <= k < all.len() && all[k] == c;
                if k < less.len() {
                    assert(less.contains(less[k]));
                }
            }
        }
    }
}

/// A range shows no more codepoints than it has.
pub proof fn lemma_codes_length(start: int, end: int)
    requires
        start <= end + 1,
    ensures
        displayable_codes(start, end).len() <= end - start + 1,
    decreases end - start + 1,
{
    if start <= end {
        lemma_codes_length(start, end - 1);
    }
}

/// The step past one excluded range, `low..=high`: what lies before it and at or
/// after `cursor` is shown, the range itself is not.
proof fn lemma_codes_step(start: int, cursor: int, low: int, high: int, end: int)
    requires
        start <= cursor <= end,
        forall|c: int| cursor <= c < low ==> !#[trigger] excluded(c),
        forall|c: int| low <= c <= high ==> #[trigger] excluded(c),
        low <= high,
    ensures
        cursor < low <= end ==> displayable_codes(start, low - 1) == displayable_codes(
            start,
            cursor - 1,
        ) + Seq::new((low - cursor) as nat, |i: int| cursor + i),
        cursor < low && end < low ==> displayable_codes(start, end) == displayable_codes(
            start,
            cursor - 1,
        ) + Seq::new((end - cursor + 1) as nat, |i: int| cursor + i),
        low <= end && cursor < low && high <= end ==> displayable_codes(start, high)
            == displayable_codes(start, low - 1),
        low <= end && cursor < low && end < high ==> displayable_codes(start, end)
            == displayable_codes(start, low - 1),
        low <= cursor <= high && high <= end ==> displayable_codes(start, high)
            == displayable_codes(start, cursor - 1),
        low <= cursor <= high && end < high ==> displayable_codes(start, end)
            == displayable_codes(start, cursor - 1),
{
    let before = displayable_codes(start, cursor - 1);
    let none = Seq::<int>::empty();
    if cursor < low {
        let last = if low <= end {
            low - 1
        } else {
            end
        };
        lemma_codes_split(start, cursor - 1, last);
        lemma_codes_plain(cursor, last);
        if low <= end {
            let top = if high <= end {
                high
            } else {
                end
            };
            lemma_codes_split(start, low - 1, top);
            lemma_codes_excluded(low, top);
            let upto = displayable_codes(start, low - 1);
            assert(upto + none =~= upto);
        }
    } else if cursor <= high {
        let top = if high <= end {
            high
        } else {
            end
        };
        lemma_codes_split(start, cursor - 1, top);
        lemma_codes_excluded(cursor, top);
        assert(before + none =~= before);
    }
}

/// Past the last codepoint a range shows nothing.
proof fn lemma_codes_end(start: int, end: int)
    requires
        end >= LAST_CODEPOINT,
    ensures
        displayable_codes(start, end) == displayable_codes(start, LAST_CODEPOINT as int),
{
    let none = Seq::<int>::empty();
    if start <= LAST_CODEPOINT + 1 {
        lemma_codes_split(start, LAST_CODEPOINT as int, end);
        lemma_codes_excluded(LAST_CODEPOINT + 1, end);
        let upto = displayable_codes(start, LAST_CODEPOINT as int);
        assert(upto + none =~= upto);
    } else {
        lemma_codes_excluded(start, end);
    }
}

/// The end of a range, or the last codepoint if that comes before.
fn last_in_range(start: u32, end: u32) -> (last: u32)
    ensures
        last <= LAST_CODEPOINT,
        displayable_codes(start as int, last as int) == displayable_codes(
            start as int,
            end as int,
        ),
{
    if end > LAST_CODEPOINT {
        proof {
            lemma_codes_end(start as int, end as int);
        }
        LAST_CODEPOINT
    } else {
        end
    }
}

/// Number of displayable (non-excluded) codepoints in the inclusive
/// `start..=end` range. No codepoint is enumerated.
pub fn displayable_count(start: u32, end: u32) -> (count: u32)
    ensures
        count == displayable_codes(start as int, end as int).len(),
{
    let last: u32 = last_in_range(start, end);
    let ranges = EXCLUDED_RANGES;
    let mut total: u32 = 0;
    let mut cursor: u32 = start;
    let mut k: usize = 0;
    while k < 3
        invariant
            ranges == EXCLUDED_RANGES,
            displayable_codes(start as int, last as int) == displayable_codes(
                start as int,
                end as int,
            ),
            last <= LAST_CODEPOINT,
            k <= 3,
            start <= cursor,
            k >= 1 ==> cursor > 0x1F,
            k >= 2 ==> cursor > 0x9F,
            k >= 3 ==> cursor > 0xDFFF,
            cursor <= last ==> total == displayable_codes(start as int, cursor - 1).len(),
            cursor > last ==> total == displayable_codes(start as int, last as int).len(),
            total <= cursor - start,
            k == 0 ==> cursor == start,
            k >= 1 && start == 0 ==> total < cursor,
        decreases 3 - k,
    {
        if cursor > last {
            return total;
        }
        assert(k == 0 || k == 1 || k == 2);
        let (excluded_start, excluded_end) = ranges[k];
        proof {
            lemma_codes_step(
                start as int,
                cursor as int,
                excluded_start as int,
                excluded_end as int,
                last as int,
            );
        }
        if excluded_start > cursor {
            let segment_end: u32 = if excluded_start - 1 < last {
                excluded_start - 1
            } else {
                last
            };
            total += segment_end - cursor + 1;
        }
        if excluded_end >= cursor {
            cursor = excluded_end + 1;
        }
        k += 1;
    }
    if cursor <= last {
        proof {
            lemma_codes_split(start as int, cursor - 1, last as int);
            lemma_codes_plain(cursor as int, last as int);
        }
        total += last - cursor + 1;
    }
    total
}

/// The `local_offset`-th (0-based) displayable codepoint in the inclusive
/// `start..=end` range, as a character. There is none past the last one.
pub fn nth_displayable_char(start: u32, end: u32, local_offset: u32) -> (ch: Option<char>)
    ensures
        ch == nth_char(displayable_codes(start as int, end as int), local_offset as int),
{
    let last: u32 = last_in_range(start, end);
    let ranges = EXCLUDED_RANGES;
    let ghost codes = displayable_codes(start as int, last as int);
    let mut left: u32 = local_offset;
    let mut cursor: u32 = start;
    let mut k: usize = 0;
    while k < 3
        invariant
            ranges == EXCLUDED_RANGES,
            displayable_codes(start as int, last as int) == displayable_codes(
                start as int,
                end as int,
            ),
            last <= LAST_CODEPOINT,
            codes == displayable_codes(start as int, last as int),
            k <= 3,
            start <= cursor,
            k >= 1 ==> cursor > 0x1F,
            k >= 2 ==> cursor > 0x9F,
            k >= 3 ==> cursor > 0xDFFF,
            cursor <= last ==> local_offset - left == displayable_codes(
                start as int,
                cursor - 1,
            ).len(),
            cursor > last ==> local_offset >= codes.len(),
        decreases 3 - k,
    {
        if cursor > last {
            return None;
        }
        assert(k == 0 || k == 1 || k == 2);
        let (excluded_start, excluded_end) = ranges[k];
        let ghost passed = displayable_codes(start as int, cursor - 1);
        proof {
            lemma_codes_step(
                start as int,
                cursor as int,
                excluded_start as int,
                excluded_end as int,
                last as int,
            );
        }
        if excluded_start > cursor {
            let segment_end: u32 = if excluded_start - 1 < last {
                excluded_start - 1
            } else {
                last
            };
            let segment_len: u32 = segment_end - cursor + 1;
            if left < segment_len {
                proof {
                    lemma_codes_split(start as int, segment_end as int, last as int);
                    assert(codes[local_offset as int] == cursor + left);
                    assert(!excluded(cursor + left));
                }
                return char::from_u32(cursor + left);
            }
            left -= segment_len;
        }
        if excluded_end >= cursor {
            cursor = excluded_end + 1;
        }
        k += 1;
    }
    if cursor <= last {
        proof {
            lemma_codes_split(start as int, cursor - 1, last as int);
            lemma_codes_plain(cursor as int, last as int);
        }
        let segment_len: u32 = last - cursor + 1;
        if left < segment_len {
            assert(codes[local_offset as int] == cursor + left);
            return char::from_u32(cursor + left);
        }
    }
    None
}

/// The character at a place of a list of codepoints, if the place exists and
/// the codepoint is a character.
pub open spec fn nth_char(codes: Seq<int>, i: int) -> Option<char> {
    if 0 <= i < codes.len() && is_scalar(codes[i]) {
        Some(codes[i] as char)
    } else {
        None
    }
}

/// Whether a number is never shown.
pub fn is_excluded(code: u32) -> (r: bool)
    ensures
        r == excluded(code as int),
{
    if code > LAST_CODEPOINT {
        return true;
    }
    let ranges = EXCLUDED_RANGES;
    let mut k: usize = 0;
    while k < 3
        invariant
            code <= LAST_CODEPOINT,
            ranges == EXCLUDED_RANGES,
            k <= 3,
            k >= 1 ==> !(0x00 <= code <= 0x1F),
            k >= 2 ==> !(0x7F <= code <= 0x9F),
            k >= 3 ==> !(0xD800 <= code <= 0xDFFF),
        decreases 3 - k,
    {
        assert(k == 0 || k == 1 || k == 2);
        let (low, high) = ranges[k];
        if low <= code && code <= high {
            return true;
        }
        k += 1;
    }
    false
}

/// A codepoint that is a character and no control.
pub open spec fn shown(code: int) -> bool {
    is_scalar(code) && !control_code(code)
}

/// The characters of `start..=end` that are no controls, tried one by one.
pub open spec fn shown_chars(start: int, end: int) -> Seq<char>
    decreases end - start + 1,
{
    if start > end {
        Seq::empty()
    } else if shown(end) {
        shown_chars(start, end - 1).push(end as char)
    } else {
        shown_chars(start, end - 1)
    }
}

/// The character of a codepoint, if it is one and no control.
pub fn shown_char(code: u32) -> (ch: Option<char>)
    ensures
        ch == (if shown(code as int) {
            Some(code as char)
        } else {
            None
        }),
{
    if code <= 0x1F || (0x7F <= code && code <= 0x9F) {
        None
    } else {
        char::from_u32(code)
    }
}

/// Counting and picking by ranges gives what trying every codepoint gives.
pub proof fn law_codes_match_enumeration(start: int, end: int)
    requires
        0 <= start,
    ensures
        displayable_codes(start, end).len() == shown_chars(start, end).len(),
        forall|i: int|
            0 <= i < shown_chars(start, end).len() ==> nth_char(
                displayable_codes(start, end),
                i,
            ) == Some(#[trigger] shown_chars(start, end)[i]),
    decreases end - start + 1,
{
    if start <= end {
        law_codes_match_enumeration(start, end - 1);
        let fewer = shown_chars(start, end - 1);
        assert forall|i: int| 0 <= i < shown_chars(start, end).len() implies nth_char(
            displayable_codes(start, end),
            i,
        ) == Some(#[trigger] shown_chars(start, end)[i]) by {
            if i < fewer.len() {
                assert(shown_chars(start, end)[i] == fewer[i]);
            }
        }
    }
}

/// The place that the codepoint `offset` steps after `start` has among the shown
/// codepoints of `start..=end`, if it is one of them.
pub open spec fn filtered_index(start: int, end: int, offset: int) -> Option<nat> {
    if 0 <= offset && start + offset <= end && !excluded(start + offset) {
        Some(displayable_codes(start, start + offset - 1).len())
    } else {
        None
    }
}

/// Turns an offset into a block, counted over all its codepoints, into the
/// place among its displayable ones.
pub fn raw_offset_to_filtered_index(start: u32, end: u32, offset: u32) -> (r: Option<u32>)
    ensures
        match r {
            Some(index) => filtered_index(start as int, end as int, offset as int) == Some(
                index as nat,
            ),
            None => filtered_index(start as int, end as int, offset as int) is None,
        },
{
    if start > end || offset > end - start {
        return None;
    }
    let code: u32 = start + offset;
    if is_excluded(code) {
        return None;
    }
    Some(displayable_count(start, code) - 1)
}

/// The filtered index of a codepoint leads back to it, and the codepoint at any
/// place of the list has that place as its filtered index.
pub proof fn law_filtered_index_inverts(start: int, end: int)
    ensures
        forall|offset: int|
            #![trigger filtered_index(start, end, offset)]
            filtered_index(start, end, offset) matches Some(i) ==> i < displayable_codes(
                start,
                end,
            ).len() && displayable_codes(start, end)[i as int] == start + offset,
        forall|i: int|
            0 <= i < displayable_codes(start, end).len() ==> filtered_index(
                start,
                end,
                #[trigger] displayable_codes(start, end)[i] - start,
            ) == Some(i as nat),
{
    let codes = displayable_codes(start, end);
    law_displayable_codes(start, end);
    assert forall|offset: int|
        #![trigger filtered_index(start, end, offset)]
        filtered_index(start, end, offset) is Some implies {
        let i = filtered_index(start, end, offset)->0;
        i < codes.len() && codes[i as int] == start + offset
    } by {
        lemma_codes_split(start, start + offset, end);
    }
    assert forall|i: int| 0 <= i < codes.len() implies filtered_index(
        start,
        end,
        #[trigger] codes[i] - start,
    ) == Some(i as nat) by {
        let offset = codes[i] - start;
        assert(codes.contains(codes[i]));
        let j = filtered_index(start, end, offset)->0;
        lemma_codes_split(start, start + offset, end);
        assert(codes[j as int] == codes[i]);
    }
}

/// The codepoint ranges of a list of blocks.
pub open spec fn ranges_of(sections: Seq<UnicodeEntry>) -> Seq<(u32, u32)> {
    sections.map_values(|entry: UnicodeEntry| (entry.start_index, entry.end_index))
}

/// The shown codepoints of one range after the other.
pub open spec fn flat_codes(ranges: Seq<(u32, u32)>) -> Seq<int>
    decreases ranges.len(),
{
    if ranges.len() == 0 {
        Seq::empty()
    } else {
        flat_codes(ranges.drop_last()) + displayable_codes(
            ranges.last().0 as int,
            ranges.last().1 as int,
        )
    }
}

/// The part of the flat list that one of its ranges gives.
pub proof fn lemma_flat_part(ranges: Seq<(u32, u32)>, k: int)
    requires
        0 <= k < ranges.len(),
    ensures
        ({
            let from = flat_codes(ranges.take(k)).len();
            let codes = displayable_codes(ranges[k].0 as int, ranges[k].1 as int);
            &&& from + codes.len() <= flat_codes(ranges).len()
            &&& from + codes.len() == flat_codes(ranges.take(k + 1)).len()
            &&& forall|i: int|
                0 <= i < codes.len() ==> #[trigger] flat_codes(ranges)[from + i] == codes[i]
        }),
    decreases ranges.len(),
{
    assert(ranges.take(k + 1).drop_last() =~= ranges.take(k));
    if k == ranges.len() - 1 {
        assert(ranges.take(k) =~= ranges.drop_last());
        assert(ranges.take(k + 1) =~= ranges);
    } else {
        lemma_flat_part(ranges.drop_last(), k);
        assert(ranges.drop_last().take(k) =~= ranges.take(k));
        assert(ranges.drop_last().take(k + 1) =~= ranges.take(k + 1));
    }
}

/// The flat list of some first ranges is no longer than that of all.
pub proof fn lemma_flat_grows(ranges: Seq<(u32, u32)>, k: int)
    requires
        0 <= k <= ranges.len(),
    ensures
        flat_codes(ranges.take(k)).len() <= flat_codes(ranges).len(),
{
    if k < ranges.len() {
        lemma_flat_part(ranges, k);
    } else {
        assert(ranges.take(k) =~= ranges);
    }
}

/// The shown characters of one range after the other, tried one by one.
pub open spec fn flat_shown(ranges: Seq<(u32, u32)>) -> Seq<char>
    decreases ranges.len(),
{
    if ranges.len() == 0 {
        Seq::empty()
    } else {
        flat_shown(ranges.drop_last()) + shown_chars(
            ranges.last().0 as int,
            ranges.last().1 as int,
        )
    }
}

/// The model of some blocks has every character of theirs that is no control, in
/// order, and has nothing else.
pub proof fn law_model_matches_enumeration(ranges: Seq<(u32, u32)>)
    ensures
        flat_codes(ranges).len() == flat_shown(ranges).len(),
        forall|i: int|
            0 <= i < flat_shown(ranges).len() ==> nth_char(flat_codes(ranges), i) == Some(
                #[trigger] flat_shown(ranges)[i],
            ),
    decreases ranges.len(),
{
    if ranges.len() > 0 {
        let fewer = ranges.drop_last();
        let (start, end) = (ranges.last().0 as int, ranges.last().1 as int);
        law_model_matches_enumeration(fewer);
        law_codes_match_enumeration(start, end);
        assert forall|i: int| 0 <= i < flat_shown(ranges).len() implies nth_char(
            flat_codes(ranges),
            i,
        ) == Some(#[trigger] flat_shown(ranges)[i]) by {
            if i < flat_shown(fewer).len() {
                assert(flat_shown(ranges)[i] == flat_shown(fewer)[i]);
            } else {
                let j = i - flat_shown(fewer).len();
                assert(flat_shown(ranges)[i] == shown_chars(start, end)[j]);
            }
        }
    }
}

/// The flat list model of the characters of some blocks. Its view is the list
/// of their codepoints.
///
/// Each included block has the place of its first character in the flat list,
/// and the range of its codepoints.
pub struct UnicodeCharModel {
    sections: Vec<(u32, u32, u32)>,
    total: u32,
}

impl View for UnicodeCharModel {
    type V = Seq<int>;

    closed spec fn view(&self) -> Seq<int> {
        flat_codes(section_ranges(self.sections@))
    }
}

/// The ranges of a model's blocks.
spec fn section_ranges(sections: Seq<(u32, u32, u32)>) -> Seq<(u32, u32)> {
    sections.map_values(|s: (u32, u32, u32)| (s.1, s.2))
}

impl UnicodeCharModel {
    #[verifier::type_invariant]
    spec fn well_formed(self) -> bool {
        let ranges = section_ranges(self.sections@);
        &&& self.total == flat_codes(ranges).len()
        &&& forall|k: int|
            0 <= k < ranges.len() ==> (#[trigger] self.sections@[k]).0 == flat_codes(
                ranges.take(k),
            ).len()
        &&& forall|k: int|
            0 <= k < ranges.len() ==> displayable_codes(
                (#[trigger] ranges[k]).0 as int,
                ranges[k].1 as int,
            ).len() > 0
    }

    /// The model of the given blocks, in order. It takes as many steps as there
    /// are blocks: characters are counted, never enumerated.
    pub fn new(sections: &[UnicodeEntry]) -> (model: Self)
        requires
            flat_codes(ranges_of(sections@)).len() <= u32::MAX,
        ensures
            model@ == flat_codes(ranges_of(sections@)),
    {
        let ghost all = ranges_of(sections@);
        let mut table: Vec<(u32, u32, u32)> = Vec::new();
        let mut cumulative: u32 = 0;
        let mut i: usize = 0;
        while i < sections.len()
            invariant
                i <= sections@.len(),
                all == ranges_of(sections@),
                flat_codes(all).len() <= u32::MAX,
                flat_codes(section_ranges(table@)) == flat_codes(all.take(i as int)),
                cumulative == flat_codes(all.take(i as int)).len(),
                forall|k: int|
                    0 <= k < table@.len() ==> (#[trigger] table@[k]).0 == flat_codes(
                        section_ranges(table@).take(k),
                    ).len(),
                forall|k: int|
                    0 <= k < table@.len() ==> displayable_codes(
                        (#[trigger] section_ranges(table@)[k]).0 as int,
                        section_ranges(table@)[k].1 as int,
                    ).len() > 0,
            decreases sections@.len() - i,
        {
            let ghost old_table = table@;
            let ghost old_ranges = section_ranges(table@);
            let start: u32 = sections[i].start_index;
            let end: u32 = sections[i].end_index;
            let count: u32 = displayable_count(start, end);
            proof {
                lemma_flat_part(all, i as int);
                assert(all.take(i + 1).drop_last() =~= all.take(i as int));
                assert(all.take(i + 1).last() == (start, end));
                if count == 0 {
                    assert(flat_codes(all.take(i + 1)) =~= flat_codes(all.take(i as int)));
                }
            }
            if count != 0 {
                table.push((cumulative, start, end));
                cumulative += count;
                proof {
                    let ranges = section_ranges(table@);
                    assert(ranges.drop_last() =~= old_ranges);
                    assert(ranges.last() == (start, end));
                    assert forall|k: int| 0 <= k < table@.len() implies (
                    #[trigger] table@[k]).0 == flat_codes(ranges.take(k)).len() by {
                        if k < old_table.len() {
                            assert(table@[k] == old_table[k]);
                            assert(ranges.take(k) =~= old_ranges.take(k));
                        } else {
                            assert(ranges.take(k) =~= old_ranges);
                        }
                    }
                    assert forall|k: int| 0 <= k < table@.len() implies displayable_codes(
                        (#[trigger] ranges[k]).0 as int,
                        ranges[k].1 as int,
                    ).len() > 0 by {
                        if k < old_table.len() {
                            assert(ranges[k] == old_ranges[k]);
                        }
                    }
                }
            }
            i += 1;
        }
        assert(all.take(i as int) =~= all);
        UnicodeCharModel { sections: table, total: cumulative }
    }

    /// The number of characters.
    pub fn n_items(&self) -> (n: u32)
        ensures
            n == self@.len(),
    {
        proof {
            use_type_invariant(self);
        }
        self.total
    }

    /// The number of blocks whose first place is at or before `position`.
    fn sections_started(&self, position: u32) -> (n: usize)
        ensures
            n <= self.sections@.len(),
            forall|k: int| 0 <= k < n ==> (#[trigger] self.sections@[k]).0 <= position,
            forall|k: int| n <= k < self.sections@.len() ==> (#[trigger] self.sections@[k]).0
                > position,
    {
        proof {
            use_type_invariant(self);
        }
        let mut low: usize = 0;
        let mut high: usize = self.sections.len();
        while low < high
            invariant
                self.well_formed(),
                low <= high <= self.sections@.len(),
                forall|k: int| 0 <= k < low ==> (#[trigger] self.sections@[k]).0 <= position,
                forall|k: int| high <= k < self.sections@.len() ==> (#[trigger] self.sections@[k]).0
                    > position,
            decreases high - low,
        {
            let middle: usize = low + (high - low) / 2;
            if self.sections[middle].0 <= position {
                proof {
                    assert forall|k: int| 0 <= k <= middle implies (
                    #[trigger] self.sections@[k]).0 <= position by {
                        self.lemma_starts_ascend(k, middle as int);
                    }
                }
                low = middle + 1;
            } else {
                proof {
                    assert forall|k: int| middle <= k < self.sections@.len() implies (
                    #[trigger] self.sections@[k]).0 > position by {
                        self.lemma_starts_ascend(middle as int, k);
                    }
                }
                high = middle;
            }
        }
        low
    }

    /// The first places of the blocks do not descend.
    proof fn lemma_starts_ascend(&self, a: int, b: int)
        requires
            self.well_formed(),
            0 <= a <= b < self.sections@.len(),
        ensures
            self.sections@[a].0 <= self.sections@[b].0,
    {
        let ranges = section_ranges(self.sections@);
        lemma_flat_grows(ranges.take(b), a);
        assert(ranges.take(b).take(a) =~= ranges.take(a));
    }

    /// The place `position` lies in the block `k`, the last one that starts at or
    /// before it, or past the end.
    proof fn lemma_item(&self, k: int, position: int)
        requires
            self.well_formed(),
            0 <= k < self.sections@.len(),
            self.sections@[k].0 <= position,
            k + 1 < self.sections@.len() ==> self.sections@[k + 1].0 > position,
        ensures
            nth_char(self@, position) == nth_char(
                displayable_codes(self.sections@[k].1 as int, self.sections@[k].2 as int),
                position - self.sections@[k].0,
            ),
    {
        let ranges = section_ranges(self.sections@);
        let codes = displayable_codes(ranges[k].0 as int, ranges[k].1 as int);
        let from = flat_codes(ranges.take(k)).len();
        lemma_flat_part(ranges, k);
        if k + 1 < self.sections@.len() {
            assert(self.sections@[k + 1].0 == flat_codes(ranges.take(k + 1)).len());
        } else {
            assert(ranges.take(k + 1) =~= ranges);
        }
        if position - from < codes.len() {
            assert(flat_codes(ranges)[from + (position - from)] == codes[position - from]);
        }
    }

    /// The character at a place of the list.
    pub fn item(&self, position: u32) -> (ch: Option<char>)
        ensures
            ch == nth_char(self@, position as int),
    {
        proof {
            use_type_invariant(self);
        }
        let idx: usize = self.sections_started(position);
        if idx == 0 {
            proof {
                if self.sections@.len() > 0 {
                    assert(self.sections@[0].0 > position);
                    assert(section_ranges(self.sections@).take(0) =~= Seq::<(u32, u32)>::empty());
                }
            }
            return None;
        }
        let (cumulative_start, start, end) = self.sections[idx - 1];
        assert(self.sections@[idx - 1].0 <= position);
        let local_offset: u32 = position - cumulative_start;
        proof {
            self.lemma_item(idx - 1, position as int);
        }
        nth_displayable_char(start, end, local_offset)
    }
}

}
