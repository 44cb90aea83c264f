//! Tables of codepoint ranges with a label each, kept as text.
//!
//! A line of a table starts with one codepoint, or with two of them, the first
//! and the last of a range, each as six hexadecimal digits and a space. The rest
//! of the line is the label. Rows ascend and do not overlap: a line that is not
//! of this form, or does not come after the row before it, is no row.
use vstd::prelude::*;
use vstd::string::*;
use vstd::utf8::*;

use crate::text::{chars_of, digits_value, value_of_digit};

verus! {

/// One row of a table, as held: the first and the last codepoint, and the label.
pub type Row = (u32, u32, &'static str);

/// The rows of a table, their labels seen as character sequences.
pub open spec fn rows_view(rows: Seq<Row>) -> Seq<(u32, u32, Seq<char>)> {
    rows.map_values(|row: Row| (row.0, row.1, row.2@))
}

/// Each row is a range of codepoints that ends before the next one starts.
pub open spec fn ascending(rows: Seq<(u32, u32, Seq<char>)>) -> bool {
    &&& forall|i: int| 0 <= i < rows.len() ==> (#[trigger] rows[i]).0 <= rows[i].1 <= 0x10FFFF
    &&& forall|i: int, j: int|
        0 <= i < j < rows.len() ==> (#[trigger] rows[i]).1 < (#[trigger] rows[j]).0
}

/// The codepoint that stands in the six columns from `at` on, if six
/// hexadecimal digits and a space stand there.
pub open spec fn column(line: Seq<char>, at: int) -> Option<nat> {
    if at + 6 < line.len() && line[at + 6] == ' ' {
        digits_value(line.subrange(at, at + 6), 16)
    } else {
        None
    }
}

/// The row that a line holds, if it is of the form of one.
pub open spec fn row_of(line: Seq<char>, pairs: bool) -> Option<(u32, u32, Seq<char>)> {
    if pairs {
        match (column(line, 0), column(line, 7)) {
            (Some(first), Some(last)) => Some((first as u32, last as u32, line.skip(14))),
            _ => None,
        }
    } else {
        match column(line, 0) {
            Some(code) => Some((code as u32, code as u32, line.skip(7))),
            None => None,
        }
    }
}

/// The rows with the one that a line holds, if it is one and comes after them.
pub open spec fn with_line(
    rows: Seq<(u32, u32, Seq<char>)>,
    line: Seq<char>,
    pairs: bool,
) -> Seq<(u32, u32, Seq<char>)> {
    match row_of(line, pairs) {
        Some(row) => if row.0 <= row.1 <= 0x10FFFF && (rows.len() == 0 || rows.last().1 < row.0) {
            rows.push(row)
        } else {
            rows
        },
        None => rows,
    }
}

/// The end of the line that `from` lies in.
pub open spec fn line_end(text: Seq<char>, from: int) -> int
    decreases text.len() - from,
{
    if from >= text.len() || text[from] == '\n' {
        from
    } else {
        line_end(text, from + 1)
    }
}

/// The rows, with those of the lines from `from` on.
pub open spec fn rows_from(
    text: Seq<char>,
    from: int,
    pairs: bool,
    rows: Seq<(u32, u32, Seq<char>)>,
) -> Seq<(u32, u32, Seq<char>)>
    decreases text.len() - from + 1,
{
    if from < 0 || from >= text.len() {
        rows
    } else {
        let end = line_end(text, from);
        proof {
            lemma_line_end(text, from);
        }
        rows_from(text, end + 1, pairs, with_line(rows, text.subrange(from, end), pairs))
    }
}

/// The rows, with those that a text holds. Only ASCII text holds any.
pub open spec fn with_text(
    rows: Seq<(u32, u32, Seq<char>)>,
    text: Seq<char>,
    pairs: bool,
) -> Seq<(u32, u32, Seq<char>)> {
    if is_ascii_chars(text) {
        rows_from(text, 0, pairs, rows)
    } else {
        rows
    }
}

/// The rows of a table that is kept in parts.
pub open spec fn table_rows(parts: Seq<&'static str>, pairs: bool) -> Seq<(u32, u32, Seq<char>)>
    decreases parts.len(),
{
    if parts.len() == 0 {
        Seq::empty()
    } else {
        with_text(table_rows(parts.drop_last(), pairs), parts.last()@, pairs)
    }
}

/// A line ends within the text, at or after any place in it.
pub proof fn lemma_line_end(text: Seq<char>, from: int)
    requires
        0 <= from <= text.len(),
    ensures
        from <= line_end(text, from) <= text.len(),
    decreases text.len() - from,
{
    if from < text.len() && text[from] != '\n' {
        lemma_line_end(text, from + 1);
    }
}

/// The value of six hexadecimal digits is small.
proof fn lemma_column_bound(s: Seq<char>, k: int)
    requires
        s.len() == 6,
        0 <= k <= 6,
        digits_value(s.take(k), 16) is Some,
    ensures
        digits_value(s.take(k), 16)->0 < 0x100_0000,
{
    assert(digits_value(s.take(k), 16)->0 < pow16(k)) by {
        lemma_value_bound(s, k);
    }
    assert(pow16(k) <= 0x100_0000) by {
        reveal_with_fuel(pow16, 7);
    }
}

/// A power of sixteen.
spec fn pow16(k: int) -> nat
    decreases k,
{
    if k <= 0 {
        1
    } else {
        16 * pow16(k - 1)
    }
}

/// The value of some digits is below the power of their number.
proof fn lemma_value_bound(s: Seq<char>, k: int)
    requires
        0 <= k <= s.len(),
        digits_value(s.take(k), 16) is Some,
    ensures
        digits_value(s.take(k), 16)->0 < pow16(k),
    decreases k,
{
    if k > 0 {
        assert(s.take(k).drop_last() =~= s.take(k - 1));
        lemma_value_bound(s, k - 1);
    }
}

/// The rows of a table ascend.
pub proof fn law_table_ascends(parts: Seq<&'static str>, pairs: bool)
    ensures
        ascending(table_rows(parts, pairs)),
    decreases parts.len(),
{
    if parts.len() > 0 {
        law_table_ascends(parts.drop_last(), pairs);
        lemma_rows_ascend(parts.last()@, 0, pairs, table_rows(parts.drop_last(), pairs));
    }
}

/// Ascending rows still ascend with those of further lines.
proof fn lemma_rows_ascend(
    text: Seq<char>,
    from: int,
    pairs: bool,
    rows: Seq<(u32, u32, Seq<char>)>,
)
    requires
        ascending(rows),
    ensures
        ascending(rows_from(text, from, pairs, rows)),
    decreases text.len() - from + 1,
{
    if 0 <= from < text.len() {
        let end = line_end(text, from);
        lemma_line_end(text, from);
        let more = with_line(rows, text.subrange(from, end), pairs);
        assert(ascending(more));
        lemma_rows_ascend(text, end + 1, pairs, more);
    }
}

/// The codepoint that stands in six columns of a line, the one that starts at
/// `from` and ends at `end`.
fn read_column(chars: &[char], from: usize, end: usize, at: usize) -> (r: Option<u32>)
    requires
        from <= end <= chars@.len(),
        at <= 7,
    ensures
        match r {
            Some(v) => v < 0x100_0000 && column(
                chars@.subrange(from as int, end as int),
                at as int,
            ) == Some(v as nat),
            None => column(chars@.subrange(from as int, end as int), at as int) is None,
        },
{
    let ghost line = chars@.subrange(from as int, end as int);
    let length: usize = end - from;
    if length < at + 7 || chars[from + at + 6] != ' ' {
        return None;
    }
    let ghost six = line.subrange(at as int, at + 6);
    let mut value: u32 = 0;
    let mut k: usize = 0;
    assert(six.take(0) =~= Seq::<char>::empty());
    while k < 6
        invariant
            k <= 6,
            at <= 7,
            from <= end <= chars@.len(),
            line == chars@.subrange(from as int, end as int),
            length == end - from,
            length >= at + 7,
            line[at + 6] == ' ',
            six == line.subrange(at as int, at + 6),
            value < 0x100_0000,
            digits_value(six.take(k as int), 16) == Some(value as nat),
        decreases 6 - k,
    {
        assert(six.take(k + 1).drop_last() =~= six.take(k as int));
        assert(six.take(k + 1).last() == chars@[from + at + k]);
        match value_of_digit(chars[from + at + k], 16) {
            None => {
                proof {
                    crate::text::lemma_digits_value_prefix(six, 16, k + 1);
                }
                return None;
            },
            Some(low) => {
                value = value * 16 + low;
                proof {
                    lemma_column_bound(six, k + 1);
                }
            },
        }
        k += 1;
    }
    assert(six.take(6) =~= six);
    Some(value)
}

/// Reads the rows of a table that is kept in parts.
pub fn parse_table(parts: &[&'static str], pairs: bool) -> (rows: Vec<Row>)
    ensures
        rows_view(rows@) == table_rows(parts@, pairs),
        ascending(rows_view(rows@)),
{
    let mut rows: Vec<Row> = Vec::new();
    assert(rows_view(rows@) =~= Seq::empty());
    let mut i: usize = 0;
    while i < parts.len()
        invariant
            i <= parts@.len(),
            rows_view(rows@) == table_rows(parts@.take(i as int), pairs),
        decreases parts@.len() - i,
    {
        parse_part(&mut rows, parts[i], pairs);
        i += 1;
        assert(parts@.take(i as int).drop_last() =~= parts@.take(i - 1));
    }
    assert(parts@.take(i as int) =~= parts@);
    proof {
        law_table_ascends(parts@, pairs);
    }
    rows
}

/// Reads the rows of one part of a table.
fn parse_part(rows: &mut Vec<Row>, text: &'static str, pairs: bool)
    ensures
        rows_view(final(rows)@) == with_text(rows_view(old(rows)@), text@, pairs),
{
    let ghost given = rows_view(rows@);
    if !text.is_ascii() {
        return;
    }
    let chars = chars_of(text);
    let mut from: usize = 0;
    while from < chars.len()
        invariant
            chars@ == text@,
            text.is_ascii(),
            from <= chars@.len(),
            rows_from(text@, 0, pairs, given) == rows_from(
                text@,
                from as int,
                pairs,
                rows_view(rows@),
            ),
        decreases chars@.len() - from,
    {
        let mut end: usize = from;
        while end < chars.len() && chars[end] != '\n'
            invariant
                chars@ == text@,
                from <= end <= chars@.len(),
                line_end(text@, from as int) == line_end(text@, end as int),
            decreases chars@.len() - end,
        {
            end += 1;
        }
        let ghost line = text@.subrange(from as int, end as int);
        let ghost before = rows_view(rows@);
        let first: Option<u32> = read_column(&chars, from, end, 0);
        let last: Option<u32> = if pairs {
            read_column(&chars, from, end, 7)
        } else {
            first
        };
        if let (Some(first), Some(last)) = (first, last) {
            let label_at: usize = if pairs {
                from + 14
            } else {
                from + 7
            };
            let after: bool = rows.len() == 0 || rows[rows.len() - 1].1 < first;
            proof {
                if rows@.len() > 0 {
                    assert(before.last() == (
                        rows@.last().0,
                        rows@.last().1,
                        rows@.last().2@,
                    ));
                }
            }
            if first <= last && last <= 0x10FFFF && after {
                let label: &'static str = text.substring_ascii(label_at, end);
                let ghost held = rows@;
                rows.push((first, last, label));
                proof {
                    assert(label@ =~= line.skip(label_at - from));
                    assert(rows_view(rows@) =~= before.push((first, last, label@)));
                }
            }
        }
        assert(rows_view(rows@) == with_line(before, line, pairs));
        if end < chars.len() {
            from = end + 1;
        } else {
            from = end;
            assert(rows_from(text@, end + 1, pairs, rows_view(rows@)) == rows_view(rows@));
        }
    }
}

/// The rows without those whose label an earlier row has.
pub open spec fn labels_once(rows: Seq<(u32, u32, Seq<char>)>) -> Seq<(u32, u32, Seq<char>)>
    decreases rows.len(),
{
    if rows.len() == 0 {
        Seq::empty()
    } else {
        let before = labels_once(rows.drop_last());
        if exists|j: int| 0 <= j < before.len() && (#[trigger] before[j]).2 == rows.last().2 {
            before
        } else {
            before.push(rows.last())
        }
    }
}

/// Of ascending rows, those with a label that no earlier row has ascend too, and
/// no two of them have one label.
pub proof fn law_labels_once(rows: Seq<(u32, u32, Seq<char>)>)
    requires
        ascending(rows),
    ensures
        ascending(labels_once(rows)),
        forall|i: int|
            0 <= i < labels_once(rows).len() ==> rows.contains(#[trigger] labels_once(rows)[i]),
        forall|i: int, j: int|
            0 <= i < j < labels_once(rows).len() ==> (#[trigger] labels_once(rows)[i]).2 != (
            #[trigger] labels_once(rows)[j]).2,
    decreases rows.len(),
{
    if rows.len() > 0 {
        let last = rows.len() - 1;
        let fewer = rows.drop_last();
        let before = labels_once(fewer);
        let now = labels_once(rows);
        assert(ascending(fewer)) by {
            assert forall|i: int| 0 <= i < fewer.len() implies (#[trigger] fewer[i]).0
                <= fewer[i].1 <= 0x10FFFF by {
                assert(fewer[i] == rows[i]);
            }
            assert forall|i: int, j: int| 0 <= i < j < fewer.len() implies (
            #[trigger] fewer[i]).1 < (#[trigger] fewer[j]).0 by {
                assert(fewer[i] == rows[i] && fewer[j] == rows[j]);
            }
        }
        law_labels_once(fewer);
        assert forall|i: int| 0 <= i < before.len() implies rows.contains(#[trigger] before[i])
            && before[i].1 < rows[last].0 by {
            assert(fewer.contains(before[i]));
            let h = choose|h: int| 0 <= h < fewer.len() && fewer[h] == before[i];
            assert(rows[h] == before[i]);
        }
        assert(rows.contains(rows[last]));
        assert forall|i: int| 0 <= i < now.len() implies rows.contains(#[trigger] now[i])
            && now[i].0 <= now[i].1 <= 0x10FFFF by {
            if i < before.len() {
                assert(now[i] == before[i]);
            } else {
                assert(now[i] == rows[last]);
            }
        }
        assert forall|i: int, j: int| 0 <= i < j < now.len() implies (#[trigger] now[i]).1 < (
        #[trigger] now[j]).0 && now[i].2 != now[j].2 by {
            assert(now[i] == before[i]);
            if j < before.len() {
                assert(now[j] == before[j]);
            }
        }
    }
}

}
