//! Laws of the text tables.
use vstd::prelude::*;
use vstd::utf8::*;

use crate::table::{
    column, labels_once, line_end, rows_from, table_rows, with_line, with_text,
};
use crate::text::{digits_value, lemma_digits_value_prefix, parsed_u32};

verus! {

/// Six hexadecimal digits that stand for a codepoint.
pub open spec fn written(d: Seq<char>, code: u32) -> bool {
    d.len() == 6 && d[0] != '+' && parsed_u32(d, 16) == Some(code)
}

/// A text of one line.
pub open spec fn one_line(s: Seq<char>) -> bool {
    forall|i: int| 0 <= i < s.len() ==> #[trigger] s[i] != '\n'
}

/// A line of six digits, a space and a label adds one row to a table of single
/// codepoints: the codepoint of the digits, with all of the label. The lines after
/// it are read as if it had not been there.
pub proof fn law_line_gives_row(
    rows: Seq<(u32, u32, Seq<char>)>,
    d: Seq<char>,
    code: u32,
    label: Seq<char>,
    rest: Seq<char>,
)
    requires
        written(d, code),
        code <= 0x10FFFF,
        rows.len() == 0 || rows.last().1 < code,
        one_line(label),
        is_ascii_chars(label),
        is_ascii_chars(rest),
    ensures
        with_text(rows, d + seq![' '] + label + seq!['\n'] + rest, false) == with_text(
            rows.push((code, code, label)),
            rest,
            false,
        ),
        with_text(rows, d + seq![' '] + label, false) == rows.push((code, code, label)),
{
    let line = d + seq![' '] + label;
    lemma_written(d, code);
    assert(line.subrange(0, 6) =~= d);
    assert(line[6] == ' ');
    assert(line.skip(7) =~= label);
    assert(with_line(rows, line, false) =~= rows.push((code, code, label)));
    lemma_line(rows, line, rest, false);
}

/// A line of twice six digits, each with a space, and a label adds one row to a
/// table of ranges: the two codepoints, with all of the label.
pub proof fn law_line_gives_range(
    rows: Seq<(u32, u32, Seq<char>)>,
    d: Seq<char>,
    first: u32,
    e: Seq<char>,
    last: u32,
    label: Seq<char>,
    rest: Seq<char>,
)
    requires
        written(d, first),
        written(e, last),
        first <= last <= 0x10FFFF,
        rows.len() == 0 || rows.last().1 < first,
        one_line(label),
        is_ascii_chars(label),
        is_ascii_chars(rest),
    ensures
        with_text(
            rows,
            d + seq![' '] + e + seq![' '] + label + seq!['\n'] + rest,
            true,
        ) == with_text(rows.push((first, last, label)), rest, true),
        with_text(rows, d + seq![' '] + e + seq![' '] + label, true) == rows.push(
            (first, last, label),
        ),
{
    let line = d + seq![' '] + e + seq![' '] + label;
    lemma_written(d, first);
    lemma_written(e, last);
    assert(line.subrange(0, 6) =~= d);
    assert(line[6] == ' ');
    assert(line.subrange(7, 13) =~= e);
    assert(line[13] == ' ');
    assert(line.skip(14) =~= label);
    assert(with_line(rows, line, true) =~= rows.push((first, last, label)));
    lemma_line(rows, line, rest, true);
}

/// A line that does not start with six digits and a space, or whose codepoint does
/// not come after the rows before it, adds nothing. An empty text adds nothing.
pub proof fn law_other_lines_add_nothing(
    rows: Seq<(u32, u32, Seq<char>)>,
    line: Seq<char>,
    rest: Seq<char>,
    pairs: bool,
)
    requires
        one_line(line),
        is_ascii_chars(line),
        is_ascii_chars(rest),
        ({
            ||| line.len() < 7
            ||| line[6] != ' '
            ||| forall|code: u32| !written(line.take(6), code)
            ||| exists|code: u32|
                #[trigger] written(line.take(6), code) && (code > 0x10FFFF || rows.len() > 0
                    && code <= rows.last().1)
        }),
    ensures
        with_text(rows, line + seq!['\n'] + rest, pairs) == with_text(rows, rest, pairs),
        with_text(rows, Seq::empty(), pairs) == rows,
{
    lemma_line(rows, line, rest, pairs);
    if line.len() >= 7 && line[6] == ' ' {
        let six = line.take(6);
        assert(line.subrange(0, 6) =~= six);
        if column(line, 0) is Some {
            let code = column(line, 0)->0;
            lemma_column(six);
            assert(written(six, code as u32));
        }
    }
    assert(with_line(rows, line, pairs) == rows);
}

/// A table that is kept in parts is read part after part, and starts empty.
pub proof fn law_parts_follow(parts: Seq<&'static str>, part: &'static str, pairs: bool)
    ensures
        table_rows(parts.push(part), pairs) == with_text(table_rows(parts, pairs), part@, pairs),
        table_rows(Seq::empty(), pairs) == Seq::<(u32, u32, Seq<char>)>::empty(),
{
    assert(parts.push(part).drop_last() =~= parts);
}

/// Of the rows with one label the first is kept, and every other row is kept.
pub proof fn law_first_labels_kept(rows: Seq<(u32, u32, Seq<char>)>, i: int)
    requires
        0 <= i < rows.len(),
        forall|j: int| 0 <= j < i ==> (#[trigger] rows[j]).2 != rows[i].2,
    ensures
        labels_once(rows).contains(rows[i]),
    decreases rows.len(),
{
    let fewer = rows.drop_last();
    let before = labels_once(fewer);
    let now = labels_once(rows);
    if i < fewer.len() {
        assert(fewer[i] == rows[i]);
        assert forall|j: int| 0 <= j < i implies (#[trigger] fewer[j]).2 != fewer[i].2 by {
            assert(fewer[j] == rows[j]);
        }
        law_first_labels_kept(fewer, i);
        let k = choose|k: int| 0 <= k < before.len() && before[k] == rows[i];
        assert(now[k] == rows[i]);
    } else {
        assert forall|k: int| 0 <= k < before.len() implies (#[trigger] before[k]).2
            != rows.last().2 by {
            lemma_once_among(fewer, k);
            let j = choose|j: int| 0 <= j < fewer.len() && fewer[j] == before[k];
            assert(rows[j].2 != rows[i].2);
        }
        assert(now[now.len() - 1] == rows[i]);
    }
}

/// Each row that is kept is one of the rows.
proof fn lemma_once_among(rows: Seq<(u32, u32, Seq<char>)>, k: int)
    requires
        0 <= k < labels_once(rows).len(),
    ensures
        rows.contains(labels_once(rows)[k]),
    decreases rows.len(),
{
    let fewer = rows.drop_last();
    let before = labels_once(fewer);
    if k < before.len() {
        lemma_once_among(fewer, k);
        let j = choose|j: int| 0 <= j < fewer.len() && fewer[j] == before[k];
        assert(rows[j] == labels_once(rows)[k]);
    } else {
        assert(rows[rows.len() - 1] == labels_once(rows)[k]);
    }
}

/// Digits that are read as a number have its value.
proof fn lemma_written(d: Seq<char>, code: u32)
    requires
        written(d, code),
    ensures
        digits_value(d, 16) == Some(code as nat),
        is_ascii_chars(d),
        one_line(d),
{
    lemma_digits_only(d);
}

/// Digits are ASCII, and no line ends.
proof fn lemma_digits_only(d: Seq<char>)
    requires
        digits_value(d, 16) is Some,
    ensures
        is_ascii_chars(d),
        one_line(d),
    decreases d.len(),
{
    if d.len() > 0 {
        lemma_digits_only(d.drop_last());
        assert forall|i: int| 0 <= i < d.len() implies 0 <= #[trigger] d[i] < 128 && d[i]
            != '\n' by {
            if i < d.len() - 1 {
                assert(d[i] == d.drop_last()[i]);
            }
        }
    }
}

/// A column is six digits that are read as its number.
proof fn lemma_column(six: Seq<char>)
    requires
        six.len() == 6,
        digits_value(six, 16) is Some,
    ensures
        written(six, digits_value(six, 16)->0 as u32),
{
    reveal_with_fuel(digits_value, 7);
    lemma_digits_value_prefix(six, 16, 1);
    let d0 = six.drop_last().drop_last().drop_last().drop_last().drop_last();
    assert(d0 =~= six.take(1));
    assert(d0.last() == six[0]);
    assert(d0.drop_last() =~= Seq::<char>::empty());
}

/// A text that starts with a line is read as the line, then the rest.
proof fn lemma_line(
    rows: Seq<(u32, u32, Seq<char>)>,
    line: Seq<char>,
    rest: Seq<char>,
    pairs: bool,
)
    requires
        one_line(line),
        is_ascii_chars(line),
        is_ascii_chars(rest),
    ensures
        with_text(rows, line + seq!['\n'] + rest, pairs) == with_text(
            with_line(rows, line, pairs),
            rest,
            pairs,
        ),
        line.len() > 0 ==> with_text(rows, line, pairs) == with_line(rows, line, pairs),
{
    let head = line + seq!['\n'];
    let text = head + rest;
    assert(is_ascii_chars(text));
    lemma_first_line(line, seq!['\n'] + rest, 0);
    assert(line + (seq!['\n'] + rest) =~= text);
    assert(text.subrange(0, line.len() as int) =~= line);
    lemma_rows_shift(head, rest, 0, pairs, with_line(rows, line, pairs));
    assert(rows_from(text, 0, pairs, rows) == rows_from(
        text,
        line.len() as int + 1,
        pairs,
        with_line(rows, line, pairs),
    ));
    if line.len() > 0 {
        lemma_first_line(line, Seq::empty(), 0);
        assert(line + Seq::<char>::empty() =~= line);
        assert(line.subrange(0, line.len() as int) =~= line);
        let more = with_line(rows, line, pairs);
        assert(rows_from(line, line.len() as int + 1, pairs, more) == more);
    }
}

/// The first line of a text ends where the line ends.
proof fn lemma_first_line(line: Seq<char>, rest: Seq<char>, from: int)
    requires
        one_line(line),
        0 <= from <= line.len(),
        rest.len() == 0 || rest[0] == '\n',
    ensures
        line_end(line + rest, from) == line.len(),
    decreases line.len() - from,
{
    let text = line + rest;
    if from < line.len() {
        assert(text[from] == line[from]);
        lemma_first_line(line, rest, from + 1);
    } else if rest.len() > 0 {
        assert(text[from] == '\n');
    }
}

/// Lines end after what stands before them as they end alone.
proof fn lemma_end_shift(head: Seq<char>, rest: Seq<char>, from: int)
    requires
        0 <= from <= rest.len(),
    ensures
        line_end(head + rest, head.len() + from) == head.len() + line_end(rest, from),
        from <= line_end(rest, from) <= rest.len(),
    decreases rest.len() - from,
{
    if from < rest.len() {
        assert((head + rest)[head.len() + from] == rest[from]);
        if rest[from] != '\n' {
            lemma_end_shift(head, rest, from + 1);
        }
    }
}

/// Rows are read after what stands before them as they are read alone.
proof fn lemma_rows_shift(
    head: Seq<char>,
    rest: Seq<char>,
    from: int,
    pairs: bool,
    rows: Seq<(u32, u32, Seq<char>)>,
)
    requires
        0 <= from <= rest.len() + 1,
    ensures
        rows_from(head + rest, head.len() + from, pairs, rows) == rows_from(
            rest,
            from,
            pairs,
            rows,
        ),
    decreases rest.len() - from + 1,
{
    if from < rest.len() {
        lemma_end_shift(head, rest, from);
        let end = line_end(rest, from);
        let text = head + rest;
        assert(text.subrange(head.len() + from, head.len() + end) =~= rest.subrange(from, end));
        lemma_rows_shift(
            head,
            rest,
            end + 1,
            pairs,
            with_line(rows, rest.subrange(from, end), pairs),
        );
    }
}

}
