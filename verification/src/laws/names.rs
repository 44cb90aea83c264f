//! Laws of character names and of their search.
use vstd::prelude::*;

use crate::helpers::character_names::{
    all_found, capped, database_names, database_ranges, derived_chars, derived_name,
    entry_of, hangul_name, in_ranges, name_of, names_ascend, names_found, names_view,
    outside_ranges, range_found, range_of, ranges_found, single_codes, tables_disjoint,
    JAMO_LEADING, JAMO_TRAILING, JAMO_VOWEL,
};
use crate::helpers::character_names_data::NAMES;
use crate::table::{law_table_ascends, rows_view, table_rows, Row};
use crate::text::{digits, lowercase, zero_padded};
use crate::unicode::char_list_model::shown;
use crate::unicode::UnicodeEntry;

verus! {

/// The name of a character of a range other than the spelled out syllables ends
/// with a hyphen and its codepoint, in at least four digits. What comes before is
/// the common name of the ideographs, or else the label in lowercase.
pub proof fn law_range_names_end_in_the_codepoint(label: Seq<char>, rest: Seq<char>, code: u32)
    ensures
        derived_name("CJK Ideograph"@ + rest, code) == "CJK Ideograph"@ + seq!['-'] + zero_padded(
            digits(code as nat, 16),
            4,
        ),
        derived_name("Tangut Ideograph"@ + rest, code) == "Tangut Ideograph"@ + seq!['-']
            + zero_padded(digits(code as nat, 16), 4),
        !"CJK Ideograph"@.is_prefix_of(label) && !"Tangut Ideograph"@.is_prefix_of(label) && label
            != "Hangul Syllable"@ ==> derived_name(label, code) == lowercase(label) + seq!['-']
            + zero_padded(digits(code as nat, 16), 4),
{
    reveal_strlit("CJK Ideograph");
    reveal_strlit("CJK Ideograph-");
    reveal_strlit("Tangut Ideograph");
    reveal_strlit("Tangut Ideograph-");
    reveal_strlit("-");
    let cjk = "CJK Ideograph"@;
    let tangut = "Tangut Ideograph"@;
    assert((cjk + rest).take(cjk.len() as int) =~= cjk);
    assert(cjk.is_prefix_of(cjk + rest));
    assert(cjk + seq!['-'] =~= "CJK Ideograph-"@);
    assert((tangut + rest).take(tangut.len() as int) =~= tangut);
    assert(tangut.is_prefix_of(tangut + rest));
    assert((tangut + rest)[0] == 'T');
    if cjk.is_prefix_of(tangut + rest) {
        assert((tangut + rest).take(cjk.len() as int)[0] == 'C');
    }
    assert(tangut + seq!['-'] =~= "Tangut Ideograph-"@);
    assert("-"@ =~= seq!['-']);
}

/// The syllable of leading consonant `l`, vowel `v` and trailing consonant `t`,
/// counted as Unicode lists them, is named by the three short names.
pub proof fn law_syllables_are_spelled(l: int, v: int, t: int)
    requires
        0 <= l < 19,
        0 <= v < 21,
        0 <= t < 28,
    ensures
        derived_name("Hangul Syllable"@, (0xAC00 + (l * 21 + v) * 28 + t) as u32)
            == "HANGUL SYLLABLE "@ + JAMO_LEADING@[l]@ + JAMO_VOWEL@[v]@ + JAMO_TRAILING@[t]@,
{
    reveal_strlit("Hangul Syllable");
    reveal_strlit("CJK Ideograph");
    reveal_strlit("Tangut Ideograph");
    let label = "Hangul Syllable"@;
    assert(label[0] == 'H');
    if "CJK Ideograph"@.is_prefix_of(label) {
        assert(label.take(13)[0] == 'C');
    }
    assert(!"Tangut Ideograph"@.is_prefix_of(label));
    let code = 0xAC00 + (l * 21 + v) * 28 + t;
    let index = code - 0xAC00;
    assert(index == l * 588 + v * 28 + t);
    assert(index / 588 == l && index % 588 == v * 28 + t);
    assert((v * 28 + t) / 28 == v);
    assert(index % 28 == t);
    assert(hangul_name(code as u32) == "HANGUL SYLLABLE "@ + JAMO_LEADING@[l]@ + JAMO_VOWEL@[v]@
        + JAMO_TRAILING@[t]@);
}

/// The short names of the letters, as the Unicode Standard lists them.
pub proof fn law_short_names()
    ensures
        JAMO_LEADING@.map_values(|name: &'static str| name@) == seq![
            "G"@, "GG"@, "N"@, "D"@, "DD"@, "R"@, "M"@, "B"@, "BB"@, "S"@, "SS"@, ""@, "J"@, "JJ"@,
            "C"@, "K"@, "T"@, "P"@, "H"@,
        ],
        JAMO_VOWEL@.map_values(|name: &'static str| name@) == seq![
            "A"@, "AE"@, "YA"@, "YAE"@, "EO"@, "E"@, "YEO"@, "YE"@, "O"@, "WA"@, "WAE"@, "OE"@,
            "YO"@, "U"@, "WEO"@, "WE"@, "WI"@, "YU"@, "EU"@, "YI"@, "I"@,
        ],
        JAMO_TRAILING@.map_values(|name: &'static str| name@) == seq![
            ""@, "G"@, "GG"@, "GS"@, "N"@, "NJ"@, "NH"@, "D"@, "L"@, "LG"@, "LM"@, "LB"@, "LS"@,
            "LT"@, "LP"@, "LH"@, "M"@, "B"@, "BS"@, "S"@, "SS"@, "NG"@, "J"@, "C"@, "K"@, "T"@,
            "P"@, "H"@,
        ],
{
}

/// A codepoint that is listed has the whole name it is listed with. One that is not
/// listed and lies in a range has the name by the range's label, and any other has
/// none.
pub proof fn law_names_are_as_listed(
    names: Seq<(u32, Seq<char>)>,
    ranges: Seq<(u32, u32, Seq<char>)>,
    i: int,
    code: u32,
)
    requires
        tables_disjoint(names, ranges),
    ensures
        0 <= i < names.len() ==> name_of(names, ranges, names[i].0) == Some(names[i].1),
        0 <= i < ranges.len() && ranges[i].0 <= code <= ranges[i].1 ==> name_of(
            names,
            ranges,
            code,
        ) == Some(derived_name(ranges[i].2, code)),
        (forall|j: int| 0 <= j < names.len() ==> (#[trigger] names[j]).0 != code) && (forall|j: int|
            0 <= j < ranges.len() ==> !((#[trigger] ranges[j]).0 <= code <= ranges[j].1))
            ==> name_of(names, ranges, code) is None,
{
    if 0 <= i < names.len() {
        let own = names[i].0;
        assert(entry_of(names, own, i));
        let j = choose|j: int| entry_of(names, own, j);
        if i < j {
            assert(names[i].0 < names[j].0);
        } else if j < i {
            assert(names[j].0 < names[i].0);
        }
    }
    if 0 <= i < ranges.len() && ranges[i].0 <= code <= ranges[i].1 {
        assert forall|j: int| !entry_of(names, code, j) by {
            if entry_of(names, code, j) {
                assert(!(ranges[i].0 <= names[j].0 <= ranges[i].1));
            }
        }
        assert(range_of(ranges, code, i)) by {
            assert forall|j: int| 0 <= j < i implies !((#[trigger] ranges[j]).0 <= code
                <= ranges[j].1) by {
                assert(ranges[j].1 < ranges[i].0 || ranges[i].1 < ranges[j].0);
            }
        }
        let j = choose|j: int| range_of(ranges, code, j);
        if j < i {
            assert(!(ranges[j].0 <= code <= ranges[j].1));
        } else if i < j {
            assert(!(ranges[i].0 <= code <= ranges[i].1));
        }
    }
    if (forall|j: int| 0 <= j < names.len() ==> (#[trigger] names[j]).0 != code) && (forall|j: int|
        0 <= j < ranges.len() ==> !((#[trigger] ranges[j]).0 <= code <= ranges[j].1)) {
        assert forall|j: int| !entry_of(names, code, j) by {}
        assert forall|j: int| !range_of(ranges, code, j) by {}
    }
}

/// Each row of the database's table of single codepoints outside the ranges gives
/// its codepoint the row's whole label as its name.
pub proof fn law_database_rows_are_names(i: int)
    requires
        0 <= i < table_rows(NAMES@, false).len(),
        forall|j: int|
            0 <= j < database_ranges().len() ==> !((#[trigger] database_ranges()[j]).0
                <= table_rows(NAMES@, false)[i].0 <= database_ranges()[j].1),
    ensures
        name_of(database_names(), database_ranges(), table_rows(NAMES@, false)[i].0) == Some(
            table_rows(NAMES@, false)[i].2,
        ),
{
    let rows = table_rows(NAMES@, false);
    let listed = single_codes(rows);
    let ranges = database_ranges();
    let names = database_names();
    let code = rows[i].0;
    law_table_ascends(NAMES@, false);
    assert(names_ascend(listed)) by {
        assert forall|a: int, b: int| 0 <= a < b < listed.len() implies (#[trigger] listed[a]).0 < (
        #[trigger] listed[b]).0 by {
            assert(rows[a].0 <= rows[a].1 && rows[a].1 < rows[b].0);
        }
    }
    assert(listed[i] == (code, rows[i].2));
    assert(!in_ranges(ranges, code));
    lemma_listed_kept(listed, ranges, i);
    lemma_kept_listed(listed, ranges);
    let k = choose|k: int| 0 <= k < names.len() && names[k] == listed[i];
    assert(entry_of(names, code, k));
    let j = choose|j: int| entry_of(names, code, j);
    assert(listed.contains(names[j]));
    let h = choose|h: int| 0 <= h < listed.len() && listed[h] == names[j];
    if h < i {
        assert(listed[h].0 < listed[i].0);
    } else if i < h {
        assert(listed[i].0 < listed[h].0);
    }
}

/// An entry outside the ranges is kept.
proof fn lemma_listed_kept(
    names: Seq<(u32, Seq<char>)>,
    ranges: Seq<(u32, u32, Seq<char>)>,
    i: int,
)
    requires
        0 <= i < names.len(),
        !in_ranges(ranges, names[i].0),
    ensures
        outside_ranges(names, ranges).contains(names[i]),
    decreases names.len(),
{
    let fewer = names.drop_last();
    let before = outside_ranges(fewer, ranges);
    let now = outside_ranges(names, ranges);
    if i < fewer.len() {
        lemma_listed_kept(fewer, ranges, i);
        let k = choose|k: int| 0 <= k < before.len() && before[k] == names[i];
        assert(now[k] == names[i]);
    } else {
        assert(now[now.len() - 1] == names[i]);
    }
}

/// What is kept was listed.
proof fn lemma_kept_listed(names: Seq<(u32, Seq<char>)>, ranges: Seq<(u32, u32, Seq<char>)>)
    ensures
        forall|k: int|
            0 <= k < outside_ranges(names, ranges).len() ==> names.contains(
                #[trigger] outside_ranges(names, ranges)[k],
            ),
    decreases names.len(),
{
    if names.len() > 0 {
        let fewer = names.drop_last();
        let before = outside_ranges(fewer, ranges);
        let now = outside_ranges(names, ranges);
        lemma_kept_listed(fewer, ranges);
        assert forall|k: int| 0 <= k < now.len() implies names.contains(#[trigger] now[k]) by {
            if k < before.len() {
                assert(fewer.contains(before[k]));
                let h = choose|h: int| 0 <= h < fewer.len() && fewer[h] == before[k];
                assert(names[h] == now[k]);
            } else {
                assert(names[names.len() - 1] == now[k]);
            }
        }
    }
}

/// A limit cuts off what comes last, and nothing where all fits.
pub proof fn law_limit_cuts_the_end(found: Seq<char>, max: nat)
    ensures
        capped(found, max).is_prefix_of(found),
        found.len() <= max ==> capped(found, max) == found,
        found.len() > max ==> capped(found, max).len() == max,
{
}

/// A codepoint is shown exactly if it is a character and no control.
pub proof fn law_shown(code: int)
    ensures
        shown(code) <==> (0x20 <= code <= 0x7E || 0xA0 <= code <= 0xD7FF || 0xE000 <= code
            <= 0x10FFFF),
{
}

/// Within one block the characters with a name of their own come first, then those
/// of the ranges, both in ascending order. So none comes twice.
pub proof fn law_search_is_in_order(
    names: Seq<(u32, Seq<char>)>,
    ranges: Seq<(u32, u32, Seq<char>)>,
    query: Seq<char>,
    section: UnicodeEntry,
    i: int,
    j: int,
)
    requires
        tables_disjoint(names, ranges),
        ascending_ranges(ranges),
        0 <= i < j < all_found(names, ranges, query, seq![section]).len(),
    ensures
        ({
            let all = all_found(names, ranges, query, seq![section]);
            &&& listed(names, all[j]) ==> listed(names, all[i])
            &&& listed(names, all[i]) == listed(names, all[j]) ==> all[i] < all[j]
            &&& all[i] != all[j]
        }),
{
    let (start, end) = (section.start_index, section.end_index);
    let own = names_found(names, query, start, end);
    let derived = ranges_found(ranges, query, start, end);
    let all = all_found(names, ranges, query, seq![section]);
    assert(seq![section].drop_last() =~= Seq::<UnicodeEntry>::empty());
    assert(all_found(names, ranges, query, seq![section].drop_last()) =~= Seq::<char>::empty());
    assert(all =~= own + derived);
    lemma_own_ascend(names, query, start, end);
    lemma_derived_ascend(ranges, query, start, end);
    let n = own.len() as int;
    assert forall|k: int| n <= k < all.len() implies !listed(names, #[trigger] all[k]) by {
        assert(all[k] == derived[k - n]);
        assert(lies_in(ranges, derived[k - n] as int));
        let r = choose|r: int|
            0 <= r < ranges.len() && (#[trigger] ranges[r]).0 <= derived[k - n] as int
                <= ranges[r].1;
        assert forall|h: int| 0 <= h < names.len() implies (#[trigger] names[h]).0
            != all[k] as int by {
            assert(!(ranges[r].0 <= names[h].0 <= ranges[r].1));
        }
    }
    if j < n {
        assert(all[i] == own[i] && all[j] == own[j]);
    } else if i < n {
        assert(all[i] == own[i]);
        let k = choose|k: int| 0 <= k < names.len() && (#[trigger] names[k]).0 == own[i] as int;
        assert(names[k].0 == all[i] as int);
    } else {
        assert(all[i] == derived[i - n] && all[j] == derived[j - n]);
    }
}

/// A name table lists a character.
pub open spec fn listed(names: Seq<(u32, Seq<char>)>, c: char) -> bool {
    exists|k: int| 0 <= k < names.len() && (#[trigger] names[k]).0 == c as int
}

/// One of some ranges holds a number.
pub open spec fn lies_in(ranges: Seq<(u32, u32, Seq<char>)>, code: int) -> bool {
    exists|k: int| 0 <= k < ranges.len() && (#[trigger] ranges[k]).0 <= code <= ranges[k].1
}

/// Ranges of which each ends before the next one starts.
pub open spec fn ascending_ranges(ranges: Seq<(u32, u32, Seq<char>)>) -> bool {
    forall|i: int, j: int|
        0 <= i < j < ranges.len() ==> (#[trigger] ranges[i]).1 < (#[trigger] ranges[j]).0
}

/// What is found among listed names is listed, and ascends.
proof fn lemma_own_ascend(names: Seq<(u32, Seq<char>)>, query: Seq<char>, start: u32, end: u32)
    requires
        names_ascend(names),
    ensures
        ({
            let own = names_found(names, query, start, end);
            &&& forall|i: int, j: int| 0 <= i < j < own.len() ==> own[i] < own[j]
            &&& forall|i: int|
                0 <= i < own.len() ==> exists|k: int|
                    0 <= k < names.len() && (#[trigger] names[k]).0 == (#[trigger] own[i]) as int
            &&& forall|i: int| 0 <= i < own.len() ==> (#[trigger] own[i]) as int <= names.last().0
        }),
    decreases names.len(),
{
    if names.len() > 0 {
        let fewer = names.drop_last();
        let last = names.len() - 1;
        let before = names_found(fewer, query, start, end);
        let own = names_found(names, query, start, end);
        assert(names_ascend(fewer)) by {
            assert forall|i: int, j: int| 0 <= i < j < fewer.len() implies (
            #[trigger] fewer[i]).0 < (#[trigger] fewer[j]).0 by {
                assert(fewer[i] == names[i] && fewer[j] == names[j]);
            }
        }
        lemma_own_ascend(fewer, query, start, end);
        if fewer.len() > 0 {
            assert(names[last - 1].0 < names[last].0);
        }
        assert forall|i: int| 0 <= i < own.len() implies exists|k: int|
            0 <= k < names.len() && (#[trigger] names[k]).0 == (#[trigger] own[i]) as int by {
            if i < before.len() {
                assert(own[i] == before[i]);
                let k = choose|k: int|
                    0 <= k < fewer.len() && (#[trigger] fewer[k]).0 == before[i] as int;
                assert(names[k].0 == own[i] as int);
            } else {
                assert(names[last].0 == own[i] as int);
            }
        }
        assert forall|i: int, j: int| 0 <= i < j < own.len() implies own[i] < own[j] by {
            assert(own[i] == before[i]);
            if j < before.len() {
                assert(own[j] == before[j]);
            } else {
                assert(before[i] as int <= fewer.last().0);
                let k = choose|k: int|
                    0 <= k < fewer.len() && (#[trigger] fewer[k]).0 == before[i] as int;
                assert(own[i] as int <= names[last - 1].0);
                assert(own[j] as int == names[last].0);
            }
        }
        assert forall|i: int| 0 <= i < own.len() implies (#[trigger] own[i]) as int
            <= names.last().0 by {
            if i < before.len() {
                assert(own[i] == before[i]);
                let k = choose|k: int|
                    0 <= k < fewer.len() && (#[trigger] fewer[k]).0 == before[i] as int;
            }
        }
    }
}

/// What is found by one label ascends and lies in the range.
proof fn lemma_label_ascend(label: Seq<char>, part: Seq<char>, start: int, end: int)
    requires
        0 <= start,
    ensures
        ({
            let found = derived_chars(label, part, start, end);
            &&& forall|i: int, j: int| 0 <= i < j < found.len() ==> found[i] < found[j]
            &&& forall|i: int| 0 <= i < found.len() ==> start <= (#[trigger] found[i]) as int <= end
        }),
    decreases end - start + 1,
{
    if start <= end {
        lemma_label_ascend(label, part, start, end - 1);
        let before = derived_chars(label, part, start, end - 1);
        let found = derived_chars(label, part, start, end);
        assert forall|i: int| 0 <= i < found.len() implies start <= (#[trigger] found[i]) as int
            <= end by {
            if i < before.len() {
                assert(found[i] == before[i]);
            }
        }
        assert forall|i: int, j: int| 0 <= i < j < found.len() implies found[i] < found[j] by {
            assert(found[i] == before[i]);
            if j < before.len() {
                assert(found[j] == before[j]);
            }
        }
    }
}

/// What is found by ascending ranges lies in them, and ascends.
proof fn lemma_derived_ascend(
    ranges: Seq<(u32, u32, Seq<char>)>,
    query: Seq<char>,
    start: u32,
    end: u32,
)
    requires
        ascending_ranges(ranges),
    ensures
        ({
            let found = ranges_found(ranges, query, start, end);
            &&& forall|i: int, j: int| 0 <= i < j < found.len() ==> found[i] < found[j]
            &&& forall|i: int|
                0 <= i < found.len() ==> lies_in(ranges, (#[trigger] found[i]) as int)
        }),
    decreases ranges.len(),
{
    if ranges.len() > 0 {
        let fewer = ranges.drop_last();
        let range = ranges.last();
        let last = ranges.len() - 1;
        let before = ranges_found(fewer, query, start, end);
        let more = range_found(range, query, start, end);
        let found = ranges_found(ranges, query, start, end);
        assert(ascending_ranges(fewer)) by {
            assert forall|i: int, j: int| 0 <= i < j < fewer.len() implies (
            #[trigger] fewer[i]).1 < (#[trigger] fewer[j]).0 by {
                assert(fewer[i] == ranges[i] && fewer[j] == ranges[j]);
            }
        }
        lemma_derived_ascend(fewer, query, start, end);
        lemma_label_ascend(
            range.2,
            lowercase(query),
            if start >= range.0 {
                start as int
            } else {
                range.0 as int
            },
            if end <= range.1 {
                end as int
            } else {
                range.1 as int
            },
        );
        assert forall|i: int| 0 <= i < before.len() implies ((
        #[trigger] before[i]) as int) < range.0 && lies_in(ranges, before[i] as int) by {
            let k = choose|k: int|
                0 <= k < fewer.len() && (#[trigger] fewer[k]).0 <= before[i] as int <= fewer[k].1;
            assert(ranges[k] == fewer[k]);
            assert(ranges[k].1 < ranges[last].0);
        }
        let n = before.len() as int;
        assert forall|i: int| 0 <= i < found.len() implies lies_in(
            ranges,
            (#[trigger] found[i]) as int,
        ) by {
            if i < n {
                assert(found[i] == before[i]);
            } else {
                assert(found[i] == more[i - n]);
                assert(ranges[last].0 <= found[i] as int <= ranges[last].1);
            }
        }
        assert forall|i: int, j: int| 0 <= i < j < found.len() implies found[i] < found[j] by {
            if j < n {
                assert(found[i] == before[i] && found[j] == before[j]);
            } else if i < n {
                assert(found[i] == before[i] && found[j] == more[j - n]);
            } else {
                assert(found[i] == more[i - n] && found[j] == more[j - n]);
            }
        }
    }
}

/// Tables are seen row by row: codepoints as they are, texts through their
/// characters.
pub proof fn law_tables_are_seen(
    rows: Seq<Row>,
    names: Seq<(u32, &'static str)>,
    seen: Seq<(u32, u32, Seq<char>)>,
)
    ensures
        rows_view(rows).len() == rows.len(),
        forall|i: int|
            0 <= i < rows.len() ==> #[trigger] rows_view(rows)[i] == (
                rows[i].0,
                rows[i].1,
                rows[i].2@,
            ),
        names_view(names).len() == names.len(),
        forall|i: int|
            0 <= i < names.len() ==> #[trigger] names_view(names)[i] == (names[i].0, names[i].1@),
        single_codes(seen).len() == seen.len(),
        forall|i: int|
            0 <= i < seen.len() ==> #[trigger] single_codes(seen)[i] == (seen[i].0, seen[i].2),
{
}

}
