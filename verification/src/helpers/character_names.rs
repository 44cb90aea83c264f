//! Look up official Unicode names for characters.
//!
//! Names come from compact tables of the Unicode Character Database.
//! Directly assigned characters are looked up by binary search;
//! algorithmically named ranges (CJK ideographs, Hangul syllables, ...) are
//! derived on demand.
use vstd::prelude::*;
use vstd::string::*;
use vstd::utf8::*;

use super::character_names_data::{NAMES, RANGES};
use crate::table::{parse_table, rows_view, table_rows, Row};
use crate::text::{
    chars_of, contains, digits, format_number, has_part, lemma_padded_value, lowercase, stands_at,
    starts_with, to_lowercase, zero_padded,
};
use crate::unicode::char_list_model::{shown, shown_char, shown_chars};
use crate::unicode::UnicodeEntry;

verus! {

// Jamo short names, from which Hangul syllable names are made
// (see the Unicode Standard, "Hangul Syllable Name Generation").

/// The short names of the leading consonants.
pub const JAMO_LEADING: [&'static str; 19] = [
    "G", "GG", "N", "D", "DD", "R", "M", "B", "BB", "S", "SS", "", "J", "JJ", "C", "K", "T", "P",
    "H",
];

/// The short names of the vowels.
pub const JAMO_VOWEL: [&'static str; 21] = [
    "A", "AE", "YA", "YAE", "EO", "E", "YEO", "YE", "O", "WA", "WAE", "OE", "YO", "U", "WEO", "WE",
    "WI", "YU", "EU", "YI", "I",
];

/// The short names of the trailing consonants, none being the first.
pub const JAMO_TRAILING: [&'static str; 28] = [
    "", "G", "GG", "GS", "N", "NJ", "NH", "D", "L", "LG", "LM", "LB", "LS", "LT", "LP", "LH", "M",
    "B", "BS", "S", "SS", "NG", "J", "C", "K", "T", "P", "H",
];

/// A codepoint as it is written in names: in capital hexadecimal digits, four
/// at least.
pub open spec fn code_digits(code: u32) -> Seq<char> {
    zero_padded(digits(code as nat, 16), 4)
}

/// The precomposed Hangul syllables.
pub open spec fn hangul_syllable(code: u32) -> bool {
    0xAC00 <= code <= 0xD7A3
}

/// The canonical "HANGUL SYLLABLE ..." name of a precomposed syllable: the short
/// names of its letters.
pub open spec fn hangul_name(code: u32) -> Seq<char> {
    let index = code - 0xAC00;
    "HANGUL SYLLABLE "@ + JAMO_LEADING@[index / 588]@ + JAMO_VOWEL@[(index % 588) / 28]@
        + JAMO_TRAILING@[index % 28]@
}

/// The name of a character inside an algorithmically named range.
pub open spec fn derived_name(label: Seq<char>, code: u32) -> Seq<char> {
    if "CJK Ideograph"@.is_prefix_of(label) {
        "CJK Ideograph-"@ + code_digits(code)
    } else if "Tangut Ideograph"@.is_prefix_of(label) {
        "Tangut Ideograph-"@ + code_digits(code)
    } else if label == "Hangul Syllable"@ {
        hangul_name(code)
    } else {
        lowercase(label) + "-"@ + code_digits(code)
    }
}

/// Derives the name of a character inside an algorithmically named range.
pub fn range_name(label: &str, code: u32) -> (name: String)
    requires
        label@ == "Hangul Syllable"@ ==> hangul_syllable(code),
    ensures
        name@ == derived_name(label@, code),
{
    if starts_with(label, "CJK Ideograph") {
        let mut name: String = "CJK Ideograph-".to_owned();
        name.append(format_number(code, 16, 4).as_str());
        name
    } else if starts_with(label, "Tangut Ideograph") {
        let mut name: String = "Tangut Ideograph-".to_owned();
        name.append(format_number(code, 16, 4).as_str());
        name
    } else if label.to_owned() == "Hangul Syllable".to_owned() {
        hangul_syllable_name(code)
    } else {
        // Ranges without a formal per-character name (e.g. Private Use).
        let mut name: String = to_lowercase(label);
        name.append("-");
        name.append(format_number(code, 16, 4).as_str());
        name
    }
}

/// Derives the canonical "HANGUL SYLLABLE ..." name for a precomposed syllable.
pub fn hangul_syllable_name(code: u32) -> (name: String)
    requires
        hangul_syllable(code),
    ensures
        name@ == hangul_name(code),
{
    let index: u32 = code - 0xAC00;
    let leading: usize = (index / 588) as usize;
    let vowel: usize = ((index % 588) / 28) as usize;
    let trailing: usize = (index % 28) as usize;
    let mut name: String = "HANGUL SYLLABLE ".to_owned();
    name.append(JAMO_LEADING[leading]);
    name.append(JAMO_VOWEL[vowel]);
    name.append(JAMO_TRAILING[trailing]);
    name
}

/// The rows of a table of single codepoints, without the second one.
pub open spec fn single_codes(rows: Seq<(u32, u32, Seq<char>)>) -> Seq<(u32, Seq<char>)> {
    rows.map_values(|row: (u32, u32, Seq<char>)| (row.0, row.2))
}

/// The named codepoints, their names seen as character sequences.
pub open spec fn names_view(names: Seq<(u32, &'static str)>) -> Seq<(u32, Seq<char>)> {
    names.map_values(|entry: (u32, &'static str)| (entry.0, entry.1@))
}

/// The codepoints of a name table ascend.
pub open spec fn names_ascend(names: Seq<(u32, Seq<char>)>) -> bool {
    forall|i: int, j: int|
        0 <= i < j < names.len() ==> (#[trigger] names[i]).0 < (#[trigger] names[j]).0
}

/// Every codepoint of every range has a name by the range's label.
pub open spec fn ranges_derivable(ranges: Seq<(u32, u32, Seq<char>)>) -> bool {
    forall|i: int|
        0 <= i < ranges.len() && (#[trigger] ranges[i]).2 == "Hangul Syllable"@ ==> 0xAC00
            <= ranges[i].0 && ranges[i].1 <= 0xD7A3
}

/// The entry `i` of a name table is that of a codepoint.
pub open spec fn entry_of(names: Seq<(u32, Seq<char>)>, code: u32, i: int) -> bool {
    0 <= i < names.len() && names[i].0 == code
}

/// The range `i` is the first one that a codepoint lies in.
pub open spec fn range_of(ranges: Seq<(u32, u32, Seq<char>)>, code: u32, i: int) -> bool {
    &&& 0 <= i < ranges.len()
    &&& ranges[i].0 <= code <= ranges[i].1
    &&& forall|j: int| 0 <= j < i ==> !((#[trigger] ranges[j]).0 <= code <= ranges[j].1)
}

/// The name that the tables give a codepoint: its own, or else the one derived
/// from the first range that it lies in.
pub open spec fn name_of(
    names: Seq<(u32, Seq<char>)>,
    ranges: Seq<(u32, u32, Seq<char>)>,
    code: u32,
) -> Option<Seq<char>> {
    if exists|i: int| entry_of(names, code, i) {
        Some(names[choose|i: int| entry_of(names, code, i)].1)
    } else if exists|i: int| range_of(ranges, code, i) {
        Some(derived_name(ranges[choose|i: int| range_of(ranges, code, i)].2, code))
    } else {
        None
    }
}

/// A name table entry that a search over `start..=end` finds: a shown character
/// whose name holds the query, letter case aside.
pub open spec fn entry_found(
    entry: (u32, Seq<char>),
    query: Seq<char>,
    start: u32,
    end: u32,
) -> bool {
    &&& start <= entry.0 <= end
    &&& shown(entry.0 as int)
    &&& has_part(lowercase(entry.1), lowercase(query))
}

/// The characters of a name table that a search over `start..=end` finds.
pub open spec fn names_found(
    names: Seq<(u32, Seq<char>)>,
    query: Seq<char>,
    start: u32,
    end: u32,
) -> Seq<char>
    decreases names.len(),
{
    if names.len() == 0 {
        Seq::empty()
    } else {
        let before = names_found(names.drop_last(), query, start, end);
        if entry_found(names.last(), query, start, end) {
            before.push(names.last().0 as char)
        } else {
            before
        }
    }
}

/// A character of a range that is shown, and whose derived name holds the
/// lowercase text `part`, letter case aside.
pub open spec fn derived_found(label: Seq<char>, part: Seq<char>, code: int) -> bool {
    shown(code) && has_part(lowercase(derived_name(label, code as u32)), part)
}

/// The characters of `start..=end` that are shown, and whose names by a range's
/// label hold the lowercase text `part`, in ascending order.
pub open spec fn derived_chars(label: Seq<char>, part: Seq<char>, start: int, end: int) -> Seq<char>
    decreases end - start + 1,
{
    if start > end {
        Seq::empty()
    } else if derived_found(label, part, end) {
        derived_chars(label, part, start, end - 1).push(end as char)
    } else {
        derived_chars(label, part, start, end - 1)
    }
}

/// The characters of one range that a search over `start..=end` finds: those
/// that are shown and whose derived name holds the query, letter case aside.
pub open spec fn range_found(
    range: (u32, u32, Seq<char>),
    query: Seq<char>,
    start: u32,
    end: u32,
) -> Seq<char> {
    derived_chars(
        range.2,
        lowercase(query),
        if start >= range.0 {
            start as int
        } else {
            range.0 as int
        },
        if end <= range.1 {
            end as int
        } else {
            range.1 as int
        },
    )
}

/// The characters of some ranges that a search over `start..=end` finds.
pub open spec fn ranges_found(
    ranges: Seq<(u32, u32, Seq<char>)>,
    query: Seq<char>,
    start: u32,
    end: u32,
) -> Seq<char>
    decreases ranges.len(),
{
    if ranges.len() == 0 {
        Seq::empty()
    } else {
        ranges_found(ranges.drop_last(), query, start, end) + range_found(
            ranges.last(),
            query,
            start,
            end,
        )
    }
}

/// The characters that a search over some blocks finds: block by block, first
/// those with a name of their own, then those of the named ranges.
pub open spec fn all_found(
    names: Seq<(u32, Seq<char>)>,
    ranges: Seq<(u32, u32, Seq<char>)>,
    query: Seq<char>,
    sections: Seq<UnicodeEntry>,
) -> Seq<char>
    decreases sections.len(),
{
    if sections.len() == 0 {
        Seq::empty()
    } else {
        let section = sections.last();
        all_found(names, ranges, query, sections.drop_last()) + names_found(
            names,
            query,
            section.start_index,
            section.end_index,
        ) + ranges_found(ranges, query, section.start_index, section.end_index)
    }
}

/// A list cut off after `max` places.
pub open spec fn capped(s: Seq<char>, max: nat) -> Seq<char> {
    if s.len() <= max {
        s
    } else {
        s.take(max as int)
    }
}

/// Cutting off before more is added changes nothing after.
proof fn lemma_capped(a: Seq<char>, b: Seq<char>, max: nat)
    ensures
        capped(capped(a, max) + b, max) == capped(a + b, max),
{
    assert(capped(capped(a, max) + b, max) =~= capped(a + b, max));
}

/// Entries before a range of codepoints are not found in it.
proof fn lemma_names_before(
    names: Seq<(u32, Seq<char>)>,
    query: Seq<char>,
    start: u32,
    end: u32,
)
    requires
        forall|i: int| 0 <= i < names.len() ==> (#[trigger] names[i]).0 < start,
    ensures
        names_found(names, query, start, end) == Seq::<char>::empty(),
    decreases names.len(),
{
    if names.len() > 0 {
        lemma_names_before(names.drop_last(), query, start, end);
    }
}

/// Entries after a range of codepoints are not found in it.
proof fn lemma_names_after(
    names: Seq<(u32, Seq<char>)>,
    query: Seq<char>,
    start: u32,
    end: u32,
    k: int,
)
    requires
        0 <= k <= names.len(),
        forall|i: int| k <= i < names.len() ==> (#[trigger] names[i]).0 > end,
    ensures
        names_found(names, query, start, end) == names_found(names.take(k), query, start, end),
    decreases names.len(),
{
    if k < names.len() {
        lemma_names_after(names.drop_last(), query, start, end, k);
        assert(names.drop_last().take(k) =~= names.take(k));
    } else {
        assert(names.take(k) =~= names);
    }
}

/// The tables name each codepoint in one place.
pub open spec fn tables_disjoint(
    names: Seq<(u32, Seq<char>)>,
    ranges: Seq<(u32, u32, Seq<char>)>,
) -> bool {
    &&& names_ascend(names)
    &&& forall|i: int, j: int|
        0 <= i < names.len() && 0 <= j < ranges.len() ==> !((#[trigger] ranges[j]).0 <= (
        #[trigger] names[i]).0 <= ranges[j].1)
    &&& forall|i: int, j: int|
        0 <= i < j < ranges.len() ==> (#[trigger] ranges[i]).1 < (#[trigger] ranges[j]).0
            || ranges[j].1 < ranges[i].0
}

/// A codepoint lies in one of some ranges.
pub open spec fn in_ranges(ranges: Seq<(u32, u32, Seq<char>)>, code: u32) -> bool {
    exists|j: int| 0 <= j < ranges.len() && (#[trigger] ranges[j]).0 <= code <= ranges[j].1
}

/// The entries of a name table whose codepoints lie in none of some ranges.
pub open spec fn outside_ranges(
    names: Seq<(u32, Seq<char>)>,
    ranges: Seq<(u32, u32, Seq<char>)>,
) -> Seq<(u32, Seq<char>)>
    decreases names.len(),
{
    if names.len() == 0 {
        Seq::empty()
    } else {
        let before = outside_ranges(names.drop_last(), ranges);
        if in_ranges(ranges, names.last().0) {
            before
        } else {
            before.push(names.last())
        }
    }
}

/// The ranges of the database.
pub open spec fn database_ranges() -> Seq<(u32, u32, Seq<char>)> {
    rows_view(RANGES@)
}

/// The characters of the database that have a name of their own.
pub open spec fn database_names() -> Seq<(u32, Seq<char>)> {
    outside_ranges(single_codes(table_rows(NAMES@, false)), database_ranges())
}

/// Whether a codepoint lies in one of some ranges.
fn lies_in_ranges(ranges: &[Row], code: u32) -> (r: bool)
    ensures
        r == in_ranges(rows_view(ranges@), code),
{
    let ghost seen = rows_view(ranges@);
    let mut i: usize = 0;
    while i < ranges.len()
        invariant
            i <= ranges@.len(),
            seen == rows_view(ranges@),
            forall|j: int| 0 <= j < i ==> !((#[trigger] seen[j]).0 <= code <= seen[j].1),
        decreases ranges@.len() - i,
    {
        assert(seen[i as int] == (ranges@[i as int].0, ranges@[i as int].1, ranges@[i as int].2@));
        if ranges[i].0 <= code && code <= ranges[i].1 {
            return true;
        }
        i += 1;
    }
    false
}

/// Ascending entries outside some ranges still ascend, and none of them lies in a
/// range.
proof fn lemma_outside_ranges(
    names: Seq<(u32, Seq<char>)>,
    ranges: Seq<(u32, u32, Seq<char>)>,
)
    requires
        names_ascend(names),
    ensures
        names_ascend(outside_ranges(names, ranges)),
        forall|i: int|
            0 <= i < outside_ranges(names, ranges).len() ==> !in_ranges(
                ranges,
                (#[trigger] outside_ranges(names, ranges)[i]).0,
            ) && outside_ranges(names, ranges)[i].0 <= names.last().0,
    decreases names.len(),
{
    if names.len() > 0 {
        let fewer = names.drop_last();
        let before = outside_ranges(fewer, ranges);
        let now = outside_ranges(names, ranges);
        let last = names.len() - 1;
        assert(names_ascend(fewer)) by {
            assert forall|i: int, j: int| 0 <= i < j < fewer.len() implies (
            #[trigger] fewer[i]).0 < (#[trigger] fewer[j]).0 by {
                assert(fewer[i] == names[i] && fewer[j] == names[j]);
            }
        }
        lemma_outside_ranges(fewer, ranges);
        if fewer.len() > 0 {
            assert(names[last - 1].0 < names[last].0);
        }
        assert forall|i: int| 0 <= i < now.len() implies !in_ranges(
            ranges,
            (#[trigger] now[i]).0,
        ) && now[i].0 <= names.last().0 by {
            if i < before.len() {
                assert(now[i] == before[i]);
            }
        }
        assert forall|i: int, j: int| 0 <= i < j < now.len() implies (#[trigger] now[i]).0 < (
        #[trigger] now[j]).0 by {
            assert(now[i] == before[i]);
            if j < before.len() {
                assert(now[j] == before[j]);
            }
        }
    }
}

/// The ranges of the database do not overlap.
proof fn lemma_ranges_apart()
    ensures
        forall|i: int, j: int|
            0 <= i < j < database_ranges().len() ==> (#[trigger] database_ranges()[i]).1 < (
            #[trigger] database_ranges()[j]).0,
{
    let ranges = database_ranges();
    assert forall|i: int, j: int| 0 <= i < j < ranges.len() implies (#[trigger] ranges[i]).1 < (
    #[trigger] ranges[j]).0 by {
        assert(ranges[i] == (RANGES@[i].0, RANGES@[i].1, RANGES@[i].2@));
        assert(ranges[j] == (RANGES@[j].0, RANGES@[j].1, RANGES@[j].2@));
    }
}

/// Provides Unicode names for characters.
pub struct CharacterNames {
    names: Vec<(u32, &'static str)>,
    ranges: Vec<Row>,
}

impl CharacterNames {
    /// The characters with a name of their own.
    pub closed spec fn names(&self) -> Seq<(u32, Seq<char>)> {
        names_view(self.names@)
    }

    /// The ranges of characters that are named by rule.
    pub closed spec fn ranges(&self) -> Seq<(u32, u32, Seq<char>)> {
        rows_view(self.ranges@)
    }

    #[verifier::type_invariant]
    spec fn well_formed(self) -> bool {
        names_ascend(self.names()) && ranges_derivable(self.ranges())
    }

    /// The names of the Unicode Character Database. Each codepoint is named in one
    /// place: those that lie in a range are named by the range.
    pub fn new() -> (r: Self)
        ensures
            r.names() == database_names(),
            r.ranges() == database_ranges(),
            tables_disjoint(r.names(), r.ranges()),
    {
        let table = RANGES;
        let mut ranges: Vec<Row> = Vec::new();
        let mut i: usize = 0;
        while i < 17
            invariant
                i <= 17,
                table == RANGES,
                ranges@ == table@.take(i as int),
            decreases 17 - i,
        {
            ranges.push(table[i]);
            i += 1;
            assert(table@.take(i as int) =~= table@.take(i - 1).push(table@[i - 1]));
        }
        assert(ranges@ =~= RANGES@);

        let parts = NAMES;
        let rows = parse_table(&parts, false);
        let ghost listed = single_codes(rows_view(rows@));
        let mut names: Vec<(u32, &'static str)> = Vec::new();
        let mut i: usize = 0;
        proof {
            assert(listed.take(0) =~= Seq::<(u32, Seq<char>)>::empty());
            assert(names_view(names@) =~= Seq::<(u32, Seq<char>)>::empty());
        }
        while i < rows.len()
            invariant
                i <= rows@.len(),
                listed == single_codes(rows_view(rows@)),
                names_view(names@) == outside_ranges(
                    listed.take(i as int),
                    rows_view(ranges@),
                ),
            decreases rows@.len() - i,
        {
            let (code, _, name) = rows[i];
            let ghost before = names_view(names@);
            assert(listed.take(i + 1).drop_last() =~= listed.take(i as int));
            assert(listed.take(i + 1).last() == (code, name@));
            if !lies_in_ranges(&ranges, code) {
                names.push((code, name));
                assert(names_view(names@) =~= before.push((code, name@)));
            }
            i += 1;
        }
        proof {
            let seen = rows_view(rows@);
            assert(listed.take(i as int) =~= listed);
            assert forall|a: int, b: int| 0 <= a < b < listed.len() implies (
            #[trigger] listed[a]).0 < (#[trigger] listed[b]).0 by {
                assert(seen[a].0 <= seen[a].1);
                assert(seen[a].1 < seen[b].0);
            }
            lemma_outside_ranges(listed, rows_view(ranges@));
            lemma_ranges_derivable();
            lemma_ranges_apart();
        }
        CharacterNames { names, ranges }
    }

    /// The names of the given tables: of characters with a name of their own,
    /// in ascending order, and of ranges of characters that are named by rule.
    pub fn with_tables(names: Vec<(u32, &'static str)>, ranges: Vec<Row>) -> (r: Self)
        requires
            names_ascend(names_view(names@)),
            ranges_derivable(rows_view(ranges@)),
        ensures
            r.names() == names_view(names@),
            r.ranges() == rows_view(ranges@),
    {
        CharacterNames { names, ranges }
    }

    /// The number of named codepoints below `code`.
    fn names_below(&self, code: u32) -> (n: usize)
        ensures
            n <= self.names@.len(),
            forall|i: int| 0 <= i < n ==> (#[trigger] self.names@[i]).0 < code,
            forall|i: int| n <= i < self.names@.len() ==> (#[trigger] self.names@[i]).0 >= code,
    {
        proof {
            use_type_invariant(self);
        }
        let mut low: usize = 0;
        let mut high: usize = self.names.len();
        while low < high
            invariant
                self.well_formed(),
                low <= high <= self.names@.len(),
                forall|i: int| 0 <= i < low ==> (#[trigger] self.names@[i]).0 < code,
                forall|i: int| high <= i < self.names@.len() ==> (#[trigger] self.names@[i]).0
                    >= code,
            decreases high - low,
        {
            let middle: usize = low + (high - low) / 2;
            proof {
                let seen = self.names();
                assert forall|i: int| 0 <= i < self.names@.len() implies (
                #[trigger] self.names@[i]).0 == seen[i].0 by {}
                assert(self.names@[middle as int].0 == seen[middle as int].0);
                assert(forall|i: int| 0 <= i < middle ==> seen[i].0 < seen[middle as int].0);
                assert(forall|i: int|
                    middle < i < seen.len() ==> seen[middle as int].0 < seen[i].0);
            }
            if self.names[middle].0 < code {
                low = middle + 1;
            } else {
                high = middle;
            }
        }
        low
    }

    /// Returns the Unicode name of `ch`, if one is defined.
    pub fn name(&self, ch: char) -> (r: Option<String>)
        ensures
            match r {
                Some(name) => name_of(self.names(), self.ranges(), ch as u32) == Some(name@),
                None => name_of(self.names(), self.ranges(), ch as u32) is None,
            },
    {
        proof {
            use_type_invariant(self);
        }
        let code: u32 = ch as u32;
        let index: usize = self.names_below(code);
        let ghost names = self.names();
        let ghost ranges = self.ranges();
        if index < self.names.len() && self.names[index].0 == code {
            proof {
                assert(entry_of(names, code, index as int));
                let i = choose|i: int| entry_of(names, code, i);
                if i < index {
                    assert(self.names@[i].0 < code);
                }
                assert(i == index);
            }
            return Some(self.names[index].1.to_owned());
        }
        proof {
            assert forall|i: int| !entry_of(names, code, i) by {
                if entry_of(names, code, i) {
                    assert(self.names@[i].0 == code);
                    if index < i {
                        assert(names[index as int].0 < names[i].0);
                        assert(self.names@[index as int].0 == names[index as int].0);
                    }
                }
            }
        }
        let mut k: usize = 0;
        while k < self.ranges.len()
            invariant
                self.well_formed(),
                names == self.names(),
                ranges == self.ranges(),
                k <= self.ranges@.len(),
                code == ch as u32,
                forall|i: int| !entry_of(names, code, i),
                forall|j: int| 0 <= j < k ==> !((#[trigger] ranges[j]).0 <= code <= ranges[j].1),
            decreases self.ranges@.len() - k,
        {
            let (start, end, label) = self.ranges[k];
            assert(ranges[k as int] == (start, end, label@));
            if start <= code && code <= end {
                proof {
                    assert(range_of(ranges, code, k as int));
                    let i = choose|i: int| range_of(ranges, code, i);
                    if i < k {
                        assert(!(ranges[i].0 <= code <= ranges[i].1));
                    }
                    assert(i == k);
                }
                return Some(range_name(label, code));
            }
            k += 1;
        }
        None
    }

    /// Adds the characters of the name table that a search over `start..=end`
    /// finds, up to `max_results` in all.
    fn search_names(
        &self,
        query: &str,
        start: u32,
        end: u32,
        max_results: usize,
        matches: &mut Vec<char>,
    )
        requires
            old(matches)@.len() <= max_results,
        ensures
            final(matches)@ == capped(
                old(matches)@ + names_found(self.names(), query@, start, end),
                max_results as nat,
            ),
    {
        proof {
            use_type_invariant(self);
        }
        let ghost names = self.names();
        let ghost given = matches@;
        let query_lower = to_lowercase(query);
        let low: usize = self.names_below(start);
        let mut i: usize = low;
        proof {
            assert forall|j: int| 0 <= j < low implies (#[trigger] names.take(low as int)[j]).0
                < start by {
                assert(self.names@[j].0 < start);
            }
            lemma_names_before(names.take(low as int), query@, start, end);
            assert(given + Seq::<char>::empty() =~= given);
        }
        while i < self.names.len() && self.names[i].0 <= end && matches.len() < max_results
            invariant
                self.well_formed(),
                names == self.names(),
                query_lower@ == lowercase(query@),
                low <= i <= self.names@.len(),
                forall|j: int| low <= j < self.names@.len() ==> (#[trigger] self.names@[j]).0
                    >= start,
                matches@.len() <= max_results,
                matches@ == given + names_found(names.take(i as int), query@, start, end),
            decreases self.names@.len() - i,
        {
            let (code, name) = self.names[i];
            assert(names[i as int] == (code, name@));
            assert(self.names@[i as int].0 >= start);
            assert(names.take(i + 1).drop_last() =~= names.take(i as int));
            let ghost before = names_found(names.take(i as int), query@, start, end);
            if let Some(ch) = shown_char(code) {
                if contains(to_lowercase(name).as_str(), query_lower.as_str()) {
                    matches.push(ch);
                    assert(matches@ =~= given + before.push(ch));
                }
            }
            i += 1;
        }
        proof {
            let found = names_found(names, query@, start, end);
            if i < self.names@.len() && matches@.len() < max_results {
                assert forall|j: int| i <= j < names.len() implies (#[trigger] names[j]).0 > end by {
                    assert(self.names@[i as int].0 == names[i as int].0);
                }
                lemma_names_after(names, query@, start, end, i as int);
            } else if i == self.names@.len() {
                assert(names.take(i as int) =~= names);
            } else {
                lemma_names_prefix(names, query@, start, end, i as int);
                assert(capped(given + found, max_results as nat) =~= matches@);
            }
        }
    }

    /// Adds the characters of the ranges that a search over `start..=end` finds,
    /// up to `max_results` in all.
    fn search_ranges(
        &self,
        query: &str,
        start: u32,
        end: u32,
        max_results: usize,
        matches: &mut Vec<char>,
    )
        requires
            old(matches)@.len() <= max_results,
        ensures
            final(matches)@ == capped(
                old(matches)@ + ranges_found(self.ranges(), query@, start, end),
                max_results as nat,
            ),
    {
        proof {
            use_type_invariant(self);
        }
        let ghost ranges = self.ranges();
        let ghost given = matches@;
        let query_lower = to_lowercase(query);
        let mut k: usize = 0;
        proof {
            assert(ranges.take(0) =~= Seq::<(u32, u32, Seq<char>)>::empty());
            assert(given + Seq::<char>::empty() =~= given);
        }
        while k < self.ranges.len()
            invariant
                self.well_formed(),
                ranges == self.ranges(),
                query_lower@ == lowercase(query@),
                k <= self.ranges@.len(),
                matches@.len() <= max_results,
                matches@ == capped(
                    given + ranges_found(ranges.take(k as int), query@, start, end),
                    max_results as nat,
                ),
            decreases self.ranges@.len() - k,
        {
            let (range_start, range_end, label) = self.ranges[k];
            let ghost range = ranges[k as int];
            let ghost before = ranges_found(ranges.take(k as int), query@, start, end);
            let ghost more = range_found(range, query@, start, end);
            proof {
                assert(range == (range_start, range_end, label@));
                assert(ranges.take(k + 1).drop_last() =~= ranges.take(k as int));
                lemma_capped(given + before, more, max_results as nat);
                assert(given + (before + more) =~= (given + before) + more);
            }
            let overlap_start: u32 = if start >= range_start {
                start
            } else {
                range_start
            };
            let overlap_end: u32 = if end <= range_end {
                end
            } else {
                range_end
            };
            search_range(
                label,
                query_lower.as_str(),
                overlap_start,
                overlap_end,
                max_results,
                matches,
            );
            k += 1;
        }
        assert(ranges.take(k as int) =~= ranges);
    }

    /// Finds up to `max_results` displayable characters within `sections`
    /// whose name contains `query` (case-insensitive).
    ///
    /// Characters with a name of their own are tried one by one. Those of an
    /// algorithmically named range are tried only where the query can reach into
    /// the digits that tell their names apart; otherwise all of them match or
    /// none does.
    pub fn search(&self, query: &str, sections: &[UnicodeEntry], max_results: usize) -> (matches:
        Vec<char>)
        ensures
            matches@ == capped(
                all_found(self.names(), self.ranges(), query@, sections@),
                max_results as nat,
            ),
    {
        let mut matches: Vec<char> = Vec::new();
        let mut i: usize = 0;
        assert(sections@.take(0) =~= Seq::<UnicodeEntry>::empty());
        while i < sections.len()
            invariant
                i <= sections@.len(),
                matches@.len() <= max_results,
                matches@ == capped(
                    all_found(self.names(), self.ranges(), query@, sections@.take(i as int)),
                    max_results as nat,
                ),
            decreases sections@.len() - i,
        {
            let start: u32 = sections[i].start_index;
            let end: u32 = sections[i].end_index;
            proof {
                let before = all_found(
                    self.names(),
                    self.ranges(),
                    query@,
                    sections@.take(i as int),
                );
                let own = names_found(self.names(), query@, start, end);
                let derived = ranges_found(self.ranges(), query@, start, end);
                assert(sections@.take(i + 1).drop_last() =~= sections@.take(i as int));
                lemma_capped(before, own, max_results as nat);
                lemma_capped(before + own, derived, max_results as nat);
            }
            self.search_names(query, start, end, max_results, &mut matches);
            self.search_ranges(query, start, end, max_results, &mut matches);
            i += 1;
        }
        assert(sections@.take(i as int) =~= sections@);
        matches
    }
}

/// The characters found among some first entries come first.
proof fn lemma_names_prefix(
    names: Seq<(u32, Seq<char>)>,
    query: Seq<char>,
    start: u32,
    end: u32,
    k: int,
)
    requires
        0 <= k <= names.len(),
    ensures
        names_found(names.take(k), query, start, end).is_prefix_of(
            names_found(names, query, start, end),
        ),
    decreases names.len(),
{
    if k < names.len() {
        lemma_names_prefix(names.drop_last(), query, start, end, k);
        assert(names.drop_last().take(k) =~= names.take(k));
    } else {
        assert(names.take(k) =~= names);
    }
}

/// The lowercase form of what the names of a range have in common, before the
/// hyphen and the digits, if they are ASCII and of that form.
pub open spec fn fixed_part(label: Seq<char>) -> Option<Seq<char>> {
    if "CJK Ideograph"@.is_prefix_of(label) {
        Some(lowercase("CJK Ideograph"@))
    } else if "Tangut Ideograph"@.is_prefix_of(label) {
        Some(lowercase("Tangut Ideograph"@))
    } else if label == "Hangul Syllable"@ || !is_ascii_chars(label) {
        None
    } else {
        Some(lowercase(label))
    }
}

/// A hexadecimal digit in lowercase.
pub open spec fn hex_digit(c: char) -> bool {
    '0' <= c <= '9' || 'a' <= c <= 'f'
}

/// A text that can stand in a name of a fixed part, a hyphen and digits without
/// standing in the fixed part: it ends with the hyphen or a digit, and has the
/// hyphen in it or is all digits.
pub open spec fn reaches_digits(part: Seq<char>) -> bool {
    &&& part.len() > 0
    &&& part.last() == '-' || hex_digit(part.last())
    &&& part.contains('-') || forall|i: int| 0 <= i < part.len() ==> hex_digit(#[trigger] part[i])
}

/// What the names of a range have in common.
fn common_part(label: &str) -> (r: Option<String>)
    ensures
        match r {
            Some(part) => fixed_part(label@) == Some(part@),
            None => fixed_part(label@) is None,
        },
{
    if starts_with(label, "CJK Ideograph") {
        Some(to_lowercase("CJK Ideograph"))
    } else if starts_with(label, "Tangut Ideograph") {
        Some(to_lowercase("Tangut Ideograph"))
    } else if label.to_owned() == "Hangul Syllable".to_owned() || !label.is_ascii() {
        None
    } else {
        Some(to_lowercase(label))
    }
}

/// Whether a lowercase text can reach into the digits of a name.
fn can_reach_digits(part: &str) -> (r: bool)
    ensures
        r == reaches_digits(part@),
{
    let chars = chars_of(part);
    if chars.len() == 0 {
        return false;
    }
    let last: char = chars[chars.len() - 1];
    if last != '-' && !is_hex_digit(last) {
        return false;
    }
    let mut all_digits = true;
    let mut i: usize = 0;
    while i < chars.len()
        invariant
            i <= chars@.len(),
            chars@ == part@,
            chars@.len() > 0,
            chars@.last() == '-' || hex_digit(chars@.last()),
            forall|j: int| 0 <= j < i ==> #[trigger] chars@[j] != '-',
            all_digits == (forall|j: int| 0 <= j < i ==> hex_digit(#[trigger] chars@[j])),
        decreases chars@.len() - i,
    {
        if chars[i] == '-' {
            assert(part@.contains('-')) by {
                assert(part@[i as int] == '-');
            }
            return true;
        }
        if !is_hex_digit(chars[i]) {
            all_digits = false;
        }
        i += 1;
    }
    all_digits
}

/// Whether a character is a hexadecimal digit in lowercase.
fn is_hex_digit(c: char) -> (r: bool)
    ensures
        r == hex_digit(c),
{
    ('0' <= c && c <= '9') || ('a' <= c && c <= 'f')
}

/// Adds the shown characters of `start..=end` whose names by a range's label hold
/// the lowercase text `part`, up to `max_results` in all.
fn search_range(
    label: &str,
    part: &str,
    start: u32,
    end: u32,
    max_results: usize,
    matches: &mut Vec<char>,
)
    requires
        old(matches)@.len() <= max_results,
        label@ == "Hangul Syllable"@ && start <= end ==> 0xAC00 <= start && end <= 0xD7A3,
    ensures
        final(matches)@ == capped(
            old(matches)@ + derived_chars(label@, part@, start as int, end as int),
            max_results as nat,
        ),
{
    if let Some(common) = common_part(label) {
        if contains(common.as_str(), part) {
            proof {
                lemma_all_derived(label@, part@, start as int, end as int);
            }
            add_shown(start, end, max_results, matches);
            return;
        }
        if !can_reach_digits(part) {
            proof {
                lemma_none_derived(label@, part@, start as int, end as int);
                assert(matches@ + Seq::<char>::empty() =~= matches@);
            }
            return;
        }
    }
    add_derived(label, part, start, end, max_results, matches);
}

/// Adds the shown characters of `start..=end` whose names by a range's label hold
/// the lowercase text `part`, each of them tried, up to `max_results` in all.
fn add_derived(
    label: &str,
    part: &str,
    start: u32,
    end: u32,
    max_results: usize,
    matches: &mut Vec<char>,
)
    requires
        old(matches)@.len() <= max_results,
        label@ == "Hangul Syllable"@ && start <= end ==> 0xAC00 <= start && end <= 0xD7A3,
    ensures
        final(matches)@ == capped(
            old(matches)@ + derived_chars(label@, part@, start as int, end as int),
            max_results as nat,
        ),
{
    let ghost given = matches@;
    if start > end {
        assert(given + Seq::<char>::empty() =~= given);
        return;
    }
    let mut code: u32 = start;
    proof {
        assert(derived_chars(label@, part@, start as int, start - 1) =~= Seq::<char>::empty());
        assert(given + Seq::<char>::empty() =~= given);
    }
    loop
        invariant
            given == old(matches)@,
            start <= code <= end,
            label@ == "Hangul Syllable"@ ==> 0xAC00 <= start && end <= 0xD7A3,
            matches@.len() <= max_results,
            matches@ == given + derived_chars(label@, part@, start as int, code - 1),
        decreases end - code,
    {
        if matches.len() == max_results {
            proof {
                lemma_derived_prefix(label@, part@, start as int, code - 1, end as int);
                assert(capped(
                    given + derived_chars(label@, part@, start as int, end as int),
                    max_results as nat,
                ) =~= matches@);
            }
            return;
        }
        let ghost before = derived_chars(label@, part@, start as int, code - 1);
        if let Some(ch) = shown_char(code) {
            if contains(to_lowercase(range_name(label, code).as_str()).as_str(), part) {
                matches.push(ch);
                assert(matches@ =~= given + before.push(ch));
            }
        }
        if code == end {
            return;
        }
        code += 1;
    }
}

/// What is found in the first part of a range comes first.
proof fn lemma_derived_prefix(label: Seq<char>, part: Seq<char>, start: int, middle: int, end: int)
    requires
        start <= middle + 1,
        middle <= end,
    ensures
        derived_chars(label, part, start, middle).is_prefix_of(
            derived_chars(label, part, start, end),
        ),
    decreases end - middle,
{
    if middle < end {
        lemma_derived_prefix(label, part, start, middle, end - 1);
    }
}

/// Where what the names have in common holds the text, every shown character is
/// found.
proof fn lemma_all_derived(label: Seq<char>, part: Seq<char>, start: int, end: int)
    requires
        0 <= start,
        fixed_part(label) is Some,
        has_part(fixed_part(label)->0, part),
    ensures
        derived_chars(label, part, start, end) == shown_chars(start, end),
    decreases end - start + 1,
{
    if start <= end {
        lemma_all_derived(label, part, start, end - 1);
        let name = lowercase(derived_name(label, end as u32));
        lemma_fixed_part(label, end as u32);
        lemma_part_of_prefix(name, fixed_part(label)->0, part);
    }
}

/// Where what the names have in common does not hold the text, and the text does
/// not reach into the digits, no character is found.
proof fn lemma_none_derived(label: Seq<char>, part: Seq<char>, start: int, end: int)
    requires
        0 <= start,
        fixed_part(label) is Some,
        !has_part(fixed_part(label)->0, part),
        !reaches_digits(part),
    ensures
        derived_chars(label, part, start, end) == Seq::<char>::empty(),
    decreases end - start + 1,
{
    if start <= end {
        lemma_none_derived(label, part, start, end - 1);
        let name = lowercase(derived_name(label, end as u32));
        let fixed = fixed_part(label)->0;
        lemma_fixed_part(label, end as u32);
        if has_part(name, part) {
            let i = choose|i: int| stands_at(name, part, i);
            let n = fixed.len() as int;
            if i + part.len() <= n {
                assert(fixed.subrange(i, i + part.len()) =~= name.subrange(i, i + part.len()));
                assert(stands_at(fixed, part, i));
            } else {
                assert forall|j: int| 0 <= j < part.len() implies #[trigger] part[j] == name[i
                    + j] by {
                    assert(name.subrange(i, i + part.len())[j] == name[i + j]);
                }
                let last = part.len() - 1;
                if part.len() == 0 {
                    assert(fixed.subrange(0, 0) =~= part);
                    assert(stands_at(fixed, part, 0));
                } else {
                    assert(part[last] == '-' || hex_digit(part[last]));
                    if i <= n {
                        assert(part[n - i] == '-');
                        assert(part.contains('-'));
                    } else {
                        assert(forall|j: int|
                            0 <= j < part.len() ==> hex_digit(#[trigger] part[j]));
                    }
                }
            }
        }
    }
}

/// The lowercase name by a label with a fixed part is that part, a hyphen and
/// hexadecimal digits.
proof fn lemma_fixed_part(label: Seq<char>, code: u32)
    requires
        fixed_part(label) is Some,
    ensures
        ({
            let fixed = fixed_part(label)->0;
            let name = lowercase(derived_name(label, code));
            &&& fixed.len() < name.len()
            &&& fixed.is_prefix_of(name)
            &&& name[fixed.len() as int] == '-'
            &&& forall|i: int| fixed.len() < i < name.len() ==> hex_digit(#[trigger] name[i])
        }),
{
    reveal_strlit("CJK Ideograph");
    reveal_strlit("CJK Ideograph-");
    reveal_strlit("Tangut Ideograph");
    reveal_strlit("Tangut Ideograph-");
    reveal_strlit("-");
    let fixed = fixed_part(label)->0;
    let name = derived_name(label, code);
    let tail = code_digits(code);
    lemma_code_digits_hex(code);
    let head = name.take(name.len() - tail.len());
    assert(name =~= head + tail);
    assert(is_ascii_chars(name));
    assert(head.len() == fixed.len() + 1);
    assert(lowercase(name).take(fixed.len() as int) =~= fixed);
    assert forall|i: int| fixed.len() < i < name.len() implies hex_digit(
        #[trigger] lowercase(name)[i],
    ) by {
        assert(name[i] == tail[i - head.len()]);
    }
}

/// The digits of a codepoint are hexadecimal digits in capitals.
proof fn lemma_code_digits_hex(code: u32)
    ensures
        forall|i: int|
            0 <= i < code_digits(code).len() ==> ('0' <= #[trigger] code_digits(code)[i] <= '9'
                || 'A' <= code_digits(code)[i] <= 'F'),
{
    lemma_digits_hex(code as nat);
}

/// The digits of a number in base sixteen are hexadecimal digits in capitals.
proof fn lemma_digits_hex(n: nat)
    ensures
        forall|i: int|
            0 <= i < digits(n, 16).len() ==> ('0' <= #[trigger] digits(n, 16)[i] <= '9' || 'A'
                <= digits(n, 16)[i] <= 'F'),
    decreases n,
{
    if n >= 16 {
        lemma_digits_hex(n / 16);
        let high = digits(n / 16, 16);
        assert forall|i: int| 0 <= i < digits(n, 16).len() implies ('0' <= #[trigger] digits(
            n,
            16,
        )[i] <= '9' || 'A' <= digits(n, 16)[i] <= 'F') by {
            if i < high.len() {
                assert(digits(n, 16)[i] == high[i]);
            }
        }
    }
}

/// Adds the shown characters of `start..=end`, up to `max_results` in all.
fn add_shown(start: u32, end: u32, max_results: usize, matches: &mut Vec<char>)
    requires
        old(matches)@.len() <= max_results,
    ensures
        final(matches)@ == capped(
            old(matches)@ + shown_chars(start as int, end as int),
            max_results as nat,
        ),
{
    let ghost given = matches@;
    if start > end {
        assert(given + Seq::<char>::empty() =~= given);
        return;
    }
    let mut code: u32 = start;
    proof {
        assert(shown_chars(start as int, start - 1) =~= Seq::<char>::empty());
        assert(given + Seq::<char>::empty() =~= given);
    }
    loop
        invariant
            given == old(matches)@,
            start <= code <= end,
            matches@.len() <= max_results,
            matches@ == given + shown_chars(start as int, code - 1),
        decreases end - code,
    {
        if matches.len() == max_results {
            proof {
                lemma_shown_prefix(start as int, code - 1, end as int);
                assert(capped(
                    given + shown_chars(start as int, end as int),
                    max_results as nat,
                ) =~= matches@);
            }
            return;
        }
        let ghost before = shown_chars(start as int, code - 1);
        if let Some(ch) = shown_char(code) {
            matches.push(ch);
            assert(matches@ =~= given + before.push(ch));
        }
        if code == end {
            return;
        }
        code += 1;
    }
}

/// The shown characters of the first part of a range come first.
proof fn lemma_shown_prefix(start: int, middle: int, end: int)
    requires
        start <= middle + 1,
        middle <= end,
    ensures
        shown_chars(start, middle).is_prefix_of(shown_chars(start, end)),
    decreases end - middle,
{
    if middle < end {
        lemma_shown_prefix(start, middle, end - 1);
    }
}

/// No range of the database is labelled as the Hangul syllables are.
proof fn lemma_ranges_derivable()
    ensures
        ranges_derivable(rows_view(RANGES@)),
{
    let ranges = rows_view(RANGES@);
    assert forall|i: int| 0 <= i < ranges.len() && (#[trigger] ranges[i]).2
        == "Hangul Syllable"@ implies 0xAC00 <= ranges[i].0 && ranges[i].1 <= 0xD7A3 by {
        assert(ranges[i] == (RANGES@[i].0, RANGES@[i].1, RANGES@[i].2@));
        lemma_range_literals(i);
    }
}

/// The labels of the database are ASCII, and none has a rule of its own.
proof fn lemma_range_literals(i: int)
    requires
        0 <= i < RANGES@.len(),
    ensures
        is_ascii_chars(RANGES@[i].2@),
        !"CJK Ideograph"@.is_prefix_of(RANGES@[i].2@),
        !"Tangut Ideograph"@.is_prefix_of(RANGES@[i].2@),
        RANGES@[i].2@ != "Hangul Syllable"@,
{
    let label = RANGES@[i].2@;
    reveal_strlit("CJK Ideograph");
    reveal_strlit("Tangut Ideograph");
    reveal_strlit("Hangul Syllable");
    reveal_strlit("Cjk ideograph extension a");
    reveal_strlit("Cjk ideograph");
    reveal_strlit("Hangul syllable");
    reveal_strlit("Non private use high surrogate");
    reveal_strlit("Private use high surrogate");
    reveal_strlit("Low surrogate");
    reveal_strlit("Private use");
    reveal_strlit("Tangut ideograph");
    reveal_strlit("Tangut ideograph supplement");
    reveal_strlit("Cjk ideograph extension b");
    reveal_strlit("Cjk ideograph extension c");
    reveal_strlit("Cjk ideograph extension d");
    reveal_strlit("Cjk ideograph extension e");
    reveal_strlit("Cjk ideograph extension f");
    reveal_strlit("Cjk ideograph extension g");
    reveal_strlit("Plane 15 private use");
    reveal_strlit("Plane 16 private use");
    if "CJK Ideograph"@.is_prefix_of(label) {
        assert(label.take(13)[1] == 'J');
        assert(label[1] == 'J');
    }
    if "Tangut Ideograph"@.is_prefix_of(label) {
        assert(label.take(16)[7] == 'I');
        assert(label[7] == 'I');
    }
    if label == "Hangul Syllable"@ {
        assert(label[7] == 'S');
    }
}

/// A search finds only characters that are shown and lie in one of its blocks.
pub proof fn law_search_stays_within(
    names: Seq<(u32, Seq<char>)>,
    ranges: Seq<(u32, u32, Seq<char>)>,
    query: Seq<char>,
    sections: Seq<UnicodeEntry>,
    ch: char,
)
    requires
        all_found(names, ranges, query, sections).contains(ch),
    ensures
        shown(ch as int),
        exists|k: int|
            0 <= k < sections.len() && (#[trigger] sections[k]).start_index <= ch as u32
                <= sections[k].end_index,
    decreases sections.len(),
{
    let (k, own) = lemma_found_where(names, ranges, query, sections, ch);
    let section = sections[k];
    if own {
        let i = lemma_name_found(names, query, section.start_index, section.end_index, ch);
    } else {
        let i = lemma_range_found(ranges, query, section.start_index, section.end_index, ch);
    }
}

/// Where a found character comes from: a block, and whether it was found by a
/// name of its own there.
proof fn lemma_found_where(
    names: Seq<(u32, Seq<char>)>,
    ranges: Seq<(u32, u32, Seq<char>)>,
    query: Seq<char>,
    sections: Seq<UnicodeEntry>,
    ch: char,
) -> (r: (int, bool))
    requires
        all_found(names, ranges, query, sections).contains(ch),
    ensures
        0 <= r.0 < sections.len(),
        r.1 ==> names_found(
            names,
            query,
            sections[r.0].start_index,
            sections[r.0].end_index,
        ).contains(ch),
        !r.1 ==> ranges_found(
            ranges,
            query,
            sections[r.0].start_index,
            sections[r.0].end_index,
        ).contains(ch),
    decreases sections.len(),
{
    let section = sections.last();
    let before = all_found(names, ranges, query, sections.drop_last());
    let own = names_found(names, query, section.start_index, section.end_index);
    let derived = ranges_found(ranges, query, section.start_index, section.end_index);
    let all = all_found(names, ranges, query, sections);
    let at = choose|at: int| 0 <= at < all.len() && all[at] == ch;
    if at < before.len() {
        assert(before[at] == ch);
        lemma_found_where(names, ranges, query, sections.drop_last(), ch)
    } else if at < before.len() + own.len() {
        assert(own[at - before.len()] == ch);
        (sections.len() - 1, true)
    } else {
        assert(derived[at - before.len() - own.len()] == ch);
        (sections.len() - 1, false)
    }
}

/// The name table entry by which a character was found.
proof fn lemma_name_found(
    names: Seq<(u32, Seq<char>)>,
    query: Seq<char>,
    start: u32,
    end: u32,
    ch: char,
) -> (i: int)
    requires
        names_found(names, query, start, end).contains(ch),
    ensures
        0 <= i < names.len(),
        names[i].0 == ch as u32,
        entry_found(names[i], query, start, end),
    decreases names.len(),
{
    let all = names_found(names, query, start, end);
    let before = names_found(names.drop_last(), query, start, end);
    let at = choose|at: int| 0 <= at < all.len() && all[at] == ch;
    if at < before.len() {
        assert(before[at] == ch);
        lemma_name_found(names.drop_last(), query, start, end, ch)
    } else {
        names.len() - 1
    }
}

/// The range by which a character was found.
proof fn lemma_range_found(
    ranges: Seq<(u32, u32, Seq<char>)>,
    query: Seq<char>,
    start: u32,
    end: u32,
    ch: char,
) -> (i: int)
    requires
        ranges_found(ranges, query, start, end).contains(ch),
    ensures
        0 <= i < ranges.len(),
        ranges[i].0 <= ch as u32 <= ranges[i].1,
        start <= ch as u32 <= end,
        derived_found(ranges[i].2, lowercase(query), ch as int),
    decreases ranges.len(),
{
    let all = ranges_found(ranges, query, start, end);
    let before = ranges_found(ranges.drop_last(), query, start, end);
    let last = range_found(ranges.last(), query, start, end);
    let at = choose|at: int| 0 <= at < all.len() && all[at] == ch;
    if at < before.len() {
        assert(before[at] == ch);
        lemma_range_found(ranges.drop_last(), query, start, end, ch)
    } else {
        assert(last[at - before.len()] == ch);
        let low = if start >= ranges.last().0 {
            start as int
        } else {
            ranges.last().0 as int
        };
        let high = if end <= ranges.last().1 {
            end as int
        } else {
            ranges.last().1 as int
        };
        lemma_derived_member(ranges.last().2, lowercase(query), low, high, ch);
        ranges.len() - 1
    }
}

/// The characters found by a range's label are exactly the characters in the range
/// that are shown and whose derived name holds the text.
proof fn lemma_derived_member(label: Seq<char>, part: Seq<char>, start: int, end: int, ch: char)
    requires
        0 <= start,
    ensures
        derived_chars(label, part, start, end).contains(ch) <==> start <= ch as int <= end
            && derived_found(label, part, ch as int),
    decreases end - start + 1,
{
    if start <= end {
        lemma_derived_member(label, part, start, end - 1, ch);
        let all = derived_chars(label, part, start, end);
        let fewer = derived_chars(label, part, start, end - 1);
        if all.contains(ch) {
            let at = choose|at: int| 0 <= at < all.len() && all[at] == ch;
            if at < fewer.len() {
                assert(fewer[at] == ch);
            }
        }
        if start <= ch as int <= end && derived_found(label, part, ch as int) {
            if ch as int == end {
                assert(all[all.len() - 1] == ch);
            } else {
                let at = choose|at: int| 0 <= at < fewer.len() && fewer[at] == ch;
                assert(all[at] == ch);
            }
        }
    }
}

/// Every character that a search finds has a name that contains the query,
/// letter case aside.
pub proof fn law_search_finds_by_name(
    names: Seq<(u32, Seq<char>)>,
    ranges: Seq<(u32, u32, Seq<char>)>,
    query: Seq<char>,
    sections: Seq<UnicodeEntry>,
    ch: char,
)
    requires
        tables_disjoint(names, ranges),
        all_found(names, ranges, query, sections).contains(ch),
    ensures
        name_of(names, ranges, ch as u32) is Some,
        has_part(lowercase(name_of(names, ranges, ch as u32)->0), lowercase(query)),
{
    let (k, own) = lemma_found_where(names, ranges, query, sections, ch);
    let section = sections[k];
    let code = ch as u32;
    if own {
        let i = lemma_name_found(names, query, section.start_index, section.end_index, ch);
        assert(entry_of(names, code, i));
        let j = choose|j: int| entry_of(names, code, j);
        if i < j {
            assert(names[i].0 < names[j].0);
        } else if j < i {
            assert(names[j].0 < names[i].0);
        }
    } else {
        let i = lemma_range_found(ranges, query, section.start_index, section.end_index, ch);
        assert forall|j: int| !entry_of(names, code, j) by {
            if entry_of(names, code, j) {
                assert(!(ranges[i].0 <= names[j].0 <= ranges[i].1));
            }
        }
        assert(range_of(ranges, code, i)) by {
            assert forall|j: int| 0 <= j < i implies !((#[trigger] ranges[j]).0 <= code
                <= ranges[j].1) by {
                assert(ranges[j].1 < ranges[i].0 || ranges[i].1 < ranges[j].0);
            }
        }
        let j = choose|j: int| range_of(ranges, code, j);
        if j < i {
            assert(!(ranges[j].0 <= code <= ranges[j].1));
        } else if i < j {
            assert(!(ranges[i].0 <= code <= ranges[i].1));
        }
    }
}

/// What stands in the beginning of a text stands in the text.
proof fn lemma_part_of_prefix(s: Seq<char>, prefix: Seq<char>, part: Seq<char>)
    requires
        prefix.is_prefix_of(s),
        has_part(prefix, part),
    ensures
        has_part(s, part),
{
    let i = choose|i: int| stands_at(prefix, part, i);
    assert(s.subrange(i, i + part.len()) =~= prefix.subrange(i, i + part.len()));
    assert(stands_at(s, part, i));
}

/// The names of a range with a kept label start with the label, letter case
/// aside.
proof fn lemma_label_kept(label: Seq<char>, code: u32)
    requires
        label_kept(label),
        label == "Hangul Syllable"@ ==> hangul_syllable(code),
    ensures
        lowercase(label).is_prefix_of(lowercase(derived_name(label, code))),
{
    reveal_strlit("CJK Ideograph");
    reveal_strlit("CJK Ideograph-");
    reveal_strlit("Tangut Ideograph");
    reveal_strlit("Tangut Ideograph-");
    reveal_strlit("Hangul Syllable");
    reveal_strlit("HANGUL SYLLABLE ");
    reveal_strlit("-");
    let name = derived_name(label, code);
    lemma_code_digits_ascii(code);
    if label == "Hangul Syllable"@ {
        lemma_hangul_ascii(code);
    }
    assert(is_ascii_chars(name));
    assert(name.len() >= label.len());
    assert(lowercase(name).take(label.len() as int) =~= lowercase(label));
}

/// The digits of a codepoint are ASCII.
proof fn lemma_code_digits_ascii(code: u32)
    ensures
        is_ascii_chars(code_digits(code)),
{
    lemma_code_digits_hex(code);
}

/// The letters that vowels are written with in short names.
pub open spec fn vowel_letter(c: char) -> bool {
    c == 'A' || c == 'E' || c == 'I' || c == 'O' || c == 'U' || c == 'W' || c == 'Y'
}

/// The short names of the leading consonants are ASCII, without vowel letters.
proof fn lemma_jamo_leading(i: int)
    requires
        0 <= i < 19,
    ensures
        is_ascii_chars(JAMO_LEADING@[i]@),
        forall|k: int|
            0 <= k < JAMO_LEADING@[i]@.len() ==> !vowel_letter(#[trigger] JAMO_LEADING@[i]@[k]),
{
    reveal_strlit("G");
    reveal_strlit("GG");
    reveal_strlit("N");
    reveal_strlit("D");
    reveal_strlit("DD");
    reveal_strlit("R");
    reveal_strlit("M");
    reveal_strlit("B");
    reveal_strlit("BB");
    reveal_strlit("S");
    reveal_strlit("SS");
    reveal_strlit("");
    reveal_strlit("J");
    reveal_strlit("JJ");
    reveal_strlit("C");
    reveal_strlit("K");
    reveal_strlit("T");
    reveal_strlit("P");
    reveal_strlit("H");
}

/// The short names of the vowels are ASCII, of vowel letters, and none is empty.
proof fn lemma_jamo_vowel(i: int)
    requires
        0 <= i < 21,
    ensures
        is_ascii_chars(JAMO_VOWEL@[i]@),
        forall|k: int|
            0 <= k < JAMO_VOWEL@[i]@.len() ==> vowel_letter(#[trigger] JAMO_VOWEL@[i]@[k]),
        JAMO_VOWEL@[i]@.len() > 0,
{
    reveal_strlit("A");
    reveal_strlit("AE");
    reveal_strlit("YA");
    reveal_strlit("YAE");
    reveal_strlit("EO");
    reveal_strlit("E");
    reveal_strlit("YEO");
    reveal_strlit("YE");
    reveal_strlit("O");
    reveal_strlit("WA");
    reveal_strlit("WAE");
    reveal_strlit("OE");
    reveal_strlit("YO");
    reveal_strlit("U");
    reveal_strlit("WEO");
    reveal_strlit("WE");
    reveal_strlit("WI");
    reveal_strlit("YU");
    reveal_strlit("EU");
    reveal_strlit("YI");
    reveal_strlit("I");
}

/// The short names of the trailing consonants are ASCII, without vowel letters.
proof fn lemma_jamo_trailing(i: int)
    requires
        0 <= i < 28,
    ensures
        is_ascii_chars(JAMO_TRAILING@[i]@),
        forall|k: int|
            0 <= k < JAMO_TRAILING@[i]@.len() ==> !vowel_letter(#[trigger] JAMO_TRAILING@[i]@[k]),
{
    reveal_strlit("");
    reveal_strlit("G");
    reveal_strlit("GG");
    reveal_strlit("GS");
    reveal_strlit("N");
    reveal_strlit("NJ");
    reveal_strlit("NH");
    reveal_strlit("D");
    reveal_strlit("L");
    reveal_strlit("LG");
    reveal_strlit("LM");
    reveal_strlit("LB");
    reveal_strlit("LS");
    reveal_strlit("LT");
    reveal_strlit("LP");
    reveal_strlit("LH");
    reveal_strlit("M");
    reveal_strlit("B");
    reveal_strlit("BS");
    reveal_strlit("S");
    reveal_strlit("SS");
    reveal_strlit("NG");
    reveal_strlit("J");
    reveal_strlit("C");
    reveal_strlit("K");
    reveal_strlit("T");
    reveal_strlit("P");
    reveal_strlit("H");
}

/// No two leading consonants have one short name.
proof fn lemma_leading_differ(i: int, j: int)
    requires
        0 <= i < 19,
        0 <= j < 19,
        JAMO_LEADING@[i]@ == JAMO_LEADING@[j]@,
    ensures
        i == j,
{
    reveal_strlit("G");
    reveal_strlit("GG");
    reveal_strlit("N");
    reveal_strlit("D");
    reveal_strlit("DD");
    reveal_strlit("R");
    reveal_strlit("M");
    reveal_strlit("B");
    reveal_strlit("BB");
    reveal_strlit("S");
    reveal_strlit("SS");
    reveal_strlit("");
    reveal_strlit("J");
    reveal_strlit("JJ");
    reveal_strlit("C");
    reveal_strlit("K");
    reveal_strlit("T");
    reveal_strlit("P");
    reveal_strlit("H");
    let (a, b) = (JAMO_LEADING@[i]@, JAMO_LEADING@[j]@);
    assert(a.len() == b.len());
    assert(a[0] == b[0] && a[1] == b[1] && a[2] == b[2]);
}

/// No two vowels have one short name.
proof fn lemma_vowel_differ(i: int, j: int)
    requires
        0 <= i < 21,
        0 <= j < 21,
        JAMO_VOWEL@[i]@ == JAMO_VOWEL@[j]@,
    ensures
        i == j,
{
    reveal_strlit("A");
    reveal_strlit("AE");
    reveal_strlit("YA");
    reveal_strlit("YAE");
    reveal_strlit("EO");
    reveal_strlit("E");
    reveal_strlit("YEO");
    reveal_strlit("YE");
    reveal_strlit("O");
    reveal_strlit("WA");
    reveal_strlit("WAE");
    reveal_strlit("OE");
    reveal_strlit("YO");
    reveal_strlit("U");
    reveal_strlit("WEO");
    reveal_strlit("WE");
    reveal_strlit("WI");
    reveal_strlit("YU");
    reveal_strlit("EU");
    reveal_strlit("YI");
    reveal_strlit("I");
    let (a, b) = (JAMO_VOWEL@[i]@, JAMO_VOWEL@[j]@);
    assert(a.len() == b.len());
    assert(a[0] == b[0] && a[1] == b[1] && a[2] == b[2]);
}

/// No two trailing consonants have one short name.
proof fn lemma_trailing_differ(i: int, j: int)
    requires
        0 <= i < 28,
        0 <= j < 28,
        JAMO_TRAILING@[i]@ == JAMO_TRAILING@[j]@,
    ensures
        i == j,
{
    reveal_strlit("");
    reveal_strlit("G");
    reveal_strlit("GG");
    reveal_strlit("GS");
    reveal_strlit("N");
    reveal_strlit("NJ");
    reveal_strlit("NH");
    reveal_strlit("D");
    reveal_strlit("L");
    reveal_strlit("LG");
    reveal_strlit("LM");
    reveal_strlit("LB");
    reveal_strlit("LS");
    reveal_strlit("LT");
    reveal_strlit("LP");
    reveal_strlit("LH");
    reveal_strlit("M");
    reveal_strlit("B");
    reveal_strlit("BS");
    reveal_strlit("S");
    reveal_strlit("SS");
    reveal_strlit("NG");
    reveal_strlit("J");
    reveal_strlit("C");
    reveal_strlit("K");
    reveal_strlit("T");
    reveal_strlit("P");
    reveal_strlit("H");
    let (a, b) = (JAMO_TRAILING@[i]@, JAMO_TRAILING@[j]@);
    assert(a.len() == b.len());
    assert(a[0] == b[0] && a[1] == b[1] && a[2] == b[2]);
}

/// The name of a Hangul syllable is ASCII.
proof fn lemma_hangul_ascii(code: u32)
    requires
        hangul_syllable(code),
    ensures
        is_ascii_chars(hangul_name(code)),
{
    reveal_strlit("HANGUL SYLLABLE ");
    let index = code - 0xAC00;
    lemma_jamo_leading(index / 588);
    lemma_jamo_vowel((index % 588) / 28);
    lemma_jamo_trailing(index % 28);
}

/// A text of consonants, vowel letters and consonants again can be taken apart in
/// one way only.
proof fn lemma_parts_agree(
    a: Seq<char>,
    b: Seq<char>,
    c: Seq<char>,
    other_a: Seq<char>,
    other_b: Seq<char>,
    other_c: Seq<char>,
)
    requires
        forall|i: int| 0 <= i < a.len() ==> !vowel_letter(#[trigger] a[i]),
        forall|i: int| 0 <= i < other_a.len() ==> !vowel_letter(#[trigger] other_a[i]),
        forall|i: int| 0 <= i < b.len() ==> vowel_letter(#[trigger] b[i]),
        forall|i: int| 0 <= i < other_b.len() ==> vowel_letter(#[trigger] other_b[i]),
        forall|i: int| 0 <= i < c.len() ==> !vowel_letter(#[trigger] c[i]),
        forall|i: int| 0 <= i < other_c.len() ==> !vowel_letter(#[trigger] other_c[i]),
        b.len() > 0,
        other_b.len() > 0,
        a + b + c == other_a + other_b + other_c,
    ensures
        a == other_a,
        b == other_b,
        c == other_c,
{
    let all = a + b + c;
    let other = other_a + other_b + other_c;
    let n = a.len() as int;
    let m = other_a.len() as int;
    if n < m {
        assert(all[n] == b[0]);
        assert(other[n] == other_a[n]);
    } else if m < n {
        assert(other[m] == other_b[0]);
        assert(all[m] == a[m]);
    }
    let x = b.len() as int;
    let y = other_b.len() as int;
    if x < y {
        assert(other[n + x] == other_b[x]);
        assert(all[n + x] == c[0]);
    } else if y < x {
        assert(all[n + y] == b[y]);
        assert(other[n + y] == other_c[0]);
    }
    assert(a =~= all.subrange(0, n));
    assert(other_a =~= other.subrange(0, n));
    assert(b =~= all.subrange(n, n + x));
    assert(other_b =~= other.subrange(n, n + x));
    assert(c =~= all.skip(n + x));
    assert(other_c =~= other.skip(n + x));
}

/// What follows one beginning is the same where the whole is.
proof fn lemma_same_tail(head: Seq<char>, tail: Seq<char>, other: Seq<char>)
    requires
        head + tail == head + other,
    ensures
        tail == other,
{
    assert(tail =~= (head + tail).skip(head.len() as int));
    assert(other =~= (head + other).skip(head.len() as int));
}

/// No two precomposed syllables have one name.
proof fn lemma_hangul_names_differ(code: u32, other: u32)
    requires
        hangul_syllable(code),
        hangul_syllable(other),
        hangul_name(code) == hangul_name(other),
    ensures
        code == other,
{
    let (m, n) = (code - 0xAC00, other - 0xAC00);
    let (a, b, c) = (m / 588, (m % 588) / 28, m % 28);
    let (x, y, z) = (n / 588, (n % 588) / 28, n % 28);
    lemma_jamo_leading(a);
    lemma_jamo_leading(x);
    lemma_jamo_vowel(b);
    lemma_jamo_vowel(y);
    lemma_jamo_trailing(c);
    lemma_jamo_trailing(z);
    let head = "HANGUL SYLLABLE "@;
    let letters = JAMO_LEADING@[a]@ + JAMO_VOWEL@[b]@ + JAMO_TRAILING@[c]@;
    let others = JAMO_LEADING@[x]@ + JAMO_VOWEL@[y]@ + JAMO_TRAILING@[z]@;
    assert(hangul_name(code) =~= head + letters);
    assert(hangul_name(other) =~= head + others);
    lemma_same_tail(head, letters, others);
    lemma_parts_agree(
        JAMO_LEADING@[a]@,
        JAMO_VOWEL@[b]@,
        JAMO_TRAILING@[c]@,
        JAMO_LEADING@[x]@,
        JAMO_VOWEL@[y]@,
        JAMO_TRAILING@[z]@,
    );
    lemma_leading_differ(a, x);
    lemma_vowel_differ(b, y);
    lemma_trailing_differ(c, z);
}

/// Within one range no two characters share a name.
pub proof fn law_derived_names_differ(label: Seq<char>, code: u32, other: u32)
    requires
        code != other,
        label == "Hangul Syllable"@ ==> hangul_syllable(code) && hangul_syllable(other),
    ensures
        derived_name(label, code) != derived_name(label, other),
{
    if derived_name(label, code) == derived_name(label, other) {
        let (tail, others) = (code_digits(code), code_digits(other));
        lemma_padded_value(code as nat, 16, 4);
        lemma_padded_value(other as nat, 16, 4);
        if "CJK Ideograph"@.is_prefix_of(label) {
            lemma_same_tail("CJK Ideograph-"@, tail, others);
        } else if "Tangut Ideograph"@.is_prefix_of(label) {
            lemma_same_tail("Tangut Ideograph-"@, tail, others);
        } else if label == "Hangul Syllable"@ {
            lemma_hangul_names_differ(code, other);
        } else {
            lemma_same_tail(lowercase(label) + "-"@, tail, others);
        }
    }
}

/// A search misses no shown character of its blocks whose name, its own or a
/// derived one, has the query in it, letter case aside.
pub proof fn law_search_finds_every_name(
    names: Seq<(u32, Seq<char>)>,
    ranges: Seq<(u32, u32, Seq<char>)>,
    query: Seq<char>,
    sections: Seq<UnicodeEntry>,
    k: int,
    ch: char,
)
    requires
        0 <= k < sections.len(),
        sections[k].start_index <= ch as u32 <= sections[k].end_index,
        shown(ch as int),
        name_of(names, ranges, ch as u32) is Some,
        has_part(lowercase(name_of(names, ranges, ch as u32)->0), lowercase(query)),
    ensures
        all_found(names, ranges, query, sections).contains(ch),
{
    let code = ch as u32;
    let (start, end) = (sections[k].start_index, sections[k].end_index);
    if exists|i: int| entry_of(names, code, i) {
        let i = choose|i: int| entry_of(names, code, i);
        lemma_names_found_has(names, query, start, end, i);
    } else {
        let i = choose|i: int| range_of(ranges, code, i);
        lemma_ranges_found_has(ranges, query, start, end, i, ch);
    }
    lemma_all_found_has(names, ranges, query, sections, k, ch);
}

/// A label that the names of its range start with, letter case aside: an ASCII
/// one, other than a longer form of the ideograph labels, which is shortened.
pub open spec fn label_kept(label: Seq<char>) -> bool {
    &&& is_ascii_chars(label)
    &&& "CJK Ideograph"@.is_prefix_of(label) ==> label == "CJK Ideograph"@
    &&& "Tangut Ideograph"@.is_prefix_of(label) ==> label == "Tangut Ideograph"@
}

/// A search misses no shown character of its blocks that lies in a range whose
/// label has the query in it, letter case aside, where the names of the range
/// start with the label.
pub proof fn law_search_finds_whole_ranges(
    names: Seq<(u32, Seq<char>)>,
    ranges: Seq<(u32, u32, Seq<char>)>,
    query: Seq<char>,
    sections: Seq<UnicodeEntry>,
    k: int,
    i: int,
    ch: char,
)
    requires
        0 <= k < sections.len(),
        0 <= i < ranges.len(),
        ranges_derivable(ranges),
        label_kept(ranges[i].2),
        has_part(lowercase(ranges[i].2), lowercase(query)),
        ranges[i].0 <= ch as u32 <= ranges[i].1,
        sections[k].start_index <= ch as u32 <= sections[k].end_index,
        shown(ch as int),
    ensures
        all_found(names, ranges, query, sections).contains(ch),
{
    let label = ranges[i].2;
    lemma_label_kept(label, ch as u32);
    lemma_part_of_prefix(
        lowercase(derived_name(label, ch as u32)),
        lowercase(label),
        lowercase(query),
    );
    lemma_ranges_found_has(
        ranges,
        query,
        sections[k].start_index,
        sections[k].end_index,
        i,
        ch,
    );
    lemma_all_found_has(names, ranges, query, sections, k, ch);
}

/// Searching blocks and then more blocks finds what is found in the ones,
/// followed by what is found in the others.
pub proof fn law_search_goes_block_by_block(
    names: Seq<(u32, Seq<char>)>,
    ranges: Seq<(u32, u32, Seq<char>)>,
    query: Seq<char>,
    first: Seq<UnicodeEntry>,
    second: Seq<UnicodeEntry>,
)
    ensures
        all_found(names, ranges, query, first + second) == all_found(names, ranges, query, first)
            + all_found(names, ranges, query, second),
        all_found(names, ranges, query, Seq::empty()) == Seq::<char>::empty(),
    decreases second.len(),
{
    if second.len() > 0 {
        let fewer = second.drop_last();
        let section = second.last();
        law_search_goes_block_by_block(names, ranges, query, first, fewer);
        assert((first + second).drop_last() =~= first + fewer);
        let own = names_found(names, query, section.start_index, section.end_index);
        let derived = ranges_found(ranges, query, section.start_index, section.end_index);
        let head = all_found(names, ranges, query, first);
        let tail = all_found(names, ranges, query, fewer);
        assert((head + tail) + own + derived =~= head + (tail + own + derived));
    } else {
        assert(first + second =~= first);
        let head = all_found(names, ranges, query, first);
        assert(head + Seq::<char>::empty() =~= head);
    }
}

/// A found entry of a name table is among what is found.
proof fn lemma_names_found_has(
    names: Seq<(u32, Seq<char>)>,
    query: Seq<char>,
    start: u32,
    end: u32,
    i: int,
)
    requires
        0 <= i < names.len(),
        entry_found(names[i], query, start, end),
    ensures
        names_found(names, query, start, end).contains(names[i].0 as char),
    decreases names.len(),
{
    let all = names_found(names, query, start, end);
    if i == names.len() - 1 {
        assert(all[all.len() - 1] == names[i].0 as char);
    } else {
        lemma_names_found_has(names.drop_last(), query, start, end, i);
        let before = names_found(names.drop_last(), query, start, end);
        let at = choose|at: int| 0 <= at < before.len() && before[at] == names[i].0 as char;
        assert(all[at] == names[i].0 as char);
    }
}

/// A shown character of a range whose derived name has the query is among what
/// is found.
proof fn lemma_ranges_found_has(
    ranges: Seq<(u32, u32, Seq<char>)>,
    query: Seq<char>,
    start: u32,
    end: u32,
    i: int,
    ch: char,
)
    requires
        0 <= i < ranges.len(),
        ranges[i].0 <= ch as u32 <= ranges[i].1,
        start <= ch as u32 <= end,
        derived_found(ranges[i].2, lowercase(query), ch as int),
    ensures
        ranges_found(ranges, query, start, end).contains(ch),
    decreases ranges.len(),
{
    let all = ranges_found(ranges, query, start, end);
    let before = ranges_found(ranges.drop_last(), query, start, end);
    let last = range_found(ranges.last(), query, start, end);
    if i == ranges.len() - 1 {
        let low = if start >= ranges.last().0 {
            start as int
        } else {
            ranges.last().0 as int
        };
        let high = if end <= ranges.last().1 {
            end as int
        } else {
            ranges.last().1 as int
        };
        lemma_derived_member(ranges.last().2, lowercase(query), low, high, ch);
        let at = choose|at: int| 0 <= at < last.len() && last[at] == ch;
        assert(all[before.len() + at] == ch);
    } else {
        lemma_ranges_found_has(ranges.drop_last(), query, start, end, i, ch);
        let at = choose|at: int| 0 <= at < before.len() && before[at] == ch;
        assert(all[at] == ch);
    }
}

/// What is found in one block is among what is found in all.
proof fn lemma_all_found_has(
    names: Seq<(u32, Seq<char>)>,
    ranges: Seq<(u32, u32, Seq<char>)>,
    query: Seq<char>,
    sections: Seq<UnicodeEntry>,
    k: int,
    ch: char,
)
    requires
        0 <= k < sections.len(),
        names_found(names, query, sections[k].start_index, sections[k].end_index).contains(ch)
            || ranges_found(
            ranges,
            query,
            sections[k].start_index,
            sections[k].end_index,
        ).contains(ch),
    ensures
        all_found(names, ranges, query, sections).contains(ch),
    decreases sections.len(),
{
    let section = sections.last();
    let before = all_found(names, ranges, query, sections.drop_last());
    let own = names_found(names, query, section.start_index, section.end_index);
    let derived = ranges_found(ranges, query, section.start_index, section.end_index);
    let all = all_found(names, ranges, query, sections);
    if k < sections.len() - 1 {
        lemma_all_found_has(names, ranges, query, sections.drop_last(), k, ch);
        let at = choose|at: int| 0 <= at < before.len() && before[at] == ch;
        assert(all[at] == ch);
    } else if own.contains(ch) {
        let at = choose|at: int| 0 <= at < own.len() && own[at] == ch;
        assert(all[before.len() + at] == ch);
    } else {
        let at = choose|at: int| 0 <= at < derived.len() && derived[at] == ch;
        assert(all[before.len() + own.len() + at] == ch);
    }
}

/// The letter case of the query does not matter to a search.
pub proof fn law_search_ignores_case(
    names: Seq<(u32, Seq<char>)>,
    ranges: Seq<(u32, u32, Seq<char>)>,
    query: Seq<char>,
    other: Seq<char>,
    sections: Seq<UnicodeEntry>,
)
    requires
        lowercase(query) == lowercase(other),
    ensures
        all_found(names, ranges, query, sections) == all_found(names, ranges, other, sections),
    decreases sections.len(),
{
    if sections.len() > 0 {
        let section = sections.last();
        law_search_ignores_case(names, ranges, query, other, sections.drop_last());
        lemma_names_found_case(names, query, other, section.start_index, section.end_index);
        lemma_ranges_found_case(ranges, query, other, section.start_index, section.end_index);
    }
}

/// The letter case of the query does not matter to a name table.
proof fn lemma_names_found_case(
    names: Seq<(u32, Seq<char>)>,
    query: Seq<char>,
    other: Seq<char>,
    start: u32,
    end: u32,
)
    requires
        lowercase(query) == lowercase(other),
    ensures
        names_found(names, query, start, end) == names_found(names, other, start, end),
    decreases names.len(),
{
    if names.len() > 0 {
        lemma_names_found_case(names.drop_last(), query, other, start, end);
    }
}

/// The letter case of the query does not matter to ranges.
proof fn lemma_ranges_found_case(
    ranges: Seq<(u32, u32, Seq<char>)>,
    query: Seq<char>,
    other: Seq<char>,
    start: u32,
    end: u32,
)
    requires
        lowercase(query) == lowercase(other),
    ensures
        ranges_found(ranges, query, start, end) == ranges_found(ranges, other, start, end),
    decreases ranges.len(),
{
    if ranges.len() > 0 {
        lemma_ranges_found_case(ranges.drop_last(), query, other, start, end);
    }
}

/// Every range of the database names its characters by the label in small
/// letters, a hyphen and the codepoint.
pub proof fn law_database_range_names(i: int, code: u32)
    requires
        0 <= i < RANGES@.len(),
    ensures
        derived_name(RANGES@[i].2@, code) == lowercase(RANGES@[i].2@) + "-"@ + code_digits(code),
        label_kept(RANGES@[i].2@),
{
    lemma_range_literals(i);
}

impl Default for CharacterNames {
    fn default() -> (r: Self)
        ensures
            r.names() == database_names(),
            r.ranges() == database_ranges(),
            tables_disjoint(r.names(), r.ranges()),
    {
        CharacterNames::new()
    }
}

}
