//! Laws of the font list and of font coverage.
use vstd::prelude::*;

use crate::helpers::font_list::{
    after_key, after_selection, comes_before, first_match, forgotten, in_order, law_fonts_sorted,
    names_seen, ordered, passes_filter, row_matches, taken_as_text, typed_with, without_repeats,
    Typing,
};
use crate::helpers::secure_font_coverage::{
    codes_at, codes_fit, dense_span_at, font_covers, font_scannable, hits, law_coverage_grows,
    platform_at, record_count, record_covers, CmapPlatform,
};
use crate::helpers::utils::covers_as;
use crate::laws::text::law_parts;
use crate::text::{ascii_lowercase, char_lowercase, is_scalar, lowercase};

verus! {

/// Two texts agree up to a place.
pub open spec fn agree_to(a: Seq<char>, b: Seq<char>, i: int) -> bool {
    0 <= i <= a.len() && i <= b.len() && a.take(i) == b.take(i)
}

/// The order of texts is the lexicographic one: at the first place where two texts
/// differ the lower character decides, whatever it is, and a text comes before
/// every longer one that it begins.
pub proof fn law_order_is_lexicographic(a: Seq<char>, b: Seq<char>)
    ensures
        forall|i: int|
            #[trigger] agree_to(a, b, i) && i < a.len() && i < b.len() && a[i] < b[i]
                ==> comes_before(a, b),
        forall|i: int|
            #[trigger] agree_to(a, b, i) && i == a.len() && i < b.len() ==> comes_before(a, b),
        comes_before(a, b) ==> exists|i: int|
            #[trigger] agree_to(a, b, i) && i < b.len() && (i == a.len() || i < a.len() && a[i]
                < b[i]),
    decreases a.len(),
{
    if a.len() > 0 && b.len() > 0 && a[0] == b[0] {
        let (x, y) = (a.drop_first(), b.drop_first());
        law_order_is_lexicographic(x, y);
        assert forall|i: int| #[trigger]
            agree_to(a, b, i) && i > 0 implies agree_to(x, y, i - 1) by {
            assert(x.take(i - 1) =~= a.take(i).drop_first());
            assert(y.take(i - 1) =~= b.take(i).drop_first());
        }
        assert forall|i: int|
            #[trigger] agree_to(a, b, i) && i < a.len() && i < b.len() && a[i]
                < b[i] implies comes_before(a, b) by {
            assert(i > 0);
            assert(agree_to(x, y, i - 1));
            assert(x[i - 1] == a[i] && y[i - 1] == b[i]);
        }
        assert forall|i: int|
            #[trigger] agree_to(a, b, i) && i == a.len() && i < b.len() implies comes_before(
            a,
            b,
        ) by {
            assert(agree_to(x, y, i - 1));
        }
        if comes_before(a, b) {
            let i = choose|i: int|
                #[trigger] agree_to(x, y, i) && i < y.len() && (i == x.len() || i < x.len() && x[i]
                    < y[i]);
            assert(a.take(i + 1) =~= seq![a[0]] + x.take(i));
            assert(b.take(i + 1) =~= seq![b[0]] + y.take(i));
            assert(agree_to(a, b, i + 1));
        }
    } else {
        assert forall|i: int| #[trigger] agree_to(a, b, i) implies i == 0 by {
            if i > 0 {
                assert(a.take(i)[0] == b.take(i)[0]);
            }
        }
        if comes_before(a, b) {
            assert(a.take(0) =~= b.take(0));
            assert(agree_to(a, b, 0));
        }
    }
}

/// Of two different texts exactly one comes before the other, and no text comes
/// before itself.
pub proof fn law_order_is_total(a: Seq<char>, b: Seq<char>)
    ensures
        a != b ==> (comes_before(a, b) <==> !comes_before(b, a)),
        a == b ==> !comes_before(a, b),
    decreases a.len(),
{
    if a.len() > 0 && b.len() > 0 && a[0] == b[0] {
        law_order_is_total(a.drop_first(), b.drop_first());
        if a.drop_first() == b.drop_first() {
            assert(a =~= seq![a[0]] + a.drop_first());
            assert(b =~= seq![b[0]] + b.drop_first());
            assert(a == b);
        }
    } else if a.len() == 0 && b.len() == 0 {
        assert(a =~= b);
    }
}

/// In the font list a name whose lowercase form differs from that of a later one
/// comes lexicographically before it: the two forms agree up to a place, and there
/// the earlier one has the lower character or ends.
pub proof fn law_listed_fonts_are_strictly_ordered(names: Seq<Seq<char>>, i: int, j: int)
    requires
        0 <= i < j < without_repeats(in_order(names)).len(),
        lowercase(without_repeats(in_order(names))[i]) != lowercase(
            without_repeats(in_order(names))[j],
        ),
    ensures
        ({
            let a = lowercase(without_repeats(in_order(names))[i]);
            let b = lowercase(without_repeats(in_order(names))[j]);
            exists|k: int|
                #[trigger] agree_to(a, b, k) && k < b.len() && (k == a.len() || k < a.len() && a[k]
                    < b[k])
        }),
{
    let fonts = without_repeats(in_order(names));
    law_fonts_sorted(names);
    assert(ordered(fonts));
    assert(!comes_before(lowercase(fonts[j]), lowercase(fonts[i])));
    law_order_is_total(lowercase(fonts[i]), lowercase(fonts[j]));
    law_order_is_lexicographic(lowercase(fonts[i]), lowercase(fonts[j]));
}

/// Dropping repeats takes a name that comes twice in a row as if it came once,
/// wherever that is, and leaves names of which none repeats the one before it.
pub proof fn law_repeats_count_once(
    before: Seq<Seq<char>>,
    name: Seq<char>,
    after: Seq<Seq<char>>,
    names: Seq<Seq<char>>,
)
    ensures
        without_repeats(before + seq![name, name] + after) == without_repeats(
            before + seq![name] + after,
        ),
        (forall|i: int| 0 < i < names.len() ==> #[trigger] names[i] != names[i - 1])
            ==> without_repeats(names) == names,
    decreases after.len(), names.len(),
{
    let twice = before + seq![name, name] + after;
    let once = before + seq![name] + after;
    if after.len() == 0 {
        assert(twice.drop_last() =~= once);
        assert(twice[twice.len() - 2] == name && twice.last() == name);
        if names.len() > 0 {
            if forall|i: int| 0 < i < names.len() ==> #[trigger] names[i] != names[i - 1] {
                let fewer = names.drop_last();
                assert forall|i: int| 0 < i < fewer.len() implies #[trigger] fewer[i] != fewer[i
                    - 1] by {
                    assert(names[i] != names[i - 1]);
                }
                law_repeats_count_once(before, name, after, fewer);
                let last = names.len() - 1;
                if last > 0 {
                    assert(names[last] != names[last - 1]);
                }
                assert(without_repeats(names) =~= names);
            }
        }
    } else {
        let fewer = after.drop_last();
        law_repeats_count_once(before, name, fewer, names);
        assert(twice.drop_last() =~= before + seq![name, name] + fewer);
        assert(once.drop_last() =~= before + seq![name] + fewer);
        assert(twice[twice.len() - 2] == once[once.len() - 2]);
    }
}

/// Names are seen one by one, through their characters.
pub proof fn law_names_are_seen(names: Seq<String>)
    ensures
        names_seen(names).len() == names.len(),
        forall|i: int| 0 <= i < names.len() ==> #[trigger] names_seen(names)[i] == names[i]@,
{
}

/// Typing finds a row by the beginning of its name, letter case aside: a row whose
/// lowercase name is what was typed and something more matches, and no other. The
/// row that is found is the first one, so there is only one.
pub proof fn law_typing_finds_the_first(
    rows: Seq<Option<String>>,
    typed: Seq<char>,
    at: Option<usize>,
    other: Option<usize>,
)
    requires
        first_match(rows, typed, at),
    ensures
        forall|i: int|
            0 <= i < rows.len() ==> (#[trigger] row_matches(rows[i], typed) <==> rows[i] is Some
                && exists|rest: Seq<char>| lowercase(rows[i]->0@) == #[trigger] (typed + rest)),
        forall|i: int|
            0 <= i < rows.len() && #[trigger] row_matches(rows[i], typed) ==> at is Some && at->0
                <= i,
        at is Some ==> at->0 < rows.len() && row_matches(rows[at->0 as int], typed),
        first_match(rows, typed, other) ==> other == at,
{
    assert forall|i: int| 0 <= i < rows.len() implies (#[trigger] row_matches(rows[i], typed)
        <==> rows[i] is Some && exists|rest: Seq<char>|
        lowercase(rows[i]->0@) == #[trigger] (typed + rest)) by {
        if rows[i] is Some {
            let name = lowercase(rows[i]->0@);
            if typed.is_prefix_of(name) {
                assert(name =~= typed + name.skip(typed.len() as int));
            }
            if exists|rest: Seq<char>| name == #[trigger] (typed + rest) {
                let rest = choose|rest: Seq<char>| name == #[trigger] (typed + rest);
                assert(name.take(typed.len() as int) =~= typed);
            }
        }
    }
    assert forall|i: int|
        0 <= i < rows.len() && #[trigger] row_matches(rows[i], typed) implies at is Some && at->0
        <= i by {
        match at {
            Some(k) => {
                if i < k {
                    assert(!row_matches(rows[i], typed));
                }
            },
            None => {
                assert(!row_matches(rows[i], typed));
            },
        }
    }
    if first_match(rows, typed, other) {
        match (at, other) {
            (Some(a), Some(b)) => {
                if a < b {
                    assert(!row_matches(rows[a as int], typed));
                } else if b < a {
                    assert(!row_matches(rows[b as int], typed));
                }
            },
            (Some(a), None) => {
                assert(!row_matches(rows[a as int], typed));
            },
            (None, Some(b)) => {
                assert(!row_matches(rows[b as int], typed));
            },
            (None, None) => {},
        }
    }
}

/// A font file covers part of a range exactly if it covers one of its codepoints,
/// and it covers a codepoint exactly if one of its records for Unicode or for
/// Windows maps it.
pub proof fn law_coverage_goes_by_codepoints(data: Seq<u8>, start: u32, end: u32, code: u32)
    ensures
        font_covers(data, start, end) <==> exists|c: u32|
            start <= c <= end && #[trigger] font_covers(data, c, c),
        font_covers(data, code, code) <==> record_count(data) is Some && exists|i: u16|
            i < record_count(data)->0 && (#[trigger] platform_at(data, i) == Some(
                CmapPlatform::Unicode,
            ) || platform_at(data, i) == Some(CmapPlatform::Windows)) && codes_at(data, i) is Some
                && codes_at(data, i)->0.contains(code),
{
    if font_covers(data, start, end) {
        let i = choose|i: u16|
            i < record_count(data)->0 && record_covers(
                #[trigger] platform_at(data, i),
                codes_at(data, i),
                start,
                end,
            );
        let codes = codes_at(data, i)->0;
        let k = choose|k: int| 0 <= k < codes.len() && start <= #[trigger] codes[k] <= end;
        let c = codes[k];
        assert(hits(codes, c, c));
        assert(record_covers(platform_at(data, i), codes_at(data, i), c, c));
        assert(font_covers(data, c, c));
    }
    if exists|c: u32| start <= c <= end && #[trigger] font_covers(data, c, c) {
        let c = choose|c: u32| start <= c <= end && #[trigger] font_covers(data, c, c);
        law_coverage_grows(data, c, c, start, end);
    }
    if font_covers(data, code, code) {
        let i = choose|i: u16|
            i < record_count(data)->0 && record_covers(
                #[trigger] platform_at(data, i),
                codes_at(data, i),
                code,
                code,
            );
        let codes = codes_at(data, i)->0;
        let k = choose|k: int| 0 <= k < codes.len() && code <= #[trigger] codes[k] <= code;
        assert(codes[k] == code);
        assert(codes.contains(code));
    }
    if record_count(data) is Some && exists|i: u16|
        i < record_count(data)->0 && (#[trigger] platform_at(data, i) == Some(
            CmapPlatform::Unicode,
        ) || platform_at(data, i) == Some(CmapPlatform::Windows)) && codes_at(data, i) is Some
            && codes_at(data, i)->0.contains(code) {
        let i = choose|i: u16|
            i < record_count(data)->0 && (#[trigger] platform_at(data, i) == Some(
                CmapPlatform::Unicode,
            ) || platform_at(data, i) == Some(CmapPlatform::Windows)) && codes_at(data, i) is Some
                && codes_at(data, i)->0.contains(code);
        let codes = codes_at(data, i)->0;
        let k = choose|k: int| 0 <= k < codes.len() && codes[k] == code;
        assert(code <= codes[k] <= code);
        assert(record_covers(platform_at(data, i), codes_at(data, i), code, code));
    }
}

/// A font that answers for each character always alike covers part of a range
/// exactly if it has one of the range's characters, a control or not.
pub proof fn law_loaded_font_covers<F: Fn(char) -> bool>(
    has_char: F,
    has: spec_fn(char) -> bool,
    start: u32,
    end: u32,
    covered: bool,
)
    requires
        forall|c: char, b: bool| #[trigger] has_char.ensures((c,), b) <==> b == has(c),
        covers_as(has_char, start, end, covered),
    ensures
        covered <==> exists|c: char|
            start <= c as u32 <= end && (c as int <= 0xD7FF || 0xE000 <= c as int <= 0x10FFFF)
                && 0 <= c as int && #[trigger] has(c),
{
    if covered {
        let c = choose|c: char|
            start <= c as u32 <= end && is_scalar(c as int) && #[trigger] has_char.ensures(
                (c,),
                true,
            );
        assert(has(c));
    } else {
        assert forall|c: char|
            start <= c as u32 <= end && (c as int <= 0xD7FF || 0xE000 <= c as int <= 0x10FFFF)
                && 0 <= c as int implies !#[trigger] has(c) by {
            assert(has_char.ensures((c,), false));
        }
    }
}

/// An empty filter lets every font through. Any other lets a font through exactly if
/// the lowercase name is something, the filter, and something more.
pub proof fn law_filter_goes_by_part(name: Seq<char>, filter: Seq<char>)
    ensures
        passes_filter(name, Seq::empty()),
        passes_filter(name, filter) <==> exists|before: Seq<char>, after: Seq<char>|
            lowercase(name) == #[trigger] (before + filter + after),
{
    law_parts(lowercase(name), filter);
    if filter.len() == 0 {
        let low = lowercase(name);
        assert(low =~= Seq::<char>::empty() + filter + low);
    }
}

/// Characters that are typed one after the other add up, in small letters. A key
/// with Control or Alt, without a character, or for a control is no text.
pub proof fn law_typing_adds_up(typed: Seq<char>, a: char, b: char, ch: Option<char>)
    ensures
        a as int <= 0x7F && b as int <= 0x7F ==> typed_with(typed_with(typed, a), b) == typed
            + ascii_lowercase(seq![a, b]),
        typed.is_prefix_of(typed_with(typed, a)),
        !taken_as_text(true, ch),
        !taken_as_text(false, None),
        taken_as_text(false, Some(a)) <==> !(0 <= a as int <= 0x1F || 0x7F <= a as int <= 0x9F),
{
    if a as int <= 0x7F && b as int <= 0x7F {
        assert(typed_with(typed_with(typed, a), b) =~= typed + ascii_lowercase(seq![a, b]));
    }
    assert(typed_with(typed, a).take(typed.len() as int) =~= typed);
}

/// Every font is gone through, but for one with a record for Unicode or for Windows
/// whose codepoints, listed from a first one on, would go past 32 bits.
pub proof fn law_fonts_are_scannable(data: Seq<u8>)
    requires
        record_count(data) is Some,
    ensures
        !font_scannable(data) <==> exists|i: u16|
            i < record_count(data)->0 && (#[trigger] platform_at(data, i) == Some(
                CmapPlatform::Unicode,
            ) || platform_at(data, i) == Some(CmapPlatform::Windows)) && (match dense_span_at(
                data,
                i,
            ) {
                Some((first, length)) => first + length > u32::MAX + 1,
                None => false,
            }),
{
    if !font_scannable(data) {
        let i = choose|i: u16|
            i < record_count(data)->0 && (#[trigger] platform_at(data, i)) is Some && platform_at(
                data,
                i,
            )->0.goes_by_unicode() && !codes_fit(data, i);
        assert(platform_at(data, i) == Some(CmapPlatform::Unicode) || platform_at(data, i) == Some(
            CmapPlatform::Windows,
        ));
    }
}

/// What is typed after a pause, or after a row was selected in another way, starts
/// anew. After the selection that typing itself makes it goes on.
pub proof fn law_typing_starts_anew(t: Typing, a: char, b: char, by_a: bool, by_b: bool)
    requires
        t.typed.len() == 0,
        !t.selecting,
        taken_as_text(false, Some(a)),
        taken_as_text(false, Some(b)),
    ensures
        ({
            let first = after_key(t, false, Some(a), by_a);
            let settled = Typing { selecting: false, ..first };
            &&& first.typed == char_lowercase(a)
            &&& first.selecting == by_a
            &&& first.reset_pending
            &&& after_key(forgotten(first), false, Some(b), by_b).typed == char_lowercase(b)
            &&& after_key(after_selection(settled), false, Some(b), by_b).typed
                == char_lowercase(b)
            &&& !after_selection(settled).reset_pending
            &&& by_a ==> after_key(after_selection(first), false, Some(b), by_b).typed
                == char_lowercase(a) + char_lowercase(b)
            &&& after_key(settled, false, Some(b), by_b).typed == char_lowercase(a)
                + char_lowercase(b)
        }),
{
    let none = Seq::<char>::empty();
    assert(t.typed =~= none);
    assert(none + char_lowercase(a) =~= char_lowercase(a));
    assert(none + char_lowercase(b) =~= char_lowercase(b));
}

/// A key that is no text changes nothing.
pub proof fn law_other_keys_change_nothing(t: Typing, modified: bool, ch: Option<char>, found: bool)
    requires
        modified || ch is None || 0 <= ch->0 as int <= 0x1F || 0x7F <= ch->0 as int <= 0x9F,
    ensures
        after_key(t, modified, ch, found) == t,
{
}

}
