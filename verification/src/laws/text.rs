//! Laws of texts and numbers.
use vstd::arithmetic::power::pow;
use vstd::prelude::*;
use vstd::utf8::*;

use crate::text::{
    ascii_lower, ascii_lowercase, char_lowercase, digit_value, digits, digits_value, has_part,
    law_digits_parse_back, lowercase, parsed_u32, replaced, stands_at, zero_padded,
};

verus! {

/// The digits below ten have the values they are written for, and the letters go
/// on from ten, small or capital alike. Nothing else is a digit.
pub proof fn law_digit_values(radix: nat)
    requires
        radix <= 36,
    ensures
        forall|k: int|
            0 <= k < 10 && k < radix ==> digit_value(#[trigger] place_after('0', k), radix) == Some(
                k as nat,
            ),
        forall|k: int|
            0 <= k < 26 && k + 10 < radix ==> digit_value(
                #[trigger] place_after('a', k),
                radix,
            ) == Some((k + 10) as nat),
        forall|k: int|
            0 <= k < 26 && k + 10 < radix ==> digit_value(
                #[trigger] place_after('A', k),
                radix,
            ) == Some((k + 10) as nat),
        forall|c: char|
            !('0' <= c <= '9') && !('a' <= c <= 'z') && !('A' <= c <= 'Z') ==> (
            #[trigger] digit_value(c, radix)) is None,
        forall|c: char| (#[trigger] digit_value(c, radix)) matches Some(v) ==> v < radix,
{
}

/// The character some places after another one.
pub open spec fn place_after(c: char, k: int) -> char {
    (c as int + k) as char
}

/// Making a text small moves each ASCII capital to its small letter, the same
/// number of places after `a` as it is after `A`, and leaves everything else.
pub proof fn law_small_letters(s: Seq<char>)
    ensures
        ascii_lowercase(s).len() == s.len(),
        forall|i: int|
            0 <= i < s.len() && !('A' <= s[i] <= 'Z') ==> #[trigger] ascii_lowercase(s)[i] == s[i],
        forall|i: int|
            0 <= i < s.len() && 'A' <= s[i] <= 'Z' ==> 'a' <= #[trigger] ascii_lowercase(s)[i]
                <= 'z' && ascii_lowercase(s)[i] as int - 'a' as int == s[i] as int - 'A' as int,
        ascii_lowercase(ascii_lowercase(s)) == ascii_lowercase(s),
{
    assert(ascii_lowercase(ascii_lowercase(s)) =~= ascii_lowercase(s));
}

/// Letter case does not matter to a digit.
proof fn lemma_digit_case(c: char, radix: nat)
    ensures
        digit_value(ascii_lower(c), radix) == digit_value(c, radix),
{
}

/// Letter case does not matter to a run of digits.
proof fn lemma_digits_case(s: Seq<char>, radix: nat)
    ensures
        digits_value(ascii_lowercase(s), radix) == digits_value(s, radix),
    decreases s.len(),
{
    if s.len() > 0 {
        lemma_digits_case(s.drop_last(), radix);
        lemma_digit_case(s.last(), radix);
        assert(ascii_lowercase(s).drop_last() =~= ascii_lowercase(s.drop_last()));
        assert(ascii_lowercase(s).last() == ascii_lower(s.last()));
    }
}

/// Letter case does not matter to a number: a text and its small form are read
/// alike, and the small form of the digits of a number is read as the number.
pub proof fn law_number_ignores_case(s: Seq<char>, n: u32, radix: nat)
    requires
        2 <= radix <= 36,
    ensures
        parsed_u32(ascii_lowercase(s), radix) == parsed_u32(s, radix),
        parsed_u32(ascii_lowercase(digits(n as nat, radix)), radix) == Some(n),
{
    lemma_parsed_case(s, radix);
    lemma_parsed_case(digits(n as nat, radix), radix);
    law_digits_parse_back(n, radix);
}

/// Letter case does not matter to reading a number.
proof fn lemma_parsed_case(s: Seq<char>, radix: nat)
    ensures
        parsed_u32(ascii_lowercase(s), radix) == parsed_u32(s, radix),
{
    let small = ascii_lowercase(s);
    assert(s.len() > 0 ==> (small[0] == '+' <==> s[0] == '+'));
    lemma_digits_case(s, radix);
    lemma_digits_case(s.drop_first(), radix);
    if s.len() > 0 {
        assert(small.drop_first() =~= ascii_lowercase(s.drop_first()));
    }
}

/// How numbers are read, one digit at a time. Without a digit there is no number;
/// one digit is its value; a further digit multiplies by the radix and adds its
/// value, as long as the result fits into 32 bits; any other character spoils the
/// number. A plus sign in front changes nothing.
pub proof fn law_reading_numbers(s: Seq<char>, c: char, radix: nat)
    requires
        2 <= radix <= 36,
    ensures
        parsed_u32(Seq::empty(), radix) is None,
        parsed_u32(seq!['+'], radix) is None,
        digit_value(c, radix) is Some ==> parsed_u32(seq![c], radix) == Some(
            digit_value(c, radix)->0 as u32,
        ),
        digit_value(c, radix) is None ==> parsed_u32(seq![c], radix) is None,
        s.len() > 0 && digit_value(c, radix) is None ==> parsed_u32(s.push(c), radix) is None,
        parsed_u32(s, radix) is Some && digit_value(c, radix) is Some ==> {
            let value = parsed_u32(s, radix)->0 * radix + digit_value(c, radix)->0;
            parsed_u32(s.push(c), radix) == (if value <= u32::MAX {
                Some(value as u32)
            } else {
                None
            })
        },
        s.len() > 0 && s != seq!['+'] && parsed_u32(s, radix) is None ==> parsed_u32(
            s.push(c),
            radix,
        ) is None,
        s.len() == 0 || s[0] != '+' ==> parsed_u32(seq!['+'] + s, radix) == parsed_u32(s, radix),
{
    let plus = seq!['+'];
    assert(plus.drop_first() =~= Seq::<char>::empty());
    assert((plus + s).drop_first() =~= s);
    let one = seq![c];
    assert(one.drop_last() =~= Seq::<char>::empty());
    assert(one.drop_first() =~= Seq::<char>::empty());
    assert(digits_value(one.drop_last(), radix) == Some(0nat));
    assert(0 * radix == 0) by (nonlinear_arith);
    assert(digit_value('+', radix) is None);
    let more = s.push(c);
    let body = if s.len() > 0 && s[0] == '+' {
        s.drop_first()
    } else {
        s
    };
    if s.len() > 0 {
        assert(more[0] == s[0]);
        let more_body = if s[0] == '+' {
            more.drop_first()
        } else {
            more
        };
        assert(more_body =~= body.push(c));
        assert(more_body.drop_last() =~= body);
        if s != plus && body.len() == 0 {
            assert(s =~= plus);
        }
        if parsed_u32(s, radix) is None && s != plus && digits_value(body, radix) is Some
            && digit_value(c, radix) is Some {
            let high = digits_value(body, radix)->0;
            assert(high * radix >= high) by (nonlinear_arith)
                requires
                    radix >= 2,
            ;
        }
    }
}

/// The digits of a number are those of its places: the one that stands `i` places
/// from the end is the digit of that place, a capital letter from ten on. There is
/// no leading zero, and there are as many digits as the number needs.
pub proof fn law_digits_are_places(n: nat, radix: nat, i: nat)
    requires
        2 <= radix <= 36,
        i < digits(n, radix).len(),
    ensures
        ({
            let written = digits(n, radix);
            let d = (n as int / pow(radix as int, i)) % radix as int;
            &&& written[written.len() - 1 - i] == (if d < 10 {
                place_after('0', d)
            } else {
                place_after('A', d - 10)
            })
            &&& n < pow(radix as int, written.len())
            &&& n > 0 ==> written[0] != '0' && n >= pow(
                radix as int,
                (written.len() - 1) as nat,
            )
            &&& n == 0 ==> written == seq!['0']
        }),
    decreases n,
{
    reveal(pow);
    let r = radix as int;
    assert(pow(r, 0) == 1);
    assert(pow(r, 1) == r) by {
        vstd::arithmetic::power::lemma_pow1(r);
    }
    let written = digits(n, radix);
    if n < radix {
        assert(n as int / 1 == n);
        assert(n as int % r == n) by (nonlinear_arith)
            requires
                0 <= n < r,
        ;
    } else {
        assert(n / radix < n && n / radix >= 1) by (nonlinear_arith)
            requires
                n >= radix,
                radix >= 2,
        ;
        let high = digits(n / radix, radix);
        let m = (n / radix) as int;
        let len = high.len();
        assert(n == m * r + n as int % r) by (nonlinear_arith)
            requires
                m == n as int / r,
                r >= 2,
        ;
        assert(0 <= n as int % r < r) by (nonlinear_arith)
            requires
                r >= 2,
        ;
        law_digits_are_places((n / radix), radix, 0);
        let top = pow(r, len);
        assert(pow(r, len + 1) == r * top);
        assert(n < r * top) by (nonlinear_arith)
            requires
                n == m * r + n as int % r,
                n as int % r < r,
                m < top,
                r >= 2,
        ;
        let low = pow(r, (len - 1) as nat);
        assert(pow(r, len) == r * low);
        assert(n >= r * low) by (nonlinear_arith)
            requires
                n == m * r + n as int % r,
                n as int % r >= 0,
                m >= low,
                r >= 2,
        ;
        if i == 0 {
            assert(n as int / 1 == n);
        } else {
            let k = (i - 1) as nat;
            law_digits_are_places((n / radix), radix, k);
            let p = pow(r, k);
            vstd::arithmetic::power::lemma_pow_positive(r, k);
            assert(pow(r, i) == r * p);
            vstd::arithmetic::div_mod::lemma_div_denominator(n as int, r, p);
            assert(written[written.len() - 1 - i] == high[high.len() - 1 - k]);
        }
    }
}

/// Filling up a text puts zeros in front of it, as many as are missing.
pub proof fn law_padding(s: Seq<char>, width: nat)
    ensures
        s.len() >= width ==> zero_padded(s, width) == s,
        s.len() < width ==> {
            let padded = zero_padded(s, width);
            &&& padded.len() == width
            &&& padded.skip(width - s.len()) == s
            &&& forall|i: int| 0 <= i < width - s.len() ==> #[trigger] padded[i] == '0'
        },
{
    if s.len() < width {
        assert(zero_padded(s, width).skip(width - s.len()) =~= s);
    }
}

/// A text has a part exactly if it is something, the part, and something more.
pub proof fn law_parts(s: Seq<char>, part: Seq<char>)
    ensures
        has_part(s, part) <==> exists|before: Seq<char>, after: Seq<char>|
            s == #[trigger] (before + part + after),
{
    if has_part(s, part) {
        let i = choose|i: int| stands_at(s, part, i);
        let before = s.take(i);
        let after = s.skip(i + part.len());
        assert(s =~= before + part + after);
    }
    if exists|before: Seq<char>, after: Seq<char>| s == #[trigger] (before + part + after) {
        let (before, after) = choose|before: Seq<char>, after: Seq<char>|
            s == #[trigger] (before + part + after);
        let i = before.len() as int;
        assert(s.subrange(i, i + part.len()) =~= part);
        assert(stands_at(s, part, i));
    }
}

/// Replacing leaves a text without the part as it is. Otherwise what stands before
/// the first occurrence stays, the occurrence gives way, and the rest is treated
/// likewise.
pub proof fn law_replacing(before: Seq<char>, part: Seq<char>, after: Seq<char>, by: Seq<char>)
    requires
        part.len() > 0,
    ensures
        !has_part(before, part) ==> replaced(before, part, by) == before,
        (forall|i: int|
            0 <= i < before.len() ==> !#[trigger] stands_at(before + part + after, part, i))
            ==> replaced(before + part + after, part, by) == before + by + replaced(
            after,
            part,
            by,
        ),
{
    if !has_part(before, part) {
        lemma_not_replaced(before, part, by);
    }
    if forall|i: int|
        0 <= i < before.len() ==> !#[trigger] stands_at(before + part + after, part, i) {
        lemma_first_replaced(before, part, after, by);
    }
}

/// The first occurrence gives way.
proof fn lemma_first_replaced(
    before: Seq<char>,
    part: Seq<char>,
    after: Seq<char>,
    by: Seq<char>,
)
    requires
        part.len() > 0,
        forall|i: int|
            0 <= i < before.len() ==> !#[trigger] stands_at(before + part + after, part, i),
    ensures
        replaced(before + part + after, part, by) == before + by + replaced(after, part, by),
    decreases before.len(),
{
    let s = before + part + after;
    let tail = replaced(after, part, by);
    if before.len() == 0 {
        assert(s.take(part.len() as int) =~= part);
        assert(s.skip(part.len() as int) =~= after);
        assert(before + by + tail =~= by + tail);
    } else {
        let fewer = before.drop_first();
        let rest = fewer + part + after;
        assert(s.drop_first() =~= rest);
        assert(!part.is_prefix_of(s)) by {
            assert(s.subrange(0, part.len() as int) =~= s.take(part.len() as int));
            assert(!stands_at(s, part, 0));
        }
        assert forall|i: int| 0 <= i < fewer.len() implies !#[trigger] stands_at(
            rest,
            part,
            i,
        ) by {
            assert(!stands_at(s, part, i + 1));
            assert(s.subrange(i + 1, i + 1 + part.len()) =~= rest.subrange(i, i + part.len()));
        }
        lemma_first_replaced(fewer, part, after, by);
        assert(replaced(s, part, by) == seq![s[0]] + replaced(rest, part, by));
        assert(seq![s[0]] + (fewer + by + tail) =~= before + by + tail);
    }
}

/// A text without the part is left alone.
proof fn lemma_not_replaced(s: Seq<char>, part: Seq<char>, by: Seq<char>)
    requires
        part.len() > 0,
        !has_part(s, part),
    ensures
        replaced(s, part, by) == s,
    decreases s.len(),
{
    if s.len() >= part.len() {
        if part.is_prefix_of(s) {
            assert(s.subrange(0, part.len() as int) =~= part);
            assert(stands_at(s, part, 0));
        }
        let rest = s.drop_first();
        if has_part(rest, part) {
            let i = choose|i: int| stands_at(rest, part, i);
            assert(s.subrange(i + 1, i + 1 + part.len()) =~= rest.subrange(i, i + part.len()));
            assert(stands_at(s, part, i + 1));
        }
        lemma_not_replaced(rest, part, by);
        assert(seq![s[0]] + rest =~= s);
    }
}

/// Of ASCII, lowercasing touches the capital letters alone, in a text as in a
/// single character.
pub proof fn law_lowercase_of_ascii(s: Seq<char>, c: char)
    requires
        is_ascii_chars(s),
        c as int <= 0x7F,
    ensures
        lowercase(s) == ascii_lowercase(s),
        'A' <= c <= 'Z' ==> char_lowercase(c) == seq![(c as u32 + 32) as char],
        !('A' <= c <= 'Z') ==> char_lowercase(c) == seq![c],
{
}

}
