//! Text primitives: searching, lowercasing, and numbers as digits.
//!
//! A string is seen through its view, the sequence of its characters.
use vstd::prelude::*;
use vstd::string::*;
use vstd::utf8::*;

verus! {

/// The numbers that are Unicode scalar values, the ones a `char` can hold.
pub open spec fn is_scalar(code: int) -> bool {
    0 <= code <= 0xD7FF || 0xE000 <= code <= 0x10FFFF
}

/// `String::push` appends one character.
pub assume_specification[ String::push ](s: &mut String, c: char)
    ensures
        final(s)@ == old(s)@.push(c),
;

/// `char::from_u32` gives the character of a Unicode scalar value, and nothing
/// for any other number.
pub assume_specification[ char::from_u32 ](i: u32) -> (r: Option<char>)
    ensures
        is_scalar(i as int) ==> r == Some(i as char),
        !is_scalar(i as int) ==> r is None,
;

/// A character with the ASCII capital letters made small.
pub open spec fn ascii_lower(c: char) -> char {
    if 'A' <= c <= 'Z' {
        (c as u32 + 32) as char
    } else {
        c
    }
}

/// A text with its ASCII capital letters made small.
pub open spec fn ascii_lowercase(s: Seq<char>) -> Seq<char> {
    s.map_values(|c: char| ascii_lower(c))
}

/// What `str::to_lowercase` makes of a text by the Unicode case mappings.
pub uninterp spec fn unicode_lowercase(s: Seq<char>) -> Seq<char>;

/// The lowercase form of a text. On ASCII text it is spelled out; on any other
/// text it is the Unicode mapping.
pub open spec fn lowercase(s: Seq<char>) -> Seq<char> {
    if is_ascii_chars(s) {
        ascii_lowercase(s)
    } else {
        unicode_lowercase(s)
    }
}

/// `str::to_lowercase`: the result depends on the text alone, and ASCII text
/// has its capital letters made small and nothing else changed. What happens
/// to a text with other characters is named and left unsaid.
#[verifier::external_body]
pub(crate) fn to_lowercase(s: &str) -> (r: String)
    ensures
        r@ == (if is_ascii_chars(s@) {
            ascii_lowercase(s@)
        } else {
            unicode_lowercase(s@)
        }),
{
    s.to_lowercase()
}

/// What `char::to_lowercase` makes of a character by the Unicode case mappings.
pub uninterp spec fn unicode_char_lowercase(c: char) -> Seq<char>;

/// The lowercase form of one character, which can be several characters.
pub open spec fn char_lowercase(c: char) -> Seq<char> {
    if c <= '\u{7f}' {
        seq![ascii_lower(c)]
    } else {
        unicode_char_lowercase(c)
    }
}

/// `char::to_lowercase`, its characters put into a string: the result depends
/// on the character alone, and of ASCII only the capital letters change. What
/// happens to other characters is named and left unsaid.
#[verifier::external_body]
pub(crate) fn char_to_lowercase(c: char) -> (r: String)
    ensures
        r@ == (if c <= '\u{7f}' {
            seq![ascii_lower(c)]
        } else {
            unicode_char_lowercase(c)
        }),
{
    c.to_lowercase().collect()
}

/// The characters of a string.
pub fn chars_of(s: &str) -> (v: Vec<char>)
    ensures
        v@ == s@,
{
    let mut v: Vec<char> = Vec::new();
    for c in it: s.chars()
        invariant
            v@ == it.seq().take(it.index() as int),
            it.seq() == s@,
    {
        v.push(c);
    }
    v
}

/// `part` stands in `s`, at position `i`.
pub open spec fn stands_at(s: Seq<char>, part: Seq<char>, i: int) -> bool {
    0 <= i && i + part.len() <= s.len() && s.subrange(i, i + part.len()) == part
}

/// `part` stands somewhere in `s`.
pub open spec fn has_part(s: Seq<char>, part: Seq<char>) -> bool {
    exists|i: int| stands_at(s, part, i)
}

/// Whether `part` stands in `s` at position `at`.
fn matches_at(s: &[char], part: &[char], at: usize) -> (r: bool)
    requires
        at + part@.len() <= s@.len(),
    ensures
        r == stands_at(s@, part@, at as int),
{
    let total: usize = s.len();
    let mut k: usize = 0;
    while k < part.len()
        invariant
            k <= part@.len(),
            at + part@.len() <= total,
            total == s@.len(),
            forall|j: int| 0 <= j < k ==> s@[at + j] == part@[j],
        decreases part@.len() - k,
    {
        if s[at + k] != part[k] {
            assert(s@.subrange(at as int, at + part@.len())[k as int] != part@[k as int]);
            return false;
        }
        k += 1;
    }
    assert(s@.subrange(at as int, at + part@.len()) =~= part@);
    true
}

/// Whether `s` contains `part`.
pub fn contains(s: &str, part: &str) -> (r: bool)
    ensures
        r == has_part(s@, part@),
{
    let text = chars_of(s);
    let wanted = chars_of(part);
    if wanted.len() > text.len() {
        return false;
    }
    let last: usize = text.len() - wanted.len();
    let mut i: usize = 0;
    loop
        invariant
            text@ == s@,
            wanted@ == part@,
            last == text@.len() - wanted@.len(),
            i <= last,
            forall|j: int| 0 <= j < i ==> !stands_at(s@, part@, j),
        decreases last - i,
    {
        if matches_at(&text, &wanted, i) {
            return true;
        }
        if i == last {
            return false;
        }
        i += 1;
    }
}

/// Whether `s` begins with `prefix`.
pub fn starts_with(s: &str, prefix: &str) -> (r: bool)
    ensures
        r == prefix@.is_prefix_of(s@),
{
    let text = chars_of(s);
    let wanted = chars_of(prefix);
    wanted.len() <= text.len() && matches_at(&text, &wanted, 0)
}

/// The digit character of a number below 36, letters in capitals.
pub open spec fn digit_char(d: int) -> char {
    if d < 10 {
        ('0' as int + d) as char
    } else {
        ('A' as int + d - 10) as char
    }
}

/// A number written in the given radix, without leading zeros.
pub open spec fn digits(n: nat, radix: nat) -> Seq<char>
    decreases n,
{
    if radix < 2 || n < radix {
        seq![digit_char(n as int)]
    } else {
        proof {
            assert(n / radix < n) by (nonlinear_arith)
                requires
                    n >= radix,
                    radix >= 2,
            ;
        }
        digits(n / radix, radix).push(digit_char((n % radix) as int))
    }
}

/// A text filled up with zeros on the left to the given width.
pub open spec fn zero_padded(s: Seq<char>, width: nat) -> Seq<char> {
    if s.len() >= width {
        s
    } else {
        Seq::new((width - s.len()) as nat, |i: int| '0') + s
    }
}

/// The digit character of a number below 36.
fn digit_of(d: u32) -> (c: char)
    requires
        d < 36,
    ensures
        c == digit_char(d as int),
{
    if d < 10 {
        (48 + d as u8) as char
    } else {
        (55 + d as u8) as char
    }
}

/// A number written in the given radix, filled up with zeros on the left to
/// `width` characters.
pub fn format_number(number: u32, radix: u32, width: usize) -> (s: String)
    requires
        2 <= radix <= 36,
    ensures
        s@ == zero_padded(digits(number as nat, radix as nat), width as nat),
{
    // The digits, the last one first.
    let mut reversed: Vec<char> = Vec::new();
    let mut rest: u32 = number;
    while rest >= radix
        invariant
            2 <= radix <= 36,
            digits(number as nat, radix as nat) == digits(rest as nat, radix as nat)
                + reversed@.reverse(),
        decreases rest,
    {
        let ghost before = reversed@;
        let d: u32 = rest % radix;
        reversed.push(digit_of(d));
        proof {
            assert(rest / radix < rest) by (nonlinear_arith)
                requires
                    rest >= radix,
                    radix >= 2,
            ;
            assert(reversed@.reverse() =~= seq![digit_char(d as int)] + before.reverse());
            assert(digits(rest as nat, radix as nat) == digits(
                (rest / radix) as nat,
                radix as nat,
            ).push(digit_char(d as int)));
            assert(digits(rest as nat, radix as nat) + before.reverse() =~= digits(
                (rest / radix) as nat,
                radix as nat,
            ) + reversed@.reverse());
        }
        rest = rest / radix;
    }
    let ghost before = reversed@;
    reversed.push(digit_of(rest));
    assert(reversed@.reverse() =~= seq![digit_char(rest as int)] + before.reverse());
    assert(digits(number as nat, radix as nat) == reversed@.reverse());
    let ghost shown = reversed@.reverse();

    let mut s: String = String::new();
    let mut filled: usize = reversed.len();
    while filled < width
        invariant
            reversed@.len() == shown.len(),
            filled >= shown.len(),
            filled == shown.len() || filled <= width,
            s@ == Seq::new((filled - shown.len()) as nat, |i: int| '0'),
        decreases width - filled,
    {
        s.push('0');
        filled += 1;
        assert(s@ =~= Seq::new((filled - shown.len()) as nat, |i: int| '0'));
    }
    let ghost zeros = s@;
    let mut k: usize = reversed.len();
    assert(s@ =~= zeros + shown.take(0));
    while k > 0
        invariant
            k <= reversed@.len(),
            shown == reversed@.reverse(),
            s@ == zeros + shown.take(reversed@.len() - k),
        decreases k,
    {
        k -= 1;
        s.push(reversed[k]);
        assert(s@ =~= zeros + shown.take(reversed@.len() - k));
    }
    assert(shown.take(shown.len() as int) =~= shown);
    assert(shown.len() >= width ==> zeros + shown =~= shown);
    s
}

/// The value of a digit character, if it is one in the given radix.
pub open spec fn digit_value(c: char, radix: nat) -> Option<nat> {
    let value: int = if '0' <= c <= '9' {
        c as int - '0' as int
    } else if 'a' <= c <= 'z' {
        c as int - 'a' as int + 10
    } else if 'A' <= c <= 'Z' {
        c as int - 'A' as int + 10
    } else {
        36
    };
    if value < radix && value < 36 {
        Some(value as nat)
    } else {
        None
    }
}

/// The value of a run of digits, if all of them are digits in the radix.
pub open spec fn digits_value(s: Seq<char>, radix: nat) -> Option<nat>
    decreases s.len(),
{
    if s.len() == 0 {
        Some(0)
    } else {
        match (digits_value(s.drop_last(), radix), digit_value(s.last(), radix)) {
            (Some(high), Some(low)) => Some(high * radix + low),
            _ => None,
        }
    }
}

/// What a text means as an unsigned 32-bit number in the given radix: an
/// optional plus sign, then at least one digit and nothing but digits, with a
/// value that fits.
pub open spec fn parsed_u32(s: Seq<char>, radix: nat) -> Option<u32> {
    let body = if s.len() > 0 && s[0] == '+' {
        s.drop_first()
    } else {
        s
    };
    if body.len() == 0 {
        None
    } else {
        match digits_value(body, radix) {
            Some(value) if value <= u32::MAX => Some(value as u32),
            _ => None,
        }
    }
}

/// More digits never make a value smaller.
proof fn lemma_digits_value_grows(s: Seq<char>, radix: nat, k: int)
    requires
        radix >= 1,
        0 <= k <= s.len(),
        digits_value(s, radix) is Some,
    ensures
        digits_value(s.take(k), radix) is Some,
        digits_value(s.take(k), radix)->0 <= digits_value(s, radix)->0,
    decreases s.len() - k,
{
    if k == s.len() {
        assert(s.take(k) =~= s);
    } else {
        lemma_digits_value_grows(s, radix, k + 1);
        assert(s.take(k + 1).drop_last() =~= s.take(k));
        let high = digits_value(s.take(k), radix)->0;
        assert(high * radix >= high) by (nonlinear_arith)
            requires
                radix >= 1,
        ;
    }
}

/// The first digits of a run of digits are digits too.
pub proof fn lemma_digits_value_prefix(s: Seq<char>, radix: nat, k: int)
    requires
        radix >= 1,
        0 <= k <= s.len(),
    ensures
        digits_value(s, radix) is Some ==> digits_value(s.take(k), radix) is Some,
{
    if digits_value(s, radix) is Some {
        lemma_digits_value_grows(s, radix, k);
    }
}

/// The value of a digit character, if it is one in the given radix.
pub fn value_of_digit(c: char, radix: u32) -> (r: Option<u32>)
    ensures
        match r {
            Some(v) => digit_value(c, radix as nat) == Some(v as nat),
            None => digit_value(c, radix as nat) is None,
        },
{
    let value: u32 = if '0' <= c && c <= '9' {
        c as u32 - '0' as u32
    } else if 'a' <= c && c <= 'z' {
        c as u32 - 'a' as u32 + 10
    } else if 'A' <= c && c <= 'Z' {
        c as u32 - 'A' as u32 + 10
    } else {
        36
    };
    if value < radix && value < 36 {
        Some(value)
    } else {
        None
    }
}

/// Reads an unsigned 32-bit number in the given radix.
pub fn parse_u32(s: &str, radix: u32) -> (r: Option<u32>)
    requires
        2 <= radix <= 36,
    ensures
        r == parsed_u32(s@, radix as nat),
{
    let text = chars_of(s);
    let mut k: usize = 0;
    if text.len() > 0 && text[0] == '+' {
        k = 1;
    }
    let ghost first: int = k as int;
    let ghost body = s@.skip(first);
    proof {
        if first == 1 {
            assert(s@.drop_first() =~= body);
        } else {
            assert(s@ =~= body);
        }
        assert(body.take(0) =~= Seq::<char>::empty());
    }
    if k == text.len() {
        return None;
    }
    let mut value: u64 = 0;
    while k < text.len()
        invariant
            2 <= radix <= 36,
            text@ == s@,
            0 <= first <= k <= text@.len(),
            body == s@.skip(first),
            value <= u32::MAX,
            digits_value(body.take(k - first), radix as nat) == Some(value as nat),
            body.len() > 0,
            body == (if s@.len() > 0 && s@[0] == '+' {
                s@.drop_first()
            } else {
                s@
            }),
        decreases text@.len() - k,
    {
        let ghost here: int = k - first;
        assert(body.take(here + 1).drop_last() =~= body.take(here));
        assert(body.take(here + 1).last() == text@[k as int]);
        match value_of_digit(text[k], radix) {
            None => {
                proof {
                    if digits_value(body, radix as nat) is Some {
                        lemma_digits_value_grows(body, radix as nat, here + 1);
                    }
                }
                return None;
            },
            Some(low) => {
                assert(value * radix <= 0xFFFF_FFFF * 36) by (nonlinear_arith)
                    requires
                        value <= 0xFFFF_FFFF,
                        radix <= 36,
                ;
                value = value * radix as u64 + low as u64;
            },
        }
        if value > u32::MAX as u64 {
            proof {
                if digits_value(body, radix as nat) is Some {
                    lemma_digits_value_grows(body, radix as nat, here + 1);
                }
            }
            return None;
        }
        k += 1;
    }
    assert(body.take(k - first) =~= body);
    Some(value as u32)
}

/// Reading the digits of a number gives the number back.
pub proof fn law_digits_parse_back(n: u32, radix: nat)
    requires
        2 <= radix <= 36,
    ensures
        parsed_u32(digits(n as nat, radix), radix) == Some(n),
{
    lemma_digits_value(n as nat, radix);
    lemma_digits_start(n as nat, radix);
}

/// A digit has its own value.
proof fn lemma_digit_value(d: int, radix: nat)
    requires
        0 <= d < radix <= 36,
    ensures
        digit_value(digit_char(d), radix) == Some(d as nat),
{
}

/// The digits of a number have that number as their value.
proof fn lemma_digits_value(n: nat, radix: nat)
    requires
        2 <= radix <= 36,
    ensures
        digits_value(digits(n, radix), radix) == Some(n),
    decreases n,
{
    if n < radix {
        lemma_digit_value(n as int, radix);
        assert(digits(n, radix).drop_last() =~= Seq::<char>::empty());
        assert(digits_value(Seq::<char>::empty(), radix) == Some(0nat));
        assert(0 * radix == 0) by (nonlinear_arith);
    } else {
        assert(n / radix < n) by (nonlinear_arith)
            requires
                n >= radix,
                radix >= 2,
        ;
        lemma_digits_value(n / radix, radix);
        assert(0 <= n % radix < radix) by (nonlinear_arith)
            requires
                radix >= 2,
        ;
        lemma_digit_value((n % radix) as int, radix);
        assert(digits(n, radix).drop_last() =~= digits(n / radix, radix));
        assert(n == (n / radix) * radix + n % radix) by (nonlinear_arith)
            requires
                radix >= 2,
        ;
    }
}

/// Leading zeros do not change the value of digits.
pub proof fn lemma_padded_value(n: nat, radix: nat, width: nat)
    requires
        2 <= radix <= 36,
    ensures
        digits_value(zero_padded(digits(n, radix), width), radix) == Some(n),
{
    let s = digits(n, radix);
    lemma_digits_value(n, radix);
    if s.len() < width {
        lemma_leading_zeros(Seq::new((width - s.len()) as nat, |i: int| '0'), s, radix);
    }
}

/// Zeros before a run of digits do not change its value.
proof fn lemma_leading_zeros(zeros: Seq<char>, s: Seq<char>, radix: nat)
    requires
        2 <= radix <= 36,
        forall|i: int| 0 <= i < zeros.len() ==> #[trigger] zeros[i] == '0',
    ensures
        digits_value(zeros + s, radix) == digits_value(s, radix),
    decreases zeros.len() + s.len(),
{
    let all = zeros + s;
    if s.len() > 0 {
        lemma_leading_zeros(zeros, s.drop_last(), radix);
        assert(all.drop_last() =~= zeros + s.drop_last());
    } else if zeros.len() > 0 {
        lemma_leading_zeros(zeros.drop_last(), s, radix);
        assert(all.drop_last() =~= zeros.drop_last() + s);
        assert(all.last() == zeros[zeros.len() - 1]);
        lemma_digit_value(0, radix);
        assert(0 * radix == 0) by (nonlinear_arith);
    } else {
        assert(all =~= s);
    }
}

/// The digits of a number are there, and the first of them is no plus sign.
proof fn lemma_digits_start(n: nat, radix: nat)
    requires
        2 <= radix <= 36,
    ensures
        digits(n, radix).len() > 0,
        digits(n, radix)[0] != '+',
    decreases n,
{
    if n >= radix {
        assert(n / radix < n) by (nonlinear_arith)
            requires
                n >= radix,
                radix >= 2,
        ;
        lemma_digits_start(n / radix, radix);
    }
}

/// A text in which every occurrence of `part`, found from the left, gives way
/// to `by`.
pub open spec fn replaced(s: Seq<char>, part: Seq<char>, by: Seq<char>) -> Seq<char>
    decreases s.len(),
{
    if part.len() == 0 || s.len() < part.len() {
        s
    } else if part.is_prefix_of(s) {
        by + replaced(s.skip(part.len() as int), part, by)
    } else {
        seq![s[0]] + replaced(s.drop_first(), part, by)
    }
}

/// Puts `by` in the place of every occurrence of `part`, which is not empty.
pub fn replace(s: &str, part: &str, by: &str) -> (r: String)
    requires
        part@.len() > 0,
    ensures
        r@ == replaced(s@, part@, by@),
{
    let text = chars_of(s);
    let wanted = chars_of(part);
    let mut r: String = String::new();
    let mut i: usize = 0;
    assert(s@.skip(0) =~= s@);
    assert(r@ + replaced(s@, part@, by@) =~= replaced(s@, part@, by@));
    while i < text.len() && wanted.len() <= text.len() - i
        invariant
            text@ == s@,
            wanted@ == part@,
            part@.len() > 0,
            i <= text@.len(),
            replaced(s@, part@, by@) == r@ + replaced(s@.skip(i as int), part@, by@),
        decreases text@.len() - i,
    {
        let ghost before = r@;
        let ghost rest = s@.skip(i as int);
        if matches_at(&text, &wanted, i) {
            proof {
                assert(rest.take(part@.len() as int) =~= s@.subrange(
                    i as int,
                    i + part@.len(),
                ));
                assert(part@.is_prefix_of(rest));
                assert(rest.skip(part@.len() as int) =~= s@.skip(i + part@.len()));
            }
            r.append(by);
            i += wanted.len();
            assert(before + (by@ + replaced(s@.skip(i as int), part@, by@)) =~= r@ + replaced(
                s@.skip(i as int),
                part@,
                by@,
            ));
        } else {
            proof {
                if part@.is_prefix_of(rest) {
                    assert(s@.subrange(i as int, i + part@.len()) =~= rest.take(
                        part@.len() as int,
                    ));
                }
                assert(rest.drop_first() =~= s@.skip(i + 1));
            }
            r.push(text[i]);
            i += 1;
            assert(before + (seq![rest[0]] + replaced(s@.skip(i as int), part@, by@)) =~= r@
                + replaced(s@.skip(i as int), part@, by@));
        }
    }
    let ghost done = r@;
    let ghost from: int = i as int;
    assert(done =~= done + s@.skip(from).take(0));
    while i < text.len()
        invariant
            text@ == s@,
            0 <= from <= i <= text@.len(),
            r@ == done + s@.skip(from).take(i - from),
        decreases text@.len() - i,
    {
        r.push(text[i]);
        i += 1;
        assert(s@.skip(from).take(i - from) =~= s@.skip(from).take(i - 1 - from).push(s@[i - 1]));
        assert(r@ =~= done + s@.skip(from).take(i - from));
    }
    assert(s@.skip(from).take(i - from) =~= s@.skip(from));
    r
}

}
