//! The list of font families: its order, its filter, and finding a font by
//! typing.
use vstd::prelude::*;
use vstd::string::*;

use crate::text::{
    char_lowercase, char_to_lowercase, chars_of, contains, has_part, lowercase, starts_with,
    to_lowercase,
};
use crate::unicode::char_list_model::control_code;

verus! {

/// One text comes before another: where they first differ it has the lower
/// codepoint, or it ends.
pub open spec fn comes_before(a: Seq<char>, b: Seq<char>) -> bool
    decreases a.len(),
{
    if b.len() == 0 {
        false
    } else if a.len() == 0 {
        true
    } else if a[0] != b[0] {
        a[0] < b[0]
    } else {
        comes_before(a.drop_first(), b.drop_first())
    }
}

/// Names, seen as character sequences.
pub open spec fn names_seen(names: Seq<String>) -> Seq<Seq<char>> {
    names.map_values(|name: String| name@)
}

/// Ordered names with one more, put after every name that does not come after
/// it, letter case aside.
pub open spec fn with_name(names: Seq<Seq<char>>, name: Seq<char>) -> Seq<Seq<char>>
    decreases names.len(),
{
    if names.len() == 0 || !comes_before(lowercase(name), lowercase(names.last())) {
        names.push(name)
    } else {
        with_name(names.drop_last(), name).push(names.last())
    }
}

/// Names in the order of their lowercase forms; names of one lowercase form stay
/// in the order they had.
pub open spec fn in_order(names: Seq<Seq<char>>) -> Seq<Seq<char>>
    decreases names.len(),
{
    if names.len() == 0 {
        Seq::empty()
    } else {
        with_name(in_order(names.drop_last()), names.last())
    }
}

/// Names without those that are the same as the one right before them.
pub open spec fn without_repeats(names: Seq<Seq<char>>) -> Seq<Seq<char>>
    decreases names.len(),
{
    if names.len() == 0 {
        Seq::empty()
    } else {
        let before = without_repeats(names.drop_last());
        if names.len() > 1 && names[names.len() - 2] == names.last() {
            before
        } else {
            before.push(names.last())
        }
    }
}

/// Whether one text comes before another.
fn less(a: &[char], b: &[char]) -> (r: bool)
    ensures
        r == comes_before(a@, b@),
{
    let mut i: usize = 0;
    assert(a@.skip(0) =~= a@);
    assert(b@.skip(0) =~= b@);
    loop
        invariant
            i <= a@.len(),
            i <= b@.len(),
            comes_before(a@, b@) == comes_before(a@.skip(i as int), b@.skip(i as int)),
        decreases a@.len() - i,
    {
        if i >= b.len() {
            return false;
        }
        if i >= a.len() {
            return true;
        }
        if a[i] != b[i] {
            return a[i] < b[i];
        }
        assert(a@.skip(i as int).drop_first() =~= a@.skip(i + 1));
        assert(b@.skip(i as int).drop_first() =~= b@.skip(i + 1));
        i += 1;
    }
}

/// Where a name goes among ordered names.
proof fn lemma_with_name(names: Seq<Seq<char>>, name: Seq<char>, at: int)
    requires
        0 <= at <= names.len(),
        forall|k: int|
            at <= k < names.len() ==> comes_before(lowercase(name), lowercase(#[trigger] names[k])),
        at > 0 ==> !comes_before(lowercase(name), lowercase(names[at - 1])),
    ensures
        with_name(names, name) == names.insert(at, name),
    decreases names.len(),
{
    if at < names.len() {
        assert(comes_before(lowercase(name), lowercase(names[names.len() - 1])));
        lemma_with_name(names.drop_last(), name, at);
        assert(names.drop_last().insert(at, name).push(names.last()) =~= names.insert(at, name));
    } else {
        assert(names.push(name) =~= names.insert(at, name));
    }
}

/// The families in the order they are listed: by their names, letter case aside,
/// a family that comes up again right after itself listed once.
pub fn sort_fonts(names: &[String]) -> (fonts: Vec<String>)
    ensures
        names_seen(fonts@) == without_repeats(in_order(names_seen(names@))),
{
    let ghost given = names_seen(names@);
    let mut sorted: Vec<String> = Vec::new();
    let mut keys: Vec<Vec<char>> = Vec::new();
    let mut i: usize = 0;
    assert(given.take(0) =~= Seq::<Seq<char>>::empty());
    assert(names_seen(sorted@) =~= Seq::<Seq<char>>::empty());
    while i < names.len()
        invariant
            i <= names@.len(),
            given == names_seen(names@),
            names_seen(sorted@) == in_order(given.take(i as int)),
            keys@.len() == sorted@.len(),
            forall|k: int|
                0 <= k < keys@.len() ==> (#[trigger] keys@[k])@ == lowercase(sorted@[k]@),
        decreases names@.len() - i,
    {
        let ghost before = names_seen(sorted@);
        let key = chars_of(to_lowercase(names[i].as_str()).as_str());
        let mut at: usize = sorted.len();
        while at > 0 && less(&key, &keys[at - 1])
            invariant
                i < names@.len(),
                key@ == lowercase(names@[i as int]@),
                before == names_seen(sorted@),
                at <= sorted@.len(),
                keys@.len() == sorted@.len(),
                forall|k: int|
                    0 <= k < keys@.len() ==> (#[trigger] keys@[k])@ == lowercase(sorted@[k]@),
                forall|k: int|
                    at <= k < before.len() ==> comes_before(key@, lowercase(#[trigger] before[k])),
            decreases at,
        {
            at -= 1;
            assert(keys@[at as int]@ == lowercase(before[at as int]));
        }
        let ghost old_sorted = sorted@;
        let ghost old_keys = keys@;
        sorted.insert(at, names[i].clone());
        keys.insert(at, key);
        proof {
            if at > 0 {
                assert(keys@[at - 1]@ == lowercase(before[at - 1]));
            }
            lemma_with_name(before, names@[i as int]@, at as int);
            assert(names_seen(sorted@) =~= before.insert(at as int, names@[i as int]@));
            assert(given.take(i + 1).drop_last() =~= given.take(i as int));
            assert forall|k: int| 0 <= k < keys@.len() implies (#[trigger] keys@[k])@ == lowercase(
                sorted@[k]@,
            ) by {
                if k < at {
                    assert(keys@[k] == old_keys[k]);
                } else if k > at {
                    assert(keys@[k] == old_keys[k - 1]);
                }
            }
        }
        i += 1;
    }
    assert(given.take(i as int) =~= given);

    let ghost ordered = names_seen(sorted@);
    let mut fonts: Vec<String> = Vec::new();
    let mut j: usize = 0;
    assert(ordered.take(0) =~= Seq::<Seq<char>>::empty());
    assert(names_seen(fonts@) =~= Seq::<Seq<char>>::empty());
    while j < sorted.len()
        invariant
            j <= sorted@.len(),
            ordered == names_seen(sorted@),
            names_seen(fonts@) == without_repeats(ordered.take(j as int)),
        decreases sorted@.len() - j,
    {
        let ghost before = names_seen(fonts@);
        proof {
            let now = ordered.take(j + 1);
            assert(now.drop_last() =~= ordered.take(j as int));
            assert(now.last() == sorted@[j as int]@);
            if j > 0 {
                assert(now[now.len() - 2] == sorted@[j - 1]@);
            }
        }
        if j == 0 || sorted[j - 1] != sorted[j] {
            fonts.push(sorted[j].clone());
            assert(names_seen(fonts@) =~= before.push(sorted@[j as int]@));
        }
        j += 1;
    }
    assert(ordered.take(j as int) =~= ordered);
    fonts
}

/// No text comes before itself, of two different texts one comes before the
/// other, and what comes before another comes before all that do not come
/// before that.
proof fn lemma_order(a: Seq<char>, b: Seq<char>, c: Seq<char>)
    ensures
        !(comes_before(a, b) && comes_before(b, a)),
        comes_before(a, b) && !comes_before(c, b) ==> comes_before(a, c),
    decreases a.len(),
{
    if a.len() > 0 && b.len() > 0 {
        if c.len() > 0 {
            lemma_order(a.drop_first(), b.drop_first(), c.drop_first());
        } else {
            lemma_order(a.drop_first(), b.drop_first(), c);
        }
    }
}

/// No name comes before an earlier one, letter case aside.
pub open spec fn ordered(names: Seq<Seq<char>>) -> bool {
    forall|i: int, j: int|
        0 <= i < j < names.len() ==> !comes_before(
            lowercase(#[trigger] names[j]),
            lowercase(#[trigger] names[i]),
        )
}

/// The listed fonts are in the order of their lowercase names.
pub proof fn law_fonts_sorted(names: Seq<Seq<char>>)
    ensures
        ordered(without_repeats(in_order(names))),
{
    lemma_in_order(names);
    lemma_repeats_ordered(in_order(names));
}

/// Putting one name after the other where it belongs orders them.
proof fn lemma_in_order(names: Seq<Seq<char>>)
    ensures
        ordered(in_order(names)),
    decreases names.len(),
{
    if names.len() > 0 {
        lemma_in_order(names.drop_last());
        lemma_with_name_sorted(in_order(names.drop_last()), names.last());
    }
}

/// Dropping repeats leaves ordered names ordered.
proof fn lemma_repeats_ordered(names: Seq<Seq<char>>)
    requires
        ordered(names),
    ensures
        ordered(without_repeats(names)),
    decreases names.len(),
{
    if names.len() > 0 {
        let fewer = names.drop_last();
        let before = without_repeats(fewer);
        let now = without_repeats(names);
        assert(ordered(fewer)) by {
            assert forall|i: int, j: int| 0 <= i < j < fewer.len() implies !comes_before(
                lowercase(#[trigger] fewer[j]),
                lowercase(#[trigger] fewer[i]),
            ) by {
                assert(fewer[i] == names[i] && fewer[j] == names[j]);
            }
        }
        lemma_repeats_ordered(fewer);
        law_repeats_dropped(fewer);
        assert forall|i: int, j: int| 0 <= i < j < now.len() implies !comes_before(
            lowercase(#[trigger] now[j]),
            lowercase(#[trigger] now[i]),
        ) by {
            assert(now[i] == before[i]);
            if j < before.len() {
                assert(now[j] == before[j]);
            } else {
                assert(before.contains(before[i]));
                let h = choose|h: int| 0 <= h < fewer.len() && fewer[h] == before[i];
                assert(names[h] == now[i] && names[names.len() - 1] == now[j]);
            }
        }
    }
}

/// Ordered names stay ordered with one more.
proof fn lemma_with_name_sorted(names: Seq<Seq<char>>, name: Seq<char>)
    requires
        ordered(names),
    ensures
        ordered(with_name(names, name)),
{
    let at = lemma_place(names, name);
    lemma_with_name(names, name, at);
    let all = names.insert(at, name);
    let key = lowercase(name);
    assert forall|i: int, j: int| 0 <= i < j < all.len() implies !comes_before(
        lowercase(#[trigger] all[j]),
        lowercase(#[trigger] all[i]),
    ) by {
        let old_i = if i < at {
            i
        } else {
            i - 1
        };
        let old_j = if j < at {
            j
        } else {
            j - 1
        };
        if i == at {
            assert(all[j] == names[old_j]);
            lemma_order(key, lowercase(names[old_j]), key);
        } else if j == at {
            assert(all[i] == names[i]);
            let before = lowercase(names[at - 1]);
            if i < at - 1 {
                assert(!comes_before(before, lowercase(names[i])));
                // A name before the one right before the place.
                if comes_before(key, lowercase(names[i])) {
                    lemma_order(key, lowercase(names[i]), before);
                }
            }
        } else {
            assert(all[i] == names[old_i]);
            assert(all[j] == names[old_j]);
        }
    }
}

/// The place at which a name goes among ordered names.
proof fn lemma_place(names: Seq<Seq<char>>, name: Seq<char>) -> (at: int)
    ensures
        0 <= at <= names.len(),
        forall|k: int|
            at <= k < names.len() ==> comes_before(lowercase(name), lowercase(#[trigger] names[k])),
        at > 0 ==> !comes_before(lowercase(name), lowercase(names[at - 1])),
    decreases names.len(),
{
    if names.len() == 0 || !comes_before(lowercase(name), lowercase(names.last())) {
        names.len() as int
    } else {
        let fewer = names.drop_last();
        let at = lemma_place(fewer, name);
        assert forall|k: int| at <= k < names.len() implies comes_before(
            lowercase(name),
            lowercase(#[trigger] names[k]),
        ) by {
            if k < fewer.len() {
                assert(fewer[k] == names[k]);
            }
        }
        at
    }
}

/// Ordering loses no name and makes up none.
pub proof fn law_fonts_kept(names: Seq<Seq<char>>)
    ensures
        in_order(names).to_multiset() == names.to_multiset(),
    decreases names.len(),
{
    broadcast use vstd::seq_lib::group_to_multiset_ensures;

    if names.len() > 0 {
        let fewer = names.drop_last();
        law_fonts_kept(fewer);
        let at = lemma_place(in_order(fewer), names.last());
        lemma_with_name(in_order(fewer), names.last(), at);
        assert(names =~= fewer.push(names.last()));
    } else {
        assert(in_order(names) =~= names);
    }
}

/// The names of one lowercase form, in order.
pub open spec fn of_key(names: Seq<Seq<char>>, key: Seq<char>) -> Seq<Seq<char>>
    decreases names.len(),
{
    if names.len() == 0 {
        Seq::empty()
    } else if lowercase(names.last()) == key {
        of_key(names.drop_last(), key).push(names.last())
    } else {
        of_key(names.drop_last(), key)
    }
}

/// Names of one lowercase form stay in the order they had.
pub proof fn law_fonts_stable(names: Seq<Seq<char>>, key: Seq<char>)
    ensures
        of_key(in_order(names), key) == of_key(names, key),
    decreases names.len(),
{
    if names.len() > 0 {
        law_fonts_stable(names.drop_last(), key);
        lemma_with_name_stable(in_order(names.drop_last()), names.last(), key);
    }
}

/// A name goes after the names of its lowercase form.
proof fn lemma_with_name_stable(names: Seq<Seq<char>>, name: Seq<char>, key: Seq<char>)
    ensures
        of_key(with_name(names, name), key) == (if lowercase(name) == key {
            of_key(names, key).push(name)
        } else {
            of_key(names, key)
        }),
    decreases names.len(),
{
    if names.len() == 0 || !comes_before(lowercase(name), lowercase(names.last())) {
        assert(names.push(name).drop_last() =~= names);
    } else {
        let rest = with_name(names.drop_last(), name);
        lemma_with_name_stable(names.drop_last(), name, key);
        assert(rest.push(names.last()).drop_last() =~= rest);
        if lowercase(name) == key {
            lemma_order(lowercase(name), lowercase(names.last()), key);
        }
    }
}

/// Dropping repeats leaves every name there once at least, and none twice in a
/// row.
pub proof fn law_repeats_dropped(names: Seq<Seq<char>>)
    ensures
        forall|name: Seq<char>| #[trigger]
            without_repeats(names).contains(name) <==> names.contains(name),
        forall|i: int|
            0 < i < without_repeats(names).len() ==> #[trigger] without_repeats(names)[i]
                != without_repeats(names)[i - 1],
        names.len() > 0 ==> without_repeats(names).len() > 0 && without_repeats(names).last()
            == names.last(),
    decreases names.len(),
{
    if names.len() > 0 {
        let fewer = names.drop_last();
        let before = without_repeats(fewer);
        let now = without_repeats(names);
        law_repeats_dropped(fewer);
        assert forall|name: Seq<char>| #[trigger] now.contains(name) <==> names.contains(name) by {
            if names.contains(name) {
                let i = choose|i: int| 0 <= i < names.len() && names[i] == name;
                if i < fewer.len() {
                    assert(fewer[i] == name);
                    assert(before.contains(name));
                    let j = choose|j: int| 0 <= j < before.len() && before[j] == name;
                    assert(now[j] == name);
                } else {
                    assert(now[now.len() - 1] == name);
                }
            }
            if now.contains(name) {
                let j = choose|j: int| 0 <= j < now.len() && now[j] == name;
                if j < before.len() {
                    assert(before[j] == name);
                    assert(before.contains(name));
                    let i = choose|i: int| 0 <= i < fewer.len() && fewer[i] == name;
                    assert(names[i] == name);
                } else {
                    assert(names[names.len() - 1] == name);
                }
            }
        }
        assert forall|i: int| 0 < i < now.len() implies #[trigger] now[i] != now[i - 1] by {
            if i < before.len() {
                assert(now[i] == before[i]);
                assert(now[i - 1] == before[i - 1]);
            } else {
                assert(fewer.last() == names[names.len() - 2]);
            }
        }
    }
}

/// What the list is filtered by, from what stands in the search field.
pub fn font_filter(entry: &str) -> (filter: String)
    ensures
        filter@ == lowercase(entry@),
{
    to_lowercase(entry)
}

/// The filter lets a font through.
pub open spec fn passes_filter(name: Seq<char>, filter: Seq<char>) -> bool {
    filter.len() == 0 || has_part(lowercase(name), filter)
}

/// Whether the filter lets a font through: no filter lets all through, any other
/// those whose name holds it, letter case aside.
pub fn font_matches_filter(name: &str, filter: &str) -> (r: bool)
    ensures
        r == passes_filter(name@, filter@),
        r == (filter@.len() == 0 || has_part(lowercase(name@), filter@)),
{
    filter.is_empty() || contains(to_lowercase(name).as_str(), filter)
}

/// A row of the font list that begins with what was typed, letter case aside. A
/// row that is hidden or has no name is never one.
pub open spec fn row_matches(row: Option<String>, typed: Seq<char>) -> bool {
    row is Some && typed.is_prefix_of(lowercase(row->0@))
}

/// The first row that begins with what was typed.
pub open spec fn first_match(rows: Seq<Option<String>>, typed: Seq<char>, at: Option<usize>) -> bool {
    match at {
        Some(i) => {
            &&& i < rows.len()
            &&& row_matches(rows[i as int], typed)
            &&& forall|j: int| 0 <= j < i ==> !row_matches(#[trigger] rows[j], typed)
        },
        None => forall|j: int| 0 <= j < rows.len() ==> !row_matches(#[trigger] rows[j], typed),
    }
}

/// A key press is taken as text: it stands for a character that is no control, and
/// comes without Control or Alt.
pub open spec fn taken_as_text(modified: bool, ch: Option<char>) -> bool {
    !modified && ch is Some && !control_code(ch->0 as int)
}

/// What was typed, with one more character.
pub open spec fn typed_with(typed: Seq<char>, ch: char) -> Seq<char> {
    typed + char_lowercase(ch)
}

/// What a key press in the font list leads to.
#[derive(Debug, Clone, Copy, PartialEq, Eq)]
pub enum KeyOutcome {
    /// The key is none of the list's business.
    Proceed,
    /// The key was taken as text to find. The pending reset is to be cancelled
    /// first if there is one, and a new one is to be started; the row, if there
    /// is one, is to be selected.
    Find { cancel_reset: bool, row: Option<usize> },
}

/// Finding a font by typing while the list has the focus: what is typed adds up
/// until a pause, or until another row is selected in some other way.
pub struct TypeAhead {
    /// What was typed, in lowercase.
    pub buffer: String,
    /// Whether a reset after a pause is under way.
    pub reset_pending: bool,
    /// Whether the selection is just being changed by what was typed.
    pub selecting: bool,
}

/// Finding a font by typing, seen through what was typed.
#[verifier::ext_equal]
pub struct Typing {
    pub typed: Seq<char>,
    pub reset_pending: bool,
    pub selecting: bool,
}

impl View for TypeAhead {
    type V = Typing;

    open spec fn view(&self) -> Typing {
        Typing {
            typed: self.buffer@,
            reset_pending: self.reset_pending,
            selecting: self.selecting,
        }
    }
}

/// Nothing is typed, and no reset is under way.
pub open spec fn forgotten(t: Typing) -> Typing {
    Typing { typed: Seq::empty(), reset_pending: false, ..t }
}

/// After a row was selected: forgotten, unless that comes from what was typed.
pub open spec fn after_selection(t: Typing) -> Typing {
    if t.selecting {
        t
    } else {
        forgotten(t)
    }
}

/// After a key press, by which a row was found or none.
pub open spec fn after_key(t: Typing, modified: bool, ch: Option<char>, found: bool) -> Typing {
    if taken_as_text(modified, ch) {
        Typing {
            typed: typed_with(t.typed, ch->0),
            reset_pending: true,
            selecting: t.selecting || found,
        }
    } else {
        t
    }
}

impl TypeAhead {
    /// Nothing typed yet.
    pub fn new() -> (r: Self)
        ensures
            r@ == (Typing { typed: Seq::empty(), reset_pending: false, selecting: false }),
            r.buffer@ == Seq::<char>::empty(),
            !r.reset_pending,
            !r.selecting,
    {
        TypeAhead { buffer: String::new(), reset_pending: false, selecting: false }
    }

    /// A row was selected. Unless that comes from what was typed, what was typed
    /// is forgotten; the result tells whether a pending reset is to be cancelled.
    pub fn row_selected(&mut self) -> (cancel_reset: bool)
        ensures
            final(self)@ == after_selection(old(self)@),
            old(self).selecting ==> *final(self) == *old(self) && !cancel_reset,
            !old(self).selecting ==> {
                &&& final(self).buffer@ == Seq::<char>::empty()
                &&& !final(self).reset_pending
                &&& !final(self).selecting
                &&& cancel_reset == old(self).reset_pending
            },
    {
        if self.selecting {
            return false;
        }
        let cancel_reset = self.reset_pending;
        self.reset_pending = false;
        self.buffer = String::new();
        cancel_reset
    }

    /// The pause is over: what was typed is forgotten.
    pub fn reset(&mut self)
        ensures
            final(self)@ == forgotten(old(self)@),
            final(self).buffer@ == Seq::<char>::empty(),
            !final(self).reset_pending,
            final(self).selecting == old(self).selecting,
    {
        self.buffer = String::new();
        self.reset_pending = false;
    }

    /// The row that was found has been selected.
    pub fn selection_done(&mut self)
        ensures
            final(self)@ == (Typing { selecting: false, ..old(self)@ }),
            final(self).buffer == old(self).buffer,
            final(self).reset_pending == old(self).reset_pending,
            !final(self).selecting,
    {
        self.selecting = false;
    }

    /// A key was pressed: `modified` together with Control or Alt, `ch` the
    /// character it stands for. `rows` are the names of the rows, none for one
    /// that is hidden or has no name. A character that is no control is added to
    /// what was typed, and the first row that begins with that is looked for.
    pub fn key_pressed(&mut self, modified: bool, ch: Option<char>, rows: &[Option<String>]) -> (
        outcome: KeyOutcome)
        ensures
            outcome is Find <==> taken_as_text(modified, ch),
            final(self)@ == after_key(
                old(self)@,
                modified,
                ch,
                outcome is Find && outcome->row is Some,
            ),
            taken_as_text(modified, ch) ==> final(self).buffer@ == typed_with(
                old(self).buffer@,
                ch->0,
            ),
            modified || ch is None || control_code(ch->0 as int) ==> outcome is Proceed
                && *final(self) == *old(self),
            !modified && ch is Some && !control_code(ch->0 as int) ==> {
                &&& final(self).buffer@ == old(self).buffer@ + char_lowercase(ch->0)
                &&& final(self).reset_pending
                &&& outcome is Find
                &&& outcome->cancel_reset == old(self).reset_pending
                &&& first_match(rows@, final(self).buffer@, outcome->row)
                &&& final(self).selecting == (old(self).selecting || outcome->row is Some)
            },
    {
        if modified {
            return KeyOutcome::Proceed;
        }
        let typed: char = match ch {
            Some(typed) => typed,
            None => {
                return KeyOutcome::Proceed;
            },
        };
        if is_control(typed) {
            return KeyOutcome::Proceed;
        }
        let cancel_reset = self.reset_pending;
        self.reset_pending = true;
        self.buffer.append(char_to_lowercase(typed).as_str());
        let row: Option<usize> = find_row(rows, self.buffer.as_str());
        if row.is_some() {
            self.selecting = true;
        }
        KeyOutcome::Find { cancel_reset, row }
    }
}

/// Whether a character is a control.
fn is_control(ch: char) -> (r: bool)
    ensures
        r == control_code(ch as int),
{
    ch <= '\u{1f}' || ('\u{7f}' <= ch && ch <= '\u{9f}')
}

/// The first row that begins with what was typed, letter case aside.
pub fn find_row(rows: &[Option<String>], typed: &str) -> (at: Option<usize>)
    ensures
        first_match(rows@, typed@, at),
{
    let mut i: usize = 0;
    while i < rows.len()
        invariant
            i <= rows@.len(),
            forall|j: int| 0 <= j < i ==> !row_matches(#[trigger] rows@[j], typed@),
        decreases rows@.len() - i,
    {
        if let Some(name) = &rows[i] {
            if starts_with(to_lowercase(name.as_str()).as_str(), typed) {
                return Some(i);
            }
        }
        i += 1;
    }
    None
}

}
