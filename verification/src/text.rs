//! Text helpers shared by the messages and resource names of this crate.
use vstd::prelude::*;
use vstd::string::*;

verus! {

/// `String::push` appends one character to the end of the string.
pub assume_specification[ String::push ](s: &mut String, c: char)
    ensures
        final(s)@ == old(s)@.push(c),
;

/// The character for one decimal digit.
pub open spec fn digit(d: nat) -> char
    recommends
        d < 10,
{
    (48 + d) as char
}

/// The decimal digits of `n`, most significant first, without leading zeros.
pub open spec fn decimal(n: nat) -> Seq<char>
    decreases n,
{
    if n < 10 {
        seq![digit(n)]
    } else {
        decimal(n / 10).push(digit(n % 10))
    }
}

/// The decimal digits of `i`, with a leading minus sign where `i` is negative.
pub open spec fn signed_decimal(i: int) -> Seq<char> {
    if i < 0 {
        seq!['-'] + decimal((-i) as nat)
    } else {
        decimal(i as nat)
    }
}

fn digit_char(d: u8) -> (c: char)
    requires
        d < 10,
    ensures
        c == digit(d as nat),
{
    (48u8 + d) as char
}

/// Writes `n` in decimal.
pub fn decimal_text(n: u64) -> (text: String)
    ensures
        text@ == decimal(n as nat),
    decreases n,
{
    let mut text = if n < 10 {
        String::new()
    } else {
        decimal_text(n / 10)
    };
    text.push(digit_char((n % 10) as u8));
    assert(text@ =~= decimal(n as nat));
    text
}

/// Writes `i` in decimal, with a minus sign where it is negative.
pub fn signed_decimal_text(i: i64) -> (text: String)
    ensures
        text@ == signed_decimal(i as int),
{
    if i >= 0 {
        return decimal_text(i as u64);
    }
    let magnitude: u64 = (-(i as i128)) as u64;
    let mut text = String::new();
    text.push('-');
    text.append(decimal_text(magnitude).as_str());
    assert(text@ =~= signed_decimal(i as int));
    text
}

/// Reports whether two texts hold the same characters.
pub fn same_text(a: &str, b: &str) -> (same: bool)
    ensures
        same == (a@ == b@),
{
    a.to_owned() == b.to_owned()
}

/// The characters of `s`, one element each.
pub fn chars_of(s: &str) -> (chars: Vec<char>)
    ensures
        chars@ == s@,
{
    broadcast use axiom_spec_iter;

    let mut chars: Vec<char> = Vec::new();
    for c in it: s.chars()
        invariant
            chars@ == it.seq().take(it.index() as int),
            it.seq() == s@,
    {
        chars.push(c);
        assert(it.seq().take(it.index() + 1) =~= it.seq().take(it.index() as int).push(c));
    }
    assert(chars@ =~= s@);
    chars
}

/// The text that the characters from `from` up to `to` spell.
pub fn text_of(chars: &Vec<char>, from: usize, to: usize) -> (text: String)
    requires
        from <= to <= chars@.len(),
    ensures
        text@ == chars@.subrange(from as int, to as int),
{
    let mut text = String::new();
    let mut i: usize = from;
    while i < to
        invariant
            from <= i <= to <= chars@.len(),
            text@ == chars@.subrange(from as int, i as int),
        decreases to - i,
    {
        text.push(chars[i]);
        assert(chars@.subrange(from as int, i + 1) =~= chars@.subrange(
            from as int,
            i as int,
        ).push(chars@[i as int]));
        i = i + 1;
    }
    text
}

/// A character that counts as white space.
pub open spec fn is_white_space(c: char) -> bool {
    ||| '\u{9}' <= c <= '\u{d}'
    ||| c == ' '
    ||| c == '\u{85}'
    ||| c == '\u{a0}'
    ||| c == '\u{1680}'
    ||| '\u{2000}' <= c <= '\u{200a}'
    ||| c == '\u{2028}'
    ||| c == '\u{2029}'
    ||| c == '\u{202f}'
    ||| c == '\u{205f}'
    ||| c == '\u{3000}'
}

/// Reports whether a character counts as white space.
fn is_blank(c: char) -> (blank: bool)
    ensures
        blank == is_white_space(c),
{
    ('\u{9}' <= c && c <= '\u{d}') || c == ' ' || c == '\u{85}' || c == '\u{a0}' || c == '\u{1680}'
        || ('\u{2000}' <= c && c <= '\u{200a}') || c == '\u{2028}' || c == '\u{2029}' || c
        == '\u{202f}' || c == '\u{205f}' || c == '\u{3000}'
}

/// `text` without the white space in front.
pub open spec fn without_leading(text: Seq<char>) -> Seq<char>
    decreases text.len(),
{
    if text.len() > 0 && is_white_space(text[0]) {
        without_leading(text.drop_first())
    } else {
        text
    }
}

/// `text` without the white space at the end.
pub open spec fn without_trailing(text: Seq<char>) -> Seq<char>
    decreases text.len(),
{
    if text.len() > 0 && is_white_space(text.last()) {
        without_trailing(text.drop_last())
    } else {
        text
    }
}

/// `text` without the white space in front and at the end.
pub open spec fn trimmed(text: Seq<char>) -> Seq<char> {
    without_trailing(without_leading(text))
}

/// The text without the white space in front and at the end.
pub fn trim(text: &str) -> (rest: String)
    ensures
        rest@ == trimmed(text@),
{
    let chars = chars_of(text);
    let mut from: usize = 0;
    assert(chars@.skip(0) =~= chars@);
    while from < chars.len() && is_blank(chars[from])
        invariant
            from <= chars@.len(),
            without_leading(chars@) == without_leading(chars@.skip(from as int)),
        decreases chars@.len() - from,
    {
        assert(chars@.skip(from as int).drop_first() =~= chars@.skip(from + 1));
        from = from + 1;
    }
    let ghost rest = chars@.skip(from as int);
    let mut to: usize = chars.len();
    assert(chars@.subrange(from as int, to as int) =~= rest);
    while to > from && is_blank(chars[to - 1])
        invariant
            from <= to <= chars@.len(),
            without_trailing(rest) == without_trailing(chars@.subrange(from as int, to as int)),
        decreases to,
    {
        assert(chars@.subrange(from as int, to as int).drop_last() =~= chars@.subrange(
            from as int,
            to - 1,
        ));
        to = to - 1;
    }
    text_of(&chars, from, to)
}

/// `pattern` stands in `text` at position `at`.
pub open spec fn occurs_at(text: Seq<char>, pattern: Seq<char>, at: int) -> bool {
    &&& 0 <= at
    &&& at + pattern.len() <= text.len()
    &&& text.subrange(at, at + pattern.len()) == pattern
}

/// `text` begins with `prefix`.
pub open spec fn has_prefix(text: Seq<char>, prefix: Seq<char>) -> bool {
    occurs_at(text, prefix, 0)
}

/// `pattern` stands somewhere in `text`.
pub open spec fn has_substring(text: Seq<char>, pattern: Seq<char>) -> bool {
    exists|at: int| occurs_at(text, pattern, at)
}

fn occurs(text: &Vec<char>, pattern: &Vec<char>, at: usize) -> (found: bool)
    requires
        at <= text@.len(),
    ensures
        found == occurs_at(text@, pattern@, at as int),
{
    if pattern.len() > text.len() - at {
        return false;
    }
    let mut i: usize = 0;
    while i < pattern.len()
        invariant
            at + pattern@.len() <= text@.len() <= usize::MAX,
            i <= pattern@.len(),
            forall|j: int| 0 <= j < i ==> text@[at + j] == pattern@[j],
        decreases pattern.len() - i,
    {
        if text[at + i] != pattern[i] {
            assert(text@.subrange(at as int, at + pattern@.len())[i as int] != pattern@[i as int]);
            return false;
        }
        i = i + 1;
    }
    assert(text@.subrange(at as int, at + pattern@.len()) =~= pattern@);
    true
}

/// Reports whether `text` begins with `prefix`.
pub fn starts_with(text: &str, prefix: &str) -> (found: bool)
    ensures
        found == has_prefix(text@, prefix@),
{
    occurs(&chars_of(text), &chars_of(prefix), 0)
}

/// Reports whether `pattern` stands somewhere in `text`.
pub fn contains(text: &str, pattern: &str) -> (found: bool)
    ensures
        found == has_substring(text@, pattern@),
{
    let text_chars = chars_of(text);
    let pattern_chars = chars_of(pattern);
    let mut at: usize = 0;
    while at < text_chars.len()
        invariant
            text_chars@ == text@,
            pattern_chars@ == pattern@,
            at <= text@.len(),
            forall|k: int| 0 <= k < at ==> !occurs_at(text@, pattern@, k),
        decreases text@.len() - at,
    {
        if occurs(&text_chars, &pattern_chars, at) {
            return true;
        }
        at = at + 1;
    }
    let at_end = occurs(&text_chars, &pattern_chars, at);
    assert(forall|k: int| k > text@.len() ==> !occurs_at(text@, pattern@, k));
    at_end
}

/// `left` comes before `right` when the first character in which they differ
/// does, or when `left` is a proper prefix of `right`.
pub open spec fn text_before(left: Seq<char>, right: Seq<char>) -> bool
    decreases left.len(),
{
    if right.len() == 0 {
        false
    } else if left.len() == 0 {
        true
    } else if left[0] != right[0] {
        (left[0] as int) < right[0] as int
    } else {
        text_before(left.drop_first(), right.drop_first())
    }
}

/// Reports whether `left` comes before `right` in the order of their characters.
pub fn is_before(left: &str, right: &str) -> (before: bool)
    ensures
        before == text_before(left@, right@),
{
    let l = chars_of(left);
    let r = chars_of(right);
    let mut i: usize = 0;
    assert(l@.skip(0) =~= l@);
    assert(r@.skip(0) =~= r@);
    while i < l.len() && i < r.len()
        invariant
            l@ == left@,
            r@ == right@,
            i <= l@.len(),
            i <= r@.len(),
            text_before(left@, right@) == text_before(l@.skip(i as int), r@.skip(i as int)),
        decreases l@.len() - i,
    {
        if l[i] != r[i] {
            return l[i] < r[i];
        }
        assert(l@.skip(i as int).drop_first() =~= l@.skip(i + 1));
        assert(r@.skip(i as int).drop_first() =~= r@.skip(i + 1));
        i = i + 1;
    }
    i < r.len()
}

/// No text comes before itself, and of two that differ exactly one comes first.
pub proof fn text_order_is_total(a: Seq<char>, b: Seq<char>)
    ensures
        !text_before(a, a),
        a != b ==> text_before(a, b) != text_before(b, a),
    decreases a.len(),
{
    if a.len() > 0 {
        text_order_is_total(a.drop_first(), a.drop_first());
    }
    if a.len() > 0 && b.len() > 0 {
        if a[0] == b[0] {
            text_order_is_total(a.drop_first(), b.drop_first());
            if a != b {
                assert(a =~= seq![a[0]] + a.drop_first());
                assert(b =~= seq![b[0]] + b.drop_first());
            }
        }
    } else if a.len() == 0 && b.len() == 0 {
        assert(a =~= b);
    }
}

/// The order of texts is transitive.
pub proof fn text_order_is_transitive(a: Seq<char>, b: Seq<char>, c: Seq<char>)
    requires
        text_before(a, b),
        text_before(b, c),
    ensures
        text_before(a, c),
    decreases a.len(),
{
    if a.len() > 0 && b.len() > 0 && c.len() > 0 && a[0] == b[0] && b[0] == c[0] {
        text_order_is_transitive(a.drop_first(), b.drop_first(), c.drop_first());
    }
}

/// How a list of texts reads in messages: quoted, in square brackets.
pub uninterp spec fn list_text(items: Seq<Seq<char>>) -> Seq<char>;

/// The `Debug` form of a `Vec<String>`, which depends on the texts alone. How it
/// quotes them is left unsaid.
#[verifier::external_body]
pub(crate) fn debug_list(items: &Vec<String>) -> (text: String)
    ensures
        text@ == list_text(items.deep_view()),
{
    format!("{:?}", items)
}

/// The number that decimal digits spell.
pub open spec fn spelled(digits: Seq<char>) -> int
    decreases digits.len(),
{
    if digits.len() == 0 {
        0
    } else {
        spelled(digits.drop_last()) * 10 + (digits.last() as int - '0' as int)
    }
}

/// The digits of a number spell it, are digits, and have no zero in front but for the
/// number zero itself.
pub proof fn digits_spell_the_number(n: nat)
    ensures
        spelled(decimal(n)) == n,
        decimal(n).len() > 0,
        forall|i: int| 0 <= i < decimal(n).len() ==> '0' <= (#[trigger] decimal(n)[i])
            && decimal(n)[i] <= '9',
        n > 0 ==> decimal(n)[0] != '0',
        n == 0 ==> decimal(n) == seq!['0'],
    decreases n,
{
    if n >= 10 {
        digits_spell_the_number(n / 10);
        let front = decimal(n / 10);
        assert(decimal(n).drop_last() =~= front);
        assert forall|i: int| 0 <= i < decimal(n).len() implies '0' <= (
        #[trigger] decimal(n)[i]) && decimal(n)[i] <= '9' by {
            if i < front.len() {
                assert(decimal(n)[i] == front[i]);
            }
        }
    } else {
        assert(decimal(n).drop_last() =~= Seq::empty());
        assert(spelled(Seq::empty()) == 0);
    }
}

/// A number below zero is written with a minus sign in front of its magnitude, any other
/// as its digits.
pub proof fn minus_signs_stand_in_front(i: int)
    ensures
        i >= 0 ==> spelled(signed_decimal(i)) == i && signed_decimal(i)[0] != '-',
        i < 0 ==> signed_decimal(i)[0] == '-' && spelled(signed_decimal(i).drop_first()) == -i,
{
    if i >= 0 {
        digits_spell_the_number(i as nat);
    } else {
        digits_spell_the_number((-i) as nat);
        assert(signed_decimal(i).drop_first() =~= decimal((-i) as nat));
    }
}

/// A text starts with another exactly where that one is a prefix of it.
pub proof fn prefixes_stand_in_front(text: Seq<char>, prefix: Seq<char>)
    ensures
        has_prefix(text, prefix) <==> prefix.is_prefix_of(text),
{
    if prefix.is_prefix_of(text) {
        assert(text.subrange(0, prefix.len() as int) =~= prefix);
    }
}

/// A pattern stands in a text exactly where the text is the pattern with something in
/// front of it and something behind it.
pub proof fn substrings_split_the_text(text: Seq<char>, pattern: Seq<char>)
    ensures
        has_substring(text, pattern) <==> exists|front: Seq<char>, back: Seq<char>|
            text == #[trigger] (front + pattern + back),
{
    if has_substring(text, pattern) {
        let at = choose|at: int| occurs_at(text, pattern, at);
        let front = text.take(at);
        let back = text.skip((at + pattern.len()) as int);
        assert(text =~= front + pattern + back);
    }
    if exists|front: Seq<char>, back: Seq<char>| text == #[trigger] (front + pattern + back) {
        let (front, back) = choose|front: Seq<char>, back: Seq<char>|
            text == #[trigger] (front + pattern + back);
        let at = front.len() as int;
        assert(text.subrange(at, at + pattern.len()) =~= pattern);
        assert(occurs_at(text, pattern, at));
    }
}

proof fn leading_white_space_goes(text: Seq<char>) -> (n: int)
    ensures
        0 <= n <= text.len(),
        without_leading(text) == text.skip(n),
        forall|i: int| 0 <= i < n ==> is_white_space(#[trigger] text[i]),
        n < text.len() ==> !is_white_space(text[n]),
    decreases text.len(),
{
    if text.len() > 0 && is_white_space(text[0]) {
        let rest = text.drop_first();
        let m = leading_white_space_goes(rest);
        assert(rest.skip(m) =~= text.skip(m + 1));
        assert forall|i: int| 0 <= i < m + 1 implies is_white_space(#[trigger] text[i]) by {
            if i > 0 {
                assert(rest[i - 1] == text[i]);
            }
        }
        if m < rest.len() {
            assert(rest[m] == text[m + 1]);
        }
        m + 1
    } else {
        assert(text.skip(0) =~= text);
        0
    }
}

proof fn trailing_white_space_goes(text: Seq<char>) -> (n: int)
    ensures
        0 <= n <= text.len(),
        without_trailing(text) == text.take(n),
        forall|i: int| n <= i < text.len() ==> is_white_space(#[trigger] text[i]),
        n > 0 ==> !is_white_space(text[n - 1]),
    decreases text.len(),
{
    if text.len() > 0 && is_white_space(text.last()) {
        let rest = text.drop_last();
        let m = trailing_white_space_goes(rest);
        assert(rest.take(m) =~= text.take(m));
        assert forall|i: int| m <= i < text.len() implies is_white_space(#[trigger] text[i]) by {
            if i < rest.len() {
                assert(rest[i] == text[i]);
            }
        }
        if m > 0 {
            assert(rest[m - 1] == text[m - 1]);
        }
        m
    } else {
        assert(text.take(text.len() as int) =~= text);
        text.len() as int
    }
}

/// Trimming takes white space off both ends and nothing else: what is left is a part of
/// the text with only white space round it, and neither starts nor ends with any.
pub proof fn trimming_takes_white_space_off_the_ends(text: Seq<char>) -> (ends: (int, int))
    ensures
        0 <= ends.0 <= ends.1 <= text.len(),
        trimmed(text) == text.subrange(ends.0, ends.1),
        forall|i: int|
            0 <= i < ends.0 || ends.1 <= i < text.len() ==> is_white_space(#[trigger] text[i]),
        trimmed(text).len() > 0 ==> !is_white_space(trimmed(text)[0]) && !is_white_space(
            trimmed(text).last(),
        ),
        is_white_space(' '),
        is_white_space('\n'),
        is_white_space('\t'),
        is_white_space('\r'),
        !is_white_space('a'),
{
    let from = leading_white_space_goes(text);
    let rest = text.skip(from);
    let n = trailing_white_space_goes(rest);
    assert(rest.take(n) =~= text.subrange(from, from + n));
    assert forall|i: int|
        0 <= i < from || from + n <= i < text.len() implies is_white_space(#[trigger] text[i]) by {
        if i >= from + n {
            assert(rest[i - from] == text[i]);
        }
    }
    if n > 0 {
        assert(rest[0] == text[from]);
        assert(trimmed(text)[0] == text[from]);
        assert(trimmed(text).last() == rest[n - 1]);
    }
    (from, from + n)
}

/// Texts are ordered by the first character in which they differ, and a text comes
/// before any that it is a proper prefix of.
pub proof fn the_first_difference_decides(a: Seq<char>, b: Seq<char>, n: int)
    requires
        0 <= n <= a.len(),
        n <= b.len(),
        forall|i: int| 0 <= i < n ==> a[i] == b[i],
    ensures
        n < a.len() && n < b.len() && a[n] != b[n] ==> (text_before(a, b) <==> (a[n] as int)
            < b[n] as int),
        n == a.len() && n < b.len() ==> text_before(a, b),
        n == b.len() ==> !text_before(a, b),
    decreases n,
{
    if n > 0 {
        assert(a[0] == b[0]);
        let x = a.drop_first();
        let y = b.drop_first();
        assert forall|i: int| 0 <= i < n - 1 implies x[i] == y[i] by {
            assert(a[i + 1] == b[i + 1]);
        }
        the_first_difference_decides(x, y, n - 1);
    }
}

} // verus!
