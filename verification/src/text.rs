//! Text searches on the characters of a string.
//!
//! A string is its sequence of characters here, and a position is an index into
//! that sequence. The functions cover what URL handling asks for: prefixes,
//! suffixes, the first and the last place of a pattern, and replacement.
use vstd::prelude::*;
use vstd::string::*;

verus! {

/// `needle` stands in `hay` at position `at`.
pub open spec fn occurs_at(hay: Seq<char>, needle: Seq<char>, at: int) -> bool {
    &&& 0 <= at
    &&& at + needle.len() <= hay.len()
    &&& hay.subrange(at, at + needle.len()) == needle
}

/// `needle` stands somewhere in `hay`.
pub open spec fn occurs(hay: Seq<char>, needle: Seq<char>) -> bool {
    exists|at: int| occurs_at(hay, needle, at)
}

/// `text` begins with `prefix`.
pub open spec fn begins_with(text: Seq<char>, prefix: Seq<char>) -> bool {
    occurs_at(text, prefix, 0)
}

/// `text` ends in `suffix`.
pub open spec fn finishes_with(text: Seq<char>, suffix: Seq<char>) -> bool {
    occurs_at(text, suffix, text.len() - suffix.len())
}

/// `at` is the first place at or after `from` where `needle` stands in `hay`.
pub open spec fn first_from(hay: Seq<char>, needle: Seq<char>, from: int, at: int) -> bool {
    &&& from <= at
    &&& occurs_at(hay, needle, at)
    &&& forall|j: int| from <= j < at ==> !occurs_at(hay, needle, j)
}

/// `at` is the first place of the character `c` in `text`.
pub open spec fn first_char(text: Seq<char>, c: char, at: int) -> bool {
    &&& 0 <= at < text.len()
    &&& text[at] == c
    &&& forall|j: int| 0 <= j < at ==> text[j] != c
}

/// `at` is the last place of the character `c` in `text`.
pub open spec fn last_char(text: Seq<char>, c: char, at: int) -> bool {
    &&& 0 <= at < text.len()
    &&& text[at] == c
    &&& forall|j: int| at < j < text.len() ==> text[j] != c
}

/// `text` with the first occurrence of `from` exchanged for `to`.
pub open spec fn replaced_once(text: Seq<char>, from: Seq<char>, to: Seq<char>) -> Seq<char>
    decreases text.len(),
{
    if occurs_at(text, from, 0) {
        to + text.skip(from.len() as int)
    } else if text.len() == 0 {
        text
    } else {
        seq![text[0]] + replaced_once(text.skip(1), from, to)
    }
}

/// `text` without the occurrences of `gone`, which are taken from the left and
/// do not overlap. An empty `gone` leaves the text as it is.
pub open spec fn without(text: Seq<char>, gone: Seq<char>) -> Seq<char>
    decreases text.len(),
{
    if gone.len() == 0 || text.len() == 0 {
        text
    } else if occurs_at(text, gone, 0) {
        without(text.skip(gone.len() as int), gone)
    } else {
        seq![text[0]] + without(text.skip(1), gone)
    }
}

/// The characters of a string.
pub fn chars_of(text: &str) -> (chars: Vec<char>)
    ensures
        chars@ == text@,
{
    let mut chars: Vec<char> = Vec::new();
    for c in it: text.chars()
        invariant
            it.seq() == text@,
            chars@ == text@.take(it.index() as int),
    {
        chars.push(c);
    }
    chars
}

/// Do the two strings hold the same characters?
pub fn same_text(a: &str, b: &str) -> (same: bool)
    ensures
        same == (a@ == b@),
{
    a.to_owned() == b.to_owned()
}

/// Does `needle` stand in `hay` at `at`?
pub fn stands_at(hay: &Vec<char>, needle: &Vec<char>, at: usize) -> (found: bool)
    ensures
        found == occurs_at(hay@, needle@, at as int),
{
    if at > hay.len() || needle.len() > hay.len() - at {
        return false;
    }
    let mut i: usize = 0;
    while i < needle.len()
        invariant
            at + needle.len() <= hay.len(),
            i <= needle.len(),
            forall|j: int| 0 <= j < i ==> hay@[at + j] == needle@[j],
        decreases needle.len() - i,
    {
        if hay[at + i] != needle[i] {
            assert(hay@.subrange(at as int, at + needle.len())[i as int] != needle@[i as int]);
            return false;
        }
        i = i + 1;
    }
    assert(hay@.subrange(at as int, at + needle.len()) =~= needle@);
    true
}

/// The first place at or after `from` where `needle` stands in `hay`.
pub fn find_from(hay: &Vec<char>, needle: &Vec<char>, from: usize) -> (found: Option<usize>)
    ensures
        match found {
            Some(at) => first_from(hay@, needle@, from as int, at as int),
            None => forall|j: int| from <= j ==> !occurs_at(hay@, needle@, j),
        },
{
    let mut at: usize = from;
    while at <= hay.len()
        invariant
            from <= at,
            from <= hay.len() ==> at <= hay.len() + 1,
            from > hay.len() ==> at == from,
            hay.len() < usize::MAX || at <= hay.len(),
            forall|j: int| from <= j < at ==> !occurs_at(hay@, needle@, j),
        decreases hay.len() + 1 - at,
    {
        if stands_at(hay, needle, at) {
            return Some(at);
        }
        if at == hay.len() {
            return None;
        }
        at = at + 1;
    }
    None
}

/// Does `text` begin with `prefix`?
pub fn starts_with(text: &str, prefix: &str) -> (yes: bool)
    ensures
        yes == begins_with(text@, prefix@),
{
    stands_at(&chars_of(text), &chars_of(prefix), 0)
}

/// Does `text` end in `suffix`?
pub fn ends_with(text: &str, suffix: &str) -> (yes: bool)
    ensures
        yes == finishes_with(text@, suffix@),
{
    let hay = chars_of(text);
    let needle = chars_of(suffix);
    if needle.len() > hay.len() {
        return false;
    }
    stands_at(&hay, &needle, hay.len() - needle.len())
}

/// The first place of `c`.
pub fn find_char(text: &Vec<char>, c: char) -> (found: Option<usize>)
    ensures
        match found {
            Some(at) => first_char(text@, c, at as int),
            None => !text@.contains(c),
        },
{
    let mut i: usize = 0;
    while i < text.len()
        invariant
            i <= text.len(),
            forall|j: int| 0 <= j < i ==> text@[j] != c,
        decreases text.len() - i,
    {
        if text[i] == c {
            return Some(i);
        }
        i = i + 1;
    }
    None
}

/// The last place of `c`.
pub fn rfind_char(text: &Vec<char>, c: char) -> (found: Option<usize>)
    ensures
        match found {
            Some(at) => last_char(text@, c, at as int),
            None => !text@.contains(c),
        },
{
    let mut i: usize = text.len();
    while i > 0
        invariant
            i <= text.len(),
            forall|j: int| i <= j < text.len() ==> text@[j] != c,
        decreases i,
    {
        if text[i - 1] == c {
            return Some((i - 1) as usize);
        }
        i = i - 1;
    }
    None
}

/// The text from position `from` on.
pub fn tail_from<'a>(text: &'a str, from: usize) -> (rest: &'a str)
    requires
        from <= text@.len(),
    ensures
        rest@ == text@.skip(from as int),
{
    let len = text.unicode_len();
    text.substring_char(from, len)
}

/// The text before position `to`.
pub fn head_to<'a>(text: &'a str, to: usize) -> (head: &'a str)
    requires
        to <= text@.len(),
    ensures
        head@ == text@.take(to as int),
{
    text.substring_char(0, to)
}

proof fn lemma_replaced_once_at(text: Seq<char>, from: Seq<char>, to: Seq<char>, at: int)
    requires
        first_from(text, from, 0, at),
    ensures
        replaced_once(text, from, to) == text.take(at) + to + text.skip(at + from.len()),
    decreases at,
{
    if at == 0 {
        assert(text.take(0) + to + text.skip(from.len() as int) =~= to + text.skip(
            from.len() as int,
        ));
    } else {
        let rest = text.skip(1);
        assert(rest.subrange(at - 1, at - 1 + from.len()) =~= text.subrange(
            at,
            at + from.len(),
        ));
        assert forall|j: int| 0 <= j < at - 1 implies !occurs_at(rest, from, j) by {
            if occurs_at(rest, from, j) {
                assert(text.subrange(j + 1, j + 1 + from.len()) =~= rest.subrange(
                    j,
                    j + from.len(),
                ));
                assert(occurs_at(text, from, j + 1));
            }
        }
        lemma_replaced_once_at(rest, from, to, at - 1);
        assert(!occurs_at(text, from, 0));
        assert(seq![text[0]] + (rest.take(at - 1) + to + rest.skip(at - 1 + from.len()))
            =~= text.take(at) + to + text.skip(at + from.len()));
    }
}

proof fn lemma_replaced_once_none(text: Seq<char>, from: Seq<char>, to: Seq<char>)
    requires
        !occurs(text, from),
    ensures
        replaced_once(text, from, to) == text,
    decreases text.len(),
{
    assert(!occurs_at(text, from, 0));
    if text.len() > 0 {
        let rest = text.skip(1);
        assert forall|j: int| !occurs_at(rest, from, j) by {
            if occurs_at(rest, from, j) {
                assert(text.subrange(j + 1, j + 1 + from.len()) =~= rest.subrange(
                    j,
                    j + from.len(),
                ));
                assert(occurs_at(text, from, j + 1));
            }
        }
        lemma_replaced_once_none(rest, from, to);
        assert(seq![text[0]] + rest =~= text);
    }
}

/// The text with the first occurrence of `from` exchanged for `to`.
pub fn replace_once(text: &str, from: &str, to: &str) -> (out: String)
    ensures
        out@ == replaced_once(text@, from@, to@),
{
    let hay = chars_of(text);
    let needle = chars_of(from);
    match find_from(&hay, &needle, 0) {
        Some(at) => {
            proof {
                lemma_replaced_once_at(text@, from@, to@, at as int);
            }
            assert(at + needle.len() <= hay.len());
            let mut out = head_to(text, at).to_owned();
            out.append(to);
            out.append(tail_from(text, at + needle.len()));
            out
        },
        None => {
            proof {
                assert(!occurs(text@, from@)) by {
                    if occurs(text@, from@) {
                        let j = choose|j: int| occurs_at(text@, from@, j);
                        assert(0 <= j);
                    }
                }
                lemma_replaced_once_none(text@, from@, to@);
            }
            text.to_owned()
        },
    }
}

proof fn lemma_without_skips_clean(text: Seq<char>, gone: Seq<char>, n: int)
    requires
        gone.len() > 0,
        0 <= n <= text.len(),
        forall|j: int| 0 <= j < n ==> !occurs_at(text, gone, j),
    ensures
        without(text, gone) == text.take(n) + without(text.skip(n), gone),
    decreases n,
{
    if n == 0 {
        assert(text.skip(0) =~= text);
        assert(text.take(0) + without(text, gone) =~= without(text, gone));
    } else {
        let rest = text.skip(1);
        assert(!occurs_at(text, gone, 0));
        assert forall|j: int| 0 <= j < n - 1 implies !occurs_at(rest, gone, j) by {
            if occurs_at(rest, gone, j) {
                assert(text.subrange(j + 1, j + 1 + gone.len()) =~= rest.subrange(
                    j,
                    j + gone.len(),
                ));
                assert(occurs_at(text, gone, j + 1));
            }
        }
        lemma_without_skips_clean(rest, gone, n - 1);
        assert(rest.skip(n - 1) =~= text.skip(n));
        assert(seq![text[0]] + (rest.take(n - 1) + without(text.skip(n), gone)) =~= text.take(n)
            + without(text.skip(n), gone));
    }
}

/// The text without the occurrences of `gone`.
pub fn remove_all(text: &str, gone: &str) -> (out: String)
    ensures
        out@ == without(text@, gone@),
{
    let hay = chars_of(text);
    let needle = chars_of(gone);
    if needle.len() == 0 {
        return text.to_owned();
    }
    let mut out = String::new();
    let mut at: usize = 0;
    assert(text@.skip(0) =~= text@);
    assert(Seq::<char>::empty() + without(text@, gone@) =~= without(text@, gone@));
    while at < hay.len()
        invariant
            hay@ == text@,
            needle@ == gone@,
            needle.len() > 0,
            at <= hay.len(),
            without(text@, gone@) == out@ + without(text@.skip(at as int), gone@),
        decreases hay.len() - at,
    {
        let ghost rest = text@.skip(at as int);
        match find_from(&hay, &needle, at) {
            Some(next) => {
                out.append(text.substring_char(at, next));
                proof {
                    let n = next - at;
                    assert forall|j: int| 0 <= j < n implies !occurs_at(rest, gone@, j) by {
                        if occurs_at(rest, gone@, j) {
                            assert(text@.subrange(at + j, at + j + gone@.len()) =~= rest.subrange(
                                j,
                                j + gone@.len(),
                            ));
                            assert(occurs_at(text@, gone@, at + j));
                        }
                    }
                    lemma_without_skips_clean(rest, gone@, n);
                    let found = rest.skip(n);
                    assert(found =~= text@.skip(next as int));
                    assert(found.subrange(0, gone@.len() as int) =~= text@.subrange(
                        next as int,
                        next + gone@.len(),
                    ));
                    assert(occurs_at(found, gone@, 0));
                    assert(found.skip(gone@.len() as int) =~= text@.skip(next + gone@.len()));
                    assert(rest.take(n) =~= text@.subrange(at as int, next as int));
                    assert(out@ + without(text@.skip(next + gone@.len()), gone@) =~= without(
                        text@,
                        gone@,
                    ));
                }
                at = next + needle.len();
            },
            None => {
                out.append(tail_from(text, at));
                proof {
                    assert forall|j: int| 0 <= j < rest.len() implies !occurs_at(
                        rest,
                        gone@,
                        j,
                    ) by {
                        if occurs_at(rest, gone@, j) {
                            assert(text@.subrange(at + j, at + j + gone@.len()) =~= rest.subrange(
                                j,
                                j + gone@.len(),
                            ));
                            assert(occurs_at(text@, gone@, at + j));
                        }
                    }
                    lemma_without_skips_clean(rest, gone@, rest.len() as int);
                    assert(rest.skip(rest.len() as int) =~= Seq::<char>::empty());
                    assert(rest.take(rest.len() as int) =~= rest);
                    assert(text@.skip(hay.len() as int) =~= Seq::<char>::empty());
                    assert(out@ + Seq::<char>::empty() =~= without(text@, gone@));
                }
                at = hay.len();
            },
        }
    }
    assert(text@.skip(at as int) =~= Seq::<char>::empty());
    assert(out@ + Seq::<char>::empty() =~= out@);
    out
}

/// The white space of Unicode (the property `White_Space`).
pub open spec fn is_blank(c: char) -> bool {
    ||| '\u{9}' <= c <= '\u{d}'
    ||| c == ' '
    ||| c == '\u{85}'
    ||| c == '\u{a0}'
    ||| c == '\u{1680}'
    ||| '\u{2000}' <= c <= '\u{200a}'
    ||| c == '\u{2028}'
    ||| c == '\u{2029}'
    ||| c == '\u{202f}'
    ||| c == '\u{205f}'
    ||| c == '\u{3000}'
}

/// Is the character white space?
pub fn blank(c: char) -> (yes: bool)
    ensures
        yes == is_blank(c),
{
    ('\u{9}' <= c && c <= '\u{d}') || c == ' ' || c == '\u{85}' || c == '\u{a0}' || c == '\u{1680}'
        || ('\u{2000}' <= c && c <= '\u{200a}') || c == '\u{2028}' || c == '\u{2029}' || c
        == '\u{202f}' || c == '\u{205f}' || c == '\u{3000}'
}

/// `core` is `text` without the white space at both ends.
pub open spec fn trims_to(text: Seq<char>, core: Seq<char>) -> bool {
    exists|from: int, to: int|
        {
            &&& 0 <= from <= to <= text.len()
            &&& core == #[trigger] text.subrange(from, to)
            &&& forall|j: int| 0 <= j < from ==> is_blank(text[j])
            &&& forall|j: int| to <= j < text.len() ==> is_blank(text[j])
            &&& from < to ==> !is_blank(text[from]) && !is_blank(text[to - 1])
        }
}

/// A text has one core.
pub proof fn lemma_trims_once(text: Seq<char>, a: Seq<char>, b: Seq<char>)
    requires
        trims_to(text, a),
        trims_to(text, b),
    ensures
        a == b,
{
    let (from_a, to_a) = choose|from: int, to: int|
        {
            &&& 0 <= from <= to <= text.len()
            &&& a == #[trigger] text.subrange(from, to)
            &&& forall|j: int| 0 <= j < from ==> is_blank(text[j])
            &&& forall|j: int| to <= j < text.len() ==> is_blank(text[j])
            &&& from < to ==> !is_blank(text[from]) && !is_blank(text[to - 1])
        };
    let (from_b, to_b) = choose|from: int, to: int|
        {
            &&& 0 <= from <= to <= text.len()
            &&& b == #[trigger] text.subrange(from, to)
            &&& forall|j: int| 0 <= j < from ==> is_blank(text[j])
            &&& forall|j: int| to <= j < text.len() ==> is_blank(text[j])
            &&& from < to ==> !is_blank(text[from]) && !is_blank(text[to - 1])
        };
    if from_a == to_a || from_b == to_b {
        assert(from_a == to_a && from_b == to_b);
        assert(a =~= b);
    } else {
        assert(from_a == from_b && to_a == to_b);
    }
}

/// The text without the white space at both ends.
pub fn trim<'a>(text: &'a str) -> (core: &'a str)
    ensures
        trims_to(text@, core@),
{
    let chars = chars_of(text);
    let mut from: usize = 0;
    while from < chars.len() && blank(chars[from])
        invariant
            chars@ == text@,
            from <= chars.len(),
            forall|j: int| 0 <= j < from ==> is_blank(text@[j]),
        decreases chars.len() - from,
    {
        from = from + 1;
    }
    let mut to: usize = chars.len();
    while to > from && blank(chars[to - 1])
        invariant
            chars@ == text@,
            from <= to <= chars.len(),
            forall|j: int| to <= j < chars.len() ==> is_blank(text@[j]),
        decreases to - from,
    {
        to = to - 1;
    }
    let core = text.substring_char(from, to);
    assert(core@ == text@.subrange(from as int, to as int));
    core
}

/// A decimal digit.
pub open spec fn is_digit(c: char) -> bool {
    '0' <= c <= '9'
}

/// The value of a row of decimal digits.
pub open spec fn digits_value(digits: Seq<char>) -> nat
    decreases digits.len(),
{
    if digits.len() == 0 {
        0
    } else {
        digits_value(digits.drop_last()) * 10 + (digits.last() as nat - '0' as nat) as nat
    }
}

/// The digits of a decimal number: what follows an optional plus sign.
pub open spec fn digits_of(text: Seq<char>) -> Seq<char> {
    if text.len() > 0 && text[0] == '+' {
        text.skip(1)
    } else {
        text
    }
}

/// The text is a decimal number that 64 bits can hold: an optional plus sign and
/// at least one digit, and nothing else.
pub open spec fn is_u64_text(text: Seq<char>) -> bool {
    &&& digits_of(text).len() > 0
    &&& forall|i: int| 0 <= i < digits_of(text).len() ==> is_digit(#[trigger] digits_of(text)[i])
    &&& digits_value(digits_of(text)) <= u64::MAX
}

proof fn lemma_digits_value_grows(digits: Seq<char>, n: int)
    requires
        0 <= n <= digits.len(),
    ensures
        digits_value(digits.take(n)) <= digits_value(digits),
    decreases digits.len() - n,
{
    if n < digits.len() {
        lemma_digits_value_grows(digits, n + 1);
        assert(digits.take(n + 1).drop_last() =~= digits.take(n));
    } else {
        assert(digits.take(n) =~= digits);
    }
}

/// Reads a decimal number.
pub fn parse_u64(text: &str) -> (number: Option<u64>)
    ensures
        number is Some <==> is_u64_text(text@),
        number matches Some(n) ==> n == digits_value(digits_of(text@)),
{
    let chars = chars_of(text);
    let start: usize = if chars.len() > 0 && chars[0] == '+' {
        1
    } else {
        0
    };
    let ghost digits = digits_of(text@);
    assert(text@.skip(0) =~= text@);
    assert(digits =~= text@.skip(start as int));
    if chars.len() == start {
        return None;
    }
    let mut value: u64 = 0;
    let mut i: usize = start;
    while i < chars.len()
        invariant
            chars@ == text@,
            digits == digits_of(text@),
            digits == text@.skip(start as int),
            digits.len() > 0,
            start <= i <= chars.len(),
            forall|j: int| 0 <= j < i - start ==> is_digit(#[trigger] digits[j]),
            value == digits_value(digits.take(i - start)),
        decreases chars.len() - i,
    {
        let c = chars[i];
        let ghost n = i - start;
        assert(digits[n] == c);
        if !('0' <= c && c <= '9') {
            assert(!is_digit(digits_of(text@)[n]));
            return None;
        }
        let digit: u64 = (c as u32 - '0' as u32) as u64;
        proof {
            assert(digits.take(n + 1).drop_last() =~= digits.take(n));
            assert(digits.take(n + 1).last() == c);
            lemma_digits_value_grows(digits, n + 1);
        }
        match value.checked_mul(10) {
            None => {
                return None;
            },
            Some(tens) => {
                match tens.checked_add(digit) {
                    None => {
                        return None;
                    },
                    Some(next) => {
                        value = next;
                    },
                }
            },
        }
        i = i + 1;
    }
    assert(digits.take(digits.len() as int) =~= digits);
    Some(value)
}

// ---------------------------------------------------------------------------
// What holds of texts

/// The text is made of three others.
pub open spec fn made_of(
    text: Seq<char>,
    before: Seq<char>,
    part: Seq<char>,
    after: Seq<char>,
) -> bool {
    text == before + part + after
}

/// The text is made of a part and of what stands before and behind it.
pub open spec fn holds_part(text: Seq<char>, part: Seq<char>) -> bool {
    exists|before: Seq<char>, after: Seq<char>| made_of(text, before, part, after)
}

/// The text is made of a start and of what stands behind it.
pub open spec fn opens_with(text: Seq<char>, start: Seq<char>) -> bool {
    exists|after: Seq<char>| made_of(text, Seq::empty(), start, after)
}

/// The text is made of an end and of what stands before it.
pub open spec fn closes_with(text: Seq<char>, end: Seq<char>) -> bool {
    exists|before: Seq<char>| made_of(text, before, end, Seq::empty())
}

/// A text stands in another exactly at the places where something goes before it and
/// something follows it that make up the other.
pub proof fn a_place_splits_a_text(hay: Seq<char>, needle: Seq<char>, at: int)
    ensures
        occurs_at(hay, needle, at) <==> exists|before: Seq<char>, after: Seq<char>|
            made_of(hay, before, needle, after) && before.len() == at,
{
    if occurs_at(hay, needle, at) {
        let before = hay.take(at);
        let after = hay.skip(at + needle.len());
        assert(hay =~= before + needle + after);
        assert(made_of(hay, before, needle, after));
    }
    if exists|before: Seq<char>, after: Seq<char>|
        made_of(hay, before, needle, after) && before.len() == at {
        let (before, after) = choose|before: Seq<char>, after: Seq<char>|
            made_of(hay, before, needle, after) && before.len() == at;
        assert(hay.subrange(at, at + needle.len()) =~= needle);
    }
}

/// A text occurs in another exactly if it is a part of it.
pub proof fn what_occurs_is_a_part(hay: Seq<char>, needle: Seq<char>)
    ensures
        occurs(hay, needle) <==> holds_part(hay, needle),
{
    if occurs(hay, needle) {
        let at = choose|at: int| occurs_at(hay, needle, at);
        a_place_splits_a_text(hay, needle, at);
    }
    if holds_part(hay, needle) {
        let (before, after) = choose|before: Seq<char>, after: Seq<char>|
            made_of(hay, before, needle, after);
        a_place_splits_a_text(hay, needle, before.len() as int);
    }
}

/// A text begins with another exactly if something follows that that makes it up.
pub proof fn a_beginning_is_followed(text: Seq<char>, prefix: Seq<char>)
    ensures
        begins_with(text, prefix) <==> opens_with(text, prefix),
{
    a_place_splits_a_text(text, prefix, 0);
    if begins_with(text, prefix) {
        let (before, after) = choose|before: Seq<char>, after: Seq<char>|
            made_of(text, before, prefix, after) && before.len() == 0;
        assert(before =~= Seq::empty());
        assert(made_of(text, Seq::empty(), prefix, after));
    }
    if opens_with(text, prefix) {
        let after = choose|after: Seq<char>| made_of(text, Seq::empty(), prefix, after);
        assert(made_of(text, Seq::empty(), prefix, after));
    }
}

/// A text ends in another exactly if something goes before that that makes it up.
pub proof fn an_end_is_preceded(text: Seq<char>, suffix: Seq<char>)
    ensures
        finishes_with(text, suffix) <==> closes_with(text, suffix),
{
    let at = text.len() - suffix.len();
    a_place_splits_a_text(text, suffix, at);
    if finishes_with(text, suffix) {
        let (before, after) = choose|before: Seq<char>, after: Seq<char>|
            made_of(text, before, suffix, after) && before.len() == at;
        assert(after =~= Seq::empty());
        assert(made_of(text, before, suffix, Seq::empty()));
    }
    if closes_with(text, suffix) {
        let before = choose|before: Seq<char>| made_of(text, before, suffix, Seq::empty());
        assert(made_of(text, before, suffix, Seq::empty()));
        assert(before.len() == at);
    }
}

/// The first place of a text is where it stands, with no place of it before.
pub proof fn the_first_place_is_a_place(hay: Seq<char>, needle: Seq<char>, from: int, at: int)
    requires
        first_from(hay, needle, from, at),
    ensures
        from <= at,
        exists|before: Seq<char>, after: Seq<char>|
            made_of(hay, before, needle, after) && before.len() == at,
        forall|before: Seq<char>, after: Seq<char>|
            #[trigger] made_of(hay, before, needle, after) && from <= before.len() ==> at
                <= before.len(),
{
    a_place_splits_a_text(hay, needle, at);
    assert forall|before: Seq<char>, after: Seq<char>|
        #[trigger] made_of(hay, before, needle, after) && from <= before.len() implies at
        <= before.len() by {
        a_place_splits_a_text(hay, needle, before.len() as int);
    }
}

/// Exchanging the first occurrence of a text leaves what goes before it and what follows
/// it as they are. A text in which it does not occur stays as it is.
pub proof fn replacing_exchanges_the_first_occurrence(
    before: Seq<char>,
    from: Seq<char>,
    after: Seq<char>,
    to: Seq<char>,
)
    requires
        from.len() > 0,
        forall|j: int| 0 <= j < before.len() ==> !occurs_at(before + from + after, from, j),
    ensures
        replaced_once(before + from + after, from, to) == before + to + after,
    decreases before.len(),
{
    let text = before + from + after;
    if before.len() == 0 {
        assert(text.subrange(0, from.len() as int) =~= from);
        assert(text.skip(from.len() as int) =~= after);
        assert(replaced_once(text, from, to) =~= before + to + after);
    } else {
        assert(!occurs_at(text, from, 0));
        let rest = before.skip(1);
        assert(text.skip(1) =~= rest + from + after);
        assert forall|j: int| 0 <= j < rest.len() implies !occurs_at(rest + from + after, from, j) by {
            assert(!occurs_at(text, from, j + 1));
            if occurs_at(rest + from + after, from, j) {
                assert(text.subrange(j + 1, j + 1 + from.len()) =~= (rest + from + after).subrange(
                    j,
                    j + from.len(),
                ));
            }
        }
        replacing_exchanges_the_first_occurrence(rest, from, after, to);
        assert(seq![text[0]] + (rest + to + after) =~= before + to + after);
    }
}

/// What does not occur in a text is not taken out of it.
pub proof fn what_does_not_occur_is_not_taken_out(text: Seq<char>, gone: Seq<char>)
    requires
        forall|j: int| !occurs_at(text, gone, j),
    ensures
        without(text, gone) == text,
    decreases text.len(),
{
    if gone.len() > 0 && text.len() > 0 {
        assert(!occurs_at(text, gone, 0));
        let rest = text.skip(1);
        assert forall|j: int| !occurs_at(rest, gone, j) by {
            assert(!occurs_at(text, gone, j + 1));
            if occurs_at(rest, gone, j) {
                assert(text.subrange(j + 1, j + 1 + gone.len()) =~= rest.subrange(
                    j,
                    j + gone.len(),
                ));
            }
        }
        what_does_not_occur_is_not_taken_out(rest, gone);
        assert(seq![text[0]] + rest =~= text);
    }
}

/// A text that begins with what is taken out is left with what follows, of which the
/// same is taken out.
pub proof fn a_beginning_is_taken_out(gone: Seq<char>, rest: Seq<char>)
    requires
        gone.len() > 0,
    ensures
        without(gone + rest, gone) == without(rest, gone),
        (forall|j: int| !occurs_at(rest, gone, j)) ==> without(gone + rest, gone) == rest,
{
    let text = gone + rest;
    assert(text.subrange(0, gone.len() as int) =~= gone);
    assert(text.skip(gone.len() as int) =~= rest);
    if forall|j: int| !occurs_at(rest, gone, j) {
        what_does_not_occur_is_not_taken_out(rest, gone);
    }
}

/// What is taken out of the middle of a text leaves what goes before it, and what follows
/// it, of which the same is taken out.
pub proof fn a_middle_is_taken_out(before: Seq<char>, gone: Seq<char>, after: Seq<char>)
    requires
        gone.len() > 0,
        forall|j: int| 0 <= j < before.len() ==> !occurs_at(before + gone + after, gone, j),
    ensures
        without(before + gone + after, gone) == before + without(after, gone),
    decreases before.len(),
{
    let text = before + gone + after;
    if before.len() == 0 {
        assert(text =~= gone + after);
        a_beginning_is_taken_out(gone, after);
        assert(before + without(after, gone) =~= without(after, gone));
    } else {
        assert(!occurs_at(text, gone, 0));
        let rest = before.skip(1);
        assert(text.skip(1) =~= rest + gone + after);
        assert forall|j: int| 0 <= j < rest.len() implies !occurs_at(rest + gone + after, gone, j) by {
            assert(!occurs_at(text, gone, j + 1));
            if occurs_at(rest + gone + after, gone, j) {
                assert(text.subrange(j + 1, j + 1 + gone.len()) =~= (rest + gone + after).subrange(
                    j,
                    j + gone.len(),
                ));
            }
        }
        a_middle_is_taken_out(rest, gone, after);
        assert(seq![text[0]] + (rest + without(after, gone)) =~= before + without(after, gone));
    }
}

/// A number grows by one decimal digit at a time.
pub proof fn digits_count_in_tens(digits: Seq<char>, digit: char)
    requires
        '0' <= digit <= '9',
    ensures
        digits_value(Seq::empty()) == 0,
        digits_value(digits.push(digit)) == digits_value(digits) * 10 + (digit as u32 - '0' as u32),
{
    assert(digits.push(digit).drop_last() =~= digits);
}

/// The numbers that 64 bits can hold are the rows of one or more digits of such a value,
/// with or without a plus sign.
pub proof fn numbers_are_rows_of_digits(digits: Seq<char>)
    requires
        digits.len() > 0,
        forall|i: int| 0 <= i < digits.len() ==> '0' <= #[trigger] digits[i] <= '9',
        digits_value(digits) <= u64::MAX,
    ensures
        is_u64_text(digits) && digits_of(digits) == digits,
        is_u64_text(seq!['+'] + digits) && digits_of(seq!['+'] + digits) == digits,
{
    assert('0' <= digits[0] <= '9');
    assert((seq!['+'] + digits).skip(1) =~= digits);
}

/// What is no row of digits is no number.
pub proof fn a_number_has_nothing_but_digits(text: Seq<char>)
    requires
        is_u64_text(text),
    ensures
        text.len() > 0,
        forall|i: int| 0 < i < text.len() ==> '0' <= #[trigger] text[i] <= '9',
        '0' <= text[0] <= '9' || text[0] == '+' && text.len() > 1,
{
    if text[0] == '+' {
        assert forall|i: int| 0 < i < text.len() implies '0' <= #[trigger] text[i] <= '9' by {
            assert(digits_of(text)[i - 1] == text[i]);
            assert(is_digit(digits_of(text)[i - 1]));
        }
    } else {
        assert(digits_of(text) == text);
        assert(is_digit(digits_of(text)[0]));
        assert forall|i: int| 0 < i < text.len() implies '0' <= #[trigger] text[i] <= '9' by {
            assert(is_digit(digits_of(text)[i]));
        }
    }
}

/// Spaces, tabs and line breaks are white space, and letters, digits and the plus sign
/// are not.
pub proof fn white_space_is_not_written(c: char)
    ensures
        c == ' ' || c == '\t' || c == '\n' || c == '\r' ==> is_blank(c),
        '!' <= c <= '~' ==> !is_blank(c),
{
}

/// A text between white space is what the whole is trimmed to.
pub proof fn white_space_is_trimmed_at_both_ends(
    before: Seq<char>,
    core: Seq<char>,
    after: Seq<char>,
)
    requires
        forall|i: int| 0 <= i < before.len() ==> is_blank(#[trigger] before[i]),
        forall|i: int| 0 <= i < after.len() ==> is_blank(#[trigger] after[i]),
        core.len() > 0,
        !is_blank(core[0]),
        !is_blank(core.last()),
    ensures
        trims_to(before + core + after, core),
{
    let text = before + core + after;
    let from = before.len() as int;
    let to = (before.len() + core.len()) as int;
    assert(text.subrange(from, to) =~= core);
    assert forall|j: int| 0 <= j < from implies is_blank(text[j]) by {
        assert(text[j] == before[j]);
    }
    assert forall|j: int| to <= j < text.len() implies is_blank(text[j]) by {
        assert(text[j] == after[j - to]);
    }
}

} // verus!
