//! Text as sequences of characters: fields between separators and decimal
//! numbers.

use vstd::prelude::*;
use vstd::string::*;

verus! {

/// The position of the first `c` in `text`, or the length of `text` where
/// there is none.
pub open spec fn first_index(text: Seq<char>, c: char) -> nat
    decreases text.len(),
{
    if text.len() == 0 || text[0] == c {
        0
    } else {
        1 + first_index(text.drop_first(), c)
    }
}

/// The fields of `text` between occurrences of `sep`. There is always at
/// least one field; a field may be empty.
pub open spec fn split(text: Seq<char>, sep: char) -> Seq<Seq<char>>
    decreases text.len(),
{
    let end = first_index(text, sep);
    if end >= text.len() {
        seq![text]
    } else {
        seq![text.take(end as int)] + split(text.skip(end as int + 1), sep)
    }
}

/// Whether `c` is one of `0` to `9`.
pub open spec fn is_digit(c: char) -> bool {
    '0' <= c <= '9'
}

/// The number that the digit `c` stands for.
pub open spec fn digit_value(c: char) -> int {
    c as int - '0' as int
}

/// Whether `text` holds digits and nothing else.
pub open spec fn all_digits(text: Seq<char>) -> bool {
    forall|i: int| 0 <= i < text.len() ==> is_digit(#[trigger] text[i])
}

/// The number that the digits of `text` spell in base ten.
pub open spec fn decimal_value(text: Seq<char>) -> int
    decreases text.len(),
{
    if text.len() == 0 {
        0
    } else {
        10 * decimal_value(text.drop_last()) + digit_value(text.last())
    }
}

/// Whether `text` starts with the sign `sign`.
pub open spec fn has_sign(text: Seq<char>, sign: char) -> bool {
    text.len() > 0 && text[0] == sign
}

/// The number that `text` spells, where it spells one from `min` to `max`:
/// a `+` or nothing in front of at least one digit, or, where `min` is
/// negative, a `-` in front of at least one digit. Nothing else is a number:
/// no blanks, no separators, no sign alone.
pub open spec fn parse_integer(text: Seq<char>, min: int, max: int) -> Option<int> {
    let negative = min < 0 && has_sign(text, '-');
    let digits = if negative || has_sign(text, '+') {
        text.drop_first()
    } else {
        text
    };
    let value = if negative {
        -decimal_value(digits)
    } else {
        decimal_value(digits)
    };
    if digits.len() > 0 && all_digits(digits) && min <= value <= max {
        Some(value)
    } else {
        None
    }
}

/// The signed 64-bit number that `text` spells.
pub open spec fn parse_i64(text: Seq<char>) -> Option<i64> {
    match parse_integer(text, i64::MIN as int, i64::MAX as int) {
        Some(v) => Some(v as i64),
        None => None,
    }
}

/// The unsigned 16-bit number that `text` spells.
pub open spec fn parse_u16(text: Seq<char>) -> Option<u16> {
    match parse_integer(text, 0, u16::MAX as int) {
        Some(v) => Some(v as u16),
        None => None,
    }
}

/// Where the first `c` stands: no `c` before it, and a `c` there or the end.
pub proof fn lemma_first_index(text: Seq<char>, c: char, at: int)
    requires
        0 <= at <= text.len(),
        forall|i: int| 0 <= i < at ==> text[i] != c,
        at == text.len() || text[at] == c,
    ensures
        first_index(text, c) == at,
    decreases text.len(),
{
    if at > 0 {
        let rest = text.drop_first();
        assert(forall|i: int| 0 <= i < at - 1 ==> rest[i] == text[i + 1]);
        lemma_first_index(rest, c, at - 1);
    }
}

/// More digits never make a number smaller.
pub proof fn lemma_decimal_grows(text: Seq<char>, n: int)
    requires
        0 <= n <= text.len(),
        all_digits(text),
    ensures
        0 <= decimal_value(text.take(n)) <= decimal_value(text),
    decreases text.len() - n,
{
    lemma_decimal_nonnegative(text.take(n));
    if n < text.len() {
        lemma_decimal_grows(text, n + 1);
        assert(text.take(n + 1).drop_last() =~= text.take(n));
        assert(is_digit(text[n]));
    } else {
        assert(text.take(n) =~= text);
    }
}

proof fn lemma_decimal_nonnegative(text: Seq<char>)
    requires
        all_digits(text),
    ensures
        0 <= decimal_value(text),
    decreases text.len(),
{
    if text.len() > 0 {
        assert(forall|i: int|
            0 <= i < text.len() - 1 ==> text.drop_last()[i] == #[trigger] text[i]);
        lemma_decimal_nonnegative(text.drop_last());
        assert(is_digit(text.last()));
    }
}

/// The characters of `text`.
pub fn chars_of(text: &str) -> (chars: Vec<char>)
    ensures
        chars@ == text@,
{
    let mut chars: Vec<char> = Vec::new();
    for c in it: text.chars()
        invariant
            chars@ == it.seq().take(it.index() as int),
            it.seq() == text@,
    {
        chars.push(c);
        assert(chars@ =~= it.seq().take(it.index() + 1));
    }
    assert(chars@ =~= text@);
    chars
}

/// The position of the first `c` at or after `from`, or the length of
/// `chars` where there is none.
pub(crate) fn find(chars: &[char], from: usize, c: char) -> (at: usize)
    requires
        from <= chars.len(),
    ensures
        from <= at <= chars.len(),
        at == from + first_index(chars@.skip(from as int), c),
{
    let mut at = from;
    while at < chars.len() && chars[at] != c
        invariant
            from <= at <= chars.len(),
            forall|i: int| from <= i < at ==> chars@[i] != c,
        decreases chars.len() - at,
    {
        at = at + 1;
    }
    proof {
        lemma_first_index(chars@.skip(from as int), c, at - from);
    }
    at
}

/// The characters of `chars` between the two positions of `bound`.
pub open spec fn spanned(chars: Seq<char>, bound: (usize, usize)) -> Seq<char> {
    chars.subrange(bound.0 as int, bound.1 as int)
}

/// Whether `bound` is a range of positions within `len` characters.
pub open spec fn within(bound: (usize, usize), len: nat) -> bool {
    bound.0 <= bound.1 <= len
}

/// The bounds of each field of `chars` between occurrences of `sep`: entry
/// `k` spans field `k`.
pub fn field_bounds(chars: &[char], sep: char) -> (bounds: Vec<(usize, usize)>)
    ensures
        bounds@.len() == split(chars@, sep).len(),
        forall|k: int|
            0 <= k < bounds@.len() ==> within(#[trigger] bounds@[k], chars@.len()) && spanned(
                chars@,
                bounds@[k],
            ) == split(chars@, sep)[k],
{
    let mut bounds: Vec<(usize, usize)> = Vec::new();
    let mut start: usize = 0;
    proof {
        assert(chars@.skip(0) =~= chars@);
        assert(bounds@.map_values(|b: (usize, usize)| spanned(chars@, b)) + split(chars@, sep)
            =~= split(chars@, sep));
    }
    loop
        invariant
            start <= chars.len(),
            split(chars@, sep) == bounds@.map_values(|b: (usize, usize)| spanned(chars@, b))
                + split(chars@.skip(start as int), sep),
            forall|k: int| 0 <= k < bounds@.len() ==> within(#[trigger] bounds@[k], chars@.len()),
        decreases chars.len() - start,
    {
        let end = find(chars, start, sep);
        let ghost before = bounds@;
        let ghost rest = chars@.skip(start as int);
        bounds.push((start, end));
        proof {
            let done = before.map_values(|b: (usize, usize)| spanned(chars@, b));
            let now = bounds@.map_values(|b: (usize, usize)| spanned(chars@, b));
            assert(rest.take(end - start) =~= chars@.subrange(start as int, end as int));
            assert(now =~= done + seq![chars@.subrange(start as int, end as int)]);
            if end < chars.len() {
                assert(rest.skip(end - start + 1) =~= chars@.skip(end + 1));
                assert(split(chars@, sep) =~= now + split(chars@.skip(end + 1), sep));
            } else {
                assert(split(chars@, sep) =~= now);
            }
        }
        if end >= chars.len() {
            proof {
                let now = bounds@.map_values(|b: (usize, usize)| spanned(chars@, b));
                assert forall|k: int| 0 <= k < bounds@.len() implies spanned(
                    chars@,
                    #[trigger] bounds@[k],
                ) == split(chars@, sep)[k] by {
                    assert(now[k] == spanned(chars@, bounds@[k]));
                }
            }
            return bounds;
        }
        start = end + 1;
    }
}

/// The number that the digits from `from` up to `to` spell, where there is a
/// digit, there is nothing but digits, and the number is at most `limit`.
fn parse_digits(chars: &[char], from: usize, to: usize, limit: u64) -> (r: Option<u64>)
    requires
        from <= to <= chars.len(),
        9 <= limit <= 0x8000_0000_0000_0000,
    ensures
        ({
            let digits = chars@.subrange(from as int, to as int);
            let spelled = digits.len() > 0 && all_digits(digits) && decimal_value(digits) <= limit;
            match r {
                Some(value) => spelled && value == decimal_value(digits),
                None => !spelled,
            }
        }),
{
    let ghost digits = chars@.subrange(from as int, to as int);
    if from == to {
        return None;
    }
    let mut acc: u64 = 0;
    let mut at = from;
    while at < to
        invariant
            from <= at <= to <= chars.len(),
            digits == chars@.subrange(from as int, to as int),
            all_digits(digits.take(at - from)),
            acc == decimal_value(digits.take(at - from)),
            acc <= limit,
            9 <= limit <= 0x8000_0000_0000_0000,
        decreases to - at,
    {
        let c = chars[at];
        let ghost seen = digits.take(at - from + 1);
        proof {
            assert(seen.drop_last() =~= digits.take(at - from));
            assert(seen.last() == c);
            assert(digits[at - from] == c);
        }
        if c < '0' || c > '9' {
            assert(!is_digit(digits[at - from]));
            return None;
        }
        let digit: u64 = (c as u64) - ('0' as u64);
        if acc > (limit - digit) / 10 {
            proof {
                assert(decimal_value(seen) > limit);
                if all_digits(digits) {
                    lemma_decimal_grows(digits, at - from + 1);
                }
            }
            return None;
        }
        acc = acc * 10 + digit;
        at = at + 1;
        proof {
            assert forall|i: int| 0 <= i < seen.len() implies is_digit(#[trigger] seen[i]) by {
                if i < seen.len() - 1 {
                    assert(seen[i] == digits.take(at - from - 1)[i]);
                }
            }
        }
    }
    assert(digits.take(to - from) =~= digits);
    Some(acc)
}

/// The signed 64-bit number that the characters from `from` up to `to` spell.
pub(crate) fn parse_i64_in(chars: &[char], from: usize, to: usize) -> (r: Option<i64>)
    requires
        from <= to <= chars.len(),
    ensures
        r == parse_i64(chars@.subrange(from as int, to as int)),
{
    let ghost text = chars@.subrange(from as int, to as int);
    proof {
        if from < to {
            assert(text[0] == chars@[from as int]);
        }
    }
    if from < to && chars[from] == '-' {
        assert(text.drop_first() =~= chars@.subrange(from + 1, to as int));
        match parse_digits(chars, from + 1, to, 0x8000_0000_0000_0000) {
            Some(magnitude) => {
                if magnitude == 0x8000_0000_0000_0000 {
                    Some(i64::MIN)
                } else {
                    Some(-(magnitude as i64))
                }
            },
            None => None,
        }
    } else if from < to && chars[from] == '+' {
        assert(text.drop_first() =~= chars@.subrange(from + 1, to as int));
        match parse_digits(chars, from + 1, to, 0x7fff_ffff_ffff_ffff) {
            Some(magnitude) => Some(magnitude as i64),
            None => None,
        }
    } else {
        match parse_digits(chars, from, to, 0x7fff_ffff_ffff_ffff) {
            Some(magnitude) => Some(magnitude as i64),
            None => None,
        }
    }
}

/// The unsigned 16-bit number that the characters from `from` up to `to`
/// spell.
pub(crate) fn parse_u16_in(chars: &[char], from: usize, to: usize) -> (r: Option<u16>)
    requires
        from <= to <= chars.len(),
    ensures
        r == parse_u16(chars@.subrange(from as int, to as int)),
{
    let ghost text = chars@.subrange(from as int, to as int);
    proof {
        if from < to {
            assert(text[0] == chars@[from as int]);
        }
    }
    if from < to && chars[from] == '+' {
        assert(text.drop_first() =~= chars@.subrange(from + 1, to as int));
        match parse_digits(chars, from + 1, to, 0xffff) {
            Some(value) => Some(value as u16),
            None => None,
        }
    } else {
        match parse_digits(chars, from, to, 0xffff) {
            Some(value) => Some(value as u16),
            None => None,
        }
    }
}

/// The signed 64-bit number that `text` spells.
pub fn to_i64(text: &str) -> (r: Option<i64>)
    ensures
        r == parse_i64(text@),
{
    let chars = chars_of(text);
    assert(chars@.subrange(0, chars@.len() as int) =~= text@);
    parse_i64_in(chars.as_slice(), 0, chars.len())
}

/// The unsigned 16-bit number that `text` spells.
pub fn to_u16(text: &str) -> (r: Option<u16>)
    ensures
        r == parse_u16(text@),
{
    let chars = chars_of(text);
    assert(chars@.subrange(0, chars@.len() as int) =~= text@);
    parse_u16_in(chars.as_slice(), 0, chars.len())
}

/// The text of the characters from `from` up to `to` of `text`.
pub(crate) fn slice_of(text: &str, from: usize, to: usize) -> (part: String)
    requires
        from <= to <= text@.len(),
    ensures
        part@ == text@.subrange(from as int, to as int),
{
    text.substring_char(from, to).to_owned()
}

/// Whether two texts hold the same characters.
pub fn same_text(a: &str, b: &str) -> (same: bool)
    ensures
        same == (a@ == b@),
{
    let left = chars_of(a);
    let right = chars_of(b);
    if left.len() != right.len() {
        return false;
    }
    let mut i: usize = 0;
    while i < left.len()
        invariant
            i <= left.len(),
            left@ == a@,
            right@ == b@,
            left@.len() == right@.len(),
            forall|k: int| 0 <= k < i ==> left@[k] == right@[k],
        decreases left.len() - i,
    {
        if left[i] != right[i] {
            assert(a@[i as int] != b@[i as int]);
            return false;
        }
        i = i + 1;
    }
    assert(left@ =~= right@);
    true
}

/// Appends one character to `text`.
///
/// Calls `String::push` of the standard library, which puts the character at
/// the end of the text and changes nothing else.
#[verifier::external_body]
pub(crate) fn push_char(text: &mut String, c: char)
    ensures
        final(text)@ == old(text)@.push(c),
{
    text.push(c);
}

} // verus!
