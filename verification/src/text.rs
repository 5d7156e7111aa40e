//! Text helpers: the characters of a string, trimming of white space,
//! decimal numbers and UTF-8.

use vstd::prelude::*;
use vstd::string::StringExecFns;
use vstd::utf8::*;

verus! {

/// Whether `c` has the Unicode property White_Space. Of the ASCII characters
/// [`is_white_space`] says so outright; this name stands for the answer on
/// all the others.
pub uninterp spec fn white_space(c: char) -> bool;

/// Whether `c` is one of the six ASCII characters with the property
/// White_Space: the blank, and the five from U+0009 to U+000D (tab, line feed,
/// vertical tab, form feed, carriage return).
pub open spec fn ascii_white_space(c: char) -> bool {
    c == ' ' || '\u{9}' <= c <= '\u{d}'
}

/// Whether `c` is white space: for an ASCII character, whether it is one of
/// the six; for any other, whether it has the property White_Space.
pub open spec fn is_white_space(c: char) -> bool {
    if (c as u32) < 0x80 {
        ascii_white_space(c)
    } else {
        white_space(c)
    }
}

/// `s` without the white space at its end.
pub open spec fn trimmed_end(s: Seq<char>) -> Seq<char>
    decreases s.len(),
{
    if s.len() > 0 && is_white_space(s.last()) {
        trimmed_end(s.drop_last())
    } else {
        s
    }
}

/// `s` without the white space at its start.
pub open spec fn trimmed_start(s: Seq<char>) -> Seq<char>
    decreases s.len(),
{
    if s.len() > 0 && is_white_space(s.first()) {
        trimmed_start(s.drop_first())
    } else {
        s
    }
}

/// `s` without the white space at either end.
pub open spec fn trimmed(s: Seq<char>) -> Seq<char> {
    trimmed_start(trimmed_end(s))
}

/// Whether `c` is one of the ten decimal digits.
pub open spec fn is_digit(c: char) -> bool {
    '0' <= c <= '9'
}

/// The number that the digit `c` stands for; 0 for any other character.
pub open spec fn digit_value(c: char) -> nat {
    if is_digit(c) {
        (c as u32 - '0' as u32) as nat
    } else {
        0
    }
}

/// Whether `s` is made of decimal digits only.
pub open spec fn all_digits(s: Seq<char>) -> bool {
    forall|i: int| 0 <= i < s.len() ==> is_digit(#[trigger] s[i])
}

/// The number that the decimal digits `s` write, most significant first.
pub open spec fn decimal_value(s: Seq<char>) -> nat
    decreases s.len(),
{
    if s.len() == 0 {
        0
    } else {
        10 * decimal_value(s.drop_last()) + digit_value(s.last())
    }
}

/// The character that writes the digit `d`.
pub open spec fn digit_char(d: int) -> char
    recommends
        0 <= d < 10,
{
    ('0' as u32 + d) as char
}

/// The digits that write `n`, most significant first: none for 0.
pub open spec fn digits_of(n: nat) -> Seq<char>
    decreases n,
{
    if n == 0 {
        Seq::<char>::empty()
    } else {
        digits_of(n / 10).push(digit_char((n % 10) as int))
    }
}

/// The number `n` written in decimal digits, without leading zeros.
pub open spec fn decimal_text(n: nat) -> Seq<char> {
    if n == 0 {
        seq!['0']
    } else {
        digits_of(n)
    }
}

/// The digits of an unsigned number in text: `s` itself, or `s` without a
/// leading plus sign.
pub open spec fn unsigned_digits(s: Seq<char>) -> Seq<char> {
    if s.len() > 0 && s[0] == '+' {
        s.drop_first()
    } else {
        s
    }
}

/// The number that `s` writes: an optional plus sign, then one or more
/// decimal digits whose value fits a `usize`. Anything else writes no number.
pub open spec fn parsed_usize(s: Seq<char>) -> Option<usize> {
    let digits = unsigned_digits(s);
    if digits.len() > 0 && all_digits(digits) && decimal_value(digits) <= usize::MAX {
        Some(decimal_value(digits) as usize)
    } else {
        None
    }
}

/// `char::is_whitespace`: tells whether `c` has the Unicode property
/// White_Space. Of the ASCII characters, the blank and those from U+0009 to
/// U+000D have it and no other has; of a character beyond ASCII nothing is
/// claimed but that the answer depends on the character alone.
#[verifier::external_body]
pub(crate) fn is_whitespace(c: char) -> (b: bool)
    ensures
        b == (if (c as u32) < 0x80 {
            ascii_white_space(c)
        } else {
            white_space(c)
        }),
{
    c.is_whitespace()
}

/// `String::from_utf8`: the text that `bytes` encode, if they are valid UTF-8.
#[verifier::external_body]
pub(crate) fn string_from_utf8(bytes: Vec<u8>) -> (text: Option<String>)
    ensures
        text is Some <==> valid_utf8(bytes@),
        text matches Some(t) ==> t@ == decode_utf8(bytes@),
{
    String::from_utf8(bytes).ok()
}

/// The characters of `s`, in order.
pub fn chars_of(s: &str) -> (chars: Vec<char>)
    ensures
        chars@ == s@,
{
    let mut chars: Vec<char> = Vec::new();
    for c in it: s.chars()
        invariant
            it.seq() == s@,
            chars@ == s@.subrange(0, it.index()),
    {
        chars.push(c);
    }
    chars
}

/// How many characters of `chars` are left once the white space at its end is
/// gone.
fn trimmed_end_len(chars: &Vec<char>) -> (end: usize)
    ensures
        end <= chars@.len(),
        chars@.subrange(0, end as int) == trimmed_end(chars@),
{
    let mut end: usize = chars.len();
    assert(chars@.subrange(0, end as int) == chars@);
    while end > 0 && is_whitespace(chars[end - 1])
        invariant
            end <= chars@.len(),
            trimmed_end(chars@) == trimmed_end(chars@.subrange(0, end as int)),
        decreases end,
    {
        assert(chars@.subrange(0, end as int).drop_last() == chars@.subrange(0, end - 1));
        end = end - 1;
    }
    end
}

/// A copy of `text` without the white space at its end.
pub fn trim_end(text: &str) -> (out: String)
    ensures
        out@ == trimmed_end(text@),
{
    let chars = chars_of(text);
    let end = trimmed_end_len(&chars);
    text.substring_char(0, end).to_owned()
}

/// A copy of `text` without the white space at either end.
pub fn trim(text: &str) -> (out: String)
    ensures
        out@ == trimmed(text@),
{
    let chars = chars_of(text);
    let end = trimmed_end_len(&chars);
    let ghost kept = chars@.subrange(0, end as int);
    let mut start: usize = 0;
    assert(kept.subrange(0, end as int) == kept);
    while start < end && is_whitespace(chars[start])
        invariant
            start <= end <= chars@.len(),
            kept == chars@.subrange(0, end as int),
            trimmed_start(kept) == trimmed_start(kept.subrange(start as int, end as int)),
        decreases end - start,
    {
        assert(kept.subrange(start as int, end as int).drop_first() == kept.subrange(
            start + 1,
            end as int,
        ));
        start = start + 1;
    }
    assert(kept.subrange(start as int, end as int) == chars@.subrange(start as int, end as int));
    text.substring_char(start, end).to_owned()
}

/// A prefix of a run of digits writes no larger a number than the whole run.
proof fn lemma_decimal_value_prefix(s: Seq<char>, k: int)
    requires
        0 <= k <= s.len(),
    ensures
        decimal_value(s.subrange(0, k)) <= decimal_value(s),
    decreases s.len(),
{
    if k == s.len() {
        assert(s.subrange(0, k) == s);
    } else {
        lemma_decimal_value_prefix(s.drop_last(), k);
        assert(s.drop_last().subrange(0, k) == s.subrange(0, k));
    }
}

/// Reads an unsigned decimal number: an optional plus sign, then digits.
pub fn parse_usize(text: &str) -> (number: Option<usize>)
    ensures
        number == parsed_usize(text@),
{
    let chars = chars_of(text);
    let len = chars.len();
    let start: usize = if len > 0 && chars[0] == '+' { 1 } else { 0 };
    let ghost digits = unsigned_digits(text@);
    assert(digits == chars@.subrange(start as int, len as int));
    if start == len {
        return None;
    }
    let mut value: usize = 0;
    let mut i: usize = start;
    while i < len
        invariant
            start <= i <= len,
            len == chars@.len(),
            digits == unsigned_digits(text@),
            digits == chars@.subrange(start as int, len as int),
            all_digits(digits.subrange(0, i - start)),
            value == decimal_value(digits.subrange(0, i - start)),
        decreases len - i,
    {
        let c = chars[i];
        let ghost read = digits.subrange(0, i - start + 1);
        assert(read.drop_last() == digits.subrange(0, i - start));
        assert(read.last() == c);
        if !(c >= '0' && c <= '9') {
            assert(!is_digit(digits[i - start]));
            return None;
        }
        let digit = (c as u32 - '0' as u32) as usize;
        proof {
            lemma_decimal_value_prefix(digits, i - start + 1);
        }
        if value > (usize::MAX - digit) / 10 {
            return None;
        }
        value = value * 10 + digit;
        i = i + 1;
    }
    assert(digits.subrange(0, len - start) == digits);
    Some(value)
}

/// The text of one digit.
fn digit_text(d: u64) -> (text: &'static str)
    requires
        d < 10,
    ensures
        text@ == seq![digit_char(d as int)],
{
    proof {
        reveal_strlit("0");
        reveal_strlit("1");
        reveal_strlit("2");
        reveal_strlit("3");
        reveal_strlit("4");
        reveal_strlit("5");
        reveal_strlit("6");
        reveal_strlit("7");
        reveal_strlit("8");
        reveal_strlit("9");
    }
    let text = if d == 0 {
        "0"
    } else if d == 1 {
        "1"
    } else if d == 2 {
        "2"
    } else if d == 3 {
        "3"
    } else if d == 4 {
        "4"
    } else if d == 5 {
        "5"
    } else if d == 6 {
        "6"
    } else if d == 7 {
        "7"
    } else if d == 8 {
        "8"
    } else {
        "9"
    };
    assert(text@ == seq![digit_char(d as int)]);
    text
}

/// Writes the digits of `n` behind what `out` holds.
fn push_digits(n: u64, out: &mut String)
    ensures
        final(out)@ == old(out)@ + digits_of(n as nat),
    decreases n,
{
    if n > 0 {
        push_digits(n / 10, out);
        out.append(digit_text(n % 10));
        assert(out@ == old(out)@ + digits_of(n as nat));
    } else {
        assert(out@ == old(out)@ + digits_of(n as nat));
    }
}

/// Writes `n` behind what `out` holds, in decimal digits.
pub fn push_decimal(n: u64, out: &mut String)
    ensures
        final(out)@ == old(out)@ + decimal_text(n as nat),
{
    if n == 0 {
        proof {
            reveal_strlit("0");
        }
        out.append("0");
        assert(out@ == old(out)@ + decimal_text(0));
    } else {
        push_digits(n, out);
    }
}

/// The number `n` in decimal digits.
pub fn decimal(n: u64) -> (text: String)
    ensures
        text@ == decimal_text(n as nat),
{
    let mut text = String::new();
    push_decimal(n, &mut text);
    assert(Seq::<char>::empty() + decimal_text(n as nat) == decimal_text(n as nat));
    text
}

} // verus!
