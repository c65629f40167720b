//! What a person types at the start: the number of a device, and a filter.

use crate::text;
use vstd::prelude::*;
use vstd::string::*;

verus! {

/// The device that is taken where no number was typed.
pub const DEFAULT_CHOICE: usize = 4;

/// Whether a character is white space in the sense of Unicode.
pub open spec fn is_white_space(c: char) -> bool {
    let n = c as int;
    ||| 0x09 <= n <= 0x0D
    ||| n == 0x20
    ||| n == 0x85
    ||| n == 0xA0
    ||| n == 0x1680
    ||| 0x2000 <= n <= 0x200A
    ||| n == 0x2028
    ||| n == 0x2029
    ||| n == 0x202F
    ||| n == 0x205F
    ||| n == 0x3000
}

/// A text without the white space at its end.
pub open spec fn trimmed_end(s: Seq<char>) -> Seq<char>
    decreases s.len(),
{
    if s.len() > 0 && is_white_space(s.last()) {
        trimmed_end(s.drop_last())
    } else {
        s
    }
}

/// A text without the white space at its ends.
pub open spec fn trimmed(s: Seq<char>) -> Seq<char>
    decreases s.len(),
{
    if s.len() > 0 && is_white_space(s[0]) {
        trimmed(s.skip(1))
    } else {
        trimmed_end(s)
    }
}

/// Whether a character is a decimal digit.
pub open spec fn is_digit(c: char) -> bool {
    '0' <= c <= '9'
}

/// The digits of a number, behind a plus sign where there is one.
pub open spec fn unsigned_part(s: Seq<char>) -> Seq<char> {
    if s.len() > 0 && s[0] == '+' {
        s.skip(1)
    } else {
        s
    }
}

/// The number that a text stands for: one decimal digit at least, and nothing but digits,
/// behind a plus sign where there is one; and a number that the machine can count to.
pub open spec fn number_of(s: Seq<char>) -> Option<int> {
    let digits = unsigned_part(s);
    if digits.len() > 0 && (forall|i: int| 0 <= i < digits.len() ==> is_digit(#[trigger] digits[i]))
        && text::numeral_value(digits, 10) <= usize::MAX {
        Some(text::numeral_value(digits, 10) as int)
    } else {
        None
    }
}

/// The device that a typed line chooses out of `count`: the one of that number, the default
/// where the line is no number, and the first where there is no such device.
pub open spec fn chosen(input: Seq<char>, count: int) -> int {
    let choice = match number_of(trimmed(input)) {
        Some(n) => n,
        None => DEFAULT_CHOICE as int,
    };
    if choice < count {
        choice
    } else {
        0
    }
}

/// Whether a character is white space.
fn white_space(c: char) -> (b: bool)
    ensures
        b == is_white_space(c),
{
    let n: u32 = c as u32;
    (0x09 <= n && n <= 0x0D) || n == 0x20 || n == 0x85 || n == 0xA0 || n == 0x1680 || (0x2000 <= n
        && n <= 0x200A) || n == 0x2028 || n == 0x2029 || n == 0x202F || n == 0x205F || n == 0x3000
}

/// The part of a text between the white space at its ends.
fn trim(s: &str) -> (r: &str)
    ensures
        r@ == trimmed(s@),
{
    let len: usize = s.unicode_len();
    let mut start: usize = 0;
    assert(s@.skip(0) =~= s@);
    while start < len && white_space(s.get_char(start))
        invariant
            len == s@.len(),
            start <= len,
            trimmed(s@) == trimmed(s@.skip(start as int)),
        decreases len - start,
    {
        assert(s@.skip(start as int).skip(1) =~= s@.skip(start + 1));
        start = start + 1;
    }
    assert(trimmed(s@) == trimmed_end(s@.skip(start as int)));
    let mut end: usize = len;
    assert(s@.subrange(start as int, len as int) =~= s@.skip(start as int));
    while start < end && white_space(s.get_char(end - 1))
        invariant
            len == s@.len(),
            start <= end <= len,
            trimmed(s@) == trimmed_end(s@.subrange(start as int, end as int)),
        decreases end,
    {
        assert(s@.subrange(start as int, end as int).drop_last() =~= s@.subrange(
            start as int,
            end - 1,
        ));
        end = end - 1;
    }
    s.substring_char(start, end)
}

/// A numeral is worth no less than what it begins with.
proof fn prefix_is_worth_no_more(s: Seq<char>, n: int)
    requires
        0 <= n <= s.len(),
    ensures
        text::numeral_value(s.take(n), 10) <= text::numeral_value(s, 10),
    decreases s.len(),
{
    if n == s.len() {
        assert(s.take(n) =~= s);
    } else {
        prefix_is_worth_no_more(s.drop_last(), n);
        assert(s.drop_last().take(n) =~= s.take(n));
    }
}

/// The number that a text stands for, where it stands for one.
fn parse_number(s: &str) -> (n: Option<usize>)
    ensures
        match n {
            Some(n) => number_of(s@) == Some(n as int),
            None => number_of(s@) is None,
        },
{
    let len: usize = s.unicode_len();
    let first: usize = if len > 0 && s.get_char(0) == '+' {
        1
    } else {
        0
    };
    let ghost digits = unsigned_part(s@);
    assert(digits =~= s@.skip(first as int));
    if first == len {
        return None;
    }
    let mut value: usize = 0;
    let mut i: usize = first;
    assert(digits.take(0) =~= Seq::<char>::empty());
    while i < len
        invariant
            len == s@.len(),
            first <= i <= len,
            first <= 1,
            digits == unsigned_part(s@),
            digits == s@.skip(first as int),
            value == text::numeral_value(digits.take(i - first), 10),
            forall|j: int| 0 <= j < i - first ==> is_digit(#[trigger] digits[j]),
        decreases len - i,
    {
        let c: char = s.get_char(i);
        let ghost k = i - first;
        assert(digits[k] == c);
        if c < '0' || '9' < c {
            assert(!is_digit(digits[k]));
            return None;
        }
        let d: usize = (c as u32 - 48) as usize;
        proof {
            assert(digits.take(k + 1).drop_last() =~= digits.take(k));
            assert(text::numeral_value(digits.take(k + 1), 10) == value * 10 + d);
            prefix_is_worth_no_more(digits, k + 1);
        }
        if value > (usize::MAX - d) / 10 {
            return None;
        }
        value = value * 10 + d;
        i = i + 1;
    }
    assert(digits.take(i - first) =~= digits);
    Some(value)
}

/// The device that a typed line chooses out of `count`.
pub fn choose_device(input: &str, count: usize) -> (index: usize)
    requires
        count > 0,
    ensures
        index == chosen(input@, count as int),
        index < count,
{
    let choice: usize = match parse_number(trim(input)) {
        Some(n) => n,
        None => DEFAULT_CHOICE,
    };
    if choice < count {
        choice
    } else {
        0
    }
}

/// The filter in a typed line.
pub fn filter_expression(input: &str) -> (filter: String)
    ensures
        filter@ == trimmed(input@),
{
    trim(input).to_owned()
}

/// The line that offers a device, with its description as `description` writes it.
pub fn device_line(index: usize, name: &str, description: &str) -> (line: String)
    ensures
        line@ == "["@ + text::decimal(index as nat) + "] 名字: "@ + name@ + " | 描述: "@
            + description@,
{
    let mut line = String::from_str("[");
    text::push_decimal(&mut line, index as u64);
    line.append("] 名字: ");
    line.append(name);
    line.append(" | 描述: ");
    line.append(description);
    line
}

} // verus!
