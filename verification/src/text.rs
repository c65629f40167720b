//! Numerals in decimal and hexadecimal, padded with zeros where a column asks for it.

use vstd::prelude::*;
use vstd::string::*;

verus! {

/// The character of one digit, upper case above nine.
pub open spec fn digit(d: int) -> char {
    if d < 10 {
        (d + 48) as char
    } else {
        (d + 55) as char
    }
}

/// `n` written in `base` without leading zeros.
pub open spec fn numeral(n: nat, base: nat) -> Seq<char>
    decreases n,
{
    if base < 2 || n < base {
        seq![digit(n as int)]
    } else {
        proof {
            assert(n / base < n) by (nonlinear_arith)
                requires
                    n >= base,
                    base >= 2,
            ;
        }
        numeral(n / base, base).push(digit((n % base) as int))
    }
}

/// `s` with zeros in front of it, as many as make it `width` characters long.
pub open spec fn zero_padded(s: Seq<char>, width: nat) -> Seq<char> {
    if s.len() >= width {
        s
    } else {
        Seq::new((width - s.len()) as nat, |i: int| '0') + s
    }
}

/// `n` in decimal.
pub open spec fn decimal(n: nat) -> Seq<char> {
    numeral(n, 10)
}

/// `n` in upper-case hexadecimal.
pub open spec fn hex(n: nat) -> Seq<char> {
    numeral(n, 16)
}

/// The two hexadecimal digits of a byte.
pub open spec fn hex_byte(b: u8) -> Seq<char> {
    seq![digit(b as int / 16), digit(b as int % 16)]
}

/// The value of a digit character.
pub open spec fn digit_value(c: char) -> nat {
    if (c as int) < 58 {
        (c as int - 48) as nat
    } else {
        (c as int - 55) as nat
    }
}

/// The number that a numeral in `base` stands for.
pub open spec fn numeral_value(s: Seq<char>, base: nat) -> nat
    decreases s.len(),
{
    if s.len() == 0 {
        0
    } else {
        numeral_value(s.drop_last(), base) * base + digit_value(s.last())
    }
}

/// Reading a numeral back gives the number that was written, in every base that the digits
/// serve.
pub proof fn numeral_reads_back(n: nat, base: nat)
    requires
        2 <= base <= 16,
    ensures
        numeral_value(numeral(n, base), base) == n,
    decreases n,
{
    if n < base {
        assert(numeral(n, base).drop_last() =~= Seq::<char>::empty());
        assert(numeral_value(Seq::<char>::empty(), base) == 0);
        assert(0 * base == 0) by (nonlinear_arith);
    } else {
        let q = n / base;
        assert(q < n && n == q * base + n % base && n % base < base) by (nonlinear_arith)
            requires
                n >= base,
                base >= 2,
                q == n / base,
        ;
        numeral_reads_back(q, base);
        assert(numeral(n, base).drop_last() =~= numeral(q, base));
    }
}

/// Two hexadecimal byte texts are the same only where the bytes are.
pub proof fn hex_byte_is_injective(a: u8, b: u8)
    requires
        hex_byte(a) == hex_byte(b),
    ensures
        a == b,
{
    assert(hex_byte(a)[0] == hex_byte(b)[0]);
    assert(hex_byte(a)[1] == hex_byte(b)[1]);
}

/// A numeral of a number below the square of its base has at most two digits, and padded to
/// two it is the digit of the quotient and the digit of the remainder.
pub proof fn padded_byte_is_hex_byte(b: u8)
    ensures
        zero_padded(hex(b as nat), 2) == hex_byte(b),
{
    let n = b as nat;
    reveal_with_fuel(numeral, 2);
    if n < 16 {
        assert(zero_padded(hex(n), 2) =~= hex_byte(b));
    } else {
        assert(n / 16 < 16);
        assert(numeral(n / 16, 16) == seq![digit((n / 16) as int)]);
        assert(hex(n) =~= hex_byte(b));
    }
}

/// One digit as text.
fn digit_text(d: u64) -> (s: &'static str)
    requires
        d < 16,
    ensures
        s@ == seq![digit(d as int)],
{
    proof {
        reveal_strlit("0");
        reveal_strlit("1");
        reveal_strlit("2");
        reveal_strlit("3");
        reveal_strlit("4");
        reveal_strlit("5");
        reveal_strlit("6");
        reveal_strlit("7");
        reveal_strlit("8");
        reveal_strlit("9");
        reveal_strlit("A");
        reveal_strlit("B");
        reveal_strlit("C");
        reveal_strlit("D");
        reveal_strlit("E");
        reveal_strlit("F");
    }
    match d {
        0 => "0",
        1 => "1",
        2 => "2",
        3 => "3",
        4 => "4",
        5 => "5",
        6 => "6",
        7 => "7",
        8 => "8",
        9 => "9",
        10 => "A",
        11 => "B",
        12 => "C",
        13 => "D",
        14 => "E",
        _ => "F",
    }
}

/// Appends `n` in `base`.
fn push_numeral(out: &mut String, n: u64, base: u64)
    requires
        2 <= base <= 16,
    ensures
        final(out)@ == old(out)@ + numeral(n as nat, base as nat),
    decreases n,
{
    if n >= base {
        proof {
            assert(n / base < n) by (nonlinear_arith)
                requires
                    n >= base,
                    base >= 2,
            ;
        }
        push_numeral(out, n / base, base);
    }
    proof {
        assert(n % base < base) by (nonlinear_arith)
            requires
                base >= 2,
        ;
    }
    let d: u64 = if n >= base {
        n % base
    } else {
        n
    };
    out.append(digit_text(d));
    proof {
        assert(out@ =~= old(out)@ + numeral(n as nat, base as nat));
    }
}

/// Appends `n` in decimal.
pub fn push_decimal(out: &mut String, n: u64)
    ensures
        final(out)@ == old(out)@ + decimal(n as nat),
{
    push_numeral(out, n, 10);
}

/// Appends `n` in upper-case hexadecimal.
pub fn push_hex(out: &mut String, n: u64)
    ensures
        final(out)@ == old(out)@ + hex(n as nat),
{
    push_numeral(out, n, 16);
}

/// Appends a numeral in `base` with zeros in front of it up to `width` digits.
fn push_padded(out: &mut String, n: u64, base: u64, width: usize)
    requires
        2 <= base <= 16,
    ensures
        final(out)@ == old(out)@ + zero_padded(numeral(n as nat, base as nat), width as nat),
{
    let mut digits = String::new();
    push_numeral(&mut digits, n, base);
    let ghost text = numeral(n as nat, base as nat);
    assert(digits@ =~= text);
    let mut filled: usize = digits.as_str().unicode_len();
    let ghost start = out@;
    let ghost first = filled;
    while filled < width
        invariant
            first == text.len(),
            first <= filled,
            filled <= width || filled == first,
            out@ == start + Seq::new((filled - first) as nat, |i: int| '0'),
        decreases width - filled,
    {
        proof {
            reveal_strlit("0");
        }
        out.append("0");
        filled = filled + 1;
        assert(out@ =~= start + Seq::new((filled - first) as nat, |i: int| '0'));
    }
    out.append(digits.as_str());
    assert(out@ =~= start + zero_padded(text, width as nat));
}

/// Appends `n` in decimal with zeros in front of it up to `width` digits.
pub fn push_padded_decimal(out: &mut String, n: u64, width: usize)
    ensures
        final(out)@ == old(out)@ + zero_padded(decimal(n as nat), width as nat),
{
    push_padded(out, n, 10, width);
}

/// Appends `n` in upper-case hexadecimal with zeros in front of it up to `width` digits.
pub fn push_padded_hex(out: &mut String, n: u64, width: usize)
    ensures
        final(out)@ == old(out)@ + zero_padded(hex(n as nat), width as nat),
{
    push_padded(out, n, 16, width);
}

} // verus!
