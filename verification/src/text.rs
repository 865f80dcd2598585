//! Numbers as text, as the diagnostics print them.

use vstd::prelude::*;
use vstd::string::*;

verus! {

/// The character of a digit below 16: `0` to `9`, then `a` to `f`.
pub open spec fn digit_char(digit: int) -> char {
    if digit == 0 {
        '0'
    } else if digit == 1 {
        '1'
    } else if digit == 2 {
        '2'
    } else if digit == 3 {
        '3'
    } else if digit == 4 {
        '4'
    } else if digit == 5 {
        '5'
    } else if digit == 6 {
        '6'
    } else if digit == 7 {
        '7'
    } else if digit == 8 {
        '8'
    } else if digit == 9 {
        '9'
    } else if digit == 10 {
        'a'
    } else if digit == 11 {
        'b'
    } else if digit == 12 {
        'c'
    } else if digit == 13 {
        'd'
    } else if digit == 14 {
        'e'
    } else {
        'f'
    }
}

/// A number in decimal, without leading zeros.
pub open spec fn decimal_spec(n: nat) -> Seq<char>
    decreases n,
{
    if n < 10 {
        seq![digit_char(n as int)]
    } else {
        decimal_spec(n / 10).push(digit_char((n % 10) as int))
    }
}

/// The last `width` hexadecimal digits of a number, most significant first.
pub open spec fn hex_digits(n: nat, width: nat) -> Seq<char>
    decreases width,
{
    if width == 0 {
        Seq::empty()
    } else {
        hex_digits(n / 16, (width - 1) as nat).push(digit_char((n % 16) as int))
    }
}

/// How many hexadecimal digits a 32-bit number is printed with: all that it
/// needs, and never fewer than six.
pub open spec fn hex_width(n: u32) -> nat {
    if n >= 0x10000000 {
        8
    } else if n >= 0x1000000 {
        7
    } else {
        6
    }
}

/// A 32-bit number in hexadecimal: the prefix `0x`, then lower-case digits,
/// padded with zeros to a width of eight characters, prefix included.
pub open spec fn hex_spec(n: u32) -> Seq<char> {
    seq!['0', 'x'] + hex_digits(n as nat, hex_width(n))
}

/// The text of one digit.
fn digit_str(digit: u32) -> (text: &'static str)
    requires
        digit < 16,
    ensures
        text@ == seq![digit_char(digit as int)],
{
    proof {
        reveal_strlit("0");
        reveal_strlit("1");
        reveal_strlit("2");
        reveal_strlit("3");
        reveal_strlit("4");
        reveal_strlit("5");
        reveal_strlit("6");
        reveal_strlit("7");
        reveal_strlit("8");
        reveal_strlit("9");
        reveal_strlit("a");
        reveal_strlit("b");
        reveal_strlit("c");
        reveal_strlit("d");
        reveal_strlit("e");
        reveal_strlit("f");
    }
    let text = match digit {
        0 => "0",
        1 => "1",
        2 => "2",
        3 => "3",
        4 => "4",
        5 => "5",
        6 => "6",
        7 => "7",
        8 => "8",
        9 => "9",
        10 => "a",
        11 => "b",
        12 => "c",
        13 => "d",
        14 => "e",
        _ => "f",
    };
    assert(text@ =~= seq![digit_char(digit as int)]);
    text
}

/// Appends a number in decimal.
pub fn push_decimal(text: &mut String, n: u32)
    ensures
        final(text)@ == old(text)@ + decimal_spec(n as nat),
    decreases n,
{
    if n >= 10 {
        push_decimal(text, n / 10);
    }
    text.append(digit_str(n % 10));
    assert(final(text)@ =~= old(text)@ + decimal_spec(n as nat));
}

/// Appends the last `width` hexadecimal digits of a number.
fn push_hex_digits(text: &mut String, n: u32, width: u32)
    ensures
        final(text)@ == old(text)@ + hex_digits(n as nat, width as nat),
    decreases width,
{
    if width > 0 {
        push_hex_digits(text, n / 16, width - 1);
        text.append(digit_str(n % 16));
    }
    assert(final(text)@ =~= old(text)@ + hex_digits(n as nat, width as nat));
}

/// Appends a 32-bit number in hexadecimal, with its prefix and padded to
/// eight characters.
pub fn push_hex(text: &mut String, n: u32)
    ensures
        final(text)@ == old(text)@ + hex_spec(n),
{
    proof {
        reveal_strlit("0x");
    }
    let width: u32 = if n >= 0x10000000 {
        8
    } else if n >= 0x1000000 {
        7
    } else {
        6
    };
    text.append("0x");
    push_hex_digits(text, n, width);
    assert(final(text)@ =~= old(text)@ + hex_spec(n));
}

/// A number in decimal.
pub fn decimal(n: u32) -> (text: String)
    ensures
        text@ == decimal_spec(n as nat),
{
    let mut text = String::new();
    push_decimal(&mut text, n);
    assert(text@ =~= decimal_spec(n as nat));
    text
}

/// A 32-bit number in hexadecimal, with its prefix and padded to eight
/// characters.
pub fn hex(n: u32) -> (text: String)
    ensures
        text@ == hex_spec(n),
{
    let mut text = String::new();
    push_hex(&mut text, n);
    assert(text@ =~= hex_spec(n));
    text
}

/// The digit that a character stands for; 16 for a character that is no
/// digit.
pub open spec fn digit_value(c: char) -> nat {
    if c == '0' {
        0
    } else if c == '1' {
        1
    } else if c == '2' {
        2
    } else if c == '3' {
        3
    } else if c == '4' {
        4
    } else if c == '5' {
        5
    } else if c == '6' {
        6
    } else if c == '7' {
        7
    } else if c == '8' {
        8
    } else if c == '9' {
        9
    } else if c == 'a' {
        10
    } else if c == 'b' {
        11
    } else if c == 'c' {
        12
    } else if c == 'd' {
        13
    } else if c == 'e' {
        14
    } else if c == 'f' {
        15
    } else {
        16
    }
}

/// The number that a text of digits denotes in the given base.
pub open spec fn number_of(digits: Seq<char>, base: nat) -> nat
    decreases digits.len(),
{
    if digits.len() == 0 {
        0
    } else {
        number_of(digits.drop_last(), base) * base + digit_value(digits.last())
    }
}

/// Sixteen to the power of `width`.
pub open spec fn sixteen_to(width: nat) -> nat
    decreases width,
{
    if width == 0 {
        1
    } else {
        16 * sixteen_to((width - 1) as nat)
    }
}

/// The decimal text of a number denotes that number: nothing of the value
/// is lost in printing it.
pub proof fn lemma_decimal_reads_back(n: nat)
    ensures
        number_of(decimal_spec(n), 10) == n,
        decimal_spec(n).len() >= 1,
    decreases n,
{
    if n < 10 {
        let text = decimal_spec(n);
        assert(text.drop_last() =~= Seq::<char>::empty());
        assert(number_of(text.drop_last(), 10) == 0);
    } else {
        lemma_decimal_reads_back(n / 10);
        let text = decimal_spec(n);
        assert(text.drop_last() =~= decimal_spec(n / 10));
    }
}

/// Hexadecimal digits that are wide enough for a number denote that number.
pub proof fn lemma_hex_digits_read_back(n: nat, width: nat)
    requires
        n < sixteen_to(width),
    ensures
        number_of(hex_digits(n, width), 16) == n,
        hex_digits(n, width).len() == width,
    decreases width,
{
    if width > 0 {
        lemma_hex_digits_read_back(n / 16, (width - 1) as nat);
        let text = hex_digits(n, width);
        assert(text.drop_last() =~= hex_digits(n / 16, (width - 1) as nat));
    }
}

/// The hexadecimal text of a 32-bit number is the prefix `0x` and digits
/// that denote the number; it is at least eight characters long.
pub proof fn lemma_hex_reads_back(n: u32)
    ensures
        hex_spec(n).len() == 2 + hex_width(n),
        hex_spec(n).len() >= 8,
        hex_spec(n).take(2) == seq!['0', 'x'],
        number_of(hex_spec(n).skip(2), 16) == n,
{
    reveal_with_fuel(sixteen_to, 9);
    lemma_hex_digits_read_back(n as nat, hex_width(n));
    assert(hex_spec(n).skip(2) =~= hex_digits(n as nat, hex_width(n)));
    assert(hex_spec(n).take(2) =~= seq!['0', 'x']);
}

/// Different numbers have different texts, in decimal and in hexadecimal.
pub proof fn lemma_texts_name_one_number(a: u32, b: u32)
    ensures
        decimal_spec(a as nat) == decimal_spec(b as nat) <==> a == b,
        hex_spec(a) == hex_spec(b) <==> a == b,
{
    lemma_decimal_reads_back(a as nat);
    lemma_decimal_reads_back(b as nat);
    lemma_hex_reads_back(a);
    lemma_hex_reads_back(b);
}

} // verus!
