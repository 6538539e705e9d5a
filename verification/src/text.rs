//! Numbers as text: hexadecimal with a fixed number of digits, and decimal.

use vstd::arithmetic::div_mod::*;
use vstd::arithmetic::power::*;
use vstd::prelude::*;
use vstd::string::*;

verus! {

/// The lower-case digit of value `d`, for `d` below sixteen.
pub open spec fn digit_char(d: nat) -> char {
    if d < 10 {
        (48 + d) as char
    } else {
        (87 + d) as char
    }
}

/// The last `width` hexadecimal digits of `v`, most significant first.
pub open spec fn hex_digits(v: nat, width: nat) -> Seq<char>
    decreases width,
{
    if width == 0 {
        Seq::empty()
    } else {
        hex_digits(v / 16, (width - 1) as nat).push(digit_char(v % 16))
    }
}

/// A number with the prefix `0x` and exactly `width` digits.
pub open spec fn hex_text(v: nat, width: nat) -> Seq<char> {
    "0x"@ + hex_digits(v, width)
}

/// The decimal digits of `v`, without leading zeros.
pub open spec fn dec_text(v: nat) -> Seq<char>
    decreases v,
{
    if v < 10 {
        seq![digit_char(v)]
    } else {
        dec_text(v / 10).push(digit_char(v % 10))
    }
}

/// `n` blanks.
pub open spec fn blanks(n: nat) -> Seq<char> {
    Seq::new(n, |i: int| ' ')
}

/// `s` with blanks in front, so that it has at least `width` characters.
pub open spec fn right_aligned(s: Seq<char>, width: nat) -> Seq<char> {
    if s.len() < width {
        blanks((width - s.len()) as nat) + s
    } else {
        s
    }
}

fn digit_str(d: u64) -> (s: &'static str)
    requires
        d < 16,
    ensures
        s@ == seq![digit_char(d as nat)],
{
    proof {
        reveal_strlit("0");
        reveal_strlit("1");
        reveal_strlit("2");
        reveal_strlit("3");
        reveal_strlit("4");
        reveal_strlit("5");
        reveal_strlit("6");
        reveal_strlit("7");
        reveal_strlit("8");
        reveal_strlit("9");
        reveal_strlit("a");
        reveal_strlit("b");
        reveal_strlit("c");
        reveal_strlit("d");
        reveal_strlit("e");
        reveal_strlit("f");
    }
    match d {
        0 => "0",
        1 => "1",
        2 => "2",
        3 => "3",
        4 => "4",
        5 => "5",
        6 => "6",
        7 => "7",
        8 => "8",
        9 => "9",
        10 => "a",
        11 => "b",
        12 => "c",
        13 => "d",
        14 => "e",
        _ => "f",
    }
}

fn push_hex_digits(out: &mut String, v: u64, width: usize)
    ensures
        final(out)@ == old(out)@ + hex_digits(v as nat, width as nat),
    decreases width,
{
    if width > 0 {
        push_hex_digits(out, v / 16, width - 1);
        out.append(digit_str(v % 16));
    }
}

/// Appends `v` with the prefix `0x` and exactly `width` digits.
pub fn push_hex(out: &mut String, v: u64, width: usize)
    ensures
        final(out)@ == old(out)@ + hex_text(v as nat, width as nat),
{
    out.append("0x");
    push_hex_digits(out, v, width);
}

/// Appends the decimal digits of `v`.
pub fn push_dec(out: &mut String, v: u64)
    ensures
        final(out)@ == old(out)@ + dec_text(v as nat),
    decreases v,
{
    if v >= 10 {
        push_dec(out, v / 10);
    }
    out.append(digit_str(v % 10));
}

fn dec_len(v: u64) -> (n: u64)
    ensures
        n == dec_text(v as nat).len(),
        n <= v + 1,
    decreases v,
{
    if v < 10 {
        1
    } else {
        dec_len(v / 10) + 1
    }
}

fn push_blanks(out: &mut String, n: usize)
    ensures
        final(out)@ == old(out)@ + blanks(n as nat),
    decreases n,
{
    if n > 0 {
        push_blanks(out, n - 1);
        out.append(" ");
        proof {
            reveal_strlit(" ");
        }
    }
}

/// Appends the decimal digits of `v`, with blanks in front up to `width` characters.
pub fn push_dec_aligned(out: &mut String, v: u64, width: usize)
    ensures
        final(out)@ == old(out)@ + right_aligned(dec_text(v as nat), width as nat),
{
    let n: u64 = dec_len(v);
    if n < width as u64 {
        push_blanks(out, width - n as usize);
    }
    push_dec(out, v);
}

/// The value of a digit written by [`digit_char`].
pub open spec fn digit_value(c: char) -> nat {
    if c as nat <= 57 {
        (c as nat - 48) as nat
    } else {
        (c as nat - 87) as nat
    }
}

/// Reads digits, most significant first, as a number.
pub open spec fn read_digits(s: Seq<char>, base: nat) -> nat
    decreases s.len(),
{
    if s.len() == 0 {
        0
    } else {
        read_digits(s.drop_last(), base) * base + digit_value(s.last())
    }
}

/// A number that fits in `width` hexadecimal digits reads back from them,
/// and they are exactly `width`.
pub proof fn law_hex_reads_back(v: nat, width: nat)
    ensures
        hex_digits(v, width).len() == width,
        v < pow(16, width) ==> read_digits(hex_digits(v, width), 16) == v,
    decreases width,
{
    reveal(pow);
    if width > 0 {
        let w: nat = (width - 1) as nat;
        law_hex_reads_back(v / 16, w);
        assert(hex_digits(v, width).drop_last() =~= hex_digits(v / 16, w));
        assert(pow(16, width) == 16 * pow(16, w));
    }
}

/// A number reads back from its decimal digits.
pub proof fn law_dec_reads_back(v: nat)
    ensures
        read_digits(dec_text(v), 10) == v,
    decreases v,
{
    reveal_with_fuel(read_digits, 2);
    if v >= 10 {
        law_dec_reads_back(v / 10);
        assert(dec_text(v).drop_last() =~= dec_text(v / 10));
    }
}

/// The digits are the ten figures and the first six lower-case letters, in order.
pub proof fn law_digits_in_order(d: nat)
    requires
        d < 16,
    ensures
        digit_char(d) == "0123456789abcdef"@[d as int],
{
    reveal_strlit("0123456789abcdef");
}

/// Of `width` hexadecimal digits, the one at position `i` is the coefficient of sixteen to the
/// power `width - 1 - i`.
pub proof fn law_hex_digit_at(v: nat, width: nat, i: int)
    requires
        0 <= i < width,
    ensures
        hex_digits(v, width).len() == width,
        hex_digits(v, width)[i] == "0123456789abcdef"@[(v as int / pow(
            16,
            (width - 1 - i) as nat,
        )) % 16],
    decreases width,
{
    law_hex_reads_back(v, width);
    if i == width - 1 {
        lemma_pow0(16);
        law_digits_in_order(v % 16);
    } else {
        let w: nat = (width - 1) as nat;
        let e: nat = (w - 1 - i) as nat;
        law_hex_reads_back(v / 16, w);
        law_hex_digit_at(v / 16, w, i);
        lemma_pow_positive(16, e);
        reveal(pow);
        assert(pow(16, e + 1) == 16 * pow(16, e));
        lemma_div_denominator(v as int, 16, pow(16, e));
    }
}

/// A hexadecimal number is `0x` and `width` digits, each of which is the coefficient of the power of
/// sixteen that its distance from the end tells.
pub proof fn law_hex_text_at(v: nat, width: nat, k: int)
    requires
        0 <= k < width,
    ensures
        hex_text(v, width).len() == width + 2,
        hex_text(v, width)[0] == '0',
        hex_text(v, width)[1] == 'x',
        hex_text(v, width)[width + 1 - k] == "0123456789abcdef"@[(v as int / pow(16, k as nat))
            % 16],
{
    reveal_strlit("0x");
    law_hex_digit_at(v, width, width - 1 - k);
}

/// A decimal number has as many digits as it needs and no more: the power of ten of its length is
/// above it, and, from two digits on, the next lower power is not.
pub proof fn law_dec_length(v: nat)
    ensures
        dec_text(v).len() >= 1,
        v < pow(10, dec_text(v).len()),
        dec_text(v).len() > 1 ==> pow(10, (dec_text(v).len() - 1) as nat) <= v,
    decreases v,
{
    reveal(pow);
    lemma_pow0(10);
    lemma_pow1(10);
    if v >= 10 {
        law_dec_length(v / 10);
        let n: nat = dec_text(v / 10).len();
        assert(dec_text(v).len() == n + 1);
        assert(pow(10, n + 1) == 10 * pow(10, n));
        if n > 1 {
            assert(pow(10, n) == 10 * pow(10, (n - 1) as nat));
        }
    }
}

/// The decimal digit at distance `k` from the end is the coefficient of ten to the power `k`.
pub proof fn law_dec_digit_at(v: nat, k: int)
    requires
        0 <= k < dec_text(v).len(),
    ensures
        dec_text(v)[dec_text(v).len() - 1 - k] == "0123456789"@[(v as int / pow(10, k as nat))
            % 10],
    decreases v,
{
    reveal_strlit("0123456789");
    if k == 0 {
        lemma_pow0(10);
    } else {
        let e: nat = (k - 1) as nat;
        law_dec_digit_at(v / 10, k - 1);
        lemma_pow_positive(10, e);
        reveal(pow);
        assert(pow(10, e + 1) == 10 * pow(10, e));
        lemma_div_denominator(v as int, 10, pow(10, e));
    }
}

/// Right alignment puts blanks in front of the text, just enough to reach the width, and leaves the
/// text as it is.
pub proof fn law_alignment(s: Seq<char>, width: nat)
    ensures
        right_aligned(s, width).len() == if s.len() < width {
            width
        } else {
            s.len()
        },
        right_aligned(s, width).skip(right_aligned(s, width).len() - s.len()) == s,
        forall|i: int|
            0 <= i < right_aligned(s, width).len() - s.len() ==> #[trigger] right_aligned(
                s,
                width,
            )[i] == ' ',
{
}

} // verus!
