//! Character-level vocabulary shared by the rest of the crate: hexadecimal
//! digits, their positional value, and comparison of ASCII text without regard
//! to letter case.

use vstd::prelude::*;

verus! {

/// The value of `c` as a hexadecimal digit, in either letter case.
pub open spec fn hex_digit_value(c: char) -> Option<nat> {
    let n = c as u32;
    if '0' as u32 <= n <= '9' as u32 {
        Some((n - '0' as u32) as nat)
    } else if 'a' as u32 <= n <= 'f' as u32 {
        Some((n - 'a' as u32 + 10) as nat)
    } else if 'A' as u32 <= n <= 'F' as u32 {
        Some((n - 'A' as u32 + 10) as nat)
    } else {
        None
    }
}

/// The lower-case hexadecimal digit that stands for `d`, for `d` below sixteen.
pub open spec fn hex_char(d: nat) -> char {
    if d == 0 {
        '0'
    } else if d == 1 {
        '1'
    } else if d == 2 {
        '2'
    } else if d == 3 {
        '3'
    } else if d == 4 {
        '4'
    } else if d == 5 {
        '5'
    } else if d == 6 {
        '6'
    } else if d == 7 {
        '7'
    } else if d == 8 {
        '8'
    } else if d == 9 {
        '9'
    } else if d == 10 {
        'a'
    } else if d == 11 {
        'b'
    } else if d == 12 {
        'c'
    } else if d == 13 {
        'd'
    } else if d == 14 {
        'e'
    } else {
        'f'
    }
}

/// The number that a run of hexadecimal digits writes, most significant digit
/// first; `None` as soon as one character is no hexadecimal digit.
pub open spec fn hex_value(digits: Seq<char>) -> Option<nat>
    decreases digits.len(),
{
    if digits.len() == 0 {
        Some(0)
    } else {
        match (hex_value(digits.drop_last()), hex_digit_value(digits.last())) {
            (Some(high), Some(low)) => Some(high * 16 + low),
            _ => None,
        }
    }
}

/// The `width` least significant hexadecimal digits of `value`, most
/// significant first, in lower case.
pub open spec fn hex_digits(value: nat, width: nat) -> Seq<char>
    decreases width,
{
    if width == 0 {
        Seq::empty()
    } else {
        hex_digits(value / 16, (width - 1) as nat).push(hex_char(value % 16))
    }
}

/// Sixteen to the power `width`: the first number that `width` hexadecimal
/// digits cannot write.
pub open spec fn hex_span(width: nat) -> nat
    decreases width,
{
    if width == 0 {
        1
    } else {
        16 * hex_span((width - 1) as nat)
    }
}

/// `hex_digits` gives exactly `width` characters.
pub proof fn lemma_hex_digits_len(value: nat, width: nat)
    ensures
        hex_digits(value, width).len() == width,
    decreases width,
{
    if width > 0 {
        lemma_hex_digits_len(value / 16, (width - 1) as nat);
    }
}

/// Reading back the digits of a number that fits in `width` digits gives the
/// number.
pub proof fn lemma_hex_round_trip(value: nat, width: nat)
    requires
        value < hex_span(width),
    ensures
        hex_value(hex_digits(value, width)) == Some(value),
    decreases width,
{
    if width > 0 {
        let shorter = hex_digits(value / 16, (width - 1) as nat);
        let low = hex_char(value % 16);
        lemma_hex_round_trip(value / 16, (width - 1) as nat);
        assert(hex_digits(value, width).drop_last() =~= shorter);
        assert(hex_digits(value, width).last() == low);
        assert(hex_digit_value(low) == Some(value % 16));
    }
}

/// Thirty-two hexadecimal digits span exactly the 128-bit numbers.
pub proof fn lemma_hex_span_128()
    ensures
        hex_span(32) == 0x1_0000_0000_0000_0000_0000_0000_0000_0000,
{
    assert(hex_span(0) == 1);
    assert(hex_span(4) == 0x1_0000) by {
        reveal_with_fuel(hex_span, 5);
    }
    assert(hex_span(8) == 0x1_0000_0000) by {
        lemma_hex_span_add(4, 4);
    }
    assert(hex_span(16) == 0x1_0000_0000_0000_0000) by {
        lemma_hex_span_add(8, 8);
    }
    assert(hex_span(32) == 0x1_0000_0000_0000_0000_0000_0000_0000_0000) by {
        lemma_hex_span_add(16, 16);
    }
}

/// Spans multiply as widths add.
pub proof fn lemma_hex_span_add(a: nat, b: nat)
    ensures
        hex_span(a + b) == hex_span(a) * hex_span(b),
    decreases b,
{
    if b == 0 {
        assert(hex_span(a) * 1 == hex_span(a));
    } else {
        lemma_hex_span_add(a, (b - 1) as nat);
        assert(hex_span(a + b) == 16 * hex_span((a + b - 1) as nat));
        assert(16 * (hex_span(a) * hex_span((b - 1) as nat)) == hex_span(a) * (16 * hex_span(
            (b - 1) as nat,
        ))) by (nonlinear_arith);
    }
}

/// Whether `c` is one of the fifty-two ASCII letters.
pub open spec fn is_ascii_letter(c: char) -> bool {
    let n = c as u32;
    ('a' as u32 <= n <= 'z' as u32) || ('A' as u32 <= n <= 'Z' as u32)
}

/// Whether two characters are the same, or the same ASCII letter in
/// different case.
pub open spec fn same_ignoring_case(a: char, b: char) -> bool {
    a == b || (is_ascii_letter(a) && is_ascii_letter(b) && (a as u32 == b as u32 + 32 || b as u32
        == a as u32 + 32))
}

/// Whether two texts are equal when ASCII letters are compared without regard
/// to case.
pub open spec fn eq_ignoring_case(a: Seq<char>, b: Seq<char>) -> bool {
    a.len() == b.len() && forall|i: int|
        0 <= i < a.len() ==> same_ignoring_case(#[trigger] a[i], b[i])
}

fn letter(c: char) -> (r: bool)
    ensures
        r == is_ascii_letter(c),
{
    let n: u32 = c as u32;
    ('a' as u32 <= n && n <= 'z' as u32) || ('A' as u32 <= n && n <= 'Z' as u32)
}

fn same_char_ignoring_case(a: char, b: char) -> (r: bool)
    ensures
        r == same_ignoring_case(a, b),
{
    let x: u32 = a as u32;
    let y: u32 = b as u32;
    x == y || (letter(a) && letter(b) && (x == y + 32 || y == x + 32))
}

/// Compares two texts, treating an ASCII letter and its other case as equal.
pub fn matches_ignoring_case(a: &str, b: &str) -> (r: bool)
    ensures
        r == eq_ignoring_case(a@, b@),
{
    let n: usize = a.unicode_len();
    if n != b.unicode_len() {
        return false;
    }
    let mut i: usize = 0;
    while i < n
        invariant
            i <= n,
            n == a@.len(),
            n == b@.len(),
            forall|j: int| 0 <= j < i ==> same_ignoring_case(#[trigger] a@[j], b@[j]),
        decreases n - i,
    {
        if !same_char_ignoring_case(a.get_char(i), b.get_char(i)) {
            return false;
        }
        i += 1;
    }
    true
}

} // verus!
