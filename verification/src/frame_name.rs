//! File names of the exported frames: `frame_` followed by the frame index in
//! decimal, zero-padded to at least six digits, then `.png`.
use crate::frame_name_laws::{decimal_value, frame_file_name_is_zero_padded_decimal, is_decimal_digit};
use vstd::prelude::*;

verus! {

/// The least number of digits in a frame file name.
pub const FRAME_NUMBER_WIDTH: usize = 6;

/// The decimal digit character for `d < 10`.
pub open spec fn digit_char(d: nat) -> char {
    if d == 0 {
        '0'
    } else if d == 1 {
        '1'
    } else if d == 2 {
        '2'
    } else if d == 3 {
        '3'
    } else if d == 4 {
        '4'
    } else if d == 5 {
        '5'
    } else if d == 6 {
        '6'
    } else if d == 7 {
        '7'
    } else if d == 8 {
        '8'
    } else {
        '9'
    }
}

/// The decimal representation of `n`, most significant digit first, without
/// leading zeros ("0" for zero).
pub open spec fn decimal_digits(n: nat) -> Seq<char>
    decreases n,
{
    if n < 10 {
        seq![digit_char(n)]
    } else {
        decimal_digits(n / 10).push(digit_char(n % 10))
    }
}

/// `n` in decimal, with zeros in front up to `width` digits.
pub open spec fn zero_padded(n: nat, width: nat) -> Seq<char> {
    let digits = decimal_digits(n);
    if digits.len() >= width {
        digits
    } else {
        Seq::new((width - digits.len()) as nat, |i: int| '0') + digits
    }
}

/// The file name of frame `frame_index`, as `format!("frame_{:06}.png")` writes it.
pub open spec fn frame_file_name_spec(frame_index: u64) -> Seq<char> {
    seq!['f', 'r', 'a', 'm', 'e', '_'] + zero_padded(frame_index as nat, FRAME_NUMBER_WIDTH as nat)
        + seq!['.', 'p', 'n', 'g']
}

/// `String::push`: appends `c` to the end of `s`.
#[verifier::external_body]
fn push_char(s: &mut String, c: char)
    ensures
        final(s)@ == old(s)@.push(c),
{
    s.push(c);
}

fn digit_to_char(d: u64) -> (c: char)
    requires
        d < 10,
    ensures
        c == digit_char(d as nat),
{
    if d == 0 {
        '0'
    } else if d == 1 {
        '1'
    } else if d == 2 {
        '2'
    } else if d == 3 {
        '3'
    } else if d == 4 {
        '4'
    } else if d == 5 {
        '5'
    } else if d == 6 {
        '6'
    } else if d == 7 {
        '7'
    } else if d == 8 {
        '8'
    } else {
        '9'
    }
}

/// The decimal digits of `n`, most significant first.
pub fn decimal_digits_of(n: u64) -> (digits: Vec<char>)
    ensures
        digits@ == decimal_digits(n as nat),
{
    let mut rest: u64 = n;
    let mut tail: Vec<char> = Vec::new();
    while rest >= 10
        invariant
            decimal_digits(n as nat) == decimal_digits(rest as nat) + tail@,
        decreases rest,
    {
        let d = digit_to_char(rest % 10);
        tail.insert(0, d);
        proof {
            assert(decimal_digits(rest as nat) == decimal_digits((rest / 10) as nat).push(d));
        }
        rest = rest / 10;
    }
    let d = digit_to_char(rest);
    tail.insert(0, d);
    proof {
        assert(decimal_digits(n as nat) =~= tail@);
    }
    tail
}

/// The file name of frame `frame_index`: `frame_`, the index zero-padded to
/// six digits, `.png` (`frame_000042.png`).
pub fn frame_file_name(frame_index: u64) -> (name: String)
    ensures
        name@ == frame_file_name_spec(frame_index),
        name@.len() >= 16,
        name@.subrange(0, 6) == seq!['f', 'r', 'a', 'm', 'e', '_'],
        name@.subrange(name@.len() - 4, name@.len() as int) == seq!['.', 'p', 'n', 'g'],
        forall|j: int|
            6 <= j < name@.len() - 4 ==> is_decimal_digit(#[trigger] name@[j]),
        decimal_value(name@.subrange(6, name@.len() - 4)) == frame_index,
        name@.len() > 16 ==> name@[6] != '0',
        frame_index < 1000000 ==> name@.len() == 16,
{
    proof {
        frame_file_name_is_zero_padded_decimal(frame_index);
        let n = frame_file_name_spec(frame_index);
        assert forall|j: int| 6 <= j < n.len() - 4 implies is_decimal_digit(#[trigger] n[j]) by {
            assert(n[j] == n.subrange(6, n.len() - 4)[j - 6]);
        }
        assert(n.len() > 16 ==> n[6] == n.subrange(6, n.len() - 4)[0]);
    }
    let digits = decimal_digits_of(frame_index);
    let mut name = String::new();
    push_char(&mut name, 'f');
    push_char(&mut name, 'r');
    push_char(&mut name, 'a');
    push_char(&mut name, 'm');
    push_char(&mut name, 'e');
    push_char(&mut name, '_');
    let ghost prefix = name@;
    assert(prefix =~= seq!['f', 'r', 'a', 'm', 'e', '_']);
    let mut width = digits.len();
    while width < FRAME_NUMBER_WIDTH
        invariant
            digits@ == decimal_digits(frame_index as nat),
            digits.len() <= width <= FRAME_NUMBER_WIDTH || (digits.len() == width
                && width >= FRAME_NUMBER_WIDTH),
            name@ =~= prefix + Seq::new((width - digits.len()) as nat, |i: int| '0'),
        decreases FRAME_NUMBER_WIDTH - width,
    {
        push_char(&mut name, '0');
        width = width + 1;
    }
    let ghost padded = name@;
    let mut i: usize = 0;
    while i < digits.len()
        invariant
            i <= digits.len(),
            name@ =~= padded + digits@.subrange(0, i as int),
        decreases digits.len() - i,
    {
        push_char(&mut name, digits[i]);
        i = i + 1;
    }
    push_char(&mut name, '.');
    push_char(&mut name, 'p');
    push_char(&mut name, 'n');
    push_char(&mut name, 'g');
    proof {
        assert(digits@.subrange(0, digits.len() as int) =~= digits@);
        assert(padded + digits@ =~= prefix + zero_padded(frame_index as nat, FRAME_NUMBER_WIDTH as nat));
    }
    assert(name@ =~= frame_file_name_spec(frame_index));
    name
}

} // verus!
