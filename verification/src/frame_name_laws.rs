//! What the frame file names are, independently of how they are built:
//! `frame_`, then at least six decimal digits that denote the frame index
//! (with no leading zero beyond six digits), then `.png`; so distinct frames
//! are written to distinct files.
use crate::frame_name::{
    decimal_digits, digit_char, frame_file_name_spec, zero_padded, FRAME_NUMBER_WIDTH,
};
use vstd::prelude::*;

verus! {

/// The value of a decimal digit character.
pub open spec fn digit_value(c: char) -> nat {
    if c == '1' {
        1
    } else if c == '2' {
        2
    } else if c == '3' {
        3
    } else if c == '4' {
        4
    } else if c == '5' {
        5
    } else if c == '6' {
        6
    } else if c == '7' {
        7
    } else if c == '8' {
        8
    } else if c == '9' {
        9
    } else {
        0
    }
}

/// The number that a string of decimal digits denotes.
pub open spec fn decimal_value(digits: Seq<char>) -> nat
    decreases digits.len(),
{
    if digits.len() == 0 {
        0
    } else {
        decimal_value(digits.drop_last()) * 10 + digit_value(digits.last())
    }
}

proof fn lemma_decimal_digits_value(n: nat)
    ensures
        decimal_value(decimal_digits(n)) == n,
    decreases n,
{
    if n >= 10 {
        lemma_decimal_digits_value(n / 10);
        let d = decimal_digits(n);
        assert(d.drop_last() =~= decimal_digits(n / 10));
        assert(d.last() == digit_char(n % 10));
        assert(digit_value(digit_char(n % 10)) == n % 10);
        assert((n / 10) * 10 + n % 10 == n) by (nonlinear_arith);
    } else {
        let d = decimal_digits(n);
        assert(d.drop_last() =~= Seq::<char>::empty());
        assert(decimal_value(d.drop_last()) == 0);
        assert(digit_value(digit_char(n)) == n);
    }
}

proof fn lemma_leading_zeros_value(zeros: nat, digits: Seq<char>)
    ensures
        decimal_value(Seq::new(zeros, |i: int| '0') + digits) == decimal_value(digits),
    decreases digits.len(), zeros,
{
    let z = Seq::new(zeros, |i: int| '0');
    if digits.len() > 0 {
        lemma_leading_zeros_value(zeros, digits.drop_last());
        assert((z + digits).drop_last() =~= z + digits.drop_last());
    } else if zeros > 0 {
        lemma_leading_zeros_value((zeros - 1) as nat, digits);
        assert((z + digits).drop_last() =~= Seq::new((zeros - 1) as nat, |i: int| '0') + digits);
    } else {
        assert(z + digits =~= Seq::<char>::empty());
    }
}

proof fn lemma_zero_padded_value(n: nat, width: nat)
    ensures
        decimal_value(zero_padded(n, width)) == n,
{
    lemma_decimal_digits_value(n);
    let digits = decimal_digits(n);
    if digits.len() < width {
        lemma_leading_zeros_value((width - digits.len()) as nat, digits);
    }
}

/// Two frames with different indices are written to different files: the
/// file name of a frame determines its index.
pub proof fn distinct_frames_have_distinct_file_names(a: u64, b: u64)
    requires
        frame_file_name_spec(a) == frame_file_name_spec(b),
    ensures
        a == b,
{
    let name_a = frame_file_name_spec(a);
    let name_b = frame_file_name_spec(b);
    let pa = zero_padded(a as nat, FRAME_NUMBER_WIDTH as nat);
    let pb = zero_padded(b as nat, FRAME_NUMBER_WIDTH as nat);
    assert(name_a.subrange(6, name_a.len() - 4) =~= pa);
    assert(name_b.subrange(6, name_b.len() - 4) =~= pb);
    assert(pa == pb);
    lemma_zero_padded_value(a as nat, FRAME_NUMBER_WIDTH as nat);
    lemma_zero_padded_value(b as nat, FRAME_NUMBER_WIDTH as nat);
}

/// Whether `c` is one of the characters `0` to `9`.
pub open spec fn is_decimal_digit(c: char) -> bool {
    '0' <= c && c <= '9'
}

/// Ten to the power `k`.
pub open spec fn pow10(k: nat) -> nat
    decreases k,
{
    if k == 0 {
        1
    } else {
        10 * pow10((k - 1) as nat)
    }
}

proof fn lemma_decimal_digits_are_digits(n: nat)
    ensures
        forall|j: int|
            0 <= j < decimal_digits(n).len() ==> is_decimal_digit(#[trigger] decimal_digits(n)[j]),
        decimal_digits(n).len() >= 1,
    decreases n,
{
    if n >= 10 {
        lemma_decimal_digits_are_digits(n / 10);
    }
}

proof fn lemma_decimal_digits_no_leading_zero(n: nat)
    requires
        n >= 1,
    ensures
        decimal_digits(n)[0] != '0',
    decreases n,
{
    if n >= 10 {
        lemma_decimal_digits_no_leading_zero(n / 10);
        lemma_decimal_digits_are_digits(n / 10);
    }
}

proof fn lemma_decimal_digits_short(n: nat, k: nat)
    requires
        k >= 1,
        n < pow10(k),
    ensures
        decimal_digits(n).len() <= k,
    decreases k,
{
    if n >= 10 {
        if k == 1 {
            assert(pow10(1) == 10 * pow10(0));
        } else {
            assert(pow10(k) == 10 * pow10((k - 1) as nat));
            assert(n / 10 < pow10((k - 1) as nat)) by (nonlinear_arith)
                requires
                    n < 10 * pow10((k - 1) as nat),
            ;
            lemma_decimal_digits_short(n / 10, (k - 1) as nat);
        }
    }
}

/// The file name of frame `i` is `frame_`, then a run of at least six decimal
/// digits whose value is `i` and that starts with `0` only when it is exactly
/// six digits long, then `.png`. For indices below a million the run is
/// exactly six digits, so the name is sixteen characters long.
pub proof fn frame_file_name_is_zero_padded_decimal(i: u64)
    ensures
        ({
            let name = frame_file_name_spec(i);
            let digits = name.subrange(6, name.len() - 4);
            &&& name.len() >= 16
            &&& name.subrange(0, 6) == seq!['f', 'r', 'a', 'm', 'e', '_']
            &&& name.subrange(name.len() - 4, name.len() as int) == seq!['.', 'p', 'n', 'g']
            &&& forall|j: int| 0 <= j < digits.len() ==> is_decimal_digit(#[trigger] digits[j])
            &&& decimal_value(digits) == i
            &&& (digits.len() > 6 ==> digits[0] != '0')
            &&& (i < 1000000 ==> name.len() == 16)
        }),
{
    let name = frame_file_name_spec(i);
    let padded = zero_padded(i as nat, FRAME_NUMBER_WIDTH as nat);
    let d = decimal_digits(i as nat);
    assert(name.subrange(6, name.len() - 4) =~= padded);
    assert(name.subrange(0, 6) =~= seq!['f', 'r', 'a', 'm', 'e', '_']);
    assert(name.subrange(name.len() - 4, name.len() as int) =~= seq!['.', 'p', 'n', 'g']);
    lemma_decimal_digits_are_digits(i as nat);
    lemma_zero_padded_value(i as nat, FRAME_NUMBER_WIDTH as nat);
    if d.len() < 6 {
        let zeros = Seq::new((6 - d.len()) as nat, |k: int| '0');
        assert(padded == zeros + d);
        assert forall|j: int| 0 <= j < padded.len() implies is_decimal_digit(#[trigger] padded[j]) by {
            if j >= zeros.len() {
                assert(padded[j] == d[j - zeros.len()]);
            }
        }
    } else {
        assert(padded == d);
        if d.len() > 6 {
            if i < 10 {
            } else {
                lemma_decimal_digits_no_leading_zero(i as nat);
            }
        }
    }
    if i < 1000000 {
        assert(pow10(6) == 1000000) by {
            reveal_with_fuel(pow10, 7);
        }
        lemma_decimal_digits_short(i as nat, 6);
    }
}

} // verus!
