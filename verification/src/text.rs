//! Turning numbers into characters for the score bar and the menu: plain
//! decimal digits, zero-padding to a fixed width, and centring in a fixed
//! width with any odd space going to the right.

use vstd::prelude::*;

verus! {

/// The digit character for one decimal digit.
pub open spec fn spec_digit_char(d: int) -> char
    recommends
        0 <= d <= 9,
{
    ((0x30 + d) as u8) as char
}

/// The decimal digits of `n`, most significant first, with no leading
/// zeroes (a single `'0'` for zero).
pub open spec fn spec_decimal(n: int) -> Seq<char>
    recommends
        n >= 0,
    decreases n,
{
    if n < 10 {
        seq![spec_digit_char(n)]
    } else {
        spec_decimal(n / 10).push(spec_digit_char(n % 10))
    }
}

/// `k` copies of the character `c`.
pub open spec fn spec_repeat(c: char, k: int) -> Seq<char> {
    Seq::new(if k >= 0 {
        k as nat
    } else {
        0
    }, |i: int| c)
}

/// `s` padded on the left with `'0'` up to `width`; text already that wide
/// is unchanged.
pub open spec fn spec_zero_pad(s: Seq<char>, width: int) -> Seq<char> {
    if s.len() >= width {
        s
    } else {
        spec_repeat('0', width - s.len()) + s
    }
}

/// `s` centred in `width` blanks, the extra blank of an odd gap on the
/// right; text already that wide is unchanged.
pub open spec fn spec_center(s: Seq<char>, width: int) -> Seq<char> {
    if s.len() >= width {
        s
    } else {
        let pad_left = (width - s.len()) / 2;
        spec_repeat(' ', pad_left) + s + spec_repeat(' ', width - s.len() - pad_left)
    }
}

/// The characters of `s`, one cell each.
pub fn str_chars(s: &str) -> (v: Vec<char>)
    ensures
        v@ == s@,
{
    let n = s.unicode_len();
    let mut v: Vec<char> = Vec::new();
    let mut i: usize = 0;
    while i < n
        invariant
            i <= n,
            n == s@.len(),
            v@ == s@.take(i as int),
        decreases n - i,
    {
        v.push(s.get_char(i));
        proof {
            assert(v@ =~= s@.take(i + 1));
        }
        i = i + 1;
    }
    proof {
        assert(s@.take(n as int) =~= s@);
    }
    v
}

/// The digit character for `d`.
fn digit_char(d: u64) -> (c: char)
    requires
        d <= 9,
    ensures
        c == spec_digit_char(d as int),
{
    (0x30 + (d as u8)) as char
}

/// The decimal digits of `n`, most significant first.
pub fn decimal_chars(n: u64) -> (v: Vec<char>)
    ensures
        v@ == spec_decimal(n as int),
    decreases n,
{
    if n < 10 {
        let mut v: Vec<char> = Vec::new();
        v.push(digit_char(n));
        proof {
            assert(v@ =~= spec_decimal(n as int));
        }
        v
    } else {
        let mut v = decimal_chars(n / 10);
        v.push(digit_char(n % 10));
        v
    }
}

/// `k` copies of the character `c`.
pub fn repeat_char(c: char, k: usize) -> (v: Vec<char>)
    ensures
        v@ == spec_repeat(c, k as int),
{
    let mut v: Vec<char> = Vec::new();
    let mut i: usize = 0;
    while i < k
        invariant
            i <= k,
            v@ =~= spec_repeat(c, i as int),
        decreases k - i,
    {
        v.push(c);
        proof {
            assert(v@ =~= spec_repeat(c, i + 1));
        }
        i = i + 1;
    }
    proof {
        assert(v@ =~= spec_repeat(c, k as int));
    }
    v
}

/// `s` padded on the left with `'0'` up to `width`.
pub fn zero_pad(s: Vec<char>, width: usize) -> (v: Vec<char>)
    ensures
        v@ == spec_zero_pad(s@, width as int),
{
    if s.len() >= width {
        s
    } else {
        let mut v = repeat_char('0', width - s.len());
        let mut rest = s;
        v.append(&mut rest);
        v
    }
}

/// `s` centred in `width` blanks, the extra blank of an odd gap on the
/// right.
pub fn center(s: Vec<char>, width: usize) -> (v: Vec<char>)
    ensures
        v@ == spec_center(s@, width as int),
{
    if s.len() >= width {
        s
    } else {
        let pad_left = (width - s.len()) / 2;
        let pad_right = width - s.len() - pad_left;
        let mut v = repeat_char(' ', pad_left);
        let mut rest = s;
        v.append(&mut rest);
        let mut right = repeat_char(' ', pad_right);
        v.append(&mut right);
        v
    }
}

} // verus!
