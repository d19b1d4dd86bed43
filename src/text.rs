//! Characters and numbers written as text.
use vstd::prelude::*;

verus! {

/// Levels are written to thousandths: `FRACTION_SCALE` parts of one.
pub const FRACTION_SCALE: u128 = 1000;

/// `n` spaces.
pub open spec fn spaces(n: nat) -> Seq<char> {
    Seq::new(n, |_i: int| ' ')
}

/// The character of decimal digit `d`.
pub open spec fn digit_char(d: nat) -> char {
    if d == 0 {
        '0'
    } else if d == 1 {
        '1'
    } else if d == 2 {
        '2'
    } else if d == 3 {
        '3'
    } else if d == 4 {
        '4'
    } else if d == 5 {
        '5'
    } else if d == 6 {
        '6'
    } else if d == 7 {
        '7'
    } else if d == 8 {
        '8'
    } else {
        '9'
    }
}

/// The decimal digits of `n`, most significant first, without leading zeros.
pub open spec fn digits(n: nat) -> Seq<char>
    decreases n,
{
    if n < 10 {
        seq![digit_char(n)]
    } else {
        digits(n / 10) + seq![digit_char(n % 10)]
    }
}

/// The fraction part of a number from its thousandths `f` (below 1000):
/// nothing when `f` is zero, else a point and the digits without trailing zeros.
pub open spec fn fraction_text(f: nat) -> Seq<char> {
    if f == 0 {
        seq![]
    } else if f % 100 == 0 {
        seq!['.', digit_char(f / 100)]
    } else if f % 10 == 0 {
        seq!['.', digit_char(f / 100), digit_char(f / 10 % 10)]
    } else {
        seq!['.', digit_char(f / 100), digit_char(f / 10 % 10), digit_char(f % 10)]
    }
}

pub open spec fn abs(n: int) -> nat {
    if n < 0 {
        (-n) as nat
    } else {
        n as nat
    }
}

/// `n / d` written in decimal, cut (toward zero) after the thousandths; a
/// minus sign only where the written magnitude is not zero.
pub open spec fn ratio_text(n: int, d: nat) -> Seq<char> {
    let scaled = abs(n) * 1000 / d;
    let sign = if n < 0 && scaled > 0 {
        seq!['-']
    } else {
        seq![]
    };
    sign + digits(scaled / 1000) + fraction_text(scaled % 1000)
}

fn digit(d: u128) -> (c: char)
    requires
        d < 10,
    ensures
        c == digit_char(d as nat),
{
    if d == 0 {
        '0'
    } else if d == 1 {
        '1'
    } else if d == 2 {
        '2'
    } else if d == 3 {
        '3'
    } else if d == 4 {
        '4'
    } else if d == 5 {
        '5'
    } else if d == 6 {
        '6'
    } else if d == 7 {
        '7'
    } else if d == 8 {
        '8'
    } else {
        '9'
    }
}

/// The decimal digits of `n`.
pub fn digits_of(n: u128) -> (r: Vec<char>)
    ensures
        r@ == digits(n as nat),
    decreases n,
{
    if n < 10 {
        let mut v: Vec<char> = Vec::new();
        v.push(digit(n));
        v
    } else {
        let mut v = digits_of(n / 10);
        v.push(digit(n % 10));
        v
    }
}

/// `n / d` written as `ratio_text` says.
pub fn format_ratio(n: i128, d: usize) -> (r: Vec<char>)
    requires
        d > 0,
        -0x10_0000_0000_0000_0000_0000_0000 < n < 0x10_0000_0000_0000_0000_0000_0000,
    ensures
        r@ == ratio_text(n as int, d as nat),
{
    let a: u128 = if n < 0 {
        (0 - n) as u128
    } else {
        n as u128
    };
    assert(a as nat == abs(n as int));
    let scaled: u128 = a * FRACTION_SCALE / (d as u128);
    let mut out: Vec<char> = Vec::new();
    if n < 0 && scaled > 0 {
        out.push('-');
    }
    let whole = digits_of(scaled / FRACTION_SCALE);
    let mut i: usize = 0;
    let ghost start = out@;
    while i < whole.len()
        invariant
            i <= whole@.len(),
            out@ == start + whole@.take(i as int),
        decreases whole@.len() - i,
    {
        out.push(whole[i]);
        i = i + 1;
        assert(whole@.take(i as int) == whole@.take(i - 1) + seq![whole@[i - 1]]);
    }
    assert(whole@.take(whole@.len() as int) == whole@);
    let f = scaled % FRACTION_SCALE;
    if f != 0 {
        out.push('.');
        out.push(digit(f / 100));
        if f % 100 != 0 {
            out.push(digit(f / 10 % 10));
            if f % 10 != 0 {
                out.push(digit(f % 10));
            }
        }
    }
    proof {
        let sign: Seq<char> = if n < 0 && scaled > 0 { seq!['-'] } else { seq![] };
        assert(start == sign);
    }
    assert(out@ =~= ratio_text(n as int, d as nat));
    out
}

/// The characters of `s`, in order.
pub fn chars_of(s: &str) -> (r: Vec<char>)
    ensures
        r@ == s@,
{
    let n = s.unicode_len();
    let mut out: Vec<char> = Vec::new();
    let mut i: usize = 0;
    while i < n
        invariant
            n == s@.len(),
            i <= n,
            out@ == s@.take(i as int),
        decreases n - i,
    {
        out.push(s.get_char(i));
        i = i + 1;
        assert(s@.take(i as int) == s@.take(i - 1) + seq![s@[i - 1]]);
    }
    assert(s@.take(n as int) == s@);
    out
}

/// Relies on `String`'s `FromIterator<&char>` (through `Iterator::collect`):
/// the string holds the given characters, in order.
#[verifier::external_body]
pub(crate) fn text_of(chars: &Vec<char>) -> (r: String)
    ensures
        r@ == chars@,
{
    chars.iter().collect()
}

} // verus!
