//! Canonical decimal strings for the integers the game displays.
//!
//! The guess buffer and the difficulty bounds are held as integers; whenever
//! they are shown, they are rendered as decimal text with no leading zeros
//! and a `-` prefix for negative values.  `dec_digits` and `int_str` are the
//! mathematical form of that text and every rendering function is proved
//! against them.

use vstd::prelude::*;
use vstd::string::StringExecFns;

verus! {

/// The character for one decimal digit `d` (`0 <= d <= 9`).
pub open spec fn digit_char(d: int) -> char {
    if d == 0 {
        '0'
    } else if d == 1 {
        '1'
    } else if d == 2 {
        '2'
    } else if d == 3 {
        '3'
    } else if d == 4 {
        '4'
    } else if d == 5 {
        '5'
    } else if d == 6 {
        '6'
    } else if d == 7 {
        '7'
    } else if d == 8 {
        '8'
    } else {
        '9'
    }
}

/// The canonical decimal digit string of `n`: most significant digit first,
/// no leading zeros, and `"0"` for zero itself.
pub open spec fn dec_digits(n: nat) -> Seq<char>
    decreases n,
{
    if n < 10 {
        seq![digit_char(n as int)]
    } else {
        dec_digits(n / 10).push(digit_char((n % 10) as int))
    }
}

/// How many decimal digits `n` has (one for zero).
pub open spec fn n_digits(n: nat) -> nat
    decreases n,
{
    if n < 10 {
        1
    } else {
        1 + n_digits(n / 10)
    }
}

/// The canonical signed decimal string of `n`: a `-` prefix when negative.
pub open spec fn int_str(n: int) -> Seq<char> {
    if n < 0 {
        seq!['-'] + dec_digits((-n) as nat)
    } else {
        dec_digits(n as nat)
    }
}

/// `10^k`, for bounding digit counts.
pub open spec fn pow10(k: nat) -> nat
    decreases k,
{
    if k == 0 {
        1
    } else {
        10 * pow10((k - 1) as nat)
    }
}

/// The digit string is exactly as long as the digit count says.
pub proof fn lemma_dec_digits_len(n: nat)
    ensures
        dec_digits(n).len() == n_digits(n),
    decreases n,
{
    if n >= 10 {
        lemma_dec_digits_len(n / 10);
    }
}

/// A number below `10^k` has at most `k` digits.
pub proof fn lemma_n_digits_le(n: nat, k: nat)
    requires
        k >= 1,
        n < pow10(k),
    ensures
        n_digits(n) <= k,
    decreases k,
{
    if n >= 10 {
        assert(pow10(k) == 10 * pow10((k - 1) as nat));
        lemma_n_digits_le(n / 10, (k - 1) as nat);
    }
}

/// Appending a digit to a nonzero number adds exactly one to its digit count;
/// on zero the result is the single new digit.
pub proof fn lemma_n_digits_push(g: nat, d: nat)
    requires
        d <= 9,
    ensures
        g == 0 ==> n_digits(10 * g + d) == 1,
        g > 0 ==> n_digits(10 * g + d) == n_digits(g) + 1,
{
    if g > 0 {
        assert((10 * g + d) / 10 == g);
        assert(10 * g + d >= 10);
    }
}

/// The one-character string for a decimal digit.
fn digit_str(d: u8) -> (r: &'static str)
    requires
        d <= 9,
    ensures
        r@ == seq![digit_char(d as int)],
{
    let r: &'static str = match d {
        0 => "0",
        1 => "1",
        2 => "2",
        3 => "3",
        4 => "4",
        5 => "5",
        6 => "6",
        7 => "7",
        8 => "8",
        _ => "9",
    };
    proof {
        reveal_strlit("0");
        reveal_strlit("1");
        reveal_strlit("2");
        reveal_strlit("3");
        reveal_strlit("4");
        reveal_strlit("5");
        reveal_strlit("6");
        reveal_strlit("7");
        reveal_strlit("8");
        reveal_strlit("9");
        assert(r@ =~= seq![digit_char(d as int)]);
    }
    r
}

/// Renders `n` as its canonical decimal string.
pub fn u32_to_string(n: u32) -> (r: String)
    ensures
        r@ == dec_digits(n as nat),
    decreases n,
{
    if n < 10 {
        String::from_str(digit_str(n as u8))
    } else {
        let mut s = u32_to_string(n / 10);
        s.append(digit_str((n % 10) as u8));
        proof {
            assert(s@ =~= dec_digits(n as nat));
        }
        s
    }
}

/// Renders `n` as its canonical signed decimal string.
pub fn i32_to_string(n: i32) -> (r: String)
    ensures
        r@ == int_str(n as int),
{
    if n < 0 {
        let mag: u32 = (0i64 - (n as i64)) as u32;
        let mut s = String::from_str("-");
        s.append(u32_to_string(mag).as_str());
        proof {
            reveal_strlit("-");
            assert(s@ =~= int_str(n as int));
        }
        s
    } else {
        u32_to_string(n as u32)
    }
}

/// Counts the decimal digits of `n`.
pub fn digit_count(n: u32) -> (r: usize)
    ensures
        r == n_digits(n as nat),
        1 <= r <= 10,
{
    proof {
        assert(pow10(10) == 10000000000) by {
            reveal_with_fuel(pow10, 11);
        }
        lemma_n_digits_le(n as nat, 10);
    }
    let mut m: u32 = n;
    let mut c: usize = 1;
    while m >= 10
        invariant
            c >= 1,
            n_digits(n as nat) == c - 1 + n_digits(m as nat),
            c <= n_digits(n as nat),
            n_digits(n as nat) <= 10,
        decreases m,
    {
        m = m / 10;
        c = c + 1;
    }
    c
}

/// Puts the sign back on the front of an unsigned digit string, exactly as it
/// will be shown on screen.
pub fn guess_string_compiler(value: &String, is_negative: bool) -> (r: String)
    ensures
        is_negative ==> r@ == seq!['-'] + value@,
        !is_negative ==> r@ == value@,
{
    if is_negative {
        let mut s = String::from_str("-");
        s.append(value.as_str());
        proof {
            reveal_strlit("-");
            assert(s@ =~= seq!['-'] + value@);
        }
        s
    } else {
        value.clone()
    }
}

} // verus!
