use vstd::prelude::*;
use vstd::string::StringExecFns;
use crate::ring::{Ring360, UNITS_PER_DEGREE, degrees_of};

verus! {

/// The decimal digit character for `d` in `0..10`.
pub open spec fn digit_char(d: nat) -> char {
    if d == 0 {
        '0'
    } else if d == 1 {
        '1'
    } else if d == 2 {
        '2'
    } else if d == 3 {
        '3'
    } else if d == 4 {
        '4'
    } else if d == 5 {
        '5'
    } else if d == 6 {
        '6'
    } else if d == 7 {
        '7'
    } else if d == 8 {
        '8'
    } else {
        '9'
    }
}

/// The `width` lowest decimal digits of `n`, most significant first, padded with zeros.
pub open spec fn padded_digits(n: nat, width: nat) -> Seq<char>
    decreases width,
{
    if width == 0 {
        Seq::empty()
    } else {
        padded_digits(n / 10, (width - 1) as nat).push(digit_char(n % 10))
    }
}

/// How many decimal digits `n` has; zero has one.
pub open spec fn digit_count(n: nat) -> nat
    decreases n,
{
    if n < 10 {
        1
    } else {
        1 + digit_count(n / 10)
    }
}

/// `n` written in decimal, without leading zeros.
pub open spec fn decimal_text(n: nat) -> Seq<char> {
    padded_digits(n, digit_count(n))
}

/// `s` without its trailing `'0'` characters.
pub open spec fn trim_trailing_zeros(s: Seq<char>) -> Seq<char>
    decreases s.len(),
{
    if s.len() > 0 && s.last() == '0' {
        trim_trailing_zeros(s.drop_last())
    } else {
        s
    }
}

/// A degree value in units written as a decimal number of degrees: the whole degrees, and,
/// when there is a fraction, a point and its six digits without trailing zeros.
pub open spec fn degree_text(deg: nat) -> Seq<char> {
    let whole = deg / (UNITS_PER_DEGREE as nat);
    let frac = deg % (UNITS_PER_DEGREE as nat);
    if frac == 0 {
        decimal_text(whole)
    } else {
        decimal_text(whole) + seq!['.'] + trim_trailing_zeros(padded_digits(frac, 6))
    }
}

fn digit_str(d: u64) -> (r: &'static str)
    requires
        d < 10,
    ensures
        r@ == seq![digit_char(d as nat)],
{
    proof {
        reveal_strlit("0");
        reveal_strlit("1");
        reveal_strlit("2");
        reveal_strlit("3");
        reveal_strlit("4");
        reveal_strlit("5");
        reveal_strlit("6");
        reveal_strlit("7");
        reveal_strlit("8");
        reveal_strlit("9");
    }
    if d == 0 {
        "0"
    } else if d == 1 {
        "1"
    } else if d == 2 {
        "2"
    } else if d == 3 {
        "3"
    } else if d == 4 {
        "4"
    } else if d == 5 {
        "5"
    } else if d == 6 {
        "6"
    } else if d == 7 {
        "7"
    } else if d == 8 {
        "8"
    } else {
        "9"
    }
}

/// Appends the `width` lowest decimal digits of `n`, padded with zeros.
fn push_digits(s: &mut String, n: u64, width: u64)
    ensures
        final(s)@ == old(s)@ + padded_digits(n as nat, width as nat),
    decreases width,
{
    if width > 0 {
        push_digits(s, n / 10, width - 1);
        s.append(digit_str(n % 10));
        assert(final(s)@ =~= old(s)@ + padded_digits(n as nat, width as nat));
    } else {
        assert(final(s)@ =~= old(s)@ + padded_digits(n as nat, width as nat));
    }
}

proof fn lemma_trim_drops_zero_digit(n: nat, width: nat)
    requires
        width > 0,
        n % 10 == 0,
    ensures
        trim_trailing_zeros(padded_digits(n, width)) == trim_trailing_zeros(
            padded_digits(n / 10, (width - 1) as nat),
        ),
{
    let s = padded_digits(n / 10, (width - 1) as nat);
    assert(padded_digits(n, width).drop_last() =~= s);
}

impl Ring360 {
    /// The degree value written as decimal degrees: `"46.529528"`, `"270"`, `"0.05"`.
    pub fn to_string(&self) -> (r: String)
        ensures
            r@ == degree_text(degrees_of(self.0 as int) as nat),
    {
        let deg = self.degrees();
        let whole = (deg / UNITS_PER_DEGREE) as u64;
        let frac = (deg % UNITS_PER_DEGREE) as u64;
        let width: u64 = if whole >= 100 {
            3
        } else if whole >= 10 {
            2
        } else {
            1
        };
        proof {
            reveal_with_fuel(digit_count, 3);
        }
        assert(width == digit_count(whole as nat));
        let mut s = String::new();
        push_digits(&mut s, whole, width);
        if frac != 0 {
            proof {
                reveal_strlit(".");
            }
            s.append(".");
            let mut f: u64 = frac;
            let mut w: u64 = 6;
            while w > 0 && f % 10 == 0
                invariant
                    w <= 6,
                    trim_trailing_zeros(padded_digits(f as nat, w as nat)) == trim_trailing_zeros(
                        padded_digits(frac as nat, 6),
                    ),
                decreases w,
            {
                proof {
                    lemma_trim_drops_zero_digit(f as nat, w as nat);
                }
                f = f / 10;
                w = w - 1;
            }
            assert(trim_trailing_zeros(padded_digits(f as nat, w as nat)) == padded_digits(
                f as nat,
                w as nat,
            ));
            push_digits(&mut s, f, w);
        }
        s
    }
}

} // verus!
