//! The diagnostic rendering of a scaled value: the fixed form
//! `<bits>x<base>^<exp>`, e.g. `5x10^3`. It is meant for people and logs,
//! not as a format to parse values back from.

use vstd::prelude::*;

verus! {

use crate::Fix;

/// The decimal digit character for `d`, a value below ten.
pub open spec fn digit_char(d: nat) -> char {
    if d == 0 {
        '0'
    } else if d == 1 {
        '1'
    } else if d == 2 {
        '2'
    } else if d == 3 {
        '3'
    } else if d == 4 {
        '4'
    } else if d == 5 {
        '5'
    } else if d == 6 {
        '6'
    } else if d == 7 {
        '7'
    } else if d == 8 {
        '8'
    } else {
        '9'
    }
}

/// The decimal digits of `n`, most significant first, with no leading
/// zeroes except for `n == 0` itself.
pub open spec fn dec_digits(n: nat) -> Seq<char>
    decreases n,
{
    if n < 10 {
        seq![digit_char(n)]
    } else {
        dec_digits(n / 10).push(digit_char(n % 10))
    }
}

/// The decimal rendering of `x`, a leading minus sign included when it is
/// negative.
pub open spec fn dec_int(x: int) -> Seq<char> {
    if x < 0 {
        seq!['-'] + dec_digits((-x) as nat)
    } else {
        dec_digits(x as nat)
    }
}

impl Fix {
    /// The rendering that [`Fix::debug_str`] produces.
    pub open spec fn rendered(self) -> Seq<char> {
        dec_int(self.bits as int) + seq!['x'] + dec_digits(self.base as nat) + seq!['^'] + dec_int(
            self.exp as int,
        )
    }

    /// Renders the value in the fixed diagnostic form `<bits>x<base>^<exp>`.
    pub fn debug_str(&self) -> (s: String)
        ensures
            s@ == self.rendered(),
    {
        let mut s = String::new();
        if self.bits < 0 {
            append_minus(&mut s);
            let m: u64 = if self.bits == i64::MIN {
                9223372036854775808u64
            } else {
                (-self.bits) as u64
            };
            append_digits(&mut s, m);
        } else {
            append_digits(&mut s, self.bits as u64);
        }
        append_marker(&mut s, false);
        append_digits(&mut s, self.base as u64);
        append_marker(&mut s, true);
        if self.exp < 0 {
            append_minus(&mut s);
            let m: u64 = if self.exp == i32::MIN {
                2147483648u64
            } else {
                (-self.exp) as u64
            };
            append_digits(&mut s, m);
        } else {
            append_digits(&mut s, self.exp as u64);
        }
        proof {
            assert(s@ =~= self.rendered());
        }
        s
    }
}

/// Appends the minus sign.
fn append_minus(s: &mut String)
    ensures
        final(s)@ == old(s)@ + seq!['-'],
{
    proof {
        reveal_strlit("-");
    }
    s.append("-");
    proof {
        assert(s@ =~= old(s)@ + seq!['-']);
    }
}

/// Appends the separator between magnitude and base (`x`), or between base
/// and exponent (`^`).
fn append_marker(s: &mut String, caret: bool)
    ensures
        final(s)@ == old(s)@ + (if caret {
            seq!['^']
        } else {
            seq!['x']
        }),
{
    if caret {
        proof {
            reveal_strlit("^");
        }
        s.append("^");
    } else {
        proof {
            reveal_strlit("x");
        }
        s.append("x");
    }
    proof {
        assert(s@ =~= old(s)@ + (if caret {
            seq!['^']
        } else {
            seq!['x']
        }));
    }
}

/// The one-character slice holding the digit `d`.
fn digit_str(d: u64) -> (s: &'static str)
    requires
        d < 10,
    ensures
        s@ == seq![digit_char(d as nat)],
{
    let r: &'static str = if d == 0 {
        "0"
    } else if d == 1 {
        "1"
    } else if d == 2 {
        "2"
    } else if d == 3 {
        "3"
    } else if d == 4 {
        "4"
    } else if d == 5 {
        "5"
    } else if d == 6 {
        "6"
    } else if d == 7 {
        "7"
    } else if d == 8 {
        "8"
    } else {
        "9"
    };
    proof {
        reveal_strlit("0");
        reveal_strlit("1");
        reveal_strlit("2");
        reveal_strlit("3");
        reveal_strlit("4");
        reveal_strlit("5");
        reveal_strlit("6");
        reveal_strlit("7");
        reveal_strlit("8");
        reveal_strlit("9");
        assert(r@ =~= seq![digit_char(d as nat)]);
    }
    r
}

/// Appends the decimal digits of `n`, most significant first.
fn append_digits(s: &mut String, n: u64)
    ensures
        final(s)@ == old(s)@ + dec_digits(n as nat),
    decreases n,
{
    if n >= 10 {
        append_digits(s, n / 10);
    }
    s.append(digit_str(n % 10));
    proof {
        assert(s@ =~= old(s)@ + dec_digits(n as nat));
    }
}

} // verus!
