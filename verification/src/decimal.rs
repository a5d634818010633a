//! Decimal string formatting for integers and micro-unit values.
//!
//! A micro-unit value prints as its exact decimal expansion with trailing
//! fraction zeros removed, so `9_500_000` prints as `9.5` and `45_000_000`
//! as `45`.

use vstd::prelude::*;
use vstd::string::StringExecFns;
use crate::num::pow10;

verus! {

/// The character for one decimal digit.
pub open spec fn digit_char(d: int) -> char {
    if d == 0 {
        '0'
    } else if d == 1 {
        '1'
    } else if d == 2 {
        '2'
    } else if d == 3 {
        '3'
    } else if d == 4 {
        '4'
    } else if d == 5 {
        '5'
    } else if d == 6 {
        '6'
    } else if d == 7 {
        '7'
    } else if d == 8 {
        '8'
    } else {
        '9'
    }
}

/// The decimal digits of `n`, most significant first.
pub open spec fn dec_digits(n: nat) -> Seq<char>
    decreases n,
{
    if n < 10 {
        seq![digit_char(n as int)]
    } else {
        dec_digits(n / 10).push(digit_char((n % 10) as int))
    }
}

/// The decimal form of `n`, with a leading minus sign when negative.
pub open spec fn dec_int(n: int) -> Seq<char> {
    if n < 0 {
        seq!['-'] + dec_digits((-n) as nat)
    } else {
        dec_digits(n as nat)
    }
}

/// `k` decimal digits of `r`, zero-padded on the left.
pub open spec fn frac_padded(r: nat, k: nat) -> Seq<char>
    decreases k,
{
    if k == 0 {
        Seq::empty()
    } else {
        frac_padded(r / 10, (k - 1) as nat).push(digit_char((r % 10) as int))
    }
}

/// `k` decimal digits of `r`, zero-padded on the left, with trailing
/// zeros removed.
pub open spec fn frac_trimmed(r: nat, k: nat) -> Seq<char>
    decreases k,
{
    if k == 0 {
        Seq::empty()
    } else if r % 10 == 0 {
        frac_trimmed(r / 10, (k - 1) as nat)
    } else {
        frac_padded(r, k)
    }
}

/// The exact decimal form of the micro-unit value `m`: whole part, and a
/// fractional part only when it is non-zero, trimmed of trailing zeros.
pub open spec fn dec_micros(m: int) -> Seq<char> {
    let a = if m < 0 {
        -m
    } else {
        m
    };
    let q = (a / 1_000_000) as nat;
    let r = (a % 1_000_000) as nat;
    let core = if r == 0 {
        dec_digits(q)
    } else {
        dec_digits(q) + seq!['.'] + frac_trimmed(r, 6)
    };
    if m < 0 {
        seq!['-'] + core
    } else {
        core
    }
}

/// One decimal digit as a string slice.
fn digit_str(d: u64) -> (s: &'static str)
    requires
        d < 10,
    ensures
        s@ == seq![digit_char(d as int)],
{
    proof {
        reveal_strlit("0");
        reveal_strlit("1");
        reveal_strlit("2");
        reveal_strlit("3");
        reveal_strlit("4");
        reveal_strlit("5");
        reveal_strlit("6");
        reveal_strlit("7");
        reveal_strlit("8");
        reveal_strlit("9");
        assert("0"@ =~= seq![digit_char(0)]);
        assert("1"@ =~= seq![digit_char(1)]);
        assert("2"@ =~= seq![digit_char(2)]);
        assert("3"@ =~= seq![digit_char(3)]);
        assert("4"@ =~= seq![digit_char(4)]);
        assert("5"@ =~= seq![digit_char(5)]);
        assert("6"@ =~= seq![digit_char(6)]);
        assert("7"@ =~= seq![digit_char(7)]);
        assert("8"@ =~= seq![digit_char(8)]);
        assert("9"@ =~= seq![digit_char(9)]);
    }
    match d {
        0 => "0",
        1 => "1",
        2 => "2",
        3 => "3",
        4 => "4",
        5 => "5",
        6 => "6",
        7 => "7",
        8 => "8",
        _ => "9",
    }
}

/// The decimal digits of `n` as a string.
pub fn u64_dec_str(n: u64) -> (s: String)
    ensures
        s@ == dec_digits(n as nat),
    decreases n,
{
    if n < 10 {
        digit_str(n).to_owned()
    } else {
        let mut s = u64_dec_str(n / 10);
        s.append(digit_str(n % 10));
        proof {
            assert(s@ =~= dec_digits(n as nat));
        }
        s
    }
}

/// The decimal form of `n` as a string.
pub fn i64_dec_str(n: i64) -> (s: String)
    requires
        n > i64::MIN,
    ensures
        s@ == dec_int(n as int),
{
    if n < 0 {
        proof {
            reveal_strlit("-");
        }
        let mut s = "-".to_owned();
        proof {
            assert(s@ =~= seq!['-']);
        }
        let rest = u64_dec_str((-n) as u64);
        s.append(rest.as_str());
        proof {
            assert(s@ =~= dec_int(n as int));
        }
        s
    } else {
        u64_dec_str(n as u64)
    }
}

/// The decimal form of `n` as a string.
pub fn i32_dec_str(n: i32) -> (s: String)
    ensures
        s@ == dec_int(n as int),
{
    i64_dec_str(n as i64)
}

/// `k` decimal digits of `r`, zero-padded on the left, as a string.
fn frac_padded_str(r: u64, k: u32) -> (s: String)
    ensures
        s@ == frac_padded(r as nat, k as nat),
    decreases k,
{
    if k == 0 {
        proof {
            reveal_strlit("");
        }
        let s = "".to_owned();
        proof {
            assert(s@ =~= frac_padded(r as nat, 0));
        }
        s
    } else {
        let mut s = frac_padded_str(r / 10, k - 1);
        s.append(digit_str(r % 10));
        proof {
            assert(s@ =~= frac_padded(r as nat, k as nat));
        }
        s
    }
}

/// The exact decimal form of the micro-unit value `m` as a string.
pub fn micros_str(m: i64) -> (s: String)
    requires
        m > i64::MIN,
    ensures
        s@ == dec_micros(m as int),
{
    let a: u64 = if m < 0 {
        (-m) as u64
    } else {
        m as u64
    };
    let q = a / 1_000_000;
    let r = a % 1_000_000;
    proof {
        reveal_strlit("-");
        reveal_strlit("");
    }
    let mut s = if m < 0 {
        "-".to_owned()
    } else {
        "".to_owned()
    };
    proof {
        assert(m < 0 ==> s@ =~= seq!['-']);
        assert(m >= 0 ==> s@ =~= Seq::<char>::empty());
    }
    let whole = u64_dec_str(q);
    s.append(whole.as_str());
    if r != 0 {
        proof {
            reveal_strlit(".");
            assert("."@ =~= seq!['.']);
        }
        s.append(".");
        let mut rr = r;
        let mut k: u32 = 6;
        proof {
            assert(pow10(6) == 1_000_000) by {
                reveal_with_fuel(pow10, 7);
            }
        }
        while rr % 10 == 0
            invariant
                1 <= k <= 6,
                1 <= rr < pow10(k as nat),
                frac_trimmed(r as nat, 6) == frac_trimmed(rr as nat, k as nat),
            decreases k,
        {
            proof {
                assert(pow10(k as nat) == 10 * pow10((k - 1) as nat));
                assert(rr / 10 >= 1);
            }
            rr = rr / 10;
            k = k - 1;
        }
        let frac = frac_padded_str(rr, k);
        s.append(frac.as_str());
        proof {
            assert(frac_trimmed(rr as nat, k as nat) == frac_padded(rr as nat, k as nat));
            assert(s@ =~= dec_micros(m as int));
        }
    } else {
        proof {
            assert(s@ =~= dec_micros(m as int));
        }
    }
    s
}

} // verus!
