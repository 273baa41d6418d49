//! Verified rendering of fixed-point values as decimal strings: the digits
//! of a number, a value to a fixed number of decimal places, and the
//! space-padding used by the cotangent readout.

use vstd::prelude::*;
use vstd::string::*;

use crate::consts::SCALE;

verus! {

/// The character for decimal digit `d`.
pub open spec fn digit_char(d: int) -> char {
    if d == 0 {
        '0'
    } else if d == 1 {
        '1'
    } else if d == 2 {
        '2'
    } else if d == 3 {
        '3'
    } else if d == 4 {
        '4'
    } else if d == 5 {
        '5'
    } else if d == 6 {
        '6'
    } else if d == 7 {
        '7'
    } else if d == 8 {
        '8'
    } else {
        '9'
    }
}

/// The decimal digits of `n`, most significant first.
pub open spec fn spec_digits(n: nat) -> Seq<char>
    decreases n,
{
    if n < 10 {
        seq![digit_char(n as int)]
    } else {
        spec_digits(n / 10).push(digit_char((n % 10) as int))
    }
}

/// `q` — a value times `SCALE` — rendered with all five decimal places:
/// an optional minus sign, the integer part, a point, and the five
/// fractional digits.
pub open spec fn spec_fixed5(q: int) -> Seq<char> {
    let m = vstd::math::abs(q);
    let sign: Seq<char> = if q < 0 {
        seq!['-']
    } else {
        Seq::empty()
    };
    sign + spec_digits(m / (SCALE as nat)) + seq![
        '.',
        digit_char(((m / 10000) % 10) as int),
        digit_char(((m / 1000) % 10) as int),
        digit_char(((m / 100) % 10) as int),
        digit_char(((m / 10) % 10) as int),
        digit_char((m % 10) as int),
    ]
}

/// `q` rendered with three decimal places, rounded half away from zero.
pub open spec fn spec_fixed3(q: int) -> Seq<char> {
    let r = (vstd::math::abs(q) + 50) / 100;
    let sign: Seq<char> = if q < 0 {
        seq!['-']
    } else {
        Seq::empty()
    };
    sign + spec_digits(r / 1000) + seq![
        '.',
        digit_char(((r / 100) % 10) as int),
        digit_char(((r / 10) % 10) as int),
        digit_char((r % 10) as int),
    ]
}

/// `q` rendered with one decimal place, rounded half away from zero.
pub open spec fn spec_fixed1(q: int) -> Seq<char> {
    let r = (vstd::math::abs(q) + 5000) / 10000;
    let sign: Seq<char> = if q < 0 {
        seq!['-']
    } else {
        Seq::empty()
    };
    sign + spec_digits(r / 10) + seq!['.', digit_char((r % 10) as int)]
}

/// A run of `n` spaces.
pub open spec fn spec_spaces(n: nat) -> Seq<char>
    decreases n,
{
    if n == 0 {
        Seq::empty()
    } else {
        spec_spaces((n - 1) as nat).push(' ')
    }
}

/// `s` padded on the right with spaces to at least twelve characters: the
/// left-justified field of width twelve used by the cotangent readout.
pub open spec fn spec_pad12(s: Seq<char>) -> Seq<char> {
    if s.len() >= 12 {
        s
    } else {
        s + spec_spaces((12 - s.len()) as nat)
    }
}

/// The one-character string for decimal digit `d`.
pub fn digit_str(d: u64) -> (s: &'static str)
    requires
        d < 10,
    ensures
        s@ == seq![digit_char(d as int)],
{
    if d == 0 {
        let s = "0";
        proof {
            reveal_strlit("0");
            assert(s@ =~= seq![digit_char(d as int)]);
        }
        s
    } else if d == 1 {
        let s = "1";
        proof {
            reveal_strlit("1");
            assert(s@ =~= seq![digit_char(d as int)]);
        }
        s
    } else if d == 2 {
        let s = "2";
        proof {
            reveal_strlit("2");
            assert(s@ =~= seq![digit_char(d as int)]);
        }
        s
    } else if d == 3 {
        let s = "3";
        proof {
            reveal_strlit("3");
            assert(s@ =~= seq![digit_char(d as int)]);
        }
        s
    } else if d == 4 {
        let s = "4";
        proof {
            reveal_strlit("4");
            assert(s@ =~= seq![digit_char(d as int)]);
        }
        s
    } else if d == 5 {
        let s = "5";
        proof {
            reveal_strlit("5");
            assert(s@ =~= seq![digit_char(d as int)]);
        }
        s
    } else if d == 6 {
        let s = "6";
        proof {
            reveal_strlit("6");
            assert(s@ =~= seq![digit_char(d as int)]);
        }
        s
    } else if d == 7 {
        let s = "7";
        proof {
            reveal_strlit("7");
            assert(s@ =~= seq![digit_char(d as int)]);
        }
        s
    } else if d == 8 {
        let s = "8";
        proof {
            reveal_strlit("8");
            assert(s@ =~= seq![digit_char(d as int)]);
        }
        s
    } else {
        let s = "9";
        proof {
            reveal_strlit("9");
            assert(s@ =~= seq![digit_char(d as int)]);
        }
        s
    }
}

/// The decimal digits of `n`, most significant first.
pub fn digits(n: u64) -> (s: String)
    ensures
        s@ == spec_digits(n as nat),
    decreases n,
{
    if n < 10 {
        let s = String::from_str(digit_str(n));
        s
    } else {
        let mut s = digits(n / 10);
        s.append(digit_str(n % 10));
        proof {
            assert(s@ =~= spec_digits(n as nat));
        }
        s
    }
}

/// The magnitude of `q`.
fn magnitude(q: i64) -> (m: u64)
    requires
        q > i64::MIN,
    ensures
        m == vstd::math::abs(q as int),
{
    if q < 0 {
        (-q) as u64
    } else {
        q as u64
    }
}

/// Renders `q` — a value times `SCALE` — with all five decimal places.
pub fn fmt_fixed5(q: i64) -> (s: String)
    requires
        q > i64::MIN,
    ensures
        s@ == spec_fixed5(q as int),
{
    let m = magnitude(q);
    let mut s = if q < 0 {
        String::from_str("-")
    } else {
        String::new()
    };
    let ip = digits(m / 100_000);
    s.append(ip.as_str());
    s.append(".");
    s.append(digit_str(m / 10_000 % 10));
    s.append(digit_str(m / 1_000 % 10));
    s.append(digit_str(m / 100 % 10));
    s.append(digit_str(m / 10 % 10));
    s.append(digit_str(m % 10));
    proof {
        reveal_strlit("-");
        reveal_strlit(".");
        assert(s@ =~= spec_fixed5(q as int));
    }
    s
}

/// Renders `q` with three decimal places, rounded half away from zero.
pub fn fmt_fixed3(q: i64) -> (s: String)
    requires
        q > i64::MIN,
    ensures
        s@ == spec_fixed3(q as int),
{
    let m = magnitude(q);
    let r = (m + 50) / 100;
    let mut s = if q < 0 {
        String::from_str("-")
    } else {
        String::new()
    };
    let ip = digits(r / 1_000);
    s.append(ip.as_str());
    s.append(".");
    s.append(digit_str(r / 100 % 10));
    s.append(digit_str(r / 10 % 10));
    s.append(digit_str(r % 10));
    proof {
        reveal_strlit("-");
        reveal_strlit(".");
        assert(s@ =~= spec_fixed3(q as int));
    }
    s
}

/// Renders `q` with one decimal place, rounded half away from zero.
pub fn fmt_fixed1(q: i64) -> (s: String)
    requires
        q > i64::MIN,
    ensures
        s@ == spec_fixed1(q as int),
{
    let m = magnitude(q);
    let r = (m + 5_000) / 10_000;
    let mut s = if q < 0 {
        String::from_str("-")
    } else {
        String::new()
    };
    let ip = digits(r / 10);
    s.append(ip.as_str());
    s.append(".");
    s.append(digit_str(r % 10));
    proof {
        reveal_strlit("-");
        reveal_strlit(".");
        assert(s@ =~= spec_fixed1(q as int));
    }
    s
}

/// Pads `s` on the right with spaces to at least twelve characters.
pub fn pad12(s: String) -> (r: String)
    ensures
        r@ == spec_pad12(s@),
{
    let ghost orig = s@;
    let mut r = s;
    let mut l: usize = r.as_str().unicode_len();
    if l >= 12 {
        return r;
    }
    proof {
        assert(orig + spec_spaces(0) =~= orig);
    }
    while l < 12
        invariant
            orig.len() <= l <= 12,
            l == r@.len(),
            r@ == orig + spec_spaces((l - orig.len()) as nat),
        decreases 12 - l,
    {
        r.append(" ");
        l = l + 1;
        proof {
            reveal_strlit(" ");
            assert(r@ =~= orig + spec_spaces((l - orig.len()) as nat));
        }
    }
    r
}

} // verus!
