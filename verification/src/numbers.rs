//! Numbers in text.
use vstd::prelude::*;

use crate::text::{cat, cat4, chars_of, signed_decimal, signed_decimal_of};

verus! {

/// The value of a decimal digit.
pub open spec fn digit_value(c: char) -> Option<nat> {
    if '0' <= c && c <= '9' {
        Some((c as int - '0' as int) as nat)
    } else {
        None
    }
}

/// The value of a sequence of decimal digits; the empty one counts as 0.
pub open spec fn digits_value(s: Seq<char>) -> Option<nat>
    decreases s.len(),
{
    if s.len() == 0 {
        Some(0)
    } else {
        match (digits_value(s.drop_last()), digit_value(s.last())) {
            (Some(v), Some(d)) => Some(v * 10 + d),
            _ => None,
        }
    }
}

/// The digits of a number: a plus sign in front of them does not count.
pub open spec fn unsigned_digits(s: Seq<char>) -> Seq<char> {
    if s.len() > 0 && s[0] == '+' {
        s.subrange(1, s.len() as int)
    } else {
        s
    }
}

/// The number that `s` spells, if it spells one of 32 bits.
pub open spec fn u32_of(s: Seq<char>) -> Option<u32> {
    let digits = unsigned_digits(s);
    if digits.len() == 0 {
        None
    } else {
        match digits_value(digits) {
            Some(v) => if v <= u32::MAX {
                Some(v as u32)
            } else {
                None
            },
            None => None,
        }
    }
}

proof fn digits_prefix(s: Seq<char>, n: int)
    requires
        0 <= n <= s.len(),
    ensures
        digits_value(s.take(n)) is None ==> digits_value(s) is None,
        digits_value(s.take(n)) matches Some(v) && v > u32::MAX ==> (digits_value(s) matches Some(w)
            ==> w > u32::MAX),
    decreases s.len(),
{
    if n < s.len() {
        digits_prefix(s.drop_last(), n);
        assert(s.drop_last().take(n) =~= s.take(n));
    } else {
        assert(s.take(n) =~= s);
    }
}

/// The number that `s` spells, if it spells one of 32 bits.
pub fn parse_u32(s: &str) -> (r: Option<u32>)
    ensures
        r == u32_of(s@),
{
    let v = chars_of(s);
    let n = v.len();
    let start: usize = if n > 0 && v[0] == '+' {
        1
    } else {
        0
    };
    let ghost digits = unsigned_digits(s@);
    proof {
        assert(digits =~= s@.subrange(start as int, n as int));
    }
    if start == n {
        return None;
    }
    let mut value: u32 = 0;
    let mut i: usize = start;
    assert(digits.take(0) =~= Seq::<char>::empty());
    while i < n
        invariant
            v@ == s@,
            n == v@.len(),
            start <= i <= n,
            start < n,
            digits == unsigned_digits(s@),
            digits == s@.subrange(start as int, n as int),
            digits_value(digits.take(i - start)) == Some(value as nat),
        decreases n - i,
    {
        let c = v[i];
        proof {
            let t = digits.take(i - start + 1);
            assert(t.drop_last() =~= digits.take(i - start));
            assert(t.last() == c);
            digits_prefix(digits, i - start + 1);
        }
        if c < '0' || c > '9' {
            return None;
        }
        let d: u32 = c as u32 - '0' as u32;
        if value > 429_496_729 || (value == 429_496_729 && d > 5) {
            return None;
        }
        value = value * 10 + d;
        i += 1;
    }
    assert(digits.take(digits.len() as int) =~= digits);
    Some(value)
}

/// The quotient of a division that rounds towards zero.
pub open spec fn quotient(a: int, b: int) -> int {
    if a >= 0 {
        a / b
    } else {
        -((-a) / b)
    }
}

/// What such a division leaves.
pub open spec fn remainder(a: int, b: int) -> int {
    a - quotient(a, b) * b
}

/// The quotient of a division that rounds towards zero.
pub fn quotient_of(a: i64, b: i64) -> (r: i64)
    requires
        b > 1,
    ensures
        r == quotient(a as int, b as int),
        a >= 0 ==> 0 <= r <= a,
{
    if a >= 0 {
        proof {
            assert(0 <= a as int / b as int <= a) by (nonlinear_arith)
                requires
                    a >= 0,
                    b > 1,
            ;
        }
        a / b
    } else {
        let magnitude: u64 = (-(a + 1)) as u64 + 1;
        let q: u64 = magnitude / (b as u64);
        proof {
            assert(magnitude == -a);
            assert(0 <= magnitude as int / b as int <= magnitude as int / 2) by (nonlinear_arith)
                requires
                    magnitude >= 0,
                    b >= 2,
            ;
        }
        -(q as i64)
    }
}

/// What such a division leaves.
pub fn remainder_of(a: i64, b: i64) -> (r: i64)
    requires
        b > 1,
    ensures
        r == remainder(a as int, b as int),
        a >= 0 ==> 0 <= r < b,
{
    let q = quotient_of(a, b);
    proof {
        if a >= 0 {
            assert(0 <= a - (a as int / b as int) * b < b && (a as int / b as int) * b <= a
                && (a as int / b as int) * b >= 0) by (nonlinear_arith)
                requires
                    a >= 0,
                    b > 1,
            ;
        } else {
            let m = -a as int;
            assert(0 <= m - (m / b as int) * b < b && (m / b as int) * b <= m && (m / b as int) * b
                >= 0) by (nonlinear_arith)
                requires
                    m > 0,
                    b > 1,
            ;
            assert((-(m / b as int)) * b == -((m / b as int) * b)) by (nonlinear_arith);
        }
    }
    a - q * b
}

/// A length of time in minutes, or in hours and minutes from one hour on.
pub open spec fn hours_minutes(seconds: int) -> Seq<char> {
    if seconds >= 3600 {
        signed_decimal(quotient(seconds, 3600)) + "h "@ + signed_decimal(
            quotient(remainder(seconds, 3600), 60),
        ) + "m"@
    } else {
        signed_decimal(quotient(seconds, 60)) + "m"@
    }
}

/// A length of time in minutes, or in hours and minutes from one hour on.
pub fn show_hours_minutes(seconds: i64) -> (r: String)
    ensures
        r@ == hours_minutes(seconds as int),
{
    if seconds >= 3600 {
        let h = signed_decimal_of(quotient_of(seconds, 3600));
        let m = signed_decimal_of(quotient_of(remainder_of(seconds, 3600), 60));
        cat4(h.as_str(), "h ", m.as_str(), "m")
    } else {
        cat(signed_decimal_of(quotient_of(seconds, 60)).as_str(), "m")
    }
}

} // verus!
