//! Division that rounds toward zero, remainders that do not, and sums that stop at the end of
//! their range.
use vstd::prelude::*;

verus! {

/// The quotient rounded toward zero.
pub open spec fn trunc_div(a: int, b: int) -> int {
    if a >= 0 {
        if b >= 0 {
            a / b
        } else {
            -(a / (-b))
        }
    } else {
        if b >= 0 {
            -((-a) / b)
        } else {
            (-a) / (-b)
        }
    }
}

/// Division by a positive number, rounded toward zero.
pub fn truncating_div(a: i64, b: i64) -> (r: i64)
    requires
        b > 0,
        a > i64::MIN,
    ensures
        r == trunc_div(a as int, b as int),
        a >= 0 ==> 0 <= r <= a,
        a < 0 ==> a <= r <= 0,
{
    if a >= 0 {
        assert(0 <= a as int / b as int <= a) by (nonlinear_arith)
            requires
                a >= 0,
                b > 0,
        ;
        a / b
    } else {
        let m: i64 = -a;
        assert(0 <= m as int / b as int <= m) by (nonlinear_arith)
            requires
                m >= 0,
                b > 0,
        ;
        -(m / b)
    }
}

/// The remainder that is never negative, by a positive modulus.
pub fn euclidean_rem(a: i32, m: i32) -> (r: i32)
    requires
        m > 0,
    ensures
        r == a as int % m as int,
        0 <= r < m,
{
    if a >= 0 {
        a % m
    } else {
        let below: i64 = (-(a as i64)) % (m as i64);
        proof {
            let q = (-a) / (m as int);
            vstd::arithmetic::div_mod::lemma_fundamental_div_mod(-a as int, m as int);
            if below == 0 {
                assert(a == m * (-q)) by (nonlinear_arith)
                    requires
                        -a == m * q,
                ;
                vstd::arithmetic::div_mod::lemma_fundamental_div_mod_converse(a as int, m as int, -q, 0);
            } else {
                assert(a == m * (-q - 1) + (m - below)) by (nonlinear_arith)
                    requires
                        -a == m * q + below,
                ;
                vstd::arithmetic::div_mod::lemma_fundamental_div_mod_converse(
                    a as int,
                    m as int,
                    -q - 1,
                    m - below,
                );
            }
        }
        if below == 0 {
            0
        } else {
            (m as i64 - below) as i32
        }
    }
}

/// A sum brought into the range of `i32`.
pub open spec fn saturating_sum(a: i32, b: i32) -> i32 {
    if a + b > i32::MAX {
        i32::MAX
    } else if a + b < i32::MIN {
        i32::MIN
    } else {
        (a + b) as i32
    }
}

pub fn saturating_add(a: i32, b: i32) -> (r: i32)
    ensures
        r == saturating_sum(a, b),
{
    let sum: i64 = a as i64 + b as i64;
    if sum > i32::MAX as i64 {
        i32::MAX
    } else if sum < i32::MIN as i64 {
        i32::MIN
    } else {
        sum as i32
    }
}

/// A quotient rounded toward zero is the largest multiple that is no further from zero, on the same
/// side of it, and changes sign with the number that is divided.
pub proof fn a_quotient_is_rounded_toward_zero(a: int, b: int)
    requires
        b > 0,
    ensures
        a >= 0 ==> trunc_div(a, b) * b <= a < (trunc_div(a, b) + 1) * b,
        a <= 0 ==> (trunc_div(a, b) - 1) * b < a <= trunc_div(a, b) * b,
        trunc_div(-a, b) == -trunc_div(a, b),
{
    if a >= 0 {
        vstd::arithmetic::div_mod::lemma_fundamental_div_mod(a, b);
        let q = a / b;
        assert(q * b <= a < (q + 1) * b) by (nonlinear_arith)
            requires
                a == b * q + a % b,
                0 <= a % b < b,
        ;
        if a == 0 {
            assert(q == 0 && (q - 1) * b < 0 && q * b == 0) by (nonlinear_arith)
                requires
                    b > 0,
                    q == 0int / b,
            ;
        }
    } else {
        vstd::arithmetic::div_mod::lemma_fundamental_div_mod(-a, b);
        let q = (-a) / b;
        assert(q * b <= -a < (q + 1) * b) by (nonlinear_arith)
            requires
                -a == b * q + (-a) % b,
                0 <= (-a) % b < b,
        ;
        assert((-q - 1) * b < a <= (-q) * b) by (nonlinear_arith)
            requires
                q * b <= -a < (q + 1) * b,
        ;
    }
}

/// A sum stops at the ends of its range, and is the sum in between.
pub proof fn a_sum_stops_at_the_ends(a: i32, b: i32)
    ensures
        -2147483648 <= a + b <= 2147483647 ==> saturating_sum(a, b) == a + b,
        a + b >= 2147483647 ==> saturating_sum(a, b) == 2147483647,
        a + b <= -2147483648 ==> saturating_sum(a, b) == -2147483648,
{
}

} // verus!
