//! Integer arithmetic shared by the geometry code: flooring division of signed
//! numbers, and the bounds that keep scaled coordinates inside `i64`.

use vstd::arithmetic::div_mod::lemma_fundamental_div_mod;
use vstd::arithmetic::div_mod::lemma_fundamental_div_mod_converse;
use vstd::prelude::*;

verus! {

/// A quotient by a divisor of at least `m` is no larger in magnitude than `c`,
/// for a dividend no larger in magnitude than `c * m`.
pub proof fn lemma_floor_div_bound(a: int, b: int, m: int, c: int)
    requires
        b >= m > 0,
        c >= 0,
        -(c * m) <= a <= c * m,
    ensures
        -c <= a / b <= c,
{
    let q = a / b;
    let r = a % b;
    lemma_fundamental_div_mod(a, b);
    assert(0 <= r < b);
    assert(a == b * q + r);
    if q >= c + 1 {
        assert(b * q >= m * (c + 1)) by (nonlinear_arith)
            requires
                b >= m > 0,
                q >= c + 1,
                c >= 0,
        ;
        assert(m * (c + 1) > c * m) by (nonlinear_arith)
            requires
                m > 0,
        ;
        assert(false);
    }
    if q <= -c - 1 {
        assert(b * (q + 1) <= -(c * m)) by (nonlinear_arith)
            requires
                b >= m > 0,
                q + 1 <= -c,
                c >= 0,
        ;
        assert(b * q + b == b * (q + 1)) by (nonlinear_arith);
        assert(false);
    }
}

/// The floor of `a / b`, for a positive divisor.
pub(crate) fn floor_div(a: i128, b: i128) -> (q: i128)
    requires
        b > 0,
        a > i128::MIN,
    ensures
        q == (a as int) / (b as int),
{
    if a >= 0 {
        a / b
    } else {
        let n: i128 = -a;
        let q0: i128 = n / b;
        let r0: i128 = n % b;
        proof {
            lemma_fundamental_div_mod(n as int, b as int);
            assert(n == b * q0 + r0);
        }
        if r0 == 0 {
            proof {
                assert(a == (-q0) * b + 0) by (nonlinear_arith)
                    requires
                        -a == b * q0,
                ;
                lemma_fundamental_div_mod_converse(a as int, b as int, -q0 as int, 0);
            }
            -q0
        } else {
            proof {
                assert(a == (-q0 - 1) * b + (b - r0)) by (nonlinear_arith)
                    requires
                        -a == b * q0 + r0,
                ;
                lemma_fundamental_div_mod_converse(
                    a as int,
                    b as int,
                    -q0 - 1,
                    b - r0,
                );
            }
            -q0 - 1
        }
    }
}

} // verus!
