//! Reading a decimal number, as an exchange writes prices and volumes, into
//! ticks.
//!
//! A number is a run of digits, a point and a run of digits, either of which
//! may be missing, though not both: `42`, `42.`, `.5`, `0.01000000`. No sign,
//! no exponent, no blanks. There are `PRICE_SCALE` ticks to one, so eight
//! digits after the point count; further digits are dropped.

use vstd::prelude::*;
use crate::market_data::PRICE_LIMIT;
use crate::market_data::PRICE_SCALE;

verus! {

/// The byte of the decimal point.
pub const POINT: u8 = 46;

/// The byte of the digit zero.
pub const ZERO: u8 = 48;

/// The number of digits after the point that count.
pub const FRACTION_DIGITS: usize = 8;

/// Whether the byte is a decimal digit.
pub open spec fn is_digit(b: u8) -> bool {
    ZERO <= b <= ZERO + 9
}

/// Whether every byte of the run is a decimal digit.
pub open spec fn all_digits(s: Seq<u8>) -> bool {
    forall|i: int| 0 <= i < s.len() ==> is_digit(#[trigger] s[i])
}

/// The number that a run of digits stands for; zero for the empty run.
pub open spec fn digits_value(s: Seq<u8>) -> int
    decreases s.len(),
{
    if s.len() == 0 {
        0
    } else {
        digits_value(s.drop_last()) * 10 + (s.last() - ZERO)
    }
}

/// Ten to the power of `n`.
pub open spec fn pow10(n: nat) -> int
    decreases n,
{
    if n == 0 {
        1
    } else {
        10 * pow10((n - 1) as nat)
    }
}

/// The index of the first point in the run, or the length of the run if
/// there is none.
pub open spec fn first_point(s: Seq<u8>) -> int
    decreases s.len(),
{
    if s.len() == 0 {
        0
    } else {
        let before = first_point(s.drop_last());
        if before < s.len() - 1 {
            before
        } else if s.last() == POINT {
            s.len() - 1
        } else {
            s.len() as int
        }
    }
}

/// What stands before the first point.
pub open spec fn whole_part(s: Seq<u8>) -> Seq<u8> {
    s.take(first_point(s))
}

/// What stands after the first point; nothing if there is no point.
pub open spec fn fraction_part(s: Seq<u8>) -> Seq<u8> {
    if first_point(s) < s.len() {
        s.skip(first_point(s) + 1)
    } else {
        Seq::empty()
    }
}

/// Whether the run is a decimal number.
pub open spec fn is_decimal(s: Seq<u8>) -> bool {
    &&& all_digits(whole_part(s))
    &&& all_digits(fraction_part(s))
    &&& whole_part(s).len() + fraction_part(s).len() > 0
}

/// The ticks that the digits after the point stand for: the first eight
/// count, as if zeros followed where there are fewer.
pub open spec fn fraction_ticks(fraction: Seq<u8>) -> int {
    if fraction.len() >= FRACTION_DIGITS {
        digits_value(fraction.take(FRACTION_DIGITS as int))
    } else {
        digits_value(fraction) * pow10((FRACTION_DIGITS - fraction.len()) as nat)
    }
}

/// The ticks that a decimal number stands for, rounded down.
pub open spec fn decimal_ticks(s: Seq<u8>) -> int {
    digits_value(whole_part(s)) * PRICE_SCALE + fraction_ticks(fraction_part(s))
}

/// What reading the run gives: its ticks, if it is a decimal number of no more
/// than `PRICE_LIMIT` ticks.
pub open spec fn parsed(s: Seq<u8>) -> Option<i64> {
    if is_decimal(s) && decimal_ticks(s) <= PRICE_LIMIT {
        Some(decimal_ticks(s) as i64)
    } else {
        None
    }
}

/// The first point is within the run or right behind it, no byte before it is
/// a point, and the byte at it is one.
pub proof fn lemma_first_point(s: Seq<u8>)
    ensures
        0 <= first_point(s) <= s.len(),
        forall|i: int| 0 <= i < first_point(s) ==> #[trigger] s[i] != POINT,
        first_point(s) < s.len() ==> s[first_point(s)] == POINT,
    decreases s.len(),
{
    if s.len() > 0 {
        let shorter = s.drop_last();
        lemma_first_point(shorter);
        assert forall|i: int| 0 <= i < first_point(s) implies #[trigger] s[i] != POINT by {
            if i < shorter.len() {
                assert(shorter[i] == s[i]);
            }
        }
        if first_point(shorter) < shorter.len() {
            assert(shorter[first_point(shorter)] == s[first_point(shorter)]);
        }
    }
}

/// Once a run has a point, bytes that follow do not move it.
pub proof fn lemma_first_point_stays(s: Seq<u8>, n: int)
    requires
        0 <= n <= s.len(),
        first_point(s.take(n)) < n,
    ensures
        first_point(s) == first_point(s.take(n)),
    decreases s.len() - n,
{
    if n < s.len() {
        let next = s.take(n + 1);
        assert(next.drop_last() =~= s.take(n));
        lemma_first_point_stays(s, n + 1);
    } else {
        assert(s.take(n) =~= s);
    }
}

/// Reads a decimal number into ticks.
pub fn parse_decimal(text: &[u8]) -> (r: Option<i64>)
    ensures
        r == parsed(text@),
        r matches Some(ticks) ==> 0 <= ticks <= PRICE_LIMIT,
{
    let ghost s = text@;
    let len: usize = text.len();
    let limit: i64 = PRICE_LIMIT / PRICE_SCALE;
    let mut whole: i64 = 0;
    let mut over: bool = false;
    let mut i: usize = 0;
    // The digits before the point.
    while i < len && text[i] != POINT
        invariant
            i <= len,
            len == text.len(),
            s == text@,
            limit == PRICE_LIMIT / PRICE_SCALE,
            first_point(s.take(i as int)) == i,
            !over ==> all_digits(s.take(i as int)),
            !over ==> whole == digits_value(s.take(i as int)),
            !over ==> 0 <= whole <= limit,
            over ==> !all_digits(s.take(i as int)) || digits_value(s.take(i as int)) > limit,
        decreases len - i,
    {
        let b: u8 = text[i];
        proof {
            let next = s.take(i + 1);
            assert(next.drop_last() =~= s.take(i as int));
            assert(next.last() == b);
            if !all_digits(s.take(i as int)) {
                let j = choose|j: int| 0 <= j < i && !is_digit(#[trigger] s.take(i as int)[j]);
                assert(next[j] == s.take(i as int)[j]);
            }
        }
        if !over {
            if b < ZERO || b > ZERO + 9 {
                over = true;
                assert(!is_digit(s.take(i + 1)[i as int]));
            } else {
                assert(all_digits(s.take(i + 1))) by {
                    assert forall|j: int| 0 <= j < i + 1 implies is_digit(
                        #[trigger] s.take(i + 1)[j],
                    ) by {
                        if j < i {
                            assert(s.take(i + 1)[j] == s.take(i as int)[j]);
                        }
                    }
                }
                let grown: i64 = whole * 10 + (b - ZERO) as i64;
                if grown > limit {
                    over = true;
                } else {
                    whole = grown;
                }
            }
        } else {
            proof {
                if all_digits(s.take(i + 1)) {
                    assert forall|j: int| 0 <= j < i implies is_digit(
                        #[trigger] s.take(i as int)[j],
                    ) by {
                        assert(s.take(i + 1)[j] == s.take(i as int)[j]);
                    }
                    assert(is_digit(s.take(i + 1)[i as int]));
                }
            }
        }
        i = i + 1;
    }
    let point: usize = i;
    proof {
        if point < len {
            let next = s.take(point + 1);
            assert(next.drop_last() =~= s.take(point as int));
            assert(first_point(next) == point);
            lemma_first_point_stays(s, point + 1);
        } else {
            assert(s.take(point as int) =~= s);
        }
        assert(first_point(s) == point);
        assert(whole_part(s) == s.take(point as int));
    }
    let ghost fraction = fraction_part(s);
    let start: usize = if point < len {
        point + 1
    } else {
        len
    };
    assert(fraction =~= s.subrange(start as int, len as int));
    let mut ticks: i64 = 0;
    let mut counted: usize = 0;
    let mut bad: bool = false;
    let mut k: usize = start;
    // The digits after the point.
    while k < len
        invariant
            start <= k <= len,
            len == text.len(),
            s == text@,
            fraction == s.subrange(start as int, len as int),
            counted <= FRACTION_DIGITS,
            !bad ==> counted == (if k - start < FRACTION_DIGITS {
                k - start
            } else {
                FRACTION_DIGITS as int
            }),
            !bad ==> all_digits(fraction.take(k - start)),
            bad ==> !all_digits(fraction),
            !bad ==> ticks == digits_value(fraction.take(counted as int)),
            !bad ==> 0 <= ticks < pow10(counted as nat),
            pow10(counted as nat) <= 100_000_000,
        decreases len - k,
    {
        let b: u8 = text[k];
        assert(fraction[k - start] == b);
        if !bad {
            if b < ZERO || b > ZERO + 9 {
                bad = true;
                assert(!is_digit(fraction[k - start]));
            } else {
                assert(all_digits(fraction.take(k + 1 - start))) by {
                    assert forall|j: int| 0 <= j < k + 1 - start implies is_digit(
                        #[trigger] fraction.take(k + 1 - start)[j],
                    ) by {
                        if j < k - start {
                            assert(fraction.take(k + 1 - start)[j] == fraction.take(k - start)[j]);
                        }
                    }
                }
                if counted < FRACTION_DIGITS {
                    proof {
                        let next = fraction.take(counted + 1);
                        assert(next.drop_last() =~= fraction.take(counted as int));
                        assert(next.last() == b);
                        assert(pow10((counted + 1) as nat) == 10 * pow10(counted as nat));
                        reveal_with_fuel(pow10, 9);
                        assert(pow10(8) == 100_000_000);
                        lemma_pow10_grows((counted + 1) as nat, 8);
                    }
                    ticks = ticks * 10 + (b - ZERO) as i64;
                    counted = counted + 1;
                }
            }
        }
        k = k + 1;
    }
    proof {
        assert(fraction.take(len - start) =~= fraction);
        reveal_with_fuel(pow10, 9);
    }
    if over || bad {
        return None;
    }
    if point + (len - start) == 0 {
        return None;
    }
    assert(is_decimal(s));
    let mut scale: i64 = 1;
    let mut n: usize = counted;
    while n < FRACTION_DIGITS
        invariant
            counted <= n <= FRACTION_DIGITS,
            scale == pow10((n - counted) as nat),
            1 <= scale <= 100_000_000,
            pow10(counted as nat) * scale == pow10(n as nat),
            pow10(n as nat) <= 100_000_000,
        decreases FRACTION_DIGITS - n,
    {
        proof {
            reveal_with_fuel(pow10, 9);
            lemma_pow10_grows((n + 1) as nat, 8);
            assert(pow10((n + 1) as nat) == 10 * pow10(n as nat));
            assert(pow10((n + 1 - counted) as nat) == 10 * pow10((n - counted) as nat));
            assert(pow10(counted as nat) * (scale * 10) == 10 * (pow10(counted as nat) * scale))
                by (nonlinear_arith);
        }
        scale = scale * 10;
        n = n + 1;
    }
    proof {
        reveal_with_fuel(pow10, 9);
        assert(0 <= ticks * scale < 100_000_000) by (nonlinear_arith)
            requires
                0 <= ticks < pow10(counted as nat),
                pow10(counted as nat) * scale == 100_000_000,
                scale >= 1,
        ;
        if fraction.len() >= FRACTION_DIGITS {
            assert(scale == 1);
        }
        assert(ticks * scale == fraction_ticks(fraction));
    }
    let part: i64 = ticks * scale;
    assert(0 <= whole * PRICE_SCALE <= PRICE_LIMIT) by (nonlinear_arith)
        requires
            0 <= whole <= PRICE_LIMIT / PRICE_SCALE,
    ;
    let total: i64 = whole * PRICE_SCALE + part;
    if total > PRICE_LIMIT {
        None
    } else {
        Some(total)
    }
}

/// Powers of ten grow with the exponent.
pub proof fn lemma_pow10_grows(a: nat, b: nat)
    requires
        a <= b,
    ensures
        1 <= pow10(a) <= pow10(b),
    decreases b,
{
    if a < b {
        lemma_pow10_grows(a, (b - 1) as nat);
    } else if a > 0 {
        lemma_pow10_grows((a - 1) as nat, (a - 1) as nat);
    }
}

} // verus!
