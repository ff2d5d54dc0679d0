//! Sizes that are powers of two.

use vstd::arithmetic::power2::pow2;
use vstd::prelude::*;

verus! {

/// The first of `power`, twice `power`, four times `power` and so on that is not
/// below `value`.
pub open spec fn doubled_until(power: nat, value: nat) -> nat
    decreases
            if power < value {
                value - power
            } else {
                0
            },
{
    if power == 0 || power >= value {
        power
    } else {
        doubled_until(2 * power, value)
    }
}

/// The least power of two that is not below `value`.
pub open spec fn next_power(value: nat) -> nat {
    doubled_until(1, value)
}

/// Doubling from a power of two reaches the least power of two that is not below
/// the value.
proof fn lemma_doubled_until(power: nat, value: nat, exponent: nat)
    requires
        power == pow2(exponent),
    ensures
        doubled_until(power, value) >= power,
        doubled_until(power, value) >= value,
        exists|e: nat| #[trigger] pow2(e) == doubled_until(power, value),
        doubled_until(power, value) == power || doubled_until(power, value) < 2 * value,
    decreases
            if power < value {
                value - power
            } else {
                0
            },
{
    vstd::arithmetic::power2::lemma_pow2_pos(exponent);
    if power < value {
        vstd::arithmetic::power2::lemma_pow2_unfold(exponent + 1);
        lemma_doubled_until(2 * power, value, exponent + 1);
    }
}

/// The next power of two is a power of two, is not below the value, and no smaller
/// power of two is.
pub proof fn law_next_power_is_least(value: nat, exponent: nat)
    ensures
        exists|e: nat| #[trigger] pow2(e) == next_power(value),
        next_power(value) >= value,
        pow2(exponent) >= value ==> next_power(value) <= pow2(exponent),
{
    vstd::arithmetic::power2::lemma2_to64();
    lemma_doubled_until(1, value, 0);
    if pow2(exponent) >= value && next_power(value) > pow2(exponent) {
        let e = choose|e: nat| #[trigger] pow2(e) == next_power(value);
        if e <= exponent {
            if e < exponent {
                vstd::arithmetic::power2::lemma_pow2_strictly_increases(e, exponent);
            }
        } else {
            vstd::arithmetic::power2::lemma_pow2_unfold(e);
            if exponent < (e - 1) as nat {
                vstd::arithmetic::power2::lemma_pow2_strictly_increases(exponent, (e - 1) as nat);
            }
            vstd::arithmetic::power2::lemma_pow2_pos(exponent);
        }
    }
}

/// The next power of two of a value between another and its next power of two is
/// the same power of two.
pub proof fn law_next_power_is_steady(low: nat, high: nat)
    requires
        low <= high <= next_power(low),
    ensures
        next_power(high) == next_power(low),
{
    law_next_power_is_least(low, 0);
    law_next_power_is_least(high, 0);
    let el = choose|e: nat| #[trigger] pow2(e) == next_power(low);
    let eh = choose|e: nat| #[trigger] pow2(e) == next_power(high);
    law_next_power_is_least(low, eh);
    law_next_power_is_least(high, el);
}

/// Finds the least power of two that is not below `value`, if it can be
/// represented.
pub fn checked_next_power_of_two(value: u64) -> (power: Option<u64>)
    ensures
        power == (if next_power(value as nat) <= u64::MAX {
            Some(next_power(value as nat) as u64)
        } else {
            None
        }),
{
    let mut power: u64 = 1;
    while power < value
        invariant
            power >= 1,
            next_power(value as nat) == doubled_until(power as nat, value as nat),
    decreases
            if power < value {
                value - power
            } else {
                0
            },
    {
        if power > u64::MAX / 2 {
            assert(doubled_until(power as nat, value as nat) == doubled_until(
                2 * power as nat,
                value as nat,
            ));
            proof {
                lemma_doubled_not_below(2 * power as nat, value as nat);
            }
            return None;
        }
        power = power * 2;
    }
    Some(power)
}

proof fn lemma_doubled_not_below(power: nat, value: nat)
    ensures
        doubled_until(power, value) >= power,
    decreases
            if power < value {
                value - power
            } else {
                0
            },
{
    if power != 0 && power < value {
        lemma_doubled_not_below(2 * power, value);
    }
}

} // verus!
