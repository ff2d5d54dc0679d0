//! Questions about floating-point numbers, answered from their IEEE 754 bits.
//!
//! The bits below the sign order the non-negative numbers as the numbers
//! themselves are ordered, with infinity above every finite number and the bits of
//! a NaN above those of infinity.

use vstd::prelude::*;

verus! {

/// The sign bit of a single-precision number.
pub const F32_SIGN: u32 = 0x8000_0000;

/// The bits of single-precision infinity.
pub const F32_INFINITY: u32 = 0x7f80_0000;

/// The sign bit of a double-precision number.
pub const F64_SIGN: u64 = 0x8000_0000_0000_0000;

/// The bits of double-precision infinity.
pub const F64_INFINITY: u64 = 0x7ff0_0000_0000_0000;

/// The bits without the sign.
pub open spec fn f32_magnitude(bits: u32) -> u32 {
    bits % F32_SIGN
}

/// Neither infinite nor a NaN.
pub open spec fn f32_finite(bits: u32) -> bool {
    f32_magnitude(bits) < F32_INFINITY
}

/// Finite and above zero.
pub open spec fn f32_finite_positive(bits: u32) -> bool {
    0 < bits < F32_INFINITY
}

/// Finite and not below zero; negative zero is not below zero.
pub open spec fn f32_finite_nonnegative(bits: u32) -> bool {
    bits < F32_INFINITY || bits == F32_SIGN
}

/// Below one half, for a double-precision number; a NaN is not.
pub open spec fn f64_below_half(bits: u64) -> bool {
    if bits < F64_SIGN {
        bits < 0x3fe0_0000_0000_0000
    } else {
        bits - F64_SIGN <= F64_INFINITY
    }
}

/// Whether a double-precision number is below one half.
pub fn is_below_half_f64(bits: u64) -> (below: bool)
    ensures
        below == f64_below_half(bits),
{
    if bits < F64_SIGN {
        bits < 0x3fe0_0000_0000_0000
    } else {
        bits - F64_SIGN <= F64_INFINITY
    }
}

/// The bits of 1.0 in single precision.
pub const F32_ONE: u32 = 0x3f80_0000;

/// A NaN, in double precision.
pub open spec fn f64_is_nan(bits: u64) -> bool {
    bits % F64_SIGN > F64_INFINITY
}

/// Zero of either sign, in double precision.
pub open spec fn f64_is_zero(bits: u64) -> bool {
    bits == 0 || bits == F64_SIGN
}

/// Equal as double-precision numbers: the two zeros are, and no NaN is equal to
/// anything.
pub open spec fn f64_equal(a: u64, b: u64) -> bool {
    (f64_is_zero(a) && f64_is_zero(b)) || (a == b && !f64_is_nan(a))
}

/// Whether two double-precision numbers are equal.
pub fn equal_f64(a: u64, b: u64) -> (equal: bool)
    ensures
        equal == f64_equal(a, b),
{
    let both_zero: bool = (a == 0 || a == F64_SIGN) && (b == 0 || b == F64_SIGN);
    both_zero || (a == b && a % F64_SIGN <= F64_INFINITY)
}

/// Whether a double-precision number is a zero.
pub fn is_zero_f64(bits: u64) -> (zero: bool)
    ensures
        zero == f64_is_zero(bits),
{
    bits == 0 || bits == F64_SIGN
}

/// At least the positive number `limit`, in double precision; a NaN is not.
pub open spec fn f64_at_least(bits: u64, limit: u64) -> bool {
    limit <= bits <= F64_INFINITY
}

/// Whether a double-precision number is at least the positive number `limit`.
pub fn is_at_least_f64(bits: u64, limit: u64) -> (at_least: bool)
    requires
        0 < limit <= F64_INFINITY,
    ensures
        at_least == f64_at_least(bits, limit),
{
    limit <= bits && bits <= F64_INFINITY
}

/// Whether a single-precision number is finite.
pub fn is_finite_f32(bits: u32) -> (finite: bool)
    ensures
        finite == f32_finite(bits),
{
    bits % F32_SIGN < F32_INFINITY
}

/// Whether a single-precision number is finite and above zero.
pub fn is_finite_positive_f32(bits: u32) -> (positive: bool)
    ensures
        positive == f32_finite_positive(bits),
{
    0 < bits && bits < F32_INFINITY
}

/// A tolerance as it is used: what is not finite or is below zero counts as zero.
pub open spec fn usable_tolerance(bits: u32) -> u32 {
    if f32_finite_nonnegative(bits) {
        bits
    } else {
        0
    }
}

/// Makes a tolerance usable.
pub fn sanitize_tolerance(bits: u32) -> (tolerance: u32)
    ensures
        tolerance == usable_tolerance(bits),
{
    if bits < F32_INFINITY || bits == F32_SIGN {
        bits
    } else {
        0
    }
}

/// Whether an absolute difference is a mismatch: it is not finite, or above the
/// tolerance.
pub open spec fn is_mismatch(difference: u32, tolerance: u32) -> bool {
    !f32_finite(difference) || f32_magnitude(difference) > f32_magnitude(tolerance)
}

/// How many of the absolute differences are mismatches.
pub open spec fn mismatch_count(differences: Seq<u32>, tolerance: u32) -> nat
    decreases differences.len(),
{
    if differences.len() == 0 {
        0
    } else {
        mismatch_count(differences.drop_last(), tolerance) + if is_mismatch(
            differences.last(),
            tolerance,
        ) {
            1nat
        } else {
            0nat
        }
    }
}

/// The largest of the absolute differences, infinity where one is not finite.
pub open spec fn largest_difference(differences: Seq<u32>) -> u32
    decreases differences.len(),
{
    if differences.len() == 0 {
        0
    } else {
        let before = largest_difference(differences.drop_last());
        let last = if f32_finite(differences.last()) {
            f32_magnitude(differences.last())
        } else {
            F32_INFINITY
        };
        if last > before {
            last
        } else {
            before
        }
    }
}

/// What comparing outputs with their expected values found.
#[derive(Clone, Copy, PartialEq, Eq, Structural, Debug)]
pub struct DifferenceTally {
    pub mismatched: usize,
    pub max_abs_error: u32,
}

/// Tallies absolute differences, given by their bits.
pub fn tally_differences(differences: &[u32], tolerance: u32) -> (tally: DifferenceTally)
    ensures
        tally.mismatched == mismatch_count(differences@, tolerance),
        tally.max_abs_error == largest_difference(differences@),
{
    let mut mismatched: usize = 0;
    let mut max_abs_error: u32 = 0;
    let mut i: usize = 0;
    while i < differences.len()
        invariant
            i <= differences@.len(),
            mismatched <= i,
            mismatched == mismatch_count(differences@.take(i as int), tolerance),
            max_abs_error == largest_difference(differences@.take(i as int)),
        decreases differences@.len() - i,
    {
        let difference: u32 = differences[i];
        proof {
            let next = differences@.take(i + 1);
            assert(next.drop_last() =~= differences@.take(i as int));
            assert(next.last() == difference);
        }
        if !is_finite_f32(difference) {
            if F32_INFINITY > max_abs_error {
                max_abs_error = F32_INFINITY;
            }
            mismatched = mismatched + 1;
        } else {
            let magnitude: u32 = difference % F32_SIGN;
            if magnitude > max_abs_error {
                max_abs_error = magnitude;
            }
            if magnitude > tolerance % F32_SIGN {
                mismatched = mismatched + 1;
            }
        }
        i = i + 1;
    }
    assert(differences@.take(i as int) =~= differences@);
    DifferenceTally { mismatched, max_abs_error }
}

/// A tally without mismatches bounds every difference: all are finite and none is
/// above the tolerance.
pub proof fn law_no_mismatch_bounds_all(differences: Seq<u32>, tolerance: u32)
    ensures
        mismatch_count(differences, tolerance) <= differences.len(),
        mismatch_count(differences, tolerance) == 0 <==> forall|i: int|
            0 <= i < differences.len() ==> f32_finite(#[trigger] differences[i]) && f32_magnitude(
                differences[i],
            ) <= f32_magnitude(tolerance),
    decreases differences.len(),
{
    if differences.len() > 0 {
        let before = differences.drop_last();
        law_no_mismatch_bounds_all(before, tolerance);
        if mismatch_count(differences, tolerance) == 0 {
            assert forall|i: int| 0 <= i < differences.len() implies f32_finite(
                #[trigger] differences[i],
            ) && f32_magnitude(differences[i]) <= f32_magnitude(tolerance) by {
                if i < before.len() {
                    assert(before[i] == differences[i]);
                }
            }
        } else {
            if mismatch_count(before, tolerance) != 0 {
                let i = choose|i: int|
                    0 <= i < before.len() && !(f32_finite(#[trigger] before[i]) && f32_magnitude(
                        before[i],
                    ) <= f32_magnitude(tolerance));
                assert(differences[i] == before[i]);
            } else {
                assert(is_mismatch(differences[differences.len() - 1], tolerance));
            }
        }
    }
}

/// A number is finite exactly where the eight bits of its exponent are not all set, and
/// its sign does not matter for that.
pub proof fn law_finite_numbers_by_their_exponent(bits: u32)
    ensures
        f32_finite(bits) <==> (bits / 0x80_0000) % 256 != 255,
        f32_finite_positive(bits) <==> f32_finite(bits) && 1 <= bits < 0x8000_0000,
        f32_finite_nonnegative(bits) <==> f32_finite(bits) && (bits < 0x8000_0000 || bits
            == 0x8000_0000),
        bits < 0x8000_0000 ==> f32_magnitude(bits) == bits,
        bits >= 0x8000_0000 ==> f32_magnitude(bits) == bits - 0x8000_0000,
{
}

/// A number is below a half exactly where it is negative or its exponent is below that of
/// a half; a NaN is not. Two numbers are equal where their bits are and they are no NaN, or
/// where both are zero.
pub proof fn law_doubles_by_their_parts(bits: u64, other: u64)
    ensures
        ({
            let exponent = (bits / 0x10_0000_0000_0000) % 2048;
            let fraction = bits % 0x10_0000_0000_0000;
            let negative = bits >= 0x8000_0000_0000_0000;
            let nan = exponent == 2047 && fraction != 0;
            &&& f64_is_nan(bits) <==> nan
            &&& f64_below_half(bits) <==> !nan && (negative || exponent < 1022)
            &&& f64_is_zero(bits) <==> exponent == 0 && fraction == 0
            &&& nan ==> !f64_equal(bits, other) && !f64_equal(other, bits)
            &&& !nan ==> f64_equal(bits, bits)
            &&& f64_equal(bits, other) == f64_equal(other, bits)
            &&& f64_equal(bits, other) ==> bits == other || (f64_is_zero(bits) && f64_is_zero(
                other,
            ))
            &&& f64_is_zero(bits) && f64_is_zero(other) ==> f64_equal(bits, other)
        }),
{
}

/// A number is at least a limit that is positive exactly where it is positive, no NaN, and
/// its bits are not below those of the limit.
pub proof fn law_at_least_goes_up(bits: u64, more: u64, limit: u64)
    requires
        limit <= 0x7ff0_0000_0000_0000,
    ensures
        f64_at_least(limit, limit),
        f64_at_least(bits, limit) && bits <= more <= 0x7ff0_0000_0000_0000 ==> f64_at_least(
            more,
            limit,
        ),
        bits < limit ==> !f64_at_least(bits, limit),
        f64_is_nan(bits) || bits >= 0x8000_0000_0000_0000 ==> !f64_at_least(bits, limit),
{
}

/// A tolerance that is used is finite and not negative: the one given where it is, else
/// zero.
pub proof fn law_tolerance_is_usable(bits: u32)
    ensures
        f32_finite(usable_tolerance(bits)),
        usable_tolerance(bits) < 0x7f80_0000 || usable_tolerance(bits) == 0x8000_0000,
        bits < 0x7f80_0000 ==> usable_tolerance(bits) == bits,
        0x7f80_0000 <= bits < 0x8000_0000 ==> usable_tolerance(bits) == 0,
        bits > 0x8000_0000 ==> usable_tolerance(bits) == 0,
        usable_tolerance(usable_tolerance(bits)) == usable_tolerance(bits),
{
}

/// A difference of nothing never counts, one that is not finite always does, the sign does
/// not matter, one as large as the tolerance does not count, and what counts at a tolerance
/// counts at every smaller one and for every larger difference.
pub proof fn law_mismatches_are_above_the_tolerance(
    difference: u32,
    tolerance: u32,
    larger: u32,
    smaller: u32,
)
    requires
        difference < 0x8000_0000,
        larger < 0x8000_0000,
    ensures
        !is_mismatch(0, tolerance),
        difference >= 0x7f80_0000 ==> is_mismatch(difference, tolerance),
        is_mismatch(difference, tolerance) == is_mismatch(
            (difference + 0x8000_0000) as u32,
            tolerance,
        ),
        difference < 0x7f80_0000 ==> !is_mismatch(difference, difference),
        difference < 0x7f7f_ffff ==> is_mismatch((difference + 1) as u32, difference),
        is_mismatch(difference, tolerance) && difference <= larger ==> is_mismatch(
            larger,
            tolerance,
        ),
        is_mismatch(difference, tolerance) && f32_magnitude(smaller) <= f32_magnitude(tolerance)
            ==> is_mismatch(difference, smaller),
{
}

/// The largest difference is not below any that is finite, is infinite exactly where one is
/// not finite, and is otherwise one of them, without its sign.
pub proof fn law_largest_difference_bounds_all(differences: Seq<u32>)
    ensures
        forall|i: int|
            0 <= i < differences.len() ==> f32_magnitude(#[trigger] differences[i])
                <= largest_difference(differences) || largest_difference(differences)
                == 0x7f80_0000,
        largest_difference(differences) == 0x7f80_0000 <==> exists|i: int|
            0 <= i < differences.len() && !f32_finite(#[trigger] differences[i]),
        largest_difference(differences) <= 0x7f80_0000,
        largest_difference(differences) != 0 && largest_difference(differences) != 0x7f80_0000
            ==> exists|i: int|
            0 <= i < differences.len() && f32_magnitude(#[trigger] differences[i])
                == largest_difference(differences),
    decreases differences.len(),
{
    if differences.len() > 0 {
        let before = differences.drop_last();
        law_largest_difference_bounds_all(before);
        let n = differences.len() - 1;
        assert(forall|i: int| 0 <= i < n ==> before[i] == differences[i]);
        assert(differences[n] == differences.last());
        if largest_difference(before) == 0x7f80_0000 {
            let i = choose|i: int| 0 <= i < before.len() && !f32_finite(#[trigger] before[i]);
            assert(!f32_finite(differences[i]));
        }
        if exists|i: int| 0 <= i < differences.len() && !f32_finite(#[trigger] differences[i]) {
            let i = choose|i: int|
                0 <= i < differences.len() && !f32_finite(#[trigger] differences[i]);
            if i < n {
                assert(!f32_finite(before[i]));
            }
        }
        if largest_difference(before) != 0 && largest_difference(before) != 0x7f80_0000 {
            let i = choose|i: int|
                0 <= i < before.len() && f32_magnitude(#[trigger] before[i])
                    == largest_difference(before);
            assert(f32_magnitude(differences[i]) == largest_difference(before));
        }
    }
}

/// Mismatches are counted one by one: those of two lists together are those of each.
pub proof fn law_mismatches_add_up(first: Seq<u32>, second: Seq<u32>, tolerance: u32)
    ensures
        mismatch_count(first + second, tolerance) == mismatch_count(first, tolerance)
            + mismatch_count(second, tolerance),
        first.len() == 1 ==> mismatch_count(first, tolerance) == if is_mismatch(
            first[0],
            tolerance,
        ) {
            1nat
        } else {
            0
        },
    decreases second.len(),
{
    if first.len() == 1 {
        assert(first.drop_last() =~= Seq::empty());
        assert(mismatch_count(first.drop_last(), tolerance) == 0);
    }
    if second.len() == 0 {
        assert(first + second =~= first);
    } else {
        law_mismatches_add_up(first, second.drop_last(), tolerance);
        assert((first + second).drop_last() =~= first + second.drop_last());
        assert((first + second).last() == second.last());
    }
}

} // verus!
