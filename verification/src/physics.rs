//! The physics-informed loss.
//!
//! From a predicted set of tuning-fork dimensions the closed-form
//! cantilever-beam formula gives a resonance frequency; the loss is the
//! squared error against the target frequency plus one-sided squared-hinge
//! penalties for infeasible geometry.  Everything is exact integer
//! arithmetic over the fixed-point scales declared in `constants`:
//! micrometres for lengths, microhertz for frequencies, and loss values in
//! 10^-13 of the mixed (hertz^2 / metre^2) unit, so a weight of "5 tenths"
//! enters as the integer 5.  The batch mean is reported a further 10^6
//! finer, so that a positive loss in any admissible batch can never round
//! down to a zero mean.

use vstd::prelude::*;

verus! {

use crate::constants::{
    YOUNGS_MODULUS_GPA, DENSITY_KG_PER_M3, K_FACTOR_TENTH_MILLIS, PI_NANOS, TWO_PI_NANOS,
    PENALTY_WEIGHT_RATIO_TENTHS, PENALTY_WEIGHT_RANGE_TENTHS, PENALTY_WEIGHT_OTHER_TENTHS,
    FREQUENCY_WEIGHT_TENTHS, DIM_MAX_UM, TARGET_FREQ_MAX_UHZ, PREDICTED_FREQ_CAP_UHZ,
    BATCH_MAX, BATCH_MEAN_SCALE, RATIO_SCALE, FREQ_NUMER_SCALE, HANDLE_LENGTH_MIN_UM,
    HANDLE_LENGTH_MAX_UM, HANDLE_DIAMETER_MIN_UM, HANDLE_DIAMETER_MAX_UM, PRONG_LENGTH_MIN_UM, PRONG_LENGTH_MAX_UM,
    PRONG_DIAMETER_MIN_UM, PRONG_DIAMETER_MAX_UM, PRONG_GAP_MIN_UM, PRONG_GAP_MAX_UM,
};
use crate::math::{
    spec_isqrt, integer_sqrt, lemma_div_mul_split, lemma_square_nonneg, lemma_square_zero_iff,
    lemma_square_monotone,
};
use vstd::arithmetic::div_mod::{lemma_div_is_ordered, lemma_div_is_ordered_by_denominator};
use vstd::arithmetic::div_mod::{
    lemma_div_by_self, lemma_div_of0, lemma_div_pos_is_pos, lemma_multiply_divide_le,
};
use vstd::arithmetic::mul::{
    lemma_mul_basics, lemma_mul_equality_converse, lemma_mul_inequality, lemma_mul_nonnegative,
    lemma_mul_upper_bound,
};

/// The five physical dimensions of a tuning fork, in micrometres, in the
/// fixed schema order: handle length, handle diameter, prong length, prong
/// diameter, prong gap.
#[derive(Clone, Copy, Debug, PartialEq, Eq, Structural)]
pub struct DimensionVector {
    /// Length of the handle, um.
    pub handle_length_um: u64,
    /// Diameter of the handle, um.
    pub handle_diameter_um: u64,
    /// Length of each prong, um.
    pub prong_length_um: u64,
    /// Diameter of each prong, um.
    pub prong_diameter_um: u64,
    /// Gap between the prongs, um.
    pub prong_gap_um: u64,
}

/// The domain of the fixed-point loss: every dimension fits in a metre, and
/// the prong length is positive (the surrogate's output activation keeps
/// every dimension strictly positive; the formula divides by its square).
/// The prong diameter may still be zero: the loss must absorb that case.
pub open spec fn dim_valid(d: DimensionVector) -> bool {
    &&& d.handle_length_um <= DIM_MAX_UM
    &&& d.handle_diameter_um <= DIM_MAX_UM
    &&& d.prong_length_um <= DIM_MAX_UM
    &&& d.prong_diameter_um <= DIM_MAX_UM
    &&& d.prong_gap_um <= DIM_MAX_UM
    &&& 1 <= d.prong_length_um
}

/// Every dimension lies inside its geometric feasibility range.
pub open spec fn spec_within_bounds(d: DimensionVector) -> bool {
    &&& HANDLE_LENGTH_MIN_UM <= d.handle_length_um <= HANDLE_LENGTH_MAX_UM
    &&& HANDLE_DIAMETER_MIN_UM <= d.handle_diameter_um <= HANDLE_DIAMETER_MAX_UM
    &&& PRONG_LENGTH_MIN_UM <= d.prong_length_um <= PRONG_LENGTH_MAX_UM
    &&& PRONG_DIAMETER_MIN_UM <= d.prong_diameter_um <= PRONG_DIAMETER_MAX_UM
    &&& PRONG_GAP_MIN_UM <= d.prong_gap_um <= PRONG_GAP_MAX_UM
}

/// A fully feasible geometry: within every bound, and the prongs do not
/// exceed the handle.
pub open spec fn spec_feasible(d: DimensionVector) -> bool {
    spec_within_bounds(d) && d.prong_length_um <= d.handle_length_um
}

/// The closed-form cantilever-beam resonance frequency, in microhertz.
///
/// With `d` the prong diameter and `L` the prong length: cross-sectional
/// area `A = pi d^2 / 4`, second moment `I = pi d^4 / 64`, stiffness
/// `S = E I`, mass per length `M = rho A`, and
/// `f = (K / 2 pi) sqrt(S / M) / L^2`.  Each step carries an explicit power
/// of ten: `area` and `mass` hold 10^21 times their SI value, `moment` holds
/// 10^33 times, `stiffness` 10^24 times, so the scaled ratio carries 10^10
/// and its root 10^5.  A zero mass term (diameter 0) yields frequency 0, the
/// role the epsilon guard plays in the real-valued formula; a result beyond
/// `PREDICTED_FREQ_CAP_UHZ` saturates there.
pub open spec fn spec_predicted_freq_uhz(d: DimensionVector) -> int {
    let dd = d.prong_diameter_um as int;
    let ll = d.prong_length_um as int;
    let d2 = dd * dd;
    let area = d2 * PI_NANOS / 4;
    let mass = area * DENSITY_KG_PER_M3;
    let moment = d2 * d2 * PI_NANOS / 64;
    let stiffness = moment * YOUNGS_MODULUS_GPA;
    if mass == 0 {
        0
    } else {
        let ratio = stiffness * RATIO_SCALE / mass;
        let root = spec_isqrt(ratio as nat) as int;
        let raw = K_FACTOR_TENTH_MILLIS * root * FREQ_NUMER_SCALE / (TWO_PI_NANOS * ll * ll);
        if raw > PREDICTED_FREQ_CAP_UHZ {
            PREDICTED_FREQ_CAP_UHZ as int
        } else {
            raw
        }
    }
}

/// Computes the predicted resonance frequency of a dimension vector.
pub fn predicted_frequency_uhz(d: &DimensionVector) -> (f: u64)
    requires
        dim_valid(*d),
    ensures
        f == spec_predicted_freq_uhz(*d),
        f <= PREDICTED_FREQ_CAP_UHZ,
{
    let dd: u128 = d.prong_diameter_um as u128;
    let ll: u128 = d.prong_length_um as u128;
    assert(dd * dd <= 1_000_000_000_000) by (nonlinear_arith)
        requires
            dd <= 1_000_000,
    ;
    let d2: u128 = dd * dd;
    proof {
        lemma_mul_upper_bound(d2 as int, 1_000_000_000_000, PI_NANOS as int, 3_141_592_653);
        lemma_div_is_ordered(
            d2 * (PI_NANOS as u128),
            3_141_592_653_000_000_000_000,
            4,
        );
    }
    let area: u128 = d2 * (PI_NANOS as u128) / 4;
    proof {
        lemma_mul_upper_bound(
            area as int,
            785_398_163_250_000_000_000,
            DENSITY_KG_PER_M3 as int,
            8000,
        );
    }
    let mass: u128 = area * (DENSITY_KG_PER_M3 as u128);
    assert(d2 * d2 <= 1_000_000_000_000_000_000_000_000) by (nonlinear_arith)
        requires
            d2 <= 1_000_000_000_000,
    ;
    proof {
        lemma_mul_upper_bound(
            (d2 * d2) as int,
            1_000_000_000_000_000_000_000_000,
            PI_NANOS as int,
            3_141_592_653,
        );
        lemma_div_is_ordered(
            d2 * d2 * (PI_NANOS as u128),
            3_141_592_653_000_000_000_000_000_000_000_000,
            64,
        );
    }
    let moment: u128 = d2 * d2 * (PI_NANOS as u128) / 64;
    proof {
        lemma_mul_upper_bound(
            moment as int,
            49_087_385_203_125_000_000_000_000_000_000,
            YOUNGS_MODULUS_GPA as int,
            193,
        );
    }
    let stiffness: u128 = moment * (YOUNGS_MODULUS_GPA as u128);
    if mass == 0 {
        0
    } else {
        // The product `stiffness * RATIO_SCALE` itself can exceed u128, so
        // the quotient is assembled from the whole part and the remainder.
        let q: u128 = stiffness / mass;
        let r: u128 = stiffness % mass;
        proof {
            // Once the diameter is nonzero, mass >= 8000 * floor(PI_NANOS / 4).
            assert(d2 >= 1);
            lemma_mul_inequality(1, d2 as int, PI_NANOS as int);
            lemma_div_is_ordered(3_141_592_653, d2 * (PI_NANOS as u128), 4);
            assert(area >= 785_398_163);
            lemma_mul_inequality(785_398_163, area as int, DENSITY_KG_PER_M3 as int);
            assert(mass >= 6_283_185_304_000);
            lemma_div_is_ordered_by_denominator(
                stiffness as int,
                6_283_185_304_000,
                mass as int,
            );
            lemma_div_is_ordered(
                stiffness as int,
                9_473_865_344_203_125_000_000_000_000_000_000,
                6_283_185_304_000,
            );
            assert(q <= 9_473_865_344_203_125_000_000_000_000_000_000int / 6_283_185_304_000int);
            assert(q <= 1_507_812_500_479_951_625_504);
            lemma_mul_upper_bound(
                q as int,
                1_507_812_500_479_951_625_504,
                RATIO_SCALE as int,
                10_000_000,
            );
            assert(r < mass);
            lemma_mul_upper_bound(
                r as int,
                6_283_185_306_000_000_000_000_000,
                RATIO_SCALE as int,
                10_000_000,
            );
            lemma_mul_inequality(r as int, mass as int, RATIO_SCALE as int);
            vstd::arithmetic::div_mod::lemma_multiply_divide_lt(
                r * RATIO_SCALE,
                mass as int,
                RATIO_SCALE as int,
            );
            lemma_div_mul_split(stiffness as int, mass as int, RATIO_SCALE as int);
        }
        let ratio: u128 = q * RATIO_SCALE + r * RATIO_SCALE / mass;
        assert(ratio == stiffness * RATIO_SCALE / (mass as int));
        assert(ratio <= 16_000_000_000_000_000_000_000_000_000);
        let root: u128 = integer_sqrt(ratio);
        proof {
            assert(root <= 127_000_000_000_000) by (nonlinear_arith)
                requires
                    root * root <= ratio,
                    ratio <= 16_000_000_000_000_000_000_000_000_000,
            ;
            lemma_mul_upper_bound(K_FACTOR_TENTH_MILLIS as int, 35160, root as int, 127_000_000_000_000);
            lemma_mul_upper_bound(
                (K_FACTOR_TENTH_MILLIS as int) * (root as int),
                4_465_320_000_000_000_000,
                FREQ_NUMER_SCALE as int,
                1_000_000_000_000_000_000,
            );
        }
        assert(ll * ll >= 1 && ll * ll <= 1_000_000_000_000) by (nonlinear_arith)
            requires
                1 <= ll <= 1_000_000,
        ;
        let ll2: u128 = ll * ll;
        proof {
            lemma_mul_upper_bound(TWO_PI_NANOS as int, 6_283_185_307, ll2 as int, 1_000_000_000_000);
            lemma_mul_inequality(1, ll2 as int, TWO_PI_NANOS as int);
            vstd::arithmetic::mul::lemma_mul_is_associative(
                TWO_PI_NANOS as int,
                ll as int,
                ll as int,
            );
            vstd::arithmetic::mul::lemma_mul_is_commutative(TWO_PI_NANOS as int, ll2 as int);
        }
        let numer: u128 = (K_FACTOR_TENTH_MILLIS as u128) * root * FREQ_NUMER_SCALE;
        let denom: u128 = (TWO_PI_NANOS as u128) * ll2;
        let raw: u128 = numer / denom;
        if raw > PREDICTED_FREQ_CAP_UHZ as u128 {
            PREDICTED_FREQ_CAP_UHZ
        } else {
            raw as u64
        }
    }
}


/// How far `x` falls short of the lower bound `lo` (zero when satisfied).
pub open spec fn spec_shortfall(x: int, lo: int) -> int {
    if x < lo {
        lo - x
    } else {
        0
    }
}

/// How far `x` exceeds the upper bound `hi` (zero when satisfied).
pub open spec fn spec_excess(x: int, hi: int) -> int {
    if x > hi {
        x - hi
    } else {
        0
    }
}

/// One-sided squared-hinge range penalty of a dimension against its bounds,
/// in squared micrometres.
pub open spec fn spec_range_penalty(x: int, lo: int, hi: int) -> int {
    spec_shortfall(x, lo) * spec_shortfall(x, lo) + spec_excess(x, hi) * spec_excess(x, hi)
}

/// Squared-hinge penalty for prongs longer than the handle, in squared
/// micrometres.
pub open spec fn spec_ratio_penalty(prong_length: int, handle_length: int) -> int {
    spec_excess(prong_length, handle_length) * spec_excess(prong_length, handle_length)
}

/// Squared error between the predicted and the target frequency, in squared
/// microhertz.
pub open spec fn spec_freq_error_sq(d: DimensionVector, target_uhz: int) -> int {
    let e = spec_predicted_freq_uhz(d) - target_uhz;
    e * e
}

/// Combined range penalty of the two frequency-critical dimensions.
pub open spec fn spec_primary_range_penalty(d: DimensionVector) -> int {
    spec_range_penalty(
        d.prong_diameter_um as int,
        PRONG_DIAMETER_MIN_UM as int,
        PRONG_DIAMETER_MAX_UM as int,
    ) + spec_range_penalty(
        d.prong_length_um as int,
        PRONG_LENGTH_MIN_UM as int,
        PRONG_LENGTH_MAX_UM as int,
    )
}

/// Combined range penalty of the three remaining dimensions.
pub open spec fn spec_secondary_range_penalty(d: DimensionVector) -> int {
    spec_range_penalty(
        d.handle_length_um as int,
        HANDLE_LENGTH_MIN_UM as int,
        HANDLE_LENGTH_MAX_UM as int,
    ) + spec_range_penalty(
        d.handle_diameter_um as int,
        HANDLE_DIAMETER_MIN_UM as int,
        HANDLE_DIAMETER_MAX_UM as int,
    ) + spec_range_penalty(
        d.prong_gap_um as int,
        PRONG_GAP_MIN_UM as int,
        PRONG_GAP_MAX_UM as int,
    )
}

/// The per-example loss: weighted sum of the squared frequency error and
/// the feasibility penalties, in tenths of the mixed squared unit.
pub open spec fn spec_example_loss(d: DimensionVector, target_uhz: int) -> int {
    FREQUENCY_WEIGHT_TENTHS * spec_freq_error_sq(d, target_uhz)
        + PENALTY_WEIGHT_RATIO_TENTHS * spec_ratio_penalty(
        d.prong_length_um as int,
        d.handle_length_um as int,
    ) + PENALTY_WEIGHT_RANGE_TENTHS * spec_primary_range_penalty(d)
        + PENALTY_WEIGHT_OTHER_TENTHS * spec_secondary_range_penalty(d)
}

/// Coarse ceiling on the per-example loss over the whole domain of
/// `dim_valid` dimensions and admissible targets; it makes batch sums
/// provably free of overflow.
pub const EXAMPLE_LOSS_CEIL: u128 = 20_000_000_000_000_000_000_000_000_000_000;

/// One-sided squared-hinge penalty of one dimension against its range.
fn range_penalty_um2(x: u64, lo: u64, hi: u64) -> (p: u128)
    requires
        x <= DIM_MAX_UM,
        lo <= DIM_MAX_UM,
        hi <= DIM_MAX_UM,
    ensures
        p == spec_range_penalty(x as int, lo as int, hi as int),
        p <= 2_000_000_000_000,
{
    let below: u64 = if x < lo {
        lo - x
    } else {
        0
    };
    let above: u64 = if x > hi {
        x - hi
    } else {
        0
    };
    assert(below * below <= 1_000_000_000_000 && above * above <= 1_000_000_000_000)
        by (nonlinear_arith)
        requires
            below <= 1_000_000,
            above <= 1_000_000,
    ;
    (below as u128) * (below as u128) + (above as u128) * (above as u128)
}

/// Squared-hinge penalty for prongs longer than the handle.
fn ratio_penalty_um2(prong_length: u64, handle_length: u64) -> (p: u128)
    requires
        prong_length <= DIM_MAX_UM,
        handle_length <= DIM_MAX_UM,
    ensures
        p == spec_ratio_penalty(prong_length as int, handle_length as int),
        p <= 1_000_000_000_000,
{
    let over: u64 = if prong_length > handle_length {
        prong_length - handle_length
    } else {
        0
    };
    assert(over * over <= 1_000_000_000_000) by (nonlinear_arith)
        requires
            over <= 1_000_000,
    ;
    (over as u128) * (over as u128)
}

/// Computes the loss of a single predicted geometry against its target.
pub fn example_loss(d: &DimensionVector, target_uhz: u64) -> (l: u128)
    requires
        dim_valid(*d),
        target_uhz <= TARGET_FREQ_MAX_UHZ,
    ensures
        l == spec_example_loss(*d, target_uhz as int),
        l <= EXAMPLE_LOSS_CEIL,
{
    let f: u64 = predicted_frequency_uhz(d);
    let diff: u64 = if f >= target_uhz {
        f - target_uhz
    } else {
        target_uhz - f
    };
    proof {
        assert(diff * diff == spec_freq_error_sq(*d, target_uhz as int)) by (nonlinear_arith)
            requires
                diff == if f >= target_uhz {
                    f - target_uhz
                } else {
                    target_uhz - f
                },
                spec_freq_error_sq(*d, target_uhz as int) == (f - target_uhz) * (f
                    - target_uhz),
        ;
        assert(diff * diff <= 1_000_000_000_000_000_000_000_000_000_000) by (nonlinear_arith)
            requires
                diff <= 1_000_000_000_000_000,
        ;
    }
    let freq_sq: u128 = (diff as u128) * (diff as u128);
    let ratio_pen: u128 = ratio_penalty_um2(d.prong_length_um, d.handle_length_um);
    let primary: u128 = range_penalty_um2(
        d.prong_diameter_um,
        PRONG_DIAMETER_MIN_UM,
        PRONG_DIAMETER_MAX_UM,
    ) + range_penalty_um2(d.prong_length_um, PRONG_LENGTH_MIN_UM, PRONG_LENGTH_MAX_UM);
    let secondary: u128 = range_penalty_um2(
        d.handle_length_um,
        HANDLE_LENGTH_MIN_UM,
        HANDLE_LENGTH_MAX_UM,
    ) + range_penalty_um2(d.handle_diameter_um, HANDLE_DIAMETER_MIN_UM, HANDLE_DIAMETER_MAX_UM)
        + range_penalty_um2(d.prong_gap_um, PRONG_GAP_MIN_UM, PRONG_GAP_MAX_UM);
    proof {
        lemma_mul_upper_bound(
            FREQUENCY_WEIGHT_TENTHS as int,
            10,
            freq_sq as int,
            1_000_000_000_000_000_000_000_000_000_000,
        );
        lemma_mul_upper_bound(PENALTY_WEIGHT_RATIO_TENTHS as int, 5, ratio_pen as int, 1_000_000_000_000);
        lemma_mul_upper_bound(PENALTY_WEIGHT_RANGE_TENTHS as int, 100, primary as int, 4_000_000_000_000);
        lemma_mul_upper_bound(PENALTY_WEIGHT_OTHER_TENTHS as int, 50, secondary as int, 6_000_000_000_000);
    }
    (FREQUENCY_WEIGHT_TENTHS as u128) * freq_sq + (PENALTY_WEIGHT_RATIO_TENTHS as u128)
        * ratio_pen + (PENALTY_WEIGHT_RANGE_TENTHS as u128) * primary
        + (PENALTY_WEIGHT_OTHER_TENTHS as u128) * secondary
}


/// Sum of the per-example losses over a batch, recursing on the last
/// element.
pub open spec fn spec_batch_loss_sum(ds: Seq<DimensionVector>, ts: Seq<u64>) -> int
    decreases ds.len(),
{
    if ds.len() == 0 {
        0
    } else {
        spec_batch_loss_sum(ds.drop_last(), ts.drop_last()) + spec_example_loss(
            ds.last(),
            ts.last() as int,
        )
    }
}

/// The batch loss: the arithmetic mean of the per-example losses, reported
/// in millionths of the per-example grain and rounded towards zero there.
/// `BATCH_MEAN_SCALE` is at least `BATCH_MAX`, so the rounding can never
/// turn a positive summed loss into a zero mean.
pub open spec fn spec_batch_loss_mean(ds: Seq<DimensionVector>, ts: Seq<u64>) -> int {
    spec_batch_loss_sum(ds, ts) * BATCH_MEAN_SCALE / (ds.len() as int)
}

/// Computes the summed loss of a batch of predictions against the matching
/// targets.
pub fn tuning_fork_loss_sum(
    predicted_dims: &Vec<DimensionVector>,
    target_freqs_uhz: &Vec<u64>,
) -> (sum: u128)
    requires
        predicted_dims@.len() == target_freqs_uhz@.len(),
        predicted_dims@.len() <= BATCH_MAX,
        forall|i: int| 0 <= i < predicted_dims@.len() ==> dim_valid(predicted_dims@[i]),
        forall|i: int|
            0 <= i < target_freqs_uhz@.len() ==> target_freqs_uhz@[i] <= TARGET_FREQ_MAX_UHZ,
    ensures
        sum == spec_batch_loss_sum(predicted_dims@, target_freqs_uhz@),
        sum <= predicted_dims@.len() * EXAMPLE_LOSS_CEIL,
{
    let n: usize = predicted_dims.len();
    let mut acc: u128 = 0;
    let mut i: usize = 0;
    while i < n
        invariant
            i <= n,
            n == predicted_dims@.len() == target_freqs_uhz@.len(),
            n <= BATCH_MAX,
            forall|j: int| 0 <= j < predicted_dims@.len() ==> dim_valid(predicted_dims@[j]),
            forall|j: int|
                0 <= j < target_freqs_uhz@.len() ==> target_freqs_uhz@[j] <= TARGET_FREQ_MAX_UHZ,
            acc == spec_batch_loss_sum(
                predicted_dims@.take(i as int),
                target_freqs_uhz@.take(i as int),
            ),
            acc <= (i as int) * (EXAMPLE_LOSS_CEIL as int),
        decreases n - i,
    {
        let d: DimensionVector = predicted_dims[i];
        let l: u128 = example_loss(&d, target_freqs_uhz[i]);
        proof {
            let dpre = predicted_dims@.take(i as int);
            let tpre = target_freqs_uhz@.take(i as int);
            let dcur = predicted_dims@.take(i + 1);
            let tcur = target_freqs_uhz@.take(i + 1);
            assert(dcur.drop_last() =~= dpre);
            assert(tcur.drop_last() =~= tpre);
            assert(dcur.last() == predicted_dims@[i as int]);
            assert(tcur.last() == target_freqs_uhz@[i as int]);
        }
        acc = acc + l;
        i = i + 1;
    }
    proof {
        assert(predicted_dims@.take(n as int) =~= predicted_dims@);
        assert(target_freqs_uhz@.take(n as int) =~= target_freqs_uhz@);
    }
    acc
}

/// Computes the batch loss: the mean per-example loss of a batch of
/// predictions against the matching targets, in millionths of the
/// per-example grain.  The product `sum * BATCH_MEAN_SCALE` can exceed
/// u128, so the quotient is assembled from the whole part and the
/// remainder.
pub fn tuning_fork_loss(
    predicted_dims: &Vec<DimensionVector>,
    target_freqs_uhz: &Vec<u64>,
) -> (loss: u128)
    requires
        predicted_dims@.len() == target_freqs_uhz@.len(),
        1 <= predicted_dims@.len() <= BATCH_MAX,
        forall|i: int| 0 <= i < predicted_dims@.len() ==> dim_valid(predicted_dims@[i]),
        forall|i: int|
            0 <= i < target_freqs_uhz@.len() ==> target_freqs_uhz@[i] <= TARGET_FREQ_MAX_UHZ,
    ensures
        loss == spec_batch_loss_mean(predicted_dims@, target_freqs_uhz@),
{
    let sum: u128 = tuning_fork_loss_sum(predicted_dims, target_freqs_uhz);
    let n: usize = predicted_dims.len();
    proof {
        lemma_multiply_divide_le(sum as int, n as int, EXAMPLE_LOSS_CEIL as int);
        lemma_mul_upper_bound(
            (sum as int) / (n as int),
            EXAMPLE_LOSS_CEIL as int,
            BATCH_MEAN_SCALE as int,
            1_000_000,
        );
        lemma_mul_upper_bound(
            (sum as int) % (n as int),
            1_000_000,
            BATCH_MEAN_SCALE as int,
            1_000_000,
        );
        lemma_div_mul_split(sum as int, n as int, BATCH_MEAN_SCALE as int);
    }
    sum / (n as u128) * BATCH_MEAN_SCALE + sum % (n as u128) * BATCH_MEAN_SCALE / (n as u128)
}


/// A range penalty is never negative, and vanishes exactly on the
/// satisfied range.
proof fn lemma_range_penalty_zero_iff(x: int, lo: int, hi: int)
    ensures
        spec_range_penalty(x, lo, hi) >= 0,
        spec_range_penalty(x, lo, hi) == 0 <==> lo <= x <= hi,
{
    lemma_square_nonneg(spec_shortfall(x, lo));
    lemma_square_nonneg(spec_excess(x, hi));
    lemma_square_zero_iff(spec_shortfall(x, lo));
    lemma_square_zero_iff(spec_excess(x, hi));
}

/// The ratio penalty is never negative, and vanishes exactly when the
/// prongs do not exceed the handle.
proof fn lemma_ratio_penalty_zero_iff(prong_length: int, handle_length: int)
    ensures
        spec_ratio_penalty(prong_length, handle_length) >= 0,
        spec_ratio_penalty(prong_length, handle_length) == 0 <==> prong_length <= handle_length,
{
    lemma_square_nonneg(spec_excess(prong_length, handle_length));
    lemma_square_zero_iff(spec_excess(prong_length, handle_length));
}

/// On a fully feasible geometry every penalty term is exactly zero, so the
/// total loss is the weighted frequency loss alone.
pub proof fn lemma_feasible_penalties_vanish(d: DimensionVector, target_uhz: int)
    requires
        spec_feasible(d),
    ensures
        spec_ratio_penalty(d.prong_length_um as int, d.handle_length_um as int) == 0,
        spec_primary_range_penalty(d) == 0,
        spec_secondary_range_penalty(d) == 0,
        spec_example_loss(d, target_uhz) == FREQUENCY_WEIGHT_TENTHS * spec_freq_error_sq(
            d,
            target_uhz,
        ),
{
    lemma_ratio_penalty_zero_iff(d.prong_length_um as int, d.handle_length_um as int);
    lemma_range_penalty_zero_iff(
        d.prong_diameter_um as int,
        PRONG_DIAMETER_MIN_UM as int,
        PRONG_DIAMETER_MAX_UM as int,
    );
    lemma_range_penalty_zero_iff(
        d.prong_length_um as int,
        PRONG_LENGTH_MIN_UM as int,
        PRONG_LENGTH_MAX_UM as int,
    );
    lemma_range_penalty_zero_iff(
        d.handle_length_um as int,
        HANDLE_LENGTH_MIN_UM as int,
        HANDLE_LENGTH_MAX_UM as int,
    );
    lemma_range_penalty_zero_iff(
        d.handle_diameter_um as int,
        HANDLE_DIAMETER_MIN_UM as int,
        HANDLE_DIAMETER_MAX_UM as int,
    );
    lemma_range_penalty_zero_iff(
        d.prong_gap_um as int,
        PRONG_GAP_MIN_UM as int,
        PRONG_GAP_MAX_UM as int,
    );
    lemma_mul_basics(PENALTY_WEIGHT_RATIO_TENTHS as int);
    lemma_mul_basics(PENALTY_WEIGHT_RANGE_TENTHS as int);
    lemma_mul_basics(PENALTY_WEIGHT_OTHER_TENTHS as int);
}

/// Weighted frequency loss summed over a batch, recursing on the last
/// element in step with `spec_batch_loss_sum`.
pub open spec fn spec_batch_freq_loss_sum(ds: Seq<DimensionVector>, ts: Seq<u64>) -> int
    decreases ds.len(),
{
    if ds.len() == 0 {
        0
    } else {
        spec_batch_freq_loss_sum(ds.drop_last(), ts.drop_last()) + FREQUENCY_WEIGHT_TENTHS
            * spec_freq_error_sq(ds.last(), ts.last() as int)
    }
}

/// On a batch of fully feasible geometries the total loss is the frequency
/// loss alone: every penalty term of every example is exactly zero.
pub proof fn lemma_feasible_batch_loss_is_frequency_loss(ds: Seq<DimensionVector>, ts: Seq<u64>)
    requires
        ds.len() == ts.len(),
        forall|i: int| 0 <= i < ds.len() ==> spec_feasible(#[trigger] ds[i]),
    ensures
        spec_batch_loss_sum(ds, ts) == spec_batch_freq_loss_sum(ds, ts),
    decreases ds.len(),
{
    if ds.len() > 0 {
        assert(spec_feasible(ds[ds.len() - 1]));
        lemma_feasible_penalties_vanish(ds.last(), ts.last() as int);
        assert(forall|i: int|
            0 <= i < ds.drop_last().len() ==> spec_feasible(#[trigger] ds.drop_last()[i]));
        lemma_feasible_batch_loss_is_frequency_loss(ds.drop_last(), ts.drop_last());
    }
}

/// The per-example loss is never negative, and is zero exactly in the
/// degenerate case: the predicted frequency matches the target and the
/// geometry is fully feasible.
pub proof fn lemma_example_loss_zero_iff(d: DimensionVector, target_uhz: int)
    ensures
        spec_example_loss(d, target_uhz) >= 0,
        spec_example_loss(d, target_uhz) == 0 <==> (spec_predicted_freq_uhz(d) == target_uhz
            && spec_feasible(d)),
{
    let err = spec_predicted_freq_uhz(d) - target_uhz;
    let rp = spec_ratio_penalty(d.prong_length_um as int, d.handle_length_um as int);
    let pp = spec_primary_range_penalty(d);
    let sp = spec_secondary_range_penalty(d);
    lemma_square_nonneg(err);
    lemma_square_zero_iff(err);
    lemma_ratio_penalty_zero_iff(d.prong_length_um as int, d.handle_length_um as int);
    lemma_range_penalty_zero_iff(
        d.prong_diameter_um as int,
        PRONG_DIAMETER_MIN_UM as int,
        PRONG_DIAMETER_MAX_UM as int,
    );
    lemma_range_penalty_zero_iff(
        d.prong_length_um as int,
        PRONG_LENGTH_MIN_UM as int,
        PRONG_LENGTH_MAX_UM as int,
    );
    lemma_range_penalty_zero_iff(
        d.handle_length_um as int,
        HANDLE_LENGTH_MIN_UM as int,
        HANDLE_LENGTH_MAX_UM as int,
    );
    lemma_range_penalty_zero_iff(
        d.handle_diameter_um as int,
        HANDLE_DIAMETER_MIN_UM as int,
        HANDLE_DIAMETER_MAX_UM as int,
    );
    lemma_range_penalty_zero_iff(
        d.prong_gap_um as int,
        PRONG_GAP_MIN_UM as int,
        PRONG_GAP_MAX_UM as int,
    );
    lemma_mul_nonnegative(FREQUENCY_WEIGHT_TENTHS as int, err * err);
    lemma_mul_nonnegative(PENALTY_WEIGHT_RATIO_TENTHS as int, rp);
    lemma_mul_nonnegative(PENALTY_WEIGHT_RANGE_TENTHS as int, pp);
    lemma_mul_nonnegative(PENALTY_WEIGHT_OTHER_TENTHS as int, sp);
    lemma_mul_basics(FREQUENCY_WEIGHT_TENTHS as int);
    lemma_mul_basics(PENALTY_WEIGHT_RATIO_TENTHS as int);
    lemma_mul_basics(PENALTY_WEIGHT_RANGE_TENTHS as int);
    lemma_mul_basics(PENALTY_WEIGHT_OTHER_TENTHS as int);
    if spec_example_loss(d, target_uhz) == 0 {
        lemma_mul_equality_converse(FREQUENCY_WEIGHT_TENTHS as int, err * err, 0);
        lemma_mul_equality_converse(PENALTY_WEIGHT_RATIO_TENTHS as int, rp, 0);
        lemma_mul_equality_converse(PENALTY_WEIGHT_RANGE_TENTHS as int, pp, 0);
        lemma_mul_equality_converse(PENALTY_WEIGHT_OTHER_TENTHS as int, sp, 0);
    }
}

/// A batch loss sum is never negative, and is zero exactly when every
/// example's loss is zero.
pub proof fn lemma_batch_loss_sum_zero_iff(ds: Seq<DimensionVector>, ts: Seq<u64>)
    requires
        ds.len() == ts.len(),
    ensures
        spec_batch_loss_sum(ds, ts) >= 0,
        spec_batch_loss_sum(ds, ts) == 0 <==> forall|i: int|
            0 <= i < ds.len() ==> spec_example_loss(#[trigger] ds[i], ts[i] as int) == 0,
    decreases ds.len(),
{
    if ds.len() > 0 {
        lemma_example_loss_zero_iff(ds.last(), ts.last() as int);
        lemma_batch_loss_sum_zero_iff(ds.drop_last(), ts.drop_last());
        assert(ds.last() == ds[ds.len() - 1]);
        if spec_batch_loss_sum(ds, ts) == 0 {
            assert forall|i: int| 0 <= i < ds.len() implies spec_example_loss(
                #[trigger] ds[i],
                ts[i] as int,
            ) == 0 by {
                if i < ds.len() - 1 {
                    assert(ds.drop_last()[i] == ds[i]);
                    assert(ts.drop_last()[i] == ts[i]);
                    assert(spec_example_loss(ds.drop_last()[i], ts.drop_last()[i] as int) == 0);
                }
            }
        }
        if forall|i: int| 0 <= i < ds.len() ==> spec_example_loss(#[trigger] ds[i], ts[i] as int)
            == 0 {
            assert(forall|i: int|
                0 <= i < ds.drop_last().len() ==> spec_example_loss(
                    #[trigger] ds.drop_last()[i],
                    ts.drop_last()[i] as int,
                ) == 0);
        }
    }
}

/// The batch mean loss is never negative, and is zero exactly in the
/// degenerate case: every prediction in the batch is fully feasible and
/// exactly on its target.  The mean's millionth-grain scale is what makes
/// the only-if direction hold: a positive summed loss, however small,
/// stays positive after the division by the batch length.
pub proof fn lemma_batch_loss_mean_zero_iff(ds: Seq<DimensionVector>, ts: Seq<u64>)
    requires
        ds.len() == ts.len(),
        1 <= ds.len() <= BATCH_MAX,
    ensures
        spec_batch_loss_mean(ds, ts) >= 0,
        spec_batch_loss_mean(ds, ts) == 0 <==> forall|i: int|
            0 <= i < ds.len() ==> spec_predicted_freq_uhz(#[trigger] ds[i]) == ts[i] as int
                && spec_feasible(ds[i]),
{
    let sum = spec_batch_loss_sum(ds, ts);
    let n = ds.len() as int;
    lemma_batch_loss_sum_zero_iff(ds, ts);
    assert forall|i: int| 0 <= i < ds.len() implies (spec_example_loss(#[trigger] ds[i], ts[i] as int)
        == 0 <==> (spec_predicted_freq_uhz(ds[i]) == ts[i] as int && spec_feasible(ds[i]))) by {
        lemma_example_loss_zero_iff(ds[i], ts[i] as int);
    }
    lemma_mul_nonnegative(sum, BATCH_MEAN_SCALE as int);
    lemma_div_pos_is_pos(sum * BATCH_MEAN_SCALE, n);
    if sum == 0 {
        lemma_mul_basics(BATCH_MEAN_SCALE as int);
        lemma_div_of0(n);
    } else {
        // sum >= 1, so sum * BATCH_MEAN_SCALE >= BATCH_MEAN_SCALE >= n,
        // and the quotient is at least one.
        lemma_mul_inequality(1, sum, BATCH_MEAN_SCALE as int);
        lemma_div_is_ordered(n, sum * BATCH_MEAN_SCALE, n);
        lemma_div_by_self(n);
    }
}

/// Below the lower bound the range penalty does not decrease as the
/// dimension moves further out (one-sided squared hinge).
pub proof fn lemma_range_penalty_monotone_below(x1: int, x2: int, lo: int, hi: int)
    requires
        x1 <= x2 <= lo <= hi,
    ensures
        spec_range_penalty(x2, lo, hi) <= spec_range_penalty(x1, lo, hi),
{
    lemma_square_monotone(spec_shortfall(x2, lo), spec_shortfall(x1, lo));
}

/// Above the upper bound the range penalty does not decrease as the
/// dimension moves further out (one-sided squared hinge).
pub proof fn lemma_range_penalty_monotone_above(x1: int, x2: int, lo: int, hi: int)
    requires
        lo <= hi <= x1 <= x2,
    ensures
        spec_range_penalty(x1, lo, hi) <= spec_range_penalty(x2, lo, hi),
{
    lemma_square_monotone(spec_excess(x1, hi), spec_excess(x2, hi));
}

/// The ratio penalty never decreases as the prong length grows.
pub proof fn lemma_ratio_penalty_monotone(handle_length: int, pl1: int, pl2: int)
    requires
        pl1 <= pl2,
    ensures
        spec_ratio_penalty(pl1, handle_length) <= spec_ratio_penalty(pl2, handle_length),
{
    lemma_square_monotone(spec_excess(pl1, handle_length), spec_excess(pl2, handle_length));
}

/// The loss is deterministic: it is a pure function of the predicted
/// dimensions and the target frequency, with no hidden state, so equal
/// inputs always yield the identical loss.
pub proof fn lemma_loss_deterministic(
    d1: DimensionVector,
    d2: DimensionVector,
    t1: int,
    t2: int,
)
    requires
        d1 == d2,
        t1 == t2,
    ensures
        spec_example_loss(d1, t1) == spec_example_loss(d2, t2),
{
}

} // verus!
