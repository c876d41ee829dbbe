//! Material properties, penalty weights, and geometric feasibility bounds.
//!
//! The material is stainless steel.  Every constant is an exact integer in a
//! declared fixed-point scale, so that the loss computed from them is a pure
//! integer function:
//! - lengths and diameters are in micrometres (um, 10^-6 m);
//! - frequencies are in microhertz (uHz, 10^-6 Hz);
//! - penalty weights are in tenths, so `5` means a weight of 0.5.

use vstd::prelude::*;

verus! {

/// Young's modulus of the material, in gigapascal (193 GPa = 193.0e9 Pa).
pub const YOUNGS_MODULUS_GPA: u64 = 193;

/// Density of the material, in kg/m^3.
pub const DENSITY_KG_PER_M3: u64 = 8000;

/// Empirical coefficient of the fundamental cantilever vibration mode,
/// scaled by 10^4 (35160 means 3.5160).
pub const K_FACTOR_TENTH_MILLIS: u64 = 35160;

/// pi scaled by 10^9.
pub const PI_NANOS: u64 = 3_141_592_653;

/// 2*pi scaled by 10^9.
pub const TWO_PI_NANOS: u64 = 6_283_185_307;

/// Weight of the prong-longer-than-handle penalty, in tenths (0.5).
pub const PENALTY_WEIGHT_RATIO_TENTHS: u64 = 5;

/// Weight of the range penalties on the frequency-critical dimensions
/// (prong length and prong diameter), in tenths (10.0).
pub const PENALTY_WEIGHT_RANGE_TENTHS: u64 = 100;

/// Weight of the range penalties on the remaining dimensions
/// (handle geometry and prong gap), in tenths (5.0).
pub const PENALTY_WEIGHT_OTHER_TENTHS: u64 = 50;

/// Weight of the squared frequency error, in tenths (1.0).
pub const FREQUENCY_WEIGHT_TENTHS: u64 = 10;

/// Largest dimension the fixed-point loss accepts: 10^6 um = 1 m.
pub const DIM_MAX_UM: u64 = 1_000_000;

/// Largest target frequency the loss accepts: 10^12 uHz = 10^6 Hz.
pub const TARGET_FREQ_MAX_UHZ: u64 = 1_000_000_000_000;

/// Ceiling on the predicted frequency: 10^15 uHz = 10^9 Hz.  A geometry whose
/// closed-form frequency exceeds this saturates here, the fixed-point
/// analogue of a floating-point result running off to infinity.
pub const PREDICTED_FREQ_CAP_UHZ: u64 = 1_000_000_000_000_000;

/// Largest batch the loss accepts in one call.
pub const BATCH_MAX: usize = 1_000_000;

/// Scale of the reported batch mean: the mean is returned in millionths of
/// the per-example loss grain.  Because this scale is at least `BATCH_MAX`,
/// a positive summed loss can never round down to a zero mean.
pub const BATCH_MEAN_SCALE: u128 = 1_000_000;

/// Scale applied to the stiffness/mass ratio before the integer square root,
/// chosen so the root carries five fractional decimal digits.
pub const RATIO_SCALE: u128 = 10_000_000;

/// Scale applied to the numerator of the frequency quotient; together with
/// the other scales it lands the result in microhertz.
pub const FREQ_NUMER_SCALE: u128 = 1_000_000_000_000_000_000;

/// Feasible range of the handle length: 0.03 m to 0.15 m.
pub const HANDLE_LENGTH_MIN_UM: u64 = 30_000;
/// Upper end of the feasible handle length range.
pub const HANDLE_LENGTH_MAX_UM: u64 = 150_000;

/// Feasible range of the handle diameter: 0.005 m to 0.02 m.
pub const HANDLE_DIAMETER_MIN_UM: u64 = 5_000;
/// Upper end of the feasible handle diameter range.
pub const HANDLE_DIAMETER_MAX_UM: u64 = 20_000;

/// Feasible range of the prong length: 0.01 m to 0.2 m.
pub const PRONG_LENGTH_MIN_UM: u64 = 10_000;
/// Upper end of the feasible prong length range.
pub const PRONG_LENGTH_MAX_UM: u64 = 200_000;

/// Feasible range of the prong diameter: 0.002 m to 0.02 m.
pub const PRONG_DIAMETER_MIN_UM: u64 = 2_000;
/// Upper end of the feasible prong diameter range.
pub const PRONG_DIAMETER_MAX_UM: u64 = 20_000;

/// Feasible range of the prong gap: 0.002 m to 0.02 m.
pub const PRONG_GAP_MIN_UM: u64 = 2_000;
/// Upper end of the feasible prong gap range.
pub const PRONG_GAP_MAX_UM: u64 = 20_000;

/// Low end of the training frequency band: 200 Hz.
pub const TRAIN_FREQ_MIN_UHZ: u64 = 200_000_000;
/// High end of the training frequency band: 1800 Hz.
pub const TRAIN_FREQ_MAX_UHZ: u64 = 1_800_000_000;

/// Low end of the validation frequency band, just above the training band:
/// the two bands are disjoint, so validation measures extrapolation.
pub const VALID_FREQ_MIN_UHZ: u64 = 1_800_000_001;
/// High end of the validation frequency band: 2000 Hz.
pub const VALID_FREQ_MAX_UHZ: u64 = 2_000_000_000;

/// The two frequency bands are non-empty, admissible targets, and disjoint:
/// every validation frequency lies strictly above every training frequency.
pub proof fn lemma_frequency_bands_disjoint()
    ensures
        TRAIN_FREQ_MIN_UHZ <= TRAIN_FREQ_MAX_UHZ,
        VALID_FREQ_MIN_UHZ <= VALID_FREQ_MAX_UHZ,
        TRAIN_FREQ_MAX_UHZ < VALID_FREQ_MIN_UHZ,
        VALID_FREQ_MAX_UHZ <= TARGET_FREQ_MAX_UHZ,
{
}

/// Number of predicted dimensions.
pub const NUM_DIMS: usize = 5;

/// Position of the handle length in the fixed dimension schema.
pub const HANDLE_LENGTH_IDX: usize = 0;
/// Position of the handle diameter in the fixed dimension schema.
pub const HANDLE_DIAMETER_IDX: usize = 1;
/// Position of the prong length in the fixed dimension schema.
pub const PRONG_LENGTH_IDX: usize = 2;
/// Position of the prong diameter in the fixed dimension schema.
pub const PRONG_DIAMETER_IDX: usize = 3;
/// Position of the prong gap in the fixed dimension schema.
pub const PRONG_GAP_IDX: usize = 4;

} // verus!
