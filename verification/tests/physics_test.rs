//! Tests of the physics-informed loss.

use tuningfork_pinn::math::integer_sqrt;
use tuningfork_pinn::physics::{
    example_loss, predicted_frequency_uhz, tuning_fork_loss, tuning_fork_loss_sum,
    DimensionVector,
};

fn dims(
    handle_length_um: u64,
    handle_diameter_um: u64,
    prong_length_um: u64,
    prong_diameter_um: u64,
    prong_gap_um: u64,
) -> DimensionVector {
    DimensionVector {
        handle_length_um,
        handle_diameter_um,
        prong_length_um,
        prong_diameter_um,
        prong_gap_um,
    }
}

/// Dimensions [0.10, 0.01, 0.08, 0.005, 0.01] m against 440 Hz: everything
/// feasible and the prong shorter than the handle, so the loss is exactly
/// the weighted squared error of the closed-form frequency.
#[test]
fn test_loss_calculation_no_penalty() {
    let d = dims(100_000, 10_000, 80_000, 5_000, 10_000);
    let target_uhz: u64 = 440_000_000;

    let loss = example_loss(&d, target_uhz);

    let predicted = predicted_frequency_uhz(&d);
    let diff = predicted.abs_diff(target_uhz) as u128;
    let expected_total_loss = 10 * diff * diff;
    assert_eq!(loss, expected_total_loss);
}

/// Dimensions [0.05, 0.01, 0.08, 0.001, 0.01] m against 440 Hz: the prong
/// is longer than the handle (ratio penalty) and the prong diameter is
/// below its 0.002 m lower bound (primary range penalty); the loss is the
/// frequency loss plus exactly those two weighted terms.
#[test]
fn test_loss_calculation_with_penalties() {
    let d = dims(50_000, 10_000, 80_000, 1_000, 10_000);
    let target_uhz: u64 = 440_000_000;

    let loss = example_loss(&d, target_uhz);

    let predicted = predicted_frequency_uhz(&d);
    let diff = predicted.abs_diff(target_uhz) as u128;
    let freq_loss = 10 * diff * diff;
    // ratio: prong 0.08 m exceeds handle 0.05 m by 30000 um, weight 0.5
    let ratio_penalty = 5 * 30_000u128 * 30_000u128;
    // range: diameter 1000 um is 1000 um below the 2000 um bound, weight 10
    let range_penalty = 100 * 1_000u128 * 1_000u128;
    let expected_total_loss = freq_loss + ratio_penalty + range_penalty;
    assert_eq!(loss, expected_total_loss);
}

/// The fixed-point closed-form frequency at prong length 0.08 m and prong
/// diameter 0.005 m, pinned to its exact microhertz value (536.824883 Hz;
/// the real-valued formula gives 536.82494 Hz).
#[test]
fn test_predicted_frequency_exact_value() {
    let d = dims(100_000, 10_000, 80_000, 5_000, 10_000);
    assert_eq!(predicted_frequency_uhz(&d), 536_824_883);
}

/// A zero prong diameter zeroes the mass term; the guarded formula yields
/// frequency 0 rather than failing, and the frequency loss takes over.
#[test]
fn test_zero_diameter_yields_zero_frequency() {
    let d = dims(100_000, 10_000, 80_000, 0, 10_000);
    assert_eq!(predicted_frequency_uhz(&d), 0);
    let target_uhz: u64 = 440_000_000;
    let loss = example_loss(&d, target_uhz);
    let diff = 440_000_000u128;
    // the diameter also violates its range bound
    let range_penalty = 100 * 2_000u128 * 2_000u128;
    assert_eq!(loss, 10 * diff * diff + range_penalty);
}

/// The loss is zero exactly in the degenerate case: perfect frequency match
/// on a fully feasible geometry.
#[test]
fn test_zero_loss_only_on_perfect_match() {
    let d = dims(100_000, 10_000, 80_000, 5_000, 10_000);
    let matching = predicted_frequency_uhz(&d);
    assert_eq!(example_loss(&d, matching), 0);
    assert!(example_loss(&d, matching + 1) > 0);
    assert!(example_loss(&d, matching - 1) > 0);
}

/// Moving a violated dimension further outside its bound never decreases
/// the loss (one-sided squared hinge), here on the handle diameter, which
/// does not feed the frequency formula.
#[test]
fn test_penalty_monotone_in_violation() {
    let target_uhz: u64 = 440_000_000;
    let in_bounds = example_loss(&dims(100_000, 5_000, 80_000, 5_000, 10_000), target_uhz);
    let slight = example_loss(&dims(100_000, 4_000, 80_000, 5_000, 10_000), target_uhz);
    let worse = example_loss(&dims(100_000, 3_000, 80_000, 5_000, 10_000), target_uhz);
    let worst = example_loss(&dims(100_000, 0, 80_000, 5_000, 10_000), target_uhz);
    assert!(in_bounds < slight);
    assert!(slight < worse);
    assert!(worse < worst);
    // the increments are exactly the weighted squared violations
    assert_eq!(slight - in_bounds, 50 * 1_000 * 1_000);
    assert_eq!(worse - in_bounds, 50 * 2_000 * 2_000);
}

/// The loss is deterministic: identical inputs give the identical scalar,
/// independent of prior calls.
#[test]
fn test_loss_deterministic() {
    let d = dims(50_000, 10_000, 80_000, 1_000, 10_000);
    let target_uhz: u64 = 440_000_000;
    let first = example_loss(&d, target_uhz);
    let _other = example_loss(&dims(1, 1, 1, 1, 1), 999_999);
    let second = example_loss(&d, target_uhz);
    assert_eq!(first, second);
}

/// The batch loss is the arithmetic mean of the per-example losses,
/// reported in millionths of the per-example grain.
#[test]
fn test_batch_loss_is_mean() {
    let d1 = dims(100_000, 10_000, 80_000, 5_000, 10_000);
    let d2 = dims(50_000, 10_000, 80_000, 1_000, 10_000);
    let t1: u64 = 440_000_000;
    let t2: u64 = 880_000_000;
    let l1 = example_loss(&d1, t1);
    let l2 = example_loss(&d2, t2);
    let batch = vec![d1, d2];
    let targets = vec![t1, t2];
    assert_eq!(tuning_fork_loss_sum(&batch, &targets), l1 + l2);
    assert_eq!(tuning_fork_loss(&batch, &targets), (l1 + l2) * 1_000_000 / 2);
}

/// The smallest representable violation in a large batch still yields a
/// positive mean: six rows all exactly on target, one with the prong a
/// single micrometre longer than the handle, give per-example losses
/// 5, 0, 0, 0, 0, 0 and a mean of floor(5 * 10^6 / 6) — not zero.
#[test]
fn test_mean_positive_on_smallest_violation() {
    let violating = dims(100_000, 10_000, 100_001, 5_000, 10_000);
    let feasible = dims(100_000, 10_000, 80_000, 5_000, 10_000);
    let mut batch = vec![violating];
    let mut targets = vec![predicted_frequency_uhz(&violating)];
    for _ in 0..5 {
        batch.push(feasible);
        targets.push(predicted_frequency_uhz(&feasible));
    }
    assert_eq!(tuning_fork_loss_sum(&batch, &targets), 5);
    let mean = tuning_fork_loss(&batch, &targets);
    assert_eq!(mean, 5 * 1_000_000 / 6);
    assert!(mean > 0);
}

/// On a batch where every geometry is feasible, the total loss is the
/// frequency loss alone: every penalty term is exactly zero.
#[test]
fn test_feasible_batch_loss_is_frequency_loss_only() {
    let batch = vec![
        dims(100_000, 10_000, 80_000, 5_000, 10_000),
        dims(150_000, 20_000, 150_000, 2_000, 2_000),
        dims(30_000, 5_000, 10_000, 20_000, 20_000),
    ];
    let targets: Vec<u64> = vec![440_000_000, 1_000_000_000, 200_000_000];
    let mut expected: u128 = 0;
    for i in 0..batch.len() {
        let diff = predicted_frequency_uhz(&batch[i]).abs_diff(targets[i]) as u128;
        expected += 10 * diff * diff;
    }
    assert_eq!(tuning_fork_loss_sum(&batch, &targets), expected);
}

/// A batch of size one reduces to the single example's loss.
#[test]
fn test_batch_of_one() {
    let d = dims(100_000, 10_000, 80_000, 5_000, 10_000);
    let t: u64 = 440_000_000;
    let batch = vec![d];
    let targets = vec![t];
    assert_eq!(tuning_fork_loss(&batch, &targets), example_loss(&d, t) * 1_000_000);
}

/// The integer square root at exact squares, between them, and at a large
/// input.
#[test]
fn test_integer_sqrt() {
    assert_eq!(integer_sqrt(0), 0);
    assert_eq!(integer_sqrt(1), 1);
    assert_eq!(integer_sqrt(3), 1);
    assert_eq!(integer_sqrt(4), 2);
    assert_eq!(integer_sqrt(15), 3);
    assert_eq!(integer_sqrt(16), 4);
    assert_eq!(integer_sqrt(10_000_000_000_000_000_000_000_000_000), 100_000_000_000_000);
    assert_eq!(integer_sqrt(u64::MAX as u128), 4_294_967_295);
}
