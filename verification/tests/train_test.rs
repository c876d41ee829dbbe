//! Tests of the dataset generator, the batcher, and the training schedule.

use tuningfork_pinn::constants::{
    TARGET_FREQ_MAX_UHZ, TRAIN_FREQ_MAX_UHZ, TRAIN_FREQ_MIN_UHZ, VALID_FREQ_MAX_UHZ,
    VALID_FREQ_MIN_UHZ,
};
use tuningfork_pinn::train::{
    advance, begin_training, is_terminal, num_batches, should_write_checkpoint, ConfigError,
    EpochOutcome, TrainingConfig, TrainingState, TuningForkBatcher, TuningForkDataset,
};

/// Every draw lies inside the configured inclusive band, for any number of
/// draws, and the declared length is the configured size.
#[test]
fn test_dataset_draws_within_range() {
    let dataset = TuningForkDataset {
        size: 64,
        freq_min_uhz: 200_000_000,
        freq_max_uhz: 1_800_000_000,
    };
    assert_eq!(dataset.len(), 64);
    for index in 0..200 {
        let drawn = dataset.get(index).unwrap();
        assert!((200_000_000..=1_800_000_000).contains(&drawn));
    }
}

/// The configured training and validation bands are non-empty, admissible,
/// and disjoint: validation starts strictly above where training ends.
#[test]
fn test_frequency_bands_disjoint() {
    assert!(TRAIN_FREQ_MIN_UHZ <= TRAIN_FREQ_MAX_UHZ);
    assert!(VALID_FREQ_MIN_UHZ <= VALID_FREQ_MAX_UHZ);
    assert!(TRAIN_FREQ_MAX_UHZ < VALID_FREQ_MIN_UHZ);
    assert!(VALID_FREQ_MAX_UHZ <= TARGET_FREQ_MAX_UHZ);
    let train = TuningForkDataset {
        size: 8,
        freq_min_uhz: TRAIN_FREQ_MIN_UHZ,
        freq_max_uhz: TRAIN_FREQ_MAX_UHZ,
    };
    let valid = TuningForkDataset {
        size: 8,
        freq_min_uhz: VALID_FREQ_MIN_UHZ,
        freq_max_uhz: VALID_FREQ_MAX_UHZ,
    };
    for index in 0..100 {
        assert!(train.get(index).unwrap() < valid.get(index).unwrap());
    }
}

/// A degenerate band admits exactly one value, so every draw must be it.
#[test]
fn test_dataset_degenerate_band() {
    let dataset = TuningForkDataset {
        size: 8,
        freq_min_uhz: 440_000_000,
        freq_max_uhz: 440_000_000,
    };
    for index in 0..50 {
        assert_eq!(dataset.get(index), Some(440_000_000));
    }
}

/// The batcher turns n scalars into an n x 1 container preserving order.
#[test]
fn test_batcher_shape_and_order() {
    let batcher = TuningForkBatcher::new();
    let items: Vec<u64> = vec![200_000_000, 440_000_000, 1_800_000_000, 7];
    let out = batcher.batch(items.clone());
    assert_eq!(out.len(), items.len());
    for (row, item) in out.iter().zip(items.iter()) {
        assert_eq!(row.len(), 1);
        assert_eq!(row[0], *item);
    }
}

/// The batcher supports a batch of one.
#[test]
fn test_batcher_single_item() {
    let batcher = TuningForkBatcher::new();
    let out = batcher.batch(vec![440_000_000]);
    assert_eq!(out, vec![vec![440_000_000]]);
}

/// The default configuration is the documented one and passes validation.
#[test]
fn test_default_config_is_valid() {
    let config = TrainingConfig::new();
    assert_eq!(config.learning_rate_nanos, 100_000);
    assert_eq!(config.num_epochs, 10_000);
    assert_eq!(config.batch_size, 1024);
    assert_eq!(config.validate(), Ok(()));
}

/// A zero epoch count or a zero batch size is rejected before any work,
/// each with its own error.
#[test]
fn test_invalid_configs_fail_fast() {
    let mut config = TrainingConfig::new();
    config.num_epochs = 0;
    assert_eq!(config.validate(), Err(ConfigError::ZeroEpochs));
    assert_eq!(begin_training(&config), Err(ConfigError::ZeroEpochs));

    let mut config = TrainingConfig::new();
    config.batch_size = 0;
    assert_eq!(config.validate(), Err(ConfigError::ZeroBatchSize));
    assert_eq!(begin_training(&config), Err(ConfigError::ZeroBatchSize));
}

/// Two configured epochs walk Training(0) -> Validating(0) -> Training(1)
/// -> Validating(1) -> Finished, and only the final state owes the
/// checkpoint.
#[test]
fn test_schedule_happy_path() {
    let mut config = TrainingConfig::new();
    config.num_epochs = 2;
    config.batch_size = 8;

    let mut state = begin_training(&config).unwrap();
    assert_eq!(state, TrainingState::Training { epoch: 0 });

    state = advance(state, &config, EpochOutcome::Completed);
    assert_eq!(state, TrainingState::Validating { epoch: 0 });
    assert!(!is_terminal(&state));
    assert!(!should_write_checkpoint(&state));

    state = advance(state, &config, EpochOutcome::Completed);
    assert_eq!(state, TrainingState::Training { epoch: 1 });

    state = advance(state, &config, EpochOutcome::Completed);
    assert_eq!(state, TrainingState::Validating { epoch: 1 });

    state = advance(state, &config, EpochOutcome::Completed);
    assert_eq!(state, TrainingState::Finished);
    assert!(is_terminal(&state));
    assert!(should_write_checkpoint(&state));
}

/// An error in any phase fails the run terminally; no checkpoint is owed.
#[test]
fn test_schedule_error_is_terminal() {
    let mut config = TrainingConfig::new();
    config.num_epochs = 3;

    let state = begin_training(&config).unwrap();
    let failed = advance(state, &config, EpochOutcome::Errored);
    assert_eq!(failed, TrainingState::Failed);
    assert!(is_terminal(&failed));
    assert!(!should_write_checkpoint(&failed));

    let validating = advance(state, &config, EpochOutcome::Completed);
    let failed_late = advance(validating, &config, EpochOutcome::Errored);
    assert_eq!(failed_late, TrainingState::Failed);
}

/// Batches per epoch: the declared size divided by the batch size, rounded
/// up.
#[test]
fn test_num_batches() {
    assert_eq!(num_batches(10, 4), 3);
    assert_eq!(num_batches(8, 4), 2);
    assert_eq!(num_batches(0, 4), 0);
    assert_eq!(num_batches(1, 1), 1);
    assert_eq!(num_batches(1025, 1024), 2);
}
