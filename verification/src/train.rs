//! Dataset generation, batching, and the training schedule.
//!
//! The dataset is a conceptually infinite stream of target frequencies
//! drawn uniformly from a configured inclusive range; its declared size only
//! fixes how many draws make one epoch.  The batcher packs `n` scalars into
//! an `n x 1` container.  The training loop itself is an epoch-driven state
//! machine: each epoch trains, then validates, and after the configured
//! number of epochs the parameters are checkpointed; any error is terminal.

use vstd::prelude::*;

verus! {

use vstd::arithmetic::div_mod::{
    lemma_div_is_ordered_by_denominator, lemma_fundamental_div_mod,
    lemma_fundamental_div_mod_converse_div,
};
use vstd::arithmetic::mul::lemma_mul_is_commutative;

/// Draws one value uniformly from the inclusive range `[lo, hi]`.
///
/// Relies on rand's `Rng::gen_range` over `lo..=hi`, which returns a sample
/// from the given range and panics only when the range is empty; the
/// precondition rules the empty range out.
#[verifier::external_body]
fn sample_in_range(lo: u64, hi: u64) -> (r: u64)
    requires
        lo <= hi,
    ensures
        lo <= r <= hi,
{
    let mut rng = rand::thread_rng();
    rand::Rng::gen_range(&mut rng, lo..=hi)
}

/// An on-the-fly dataset of target frequencies: every access draws a fresh
/// random frequency from the configured band, so `size` only determines how
/// many draws constitute one epoch, not how many distinct values exist.
#[derive(Clone, Copy, Debug, PartialEq, Eq, Structural)]
pub struct TuningForkDataset {
    /// The declared number of draws in one epoch.
    pub size: usize,
    /// Low end of the frequency band, microhertz.
    pub freq_min_uhz: u64,
    /// High end of the frequency band, microhertz.
    pub freq_max_uhz: u64,
}

impl TuningForkDataset {
    /// A dataset is well formed when its band is non-empty.
    pub open spec fn wf(self) -> bool {
        self.freq_min_uhz <= self.freq_max_uhz
    }

    /// Fetches one item.  The index is ignored: each call redraws, sampling
    /// with replacement, and the draw always lies inside the configured
    /// inclusive band.
    pub fn get(&self, index: usize) -> (r: Option<u64>)
        requires
            self.wf(),
        ensures
            r matches Some(f) && self.freq_min_uhz <= f <= self.freq_max_uhz,
    {
        let _ = index;
        Some(sample_in_range(self.freq_min_uhz, self.freq_max_uhz))
    }

    /// The declared per-epoch draw count.
    pub fn len(&self) -> (n: usize)
        ensures
            n == self.size,
    {
        self.size
    }
}

/// Packs scalar target frequencies into a rectangular batch.
pub struct TuningForkBatcher {
}

impl TuningForkBatcher {
    /// Creates a batcher.
    pub fn new() -> (b: TuningForkBatcher) {
        TuningForkBatcher {  }
    }

    /// Packs `n` scalars into an `n x 1` container, preserving order: row
    /// `i` holds exactly the `i`-th input.
    pub fn batch(&self, items: Vec<u64>) -> (out: Vec<Vec<u64>>)
        ensures
            out@.len() == items@.len(),
            forall|i: int|
                0 <= i < items@.len() ==> (#[trigger] out@[i])@ =~= seq![items@[i]],
    {
        let n: usize = items.len();
        let mut out: Vec<Vec<u64>> = Vec::new();
        let mut i: usize = 0;
        while i < n
            invariant
                i <= n,
                n == items@.len(),
                out@.len() == i,
                forall|j: int| 0 <= j < i ==> (#[trigger] out@[j])@ =~= seq![items@[j]],
            decreases n - i,
        {
            let mut row: Vec<u64> = Vec::new();
            row.push(items[i]);
            out.push(row);
            i = i + 1;
        }
        out
    }
}

/// Why a training configuration was rejected.
#[derive(Clone, Copy, Debug, PartialEq, Eq, Structural)]
pub enum ConfigError {
    /// The epoch count is zero: the loop would silently do nothing.
    ZeroEpochs,
    /// The batch size is zero: no batch could ever be assembled.
    ZeroBatchSize,
}

/// The immutable configuration of one training run.
#[derive(Clone, Copy, Debug, PartialEq, Eq, Structural)]
pub struct TrainingConfig {
    /// Learning rate in nano units (100_000 means 1e-4).
    pub learning_rate_nanos: u64,
    /// Number of epochs to run.
    pub num_epochs: usize,
    /// Examples per batch.
    pub batch_size: usize,
}

impl TrainingConfig {
    /// The default configuration: learning rate 1e-4, 10000 epochs,
    /// batches of 1024.
    pub fn new() -> (c: TrainingConfig)
        ensures
            c.learning_rate_nanos == 100_000,
            c.num_epochs == 10_000,
            c.batch_size == 1024,
            c.valid(),
    {
        TrainingConfig { learning_rate_nanos: 100_000, num_epochs: 10_000, batch_size: 1024 }
    }

    /// A configuration is valid when it asks for at least one epoch and a
    /// positive batch size.
    pub open spec fn valid(self) -> bool {
        self.num_epochs > 0 && self.batch_size > 0
    }

    /// Checks the configuration, failing fast before any computation:
    /// `Ok` exactly on valid configurations, and each error names the field
    /// at fault.
    pub fn validate(&self) -> (r: Result<(), ConfigError>)
        ensures
            r is Ok <==> self.valid(),
            self.num_epochs == 0 ==> r == Err::<(), ConfigError>(ConfigError::ZeroEpochs),
            self.num_epochs > 0 && self.batch_size == 0 ==> r == Err::<(), ConfigError>(
                ConfigError::ZeroBatchSize,
            ),
    {
        if self.num_epochs == 0 {
            Err(ConfigError::ZeroEpochs)
        } else if self.batch_size == 0 {
            Err(ConfigError::ZeroBatchSize)
        } else {
            Ok(())
        }
    }
}

/// The phases of a training run.
#[derive(Clone, Copy, Debug, PartialEq, Eq, Structural)]
pub enum TrainingState {
    /// Nothing has started.
    Idle,
    /// Optimising over the training band in the given epoch.
    Training { epoch: usize },
    /// Measuring loss over the held-out band in the given epoch; parameters
    /// are not mutated.
    Validating { epoch: usize },
    /// Every configured epoch completed; the checkpoint is owed.
    Finished,
    /// A terminal error; nothing further runs.
    Failed,
}

/// What one phase of work reported back.
#[derive(Clone, Copy, Debug, PartialEq, Eq, Structural)]
pub enum EpochOutcome {
    /// The phase ran to completion.
    Completed,
    /// The phase hit an error; the run is over.
    Errored,
}

/// A state is consistent with a configuration when its epoch counter stays
/// below the configured epoch count.
pub open spec fn state_wf(s: TrainingState, c: TrainingConfig) -> bool {
    match s {
        TrainingState::Training { epoch } => epoch < c.num_epochs,
        TrainingState::Validating { epoch } => epoch < c.num_epochs,
        _ => true,
    }
}

/// How many phases of work remain before the run must end; the schedule
/// strictly decreases it, which bounds every run.
pub open spec fn spec_remaining_steps(s: TrainingState, c: TrainingConfig) -> int {
    match s {
        TrainingState::Idle => 2 * c.num_epochs + 1,
        TrainingState::Training { epoch } => 2 * (c.num_epochs - epoch),
        TrainingState::Validating { epoch } => 2 * (c.num_epochs - epoch) - 1,
        TrainingState::Finished => 0,
        TrainingState::Failed => 0,
    }
}

/// Starts a run: a valid configuration enters training at epoch 0, an
/// invalid one is rejected before any computation with the exact
/// configuration error.
pub fn begin_training(config: &TrainingConfig) -> (r: Result<TrainingState, ConfigError>)
    ensures
        config.valid() ==> r == Ok::<TrainingState, ConfigError>(
            TrainingState::Training { epoch: 0 },
        ),
        config.num_epochs == 0 ==> r == Err::<TrainingState, ConfigError>(
            ConfigError::ZeroEpochs,
        ),
        config.num_epochs > 0 && config.batch_size == 0 ==> r == Err::<
            TrainingState,
            ConfigError,
        >(ConfigError::ZeroBatchSize),
        r is Ok <==> config.valid(),
{
    match config.validate() {
        Ok(()) => Ok(TrainingState::Training { epoch: 0 }),
        Err(e) => Err(e),
    }
}

/// Advances the schedule by one phase: training hands over to validation of
/// the same epoch; validation either starts the next epoch or, after the
/// last one, finishes the run; an error in any phase fails the run.  Every
/// transition strictly decreases the remaining work.
pub fn advance(s: TrainingState, config: &TrainingConfig, outcome: EpochOutcome) -> (next:
    TrainingState)
    requires
        config.valid(),
        state_wf(s, *config),
        s is Training || s is Validating,
    ensures
        state_wf(next, *config),
        outcome is Errored ==> next == TrainingState::Failed,
        outcome is Completed ==> match s {
            TrainingState::Training { epoch } => next == TrainingState::Validating { epoch },
            TrainingState::Validating { epoch } => {
                if epoch + 1 == config.num_epochs {
                    next == TrainingState::Finished
                } else {
                    next == TrainingState::Training { epoch: (epoch + 1) as usize }
                }
            },
            _ => false,
        },
        spec_remaining_steps(next, *config) < spec_remaining_steps(s, *config),
{
    match outcome {
        EpochOutcome::Errored => TrainingState::Failed,
        EpochOutcome::Completed => match s {
            TrainingState::Training { epoch } => TrainingState::Validating { epoch },
            TrainingState::Validating { epoch } => {
                if epoch + 1 == config.num_epochs {
                    TrainingState::Finished
                } else {
                    TrainingState::Training { epoch: epoch + 1 }
                }
            },
            _ => TrainingState::Failed,
        },
    }
}

/// Whether the run is over, successfully or not.
pub fn is_terminal(s: &TrainingState) -> (b: bool)
    ensures
        b <==> (s is Finished || s is Failed),
{
    match s {
        TrainingState::Finished => true,
        TrainingState::Failed => true,
        _ => false,
    }
}

/// The checkpoint is written exactly once, when every epoch has completed
/// without error.
pub fn should_write_checkpoint(s: &TrainingState) -> (b: bool)
    ensures
        b <==> s is Finished,
{
    match s {
        TrainingState::Finished => true,
        _ => false,
    }
}

/// How many batches one epoch consumes: the declared dataset size divided
/// by the batch size, rounding up so no declared draw is dropped.
pub fn num_batches(dataset_size: usize, batch_size: usize) -> (n: usize)
    requires
        batch_size > 0,
    ensures
        n == (dataset_size + batch_size - 1) / (batch_size as int),
{
    let q: usize = dataset_size / batch_size;
    let r: usize = dataset_size % batch_size;
    proof {
        let a = dataset_size as int;
        let b = batch_size as int;
        lemma_fundamental_div_mod(a, b);
        lemma_mul_is_commutative(b, a / b);
        if r == 0 {
            lemma_fundamental_div_mod_converse_div(a + b - 1, b, a / b, b - 1);
        } else {
            assert((a / b + 1) * b == (a / b) * b + b) by (nonlinear_arith);
            lemma_fundamental_div_mod_converse_div(a + b - 1, b, a / b + 1, a % b - 1);
            // The quotient leaves room for the rounding-up increment.
            lemma_div_is_ordered_by_denominator(a, 2, b);
        }
    }
    if r != 0 {
        q + 1
    } else {
        q
    }
}

} // verus!
