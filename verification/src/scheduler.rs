use vstd::prelude::*;

use crate::context::MIN_STACK_SIZE;
use crate::error::Error;
use crate::types::SchedulerConfig;

verus! {

/// The scheduler facade: a configuration together with the single-active-run
/// flag. At most one run may be active on a facade at a time; the flag is
/// claimed when a run begins and released when it ends.
pub struct Lachesis {
    pub config: SchedulerConfig,
    pub initialized: bool,
}

impl Lachesis {
    /// What beginning a run from this state returns: the already-initialized
    /// error while a run is active; the stack-size error when the configured
    /// stack is below the floor; otherwise the validated configuration.
    pub open spec fn begin_result(self) -> Result<SchedulerConfig, Error> {
        if self.initialized {
            Result::Err(Error::AlreadyInitialized)
        } else if self.config.default_stack_size < MIN_STACK_SIZE {
            Result::Err(
                Error::InvalidStackSize {
                    size: self.config.default_stack_size,
                    min: MIN_STACK_SIZE,
                },
            )
        } else {
            Result::Ok(self.config)
        }
    }

    /// A facade with the given configuration and no active run.
    pub fn new(config: SchedulerConfig) -> (s: Self)
        ensures
            s.config == config,
            !s.initialized,
    {
        Lachesis { config, initialized: false }
    }

    /// A builder starting from the default configuration.
    pub fn builder() -> (b: ConfigBuilder)
        ensures
            b.config.default_stack_size == crate::types::DEFAULT_STACK_SIZE,
            b.config.preemption_interval_ms == crate::types::DEFAULT_PREEMPTION_INTERVAL_MS,
    {
        ConfigBuilder::new()
    }

    /// Claim the single-active-run flag and validate the configuration.
    ///
    /// Fails with `AlreadyInitialized`, leaving the flag claimed, while a run
    /// is active. Fails with `InvalidStackSize`, releasing the flag, when the
    /// configured stack size is below the floor; nothing is allocated in that
    /// case. On success the flag is claimed and the validated configuration
    /// is returned; the caller then drives the run and calls `end_run` once
    /// the pool has drained.
    pub fn begin_run(&mut self) -> (r: Result<SchedulerConfig, Error>)
        ensures
            r == old(self).begin_result(),
            final(self).config == old(self).config,
            final(self).initialized == (old(self).initialized || r is Ok),
    {
        if self.initialized {
            return Err(Error::AlreadyInitialized);
        }
        self.initialized = true;
        let stack_size = self.config.default_stack_size;
        if stack_size < MIN_STACK_SIZE {
            self.initialized = false;
            return Err(Error::InvalidStackSize { size: stack_size, min: MIN_STACK_SIZE });
        }
        Ok(self.config)
    }

    /// Release the single-active-run flag after a run has drained.
    pub fn end_run(&mut self)
        ensures
            final(self).config == old(self).config,
            !final(self).initialized,
    {
        self.initialized = false;
    }
}

/// Success is owed to every valid configuration: on a facade with no active
/// run and a configured stack size at or above the floor, beginning a run
/// succeeds and returns exactly that configuration. (That the active-run
/// flag is clear again once the run ends is the contract of `end_run`.)
pub proof fn lemma_valid_config_starts(l: Lachesis)
    requires
        !l.initialized,
        l.config.default_stack_size >= MIN_STACK_SIZE,
    ensures
        l.begin_result() == Result::<SchedulerConfig, Error>::Ok(l.config),
{
}

/// A second run while one is active fails with the already-initialized
/// error, and once the first run has ended a subsequent run succeeds: from
/// any state in which beginning a run succeeds, beginning another before the
/// first ends is refused, and ending the first restores a state in which a
/// run succeeds again.
pub proof fn lemma_single_active_run(l0: Lachesis, l1: Lachesis, l2: Lachesis)
    requires
        l0.begin_result() is Ok,
        l1 == (Lachesis { initialized: true, ..l0 }),
        l2 == (Lachesis { initialized: false, ..l1 }),
    ensures
        l1.begin_result() == Result::<SchedulerConfig, Error>::Err(Error::AlreadyInitialized),
        l2.begin_result() == Result::<SchedulerConfig, Error>::Ok(l0.config),
{
}

/// Builder for a scheduler configuration, with named setters and defaults.
pub struct ConfigBuilder {
    pub config: SchedulerConfig,
}

impl Default for ConfigBuilder {
    fn default() -> (b: Self)
        ensures
            b.config.default_stack_size == crate::types::DEFAULT_STACK_SIZE,
            b.config.preemption_interval_ms == crate::types::DEFAULT_PREEMPTION_INTERVAL_MS,
    {
        Self::new()
    }
}

impl ConfigBuilder {
    /// A builder holding the default configuration.
    pub fn new() -> (b: Self)
        ensures
            b.config.default_stack_size == crate::types::DEFAULT_STACK_SIZE,
            b.config.preemption_interval_ms == crate::types::DEFAULT_PREEMPTION_INTERVAL_MS,
    {
        ConfigBuilder { config: SchedulerConfig::default() }
    }

    /// Set the stack size given to the first green thread.
    pub fn stack_size(self, size: usize) -> (b: Self)
        ensures
            b.config.default_stack_size == size,
            b.config.preemption_interval_ms == self.config.preemption_interval_ms,
    {
        let mut b = self;
        b.config.default_stack_size = size;
        b
    }

    /// Set the preemption interval, in milliseconds.
    pub fn preemption_interval(self, ms: u64) -> (b: Self)
        ensures
            b.config.preemption_interval_ms == ms,
            b.config.default_stack_size == self.config.default_stack_size,
    {
        let mut b = self;
        b.config.preemption_interval_ms = ms;
        b
    }

    /// A facade with this configuration and no active run.
    pub fn build(self) -> (s: Lachesis)
        ensures
            s.config == self.config,
            !s.initialized,
    {
        Lachesis { config: self.config, initialized: false }
    }
}

} // verus!
