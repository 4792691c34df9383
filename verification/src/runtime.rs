use vstd::prelude::*;
use crate::num::NonZeroUsize;

verus! {

/// The runtime; its configuration is made with [`Runtime::builder`].
pub struct Runtime;

/// How many worker threads to run: one per CPU, or a given number.
#[non_exhaustive]
pub enum RuntimeThreads {
    Cpus,
    Number(NonZeroUsize),
}

/// What a builder holds: the requested worker count (`None` for one per
/// CPU) and whether work stealing is on.
pub struct BuilderConfig {
    pub threads: Option<nat>,
    pub work_stealing: bool,
}

/// The configuration of a new builder: one worker per CPU, work stealing on.
pub open spec fn default_config() -> BuilderConfig {
    BuilderConfig { threads: None, work_stealing: true }
}

/// The configuration after asking for `n` workers.
pub open spec fn with_workers(c: BuilderConfig, n: nat) -> BuilderConfig {
    BuilderConfig { threads: Some(n), work_stealing: c.work_stealing }
}

/// The configuration after turning work stealing off.
pub open spec fn without_work_stealing(c: BuilderConfig) -> BuilderConfig {
    BuilderConfig { threads: c.threads, work_stealing: false }
}

/// The number of workers a configuration runs on a machine with `cpus` CPUs.
pub open spec fn worker_count(c: BuilderConfig, cpus: nat) -> nat {
    match c.threads {
        Some(n) => n,
        None => cpus,
    }
}

impl RuntimeThreads {
    /// The requested number, or `None` for one per CPU.
    pub open spec fn requested(&self) -> Option<nat> {
        match self {
            RuntimeThreads::Cpus => None,
            RuntimeThreads::Number(n) => Some(n@),
        }
    }

    /// The number of workers, where the machine has `available_cpus` CPUs.
    pub fn get_threads(&self, available_cpus: NonZeroUsize) -> (r: NonZeroUsize)
        ensures
            r@ == match self.requested() {
                Some(n) => n,
                None => available_cpus@,
            },
    {
        match self {
            RuntimeThreads::Number(num) => num.clone(),
            RuntimeThreads::Cpus => available_cpus,
        }
    }

    /// Asks for exactly `value` workers.
    pub fn set_threads(&mut self, value: NonZeroUsize)
        ensures
            final(self).requested() == Some(value@),
    {
        *self = RuntimeThreads::Number(value);
    }
}

impl Default for RuntimeThreads {
    fn default() -> (r: Self)
        ensures
            r.requested() == None::<nat>,
    {
        RuntimeThreads::Cpus
    }
}

impl Clone for RuntimeThreads {
    fn clone(&self) -> (r: Self)
        ensures
            r.requested() == self.requested(),
    {
        match self {
            RuntimeThreads::Cpus => RuntimeThreads::Cpus,
            RuntimeThreads::Number(n) => RuntimeThreads::Number(n.clone()),
        }
    }
}

/// The configuration of a runtime, built up call by call.
pub struct RuntimeBuilder {
    max_threads: RuntimeThreads,
    enable_work_stealing: bool,
}

impl RuntimeBuilder {
    /// The worker count requested and whether work stealing is on.
    pub closed spec fn view(&self) -> BuilderConfig {
        BuilderConfig { threads: self.max_threads.requested(), work_stealing: self.enable_work_stealing }
    }

    /// Asks for `num` workers; `num` must not be zero.
    pub fn num_workers(self, num: usize) -> (r: Self)
        requires
            num > 0,
        ensures
            r@ == with_workers(self@, num as nat),
    {
        let mut this = self;
        match NonZeroUsize::new(num) {
            Some(n) => this.max_threads.set_threads(n),
            None => {},
        }
        this
    }

    /// Turns work stealing off.
    pub fn disable_work_stealing(self) -> (r: Self)
        ensures
            r@ == without_work_stealing(self@),
    {
        let mut this = self;
        this.enable_work_stealing = false;
        this
    }

    /// The number of workers to run, where the machine has `available_cpus` CPUs.
    pub fn get_num_workers(&self, available_cpus: NonZeroUsize) -> (r: NonZeroUsize)
        ensures
            r@ == worker_count(self@, available_cpus@),
    {
        self.max_threads.get_threads(available_cpus)
    }

    /// Whether work stealing is on.
    pub fn work_stealing_enabled(&self) -> (r: bool)
        ensures
            r == self@.work_stealing,
    {
        self.enable_work_stealing
    }
}

impl Default for RuntimeBuilder {
    fn default() -> (r: Self)
        ensures
            r@ == default_config(),
    {
        RuntimeBuilder { enable_work_stealing: true, max_threads: RuntimeThreads::Cpus }
    }
}

impl Clone for RuntimeBuilder {
    fn clone(&self) -> (r: Self)
        ensures
            r@ == self@,
    {
        RuntimeBuilder {
            max_threads: self.max_threads.clone(),
            enable_work_stealing: self.enable_work_stealing,
        }
    }
}

impl Runtime {
    /// A builder with the default configuration.
    pub fn builder() -> (r: RuntimeBuilder)
        ensures
            r@ == default_config(),
    {
        RuntimeBuilder::default()
    }
}

/// A builder left at its defaults runs one worker per CPU, with work stealing.
pub proof fn lemma_default_runs_one_worker_per_cpu(cpus: nat)
    ensures
        worker_count(default_config(), cpus) == cpus,
        default_config().work_stealing,
{
}

/// Turning work stealing off changes nothing else: the requested worker
/// count stays, so the number of workers that run stays too, one per CPU
/// for a builder left at its defaults.
pub proof fn lemma_disabling_stealing_keeps_workers(c: BuilderConfig, cpus: nat)
    ensures
        without_work_stealing(c).threads == c.threads,
        !without_work_stealing(c).work_stealing,
        worker_count(without_work_stealing(c), cpus) == worker_count(c, cpus),
        worker_count(without_work_stealing(default_config()), cpus) == cpus,
{
}

/// Asking for `n` workers sets the count to `n` and leaves work stealing as
/// it was.
pub proof fn lemma_num_workers_sets_only_the_count(c: BuilderConfig, n: nat)
    ensures
        with_workers(c, n).threads == Some(n),
        with_workers(c, n).work_stealing == c.work_stealing,
{
}

/// The worker count asked for last is the one that runs, whatever the CPU
/// count, and turning work stealing off does not change it.
pub proof fn lemma_last_worker_count_wins(c: BuilderConfig, a: nat, b: nat, cpus: nat)
    ensures
        worker_count(with_workers(c, a), cpus) == a,
        with_workers(with_workers(c, a), b) == with_workers(c, b),
        worker_count(without_work_stealing(with_workers(c, a)), cpus) == a,
        without_work_stealing(with_workers(c, a)) == with_workers(without_work_stealing(c), a),
        !without_work_stealing(c).work_stealing,
        with_workers(c, a).work_stealing == c.work_stealing,
{
}

} // verus!
