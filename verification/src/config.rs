//! Process configuration consumed by the scenario runner.

use vstd::prelude::*;

verus! {

/// Settings of the runner itself.
#[derive(Debug, Clone, PartialEq)]
pub struct RunnerConfig {
    /// Directory that scenario file names are resolved against.
    pub scenario_dir: String,
    /// Declared for parallel scenario execution; the runner does not consult it.
    pub job_parallel: bool,
}

/// The whole configuration document.
#[derive(Debug, Clone, PartialEq)]
pub struct Config {
    pub runner: RunnerConfig,
}

impl Default for RunnerConfig {
    fn default() -> (c: Self)
        ensures
            c.scenario_dir@ == Seq::<char>::empty(),
            !c.job_parallel,
    {
        RunnerConfig { scenario_dir: String::new(), job_parallel: false }
    }
}

} // verus!
