//! The `exec` command: which scenario file to run.

use vstd::prelude::*;
use vstd::string::StringExecFns;
use crate::config::Config;

verus! {

/// Why a command cannot be carried out.
#[derive(Debug, Clone, Copy, PartialEq, Eq, Structural)]
pub enum ExecError {
    /// No scenario file was named.
    MissingScenarioFile,
}

impl ExecError {
    /// States the fault in words, for logs.
    pub fn message(self) -> (text: &'static str)
        ensures
            text@ == "You must specify the scenario file (--scenario-file)"@,
    {
        match self {
            ExecError::MissingScenarioFile => "You must specify the scenario file (--scenario-file)",
        }
    }
}

/// The path of a scenario file inside the scenario directory.
pub open spec fn scenario_path(scenario_dir: Seq<char>, file: Seq<char>) -> Seq<char> {
    scenario_dir + "/"@ + file
}

/// Resolves the scenario file of an `exec` command against the configured
/// scenario directory. A command that names no file is refused before
/// anything runs.
pub fn exec_cmd(config: &Config, scenario_file: Option<&str>) -> (path: Result<String, ExecError>)
    ensures
        match scenario_file {
            Some(file) => path matches Ok(p) && p@ == scenario_path(
                config.runner.scenario_dir@,
                file@,
            ),
            None => path == Err::<String, ExecError>(ExecError::MissingScenarioFile),
        },
{
    match scenario_file {
        Some(file) => {
            let mut path = config.runner.scenario_dir.clone();
            path.append("/");
            path.append(file);
            Ok(path)
        },
        None => Err(ExecError::MissingScenarioFile),
    }
}

} // verus!
