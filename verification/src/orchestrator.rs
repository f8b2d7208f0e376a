//! The options of the testbed orchestrator and what each asks of the
//! testbed.

use vstd::prelude::*;

verus! {

/// The orchestrator command line options.
#[derive(Clone, Debug, PartialEq, Eq)]
pub struct Opts {
    /// The path to the settings file.
    pub settings_path: String,
    /// The type of operation to run.
    pub operation: Operation,
}

/// The type of operation to run.
#[derive(Clone, Debug, PartialEq, Eq)]
pub enum Operation {
    /// Read or modify the status of the testbed.
    Testbed {
        /// The action to perform on the testbed.
        action: TestbedAction,
    },
    /// Deploy nodes and run a benchmark on the specified testbed.
    Benchmark,
}

/// The action to perform on the testbed.
#[derive(Clone, Debug, PartialEq, Eq)]
pub enum TestbedAction {
    /// Display the testbed status.
    Status,
    /// Deploy the given number of instances, in one region or, where none
    /// is named, in every region of the settings.
    Deploy { instances: usize, region: Option<String> },
    /// Start at most the given number of instances per region.
    Start { instances: usize },
    /// Stop the testbed without destroying the instances.
    Stop,
    /// Destroy the testbed and terminate all instances.
    Destroy,
}

/// Number of instances that `start` starts per region when none is given.
pub const DEFAULT_START_INSTANCES: usize = 10;

/// The settings file that is read when none is given.
pub open spec fn default_settings_path() -> Seq<char> {
    "orchestrator/assets/settings.yaml"@
}

/// What is said when an action on the testbed fails. Showing the status
/// cannot fail, so nothing is said of it.
pub open spec fn failure_context(action: TestbedAction) -> Option<Seq<char>> {
    match action {
        TestbedAction::Status => None,
        TestbedAction::Deploy { .. } => Some("Failed to deploy testbed"@),
        TestbedAction::Start { .. } => Some("Failed to start testbed"@),
        TestbedAction::Stop => Some("Failed to stop testbed"@),
        TestbedAction::Destroy => Some("Failed to destroy testbed"@),
    }
}

/// The settings file that is read when none is given.
pub fn settings_path() -> (path: String)
    ensures
        path@ == default_settings_path(),
{
    String::from_str("orchestrator/assets/settings.yaml")
}

impl Operation {
    /// The action that the operation performs on the testbed; a benchmark
    /// performs none.
    pub fn action(&self) -> (r: Option<&TestbedAction>)
        ensures
            match *self {
                Operation::Testbed { action } => r == Some(&action),
                Operation::Benchmark => r is None,
            },
    {
        match self {
            Operation::Testbed { action } => Some(action),
            Operation::Benchmark => None,
        }
    }
}

impl TestbedAction {
    /// What is said when this action fails, see [`failure_context`].
    pub fn failure_context(&self) -> (r: Option<&'static str>)
        ensures
            match r {
                Some(text) => failure_context(*self) == Some(text@),
                None => failure_context(*self) is None,
            },
    {
        match self {
            TestbedAction::Status => None,
            TestbedAction::Deploy { .. } => Some("Failed to deploy testbed"),
            TestbedAction::Start { .. } => Some("Failed to start testbed"),
            TestbedAction::Stop => Some("Failed to stop testbed"),
            TestbedAction::Destroy => Some("Failed to destroy testbed"),
        }
    }
}

} // verus!
