use vstd::prelude::*;

verus! {

/// The run that a successful launch created.
#[derive(Debug, Clone)]
pub struct LaunchRunSuccess {
    pub run_id: String,
}

/// The `launchRun` field of the answer: the name of the result variant
/// (`LaunchRunSuccess`, `RunConfigValidationInvalid`, `PythonError`, ...)
/// and the launched run, present on success only.
#[derive(Debug, Clone)]
pub struct LaunchRun {
    pub typename: String,
    pub run: Option<LaunchRunSuccess>,
}

/// The data of the upstream's answer to the launch mutation.
#[derive(Debug, Clone)]
pub struct ResponseData {
    pub launch_run: LaunchRun,
}

impl ResponseData {
    /// The id of the launched run, if the answer carries one.
    pub open spec fn run_id(self) -> Option<Seq<char>> {
        match self.launch_run.run {
            Some(run) => Some(run.run_id@),
            None => None,
        }
    }
}

} // verus!
