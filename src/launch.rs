use vstd::prelude::*;

verus! {

/// The GraphQL mutation that launches a run of one job and asks for the
/// launched run's id, or for the reason no run was launched.
pub const LAUNCH_RUN_MUTATION: &'static str = r#"
mutation LaunchRunMutation(
  $repository_location_name: String!
  $repository_name: String!
  $job_name: String!
  $run_config_data: RunConfigData!
)
{
  launchRun(
    executionParams: {
      selector: {
        repositoryLocationName: $repository_location_name
        repositoryName: $repository_name
        jobName: $job_name
      }
      runConfigData: $run_config_data
    }
  ) {
    __typename
    ... on LaunchRunSuccess {
      run {
        runId
      }
    }
    ... on RunConfigValidationInvalid {
      errors {
        message
        reason
      }
    }
    ... on PythonError {
      message
    }
  }
}
   "#;

/// Repository location that holds the launched job.
pub const REPOSITORY_LOCATION_NAME: &'static str = "tutorial";

/// Repository that holds the launched job.
pub const REPOSITORY_NAME: &'static str = "__repository__";

/// The job that every accepted request launches.
pub const JOB_NAME: &'static str = "hackernews_job";

/// Run configuration, a JSON document sent as a string: the local I/O
/// manager keeps its files under `data`.
pub const RUN_CONFIG_DATA: &'static str =
    "{\"resources\":{\"io_manager\":{\"config\":{\"base_dir\":\"data\"}}}}";

/// Variables of the launch mutation.
#[derive(Debug, Clone)]
pub struct Vars {
    pub repository_location_name: String,
    pub repository_name: String,
    pub job_name: String,
    pub run_config_data: String,
}

impl Vars {
    /// The variables of a launch of `job_name` in the given repository,
    /// with the given run configuration.
    pub open spec fn selects(
        self,
        location: Seq<char>,
        repository: Seq<char>,
        job: Seq<char>,
        config: Seq<char>,
    ) -> bool {
        &&& self.repository_location_name@ == location
        &&& self.repository_name@ == repository
        &&& self.job_name@ == job
        &&& self.run_config_data@ == config
    }

    /// The variables of the one launch this service makes.
    pub open spec fn is_fixed_launch(self) -> bool {
        self.selects(
            REPOSITORY_LOCATION_NAME@,
            REPOSITORY_NAME@,
            JOB_NAME@,
            RUN_CONFIG_DATA@,
        )
    }

    /// Builds the variables of a launch from its four parts.
    pub fn new(location: &str, repository: &str, job: &str, config: &str) -> (r: Vars)
        ensures
            r.selects(location@, repository@, job@, config@),
    {
        Vars {
            repository_location_name: location.to_owned(),
            repository_name: repository.to_owned(),
            job_name: job.to_owned(),
            run_config_data: config.to_owned(),
        }
    }
}

/// The variables of the fixed launch: job `hackernews_job` of repository
/// `__repository__` at location `tutorial`, with files under `data`.
pub fn launch_vars() -> (r: Vars)
    ensures
        r.is_fixed_launch(),
{
    Vars::new(REPOSITORY_LOCATION_NAME, REPOSITORY_NAME, JOB_NAME, RUN_CONFIG_DATA)
}

} // verus!
