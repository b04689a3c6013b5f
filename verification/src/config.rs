//! Contains `Configuration` related functions and types: the
//! operational parameters of the monitoring loop itself.

use vstd::prelude::*;

use crate::profile::ProfileError;

verus! {

/// Contains information related to the configuration for the system.
#[derive(Clone, PartialEq, Debug)]
pub struct Configuration {
    /// The time delay in seconds to wait before updating the sensors.
    pub time_delay: u64,
    /// The default profile to load with this configuration.
    pub default_profile: String,
}

impl Configuration {
    /// The sample interval is positive: a zero delay would spin the
    /// tick without pause.
    pub open spec fn wf(&self) -> bool {
        self.time_delay > 0
    }

    /// Assembles a configuration from its parts, as a loader would
    /// after parsing a file: accepted exactly when the sample interval
    /// is positive, rejected as malformed otherwise.
    pub fn from_parts(time_delay: u64, default_profile: String) -> (r: Result<
        Configuration,
        ProfileError,
    >)
        ensures
            r is Ok <==> time_delay > 0,
            r is Ok ==> r->Ok_0 == (Configuration { time_delay, default_profile }),
            r is Err ==> r->Err_0 == ProfileError::DeserializationError,
    {
        if time_delay > 0 {
            Ok(Configuration { time_delay, default_profile })
        } else {
            Err(ProfileError::DeserializationError)
        }
    }

    /// Decides whether this configuration is well formed.
    pub fn is_valid(&self) -> (r: bool)
        ensures
            r == self.wf(),
    {
        self.time_delay > 0
    }
}

} // verus!
