//! Configuration of the EVM chain runtime, written to every machine.

use vstd::prelude::*;

verus! {

/// Where the continuous profiler writes its output.
pub open spec fn spec_default_profile_dir() -> Seq<char> {
    "/var/log/avalanche-profile/coreth"@
}

/// How often the continuous profiler samples, in nanoseconds.
pub const DEFAULT_PROFILE_FREQUENCY: u64 = 15 * 60 * 1000000000;

/// How many profile files are kept.
pub const DEFAULT_PROFILE_MAX_FILES: u32 = 5;

/// EVM chain runtime configuration.  Every field is optional on the wire;
/// an absent field must stay absent, never be written as an explicit
/// empty value.
#[derive(Debug, PartialEq, Clone)]
pub struct Config {
    pub coreth_admin_api_enabled: Option<bool>,
    pub metrics_enabled: Option<bool>,
    pub log_level: Option<String>,
    pub continuous_profiler_dir: Option<String>,
    pub continuous_profiler_frequency: Option<u64>,
    pub continuous_profiler_max_files: Option<u32>,
    pub offline_pruning_enabled: Option<bool>,
}

impl Config {
    /// The stock configuration: admin API and metrics on, informational
    /// logging, no profiling, no offline pruning.
    pub fn default() -> (r: Self)
        ensures
            r.coreth_admin_api_enabled == Some(true),
            r.metrics_enabled == Some(true),
            r.log_level matches Some(l) && l@ == "info"@,
            r.continuous_profiler_dir is None,
            r.continuous_profiler_frequency is None,
            r.continuous_profiler_max_files is None,
            r.offline_pruning_enabled is None,
    {
        Self {
            coreth_admin_api_enabled: Some(true),
            metrics_enabled: Some(true),
            log_level: Some("info".to_owned()),
            continuous_profiler_dir: None,
            continuous_profiler_frequency: None,
            continuous_profiler_max_files: None,
            offline_pruning_enabled: None,
        }
    }

    /// Returns the stock profiler directory.
    pub fn default_profile_dir() -> (r: String)
        ensures
            r@ == spec_default_profile_dir(),
    {
        "/var/log/avalanche-profile/coreth".to_owned()
    }
}

} // verus!
