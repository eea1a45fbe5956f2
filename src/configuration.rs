//! The resolved configuration of the application.
use vstd::prelude::*;

verus! {

/// The whole configuration.
#[derive(Clone, Debug)]
pub struct Configuration {
    pub logging: LoggingConfiguration,
    pub last_fm: LastFmConfiguration,
}

/// Where and how much is logged. The two level filters are kept as the text
/// of their directives; `log_file_output_directory` is a path.
#[derive(Clone, Debug)]
pub struct LoggingConfiguration {
    pub console_output_level_filter: String,
    pub log_file_output_level_filter: String,
    pub log_file_output_directory: String,
}

/// Access to the last.fm API.
#[derive(Clone, Debug)]
pub struct LastFmConfiguration {
    pub api_key: String,
}

} // verus!
