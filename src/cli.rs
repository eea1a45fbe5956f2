//! What the command line asks for.
use vstd::prelude::*;

verus! {

/// The commands of the application.
#[derive(Clone, Debug)]
pub enum Command {
    /// Download a user's scrobble history.
    DownloadScrobbles(DownloadScrobblesArgs),
}

/// The arguments of the download command.
#[derive(Clone, Debug)]
pub struct DownloadScrobblesArgs {
    /// The last.fm user whose scrobbles to download.
    pub username: String,
}

/// The whole command line.
#[derive(Clone, Debug)]
pub struct CliArgs {
    /// The configuration file to read; `None` stands for the default path.
    pub config_file_path: Option<String>,
    pub command: Command,
}

} // verus!
