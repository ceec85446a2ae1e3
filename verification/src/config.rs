//! Where the two files live.

use vstd::prelude::*;
use vstd::string::*;

verus! {

/// The paths of the preferences file and of the notification log. A shell
/// passes one to whatever reads and writes the files, so that each run can
/// have files of its own.
#[derive(Debug)]
pub struct StorageConfig {
    pub preferences_path: String,
    pub log_path: String,
}

/// The name of the preferences file where none is configured.
pub open spec fn default_preferences_path() -> Seq<char> {
    "preferences.json"@
}

/// The name of the notification log where none is configured.
pub open spec fn default_log_path() -> Seq<char> {
    "notification_log.txt"@
}

impl StorageConfig {
    /// A configuration with the two given paths.
    pub fn new(preferences_path: String, log_path: String) -> (c: Self)
        ensures
            c.preferences_path@ == preferences_path@,
            c.log_path@ == log_path@,
    {
        StorageConfig { preferences_path, log_path }
    }
}

impl Default for StorageConfig {
    /// Both files by their fixed names, in the working directory.
    fn default() -> (c: Self)
        ensures
            c.preferences_path@ == default_preferences_path(),
            c.log_path@ == default_log_path(),
    {
        StorageConfig {
            preferences_path: String::from_str("preferences.json"),
            log_path: String::from_str("notification_log.txt"),
        }
    }
}

} // verus!
