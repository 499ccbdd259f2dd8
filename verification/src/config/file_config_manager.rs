use crate::config::config_types::Config;
use vstd::prelude::*;
use vstd::string::*;

verus! {

/// The file-backed store's own part: where the record lives, and what a
/// load yields for each outcome of reading that file.
pub struct FileConfigManager {
    config_file: String,
}

impl FileConfigManager {
    /// The path of the file that holds the record.
    pub closed spec fn path(&self) -> Seq<char> {
        self.config_file@
    }

    /// The store for the record in the file at `config_file`.
    pub fn new(config_file: &str) -> (manager: Self)
        ensures
            manager.path() == config_file@,
    {
        FileConfigManager { config_file: String::from_str(config_file) }
    }

    /// The path of the file that holds the record.
    pub fn config_file(&self) -> (path: &str)
        ensures
            path@ == self.path(),
    {
        self.config_file.as_str()
    }

    /// The record a load yields: the decoded one where the file could be
    /// read and decoded, the default one where it could not.
    pub fn loaded(&self, decoded: Option<Config>) -> (config: Config)
        ensures
            config == loaded_config(decoded),
    {
        match decoded {
            Some(config) => config,
            None => Config::default(),
        }
    }
}

/// The record a load yields for what was decoded from the store, if anything.
pub open spec fn loaded_config(decoded: Option<Config>) -> Config {
    match decoded {
        Some(config) => config,
        None => Config { show_password: false },
    }
}

} // verus!
