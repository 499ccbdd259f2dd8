use crate::config::config_types::Config;
use vstd::prelude::*;

verus! {

/// The record a store that keeps its records loads: the last one it was
/// handed, or the default one where it was handed none.
pub open spec fn last_saved(saved: Seq<Config>) -> Config {
    if saved.len() == 0 {
        Config { show_password: false }
    } else {
        saved.last()
    }
}

/// A store for the visibility preference.
///
/// Saving is best effort, and what a load returns depends on what the store
/// holds at that moment: a file may be missing, unreadable or changed by
/// someone else. So nothing is promised of a store in general. A store that
/// `keeps_records` never loses one: it adds each record it is handed to
/// `saved`, loads the last of them, and goes on keeping records. A store
/// written outside verified code leaves both functions as they are here, and
/// nothing is then claimed of it.
pub trait ConfigManager {
    /// Whether this store keeps every record it is handed.
    open spec fn keeps_records(&self) -> bool {
        false
    }

    /// The records handed to `save` so far, oldest first.
    open spec fn saved(&self) -> Seq<Config> {
        Seq::empty()
    }

    fn load(&self) -> (config: Config)
        ensures
            self.keeps_records() ==> config == last_saved(self.saved()),
    ;

    fn save(&mut self, config: &Config)
        ensures
            old(self).keeps_records() ==> {
                &&& final(self).keeps_records()
                &&& final(self).saved() == old(self).saved().push(*config)
            },
    ;
}

} // verus!
