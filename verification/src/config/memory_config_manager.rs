use crate::config::config_types::Config;
use crate::config::file_config_manager::loaded_config;
use crate::config::traits::{last_saved, ConfigManager};
use vstd::prelude::*;

verus! {

/// A store that lives in memory: it never fails to keep a record, and loads
/// the last one it was handed.
pub struct MemoryConfigManager {
    current: Option<Config>,
    history: Ghost<Seq<Config>>,
}

impl MemoryConfigManager {
    /// The record a load would return now, if one was ever handed over.
    pub closed spec fn current(&self) -> Option<Config> {
        self.current
    }

    /// The records handed over so far, oldest first.
    pub closed spec fn history(&self) -> Seq<Config> {
        self.history@
    }

    /// The last record handed over is the one held.
    pub open spec fn well_formed(&self) -> bool {
        self.current() == if self.history().len() == 0 {
            None
        } else {
            Some(self.history().last())
        }
    }

    /// A store that holds no record yet.
    pub fn new() -> (store: Self)
        ensures
            store.well_formed(),
            store.history() == Seq::<Config>::empty(),
    {
        MemoryConfigManager { current: None, history: Ghost(Seq::empty()) }
    }
}

impl ConfigManager for MemoryConfigManager {
    open spec fn keeps_records(&self) -> bool {
        self.well_formed()
    }

    open spec fn saved(&self) -> Seq<Config> {
        self.history()
    }

    fn load(&self) -> (config: Config)
        ensures
            config == loaded_config(self.current()),
    {
        match self.current {
            Some(config) => config,
            None => Config::default(),
        }
    }

    fn save(&mut self, config: &Config) {
        self.current = Some(*config);
        proof {
            self.history@ = self.history@.push(*config);
        }
    }
}

/// A record saved in a store that keeps its records is the one loaded next:
/// where `after` is such a store right after `config` was saved in `before`,
/// whatever a load of `after` returns is `config`.
pub proof fn lemma_saved_record_is_loaded_next<C: ConfigManager>(
    before: C,
    after: C,
    config: Config,
    loaded: Config,
)
    requires
        before.keeps_records(),
        after.keeps_records(),
        after.saved() == before.saved().push(config),
        call_ensures(C::load, (&after,), loaded),
    ensures
        loaded == config,
{
}

} // verus!
