use vstd::prelude::*;

verus! {

/// The only durable record: whether derived passwords are shown in clear.
#[derive(Clone, Copy, Debug, PartialEq, Eq, Structural)]
pub struct Config {
    pub show_password: bool,
}

impl Default for Config {
    /// The record used when nothing usable is stored: passwords stay masked.
    fn default() -> (config: Self)
        ensures
            config == (Config { show_password: false }),
    {
        Config { show_password: false }
    }
}

} // verus!
