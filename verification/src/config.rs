use vstd::prelude::*;

verus! {

/// Start-up configuration of the engine.
pub struct Config {
    /// Whether the manager window is shown when the engine starts.
    pub open_manager: bool,
}

impl Config {
    /// The configuration the engine starts with: the manager window stays hidden.
    pub fn load() -> (config: Self)
        ensures
            !config.open_manager,
    {
        Self { open_manager: false }
    }
}

} // verus!
