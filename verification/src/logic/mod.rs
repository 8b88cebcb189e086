//! The business logic: parameters, commands and the configuration.

pub mod command;
pub mod config;
pub mod import_export;
pub mod param;
pub mod parameters;

use vstd::prelude::*;

use config::Config;

verus! {

/// The business logic, with the configuration that it works under.
pub struct Logic {
    pub config: Config,
}

impl Logic {
    /// The logic under the given configuration.
    pub fn new(config: Config) -> (logic: Logic)
        ensures
            logic.config == config,
    {
        Logic { config }
    }
}

} // verus!
