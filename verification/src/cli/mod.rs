//! The command line interface: what it prints and how it handles the user's
//! requests.

pub mod add;
pub mod args;
pub mod config;
pub mod delete;
pub mod export;
pub mod flow;
pub mod prompter;
pub mod search;
pub mod update;
pub mod outputs;
pub mod utils;

use vstd::prelude::*;

use crate::logic::Logic;

verus! {

/// The command line interface, over the business logic.
pub struct Cli {
    pub logic: Logic,
}

impl Cli {
    /// A command line interface over `logic`.
    pub fn new(logic: Logic) -> (cli: Cli)
        ensures
            cli.logic == logic,
    {
        Cli { logic }
    }
}

} // verus!
