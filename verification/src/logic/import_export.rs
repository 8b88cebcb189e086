//! The file format of exported and imported stacks.

use vstd::prelude::*;

use crate::data::models::{Command, InternalCommand, InternalCommandView};

verus! {

/// What an export file holds: the commands, without their identifiers.
#[derive(Debug)]
pub struct ImportExportFormat {
    pub commands: Vec<InternalCommand>,
}

/// Why the stack could not be exported.
#[derive(Debug)]
pub enum ExportError {
    /// The commands could not be written as JSON, for the reason given.
    Deserialize(String),
    /// The file could not be written, for the reason given.
    Write(String),
    /// The commands could not be read, for the reason given.
    Database(String),
}

/// Why the stack could not be imported.
#[derive(Debug)]
pub enum ImportError {
    /// The file is not a stack in JSON, for the reason given.
    Serialize(String),
    /// The file could not be read, for the reason given.
    Read(String),
    /// The commands could not be stored, for the reason given.
    Database(String),
    InvalidFilePath,
    IncorrectFileExtension,
}

/// The properties of the stored commands, in order.
pub open spec fn exported(cs: Seq<Command>) -> Seq<InternalCommandView> {
    Seq::new(cs.len(), |i: int| cs[i].internal_command@)
}

impl crate::logic::Logic {
    /// What an export of these stored commands holds: their properties, in
    /// order.
    pub fn export_format(&self, commands: Vec<Command>) -> (f: ImportExportFormat)
        ensures
            f.commands@.len() == commands@.len(),
            forall|i: int|
                0 <= i < commands@.len() ==> (#[trigger] f.commands@[i])@
                    == commands@[i].internal_command@,
    {
        let mut out: Vec<InternalCommand> = Vec::new();
        let mut i: usize = 0;
        while i < commands.len()
            invariant
                i <= commands@.len(),
                out@.len() == i,
                forall|j: int|
                    0 <= j < i ==> (#[trigger] out@[j])@ == commands@[j].internal_command@,
            decreases commands.len() - i,
        {
            out.push(commands[i].internal_command.duplicate());
            i = i + 1;
        }
        ImportExportFormat { commands: out }
    }
}

} // verus!
