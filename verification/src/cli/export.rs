//! The errors of exporting and importing the stack.

use vstd::prelude::*;

use crate::logic::import_export::{ExportError, ImportError};

verus! {

/// Why the stack was not exported.
#[derive(Debug)]
pub enum HandleExportError {
    LogicExport(ExportError),
}

/// Why the stack was not imported.
#[derive(Debug)]
pub enum HandleImportError {
    LogicImport(ImportError),
}

} // verus!
