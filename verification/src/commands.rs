//! Data of the genesis-export commands: what the host's argument parser
//! fills in and the export routines read.  The parsing attributes and the
//! export plumbing belong to the host binary.

use vstd::prelude::*;
use std::path::PathBuf;

verus! {

#[verifier::external_type_specification]
#[verifier::external_body]
/// `std::path::PathBuf` carried opaquely: the crate only stores it.
pub struct ExPathBuf(PathBuf);

/// Command for exporting the genesis state of the parachain.
pub struct ExportGenesisStateCommand {
    /// Output file name or stdout if unspecified.
    pub output: Option<PathBuf>,
    /// Id of the parachain this state is for.
    pub parachain_id: u32,
    /// The name of the chain for that the genesis state should be exported.
    pub chain: Option<String>,
}

/// Command for exporting the genesis wasm file.
pub struct ExportGenesisWasmCommand {
    /// Output file name or stdout if unspecified.
    pub output: Option<PathBuf>,
    /// The name of the chain for that the genesis wasm file should be
    /// exported.
    pub chain: Option<String>,
}

} // verus!
