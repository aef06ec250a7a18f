//! The command surface of the engine as plain data; argument parsing lives in
//! the binary around the library.
use vstd::prelude::*;

verus! {

/// A parsed invocation: exactly one command.
#[derive(Debug, Clone)]
pub struct Cli {
    pub command: Commands,
}

/// The commands the engine serves.
#[derive(Debug, Clone)]
pub enum Commands {
    /// Scan the current system and record its state.
    Scan,
    /// List the distributions the repository offers.
    List,
    /// Transform the system into the target distribution.
    Shapeshift { target: String, custom_iso: Option<String> },
    /// Revert to a previous snapshot, by id or by interactive choice.
    Revert { snapshot_id: Option<String> },
    /// List all available snapshots.
    Snapshots,
    /// Show current system status and transformation history.
    Status,
    /// Validate whether migration to the target distribution is possible.
    Validate { target: String },
    /// Activate a license key for a product.
    Activate { license_key: String, product: String },
    /// Show license status and usage.
    License,
}

} // verus!
