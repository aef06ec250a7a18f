//! Migration orchestration engine: snapshot lifecycle, package and
//! configuration translation, and the decisions that sequence a migration.
use vstd::prelude::*;

pub mod chars;
pub mod cli;
pub mod codec;
pub mod config;
pub mod distro;
pub mod error;
pub mod license;
pub mod migration;
pub mod numfmt;
pub mod package;
pub mod repository;
pub mod scanner;
pub mod snapshot;
pub mod translation;

verus! {

/// Scaled confidence score of an exact translation-table hit.
pub const CONFIDENCE_EXACT: u32 = 100;

/// Scaled confidence score of a fuzzy-pattern hit.
pub const CONFIDENCE_FUZZY: u32 = 70;

/// Mappings at or below this scaled confidence are not auto-installed.
pub const CONFIDENCE_AUTO_INSTALL_THRESHOLD: u32 = 50;

} // verus!
