//! Error kinds of the migration engine and their user-facing messages.
use vstd::prelude::*;

verus! {

/// One error kind per failure class of the engine; each carries the detail
/// text that the layer reporting it supplies.
#[derive(Debug, Clone)]
pub enum EshuError {
    UnsupportedDistro(String),
    PackageManager(String),
    Snapshot(String),
    Migration(String),
    Config(String),
    FileSystem(String),
    Network(String),
    Validation(String),
    Database(String),
    Io(String),
    Serialization(String),
}

impl EshuError {
    /// The message of an error: a fixed prefix naming the kind, then the detail.
    pub open spec fn spec_message(&self) -> Seq<char> {
        match self {
            EshuError::UnsupportedDistro(m) => "Unsupported distribution: "@ + m@,
            EshuError::PackageManager(m) => "Package manager error: "@ + m@,
            EshuError::Snapshot(m) => "Snapshot error: "@ + m@,
            EshuError::Migration(m) => "Migration error: "@ + m@,
            EshuError::Config(m) => "Configuration error: "@ + m@,
            EshuError::FileSystem(m) => "File system error: "@ + m@,
            EshuError::Network(m) => "Network error: "@ + m@,
            EshuError::Validation(m) => "Validation error: "@ + m@,
            EshuError::Database(m) => "Database error: "@ + m@,
            EshuError::Io(m) => "IO error: "@ + m@,
            EshuError::Serialization(m) => "Serialization error: "@ + m@,
        }
    }

    /// Renders the error as its message text.
    pub fn message(&self) -> (r: String)
        ensures
            r@ == self.spec_message(),
    {
        match self {
            EshuError::UnsupportedDistro(m) => String::from_str(
                "Unsupported distribution: ",
            ).concat(m.as_str()),
            EshuError::PackageManager(m) => String::from_str("Package manager error: ").concat(
                m.as_str(),
            ),
            EshuError::Snapshot(m) => String::from_str("Snapshot error: ").concat(m.as_str()),
            EshuError::Migration(m) => String::from_str("Migration error: ").concat(m.as_str()),
            EshuError::Config(m) => String::from_str("Configuration error: ").concat(m.as_str()),
            EshuError::FileSystem(m) => String::from_str("File system error: ").concat(m.as_str()),
            EshuError::Network(m) => String::from_str("Network error: ").concat(m.as_str()),
            EshuError::Validation(m) => String::from_str("Validation error: ").concat(m.as_str()),
            EshuError::Database(m) => String::from_str("Database error: ").concat(m.as_str()),
            EshuError::Io(m) => String::from_str("IO error: ").concat(m.as_str()),
            EshuError::Serialization(m) => String::from_str("Serialization error: ").concat(
                m.as_str(),
            ),
        }
    }
}

/// Result alias used throughout the engine.
pub type EshuResult<T> = Result<T, EshuError>;

} // verus!
