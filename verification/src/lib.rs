//! Configuration, snapshot checks and error reporting for an embedded Floresta
//! Bitcoin node.

pub mod config;
pub mod errors;
pub mod hashes;

pub use config::{
    AssumeUtreexoValue, AssumeValidArg, Config, Network, NodeAssumeUtreexoValue, NodeAssumeValid,
    NodeConfig, DEFAULT_DATA_DIR,
};
pub use errors::{
    map_dump_error, map_snapshot_error, validate_utreexo_snapshot_json, DumpErrorKind,
    FlorestaFfiError, SnapshotErrorKind, UtreexoExportError, UtreexoImportError,
};
