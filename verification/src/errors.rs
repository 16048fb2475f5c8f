//! Errors surfaced to callers, and how the daemon's failures map onto them.

use vstd::prelude::*;
use crate::config::Network;

verus! {

/// Error returned when the daemon fails to start.
#[derive(Debug, Clone, PartialEq, Eq)]
pub enum FlorestaFfiError {
    /// The daemon failed to start, with an error message.
    StartError { details: String },
}

impl FlorestaFfiError {
    /// The text the error displays: the daemon's own message.
    pub fn message(&self) -> (r: &str)
        ensures
            r@ == match self {
                FlorestaFfiError::StartError { details } => details@,
            },
    {
        match self {
            FlorestaFfiError::StartError { details } => details.as_str(),
        }
    }
}

/// Why the accumulator state could not be exported.
#[derive(Debug, Clone, Copy, PartialEq, Eq, Structural)]
pub enum UtreexoExportError {
    NotStarted,
    NotSynced,
    Internal,
}

impl UtreexoExportError {
    /// The text the error displays.
    pub fn message(&self) -> (r: &'static str)
        ensures
            r@ == match self {
                UtreexoExportError::NotStarted => "daemon not started yet"@,
                UtreexoExportError::NotSynced => "initial block download not finished"@,
                UtreexoExportError::Internal => "internal chain error while dumping"@,
            },
    {
        match self {
            UtreexoExportError::NotStarted => "daemon not started yet",
            UtreexoExportError::NotSynced => "initial block download not finished",
            UtreexoExportError::Internal => "internal chain error while dumping",
        }
    }
}

/// Why a snapshot payload was refused.
#[derive(Debug, Clone, Copy, PartialEq, Eq, Structural)]
pub enum UtreexoImportError {
    InvalidJson,
    UnsupportedVersion,
    UnknownNetwork,
    InvalidHex,
    NetworkMismatch,
}

impl UtreexoImportError {
    /// The text the error displays.
    pub fn message(&self) -> (r: &'static str)
        ensures
            r@ == match self {
                UtreexoImportError::InvalidJson => "payload is not valid snapshot JSON"@,
                UtreexoImportError::UnsupportedVersion =>
                    "snapshot version is not supported by this build"@,
                UtreexoImportError::UnknownNetwork => "snapshot network tag is unknown"@,
                UtreexoImportError::InvalidHex => "snapshot hex field failed to parse"@,
                UtreexoImportError::NetworkMismatch =>
                    "snapshot is for a different network than this node"@,
            },
    {
        match self {
            UtreexoImportError::InvalidJson => "payload is not valid snapshot JSON",
            UtreexoImportError::UnsupportedVersion =>
                "snapshot version is not supported by this build",
            UtreexoImportError::UnknownNetwork => "snapshot network tag is unknown",
            UtreexoImportError::InvalidHex => "snapshot hex field failed to parse",
            UtreexoImportError::NetworkMismatch =>
                "snapshot is for a different network than this node",
        }
    }
}

/// How the daemon failed to dump its accumulator state.
#[derive(Debug, Clone, Copy, PartialEq, Eq, Structural)]
pub enum DumpErrorKind {
    /// The daemon has not been started.
    NotStarted,
    /// Initial block download is still running.
    NotSynced,
    /// The chain state could not be read.
    Chain,
}

/// How the daemon's snapshot reader refused a payload.
#[derive(Debug, Clone, Copy, PartialEq, Eq, Structural)]
pub enum SnapshotErrorKind {
    InvalidJson,
    UnsupportedVersion,
    UnknownNetwork,
    InvalidHex,
    NetworkMismatch,
}

/// The export error reported for a failed dump.
pub open spec fn export_error_for(e: DumpErrorKind) -> UtreexoExportError {
    match e {
        DumpErrorKind::NotStarted => UtreexoExportError::NotStarted,
        DumpErrorKind::NotSynced => UtreexoExportError::NotSynced,
        DumpErrorKind::Chain => UtreexoExportError::Internal,
    }
}

/// The import error reported for a payload the snapshot reader refused.
pub open spec fn import_error_for(e: SnapshotErrorKind) -> UtreexoImportError {
    match e {
        SnapshotErrorKind::InvalidJson => UtreexoImportError::InvalidJson,
        SnapshotErrorKind::UnsupportedVersion => UtreexoImportError::UnsupportedVersion,
        SnapshotErrorKind::UnknownNetwork => UtreexoImportError::UnknownNetwork,
        SnapshotErrorKind::InvalidHex => UtreexoImportError::InvalidHex,
        SnapshotErrorKind::NetworkMismatch => UtreexoImportError::NetworkMismatch,
    }
}

/// What validating a snapshot answers, given what the snapshot reader made of
/// the payload (the network it is for, or why it was refused).
pub open spec fn snapshot_verdict(
    read: Result<Network, SnapshotErrorKind>,
    expected_network: Network,
) -> Result<(), UtreexoImportError> {
    match read {
        Ok(got) => if got == expected_network {
            Ok(())
        } else {
            Err(UtreexoImportError::NetworkMismatch)
        },
        Err(e) => Err(import_error_for(e)),
    }
}

/// Maps a failed dump onto the error callers see.
pub fn map_dump_error(e: DumpErrorKind) -> (r: UtreexoExportError)
    ensures
        r == export_error_for(e),
{
    match e {
        DumpErrorKind::NotStarted => UtreexoExportError::NotStarted,
        DumpErrorKind::NotSynced => UtreexoExportError::NotSynced,
        DumpErrorKind::Chain => UtreexoExportError::Internal,
    }
}

/// Maps a refusal of the snapshot reader onto the error callers see.
pub fn map_snapshot_error(e: SnapshotErrorKind) -> (r: UtreexoImportError)
    ensures
        r == import_error_for(e),
{
    match e {
        SnapshotErrorKind::InvalidJson => UtreexoImportError::InvalidJson,
        SnapshotErrorKind::UnsupportedVersion => UtreexoImportError::UnsupportedVersion,
        SnapshotErrorKind::UnknownNetwork => UtreexoImportError::UnknownNetwork,
        SnapshotErrorKind::InvalidHex => UtreexoImportError::InvalidHex,
        SnapshotErrorKind::NetworkMismatch => UtreexoImportError::NetworkMismatch,
    }
}

/// Checks that a snapshot payload is well formed and is for `expected_network`,
/// given what the snapshot reader made of it: `Ok` exactly when the reader
/// accepted it for `expected_network`; a snapshot for another network is
/// refused with `NetworkMismatch`; a payload the reader refused keeps the
/// reader's reason.
pub fn validate_utreexo_snapshot_json(
    read: Result<Network, SnapshotErrorKind>,
    expected_network: Network,
) -> (r: Result<(), UtreexoImportError>)
    ensures
        r == snapshot_verdict(read, expected_network),
        read matches Ok(got) ==> (r is Ok <==> got == expected_network),
        read matches Ok(got) ==> (got != expected_network ==> r == Err::<(), UtreexoImportError>(
            UtreexoImportError::NetworkMismatch,
        )),
        read matches Err(e) ==> r == Err::<(), UtreexoImportError>(import_error_for(e)),
{
    match read {
        Ok(got) => {
            if got != expected_network {
                return Err(UtreexoImportError::NetworkMismatch);
            }
            Ok(())
        },
        Err(e) => Err(map_snapshot_error(e)),
    }
}

/// A snapshot the reader accepted passes validation for the network it is for,
/// and is refused as a network mismatch for every other network.
pub proof fn lemma_snapshot_accepted_only_for_its_network(got: Network, expected_network: Network)
    ensures
        snapshot_verdict(Ok(got), expected_network) is Ok <==> got == expected_network,
        got != expected_network ==> snapshot_verdict(Ok(got), expected_network) == Err::<
            (),
            UtreexoImportError,
        >(UtreexoImportError::NetworkMismatch),
{
}

/// Distinct refusals of the snapshot reader are reported as distinct errors,
/// and a refused payload is never reported as accepted.
pub proof fn lemma_snapshot_refusals_kept_apart(
    a: SnapshotErrorKind,
    b: SnapshotErrorKind,
    expected_network: Network,
)
    ensures
        import_error_for(a) == import_error_for(b) ==> a == b,
        snapshot_verdict(Err(a), expected_network) is Err,
{
}

/// Distinct dump failures are reported as distinct errors.
pub proof fn lemma_dump_failures_kept_apart(a: DumpErrorKind, b: DumpErrorKind)
    ensures
        export_error_for(a) == export_error_for(b) ==> a == b,
{
}

/// A refusal of the snapshot reader is reported under the reader's own reason.
pub proof fn lemma_refusal_reason_kept(e: SnapshotErrorKind)
    ensures
        e is InvalidJson <==> import_error_for(e) is InvalidJson,
        e is UnsupportedVersion <==> import_error_for(e) is UnsupportedVersion,
        e is UnknownNetwork <==> import_error_for(e) is UnknownNetwork,
        e is InvalidHex <==> import_error_for(e) is InvalidHex,
        e is NetworkMismatch <==> import_error_for(e) is NetworkMismatch,
{
}

/// A dump that failed before the daemon started or while it syncs is reported
/// as such; a failure reading the chain is reported as an internal error.
pub proof fn lemma_dump_failure_reason_kept(e: DumpErrorKind)
    ensures
        e is NotStarted <==> export_error_for(e) is NotStarted,
        e is NotSynced <==> export_error_for(e) is NotSynced,
        e is Chain <==> export_error_for(e) is Internal,
{
}

} // verus!
