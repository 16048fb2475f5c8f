use floresta_ffi::{
    map_dump_error, map_snapshot_error, validate_utreexo_snapshot_json, DumpErrorKind,
    FlorestaFfiError, Network, SnapshotErrorKind, UtreexoExportError, UtreexoImportError,
};

const NETWORKS: [Network; 5] = [
    Network::Bitcoin,
    Network::Signet,
    Network::Testnet,
    Network::Regtest,
    Network::Testnet4,
];

#[test]
fn snapshot_for_own_network_is_accepted() {
    for n in NETWORKS {
        assert_eq!(validate_utreexo_snapshot_json(Ok(n), n), Ok(()));
    }
}

#[test]
fn snapshot_for_other_network_is_refused() {
    for got in NETWORKS {
        for expected in NETWORKS {
            if got != expected {
                assert_eq!(
                    validate_utreexo_snapshot_json(Ok(got), expected),
                    Err(UtreexoImportError::NetworkMismatch)
                );
            }
        }
    }
}

#[test]
fn refused_payload_keeps_its_reason() {
    let cases = [
        (SnapshotErrorKind::InvalidJson, UtreexoImportError::InvalidJson),
        (SnapshotErrorKind::UnsupportedVersion, UtreexoImportError::UnsupportedVersion),
        (SnapshotErrorKind::UnknownNetwork, UtreexoImportError::UnknownNetwork),
        (SnapshotErrorKind::InvalidHex, UtreexoImportError::InvalidHex),
        (SnapshotErrorKind::NetworkMismatch, UtreexoImportError::NetworkMismatch),
    ];
    for (kind, err) in cases {
        assert_eq!(map_snapshot_error(kind), err);
        for n in NETWORKS {
            assert_eq!(validate_utreexo_snapshot_json(Err(kind), n), Err(err));
        }
    }
}

#[test]
fn dump_failures_map_to_export_errors() {
    assert_eq!(map_dump_error(DumpErrorKind::NotStarted), UtreexoExportError::NotStarted);
    assert_eq!(map_dump_error(DumpErrorKind::NotSynced), UtreexoExportError::NotSynced);
    assert_eq!(map_dump_error(DumpErrorKind::Chain), UtreexoExportError::Internal);
}

#[test]
fn export_error_messages() {
    assert_eq!(UtreexoExportError::NotStarted.message(), "daemon not started yet");
    assert_eq!(UtreexoExportError::NotSynced.message(), "initial block download not finished");
    assert_eq!(UtreexoExportError::Internal.message(), "internal chain error while dumping");
}

#[test]
fn import_error_messages() {
    assert_eq!(UtreexoImportError::InvalidJson.message(), "payload is not valid snapshot JSON");
    assert_eq!(
        UtreexoImportError::UnsupportedVersion.message(),
        "snapshot version is not supported by this build"
    );
    assert_eq!(UtreexoImportError::UnknownNetwork.message(), "snapshot network tag is unknown");
    assert_eq!(UtreexoImportError::InvalidHex.message(), "snapshot hex field failed to parse");
    assert_eq!(
        UtreexoImportError::NetworkMismatch.message(),
        "snapshot is for a different network than this node"
    );
}

#[test]
fn start_error_shows_its_details() {
    let e = FlorestaFfiError::StartError { details: String::from("address already in use") };
    assert_eq!(e.message(), "address already in use");
}
