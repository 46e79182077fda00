use validator_services::api_types::Failure;
use validator_services::health::{ProcessHealth, ProcessReadings};
use validator_services::hex_bytes::{bytes_from_prefixed_hex, decode_prefixed_hex, to_prefixed_hex, HexError};
use validator_services::rpc::{
    BlobsByRangeRequest, BlocksByRootRequest, DataColumnsByRangeRequest, Encoding, GoodbyeReason,
    MetadataRequest, OldBlocksByRangeRequest, OutboundRequest, OutboundRequestContainer, Ping,
    ProtocolId, ResponseTermination, SupportedProtocol,
};
use validator_services::store::{DoppelgangerStatus, Error as StoreError, PublicKeyBytes};
use validator_services::tree_hash::Hash256;

fn pk(b: u8) -> PublicKeyBytes {
    PublicKeyBytes { bytes: [b; 48] }
}

#[test]
fn doppelganger_filters() {
    let enabled = DoppelgangerStatus::SigningEnabled(pk(1));
    let disabled = DoppelgangerStatus::SigningDisabled(pk(2));
    let unknown = DoppelgangerStatus::UnknownToDoppelganger(pk(3));
    assert_eq!(enabled.only_safe(), Some(pk(1)));
    assert_eq!(disabled.only_safe(), None);
    assert_eq!(unknown.only_safe(), None);
    assert_eq!(enabled.ignored(), Some(pk(1)));
    assert_eq!(disabled.ignored(), Some(pk(2)));
    assert_eq!(unknown.ignored(), None);
    assert_eq!(enabled.only_unsafe(), None);
    assert_eq!(disabled.only_unsafe(), Some(pk(2)));
    assert_eq!(unknown.only_unsafe(), Some(pk(3)));
}

#[test]
fn store_error_helpers() {
    let e: StoreError<u8> = StoreError::from(4u8);
    assert_eq!(e, StoreError::SpecificError(4));
    assert!(!e.is_unknown_pubkey());
    assert!(StoreError::<u8>::UnknownPubkey(pk(1)).is_unknown_pubkey());
}

#[test]
fn failure_new_keeps_index_and_message() {
    let f = Failure::new(3, "bad".to_string());
    assert_eq!(f.index, 3);
    assert_eq!(f.message, "bad");
}

#[test]
fn process_health_from_readings() {
    let r = ProcessReadings {
        pid: 12,
        num_threads: 4,
        rss: 100,
        vms: 200,
        shared: 30,
        busy_seconds: 10,
        children_system_seconds: 3,
    };
    let h = ProcessHealth::from_readings(r).unwrap();
    assert_eq!(h.pid, 12);
    assert_eq!(h.pid_num_threads, 4);
    assert_eq!(h.pid_mem_resident_set_size, 100);
    assert_eq!(h.pid_process_seconds_total, 16);
    let huge = ProcessReadings { busy_seconds: u64::MAX, ..r };
    assert!(ProcessHealth::from_readings(huge).is_err());
}

#[test]
fn prefixed_hex_round_trip() {
    assert_eq!(to_prefixed_hex(&[0x0a, 0xff, 0x00]), "0x0aff00");
    assert_eq!(to_prefixed_hex(&[]), "0x");
    assert_eq!(decode_prefixed_hex("0x0aFf00"), Ok(vec![0x0a, 0xff, 0x00]));
    assert_eq!(decode_prefixed_hex("0aff"), Err(HexError::MissingPrefix));
    assert_eq!(decode_prefixed_hex("0x0g"), Err(HexError::InvalidHex));
    assert_eq!(decode_prefixed_hex("0x123"), Err(HexError::InvalidHex));
    assert_eq!(bytes_from_prefixed_hex("0x0102", 2), Ok(vec![1, 2]));
    assert_eq!(
        bytes_from_prefixed_hex("0x0102", 3),
        Err(HexError::WrongLength { expected: 3, got: 2 })
    );
}

#[test]
fn protocols_of_requests() {
    let ping = OutboundRequest::Ping(Ping { data: 1 });
    assert_eq!(
        ping.supported_protocols(),
        vec![ProtocolId::new(SupportedProtocol::PingV1, Encoding::SSZSnappy)]
    );
    let meta = OutboundRequest::MetaData(MetadataRequest::V2);
    let protocols: Vec<SupportedProtocol> =
        meta.supported_protocols().iter().map(|p| p.versioned_protocol).collect();
    assert_eq!(
        protocols,
        vec![SupportedProtocol::MetaDataV3, SupportedProtocol::MetaDataV2, SupportedProtocol::MetaDataV1]
    );
    assert_eq!(meta.versioned_protocol(), SupportedProtocol::MetaDataV2);
    let range = OutboundRequest::BlocksByRange(OldBlocksByRangeRequest::V1 { start_slot: 0, count: 9, step: 1 });
    assert_eq!(range.versioned_protocol(), SupportedProtocol::BlocksByRangeV1);
    let container = OutboundRequestContainer { req: range.clone(), max_rpc_size: 1024 };
    assert_eq!(container.protocol_info(), range.supported_protocols());
    assert_eq!(range.kind_name(), "BlocksByRange");
}

#[test]
fn response_counts() {
    assert_eq!(OutboundRequest::Goodbye(GoodbyeReason { code: 1 }).max_responses(6), 0);
    assert_eq!(OutboundRequest::Ping(Ping { data: 1 }).max_responses(6), 1);
    let range = OutboundRequest::BlocksByRange(OldBlocksByRangeRequest::V2 { start_slot: 0, count: 9 });
    assert_eq!(range.max_responses(6), 9);
    let roots = OutboundRequest::BlocksByRoot(BlocksByRootRequest::V2 {
        block_roots: vec![Hash256 { bytes: [0; 32] }; 3],
    });
    assert_eq!(roots.max_responses(6), 3);
    let blobs = OutboundRequest::BlobsByRange(BlobsByRangeRequest { start_slot: 0, count: 4 });
    assert_eq!(blobs.max_responses(6), 24);
    let many = OutboundRequest::BlobsByRange(BlobsByRangeRequest { start_slot: 0, count: u64::MAX });
    assert_eq!(many.max_responses(6), u64::MAX);
    let columns = OutboundRequest::DataColumnsByRange(DataColumnsByRangeRequest {
        start_slot: 0,
        count: 5,
        columns: vec![1, 2, 3],
    });
    assert_eq!(columns.max_responses(6), 15);
    assert!(OutboundRequest::Ping(Ping { data: 1 }).expect_exactly_one_response());
    assert!(!range.expect_exactly_one_response());
    assert_eq!(range.stream_termination(), ResponseTermination::BlocksByRange);
    assert_eq!(columns.stream_termination(), ResponseTermination::DataColumnsByRange);
}
