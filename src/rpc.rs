use vstd::prelude::*;

use crate::tree_hash::Hash256;

verus! {

/// The protocols of the request/response domain, with their versions.
#[derive(Debug, Clone, Copy, PartialEq, Eq, Structural)]
pub enum SupportedProtocol {
    StatusV1,
    GoodbyeV1,
    BlocksByRangeV1,
    BlocksByRangeV2,
    BlocksByRootV1,
    BlocksByRootV2,
    BlobsByRangeV1,
    BlobsByRootV1,
    DataColumnsByRootV1,
    DataColumnsByRangeV1,
    PingV1,
    MetaDataV1,
    MetaDataV2,
    MetaDataV3,
}

/// How messages of a protocol are encoded on the wire.
#[derive(Debug, Clone, Copy, PartialEq, Eq, Structural)]
pub enum Encoding {
    SSZSnappy,
}

/// A protocol, as negotiated with a peer: the versioned protocol and its encoding.
#[derive(Debug, Clone, Copy, PartialEq, Eq, Structural)]
pub struct ProtocolId {
    pub versioned_protocol: SupportedProtocol,
    pub encoding: Encoding,
}

impl ProtocolId {
    pub fn new(versioned_protocol: SupportedProtocol, encoding: Encoding) -> (r: ProtocolId)
        ensures
            r == (ProtocolId { versioned_protocol, encoding }),
    {
        ProtocolId { versioned_protocol, encoding }
    }
}

/// The termination that ends a stream of responses.
#[derive(Debug, Clone, Copy, PartialEq, Eq, Structural)]
pub enum ResponseTermination {
    BlocksByRange,
    BlocksByRoot,
    BlobsByRange,
    BlobsByRoot,
    DataColumnsByRoot,
    DataColumnsByRange,
}

/// The handshake a peer starts with.
#[derive(Debug, Clone, Copy, PartialEq, Eq)]
pub struct StatusMessage {
    pub fork_digest: [u8; 4],
    pub finalized_root: Hash256,
    pub finalized_epoch: u64,
    pub head_root: Hash256,
    pub head_slot: u64,
}

/// Why a peer is disconnected, as its code.
#[derive(Debug, Clone, Copy, PartialEq, Eq, Structural)]
pub struct GoodbyeReason {
    pub code: u64,
}

#[derive(Debug, Clone, Copy, PartialEq, Eq, Structural)]
pub struct Ping {
    pub data: u64,
}

/// A request for the blocks of `count` slots from `start_slot`, in either version.
#[derive(Debug, Clone, Copy, PartialEq, Eq, Structural)]
pub enum OldBlocksByRangeRequest {
    V1 { start_slot: u64, count: u64, step: u64 },
    V2 { start_slot: u64, count: u64 },
}

impl OldBlocksByRangeRequest {
    pub open spec fn count_spec(self) -> u64 {
        match self {
            OldBlocksByRangeRequest::V1 { count, .. } => count,
            OldBlocksByRangeRequest::V2 { count, .. } => count,
        }
    }

    pub fn count(&self) -> (r: u64)
        ensures
            r == self.count_spec(),
    {
        match self {
            OldBlocksByRangeRequest::V1 { count, .. } => *count,
            OldBlocksByRangeRequest::V2 { count, .. } => *count,
        }
    }
}

/// A request for the blocks with these roots, in either version.
#[derive(Debug, Clone, PartialEq, Eq)]
pub enum BlocksByRootRequest {
    V1 { block_roots: Vec<Hash256> },
    V2 { block_roots: Vec<Hash256> },
}

impl BlocksByRootRequest {
    pub open spec fn roots_len(self) -> nat {
        match self {
            BlocksByRootRequest::V1 { block_roots } => block_roots@.len(),
            BlocksByRootRequest::V2 { block_roots } => block_roots@.len(),
        }
    }

    pub fn block_roots(&self) -> (r: &Vec<Hash256>)
        ensures
            r@.len() == self.roots_len(),
    {
        match self {
            BlocksByRootRequest::V1 { block_roots } => block_roots,
            BlocksByRootRequest::V2 { block_roots } => block_roots,
        }
    }
}

/// A request for the blobs of `count` slots from `start_slot`.
#[derive(Debug, Clone, Copy, PartialEq, Eq, Structural)]
pub struct BlobsByRangeRequest {
    pub start_slot: u64,
    pub count: u64,
}

impl BlobsByRangeRequest {
    /// The most blobs that the request may be answered with: `count` blocks of at most
    /// `max_blobs_per_block` blobs each, saturating.
    pub fn max_blobs_requested(&self, max_blobs_per_block: u64) -> (r: u64)
        ensures
            r == (if self.count * max_blobs_per_block <= u64::MAX {
                (self.count * max_blobs_per_block) as u64
            } else {
                u64::MAX
            }),
    {
        self.count.checked_mul(max_blobs_per_block).unwrap_or(u64::MAX)
    }
}

/// Names one blob: the block it belongs to and its index there.
#[derive(Debug, Clone, Copy, PartialEq, Eq)]
pub struct BlobIdentifier {
    pub block_root: Hash256,
    pub index: u64,
}

#[derive(Debug, Clone, PartialEq, Eq)]
pub struct BlobsByRootRequest {
    pub blob_ids: Vec<BlobIdentifier>,
}

/// Names one data column: the block it belongs to and the column's index.
#[derive(Debug, Clone, Copy, PartialEq, Eq)]
pub struct DataColumnIdentifier {
    pub block_root: Hash256,
    pub index: u64,
}

#[derive(Debug, Clone, PartialEq, Eq)]
pub struct DataColumnsByRootRequest {
    pub data_column_ids: Vec<DataColumnIdentifier>,
}

/// A request for some columns of the blocks of `count` slots from `start_slot`.
#[derive(Debug, Clone, PartialEq, Eq)]
pub struct DataColumnsByRangeRequest {
    pub start_slot: u64,
    pub count: u64,
    pub columns: Vec<u64>,
}

impl DataColumnsByRangeRequest {
    /// The most columns that the request may be answered with: `count` blocks times the
    /// number of columns asked for, saturating.
    pub fn max_requested(&self) -> (r: u64)
        ensures
            r == (if self.count * self.columns@.len() <= u64::MAX {
                (self.count * self.columns@.len()) as u64
            } else {
                u64::MAX
            }),
    {
        self.count.checked_mul(self.columns.len() as u64).unwrap_or(u64::MAX)
    }
}

/// A request for a peer's metadata, in one of its versions.
#[derive(Debug, Clone, Copy, PartialEq, Eq, Structural)]
pub enum MetadataRequest {
    V1,
    V2,
    V3,
}

/// Every request this node sends to a peer.
#[derive(Debug, Clone, PartialEq, Eq)]
pub enum OutboundRequest {
    Status(StatusMessage),
    Goodbye(GoodbyeReason),
    BlocksByRange(OldBlocksByRangeRequest),
    BlocksByRoot(BlocksByRootRequest),
    BlobsByRange(BlobsByRangeRequest),
    BlobsByRoot(BlobsByRootRequest),
    DataColumnsByRoot(DataColumnsByRootRequest),
    DataColumnsByRange(DataColumnsByRangeRequest),
    Ping(Ping),
    MetaData(MetadataRequest),
}

/// A request together with the most bytes that its messages may take.
#[derive(Debug, Clone, PartialEq, Eq)]
pub struct OutboundRequestContainer {
    pub req: OutboundRequest,
    pub max_rpc_size: usize,
}


/// The protocols a request may be sent with, most preferred first.
pub open spec fn protocols_of(req: OutboundRequest) -> Seq<SupportedProtocol> {
    match req {
        OutboundRequest::Status(_) => seq![SupportedProtocol::StatusV1],
        OutboundRequest::Goodbye(_) => seq![SupportedProtocol::GoodbyeV1],
        OutboundRequest::BlocksByRange(_) => seq![
            SupportedProtocol::BlocksByRangeV2,
            SupportedProtocol::BlocksByRangeV1,
        ],
        OutboundRequest::BlocksByRoot(_) => seq![
            SupportedProtocol::BlocksByRootV2,
            SupportedProtocol::BlocksByRootV1,
        ],
        OutboundRequest::BlobsByRange(_) => seq![SupportedProtocol::BlobsByRangeV1],
        OutboundRequest::BlobsByRoot(_) => seq![SupportedProtocol::BlobsByRootV1],
        OutboundRequest::DataColumnsByRoot(_) => seq![SupportedProtocol::DataColumnsByRootV1],
        OutboundRequest::DataColumnsByRange(_) => seq![SupportedProtocol::DataColumnsByRangeV1],
        OutboundRequest::Ping(_) => seq![SupportedProtocol::PingV1],
        OutboundRequest::MetaData(_) => seq![
            SupportedProtocol::MetaDataV3,
            SupportedProtocol::MetaDataV2,
            SupportedProtocol::MetaDataV1,
        ],
    }
}

/// Whether a request is answered by a stream of responses that ends with a termination.
pub open spec fn is_streamed(req: OutboundRequest) -> bool {
    !(req is Status || req is Goodbye || req is Ping || req is MetaData)
}

impl OutboundRequest {
    /// The protocols this request may be sent with, all SSZ-Snappy encoded, most preferred
    /// first.
    pub fn supported_protocols(&self) -> (r: Vec<ProtocolId>)
        ensures
            r@.len() == protocols_of(*self).len(),
            forall|i: int| 0 <= i < r@.len() ==> #[trigger] r@[i] == (ProtocolId {
                versioned_protocol: protocols_of(*self)[i],
                encoding: Encoding::SSZSnappy,
            }),
    {
        let mut v: Vec<ProtocolId> = Vec::new();
        match self {
            OutboundRequest::Status(_) => {
                v.push(ProtocolId::new(SupportedProtocol::StatusV1, Encoding::SSZSnappy));
            },
            OutboundRequest::Goodbye(_) => {
                v.push(ProtocolId::new(SupportedProtocol::GoodbyeV1, Encoding::SSZSnappy));
            },
            OutboundRequest::BlocksByRange(_) => {
                v.push(ProtocolId::new(SupportedProtocol::BlocksByRangeV2, Encoding::SSZSnappy));
                v.push(ProtocolId::new(SupportedProtocol::BlocksByRangeV1, Encoding::SSZSnappy));
            },
            OutboundRequest::BlocksByRoot(_) => {
                v.push(ProtocolId::new(SupportedProtocol::BlocksByRootV2, Encoding::SSZSnappy));
                v.push(ProtocolId::new(SupportedProtocol::BlocksByRootV1, Encoding::SSZSnappy));
            },
            OutboundRequest::BlobsByRange(_) => {
                v.push(ProtocolId::new(SupportedProtocol::BlobsByRangeV1, Encoding::SSZSnappy));
            },
            OutboundRequest::BlobsByRoot(_) => {
                v.push(ProtocolId::new(SupportedProtocol::BlobsByRootV1, Encoding::SSZSnappy));
            },
            OutboundRequest::DataColumnsByRoot(_) => {
                v.push(ProtocolId::new(SupportedProtocol::DataColumnsByRootV1, Encoding::SSZSnappy));
            },
            OutboundRequest::DataColumnsByRange(_) => {
                v.push(ProtocolId::new(SupportedProtocol::DataColumnsByRangeV1, Encoding::SSZSnappy));
            },
            OutboundRequest::Ping(_) => {
                v.push(ProtocolId::new(SupportedProtocol::PingV1, Encoding::SSZSnappy));
            },
            OutboundRequest::MetaData(_) => {
                v.push(ProtocolId::new(SupportedProtocol::MetaDataV3, Encoding::SSZSnappy));
                v.push(ProtocolId::new(SupportedProtocol::MetaDataV2, Encoding::SSZSnappy));
                v.push(ProtocolId::new(SupportedProtocol::MetaDataV1, Encoding::SSZSnappy));
            },
        }
        v
    }

    /// The most responses this request can get. Blob ranges are counted with at most
    /// `max_blobs_per_block` blobs to a block.
    pub fn max_responses(&self, max_blobs_per_block: u64) -> (r: u64)
        ensures
            r == match *self {
                OutboundRequest::Status(_) => 1u64,
                OutboundRequest::Goodbye(_) => 0u64,
                OutboundRequest::BlocksByRange(req) => req.count_spec(),
                OutboundRequest::BlocksByRoot(req) => req.roots_len() as u64,
                OutboundRequest::BlobsByRange(req) => if req.count * max_blobs_per_block <= u64::MAX {
                    (req.count * max_blobs_per_block) as u64
                } else {
                    u64::MAX
                },
                OutboundRequest::BlobsByRoot(req) => req.blob_ids@.len() as u64,
                OutboundRequest::DataColumnsByRoot(req) => req.data_column_ids@.len() as u64,
                OutboundRequest::DataColumnsByRange(req) => if req.count * req.columns@.len() <= u64::MAX {
                    (req.count * req.columns@.len()) as u64
                } else {
                    u64::MAX
                },
                OutboundRequest::Ping(_) => 1u64,
                OutboundRequest::MetaData(_) => 1u64,
            },
    {
        match self {
            OutboundRequest::Status(_) => 1,
            OutboundRequest::Goodbye(_) => 0,
            OutboundRequest::BlocksByRange(req) => req.count(),
            OutboundRequest::BlocksByRoot(req) => req.block_roots().len() as u64,
            OutboundRequest::BlobsByRange(req) => req.max_blobs_requested(max_blobs_per_block),
            OutboundRequest::BlobsByRoot(req) => req.blob_ids.len() as u64,
            OutboundRequest::DataColumnsByRoot(req) => req.data_column_ids.len() as u64,
            OutboundRequest::DataColumnsByRange(req) => req.max_requested(),
            OutboundRequest::Ping(_) => 1,
            OutboundRequest::MetaData(_) => 1,
        }
    }

    /// Whether exactly one response is expected: for a status, a ping and a metadata request.
    pub fn expect_exactly_one_response(&self) -> (r: bool)
        ensures
            r == (*self is Status || *self is Ping || *self is MetaData),
    {
        match self {
            OutboundRequest::Status(_) => true,
            OutboundRequest::Goodbye(_) => false,
            OutboundRequest::BlocksByRange(_) => false,
            OutboundRequest::BlocksByRoot(_) => false,
            OutboundRequest::BlobsByRange(_) => false,
            OutboundRequest::BlobsByRoot(_) => false,
            OutboundRequest::DataColumnsByRoot(_) => false,
            OutboundRequest::DataColumnsByRange(_) => false,
            OutboundRequest::Ping(_) => true,
            OutboundRequest::MetaData(_) => true,
        }
    }

    /// The versioned protocol of this very request.
    pub fn versioned_protocol(&self) -> (r: SupportedProtocol)
        ensures
            r == match *self {
                OutboundRequest::Status(_) => SupportedProtocol::StatusV1,
                OutboundRequest::Goodbye(_) => SupportedProtocol::GoodbyeV1,
                OutboundRequest::BlocksByRange(OldBlocksByRangeRequest::V1 { .. }) => SupportedProtocol::BlocksByRangeV1,
                OutboundRequest::BlocksByRange(OldBlocksByRangeRequest::V2 { .. }) => SupportedProtocol::BlocksByRangeV2,
                OutboundRequest::BlocksByRoot(BlocksByRootRequest::V1 { .. }) => SupportedProtocol::BlocksByRootV1,
                OutboundRequest::BlocksByRoot(BlocksByRootRequest::V2 { .. }) => SupportedProtocol::BlocksByRootV2,
                OutboundRequest::BlobsByRange(_) => SupportedProtocol::BlobsByRangeV1,
                OutboundRequest::BlobsByRoot(_) => SupportedProtocol::BlobsByRootV1,
                OutboundRequest::DataColumnsByRoot(_) => SupportedProtocol::DataColumnsByRootV1,
                OutboundRequest::DataColumnsByRange(_) => SupportedProtocol::DataColumnsByRangeV1,
                OutboundRequest::Ping(_) => SupportedProtocol::PingV1,
                OutboundRequest::MetaData(MetadataRequest::V1) => SupportedProtocol::MetaDataV1,
                OutboundRequest::MetaData(MetadataRequest::V2) => SupportedProtocol::MetaDataV2,
                OutboundRequest::MetaData(MetadataRequest::V3) => SupportedProtocol::MetaDataV3,
            },
    {
        match self {
            OutboundRequest::Status(_) => SupportedProtocol::StatusV1,
            OutboundRequest::Goodbye(_) => SupportedProtocol::GoodbyeV1,
            OutboundRequest::BlocksByRange(req) => match req {
                OldBlocksByRangeRequest::V1 { .. } => SupportedProtocol::BlocksByRangeV1,
                OldBlocksByRangeRequest::V2 { .. } => SupportedProtocol::BlocksByRangeV2,
            },
            OutboundRequest::BlocksByRoot(req) => match req {
                BlocksByRootRequest::V1 { .. } => SupportedProtocol::BlocksByRootV1,
                BlocksByRootRequest::V2 { .. } => SupportedProtocol::BlocksByRootV2,
            },
            OutboundRequest::BlobsByRange(_) => SupportedProtocol::BlobsByRangeV1,
            OutboundRequest::BlobsByRoot(_) => SupportedProtocol::BlobsByRootV1,
            OutboundRequest::DataColumnsByRoot(_) => SupportedProtocol::DataColumnsByRootV1,
            OutboundRequest::DataColumnsByRange(_) => SupportedProtocol::DataColumnsByRangeV1,
            OutboundRequest::Ping(_) => SupportedProtocol::PingV1,
            OutboundRequest::MetaData(req) => match req {
                MetadataRequest::V1 => SupportedProtocol::MetaDataV1,
                MetadataRequest::V2 => SupportedProtocol::MetaDataV2,
                MetadataRequest::V3 => SupportedProtocol::MetaDataV3,
            },
        }
    }

    /// The termination that ends the stream of responses to this request. Only requests
    /// answered by a stream have one.
    pub fn stream_termination(&self) -> (r: ResponseTermination)
        requires
            is_streamed(*self),
        ensures
            r == match *self {
                OutboundRequest::BlocksByRange(_) => ResponseTermination::BlocksByRange,
                OutboundRequest::BlocksByRoot(_) => ResponseTermination::BlocksByRoot,
                OutboundRequest::BlobsByRange(_) => ResponseTermination::BlobsByRange,
                OutboundRequest::BlobsByRoot(_) => ResponseTermination::BlobsByRoot,
                OutboundRequest::DataColumnsByRoot(_) => ResponseTermination::DataColumnsByRoot,
                _ => ResponseTermination::DataColumnsByRange,
            },
    {
        match self {
            OutboundRequest::BlocksByRange(_) => ResponseTermination::BlocksByRange,
            OutboundRequest::BlocksByRoot(_) => ResponseTermination::BlocksByRoot,
            OutboundRequest::BlobsByRange(_) => ResponseTermination::BlobsByRange,
            OutboundRequest::BlobsByRoot(_) => ResponseTermination::BlobsByRoot,
            OutboundRequest::DataColumnsByRoot(_) => ResponseTermination::DataColumnsByRoot,
            _ => ResponseTermination::DataColumnsByRange,
        }
    }

    /// The name of the request's kind.
    pub fn kind_name(&self) -> (r: &'static str)
        ensures
            r@ == match *self {
                OutboundRequest::Status(_) => "Status"@,
                OutboundRequest::Goodbye(_) => "Goodbye"@,
                OutboundRequest::BlocksByRange(_) => "BlocksByRange"@,
                OutboundRequest::BlocksByRoot(_) => "BlocksByRoot"@,
                OutboundRequest::BlobsByRange(_) => "BlobsByRange"@,
                OutboundRequest::BlobsByRoot(_) => "BlobsByRoot"@,
                OutboundRequest::DataColumnsByRoot(_) => "DataColumnsByRoot"@,
                OutboundRequest::DataColumnsByRange(_) => "DataColumnsByRange"@,
                OutboundRequest::Ping(_) => "Ping"@,
                OutboundRequest::MetaData(_) => "MetaData"@,
            },
    {
        match self {
            OutboundRequest::Status(_) => "Status",
            OutboundRequest::Goodbye(_) => "Goodbye",
            OutboundRequest::BlocksByRange(_) => "BlocksByRange",
            OutboundRequest::BlocksByRoot(_) => "BlocksByRoot",
            OutboundRequest::BlobsByRange(_) => "BlobsByRange",
            OutboundRequest::BlobsByRoot(_) => "BlobsByRoot",
            OutboundRequest::DataColumnsByRoot(_) => "DataColumnsByRoot",
            OutboundRequest::DataColumnsByRange(_) => "DataColumnsByRange",
            OutboundRequest::Ping(_) => "Ping",
            OutboundRequest::MetaData(_) => "MetaData",
        }
    }
}

impl OutboundRequestContainer {
    /// The protocols the request may be sent with, most preferred first.
    pub fn protocol_info(&self) -> (r: Vec<ProtocolId>)
        ensures
            r@.len() == protocols_of(self.req).len(),
            forall|i: int| 0 <= i < r@.len() ==> #[trigger] r@[i] == (ProtocolId {
                versioned_protocol: protocols_of(self.req)[i],
                encoding: Encoding::SSZSnappy,
            }),
    {
        self.req.supported_protocols()
    }
}

} // verus!
