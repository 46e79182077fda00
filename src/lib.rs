//! The scheduling core of an Ethereum validator client, with its contracts proved.
//!
//! Each slot, attestations are produced for every committee a local validator sits in
//! (`attestation`, `attestation_service`), and blocks are proposed for the local proposers
//! (`block`, `proposal`). The decisions are state machines that take what the beacon nodes
//! and the validator store answered and say what to do next; endpoint pools are chosen by
//! `fallback`. Around them: merkleization (`merkle`, `tree_hash`), hex and SSZ forms of byte
//! values (`hex_bytes`, `kzg`), the requests sent to peers (`rpc`), and small types of the
//! HTTP API and health reports (`api_types`, `health`).

pub mod api_types;
pub mod attestation;
pub mod attestation_service;
pub mod block;
pub mod fallback;
pub mod health;
pub mod hex_bytes;
pub mod kzg;
pub mod merkle;
pub mod pool;
pub mod proposal;
pub mod pruning;
pub mod rpc;
pub mod store;
pub mod tree_hash;
