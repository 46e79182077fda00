use vstd::prelude::*;

use ssz::Decode;
use ssz::Encode;

use crate::hex_bytes::{hex_spec, to_prefixed_hex};
use crate::tree_hash::{bytes_root, bytes_tree_hash_root, Hash256, TreeHash, TreeHashType};

verus! {

/// Bytes in a KZG commitment.
pub const KZG_COMMITMENT_BYTES_LEN: usize = 48;

#[verifier::external_type_specification]
#[verifier::external_body]
pub struct ExDecodeError(ssz::DecodeError);

/// Relies on `ssz::Encode::ssz_append` for `[u8; 48]`: the 48 bytes are appended as they are.
#[verifier::external_body]
fn append_48(bytes: &[u8; 48], buf: &mut Vec<u8>)
    ensures
        final(buf)@ == old(buf)@ + bytes@,
{
    bytes.ssz_append(buf)
}

/// Relies on `ssz::Decode::from_ssz_bytes` for `[u8; 48]`: exactly 48 bytes decode to
/// themselves, any other length is an error.
#[verifier::external_body]
fn decode_48(bytes: &[u8]) -> (r: Result<[u8; 48], ssz::DecodeError>)
    ensures
        r is Ok <==> bytes@.len() == 48,
        r is Ok ==> r->Ok_0@ == bytes@,
{
    <[u8; 48]>::from_ssz_bytes(bytes)
}

/// Why bytes could not be decoded.
#[derive(Debug, Clone, Copy, PartialEq, Eq, Structural)]
pub enum SszDecodeError {
    /// The bytes are not as many as the type takes.
    InvalidByteLength { len: usize, expected: usize },
}

/// A KZG commitment: 48 opaque bytes.
#[derive(Debug, Clone, Copy, PartialEq, Eq, Hash)]
pub struct KzgCommitment(pub [u8; 48]);

impl KzgCommitment {
    /// The commitment of 48 zero bytes.
    pub fn default_commitment() -> (r: KzgCommitment)
        ensures
            r.0@ == Seq::new(48, |i: int| 0u8),
    {
        let z = [0u8; 48];
        proof {
            broadcast use vstd::array::axiom_spec_array_fill_for_copy_type;
            assert(z == vstd::array::spec_array_fill_for_copy_type::<u8, 48>(0u8));
        }
        assert(z@ =~= Seq::new(48, |i: int| 0u8));
        KzgCommitment(z)
    }

    pub fn from_bytes(bytes: [u8; 48]) -> (r: KzgCommitment)
        ensures
            r.0 == bytes,
    {
        KzgCommitment(bytes)
    }

    pub fn into_bytes(self) -> (r: [u8; 48])
        ensures
            r == self.0,
    {
        self.0
    }

    /// The commitment as `0x` and two lowercase hex digits per byte.
    pub fn to_hex_string(&self) -> (r: String)
        ensures
            r@ == "0x"@ + hex_spec(self.0@),
    {
        to_prefixed_hex(self.0.as_slice())
    }

    pub fn is_ssz_fixed_len() -> (r: bool)
        ensures
            r,
    {
        true
    }

    pub fn ssz_fixed_len() -> (r: usize)
        ensures
            r == KZG_COMMITMENT_BYTES_LEN,
    {
        KZG_COMMITMENT_BYTES_LEN
    }

    pub fn ssz_bytes_len(&self) -> (r: usize)
        ensures
            r == KZG_COMMITMENT_BYTES_LEN,
    {
        KZG_COMMITMENT_BYTES_LEN
    }

    /// Appends the encoding of the commitment: its 48 bytes.
    pub fn ssz_append(&self, buf: &mut Vec<u8>)
        ensures
            final(buf)@ == old(buf)@ + self.0@,
    {
        append_48(&self.0, buf)
    }

    /// Decodes a commitment from exactly 48 bytes.
    pub fn from_ssz_bytes(bytes: &[u8]) -> (r: Result<KzgCommitment, SszDecodeError>)
        ensures
            bytes@.len() == 48 ==> r is Ok && r->Ok_0.0@ == bytes@,
            bytes@.len() != 48 ==> r == Err::<KzgCommitment, SszDecodeError>(
                SszDecodeError::InvalidByteLength { len: bytes@.len() as usize, expected: 48 },
            ),
    {
        match decode_48(bytes) {
            Ok(array) => Ok(KzgCommitment(array)),
            Err(_) => Err(SszDecodeError::InvalidByteLength { len: bytes.len(), expected: KZG_COMMITMENT_BYTES_LEN }),
        }
    }
}

impl Default for KzgCommitment {
    fn default() -> (r: KzgCommitment)
        ensures
            r.0@ == Seq::new(48, |i: int| 0u8),
    {
        KzgCommitment::default_commitment()
    }
}

impl From<[u8; 48]> for KzgCommitment {
    fn from(bytes: [u8; 48]) -> (r: KzgCommitment) {
        KzgCommitment(bytes)
    }
}

impl vstd::std_specs::convert::FromSpecImpl<[u8; 48]> for KzgCommitment {
    open spec fn obeys_from_spec() -> bool {
        true
    }

    open spec fn from_spec(bytes: [u8; 48]) -> KzgCommitment {
        KzgCommitment(bytes)
    }
}

impl From<KzgCommitment> for [u8; 48] {
    fn from(c: KzgCommitment) -> (r: [u8; 48]) {
        c.0
    }
}

impl vstd::std_specs::convert::FromSpecImpl<KzgCommitment> for [u8; 48] {
    open spec fn obeys_from_spec() -> bool {
        true
    }

    open spec fn from_spec(c: KzgCommitment) -> [u8; 48] {
        c.0
    }
}

impl TreeHash for KzgCommitment {
    open spec fn root_spec(&self) -> Seq<u8> {
        bytes_root(self.0@)
    }

    open spec fn type_spec() -> TreeHashType {
        TreeHashType::Vector
    }

    open spec fn packed_encoding_spec(&self) -> Seq<u8> {
        self.0@
    }

    open spec fn packing_factor_spec() -> nat {
        1
    }

    open spec fn packed_spec() -> bool {
        false
    }

    fn tree_hash_type() -> TreeHashType {
        TreeHashType::Vector
    }

    fn tree_hash_packed_encoding(&self) -> Vec<u8> {
        self.0.tree_hash_packed_encoding()
    }

    fn tree_hash_packing_factor() -> usize {
        1
    }

    fn tree_hash_root(&self) -> (r: Hash256) {
        bytes_tree_hash_root(self.0.as_slice())
    }
}

} // verus!
