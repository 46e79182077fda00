use vstd::prelude::*;

use crate::store::PublicKeyBytes;
use crate::merkle::{chunk_views, merkleize, merkleize_chunks};
use crate::tree_hash::{int_chunk, int_to_hash256, copy_bytes, Hash256, TreeHash, TreeHashType};

verus! {

/// Most validators that one committee can hold.
pub const MAX_VALIDATORS_PER_COMMITTEE: u64 = 2048;

/// Most committees at one slot.
pub const MAX_COMMITTEES_PER_SLOT: u64 = 64;

/// A BLS signature, compressed.
#[derive(Debug, Clone, Copy, PartialEq, Eq)]
pub struct SignatureBytes {
    pub bytes: [u8; 96],
}

/// The compressed point at infinity: the aggregate signature of nobody.
pub open spec fn infinity_bytes() -> Seq<u8> {
    seq![0xc0u8] + Seq::new(95, |i: int| 0u8)
}

impl SignatureBytes {
    /// The signature of no signer: the point at infinity.
    pub fn infinity() -> (r: SignatureBytes)
        ensures
            r.bytes@ == infinity_bytes(),
    {
        let mut bytes = [0u8; 96];
        bytes[0] = 0xc0u8;
        assert(bytes@ =~= infinity_bytes());
        SignatureBytes { bytes }
    }
}

#[derive(Debug, Clone, Copy, PartialEq, Eq)]
pub struct Checkpoint {
    pub epoch: u64,
    pub root: Hash256,
}

/// What an attestation votes for.
#[derive(Debug, Clone, Copy, PartialEq, Eq)]
pub struct AttestationData {
    pub slot: u64,
    pub index: u64,
    pub beacon_block_root: Hash256,
    pub source: Checkpoint,
    pub target: Checkpoint,
}

/// One validator's duty to attest at a slot, in a committee.
#[derive(Debug, Clone, Copy, PartialEq, Eq)]
pub struct AttesterDuty {
    pub pubkey: PublicKeyBytes,
    pub validator_index: u64,
    pub slot: u64,
    pub committee_index: u64,
    pub committee_length: u64,
    pub committees_at_slot: u64,
    pub validator_committee_index: u64,
}

/// A duty, with the selection proof that makes the validator an aggregator, if it is one.
#[derive(Debug, Clone, Copy, PartialEq, Eq)]
pub struct DutyAndProof {
    pub duty: AttesterDuty,
    pub selection_proof: Option<SignatureBytes>,
}

/// Why an attestation could not be built or changed.
#[derive(Debug, Clone, Copy, PartialEq, Eq, Structural)]
pub enum AttestationError {
    /// The committee has more members than a committee can have.
    InvalidCommitteeLength,
    /// The committee index is out of range, or the attestation names no committee.
    InvalidCommitteeIndex,
    /// The position is outside the committee.
    InvalidBitfieldIndex,
    /// The validator at this position has already signed.
    AlreadySigned(usize),
    /// The attestation has the form of a fork before Electra.
    IncorrectStateVariant,
}

/// An attestation: which committee members signed, and the vote. From Electra on, the
/// committee is named by `committee_bits`, and `data.index` is zero.
#[derive(Debug, Clone, PartialEq, Eq)]
pub struct Attestation {
    pub aggregation_bits: Vec<bool>,
    pub data: AttestationData,
    pub committee_bits: Option<Vec<bool>>,
    pub signature: SignatureBytes,
}

/// The form of an unaggregated attestation from Electra on.
#[derive(Debug, Clone, Copy, PartialEq, Eq)]
pub struct SingleAttestation {
    pub committee_index: u64,
    pub attester_index: u64,
    pub data: AttestationData,
    pub signature: SignatureBytes,
}

/// Whether an attestation for a committee of this length, at this index, can be built.
pub open spec fn valid_committee(committee_index: u64, committee_length: u64, electra: bool) -> bool {
    &&& committee_length <= MAX_VALIDATORS_PER_COMMITTEE
    &&& electra ==> committee_index < MAX_COMMITTEES_PER_SLOT
}

/// The bit vector of `len` bits with only bit `i` set.
pub open spec fn single_bit(len: nat, i: int) -> Seq<bool> {
    Seq::new(len, |j: int| j == i)
}

/// The position of the first set bit, if any.
pub fn first_set_bit(bits: &Vec<bool>) -> (r: Option<usize>)
    ensures
        r is None <==> forall|j: int| 0 <= j < bits@.len() ==> !bits@[j],
        r is Some ==> {
            let i = r->Some_0 as int;
            0 <= i < bits@.len() && bits@[i] && forall|j: int| 0 <= j < i ==> !bits@[j]
        },
{
    let mut i: usize = 0;
    while i < bits.len()
        invariant
            i <= bits@.len(),
            forall|j: int| 0 <= j < i ==> !bits@[j],
        decreases bits@.len() - i,
    {
        if bits[i] {
            return Some(i);
        }
        i = i + 1;
    }
    None
}

fn falses(len: usize) -> (r: Vec<bool>)
    ensures
        r@ == Seq::new(len as nat, |j: int| false),
{
    let mut v: Vec<bool> = Vec::new();
    let mut i: usize = 0;
    while i < len
        invariant
            i <= len,
            v@ == Seq::new(i as nat, |j: int| false),
        decreases len - i,
    {
        v.push(false);
        i = i + 1;
        assert(v@ =~= Seq::new(i as nat, |j: int| false));
    }
    v
}

impl Attestation {
    /// An attestation that nobody has signed yet, for a committee of `committee_length`
    /// members. Before Electra the committee is named in the data; from Electra on it is the
    /// one bit of `committee_bits`, and the data's index is zero.
    pub fn empty_for_signing(
        committee_index: u64,
        committee_length: u64,
        slot: u64,
        beacon_block_root: Hash256,
        source: Checkpoint,
        target: Checkpoint,
        electra: bool,
    ) -> (r: Result<Attestation, AttestationError>)
        ensures
            r is Ok <==> valid_committee(committee_index, committee_length, electra),
            r is Err ==> (if committee_length > MAX_VALIDATORS_PER_COMMITTEE {
                r->Err_0 == AttestationError::InvalidCommitteeLength
            } else {
                r->Err_0 == AttestationError::InvalidCommitteeIndex
            }),
            r is Ok ==> {
                let a = r->Ok_0;
                &&& a.aggregation_bits@ == Seq::new(committee_length as nat, |j: int| false)
                &&& a.data == (AttestationData {
                    slot,
                    index: if electra { 0 } else { committee_index },
                    beacon_block_root,
                    source,
                    target,
                })
                &&& a.committee_bits is Some == electra
                &&& electra ==> a.committee_bits->Some_0@ == single_bit(
                    MAX_COMMITTEES_PER_SLOT as nat,
                    committee_index as int,
                )
                &&& a.signature.bytes@ == infinity_bytes()
            },
    {
        if committee_length > MAX_VALIDATORS_PER_COMMITTEE {
            return Err(AttestationError::InvalidCommitteeLength);
        }
        if electra && committee_index >= MAX_COMMITTEES_PER_SLOT {
            return Err(AttestationError::InvalidCommitteeIndex);
        }
        let aggregation_bits = falses(committee_length as usize);
        let committee_bits = if electra {
            let mut bits = falses(MAX_COMMITTEES_PER_SLOT as usize);
            bits.set(committee_index as usize, true);
            assert(bits@ =~= single_bit(MAX_COMMITTEES_PER_SLOT as nat, committee_index as int));
            Some(bits)
        } else {
            None
        };
        let index = if electra { 0 } else { committee_index };
        Ok(Attestation {
            aggregation_bits,
            data: AttestationData { slot, index, beacon_block_root, source, target },
            committee_bits,
            signature: SignatureBytes::infinity(),
        })
    }

    /// Marks the committee member at `position` as a signer.
    pub fn set_signer_bit(&mut self, position: usize) -> (r: Result<(), AttestationError>)
        ensures
            position >= old(self).aggregation_bits@.len() ==> r == Err::<(), AttestationError>(
                AttestationError::InvalidBitfieldIndex,
            ) && *final(self) == *old(self),
            position < old(self).aggregation_bits@.len() && old(self).aggregation_bits@[position as int]
                ==> r == Err::<(), AttestationError>(AttestationError::AlreadySigned(position))
                && *final(self) == *old(self),
            position < old(self).aggregation_bits@.len() && !old(self).aggregation_bits@[position as int]
                ==> r is Ok && final(self).aggregation_bits@ == old(self).aggregation_bits@.update(
                position as int,
                true,
            ) && final(self).data == old(self).data && final(self).committee_bits == old(self).committee_bits
                && final(self).signature == old(self).signature,
    {
        if position >= self.aggregation_bits.len() {
            return Err(AttestationError::InvalidBitfieldIndex);
        }
        if self.aggregation_bits[position] {
            return Err(AttestationError::AlreadySigned(position));
        }
        self.aggregation_bits.set(position, true);
        Ok(())
    }

    /// The committee an attestation from Electra on is for: the first set committee bit.
    pub open spec fn committee_of(self) -> Option<int> {
        match self.committee_bits {
            None => None,
            Some(bits) => if exists|i: int| 0 <= i < bits@.len() && bits@[i] {
                Some(choose|i: int| 0 <= i < bits@.len() && bits@[i] && forall|j: int| 0 <= j < i ==> !bits@[j])
            } else {
                None
            },
        }
    }

    /// The Electra form of an unaggregated attestation, for the validator `attester_index`.
    pub fn to_single_attestation_with_attester_index(&self, attester_index: u64) -> (r: Result<
        SingleAttestation,
        AttestationError,
    >)
        ensures
            self.committee_bits is None ==> r == Err::<SingleAttestation, AttestationError>(
                AttestationError::IncorrectStateVariant,
            ),
            self.committee_bits is Some ==> match self.committee_of() {
                None => r == Err::<SingleAttestation, AttestationError>(
                    AttestationError::InvalidCommitteeIndex,
                ),
                Some(c) => r is Ok && r->Ok_0 == (SingleAttestation {
                    committee_index: c as u64,
                    attester_index,
                    data: self.data,
                    signature: self.signature,
                }),
            },
    {
        match &self.committee_bits {
            None => Err(AttestationError::IncorrectStateVariant),
            Some(bits) => {
                match first_set_bit(bits) {
                    None => Err(AttestationError::InvalidCommitteeIndex),
                    Some(c) => {
                        proof {
                            let i = c as int;
                            assert(0 <= i < bits@.len() && bits@[i]);
                            let k = choose|k: int| 0 <= k < bits@.len() && bits@[k] && forall|j: int| 0 <= j < k ==> !bits@[j];
                            assert(k == i) by {
                                if k < i { assert(!bits@[k]); }
                                if i < k { assert(!bits@[i]); }
                            }
                        }
                        Ok(SingleAttestation {
                            committee_index: c as u64,
                            attester_index,
                            data: self.data,
                            signature: self.signature,
                        })
                    },
                }
            },
        }
    }
}

/// Whether the data fits the duty: the same slot, and before Electra the same committee.
pub open spec fn duty_matches(duty: AttesterDuty, data: AttestationData, electra: bool) -> bool {
    if electra {
        duty.slot == data.slot
    } else {
        duty.slot == data.slot && duty.committee_index == data.index
    }
}

impl AttesterDuty {
    /// Whether the data fits the duty: the same slot, and before Electra the same committee.
    pub fn match_attestation_data(&self, data: &AttestationData, electra: bool) -> (r: bool)
        ensures
            r == duty_matches(*self, *data, electra),
    {
        if electra {
            self.slot == data.slot
        } else {
            self.slot == data.slot && self.committee_index == data.index
        }
    }
}

/// Whether the validator of this duty will sign the data: it fits the duty, and an
/// attestation for the duty's committee can be built.
pub open spec fn will_sign(duty: AttesterDuty, data: AttestationData, electra: bool) -> bool {
    duty_matches(duty, data, electra) && valid_committee(duty.committee_index, duty.committee_length, electra)
}

/// The duties whose validators sign the data, in order.
pub open spec fn duties_to_sign_spec(duties: Seq<DutyAndProof>, data: AttestationData, electra: bool) -> Seq<AttesterDuty>
    decreases duties.len(),
{
    if duties.len() == 0 {
        seq![]
    } else {
        let rest = duties_to_sign_spec(duties.drop_last(), data, electra);
        let d = duties.last().duty;
        if will_sign(d, data, electra) { rest.push(d) } else { rest }
    }
}

/// The duties whose validators sign the downloaded data, in order. A duty that the data does
/// not fit is dropped (the data is never guessed at), and so is one whose committee no
/// attestation can be built for.
pub fn duties_to_sign(duties: &Vec<DutyAndProof>, data: &AttestationData, electra: bool) -> (r: Vec<AttesterDuty>)
    ensures
        r@ == duties_to_sign_spec(duties@, *data, electra),
{
    let mut out: Vec<AttesterDuty> = Vec::new();
    let mut i: usize = 0;
    while i < duties.len()
        invariant
            i <= duties@.len(),
            out@ == duties_to_sign_spec(duties@.take(i as int), *data, electra),
        decreases duties@.len() - i,
    {
        proof {
            assert(duties@.take(i as int + 1).drop_last() =~= duties@.take(i as int));
        }
        let d = duties[i].duty;
        if d.match_attestation_data(data, electra) && d.committee_length <= MAX_VALIDATORS_PER_COMMITTEE
            && (!electra || d.committee_index < MAX_COMMITTEES_PER_SLOT) {
            out.push(d);
        }
        i = i + 1;
    }
    assert(duties@.take(i as int) =~= duties@);
    out
}


impl TreeHash for Checkpoint {
    open spec fn root_spec(&self) -> Seq<u8> {
        merkleize(seq![int_chunk(self.epoch), self.root.bytes@])
    }

    open spec fn type_spec() -> TreeHashType {
        TreeHashType::Container
    }

    open spec fn packed_encoding_spec(&self) -> Seq<u8> {
        self.root_spec()
    }

    open spec fn packing_factor_spec() -> nat {
        1
    }

    open spec fn packed_spec() -> bool {
        false
    }

    fn tree_hash_type() -> TreeHashType {
        TreeHashType::Container
    }

    fn tree_hash_packed_encoding(&self) -> Vec<u8> {
        let root = self.tree_hash_root();
        copy_bytes(root.bytes.as_slice())
    }

    fn tree_hash_packing_factor() -> usize {
        1
    }

    fn tree_hash_root(&self) -> (r: Hash256) {
        let mut leaves: Vec<[u8; 32]> = Vec::new();
        leaves.push(int_to_hash256(self.epoch).bytes);
        leaves.push(self.root.bytes);
        assert(chunk_views(leaves@) =~= seq![int_chunk(self.epoch), self.root.bytes@]);
        Hash256 { bytes: merkleize_chunks(leaves) }
    }
}

impl TreeHash for AttestationData {
    open spec fn root_spec(&self) -> Seq<u8> {
        merkleize(
            seq![
                int_chunk(self.slot),
                int_chunk(self.index),
                self.beacon_block_root.bytes@,
                self.source.root_spec(),
                self.target.root_spec(),
            ],
        )
    }

    open spec fn type_spec() -> TreeHashType {
        TreeHashType::Container
    }

    open spec fn packed_encoding_spec(&self) -> Seq<u8> {
        self.root_spec()
    }

    open spec fn packing_factor_spec() -> nat {
        1
    }

    open spec fn packed_spec() -> bool {
        false
    }

    fn tree_hash_type() -> TreeHashType {
        TreeHashType::Container
    }

    fn tree_hash_packed_encoding(&self) -> Vec<u8> {
        let root = self.tree_hash_root();
        copy_bytes(root.bytes.as_slice())
    }

    fn tree_hash_packing_factor() -> usize {
        1
    }

    fn tree_hash_root(&self) -> (r: Hash256) {
        let mut leaves: Vec<[u8; 32]> = Vec::new();
        leaves.push(int_to_hash256(self.slot).bytes);
        leaves.push(int_to_hash256(self.index).bytes);
        leaves.push(self.beacon_block_root.bytes);
        leaves.push(self.source.tree_hash_root().bytes);
        leaves.push(self.target.tree_hash_root().bytes);
        assert(chunk_views(leaves@) =~= seq![
            int_chunk(self.slot),
            int_chunk(self.index),
            self.beacon_block_root.bytes@,
            self.source.root_spec(),
            self.target.root_spec(),
        ]);
        Hash256 { bytes: merkleize_chunks(leaves) }
    }
}

} // verus!
