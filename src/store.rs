use vstd::prelude::*;

verus! {

/// The 48 bytes of a BLS public key, as they travel.
#[derive(Debug, Clone, Copy, PartialEq, Eq)]
pub struct PublicKeyBytes {
    pub bytes: [u8; 48],
}

/// A 20-byte execution-layer address.
#[derive(Debug, Clone, Copy, PartialEq, Eq)]
pub struct Address {
    pub bytes: [u8; 20],
}

/// Why the validator store refused to sign. `T` is the store's own error type.
#[derive(Debug, Clone, PartialEq)]
pub enum Error<T> {
    DoppelgangerProtected(PublicKeyBytes),
    UnknownToDoppelgangerService(PublicKeyBytes),
    UnknownPubkey(PublicKeyBytes),
    /// The slashing-protection database vetoed the message; the text says why.
    Slashable(String),
    SameData,
    GreaterThanCurrentSlot { slot: u64, current_slot: u64 },
    GreaterThanCurrentEpoch { epoch: u64, current_epoch: u64 },
    /// The attestation could not take the signature; the text says why.
    UnableToSignAttestation(String),
    SpecificError(T),
}

impl<T> Error<T> {
    /// Whether the key is no longer known to the store (it may have been removed while running).
    pub fn is_unknown_pubkey(&self) -> (r: bool)
        ensures
            r == (self is UnknownPubkey),
    {
        match self {
            Error::UnknownPubkey(_) => true,
            _ => false,
        }
    }
}

impl<T> From<T> for Error<T> {
    fn from(e: T) -> (r: Error<T>) {
        Error::SpecificError(e)
    }
}

impl<T> vstd::std_specs::convert::FromSpecImpl<T> for Error<T> {
    open spec fn obeys_from_spec() -> bool {
        true
    }

    open spec fn from_spec(e: T) -> Error<T> {
        Error::SpecificError(e)
    }
}

/// A helper struct, used for passing data from the validator store to services.
#[derive(Debug, Clone, Copy, PartialEq, Eq)]
pub struct ProposalData {
    pub validator_index: Option<u64>,
    pub fee_recipient: Option<Address>,
    pub gas_limit: u64,
    pub builder_proposals: bool,
}

/// A public key together with what doppelganger protection says of it.
#[derive(Debug, Clone, Copy, PartialEq, Eq)]
pub enum DoppelgangerStatus {
    /// Doppelganger protection has approved this key for signing.
    SigningEnabled(PublicKeyBytes),
    /// Doppelganger protection is still waiting to detect other instances: no slashable
    /// message may be signed with this key, other work may go on.
    SigningDisabled(PublicKeyBytes),
    /// The key is unknown to the doppelganger service: it is permanently disabled.
    UnknownToDoppelganger(PublicKeyBytes),
}

impl DoppelgangerStatus {
    /// The key inside the status, whatever the status is.
    pub open spec fn key(self) -> PublicKeyBytes {
        match self {
            DoppelgangerStatus::SigningEnabled(pk) => pk,
            DoppelgangerStatus::SigningDisabled(pk) => pk,
            DoppelgangerStatus::UnknownToDoppelganger(pk) => pk,
        }
    }

    /// Only returns the key if doppelganger protection has declared it safe for signing.
    pub fn only_safe(self) -> (r: Option<PublicKeyBytes>)
        ensures
            r == (if self is SigningEnabled { Some(self.key()) } else { None::<PublicKeyBytes> }),
    {
        match self {
            DoppelgangerStatus::SigningEnabled(pubkey) => Some(pubkey),
            DoppelgangerStatus::SigningDisabled(_) => None,
            DoppelgangerStatus::UnknownToDoppelganger(_) => None,
        }
    }

    /// Returns the key whether or not doppelganger protection has approved it, for work that
    /// signs nothing slashable; `None` when the key is unknown to doppelganger protection.
    pub fn ignored(self) -> (r: Option<PublicKeyBytes>)
        ensures
            r == (if self is UnknownToDoppelganger {
                None::<PublicKeyBytes>
            } else {
                Some(self.key())
            }),
    {
        match self {
            DoppelgangerStatus::SigningEnabled(pubkey) => Some(pubkey),
            DoppelgangerStatus::SigningDisabled(pubkey) => Some(pubkey),
            DoppelgangerStatus::UnknownToDoppelganger(_) => None,
        }
    }

    /// Only returns the key if it must not be used for signing.
    pub fn only_unsafe(self) -> (r: Option<PublicKeyBytes>)
        ensures
            r == (if self is SigningEnabled { None::<PublicKeyBytes> } else { Some(self.key()) }),
    {
        match self {
            DoppelgangerStatus::SigningEnabled(_) => None,
            DoppelgangerStatus::SigningDisabled(pubkey) => Some(pubkey),
            DoppelgangerStatus::UnknownToDoppelganger(pubkey) => Some(pubkey),
        }
    }
}

} // verus!
