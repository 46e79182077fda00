use vstd::prelude::*;

use crate::fallback::{Errors, FallbackError};
use crate::store::PublicKeyBytes;

verus! {

/// Why a block proposal failed.
#[derive(Debug, Clone, PartialEq, Eq)]
pub enum BlockError {
    /// Nothing was signed yet: the proposal may be tried again.
    Recoverable(String),
    /// A block may already have been signed: trying again could sign a second one.
    Irrecoverable(String),
}

impl BlockError {
    pub open spec fn message(self) -> Seq<char> {
        match self {
            BlockError::Recoverable(m) => m@,
            BlockError::Irrecoverable(m) => m@,
        }
    }

    /// The error that a whole pool reports: irrecoverable as soon as one endpoint failed
    /// irrecoverably, recoverable otherwise. The message lists every endpoint's failure.
    pub fn from_errors(e: Errors<BlockError>) -> (r: BlockError)
        ensures
            (r is Irrecoverable) == any_irrecoverable(e.failures@),
            r.message() == errors_text(e.failures@),
    {
        let text = describe_errors(&e);
        let mut i: usize = 0;
        let mut irrecoverable = false;
        while i < e.failures.len()
            invariant
                i <= e.failures@.len(),
                irrecoverable == any_irrecoverable(e.failures@.take(i as int)),
            decreases e.failures@.len() - i,
        {
            proof {
                assert(e.failures@.take(i as int + 1).drop_last() =~= e.failures@.take(i as int));
                lemma_any_irrecoverable_snoc(e.failures@.take(i as int + 1));
            }
            match &e.failures[i].1 {
                FallbackError::RequestFailed(BlockError::Irrecoverable(_)) => {
                    irrecoverable = true;
                },
                _ => {},
            }
            i = i + 1;
        }
        assert(e.failures@.take(i as int) =~= e.failures@);
        if irrecoverable {
            BlockError::Irrecoverable(text)
        } else {
            BlockError::Recoverable(text)
        }
    }
}

pub open spec fn is_irrecoverable_failure(f: FallbackError<BlockError>) -> bool {
    f is RequestFailed && f->RequestFailed_0 is Irrecoverable
}

/// Whether one of the endpoints failed irrecoverably.
pub open spec fn any_irrecoverable(f: Seq<(String, FallbackError<BlockError>)>) -> bool {
    exists|i: int| 0 <= i < f.len() && is_irrecoverable_failure(#[trigger] f[i].1)
}

proof fn lemma_any_irrecoverable_snoc(f: Seq<(String, FallbackError<BlockError>)>)
    requires
        f.len() > 0,
    ensures
        any_irrecoverable(f) == (any_irrecoverable(f.drop_last()) || is_irrecoverable_failure(
            f.last().1,
        )),
{
    if any_irrecoverable(f) {
        let i = choose|i: int| 0 <= i < f.len() && is_irrecoverable_failure(#[trigger] f[i].1);
        if i < f.len() - 1 {
            assert(f.drop_last()[i] == f[i]);
        }
    }
    if any_irrecoverable(f.drop_last()) {
        let i = choose|i: int|
            0 <= i < f.drop_last().len() && is_irrecoverable_failure(#[trigger] f.drop_last()[i].1);
        assert(f[i] == f.drop_last()[i]);
    }
}

pub open spec fn failure_text(f: FallbackError<BlockError>) -> Seq<char> {
    match f {
        FallbackError::Unavailable(s) => "unavailable: "@ + s@,
        FallbackError::RequestFailed(e) => e.message(),
    }
}

/// Each endpoint's name and failure, in order: `name => failure; `.
pub open spec fn errors_text(f: Seq<(String, FallbackError<BlockError>)>) -> Seq<char>
    decreases f.len(),
{
    if f.len() == 0 {
        seq![]
    } else {
        errors_text(f.drop_last()) + f.last().0@ + " => "@ + failure_text(f.last().1) + "; "@
    }
}

/// Each endpoint's name and failure, in order: `name => failure; `.
pub fn describe_errors(e: &Errors<BlockError>) -> (r: String)
    ensures
        r@ == errors_text(e.failures@),
{
    let mut out = String::new();
    let mut i: usize = 0;
    while i < e.failures.len()
        invariant
            i <= e.failures@.len(),
            out@ == errors_text(e.failures@.take(i as int)),
        decreases e.failures@.len() - i,
    {
        proof {
            assert(e.failures@.take(i as int + 1).drop_last() =~= e.failures@.take(i as int));
        }
        let entry = &e.failures[i];
        out = out.concat(entry.0.as_str());
        out = out.concat(" => ");
        match &entry.1 {
            FallbackError::Unavailable(s) => {
                out = out.concat("unavailable: ");
                out = out.concat(s.as_str());
            },
            FallbackError::RequestFailed(BlockError::Recoverable(m)) => {
                out = out.concat(m.as_str());
            },
            FallbackError::RequestFailed(BlockError::Irrecoverable(m)) => {
                out = out.concat(m.as_str());
            },
        }
        out = out.concat("; ");
        i = i + 1;
    }
    assert(e.failures@.take(i as int) =~= e.failures@);
    out
}

/// Builder boost factor that means "no preference": it is never sent.
pub const NEUTRAL_BUILDER_BOOST_FACTOR: u64 = 100;

pub open spec fn builder_boost_spec(validator_factor: Option<u64>, default_factor: Option<u64>) -> Option<u64> {
    let chosen = match validator_factor {
        Some(f) => Some(f),
        None => default_factor,
    };
    match chosen {
        Some(f) => if f == NEUTRAL_BUILDER_BOOST_FACTOR { None } else { Some(f) },
        None => None,
    }
}

/// The builder boost factor to request a block with: the validator's own setting first, else
/// the process-wide default. A factor of 100 is sent as no factor at all, which means the same
/// and avoids rounding downstream.
pub fn get_builder_boost_factor(validator_factor: Option<u64>, default_factor: Option<u64>) -> (r:
    Option<u64>)
    ensures
        r == builder_boost_spec(validator_factor, default_factor),
{
    let chosen = match validator_factor {
        Some(f) => Some(f),
        None => default_factor,
    };
    match chosen {
        Some(f) => if f == NEUTRAL_BUILDER_BOOST_FACTOR {
            None
        } else {
            Some(f)
        },
        None => None,
    }
}

/// The 32-byte free-form field of a block.
#[derive(Debug, Clone, Copy, PartialEq, Eq)]
pub struct Graffiti {
    pub bytes: [u8; 32],
}

pub open spec fn graffiti_spec(
    file_graffiti: Option<Graffiti>,
    validator_graffiti: Option<Graffiti>,
    default_graffiti: Option<Graffiti>,
) -> Option<Graffiti> {
    if file_graffiti is Some {
        file_graffiti
    } else if validator_graffiti is Some {
        validator_graffiti
    } else {
        default_graffiti
    }
}

/// The graffiti of a block: the graffiti file's entry for the proposer, else the graffiti set
/// for that validator, else the process-wide default, else none.
pub fn determine_graffiti(
    file_graffiti: Option<Graffiti>,
    validator_graffiti: Option<Graffiti>,
    default_graffiti: Option<Graffiti>,
) -> (r: Option<Graffiti>)
    ensures
        r == graffiti_spec(file_graffiti, validator_graffiti, default_graffiti),
{
    match file_graffiti {
        Some(g) => Some(g),
        None => match validator_graffiti {
            Some(g) => Some(g),
            None => default_graffiti,
        },
    }
}

/// A failed publish as the beacon node's HTTP client reports it.
#[derive(Debug, Clone, PartialEq, Eq)]
pub struct PublishError {
    /// The HTTP status of the response, where there was one.
    pub status: Option<u16>,
    pub message: String,
}

pub open spec fn is_success_status(status: Option<u16>) -> bool {
    match status {
        Some(code) => 200 <= code <= 299,
        None => false,
    }
}

/// What a failed publish means. A `202 Accepted` (the block is already known, or may be
/// invalid) and any other 2xx status count as success. Anything else is irrecoverable: the
/// block has been signed, so it must not be proposed again.
pub fn handle_block_post_error(err: PublishError) -> (r: Result<(), BlockError>)
    ensures
        r is Ok <==> is_success_status(err.status),
        r is Err ==> r->Err_0 is Irrecoverable && r->Err_0.message()
            == "Error from beacon node when publishing block: "@ + err.message@,
{
    match err.status {
        Some(code) => {
            if code == 202 {
                return Ok(());
            } else if 200 <= code && code <= 299 {
                return Ok(());
            }
        },
        None => {},
    }
    let text = String::from_str("Error from beacon node when publishing block: ");
    Err(BlockError::Irrecoverable(text.concat(err.message.as_str())))
}

/// Whether a block carries the full execution payload or only its header.
#[derive(Debug, Clone, Copy, PartialEq, Eq, Structural)]
pub enum BlockType {
    Full,
    Blinded,
}

/// What the service reads of a block.
#[derive(Debug, Clone, Copy, PartialEq, Eq, Structural)]
pub struct BlockSummary {
    pub slot: u64,
    pub proposer_index: u64,
    pub num_deposits: usize,
    pub num_attestations: usize,
}

/// A block returned by a beacon node, to be signed.
#[derive(Debug, Clone, Copy, PartialEq, Eq, Structural)]
pub enum UnsignedBlock {
    Full(BlockSummary),
    Blinded(BlockSummary),
}

impl UnsignedBlock {
    pub open spec fn summary(self) -> BlockSummary {
        match self {
            UnsignedBlock::Full(b) => b,
            UnsignedBlock::Blinded(b) => b,
        }
    }

    pub fn proposer_index(&self) -> (r: u64)
        ensures
            r == self.summary().proposer_index,
    {
        match self {
            UnsignedBlock::Full(block) => block.proposer_index,
            UnsignedBlock::Blinded(block) => block.proposer_index,
        }
    }
}

/// A signed block, ready to be published.
#[derive(Debug, Clone, Copy, PartialEq, Eq, Structural)]
pub enum SignedBlock {
    Full(BlockSummary),
    Blinded(BlockSummary),
}

impl SignedBlock {
    pub open spec fn summary(self) -> BlockSummary {
        match self {
            SignedBlock::Full(b) => b,
            SignedBlock::Blinded(b) => b,
        }
    }

    pub fn block_type(&self) -> (r: BlockType)
        ensures
            r == (if self is Full { BlockType::Full } else { BlockType::Blinded }),
    {
        match self {
            SignedBlock::Full(_) => BlockType::Full,
            SignedBlock::Blinded(_) => BlockType::Blinded,
        }
    }

    pub fn slot(&self) -> (r: u64)
        ensures
            r == self.summary().slot,
    {
        match self {
            SignedBlock::Full(block) => block.slot,
            SignedBlock::Blinded(block) => block.slot,
        }
    }

    pub fn num_deposits(&self) -> (r: usize)
        ensures
            r == self.summary().num_deposits,
    {
        match self {
            SignedBlock::Full(block) => block.num_deposits,
            SignedBlock::Blinded(block) => block.num_deposits,
        }
    }

    pub fn num_attestations(&self) -> (r: usize)
        ensures
            r == self.summary().num_attestations,
    {
        match self {
            SignedBlock::Full(block) => block.num_attestations,
            SignedBlock::Blinded(block) => block.num_attestations,
        }
    }
}

/// The message of a block for another proposer than expected.
pub open spec fn reorg_message() -> Seq<char> {
    "Proposer index does not match block proposer. Beacon chain re-orged"@
}

/// Accepts a block from a beacon node only if it names the proposer that this validator is
/// known as; a block for another proposer means the chain re-orged.
pub fn check_block_proposer(proposer_index: Option<u64>, block: UnsignedBlock) -> (r: Result<
    UnsignedBlock,
    BlockError,
>)
    ensures
        r is Ok <==> proposer_index == Some(block.summary().proposer_index),
        r is Ok ==> r->Ok_0 == block,
        r is Err ==> r->Err_0 is Recoverable && r->Err_0.message() == reorg_message(),
{
    match proposer_index {
        Some(index) => if index == block.proposer_index() {
            return Ok(block);
        },
        None => {},
    }
    Err(
        BlockError::Recoverable(
            String::from_str("Proposer index does not match block proposer. Beacon chain re-orged"),
        ),
    )
}

/// Notification from the duties service that blocks should be produced at `slot`.
#[derive(Debug, Clone, PartialEq, Eq)]
pub struct BlockServiceNotification {
    pub slot: u64,
    pub block_proposers: Vec<PublicKeyBytes>,
}

/// The notifications waiting for the block service, at most `capacity` of them. When it is
/// full the oldest is dropped (and counted): a missed slot is skipped, not produced late.
#[derive(Debug)]
pub struct NotificationQueue {
    pub items: Vec<BlockServiceNotification>,
    pub capacity: usize,
    pub dropped: u64,
}

impl NotificationQueue {
    pub open spec fn wf(&self) -> bool {
        0 < self.capacity && self.items@.len() <= self.capacity
    }

    pub fn new(capacity: usize) -> (r: NotificationQueue)
        requires
            capacity > 0,
        ensures
            r.wf(),
            r.items@.len() == 0,
            r.capacity == capacity,
            r.dropped == 0,
    {
        NotificationQueue { items: Vec::new(), capacity, dropped: 0 }
    }

    /// Adds a notification, dropping the oldest one if the queue is full.
    pub fn push(&mut self, n: BlockServiceNotification)
        requires
            old(self).wf(),
        ensures
            final(self).wf(),
            final(self).capacity == old(self).capacity,
            old(self).items@.len() < old(self).capacity ==> final(self).items@ == old(self).items@.push(n)
                && final(self).dropped == old(self).dropped,
            old(self).items@.len() == old(self).capacity ==> final(self).items@
                == old(self).items@.drop_first().push(n) && final(self).dropped == (if old(self).dropped
                == u64::MAX { u64::MAX } else { (old(self).dropped + 1) as u64 }),
    {
        if self.items.len() == self.capacity {
            let _ = self.items.remove(0);
            self.dropped = self.dropped.saturating_add(1);
        }
        self.items.push(n);
    }

    /// Takes the oldest notification, if there is one.
    pub fn pop(&mut self) -> (r: Option<BlockServiceNotification>)
        requires
            old(self).wf(),
        ensures
            final(self).wf(),
            final(self).capacity == old(self).capacity,
            final(self).dropped == old(self).dropped,
            old(self).items@.len() == 0 ==> r is None && final(self).items@ == old(self).items@,
            old(self).items@.len() > 0 ==> r == Some(old(self).items@[0]) && final(self).items@
                == old(self).items@.drop_first(),
    {
        if self.items.len() == 0 {
            None
        } else {
            Some(self.items.remove(0))
        }
    }
}

/// What to do with a notification.
#[derive(Debug, Clone, Copy, PartialEq, Eq, Structural)]
pub enum UpdatePlan {
    /// The notification is for another slot than the current one (the machine may be
    /// overloaded): nothing is produced.
    Expired { current_slot: u64, notification_slot: u64 },
    /// No block is produced at the genesis slot.
    Genesis,
    /// Produce a block at `slot` for each proposer of the notification.
    Produce { slot: u64 },
}

pub open spec fn plan_spec(current_slot: Option<u64>, genesis_slot: u64, notification_slot: u64) -> Result<UpdatePlan, ()> {
    match current_slot {
        None => Err(()),
        Some(now) => if notification_slot != now {
            Ok(UpdatePlan::Expired { current_slot: now, notification_slot })
        } else if now == genesis_slot {
            Ok(UpdatePlan::Genesis)
        } else {
            Ok(UpdatePlan::Produce { slot: now })
        },
    }
}

/// Decides what a notification asks for, given the clock's current slot (`None` where the
/// clock cannot be read, which is an error).
pub fn plan_update(current_slot: Option<u64>, genesis_slot: u64, notification: &BlockServiceNotification) -> (r:
    Result<UpdatePlan, ()>)
    ensures
        r == plan_spec(current_slot, genesis_slot, notification.slot),
{
    let slot = match current_slot {
        Some(s) => s,
        None => return Err(()),
    };
    if notification.slot != slot {
        return Ok(UpdatePlan::Expired { current_slot: slot, notification_slot: notification.slot });
    }
    if slot == genesis_slot {
        return Ok(UpdatePlan::Genesis);
    }
    Ok(UpdatePlan::Produce { slot })
}

/// Once the slot of a notification has passed, the notification leads to no work: a proposal
/// is only ever made during the slot it is for, so none is made again in a later slot.
pub proof fn lemma_no_work_for_past_slot(current_slot: u64, genesis_slot: u64, notification_slot: u64)
    requires
        notification_slot < current_slot,
    ensures
        plan_spec(Some(current_slot), genesis_slot, notification_slot) == Ok::<UpdatePlan, ()>(
            UpdatePlan::Expired { current_slot, notification_slot },
        ),
{
}

} // verus!
