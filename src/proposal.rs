use vstd::prelude::*;

use crate::block::{check_block_proposer, describe_errors, errors_text, reorg_message, BlockError, UnsignedBlock};
use crate::fallback::{Errors, PoolKind, ProposerFallback, Route};
use crate::store::Error as StoreError;

verus! {

/// Where a block proposal stands.
#[derive(Debug, Clone, Copy, PartialEq, Eq, Structural)]
pub enum ProposalStage {
    /// Waiting for the RANDAO reveal from the validator store.
    Randao,
    /// Waiting for an unsigned block from this pool.
    Fetch(PoolKind),
    /// Waiting for the validator store to sign the block.
    Sign,
    /// Waiting for this pool to take the signed block.
    Publish(PoolKind),
    /// Over: nothing more is done.
    Done,
}

/// The proposal of one block, for one proposer at one slot, driven by the answers that the
/// validator store and the beacon nodes give. `proposer_index` is the index the validator is
/// known by, which the block must name.
#[derive(Debug, Clone, Copy, PartialEq, Eq, Structural)]
pub struct BlockProposal {
    pub slot: u64,
    pub proposer_index: Option<u64>,
    pub fallback: ProposerFallback,
    pub stage: ProposalStage,
}

/// An answer handed to a proposal. `T` is the validator store's own error type.
pub enum ProposalEvent<T> {
    RandaoRevealed(Result<(), StoreError<T>>),
    /// The answer of the pool that was asked for a block: the block, or every endpoint's
    /// failure.
    BlockFetched(Result<UnsignedBlock, Errors<BlockError>>),
    BlockSigned(Result<(), StoreError<T>>),
    /// The answer of the pool that was given the signed block.
    Published(Result<(), Errors<BlockError>>),
}

/// What a proposal asks for next.
#[derive(Debug, PartialEq)]
pub enum ProposalAction {
    /// Ask the validator store for the RANDAO reveal of this epoch.
    RequestRandao { epoch: u64 },
    /// Ask this pool for an unsigned block.
    FetchBlock(PoolKind),
    /// Ask the validator store to sign this block for this slot.
    SignBlock { slot: u64, block: UnsignedBlock },
    /// Give the signed block to this pool.
    PublishBlock(PoolKind),
    /// The proposal is over, with this result.
    Finish(Result<(), BlockError>),
    /// The answer did not fit the stage: nothing to do.
    Ignore,
}

/// The shape of an action, without the text of its error.
#[derive(Debug, Clone, Copy, PartialEq, Eq, Structural)]
pub enum ActionShape {
    RequestRandao,
    FetchBlock(PoolKind),
    SignBlock,
    PublishBlock(PoolKind),
    FinishOk,
    FinishRecoverable,
    FinishIrrecoverable,
    Ignore,
}

pub open spec fn shape_of(a: ProposalAction) -> ActionShape {
    match a {
        ProposalAction::RequestRandao { .. } => ActionShape::RequestRandao,
        ProposalAction::FetchBlock(p) => ActionShape::FetchBlock(p),
        ProposalAction::SignBlock { .. } => ActionShape::SignBlock,
        ProposalAction::PublishBlock(p) => ActionShape::PublishBlock(p),
        ProposalAction::Finish(Ok(())) => ActionShape::FinishOk,
        ProposalAction::Finish(Err(BlockError::Recoverable(_))) => ActionShape::FinishRecoverable,
        ProposalAction::Finish(Err(BlockError::Irrecoverable(_))) => ActionShape::FinishIrrecoverable,
        ProposalAction::Ignore => ActionShape::Ignore,
    }
}

/// How a store refusal ends a proposal: an unknown key (a validator removed while running) is
/// no failure, any other refusal is recoverable, as nothing was signed.
pub open spec fn refusal_shape<T>(e: StoreError<T>) -> ActionShape {
    if e is UnknownPubkey {
        ActionShape::FinishOk
    } else {
        ActionShape::FinishRecoverable
    }
}

/// The message of the error that ends a proposal, for an answer that ends it with one.
pub open spec fn finish_message<T>(p: BlockProposal, event: ProposalEvent<T>) -> Seq<char> {
    match (p.stage, event) {
        (ProposalStage::Randao, ProposalEvent::RandaoRevealed(Err(_))) => "Unable to produce randao reveal signature"@,
        (ProposalStage::Sign, ProposalEvent::BlockSigned(Err(_))) => "Unable to sign block"@,
        (ProposalStage::Fetch(_), ProposalEvent::BlockFetched(Ok(_))) => reorg_message(),
        (ProposalStage::Fetch(_), ProposalEvent::BlockFetched(Err(e))) => errors_text(e.failures@),
        (ProposalStage::Publish(_), ProposalEvent::Published(Err(e))) => errors_text(e.failures@),
        _ => seq![],
    }
}

impl BlockProposal {
    pub open spec fn with_stage(self, stage: ProposalStage) -> BlockProposal {
        BlockProposal { stage, ..self }
    }

    /// The next state and the shape of the next action, for an answer. Every failure before
    /// the block is signed is recoverable (a block for another proposer among them: the chain
    /// re-orged); every failure to publish the signed block is irrecoverable, whatever the
    /// endpoints reported, as the block may already be out.
    pub open spec fn next<T>(self, event: ProposalEvent<T>) -> (BlockProposal, ActionShape) {
        match (self.stage, event) {
            (ProposalStage::Randao, ProposalEvent::RandaoRevealed(Ok(()))) => (
                self.with_stage(ProposalStage::Fetch(PoolKind::General)),
                ActionShape::FetchBlock(PoolKind::General),
            ),
            (ProposalStage::Randao, ProposalEvent::RandaoRevealed(Err(e))) => (
                self.with_stage(ProposalStage::Done),
                refusal_shape(e),
            ),
            (ProposalStage::Fetch(pool), ProposalEvent::BlockFetched(r)) => {
                match self.fallback.proposers_last_spec(Some((pool, r))) {
                    Route::Query(p) => (
                        self.with_stage(ProposalStage::Fetch(p)),
                        ActionShape::FetchBlock(p),
                    ),
                    Route::Done(Ok(b)) => if self.proposer_index == Some(b.summary().proposer_index) {
                        (self.with_stage(ProposalStage::Sign), ActionShape::SignBlock)
                    } else {
                        (self.with_stage(ProposalStage::Done), ActionShape::FinishRecoverable)
                    },
                    Route::Done(Err(_)) => (
                        self.with_stage(ProposalStage::Done),
                        ActionShape::FinishRecoverable,
                    ),
                }
            },
            (ProposalStage::Sign, ProposalEvent::BlockSigned(Ok(()))) => {
                let p = self.fallback.proposers_first_spec::<BlockError>(None)->Query_0;
                (self.with_stage(ProposalStage::Publish(p)), ActionShape::PublishBlock(p))
            },
            (ProposalStage::Sign, ProposalEvent::BlockSigned(Err(e))) => (
                self.with_stage(ProposalStage::Done),
                refusal_shape(e),
            ),
            (ProposalStage::Publish(pool), ProposalEvent::Published(r)) => {
                match self.fallback.proposers_first_spec(Some((pool, r))) {
                    Route::Query(p) => (
                        self.with_stage(ProposalStage::Publish(p)),
                        ActionShape::PublishBlock(p),
                    ),
                    Route::Done(Ok(())) => (
                        self.with_stage(ProposalStage::Done),
                        ActionShape::FinishOk,
                    ),
                    Route::Done(Err(_)) => (
                        self.with_stage(ProposalStage::Done),
                        ActionShape::FinishIrrecoverable,
                    ),
                }
            },
            _ => (self, ActionShape::Ignore),
        }
    }

    /// Starts the proposal of a block at `slot` for the validator known by `proposer_index`:
    /// the first thing asked for is the RANDAO reveal of the slot's epoch.
    pub fn start(slot: u64, slots_per_epoch: u64, proposer_index: Option<u64>, fallback: ProposerFallback) -> (r: (
        BlockProposal,
        ProposalAction,
    ))
        requires
            slots_per_epoch > 0,
        ensures
            r.0 == (BlockProposal { slot, proposer_index, fallback, stage: ProposalStage::Randao }),
            r.1 == (ProposalAction::RequestRandao { epoch: slot / slots_per_epoch }),
    {
        (
            BlockProposal { slot, proposer_index, fallback, stage: ProposalStage::Randao },
            ProposalAction::RequestRandao { epoch: slot / slots_per_epoch },
        )
    }

    /// Takes an answer and says what to do next.
    pub fn step<T>(&mut self, event: ProposalEvent<T>) -> (a: ProposalAction)
        ensures
            (*final(self), shape_of(a)) == old(self).next(event),
            a is SignBlock ==> a->SignBlock_slot == old(self).slot && event is BlockFetched
                && event->BlockFetched_0 is Ok && a->SignBlock_block == event->BlockFetched_0->Ok_0,
            a is Finish && a->Finish_0 is Err ==> a->Finish_0->Err_0.message() == finish_message(
                *old(self),
                event,
            ),
    {
        let stage = self.stage;
        match (stage, event) {
            (ProposalStage::Randao, ProposalEvent::RandaoRevealed(Ok(()))) => {
                let route = self.fallback.request_proposers_last::<UnsignedBlock, BlockError>(None);
                match route {
                    Route::Query(p) => {
                        self.stage = ProposalStage::Fetch(p);
                        ProposalAction::FetchBlock(p)
                    },
                    Route::Done(_) => ProposalAction::Ignore,
                }
            },
            (ProposalStage::Randao, ProposalEvent::RandaoRevealed(Err(e))) => {
                self.stage = ProposalStage::Done;
                refusal_action(e, "Unable to produce randao reveal signature")
            },
            (ProposalStage::Fetch(pool), ProposalEvent::BlockFetched(r)) => {
                match self.fallback.request_proposers_last(Some((pool, r))) {
                    Route::Query(p) => {
                        self.stage = ProposalStage::Fetch(p);
                        ProposalAction::FetchBlock(p)
                    },
                    Route::Done(Ok(block)) => match check_block_proposer(self.proposer_index, block) {
                        Ok(block) => {
                            self.stage = ProposalStage::Sign;
                            ProposalAction::SignBlock { slot: self.slot, block }
                        },
                        Err(e) => {
                            self.stage = ProposalStage::Done;
                            ProposalAction::Finish(Err(e))
                        },
                    },
                    Route::Done(Err(e)) => {
                        self.stage = ProposalStage::Done;
                        ProposalAction::Finish(Err(BlockError::Recoverable(describe_errors(&e))))
                    },
                }
            },
            (ProposalStage::Sign, ProposalEvent::BlockSigned(Ok(()))) => {
                match self.fallback.request_proposers_first::<BlockError>(None) {
                    Route::Query(p) => {
                        self.stage = ProposalStage::Publish(p);
                        ProposalAction::PublishBlock(p)
                    },
                    Route::Done(_) => ProposalAction::Ignore,
                }
            },
            (ProposalStage::Sign, ProposalEvent::BlockSigned(Err(e))) => {
                self.stage = ProposalStage::Done;
                refusal_action(e, "Unable to sign block")
            },
            (ProposalStage::Publish(pool), ProposalEvent::Published(r)) => {
                match self.fallback.request_proposers_first(Some((pool, r))) {
                    Route::Query(p) => {
                        self.stage = ProposalStage::Publish(p);
                        ProposalAction::PublishBlock(p)
                    },
                    Route::Done(Ok(())) => {
                        self.stage = ProposalStage::Done;
                        ProposalAction::Finish(Ok(()))
                    },
                    Route::Done(Err(e)) => {
                        self.stage = ProposalStage::Done;
                        ProposalAction::Finish(Err(BlockError::Irrecoverable(describe_errors(&e))))
                    },
                }
            },
            _ => ProposalAction::Ignore,
        }
    }
}

fn refusal_action<T>(e: StoreError<T>, what: &str) -> (a: ProposalAction)
    ensures
        shape_of(a) == refusal_shape(e),
        a is Finish && a->Finish_0 is Err ==> a->Finish_0->Err_0.message() == what@,
{
    if e.is_unknown_pubkey() {
        ProposalAction::Finish(Ok(()))
    } else {
        ProposalAction::Finish(Err(BlockError::Recoverable(String::from_str(what))))
    }
}

/// The shapes of the actions that a proposal takes for a sequence of answers.
pub open spec fn run_shapes<T>(p: BlockProposal, events: Seq<ProposalEvent<T>>) -> Seq<ActionShape>
    decreases events.len(),
{
    if events.len() == 0 {
        seq![]
    } else {
        let (p2, a) = p.next(events[0]);
        seq![a] + run_shapes(p2, events.drop_first())
    }
}

proof fn lemma_run_len<T>(p: BlockProposal, events: Seq<ProposalEvent<T>>)
    ensures
        run_shapes(p, events).len() == events.len(),
    decreases events.len(),
{
    if events.len() > 0 {
        lemma_run_len(p.next(events[0]).0, events.drop_first());
    }
}

/// How many times a sequence of shapes asks for a signature.
pub open spec fn count_signs(shapes: Seq<ActionShape>) -> nat
    decreases shapes.len(),
{
    if shapes.len() == 0 {
        0
    } else {
        (if shapes[0] is SignBlock { 1nat } else { 0nat }) + count_signs(shapes.drop_first())
    }
}

pub open spec fn before_signing(stage: ProposalStage) -> bool {
    stage is Randao || stage is Fetch
}

proof fn lemma_signs_bounded<T>(p: BlockProposal, events: Seq<ProposalEvent<T>>)
    ensures
        count_signs(run_shapes(p, events)) <= (if before_signing(p.stage) { 1nat } else { 0nat }),
    decreases events.len(),
{
    if events.len() > 0 {
        let (p2, a) = p.next(events[0]);
        lemma_signs_bounded(p2, events.drop_first());
        let shapes = run_shapes(p, events);
        assert(shapes[0] == a);
        assert(shapes.drop_first() =~= run_shapes(p2, events.drop_first()));
        if a is SignBlock {
            assert(before_signing(p.stage));
            assert(!before_signing(p2.stage));
        }
        if !before_signing(p.stage) {
            assert(!before_signing(p2.stage));
        }
    }
}

/// A proposal asks the validator store for at most one signature, whatever the beacon nodes
/// and the store answer: at most one block is signed per proposer and slot.
pub proof fn lemma_at_most_one_signature<T>(
    slot: u64,
    proposer_index: Option<u64>,
    fallback: ProposerFallback,
    events: Seq<ProposalEvent<T>>,
)
    ensures
        count_signs(
            run_shapes(
                BlockProposal { slot, proposer_index, fallback, stage: ProposalStage::Randao },
                events,
            ),
        ) <= 1,
{
    lemma_signs_bounded(
        BlockProposal { slot, proposer_index, fallback, stage: ProposalStage::Randao },
        events,
    );
}

/// Every answer to a finished proposal is ignored.
proof fn lemma_done_ignores<T>(p: BlockProposal, events: Seq<ProposalEvent<T>>)
    requires
        p.stage is Done,
    ensures
        forall|i: int| 0 <= i < events.len() ==> #[trigger] run_shapes(p, events)[i] is Ignore,
    decreases events.len(),
{
    if events.len() > 0 {
        lemma_done_ignores(p, events.drop_first());
        lemma_run_len(p, events.drop_first());
        let shapes = run_shapes(p, events);
        assert(p.next(events[0]) == (p, ActionShape::Ignore));
        assert(shapes == seq![ActionShape::Ignore] + run_shapes(p, events.drop_first()));
        assert forall|i: int| 0 <= i < events.len() implies #[trigger] shapes[i] is Ignore by {
            if i > 0 {
                assert(shapes[i] == run_shapes(p, events.drop_first())[i - 1]);
            }
        }
    }
}

/// A failed publish of the signed block goes on from the proposer pool to the general pool,
/// and a failure there ends the proposal irrecoverably, whatever each endpoint reported (all
/// of them unavailable included): the block may already be out.
pub proof fn lemma_publish_failure_is_irrecoverable<T>(
    p: BlockProposal,
    e: Errors<BlockError>,
)
    requires
        p.stage is Publish,
    ensures
        p.stage == ProposalStage::Publish(PoolKind::General) ==> p.next(
            ProposalEvent::<T>::Published(Err(e)),
        ).1 == ActionShape::FinishIrrecoverable,
        p.stage == ProposalStage::Publish(PoolKind::Proposer) ==> p.next(
            ProposalEvent::<T>::Published(Err(e)),
        ).1 == ActionShape::PublishBlock(PoolKind::General),
{
}

/// Every failure before the block is signed ends the proposal recoverably: a failed fetch,
/// and a block that names another proposer (the chain re-orged).
pub proof fn lemma_fetch_failure_is_recoverable<T>(
    p: BlockProposal,
    r: Result<UnsignedBlock, Errors<BlockError>>,
)
    requires
        p.stage is Fetch,
        p.next(ProposalEvent::<T>::BlockFetched(r)).1 is FinishOk
            || p.next(ProposalEvent::<T>::BlockFetched(r)).1 is FinishRecoverable
            || p.next(ProposalEvent::<T>::BlockFetched(r)).1 is FinishIrrecoverable,
    ensures
        p.next(ProposalEvent::<T>::BlockFetched(r)).1 == ActionShape::FinishRecoverable,
        r is Ok && p.proposer_index != Some(r->Ok_0.summary().proposer_index)
            ==> p.next(ProposalEvent::<T>::BlockFetched(r)).1 != ActionShape::SignBlock,
{
}

/// An irrecoverable failure ends a proposal for good: whatever answers come after it, the
/// proposal asks for nothing more (no new fetch, signature or publish).
pub proof fn lemma_irrecoverable_is_final<T>(
    p: BlockProposal,
    event: ProposalEvent<T>,
    later: Seq<ProposalEvent<T>>,
)
    requires
        p.next(event).1 is FinishIrrecoverable,
    ensures
        forall|i: int| 0 <= i < later.len() ==> #[trigger] run_shapes(p.next(event).0, later)[i] is Ignore,
{
    lemma_done_ignores(p.next(event).0, later);
}

} // verus!
