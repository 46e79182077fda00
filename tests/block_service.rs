use validator_services::block::{
    check_block_proposer, determine_graffiti, get_builder_boost_factor, handle_block_post_error,
    BlockError, BlockServiceNotification, BlockSummary, NotificationQueue, BlockType, Graffiti, PublishError,
    SignedBlock, UnsignedBlock, UpdatePlan, plan_update,
};
use validator_services::fallback::{Errors, FallbackError, PoolKind, ProposerFallback, Route};
use validator_services::proposal::{BlockProposal, ProposalAction, ProposalEvent, ProposalStage};
use validator_services::store::{Error as StoreError, PublicKeyBytes};

fn pk(b: u8) -> PublicKeyBytes {
    PublicKeyBytes { bytes: [b; 48] }
}

fn summary() -> BlockSummary {
    BlockSummary { slot: 64, proposer_index: 7, num_deposits: 2, num_attestations: 5 }
}

fn failures(items: Vec<(&str, FallbackError<BlockError>)>) -> Errors<BlockError> {
    Errors { failures: items.into_iter().map(|(n, e)| (n.to_string(), e)).collect() }
}

#[test]
fn block_at_genesis_is_not_produced() {
    let n = BlockServiceNotification { slot: 0, block_proposers: vec![pk(1)] };
    assert_eq!(plan_update(Some(0), 0, &n), Ok(UpdatePlan::Genesis));
}

#[test]
fn expired_notification_is_skipped() {
    let n = BlockServiceNotification { slot: 50, block_proposers: vec![pk(1)] };
    assert_eq!(
        plan_update(Some(51), 0, &n),
        Ok(UpdatePlan::Expired { current_slot: 51, notification_slot: 50 })
    );
}

#[test]
fn unreadable_clock_is_an_error() {
    let n = BlockServiceNotification { slot: 50, block_proposers: vec![] };
    assert_eq!(plan_update(None, 0, &n), Err(()));
}

#[test]
fn current_notification_is_produced() {
    let n = BlockServiceNotification { slot: 9, block_proposers: vec![pk(1), pk(2)] };
    assert_eq!(plan_update(Some(9), 0, &n), Ok(UpdatePlan::Produce { slot: 9 }));
}

#[test]
fn builder_boost_of_one_hundred_is_not_sent() {
    assert_eq!(get_builder_boost_factor(Some(100), None), None);
    assert_eq!(get_builder_boost_factor(None, Some(100)), None);
    assert_eq!(get_builder_boost_factor(Some(100), Some(70)), None);
    assert_eq!(get_builder_boost_factor(Some(50), Some(100)), Some(50));
    assert_eq!(get_builder_boost_factor(None, Some(0)), Some(0));
    assert_eq!(get_builder_boost_factor(None, Some(u64::MAX)), Some(u64::MAX));
    assert_eq!(get_builder_boost_factor(None, None), None);
}

#[test]
fn graffiti_precedence() {
    let file = Some(Graffiti { bytes: [1; 32] });
    let store = Some(Graffiti { bytes: [2; 32] });
    let default = Some(Graffiti { bytes: [3; 32] });
    assert_eq!(determine_graffiti(file, store, default), file);
    assert_eq!(determine_graffiti(None, store, default), store);
    assert_eq!(determine_graffiti(None, None, default), default);
    assert_eq!(determine_graffiti(None, None, None), None);
}

#[test]
fn accepted_publish_is_success() {
    let accepted = PublishError { status: Some(202), message: "accepted".to_string() };
    assert_eq!(handle_block_post_error(accepted), Ok(()));
    let other_2xx = PublishError { status: Some(204), message: String::new() };
    assert_eq!(handle_block_post_error(other_2xx), Ok(()));
}

#[test]
fn failed_publish_is_irrecoverable() {
    let failed = PublishError { status: Some(500), message: "boom".to_string() };
    assert_eq!(
        handle_block_post_error(failed),
        Err(BlockError::Irrecoverable(
            "Error from beacon node when publishing block: boom".to_string()
        ))
    );
    let no_status = PublishError { status: None, message: "timeout".to_string() };
    assert!(matches!(handle_block_post_error(no_status), Err(BlockError::Irrecoverable(_))));
    let redirect = PublishError { status: Some(302), message: String::new() };
    assert!(matches!(handle_block_post_error(redirect), Err(BlockError::Irrecoverable(_))));
}

#[test]
fn pool_errors_keep_the_worst_class() {
    let recoverable = failures(vec![
        ("a", FallbackError::Unavailable("offline".to_string())),
        ("b", FallbackError::RequestFailed(BlockError::Recoverable("x".to_string()))),
    ]);
    assert_eq!(
        BlockError::from_errors(recoverable),
        BlockError::Recoverable("a => unavailable: offline; b => x; ".to_string())
    );
    let irrecoverable = failures(vec![
        ("a", FallbackError::RequestFailed(BlockError::Recoverable("x".to_string()))),
        ("b", FallbackError::RequestFailed(BlockError::Irrecoverable("y".to_string()))),
    ]);
    assert_eq!(
        BlockError::from_errors(irrecoverable),
        BlockError::Irrecoverable("a => x; b => y; ".to_string())
    );
    assert_eq!(
        BlockError::from_errors(failures(vec![])),
        BlockError::Recoverable(String::new())
    );
}

#[test]
fn reorged_block_is_rejected() {
    let block = UnsignedBlock::Full(summary());
    assert_eq!(check_block_proposer(Some(7), block), Ok(block));
    assert!(matches!(check_block_proposer(Some(8), block), Err(BlockError::Recoverable(_))));
    assert!(matches!(check_block_proposer(None, block), Err(BlockError::Recoverable(_))));
    assert_eq!(UnsignedBlock::Blinded(summary()).proposer_index(), 7);
}

#[test]
fn signed_block_getters() {
    let full = SignedBlock::Full(summary());
    let blinded = SignedBlock::Blinded(summary());
    assert_eq!(full.block_type(), BlockType::Full);
    assert_eq!(blinded.block_type(), BlockType::Blinded);
    assert_eq!(full.slot(), 64);
    assert_eq!(blinded.num_deposits(), 2);
    assert_eq!(full.num_attestations(), 5);
}

#[test]
fn proposers_first_stops_on_proposer_success() {
    let f = ProposerFallback { has_proposer_nodes: true };
    assert_eq!(f.request_proposers_first::<BlockError>(None), Route::Query(PoolKind::Proposer));
    assert_eq!(
        f.request_proposers_first::<BlockError>(Some((PoolKind::Proposer, Ok(())))),
        Route::Done(Ok(()))
    );
    assert_eq!(
        f.request_proposers_first::<BlockError>(Some((PoolKind::Proposer, Err(failures(vec![]))))),
        Route::Query(PoolKind::General)
    );
    let none = ProposerFallback { has_proposer_nodes: false };
    assert_eq!(none.request_proposers_first::<BlockError>(None), Route::Query(PoolKind::General));
}

#[test]
fn proposers_last_stops_on_general_success() {
    let f = ProposerFallback { has_proposer_nodes: true };
    assert_eq!(f.request_proposers_last::<u8, BlockError>(None), Route::Query(PoolKind::General));
    assert_eq!(
        f.request_proposers_last::<u8, BlockError>(Some((PoolKind::General, Ok(4)))),
        Route::Done(Ok(4))
    );
    assert_eq!(
        f.request_proposers_last::<u8, BlockError>(Some((PoolKind::General, Err(failures(vec![]))))),
        Route::Query(PoolKind::Proposer)
    );
    let none = ProposerFallback { has_proposer_nodes: false };
    assert_eq!(
        none.request_proposers_last::<u8, BlockError>(Some((PoolKind::General, Err(failures(vec![]))))),
        Route::Done(Err(failures(vec![])))
    );
}

#[test]
fn full_proposal_with_proposer_nodes() {
    let (mut p, a) = BlockProposal::start(64, 32, Some(7), ProposerFallback { has_proposer_nodes: true });
    assert_eq!(a, ProposalAction::RequestRandao { epoch: 2 });
    assert_eq!(p.step::<()>(ProposalEvent::RandaoRevealed(Ok(()))), ProposalAction::FetchBlock(PoolKind::General));
    let fetch_failed = failures(vec![(
        "bn",
        FallbackError::RequestFailed(BlockError::Recoverable("down".to_string())),
    )]);
    assert_eq!(
        p.step::<()>(ProposalEvent::BlockFetched(Err(fetch_failed))),
        ProposalAction::FetchBlock(PoolKind::Proposer)
    );
    assert_eq!(
        p.step::<()>(ProposalEvent::BlockFetched(Ok(UnsignedBlock::Blinded(summary())))),
        ProposalAction::SignBlock { slot: 64, block: UnsignedBlock::Blinded(summary()) }
    );
    assert_eq!(p.step::<()>(ProposalEvent::BlockSigned(Ok(()))), ProposalAction::PublishBlock(PoolKind::Proposer));
    assert_eq!(p.step::<()>(ProposalEvent::Published(Ok(()))), ProposalAction::Finish(Ok(())));
    assert_eq!(p.stage, ProposalStage::Done);
}

#[test]
fn block_is_signed_once() {
    let (mut p, _) = BlockProposal::start(10, 32, Some(7), ProposerFallback { has_proposer_nodes: false });
    p.step::<()>(ProposalEvent::RandaoRevealed(Ok(())));
    assert_eq!(
        p.step::<()>(ProposalEvent::BlockFetched(Ok(UnsignedBlock::Full(summary())))),
        ProposalAction::SignBlock { slot: 10, block: UnsignedBlock::Full(summary()) }
    );
    assert_eq!(p.step::<()>(ProposalEvent::BlockFetched(Ok(UnsignedBlock::Full(summary())))), ProposalAction::Ignore);
}

#[test]
fn irrecoverable_publish_is_not_retried() {
    let (mut p, _) = BlockProposal::start(10, 32, Some(7), ProposerFallback { has_proposer_nodes: false });
    p.step::<()>(ProposalEvent::RandaoRevealed(Ok(())));
    p.step::<()>(ProposalEvent::BlockFetched(Ok(UnsignedBlock::Full(summary()))));
    assert_eq!(p.step::<()>(ProposalEvent::BlockSigned(Ok(()))), ProposalAction::PublishBlock(PoolKind::General));
    let publish_failed = failures(vec![(
        "bn",
        FallbackError::RequestFailed(BlockError::Irrecoverable("500".to_string())),
    )]);
    assert_eq!(
        p.step::<()>(ProposalEvent::Published(Err(publish_failed))),
        ProposalAction::Finish(Err(BlockError::Irrecoverable("bn => 500; ".to_string())))
    );
    assert_eq!(p.step::<()>(ProposalEvent::Published(Ok(()))), ProposalAction::Ignore);
    assert_eq!(p.step::<()>(ProposalEvent::BlockFetched(Ok(UnsignedBlock::Full(summary())))), ProposalAction::Ignore);
    assert_eq!(p.step::<()>(ProposalEvent::RandaoRevealed(Ok(()))), ProposalAction::Ignore);
}

#[test]
fn store_refusals_end_the_proposal() {
    let (mut p, _) = BlockProposal::start(10, 32, Some(7), ProposerFallback { has_proposer_nodes: false });
    assert_eq!(
        p.step::<()>(ProposalEvent::RandaoRevealed(Err(StoreError::UnknownPubkey(pk(1))))),
        ProposalAction::Finish(Ok(()))
    );
    let (mut q, _) = BlockProposal::start(10, 32, Some(7), ProposerFallback { has_proposer_nodes: false });
    q.step::<()>(ProposalEvent::RandaoRevealed(Ok(())));
    q.step::<()>(ProposalEvent::BlockFetched(Ok(UnsignedBlock::Full(summary()))));
    assert_eq!(
        q.step::<()>(ProposalEvent::BlockSigned(Err(StoreError::Slashable("double vote".to_string())))),
        ProposalAction::Finish(Err(BlockError::Recoverable("Unable to sign block".to_string())))
    );
    let (mut r, _) = BlockProposal::start(10, 32, Some(7), ProposerFallback { has_proposer_nodes: false });
    assert_eq!(
        r.step::<()>(ProposalEvent::RandaoRevealed(Err(StoreError::DoppelgangerProtected(pk(2))))),
        ProposalAction::Finish(Err(BlockError::Recoverable(
            "Unable to produce randao reveal signature".to_string()
        )))
    );
}

#[test]
fn fetch_failure_without_proposer_nodes_is_recoverable() {
    let (mut p, _) = BlockProposal::start(10, 32, Some(7), ProposerFallback { has_proposer_nodes: false });
    p.step::<()>(ProposalEvent::RandaoRevealed(Ok(())));
    let failed = failures(vec![("bn", FallbackError::Unavailable("offline".to_string()))]);
    assert_eq!(
        p.step::<()>(ProposalEvent::BlockFetched(Err(failed))),
        ProposalAction::Finish(Err(BlockError::Recoverable("bn => unavailable: offline; ".to_string())))
    );
}

#[test]
fn full_queue_drops_the_oldest_notification() {
    let mut q = NotificationQueue::new(2);
    q.push(BlockServiceNotification { slot: 1, block_proposers: vec![] });
    q.push(BlockServiceNotification { slot: 2, block_proposers: vec![] });
    assert_eq!(q.dropped, 0);
    q.push(BlockServiceNotification { slot: 3, block_proposers: vec![pk(1)] });
    assert_eq!(q.dropped, 1);
    assert_eq!(q.pop().map(|n| n.slot), Some(2));
    assert_eq!(q.pop().map(|n| n.slot), Some(3));
    assert_eq!(q.pop(), None);
}

#[test]
fn publish_failure_after_signing_is_irrecoverable_even_if_all_unavailable() {
    let (mut p, _) = BlockProposal::start(10, 32, Some(7), ProposerFallback { has_proposer_nodes: true });
    p.step::<()>(ProposalEvent::RandaoRevealed(Ok(())));
    p.step::<()>(ProposalEvent::BlockFetched(Ok(UnsignedBlock::Full(summary()))));
    assert_eq!(p.step::<()>(ProposalEvent::BlockSigned(Ok(()))), ProposalAction::PublishBlock(PoolKind::Proposer));
    let down = || failures(vec![("bn", FallbackError::Unavailable("offline".to_string()))]);
    assert_eq!(
        p.step::<()>(ProposalEvent::Published(Err(down()))),
        ProposalAction::PublishBlock(PoolKind::General)
    );
    assert_eq!(
        p.step::<()>(ProposalEvent::Published(Err(down()))),
        ProposalAction::Finish(Err(BlockError::Irrecoverable("bn => unavailable: offline; ".to_string())))
    );
}

#[test]
fn fetch_failure_before_signing_is_recoverable() {
    let (mut p, _) = BlockProposal::start(10, 32, Some(7), ProposerFallback { has_proposer_nodes: false });
    p.step::<()>(ProposalEvent::RandaoRevealed(Ok(())));
    let failed = failures(vec![("bn", FallbackError::RequestFailed(BlockError::Irrecoverable("odd".to_string())))]);
    assert_eq!(
        p.step::<()>(ProposalEvent::BlockFetched(Err(failed))),
        ProposalAction::Finish(Err(BlockError::Recoverable("bn => odd; ".to_string())))
    );
}

#[test]
fn reorged_block_ends_the_proposal_before_signing() {
    let (mut p, _) = BlockProposal::start(10, 32, Some(8), ProposerFallback { has_proposer_nodes: false });
    p.step::<()>(ProposalEvent::RandaoRevealed(Ok(())));
    assert_eq!(
        p.step::<()>(ProposalEvent::BlockFetched(Ok(UnsignedBlock::Full(summary())))),
        ProposalAction::Finish(Err(BlockError::Recoverable(
            "Proposer index does not match block proposer. Beacon chain re-orged".to_string()
        )))
    );
    assert_eq!(p.step::<()>(ProposalEvent::BlockSigned(Ok(()))), ProposalAction::Ignore);
}
