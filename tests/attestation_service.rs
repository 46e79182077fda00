use std::sync::{Arc, RwLock};
use tokio::time::{sleep_until, Duration, Instant};
use validator_services::attestation::{
    duties_to_sign, Attestation, AttestationData, AttestationError, AttesterDuty, Checkpoint,
    DutyAndProof, SignatureBytes, SingleAttestation,
};
use validator_services::attestation_service::{
    aggregate_production_delay, aggregate_publication, aggregate_query, aggregators,
    attestation_delay, attestation_publication, collect_successes, group_by_committee,
    has_aggregator, AggregatePublication, AttestationPublication, CommitteeRound, RoundAction,
    RoundEvent, RoundStage, SignedAggregateAndProof,
};
use validator_services::pruning::PruningSchedule;
use validator_services::store::{Error as StoreError, PublicKeyBytes};
use validator_services::tree_hash::{Hash256, TreeHash};

fn pk(b: u8) -> PublicKeyBytes {
    PublicKeyBytes { bytes: [b; 48] }
}

fn duty(key: u8, validator_index: u64, slot: u64, committee_index: u64, vci: u64) -> DutyAndProof {
    DutyAndProof {
        duty: AttesterDuty {
            pubkey: pk(key),
            validator_index,
            slot,
            committee_index,
            committee_length: 4,
            committees_at_slot: 8,
            validator_committee_index: vci,
        },
        selection_proof: None,
    }
}

fn data(slot: u64, index: u64) -> AttestationData {
    AttestationData {
        slot,
        index,
        beacon_block_root: Hash256 { bytes: [1; 32] },
        source: Checkpoint { epoch: 1, root: Hash256 { bytes: [2; 32] } },
        target: Checkpoint { epoch: 2, root: Hash256 { bytes: [3; 32] } },
    }
}

/// Builds and signs (bit only) the attestation of each duty, as the validator store would.
fn sign_all(duties: &[AttesterDuty], d: &AttestationData, electra: bool) -> Vec<(Attestation, u64)> {
    duties
        .iter()
        .map(|duty| {
            let mut a = Attestation::empty_for_signing(
                duty.committee_index,
                duty.committee_length,
                d.slot,
                d.beacon_block_root,
                d.source,
                d.target,
                electra,
            )
            .unwrap();
            a.set_signer_bit(duty.validator_committee_index as usize).unwrap();
            (a, duty.validator_index)
        })
        .collect()
}

#[test]
fn empty_duties_make_no_requests() {
    assert!(group_by_committee(&vec![]).is_empty());
    let (round, action) = CommitteeRound::start(100, 3, &vec![]);
    assert_eq!(action, RoundAction::Finish);
    assert_eq!(round.stage, RoundStage::Done);
    // Pruning is still scheduled two thirds into the slot.
    assert_eq!(aggregate_production_delay(12_000, 12_000), 8_000);
}

#[test]
fn two_validators_same_committee() {
    let duties = vec![duty(1, 10, 100, 3, 0), duty(2, 11, 100, 3, 1)];
    let groups = group_by_committee(&duties);
    assert_eq!(groups.len(), 1);
    assert_eq!(groups[0].committee_index, 3);
    assert_eq!(groups[0].duties, duties);

    let (mut round, action) = CommitteeRound::start(100, 3, &groups[0].duties);
    assert_eq!(action, RoundAction::FetchData);
    assert_eq!(round.step(RoundEvent::DataFetched(true)), RoundAction::SignAttestations);

    let d = data(100, 3);
    let to_sign = duties_to_sign(&groups[0].duties, &d, false);
    assert_eq!(to_sign.len(), 2);
    let signed = sign_all(&to_sign, &d, false);
    assert_eq!(round.step(RoundEvent::AttestationsSigned(signed.len())), RoundAction::PublishAttestations);
    match attestation_publication(signed, false) {
        Some(AttestationPublication::V1(atts)) => {
            assert_eq!(atts.len(), 2);
            assert_eq!(atts[0].aggregation_bits, vec![true, false, false, false]);
            assert_eq!(atts[1].aggregation_bits, vec![false, true, false, false]);
            assert_eq!(atts[0].data, d);
            assert_eq!(atts[0].committee_bits, None);
        }
        other => panic!("unexpected publication {:?}", other),
    }
    assert_eq!(round.step(RoundEvent::AttestationsPublished), RoundAction::Finish);
}

#[test]
fn electra_publishes_single_attestations() {
    let duties = vec![duty(1, 10, 200, 3, 0), duty(2, 11, 200, 3, 1)];
    let d = data(200, 0);
    let to_sign = duties_to_sign(&duties, &d, true);
    assert_eq!(to_sign.len(), 2);
    let signed = sign_all(&to_sign, &d, true);
    assert_eq!(signed[0].0.data.index, 0);
    match attestation_publication(signed, true) {
        Some(AttestationPublication::V2(singles)) => {
            assert_eq!(singles.len(), 2);
            assert_eq!(singles[0].attester_index, 10);
            assert_eq!(singles[1].attester_index, 11);
            assert_eq!(singles[0].committee_index, 3);
            assert_eq!(singles[1].data, d);
        }
        other => panic!("unexpected publication {:?}", other),
    }
}

#[test]
fn slashable_attestation_is_omitted() {
    let d = data(100, 3);
    let duties = vec![duty(1, 10, 100, 3, 0), duty(2, 11, 100, 3, 1)];
    let to_sign = duties_to_sign(&duties, &d, false);
    let mut signed = sign_all(&to_sign, &d, false);
    let second = signed.pop().unwrap();
    let results: Vec<Result<(Attestation, u64), StoreError<()>>> = vec![
        Err(StoreError::Slashable("surround vote".to_string())),
        Ok(second.clone()),
        Err(StoreError::UnknownPubkey(pk(9))),
    ];
    let kept = collect_successes(results);
    assert_eq!(kept, vec![second]);
    match attestation_publication(kept, false) {
        Some(AttestationPublication::V1(atts)) => assert_eq!(atts.len(), 1),
        other => panic!("unexpected publication {:?}", other),
    }
    assert_eq!(attestation_publication(vec![], false), None);
}

#[test]
fn mismatched_duties_are_dropped() {
    let d = data(100, 3);
    let duties = vec![duty(1, 10, 100, 3, 0), duty(2, 11, 99, 3, 1), duty(3, 12, 100, 4, 2)];
    let to_sign = duties_to_sign(&duties, &d, false);
    assert_eq!(to_sign, vec![duties[0].duty]);
    // From Electra on the committee is not in the data: only the slot has to fit.
    let e = data(100, 0);
    assert_eq!(duties_to_sign(&duties, &e, true), vec![duties[0].duty, duties[2].duty]);
}

#[test]
fn grouping_keeps_order_within_committees() {
    let duties = vec![duty(1, 1, 5, 2, 0), duty(2, 2, 5, 7, 0), duty(3, 3, 5, 2, 1)];
    let groups = group_by_committee(&duties);
    assert_eq!(groups.len(), 2);
    assert_eq!(groups[0].committee_index, 2);
    assert_eq!(groups[0].duties, vec![duties[0], duties[2]]);
    assert_eq!(groups[1].committee_index, 7);
    assert_eq!(groups[1].duties, vec![duties[1]]);
    let total: usize = groups.iter().map(|g| g.duties.len()).sum();
    assert_eq!(total, duties.len());
}

#[test]
fn attestation_construction_errors() {
    let d = data(1, 0);
    assert_eq!(
        Attestation::empty_for_signing(0, 2049, 1, d.beacon_block_root, d.source, d.target, false),
        Err(AttestationError::InvalidCommitteeLength)
    );
    assert_eq!(
        Attestation::empty_for_signing(64, 4, 1, d.beacon_block_root, d.source, d.target, true),
        Err(AttestationError::InvalidCommitteeIndex)
    );
    let mut a =
        Attestation::empty_for_signing(5, 2, 1, d.beacon_block_root, d.source, d.target, true).unwrap();
    assert_eq!(a.signature.bytes[0], 0xc0);
    assert_eq!(a.set_signer_bit(2), Err(AttestationError::InvalidBitfieldIndex));
    assert_eq!(a.set_signer_bit(1), Ok(()));
    assert_eq!(a.set_signer_bit(1), Err(AttestationError::AlreadySigned(1)));
    let single = a.to_single_attestation_with_attester_index(42).unwrap();
    assert_eq!(
        single,
        SingleAttestation { committee_index: 5, attester_index: 42, data: a.data, signature: a.signature }
    );
    let base = Attestation::empty_for_signing(5, 2, 1, d.beacon_block_root, d.source, d.target, false).unwrap();
    assert_eq!(
        base.to_single_attestation_with_attester_index(1),
        Err(AttestationError::IncorrectStateVariant)
    );
}

#[test]
fn aggregation_phase() {
    let mut aggregator = duty(1, 10, 100, 3, 0);
    aggregator.selection_proof = Some(SignatureBytes { bytes: [7; 96] });
    let duties = vec![aggregator, duty(2, 11, 100, 3, 1)];
    assert!(has_aggregator(&duties));
    assert!(!has_aggregator(&vec![duties[1]]));
    let d = data(100, 3);
    let requests = aggregators(&duties, &d, false);
    assert_eq!(requests.len(), 1);
    assert_eq!(requests[0].aggregator_index, 10);
    assert_eq!(requests[0].selection_proof.bytes, [7; 96]);

    let q = aggregate_query(&d, 3, false);
    assert_eq!(q.slot, 100);
    assert_eq!(q.committee_index, None);
    assert_eq!(q.attestation_data_root, d.tree_hash_root());
    assert_eq!(aggregate_query(&d, 3, true).committee_index, Some(3));

    let (mut round, _) = CommitteeRound::start(100, 3, &duties);
    round.step(RoundEvent::DataFetched(true));
    round.step(RoundEvent::AttestationsSigned(2));
    assert_eq!(round.step(RoundEvent::AttestationsPublished), RoundAction::SleepUntilAggregation);
    assert_eq!(round.step(RoundEvent::AggregationTime), RoundAction::FetchAggregate);
    assert_eq!(round.step(RoundEvent::AggregateFetched(true)), RoundAction::SignAggregates);
    assert_eq!(round.step(RoundEvent::AggregatesSigned(1)), RoundAction::PublishAggregates);
    assert_eq!(round.step(RoundEvent::AggregatesPublished), RoundAction::Finish);
    assert_eq!(round.step(RoundEvent::DataFetched(true)), RoundAction::Ignore);

    let agg = Attestation::empty_for_signing(3, 4, 100, d.beacon_block_root, d.source, d.target, false).unwrap();
    let signed = SignedAggregateAndProof {
        aggregator_index: 10,
        aggregate: agg,
        selection_proof: SignatureBytes { bytes: [7; 96] },
        signature: SignatureBytes { bytes: [8; 96] },
    };
    assert_eq!(
        aggregate_publication(vec![signed.clone()], true),
        Some(AggregatePublication::V2(vec![signed.clone()]))
    );
    assert_eq!(aggregate_publication(vec![signed.clone()], false), Some(AggregatePublication::V1(vec![signed])));
    assert_eq!(aggregate_publication(vec![], false), None);
}

#[test]
fn failed_download_ends_the_round() {
    let duties = vec![duty(1, 10, 100, 3, 0)];
    let (mut round, _) = CommitteeRound::start(100, 3, &duties);
    assert_eq!(round.step(RoundEvent::DataFetched(false)), RoundAction::Finish);
    let (mut other, _) = CommitteeRound::start(100, 3, &duties);
    other.step(RoundEvent::DataFetched(true));
    assert_eq!(other.step(RoundEvent::AttestationsSigned(0)), RoundAction::Finish);
}

#[test]
fn slot_timing() {
    assert_eq!(aggregate_production_delay(2_000, 12_000), 0);
    assert_eq!(aggregate_production_delay(4_000, 12_000), 0);
    assert_eq!(aggregate_production_delay(10_000, 12_000), 6_000);
    assert_eq!(attestation_delay(3_000, 12_000), 7_000);
}

#[test]
fn pruning_is_rate_limited() {
    let mut s = PruningSchedule::new(0, 4);
    assert!(!s.prune_due(0));
    assert!(!s.prune_due(1));
    assert!(!s.prune_due(3));
    assert!(s.prune_due(4));
    assert!(!s.prune_due(4));
    assert!(!s.prune_due(7));
    assert!(s.prune_due(9));
    assert_eq!(s.last_prune_epoch, 9);
}

#[test]
fn delay_triggers_when_in_the_past() {
    let runtime = tokio::runtime::Builder::new_current_thread().enable_time().build().unwrap();
    runtime.block_on(async {
        let in_the_past = Instant::now() - Duration::from_secs(2);
        let state_1 = Arc::new(RwLock::new(in_the_past));
        let state_2 = state_1.clone();

        sleep_until(in_the_past).await;
        *state_1.write().unwrap() = Instant::now();

        assert!(*state_2.read().unwrap() > in_the_past, "state should have been updated");
    });
}
