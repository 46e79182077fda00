use vstd::prelude::*;

use crate::attestation::{
    duties_to_sign_spec, duty_matches, Attestation, AttestationData, AttesterDuty, DutyAndProof,
    SignatureBytes, SingleAttestation,
};
use crate::store::Error as StoreError;
use crate::tree_hash::{Hash256, TreeHash};
use crate::store::PublicKeyBytes;

verus! {

/// The duties of one committee at a slot.
#[derive(Debug, Clone, PartialEq, Eq)]
pub struct CommitteeDuties {
    pub committee_index: u64,
    pub duties: Vec<DutyAndProof>,
}

/// The duties of `duties` that are for committee `c`, in order.
pub open spec fn duties_of_committee(duties: Seq<DutyAndProof>, c: u64) -> Seq<DutyAndProof>
    decreases duties.len(),
{
    if duties.len() == 0 {
        seq![]
    } else {
        let rest = duties_of_committee(duties.drop_last(), c);
        if duties.last().duty.committee_index == c { rest.push(duties.last()) } else { rest }
    }
}

proof fn lemma_unnamed_committee_empty(duties: Seq<DutyAndProof>, c: u64)
    requires
        !committees_named(duties).contains(c),
    ensures
        duties_of_committee(duties, c) == Seq::<DutyAndProof>::empty(),
    decreases duties.len(),
{
    if duties.len() > 0 {
        let rest = committees_named(duties.drop_last());
        if rest.contains(c) {
            assert(committees_named(duties) == rest || committees_named(duties) == rest.push(duties.last().duty.committee_index));
            let j = choose|j: int| 0 <= j < rest.len() && rest[j] == c;
            assert(committees_named(duties)[j] == c);
        }
        if duties.last().duty.committee_index == c {
            if !rest.contains(c) {
                assert(committees_named(duties).last() == c);
            }
        }
        lemma_unnamed_committee_empty(duties.drop_last(), c);
    }
}

/// The committees that `duties` name, each once, in the order of their first duty.
pub open spec fn committees_named(duties: Seq<DutyAndProof>) -> Seq<u64>
    decreases duties.len(),
{
    if duties.len() == 0 {
        seq![]
    } else {
        let rest = committees_named(duties.drop_last());
        let c = duties.last().duty.committee_index;
        if rest.contains(c) { rest } else { rest.push(c) }
    }
}

/// Whether `groups` holds, for each committee that `duties` name (in the order of their first
/// duty), that committee's duties in their order.
pub open spec fn grouped(groups: Seq<CommitteeDuties>, duties: Seq<DutyAndProof>) -> bool {
    let cs = committees_named(duties);
    &&& groups.len() == cs.len()
    &&& forall|k: int| 0 <= k < groups.len() ==> {
        &&& (#[trigger] groups[k]).committee_index == cs[k]
        &&& groups[k].duties@ == duties_of_committee(duties, cs[k])
    }
}

/// The committees of a slot's duties are named once each, and every duty's committee is among
/// them: with one group per named committee, each committee's data is downloaded once.
pub proof fn lemma_committees_named_unique(duties: Seq<DutyAndProof>)
    ensures
        committees_named(duties).no_duplicates(),
        forall|c: u64| committees_named(duties).contains(c) <==> exists|i: int|
            0 <= i < duties.len() && (#[trigger] duties[i]).duty.committee_index == c,
    decreases duties.len(),
{
    if duties.len() > 0 {
        let init = duties.drop_last();
        lemma_committees_named_unique(init);
        let c = duties.last().duty.committee_index;
        assert forall|x: u64| committees_named(duties).contains(x) implies exists|i: int|
            0 <= i < duties.len() && (#[trigger] duties[i]).duty.committee_index == x by {
            if committees_named(init).contains(x) {
                let i = choose|i: int| 0 <= i < init.len() && (#[trigger] init[i]).duty.committee_index == x;
                assert(duties[i] == init[i]);
            } else {
                assert(duties[duties.len() - 1].duty.committee_index == x);
            }
        }
        assert forall|x: u64| (exists|i: int| 0 <= i < duties.len() && (#[trigger] duties[i]).duty.committee_index == x)
            implies committees_named(duties).contains(x) by {
            let i = choose|i: int| 0 <= i < duties.len() && (#[trigger] duties[i]).duty.committee_index == x;
            if i < duties.len() - 1 {
                assert(init[i] == duties[i]);
                assert(committees_named(init).contains(x));
                let j = choose|j: int| 0 <= j < committees_named(init).len() && committees_named(init)[j] == x;
                if committees_named(init).contains(c) {
                    assert(committees_named(duties) == committees_named(init));
                } else {
                    assert(committees_named(duties) == committees_named(init).push(c));
                    assert(committees_named(duties)[j] == x);
                }
            } else {
                assert(duties.last() == duties[i]);
                assert(c == x);
                if committees_named(init).contains(x) {
                    assert(committees_named(duties) == committees_named(init));
                } else {
                    assert(committees_named(duties) == committees_named(init).push(x));
                    assert(committees_named(duties).last() == x);
                }
            }
        }
    }
}

/// How many duties the groups hold together.
pub open spec fn total_len(groups: Seq<CommitteeDuties>) -> nat
    decreases groups.len(),
{
    if groups.len() == 0 {
        0
    } else {
        total_len(groups.drop_last()) + groups.last().duties@.len()
    }
}

proof fn lemma_total_len_update(groups: Seq<CommitteeDuties>, k: int, g: CommitteeDuties)
    requires
        0 <= k < groups.len(),
    ensures
        total_len(groups.update(k, g)) + groups[k].duties@.len() == total_len(groups) + g.duties@.len(),
    decreases groups.len(),
{
    let u = groups.update(k, g);
    if k < groups.len() - 1 {
        assert(u.drop_last() =~= groups.drop_last().update(k, g));
        lemma_total_len_update(groups.drop_last(), k, g);
    } else {
        assert(u.drop_last() =~= groups.drop_last());
    }
}

/// Sorts the duties of a slot by committee: one group per committee, so that each
/// committee's data is downloaded once and shared by all its validators. No group is empty,
/// and together the groups hold every duty once.
pub fn group_by_committee(duties: &Vec<DutyAndProof>) -> (r: Vec<CommitteeDuties>)
    ensures
        grouped(r@, duties@),
        forall|k: int| 0 <= k < r@.len() ==> (#[trigger] r@[k]).duties@.len() > 0,
        total_len(r@) == duties@.len(),
{
    let mut groups: Vec<CommitteeDuties> = Vec::new();
    let mut i: usize = 0;
    while i < duties.len()
        invariant
            i <= duties@.len(),
            grouped(groups@, duties@.take(i as int)),
            forall|k: int| 0 <= k < groups@.len() ==> (#[trigger] groups@[k]).duties@.len() > 0,
            total_len(groups@) == i,
        decreases duties@.len() - i,
    {
        let ghost prefix = duties@.take(i as int);
        let ghost next = duties@.take(i as int + 1);
        proof {
            assert(next.drop_last() =~= prefix);
            lemma_committees_named_unique(prefix);
        }
        let d = duties[i];
        let c = d.duty.committee_index;
        let mut k: usize = 0;
        let mut found = false;
        while !found && k < groups.len()
            invariant
                k <= groups@.len(),
                grouped(groups@, prefix),
                found ==> k < groups@.len() && groups@[k as int].committee_index == c,
                forall|j: int| 0 <= j < k ==> (#[trigger] groups@[j]).committee_index != c,
            decreases groups@.len() - k + (if found { 0int } else { 1int }),
        {
            if groups[k].committee_index == c {
                found = true;
            } else {
                k = k + 1;
            }
        }
        proof {
            assert(next.last() == d);
            assert forall|x: u64| x != c implies duties_of_committee(next, x) == duties_of_committee(prefix, x) by {}
            assert(duties_of_committee(next, c) == duties_of_committee(prefix, c).push(d));
        }
        if found {
            let ghost old_groups = groups@;
            proof {
                assert(committees_named(prefix)[k as int] == c);
                assert(committees_named(prefix).contains(c));
                assert(committees_named(next) == committees_named(prefix));
            }
            let mut g = groups.remove(k);
            g.duties.push(d);
            let ghost g_new = g;
            groups.insert(k, g);
            proof {
                assert(groups@ =~= old_groups.update(k as int, g_new));
                lemma_total_len_update(old_groups, k as int, g_new);
                assert forall|j: int| 0 <= j < groups@.len() implies (#[trigger] groups@[j]).duties@.len() > 0 by {
                    if j != k {
                        assert(groups@[j] == old_groups[j]);
                    }
                }
                assert forall|j: int| 0 <= j < groups@.len() implies {
                    &&& (#[trigger] groups@[j]).committee_index == committees_named(next)[j]
                    &&& groups@[j].duties@ == duties_of_committee(next, committees_named(next)[j])
                } by {
                    if j != k {
                        assert(groups@[j] == old_groups[j]);
                        assert(committees_named(prefix).no_duplicates());
                        assert(committees_named(prefix)[j] != c);
                    }
                }
            }
        } else {
            proof {
                assert(!committees_named(prefix).contains(c)) by {
                    if committees_named(prefix).contains(c) {
                        let j = choose|j: int| 0 <= j < committees_named(prefix).len() && committees_named(prefix)[j] == c;
                        assert(groups@[j].committee_index == c);
                    }
                }
                assert(committees_named(next) == committees_named(prefix).push(c));
                lemma_unnamed_committee_empty(prefix, c);
            }
            let mut v: Vec<DutyAndProof> = Vec::new();
            v.push(d);
            let ghost old_groups = groups@;
            groups.push(CommitteeDuties { committee_index: c, duties: v });
            proof {
                assert(v@ =~= seq![].push(d));
                assert(groups@.drop_last() =~= old_groups);
                assert forall|j: int| 0 <= j < groups@.len() implies (#[trigger] groups@[j]).duties@.len() > 0 by {
                    if j < old_groups.len() {
                        assert(groups@[j] == old_groups[j]);
                    }
                }
                assert forall|j: int| 0 <= j < groups@.len() implies {
                    &&& (#[trigger] groups@[j]).committee_index == committees_named(next)[j]
                    &&& groups@[j].duties@ == duties_of_committee(next, committees_named(next)[j])
                } by {
                    if j < old_groups.len() {
                        assert(groups@[j] == old_groups[j]);
                        assert(committees_named(prefix).contains(committees_named(prefix)[j]));
                    }
                }
            }
        }
        i = i + 1;
    }
    assert(duties@.take(i as int) =~= duties@);
    groups
}


/// How many of the duties are `pk`'s.
pub open spec fn count_for_key(duties: Seq<AttesterDuty>, pk: PublicKeyBytes) -> nat
    decreases duties.len(),
{
    if duties.len() == 0 {
        0
    } else {
        count_for_key(duties.drop_last(), pk) + if duties.last().pubkey == pk { 1nat } else { 0nat }
    }
}

/// How many of the duties are `pk`'s in committee `c`.
pub open spec fn count_for_key_in(duties: Seq<DutyAndProof>, pk: PublicKeyBytes, c: u64) -> nat
    decreases duties.len(),
{
    if duties.len() == 0 {
        0
    } else {
        count_for_key_in(duties.drop_last(), pk, c) + if duties.last().duty.pubkey == pk
            && duties.last().duty.committee_index == c { 1nat } else { 0nat }
    }
}

proof fn lemma_signing_within_duties(duties: Seq<DutyAndProof>, data: AttestationData, electra: bool, pk: PublicKeyBytes, c: u64)
    ensures
        count_for_key(duties_to_sign_spec(duties_of_committee(duties, c), data, electra), pk)
            <= count_for_key_in(duties, pk, c),
    decreases duties.len(),
{
    if duties.len() > 0 {
        let init = duties.drop_last();
        lemma_signing_within_duties(init, data, electra, pk, c);
        let g = duties_of_committee(duties, c);
        if duties.last().duty.committee_index == c {
            assert(g.drop_last() == duties_of_committee(init, c));
            assert(g.last() == duties.last());
            let before = duties_to_sign_spec(duties_of_committee(init, c), data, electra);
            let d = duties.last().duty;
            assert(before.push(d).drop_last() == before);
            assert(before.push(d).last() == d);
        } else {
            assert(g == duties_of_committee(init, c));
        }
    }
}

/// Within one committee at one slot, a validator is asked to sign at most as many
/// attestations as it has duties there; with one duty, at most one.
pub proof fn lemma_one_attestation_per_duty(
    duties: Seq<DutyAndProof>,
    data: AttestationData,
    electra: bool,
    pk: PublicKeyBytes,
    c: u64,
)
    requires
        count_for_key_in(duties, pk, c) <= 1,
    ensures
        count_for_key(duties_to_sign_spec(duties_of_committee(duties, c), data, electra), pk) <= 1,
{
    lemma_signing_within_duties(duties, data, electra, pk, c);
}

/// Whether the fork at `slot` is Electra or later, given the epoch Electra starts at (if it is
/// scheduled).
pub fn electra_enabled(slot: u64, slots_per_epoch: u64, electra_fork_epoch: Option<u64>) -> (r: bool)
    requires
        slots_per_epoch > 0,
    ensures
        r == (electra_fork_epoch is Some && slot / slots_per_epoch >= electra_fork_epoch->Some_0),
{
    match electra_fork_epoch {
        Some(epoch) => slot / slots_per_epoch >= epoch,
        None => false,
    }
}

/// How long after now the aggregation phase starts: a third of a slot before the next slot
/// begins (two thirds into this one), or now if that moment has passed.
pub fn aggregate_production_delay(duration_to_next_slot: u64, slot_duration: u64) -> (r: u64)
    ensures
        r == if duration_to_next_slot >= slot_duration / 3 {
            duration_to_next_slot - slot_duration / 3
        } else {
            0
        },
{
    let third = slot_duration / 3;
    if duration_to_next_slot >= third {
        duration_to_next_slot - third
    } else {
        0
    }
}

/// How long the driver sleeps before attesting: to the next slot, and a third into it.
pub fn attestation_delay(duration_to_next_slot: u64, slot_duration: u64) -> (r: u64)
    requires
        duration_to_next_slot + slot_duration / 3 <= u64::MAX,
    ensures
        r == duration_to_next_slot + slot_duration / 3,
{
    duration_to_next_slot + slot_duration / 3
}

/// The values of the successful results, in order.
pub open spec fn successes<A, T>(results: Seq<Result<A, StoreError<T>>>) -> Seq<A>
    decreases results.len(),
{
    if results.len() == 0 {
        seq![]
    } else {
        let rest = successes(results.drop_first());
        match results[0] {
            Ok(a) => seq![a] + rest,
            Err(_) => rest,
        }
    }
}

/// A refused signature (a slashable message among them) leaves only that validator's message
/// out: what the others signed is kept, in order, as if the refused one had never been asked.
pub proof fn lemma_refusal_left_out<A, T>(results: Seq<Result<A, StoreError<T>>>, k: int)
    requires
        0 <= k < results.len(),
        results[k] is Err,
    ensures
        successes(results) == successes(results.remove(k)),
    decreases results.len(),
{
    if k == 0 {
        assert(results.remove(0) =~= results.drop_first());
    } else {
        assert(results.remove(k).drop_first() =~= results.drop_first().remove(k - 1));
        assert(results.remove(k)[0] == results[0]);
        lemma_refusal_left_out(results.drop_first(), k - 1);
    }
}

/// Keeps what was signed, in order. A refusal drops only that validator's message: an unknown
/// key (a validator removed while running) is expected, anything else is reported, and the
/// others go on either way.
pub fn collect_successes<A, T>(results: Vec<Result<A, StoreError<T>>>) -> (r: Vec<A>)
    ensures
        r@ == successes(results@),
{
    let mut rest = results;
    let mut out: Vec<A> = Vec::new();
    while rest.len() > 0
        invariant
            out@ + successes(rest@) == successes(results@),
        decreases rest@.len(),
    {
        let ghost before = rest@;
        let first = rest.remove(0);
        proof {
            assert(before.drop_first() =~= rest@);
        }
        match first {
            Ok(a) => {
                proof {
                    assert(out@.push(a) + successes(rest@) =~= out@ + (seq![a] + successes(rest@)));
                }
                out.push(a);
            },
            Err(_) => {},
        }
    }
    assert(out@ + successes(rest@) =~= out@);
    out
}

/// How signed attestations go to the beacon nodes: as they are before Electra, in their
/// single-attester form from Electra on.
#[derive(Debug, Clone, PartialEq, Eq)]
pub enum AttestationPublication {
    V1(Vec<Attestation>),
    V2(Vec<SingleAttestation>),
}

/// The single-attester forms of signed attestations, each with its validator's index; one
/// that cannot be converted is left out (and reported), the others go on.
pub open spec fn singles_spec(signed: Seq<(Attestation, u64)>) -> Seq<SingleAttestation>
    decreases signed.len(),
{
    if signed.len() == 0 {
        seq![]
    } else {
        let rest = singles_spec(signed.drop_first());
        let (a, i) = signed[0];
        match a.committee_of() {
            Some(c) if a.committee_bits is Some => seq![SingleAttestation {
                committee_index: c as u64,
                attester_index: i,
                data: a.data,
                signature: a.signature,
            }] + rest,
            _ => rest,
        }
    }
}

/// What to publish of the signed attestations of a committee, each with its validator's
/// index: nothing when none was signed.
pub fn attestation_publication(signed: Vec<(Attestation, u64)>, electra: bool) -> (r: Option<AttestationPublication>)
    ensures
        signed@.len() == 0 <==> r is None,
        r is Some && !electra ==> r->Some_0 is V1 && r->Some_0->V1_0@ == signed@.map_values(|p: (Attestation, u64)| p.0),
        r is Some && electra ==> r->Some_0 is V2 && r->Some_0->V2_0@ == singles_spec(signed@),
{
    if signed.len() == 0 {
        return None;
    }
    let ghost all = signed@;
    let mut rest = signed;
    if electra {
        let mut out: Vec<SingleAttestation> = Vec::new();
        while rest.len() > 0
            invariant
                out@ + singles_spec(rest@) == singles_spec(all),
            decreases rest@.len(),
        {
            let ghost before = rest@;
            let (a, i) = rest.remove(0);
            proof {
                assert(before.drop_first() =~= rest@);
            }
            match a.to_single_attestation_with_attester_index(i) {
                Ok(single) => {
                    proof {
                        assert(out@.push(single) + singles_spec(rest@) =~= out@ + (seq![single] + singles_spec(rest@)));
                    }
                    out.push(single);
                },
                Err(_) => {},
            }
        }
        assert(out@ + singles_spec(rest@) =~= out@);
        Some(AttestationPublication::V2(out))
    } else {
        let mut out: Vec<Attestation> = Vec::new();
        while rest.len() > 0
            invariant
                out@ + rest@.map_values(|p: (Attestation, u64)| p.0) == all.map_values(|p: (Attestation, u64)| p.0),
            decreases rest@.len(),
        {
            let ghost before = rest@;
            let (a, i) = rest.remove(0);
            proof {
                assert(before.drop_first() =~= rest@);
                assert(out@.push(a) + rest@.map_values(|p: (Attestation, u64)| p.0) =~= out@ + before.map_values(|p: (Attestation, u64)| p.0));
            }
            out.push(a);
        }
        assert(out@ + rest@.map_values(|p: (Attestation, u64)| p.0) =~= out@);
        Some(AttestationPublication::V1(out))
    }
}


/// An aggregator's part in the aggregation phase: who signs, and the proof that elects it.
#[derive(Debug, Clone, Copy, PartialEq, Eq)]
pub struct AggregateRequest {
    pub pubkey: PublicKeyBytes,
    pub aggregator_index: u64,
    pub selection_proof: SignatureBytes,
}

pub open spec fn has_aggregator_spec(duties: Seq<DutyAndProof>) -> bool {
    exists|i: int| 0 <= i < duties.len() && (#[trigger] duties[i]).selection_proof is Some
}

/// Whether one of the duties makes its validator an aggregator.
pub fn has_aggregator(duties: &Vec<DutyAndProof>) -> (r: bool)
    ensures
        r == has_aggregator_spec(duties@),
{
    let mut i: usize = 0;
    while i < duties.len()
        invariant
            i <= duties@.len(),
            forall|j: int| 0 <= j < i ==> (#[trigger] duties@[j]).selection_proof is None,
        decreases duties@.len() - i,
    {
        if duties[i].selection_proof.is_some() {
            return true;
        }
        i = i + 1;
    }
    false
}

/// The aggregators among the duties whose data fits, in order.
pub open spec fn aggregators_spec(duties: Seq<DutyAndProof>, data: AttestationData, electra: bool) -> Seq<AggregateRequest>
    decreases duties.len(),
{
    if duties.len() == 0 {
        seq![]
    } else {
        let rest = aggregators_spec(duties.drop_last(), data, electra);
        let d = duties.last();
        if d.selection_proof is Some && duty_matches(d.duty, data, electra) {
            rest.push(AggregateRequest {
                pubkey: d.duty.pubkey,
                aggregator_index: d.duty.validator_index,
                selection_proof: d.selection_proof->Some_0,
            })
        } else {
            rest
        }
    }
}

/// Who signs the aggregate: each duty with a selection proof whose data fits, in order. A duty
/// that the data does not fit is dropped.
pub fn aggregators(duties: &Vec<DutyAndProof>, data: &AttestationData, electra: bool) -> (r: Vec<AggregateRequest>)
    ensures
        r@ == aggregators_spec(duties@, *data, electra),
{
    let mut out: Vec<AggregateRequest> = Vec::new();
    let mut i: usize = 0;
    while i < duties.len()
        invariant
            i <= duties@.len(),
            out@ == aggregators_spec(duties@.take(i as int), *data, electra),
        decreases duties@.len() - i,
    {
        proof {
            assert(duties@.take(i as int + 1).drop_last() =~= duties@.take(i as int));
        }
        let d = duties[i];
        match d.selection_proof {
            Some(proof_bytes) => {
                if d.duty.match_attestation_data(data, electra) {
                    out.push(AggregateRequest {
                        pubkey: d.duty.pubkey,
                        aggregator_index: d.duty.validator_index,
                        selection_proof: proof_bytes,
                    });
                }
            },
            None => {},
        }
        i = i + 1;
    }
    assert(duties@.take(i as int) =~= duties@);
    out
}

/// Which aggregate to ask the beacon nodes for: the one over this data at its slot; from
/// Electra on the committee is named too.
#[derive(Debug, Clone, Copy, PartialEq, Eq)]
pub struct AggregateQuery {
    pub slot: u64,
    pub attestation_data_root: Hash256,
    pub committee_index: Option<u64>,
}

pub fn aggregate_query(data: &AttestationData, committee_index: u64, electra: bool) -> (r: AggregateQuery)
    ensures
        r.slot == data.slot,
        r.attestation_data_root.bytes@ == data.root_spec(),
        r.committee_index == (if electra { Some(committee_index) } else { None }),
{
    AggregateQuery {
        slot: data.slot,
        attestation_data_root: data.tree_hash_root(),
        committee_index: if electra { Some(committee_index) } else { None },
    }
}

/// An aggregate signed by an aggregator, with the proof that elects it.
#[derive(Debug, Clone, PartialEq, Eq)]
pub struct SignedAggregateAndProof {
    pub aggregator_index: u64,
    pub aggregate: Attestation,
    pub selection_proof: SignatureBytes,
    pub signature: SignatureBytes,
}

/// How signed aggregates go to the beacon nodes: through the endpoint of the fork.
#[derive(Debug, Clone, PartialEq, Eq)]
pub enum AggregatePublication {
    V1(Vec<SignedAggregateAndProof>),
    V2(Vec<SignedAggregateAndProof>),
}

/// What to publish of the signed aggregates: nothing when none was signed.
pub fn aggregate_publication(signed: Vec<SignedAggregateAndProof>, electra: bool) -> (r: Option<AggregatePublication>)
    ensures
        signed@.len() == 0 <==> r is None,
        r is Some && !electra ==> r->Some_0 is V1 && r->Some_0->V1_0@ == signed@,
        r is Some && electra ==> r->Some_0 is V2 && r->Some_0->V2_0@ == signed@,
{
    if signed.len() == 0 {
        None
    } else if electra {
        Some(AggregatePublication::V2(signed))
    } else {
        Some(AggregatePublication::V1(signed))
    }
}

/// Where the work for one committee at one slot stands.
#[derive(Debug, Clone, Copy, PartialEq, Eq, Structural)]
pub enum RoundStage {
    FetchData,
    Signing,
    Publishing,
    WaitAggregation,
    FetchAggregate,
    SigningAggregates,
    PublishingAggregates,
    Done,
}

/// What happened, as the round needs to know it.
#[derive(Debug, Clone, Copy, PartialEq, Eq, Structural)]
pub enum RoundEvent {
    /// The attestation data was downloaded, or could not be.
    DataFetched(bool),
    /// This many attestations were signed.
    AttestationsSigned(usize),
    /// The publication of the attestations is over (whatever came of it: it is only reported).
    AttestationsPublished,
    /// Two thirds of the slot have passed (at once, if that moment was already past).
    AggregationTime,
    /// An aggregate was downloaded, or none could be.
    AggregateFetched(bool),
    /// This many aggregates were signed.
    AggregatesSigned(usize),
    /// The publication of the aggregates is over.
    AggregatesPublished,
}

/// What to do next.
#[derive(Debug, Clone, Copy, PartialEq, Eq, Structural)]
pub enum RoundAction {
    FetchData,
    SignAttestations,
    PublishAttestations,
    SleepUntilAggregation,
    FetchAggregate,
    SignAggregates,
    PublishAggregates,
    Finish,
    Ignore,
}

/// The work for one committee at one slot: download the data once, sign for every validator,
/// publish; then, if a validator aggregates, wait until two thirds of the slot, download the
/// aggregate, sign and publish it.
#[derive(Debug, Clone, Copy, PartialEq, Eq, Structural)]
pub struct CommitteeRound {
    pub slot: u64,
    pub committee_index: u64,
    pub has_aggregator: bool,
    pub stage: RoundStage,
}

impl CommitteeRound {
    pub open spec fn at(self, stage: RoundStage) -> CommitteeRound {
        CommitteeRound { stage, ..self }
    }

    pub open spec fn next(self, e: RoundEvent) -> (CommitteeRound, RoundAction) {
        match (self.stage, e) {
            (RoundStage::FetchData, RoundEvent::DataFetched(ok)) => if ok {
                (self.at(RoundStage::Signing), RoundAction::SignAttestations)
            } else {
                (self.at(RoundStage::Done), RoundAction::Finish)
            },
            (RoundStage::Signing, RoundEvent::AttestationsSigned(n)) => if n > 0 {
                (self.at(RoundStage::Publishing), RoundAction::PublishAttestations)
            } else {
                (self.at(RoundStage::Done), RoundAction::Finish)
            },
            (RoundStage::Publishing, RoundEvent::AttestationsPublished) => if self.has_aggregator {
                (self.at(RoundStage::WaitAggregation), RoundAction::SleepUntilAggregation)
            } else {
                (self.at(RoundStage::Done), RoundAction::Finish)
            },
            (RoundStage::WaitAggregation, RoundEvent::AggregationTime) => (
                self.at(RoundStage::FetchAggregate),
                RoundAction::FetchAggregate,
            ),
            (RoundStage::FetchAggregate, RoundEvent::AggregateFetched(ok)) => if ok {
                (self.at(RoundStage::SigningAggregates), RoundAction::SignAggregates)
            } else {
                (self.at(RoundStage::Done), RoundAction::Finish)
            },
            (RoundStage::SigningAggregates, RoundEvent::AggregatesSigned(n)) => if n > 0 {
                (self.at(RoundStage::PublishingAggregates), RoundAction::PublishAggregates)
            } else {
                (self.at(RoundStage::Done), RoundAction::Finish)
            },
            (RoundStage::PublishingAggregates, RoundEvent::AggregatesPublished) => (
                self.at(RoundStage::Done),
                RoundAction::Finish,
            ),
            _ => (self, RoundAction::Ignore),
        }
    }

    /// Starts the round for the duties of one committee: with no duty there is nothing to do,
    /// and nothing is downloaded.
    pub fn start(slot: u64, committee_index: u64, duties: &Vec<DutyAndProof>) -> (r: (CommitteeRound, RoundAction))
        ensures
            r.0.slot == slot,
            r.0.committee_index == committee_index,
            r.0.has_aggregator == has_aggregator_spec(duties@),
            duties@.len() == 0 ==> r.0.stage == RoundStage::Done && r.1 == RoundAction::Finish,
            duties@.len() > 0 ==> r.0.stage == RoundStage::FetchData && r.1 == RoundAction::FetchData,
    {
        let has = has_aggregator(duties);
        if duties.len() == 0 {
            (CommitteeRound { slot, committee_index, has_aggregator: has, stage: RoundStage::Done }, RoundAction::Finish)
        } else {
            (
                CommitteeRound { slot, committee_index, has_aggregator: has, stage: RoundStage::FetchData },
                RoundAction::FetchData,
            )
        }
    }

    /// Takes what happened and says what to do next.
    pub fn step(&mut self, e: RoundEvent) -> (a: RoundAction)
        ensures
            (*final(self), a) == old(self).next(e),
    {
        match (self.stage, e) {
            (RoundStage::FetchData, RoundEvent::DataFetched(ok)) => if ok {
                self.stage = RoundStage::Signing;
                RoundAction::SignAttestations
            } else {
                self.stage = RoundStage::Done;
                RoundAction::Finish
            },
            (RoundStage::Signing, RoundEvent::AttestationsSigned(n)) => if n > 0 {
                self.stage = RoundStage::Publishing;
                RoundAction::PublishAttestations
            } else {
                self.stage = RoundStage::Done;
                RoundAction::Finish
            },
            (RoundStage::Publishing, RoundEvent::AttestationsPublished) => if self.has_aggregator {
                self.stage = RoundStage::WaitAggregation;
                RoundAction::SleepUntilAggregation
            } else {
                self.stage = RoundStage::Done;
                RoundAction::Finish
            },
            (RoundStage::WaitAggregation, RoundEvent::AggregationTime) => {
                self.stage = RoundStage::FetchAggregate;
                RoundAction::FetchAggregate
            },
            (RoundStage::FetchAggregate, RoundEvent::AggregateFetched(ok)) => if ok {
                self.stage = RoundStage::SigningAggregates;
                RoundAction::SignAggregates
            } else {
                self.stage = RoundStage::Done;
                RoundAction::Finish
            },
            (RoundStage::SigningAggregates, RoundEvent::AggregatesSigned(n)) => if n > 0 {
                self.stage = RoundStage::PublishingAggregates;
                RoundAction::PublishAggregates
            } else {
                self.stage = RoundStage::Done;
                RoundAction::Finish
            },
            (RoundStage::PublishingAggregates, RoundEvent::AggregatesPublished) => {
                self.stage = RoundStage::Done;
                RoundAction::Finish
            },
            _ => RoundAction::Ignore,
        }
    }
}

pub open spec fn round_actions(r: CommitteeRound, events: Seq<RoundEvent>) -> Seq<RoundAction>
    decreases events.len(),
{
    if events.len() == 0 {
        seq![]
    } else {
        let (r2, a) = r.next(events[0]);
        seq![a] + round_actions(r2, events.drop_first())
    }
}

/// How many times the actions sign attestations.
pub open spec fn count_signing(actions: Seq<RoundAction>) -> nat
    decreases actions.len(),
{
    if actions.len() == 0 {
        0
    } else {
        (if actions[0] is SignAttestations { 1nat } else { 0nat }) + count_signing(actions.drop_first())
    }
}

proof fn lemma_signing_bounded(r: CommitteeRound, events: Seq<RoundEvent>)
    ensures
        count_signing(round_actions(r, events)) <= (if r.stage is FetchData { 1nat } else { 0nat }),
    decreases events.len(),
{
    if events.len() > 0 {
        let (r2, a) = r.next(events[0]);
        lemma_signing_bounded(r2, events.drop_first());
        assert(round_actions(r, events).drop_first() =~= round_actions(r2, events.drop_first()));
    }
}

/// A round signs the attestations of its committee once at most, whatever happens: each
/// validator of the committee is asked for at most one signed attestation per slot.
pub proof fn lemma_round_signs_once(slot: u64, committee_index: u64, has_aggregator: bool, events: Seq<RoundEvent>)
    ensures
        count_signing(
            round_actions(
                CommitteeRound { slot, committee_index, has_aggregator, stage: RoundStage::FetchData },
                events,
            ),
        ) <= 1,
{
    lemma_signing_bounded(CommitteeRound { slot, committee_index, has_aggregator, stage: RoundStage::FetchData }, events);
}

} // verus!
