use vstd::prelude::*;

use crate::fallback::{Errors, FallbackError, PoolKind, ProposerFallback, Route};

verus! {

/// What a request is about; endpoints are subscribed to topics.
#[derive(Debug, Clone, Copy, PartialEq, Eq, Structural)]
pub enum ApiTopic {
    Attestations,
    Blocks,
}

/// The last known state of an endpoint.
#[derive(Debug, Clone, Copy, PartialEq, Eq, Structural)]
pub enum EndpointStatus {
    Online,
    Offline,
    NotSynced,
    IncompatibleSpec,
}

/// One beacon node of a pool.
#[derive(Debug, Clone, PartialEq, Eq)]
pub struct Endpoint {
    pub name: String,
    pub status: EndpointStatus,
    pub topics: Vec<ApiTopic>,
}

/// Whether a broadcast on `topic` goes to the endpoint: it is online and subscribed.
pub open spec fn takes_broadcast(e: Endpoint, topic: ApiTopic) -> bool {
    e.status == EndpointStatus::Online && e.topics@.contains(topic)
}

/// The positions of the endpoints that a broadcast on `topic` goes to, in order.
pub open spec fn broadcast_targets_spec(endpoints: Seq<Endpoint>, topic: ApiTopic) -> Seq<usize>
    decreases endpoints.len(),
{
    if endpoints.len() == 0 {
        seq![]
    } else {
        let rest = broadcast_targets_spec(endpoints.drop_last(), topic);
        if takes_broadcast(endpoints.last(), topic) {
            rest.push((endpoints.len() - 1) as usize)
        } else {
            rest
        }
    }
}

fn subscribed(topics: &Vec<ApiTopic>, topic: ApiTopic) -> (r: bool)
    ensures
        r == topics@.contains(topic),
{
    let mut i: usize = 0;
    while i < topics.len()
        invariant
            i <= topics@.len(),
            forall|j: int| 0 <= j < i ==> topics@[j] != topic,
        decreases topics@.len() - i,
    {
        if topics[i] == topic {
            return true;
        }
        i = i + 1;
    }
    false
}

/// The endpoints that a broadcast on `topic` goes to: those online and subscribed to it.
pub fn broadcast_targets(endpoints: &Vec<Endpoint>, topic: ApiTopic) -> (r: Vec<usize>)
    ensures
        r@ == broadcast_targets_spec(endpoints@, topic),
{
    let mut out: Vec<usize> = Vec::new();
    let mut i: usize = 0;
    while i < endpoints.len()
        invariant
            i <= endpoints@.len(),
            out@ == broadcast_targets_spec(endpoints@.take(i as int), topic),
        decreases endpoints@.len() - i,
    {
        proof {
            assert(endpoints@.take(i as int + 1).drop_last() =~= endpoints@.take(i as int));
        }
        let e = &endpoints[i];
        let online = match e.status {
            EndpointStatus::Online => true,
            _ => false,
        };
        if online && subscribed(&e.topics, topic) {
            out.push(i);
        }
        i = i + 1;
    }
    assert(endpoints@.take(i as int) =~= endpoints@);
    out
}

/// Whether one of the endpoints succeeded.
pub open spec fn any_ok<E>(outcomes: Seq<(String, Result<(), FallbackError<E>>)>) -> bool {
    exists|i: int| 0 <= i < outcomes.len() && (#[trigger] outcomes[i]).1 is Ok
}

/// The failures among the outcomes, in order.
pub open spec fn failures_of<E>(outcomes: Seq<(String, Result<(), FallbackError<E>>)>) -> Seq<(String, FallbackError<E>)>
    decreases outcomes.len(),
{
    if outcomes.len() == 0 {
        seq![]
    } else {
        let rest = failures_of(outcomes.drop_first());
        match outcomes[0].1 {
            Ok(()) => rest,
            Err(e) => seq![(outcomes[0].0, e)] + rest,
        }
    }
}

/// The result of a broadcast, from every endpoint's answer: success if one endpoint took the
/// request, else every endpoint's failure.
pub fn broadcast_result<E>(outcomes: Vec<(String, Result<(), FallbackError<E>>)>) -> (r: Result<(), Errors<E>>)
    ensures
        r is Ok <==> any_ok(outcomes@),
        r is Err ==> r->Err_0.failures@ == failures_of(outcomes@),
{
    let ghost all = outcomes@;
    let mut rest = outcomes;
    let mut failures: Vec<(String, FallbackError<E>)> = Vec::new();
    let mut ok = false;
    while rest.len() > 0
        invariant
            failures@ + failures_of(rest@) == failures_of(all),
            ok == (exists|i: int| 0 <= i < all.len() - rest@.len() && (#[trigger] all[i]).1 is Ok),
            rest@ == all.skip(all.len() - rest@.len()),
            rest@.len() <= all.len(),
        decreases rest@.len(),
    {
        let ghost before = rest@;
        let ghost done = all.len() - rest@.len();
        let (name, outcome) = rest.remove(0);
        proof {
            assert(before.drop_first() =~= rest@);
            assert(all.skip(done + 1) =~= rest@);
            assert(all[done] == before[0]);
        }
        match outcome {
            Ok(()) => {
                ok = true;
            },
            Err(e) => {
                proof {
                    assert(failures@.push((name, e)) + failures_of(rest@) =~= failures@ + (seq![(name, e)] + failures_of(rest@)));
                }
                failures.push((name, e));
            },
        }
    }
    assert(failures@ + failures_of(rest@) =~= failures@);
    if ok {
        Ok(())
    } else {
        Err(Errors { failures })
    }
}

/// A publish through the proposer pool that one proposer node took never goes on to the
/// general pool: the broadcast succeeds, and the route ends there.
pub proof fn lemma_proposer_success_ends_publish<E>(
    f: ProposerFallback,
    outcomes: Seq<(String, Result<(), FallbackError<E>>)>,
    r: Result<(), Errors<E>>,
)
    requires
        any_ok(outcomes),
        (r is Ok) == any_ok(outcomes),
    ensures
        f.proposers_first_spec(Some((PoolKind::Proposer, r))) == Route::<(), E>::Done(Ok(())),
{
}

/// The positions of the endpoints subscribed to `topic` whose being online is `online`, in
/// order.
pub open spec fn subscribed_positions(endpoints: Seq<Endpoint>, topic: ApiTopic, online: bool) -> Seq<usize>
    decreases endpoints.len(),
{
    if endpoints.len() == 0 {
        seq![]
    } else {
        let rest = subscribed_positions(endpoints.drop_last(), topic, online);
        let e = endpoints.last();
        if e.topics@.contains(topic) && (e.status == EndpointStatus::Online) == online {
            rest.push((endpoints.len() - 1) as usize)
        } else {
            rest
        }
    }
}

/// The order in which `first_success` asks the endpoints subscribed to `topic`: the online ones
/// first, then those marked down, each group in pool order.
pub open spec fn first_success_order(endpoints: Seq<Endpoint>, topic: ApiTopic) -> Seq<usize> {
    subscribed_positions(endpoints, topic, true) + subscribed_positions(endpoints, topic, false)
}

proof fn lemma_positions_in_range(endpoints: Seq<Endpoint>, topic: ApiTopic, online: bool)
    ensures
        forall|k: int| 0 <= k < subscribed_positions(endpoints, topic, online).len()
            ==> #[trigger] subscribed_positions(endpoints, topic, online)[k] < endpoints.len(),
    decreases endpoints.len(),
{
    if endpoints.len() > 0 {
        let init = endpoints.drop_last();
        lemma_positions_in_range(init, topic, online);
        let rest = subscribed_positions(init, topic, online);
        let all = subscribed_positions(endpoints, topic, online);
        assert forall|k: int| 0 <= k < all.len() implies #[trigger] all[k] < endpoints.len() by {
            if k < rest.len() {
                assert(all[k] == rest[k]);
            }
        }
    }
}

fn subscribed_positions_exec(endpoints: &Vec<Endpoint>, topic: ApiTopic, online: bool) -> (r: Vec<usize>)
    ensures
        r@ == subscribed_positions(endpoints@, topic, online),
{
    let mut out: Vec<usize> = Vec::new();
    let mut i: usize = 0;
    while i < endpoints.len()
        invariant
            i <= endpoints@.len(),
            out@ == subscribed_positions(endpoints@.take(i as int), topic, online),
        decreases endpoints@.len() - i,
    {
        proof {
            assert(endpoints@.take(i as int + 1).drop_last() =~= endpoints@.take(i as int));
        }
        let e = &endpoints[i];
        let is_online = match e.status {
            EndpointStatus::Online => true,
            _ => false,
        };
        if subscribed(&e.topics, topic) && is_online == online {
            out.push(i);
        }
        i = i + 1;
    }
    assert(endpoints@.take(i as int) =~= endpoints@);
    out
}

/// The endpoint at `pos` as it is after a failure: marked offline, so that the next search
/// asks it after the endpoints still online.
pub open spec fn marked_down(endpoints: Seq<Endpoint>, pos: int) -> Seq<Endpoint> {
    endpoints.update(pos, Endpoint { status: EndpointStatus::Offline, ..endpoints[pos] })
}

/// Where `first_success` stands: the subscribed endpoints are asked in `order`, one after the
/// other, until one succeeds.
#[derive(Debug)]
pub struct FirstSuccess<E> {
    /// The positions of the endpoints to ask, in the order they are asked.
    pub order: Vec<usize>,
    /// The failures so far, one per endpoint asked, in order.
    pub failures: Vec<(String, FallbackError<E>)>,
}

/// What `first_success` does next.
#[derive(Debug, PartialEq)]
pub enum PoolStep<T, E> {
    /// Ask the endpoint at this position of the pool.
    Ask(usize),
    /// Over, with this result.
    Done(Result<T, Errors<E>>),
}

impl<E> FirstSuccess<E> {
    /// Whether the search can go on over `endpoints`: every position to ask is in the pool.
    pub open spec fn fits(self, endpoints: Seq<Endpoint>) -> bool {
        forall|k: int| 0 <= k < self.order@.len() ==> #[trigger] self.order@[k] < endpoints.len()
    }

    /// Starts a search for `topic`: online subscribers first, then the others; a pool with no
    /// subscriber fails at once.
    pub fn start<T>(endpoints: &Vec<Endpoint>, topic: ApiTopic) -> (r: (FirstSuccess<E>, PoolStep<T, E>))
        ensures
            r.0.order@ == first_success_order(endpoints@, topic),
            r.0.failures@.len() == 0,
            r.0.fits(endpoints@),
            r.0.order@.len() == 0 ==> r.1 is Done && r.1->Done_0 is Err && r.1->Done_0->Err_0.failures@.len() == 0,
            r.0.order@.len() > 0 ==> r.1 == PoolStep::<T, E>::Ask(r.0.order@[0]),
    {
        let mut order = subscribed_positions_exec(endpoints, topic, true);
        let mut down = subscribed_positions_exec(endpoints, topic, false);
        order.append(&mut down);
        proof {
            lemma_positions_in_range(endpoints@, topic, true);
            lemma_positions_in_range(endpoints@, topic, false);
            assert(order@ =~= first_success_order(endpoints@, topic));
            assert forall|k: int| 0 <= k < order@.len() implies #[trigger] order@[k] < endpoints@.len() by {
                let on = subscribed_positions(endpoints@, topic, true);
                if k >= on.len() {
                    assert(order@[k] == subscribed_positions(endpoints@, topic, false)[k - on.len()]);
                }
            }
        }
        let s = FirstSuccess { order, failures: Vec::new() };
        if s.order.len() == 0 {
            (s, PoolStep::Done(Err(Errors { failures: Vec::new() })))
        } else {
            let first = s.order[0];
            (s, PoolStep::Ask(first))
        }
    }

    /// Takes the answer of the endpoint asked last. A success ends the search. A failure is
    /// recorded under the endpoint's name, the endpoint is marked offline, and the next one is
    /// asked; after the last one, the search fails with every endpoint's failure.
    pub fn record<T>(&mut self, endpoints: &mut Vec<Endpoint>, outcome: Result<T, FallbackError<E>>) -> (r: PoolStep<T, E>)
        requires
            old(self).failures@.len() < old(self).order@.len(),
            old(self).fits(old(endpoints)@),
        ensures
            final(self).order@ == old(self).order@,
            final(self).fits(final(endpoints)@),
            outcome is Ok ==> r == PoolStep::<T, E>::Done(Ok(outcome->Ok_0))
                && final(self).failures@ == old(self).failures@ && final(endpoints)@ == old(endpoints)@,
            outcome is Err ==> {
                let pos = old(self).order@[old(self).failures@.len() as int] as int;
                let n = old(self).failures@.len() + 1;
                &&& final(endpoints)@ == marked_down(old(endpoints)@, pos)
                &&& n < old(self).order@.len() ==> r == PoolStep::<T, E>::Ask(old(self).order@[n as int])
                    && final(self).failures@.len() == n
                    && final(self).failures@.drop_last() == old(self).failures@
                    && final(self).failures@.last().0@ == old(endpoints)@[pos].name@
                    && final(self).failures@.last().1 == outcome->Err_0
                &&& n == old(self).order@.len() ==> r is Done && r->Done_0 is Err && {
                    let f = r->Done_0->Err_0.failures@;
                    &&& f.len() == n
                    &&& f.drop_last() == old(self).failures@
                    &&& f.last().0@ == old(endpoints)@[pos].name@
                    &&& f.last().1 == outcome->Err_0
                }
            },
    {
        match outcome {
            Ok(v) => PoolStep::Done(Ok(v)),
            Err(e) => {
                let pos = self.order[self.failures.len()];
                let ghost before = endpoints@;
                let mut endpoint = endpoints.remove(pos);
                let name = endpoint.name.clone();
                endpoint.status = EndpointStatus::Offline;
                endpoints.insert(pos, endpoint);
                proof {
                    assert(endpoints@ =~= marked_down(before, pos as int));
                }
                let ghost old_failures = self.failures@;
                self.failures.push((name, e));
                proof {
                    assert(self.failures@.drop_last() =~= old_failures);
                }
                if self.failures.len() < self.order.len() {
                    PoolStep::Ask(self.order[self.failures.len()])
                } else {
                    let mut failures: Vec<(String, FallbackError<E>)> = Vec::new();
                    core::mem::swap(&mut failures, &mut self.failures);
                    PoolStep::Done(Err(Errors { failures }))
                }
            },
        }
    }
}

} // verus!
