use vstd::prelude::*;

verus! {

/// Why one endpoint did not serve a request.
#[derive(Debug, Clone, PartialEq)]
pub enum FallbackError<E> {
    /// The endpoint was not available (offline, not synced, or of another spec); the text says how.
    Unavailable(String),
    /// The endpoint was tried and the request failed.
    RequestFailed(E),
}

/// What each endpoint that was tried reported, by endpoint name, when none succeeded.
#[derive(Debug, Clone, PartialEq)]
pub struct Errors<E> {
    pub failures: Vec<(String, FallbackError<E>)>,
}

/// One of the two endpoint pools: the general beacon nodes, or the nodes kept for proposing.
#[derive(Debug, Clone, Copy, PartialEq, Eq, Structural)]
pub enum PoolKind {
    General,
    Proposer,
}

/// What to do next while routing a request over the two pools.
#[derive(Debug, PartialEq)]
pub enum Route<T, E> {
    /// Send the request to this pool.
    Query(PoolKind),
    /// Routing is over, with this result.
    Done(Result<T, Errors<E>>),
}

/// The general beacon nodes together with optional nodes that only propose blocks.
#[derive(Debug, Clone, Copy, PartialEq, Eq, Structural)]
pub struct ProposerFallback {
    pub has_proposer_nodes: bool,
}

impl ProposerFallback {
    /// The route for publishing: the proposer pool first, if there is one, then the general pool.
    pub open spec fn proposers_first_spec<E>(
        self,
        last: Option<(PoolKind, Result<(), Errors<E>>)>,
    ) -> Route<(), E> {
        match last {
            None => if self.has_proposer_nodes {
                Route::Query(PoolKind::Proposer)
            } else {
                Route::Query(PoolKind::General)
            },
            Some((PoolKind::Proposer, Ok(()))) => Route::Done(Ok(())),
            Some((PoolKind::Proposer, Err(_))) => Route::Query(PoolKind::General),
            Some((PoolKind::General, r)) => Route::Done(r),
        }
    }

    /// The route for fetching: the general pool first, then the proposer pool, if there is one.
    pub open spec fn proposers_last_spec<T, E>(
        self,
        last: Option<(PoolKind, Result<T, Errors<E>>)>,
    ) -> Route<T, E> {
        match last {
            None => Route::Query(PoolKind::General),
            Some((PoolKind::General, Ok(v))) => Route::Done(Ok(v)),
            Some((PoolKind::General, Err(e))) => if self.has_proposer_nodes {
                Route::Query(PoolKind::Proposer)
            } else {
                Route::Done(Err(e))
            },
            Some((PoolKind::Proposer, r)) => Route::Done(r),
        }
    }

    /// Next step of a publish: `last` is `None` at the start, else the pool just asked and its
    /// answer. A success on the proposer pool ends the route; a failure there, or no proposer
    /// pool at all, sends the request to the general pool, whose answer is final.
    pub fn request_proposers_first<E>(
        &self,
        last: Option<(PoolKind, Result<(), Errors<E>>)>,
    ) -> (r: Route<(), E>)
        ensures
            r == self.proposers_first_spec(last),
    {
        match last {
            None => if self.has_proposer_nodes {
                Route::Query(PoolKind::Proposer)
            } else {
                Route::Query(PoolKind::General)
            },
            Some((PoolKind::Proposer, Ok(()))) => Route::Done(Ok(())),
            Some((PoolKind::Proposer, Err(_))) => Route::Query(PoolKind::General),
            Some((PoolKind::General, r)) => Route::Done(r),
        }
    }

    /// Next step of a fetch: `last` is `None` at the start, else the pool just asked and its
    /// answer. The general pool is asked first; only its failure sends the request on to the
    /// proposer pool, and without one its error is final.
    pub fn request_proposers_last<T, E>(
        &self,
        last: Option<(PoolKind, Result<T, Errors<E>>)>,
    ) -> (r: Route<T, E>)
        ensures
            r == self.proposers_last_spec(last),
    {
        match last {
            None => Route::Query(PoolKind::General),
            Some((PoolKind::General, Ok(v))) => Route::Done(Ok(v)),
            Some((PoolKind::General, Err(e))) => if self.has_proposer_nodes {
                Route::Query(PoolKind::Proposer)
            } else {
                Route::Done(Err(e))
            },
            Some((PoolKind::Proposer, r)) => Route::Done(r),
        }
    }
}

/// A publish whose proposer-pool request succeeded never goes on to the general pool: the
/// route ends there, with success.
pub proof fn lemma_proposers_first_stops_on_success<E>(f: ProposerFallback)
    ensures
        f.proposers_first_spec::<E>(Some((PoolKind::Proposer, Ok(())))) == Route::<(), E>::Done(
            Ok(()),
        ),
        f.has_proposer_nodes ==> f.proposers_first_spec::<E>(None) == Route::<(), E>::Query(
            PoolKind::Proposer,
        ),
{
}

/// A fetch whose general-pool request succeeded never goes on to the proposer pool: the route
/// ends there, with the value that the general pool returned.
pub proof fn lemma_proposers_last_stops_on_success<T, E>(f: ProposerFallback, v: T)
    ensures
        f.proposers_last_spec::<T, E>(Some((PoolKind::General, Ok(v)))) == Route::<T, E>::Done(
            Ok(v),
        ),
        f.proposers_last_spec::<T, E>(None) == Route::<T, E>::Query(PoolKind::General),
{
}

} // verus!
