//! Processing a queue: which descriptor chains are served, in which order, and what is reported.

use crate::chain::ChainAction;
use crate::chain::ChainOutcomes;
use crate::chain::ChainRun;
use crate::error::Error;
use vstd::multiset::Multiset;
use vstd::prelude::*;

verus! {

/// What has to be done next for a queue that is processed one chain after the other.
#[derive(Debug)]
pub enum SerialAction {
    /// Collect all the chains that are available on the queue.
    CollectChains,
    /// Serve the chain that was collected at this position.
    ServeChain {
        /// The position of the chain among those that were collected.
        position: usize,
    },
    /// The queue has been processed. `Ok` holds whether there was any chain on it.
    Finished(Result<bool, Error>),
}

/// The processing of a queue, one chain after the other.
#[derive(Debug)]
pub struct SerialRun {
    /// Whether EVENT_IDX is in use on the queue.
    pub event_idx: bool,
    /// The heads of the chains that were collected, in the order of the queue.
    pub heads: Vec<u16>,
    /// What has to be done next.
    pub action: SerialAction,
}

/// What a queue that is processed serially has ahead once its first `position` chains are served.
pub open spec fn serial_action(chains: nat, position: nat) -> SerialAction {
    if position < chains {
        SerialAction::ServeChain { position: position as usize }
    } else {
        SerialAction::Finished(Ok(chains > 0))
    }
}

impl SerialRun {
    /// Whether a chain is ahead only where one was collected.
    pub open spec fn wf(self) -> bool {
        self.action matches SerialAction::ServeChain { position } ==> position < self.heads@.len()
    }

    /// Whether `self` is about to process a queue. Guest memory has to be configured for that.
    pub open spec fn is_start_of(self, memory_configured: bool, event_idx: bool) -> bool {
        &&& self.event_idx == event_idx
        &&& self.heads@ == Seq::<u16>::empty()
        &&& self.action == (if memory_configured {
            SerialAction::CollectChains
        } else {
            SerialAction::Finished(Err(Error::NoMemoryConfigured))
        })
    }

    /// Start to process a queue.
    pub fn start(memory_configured: bool, event_idx: bool) -> (run: Self)
        ensures
            run.wf(),
            run.event_idx == event_idx,
            run.action is CollectChains <==> memory_configured,
            run.is_start_of(memory_configured, event_idx),
    {
        let action = if memory_configured {
            SerialAction::CollectChains
        } else {
            SerialAction::Finished(Err(Error::NoMemoryConfigured))
        };
        SerialRun { event_idx, heads: Vec::new(), action }
    }

    /// The chains that are available were collected, and these are their heads. With `None` the
    /// queue could not be iterated.
    pub fn chains_collected(self, heads: Option<Vec<u16>>) -> (next: Self)
        requires
            self.action is CollectChains,
        ensures
            next.wf(),
            next.event_idx == self.event_idx,
            match heads {
                Some(heads) => {
                    &&& next.heads == heads
                    &&& heads@.len() > 0 ==> next.action == (SerialAction::ServeChain {
                        position: 0,
                    })
                    &&& heads@.len() == 0 ==> next.action == SerialAction::Finished(Ok(false))
                    &&& next.action == serial_action(heads@.len(), 0)
                },
                None => {
                    &&& next.heads == self.heads
                    &&& next.action == SerialAction::Finished(Err(Error::IterateQueue))
                },
            },
    {
        match heads {
            Some(heads) => {
                let action = if heads.len() > 0 {
                    SerialAction::ServeChain { position: 0 }
                } else {
                    SerialAction::Finished(Ok(false))
                };
                SerialRun { event_idx: self.event_idx, heads, action }
            },
            None => SerialRun { action: SerialAction::Finished(Err(Error::IterateQueue)), ..self },
        }
    }

    /// The service of the chain that is ahead.
    pub fn chain(&self) -> (chain: ChainRun)
        requires
            self.wf(),
            self.action is ServeChain,
        ensures
            chain == (ChainRun {
                head_index: self.heads@[self.action->position as int],
                event_idx: self.event_idx,
                action: ChainAction::CreateReader,
            }),
    {
        match self.action {
            SerialAction::ServeChain { position } => ChainRun::process_message(
                self.heads[position],
                self.event_idx,
            ),
            _ => ChainRun::process_message(0, self.event_idx),
        }
    }

    /// The chain that was ahead has been served.
    pub fn chain_served(self) -> (next: Self)
        requires
            self.wf(),
            self.action is ServeChain,
        ensures
            next.wf(),
            next.event_idx == self.event_idx,
            next.heads == self.heads,
            next.action == serial_action(self.heads@.len(), self.action->position as nat + 1),
    {
        let collected: usize = self.heads.len();
        match self.action {
            SerialAction::ServeChain { position } => {
                let action = if position + 1 < collected {
                    SerialAction::ServeChain { position: position + 1 }
                } else {
                    SerialAction::Finished(Ok(true))
                };
                SerialRun { event_idx: self.event_idx, heads: self.heads, action }
            },
            _ => self,
        }
    }
}

/// The heads of the chains that are served once the first `position` chains are, if the actions
/// for each chain come out as `outcomes` says. A chain whose request fails is the last one: it ends
/// the process.
pub open spec fn served_heads(
    heads: Seq<u16>,
    outcomes: Seq<ChainOutcomes>,
    position: nat,
) -> Seq<u16>
    decreases heads.len() - position,
    when position <= heads.len()
{
    match serial_action(heads.len(), position) {
        SerialAction::ServeChain { position: ahead } => {
            let served = seq![heads[ahead as int]];
            if crate::chain::failure(outcomes[ahead as int]) is None {
                served + served_heads(heads, outcomes, position + 1)
            } else {
                served
            }
        },
        _ => Seq::empty(),
    }
}

/// What is put into the used ring once the first `position` chains are served, if the actions for
/// each chain come out as `outcomes` says. A chain whose request fails is the last one: it ends the
/// process.
pub open spec fn serial_used_entries(
    heads: Seq<u16>,
    event_idx: bool,
    outcomes: Seq<ChainOutcomes>,
    position: nat,
) -> Seq<(u16, u32)>
    decreases heads.len() - position,
    when position <= heads.len()
{
    match serial_action(heads.len(), position) {
        SerialAction::ServeChain { position: ahead } => {
            let head_index = heads[ahead as int];
            let chain = ChainRun { head_index, event_idx, action: ChainAction::CreateReader };
            let used = crate::chain::used_of(chain.runs(outcomes[ahead as int], 7));
            if crate::chain::failure(outcomes[ahead as int]) is None {
                used + serial_used_entries(heads, event_idx, outcomes, position + 1)
            } else {
                used
            }
        },
        _ => Seq::empty(),
    }
}

/// What is served and what is put into the used ring from a position on, where `handled` requests
/// are handled before one fails or the queue ends.
proof fn lemma_serial_from(
    heads: Seq<u16>,
    event_idx: bool,
    outcomes: Seq<ChainOutcomes>,
    position: nat,
    handled: nat,
)
    requires
        position <= handled <= heads.len() <= usize::MAX,
        outcomes.len() == heads.len(),
        forall|i: int|
            0 <= i < handled ==> crate::chain::failure(#[trigger] outcomes[i]) is None,
        handled < heads.len() ==> crate::chain::failure(outcomes[handled as int]) is Some,
    ensures
        served_heads(heads, outcomes, position) == heads.subrange(
            position as int,
            if handled < heads.len() {
                (handled + 1) as int
            } else {
                handled as int
            },
        ),
        serial_used_entries(heads, event_idx, outcomes, position) == Seq::new(
            (handled - position) as nat,
            |i: int| (heads[position + i], outcomes[position + i].handled->Ok_0),
        ),
    decreases heads.len() - position,
{
    let served = heads.subrange(
        position as int,
        if handled < heads.len() {
            (handled + 1) as int
        } else {
            handled as int
        },
    );
    let used = Seq::new(
        (handled - position) as nat,
        |i: int| (heads[position + i], outcomes[position + i].handled->Ok_0),
    );
    if position < handled {
        assert(crate::chain::failure(outcomes[position as int]) is None);
        crate::chain::law_handled_chain_is_used_once(
            heads[position as int],
            event_idx,
            outcomes[position as int],
            7,
        );
        lemma_serial_from(heads, event_idx, outcomes, position + 1, handled);
    } else if position < heads.len() {
        crate::chain::law_failed_chain_is_not_returned(
            heads[position as int],
            event_idx,
            outcomes[position as int],
            7,
        );
    }
    assert(served_heads(heads, outcomes, position) =~= served);
    assert(serial_used_entries(heads, event_idx, outcomes, position) =~= used);
}

/// A queue that is processed serially serves each chain that was collected exactly once, in the
/// order of the queue, and then reports whether there was any, as long as every request is
/// handled.
pub proof fn law_serial_serves_every_chain_in_order(
    heads: Seq<u16>,
    outcomes: Seq<ChainOutcomes>,
)
    requires
        heads.len() <= usize::MAX,
        outcomes.len() == heads.len(),
        forall|i: int|
            0 <= i < outcomes.len() ==> crate::chain::failure(#[trigger] outcomes[i]) is None,
    ensures
        served_heads(heads, outcomes, 0) == heads,
        serial_action(heads.len(), heads.len()) == SerialAction::Finished(Ok(heads.len() > 0)),
        forall|position: nat|
            position < heads.len() ==> !(#[trigger] serial_action(heads.len(), position)
                is Finished),
{
    lemma_serial_from(heads, false, outcomes, 0, heads.len());
    assert(heads.subrange(0, heads.len() as int) =~= heads);
}

/// Each chain of a queue that is processed serially is put into the used ring exactly once, with
/// the number of bytes that were written to it, in the order of the queue, as long as every
/// request is handled.
pub proof fn law_serial_returns_every_chain_in_order(
    heads: Seq<u16>,
    event_idx: bool,
    outcomes: Seq<ChainOutcomes>,
)
    requires
        heads.len() <= usize::MAX,
        outcomes.len() == heads.len(),
        forall|i: int|
            0 <= i < outcomes.len() ==> crate::chain::failure(#[trigger] outcomes[i]) is None,
    ensures
        serial_used_entries(heads, event_idx, outcomes, 0) == Seq::new(
            heads.len(),
            |i: int| (heads[i], outcomes[i].handled->Ok_0),
        ),
{
    lemma_serial_from(heads, event_idx, outcomes, 0, heads.len());
    assert(serial_used_entries(heads, event_idx, outcomes, 0) =~= Seq::new(
        heads.len(),
        |i: int| (heads[i], outcomes[i].handled->Ok_0),
    ));
}

/// Where a request of a queue that is processed serially fails, the chains before it have been
/// returned, its own chain is not, and no chain after it is served.
pub proof fn law_serial_stops_at_a_failure(
    heads: Seq<u16>,
    event_idx: bool,
    outcomes: Seq<ChainOutcomes>,
    failed: nat,
)
    requires
        failed < heads.len() <= usize::MAX,
        outcomes.len() == heads.len(),
        forall|i: int| 0 <= i < failed ==> crate::chain::failure(#[trigger] outcomes[i]) is None,
        crate::chain::failure(outcomes[failed as int]) is Some,
    ensures
        served_heads(heads, outcomes, 0) == heads.take((failed + 1) as int),
        serial_used_entries(heads, event_idx, outcomes, 0) == Seq::new(
            failed,
            |i: int| (heads[i], outcomes[i].handled->Ok_0),
        ),
{
    lemma_serial_from(heads, event_idx, outcomes, 0, failed);
    assert(heads.subrange(0, (failed + 1) as int) =~= heads.take((failed + 1) as int));
    assert(serial_used_entries(heads, event_idx, outcomes, 0) =~= Seq::new(
        failed,
        |i: int| (heads[i], outcomes[i].handled->Ok_0),
    ));
}

/// What came of a look at the queue for the next chain.
#[derive(Clone, Copy, Debug)]
pub enum NextChain {
    /// The queue could not be iterated.
    Failed,
    /// There is a chain, with this head.
    Available {
        /// The index of the head of the chain.
        head_index: u16,
    },
    /// There is no chain on the queue.
    Empty,
}

/// What has to be done next for a queue whose chains are handed to a thread pool.
#[derive(Debug)]
pub enum PoolAction {
    /// Look at the queue for the next chain.
    FetchChain,
    /// Let a thread of the pool serve the chain that was fetched.
    SpawnWorker {
        /// The index of the head of the chain.
        head_index: u16,
    },
    /// The queue has been processed. `Ok` holds whether there was any chain on it.
    Finished(Result<bool, Error>),
}

/// The processing of a queue whose chains are handed to a thread pool.
#[derive(Debug)]
pub struct PoolRun {
    /// Whether EVENT_IDX is in use on the queue.
    pub event_idx: bool,
    /// Whether any chain was fetched.
    pub used_any: bool,
    /// What has to be done next.
    pub action: PoolAction,
}

impl PoolRun {
    /// The run after a look at the queue.
    pub open spec fn after_fetch(self, next: NextChain) -> Self {
        match next {
            NextChain::Failed => PoolRun {
                action: PoolAction::Finished(Err(Error::IterateQueue)),
                ..self
            },
            NextChain::Available { head_index } => PoolRun {
                used_any: true,
                action: PoolAction::SpawnWorker { head_index },
                ..self
            },
            NextChain::Empty => PoolRun {
                action: PoolAction::Finished(Ok(self.used_any)),
                ..self
            },
        }
    }

    /// The run after a thread of the pool was given the chain.
    pub open spec fn after_spawn(self) -> Self {
        PoolRun { action: PoolAction::FetchChain, ..self }
    }

    /// The service of the chain that a thread of the pool is to be given.
    pub open spec fn worker_of(self) -> ChainRun
        recommends
            self.action is SpawnWorker,
    {
        ChainRun {
            head_index: self.action->head_index,
            event_idx: self.event_idx,
            action: ChainAction::CreateReader,
        }
    }

    /// The run after it found a chain with this head, if it looks for one, and handed it out.
    pub open spec fn after_chain(self, head_index: u16) -> Self {
        if self.action is FetchChain {
            self.after_fetch(NextChain::Available { head_index }).after_spawn()
        } else {
            self
        }
    }

    /// The run after it found a chain for each of these heads, and handed them out.
    pub open spec fn after_chains(self, heads: Seq<u16>) -> Self
        decreases heads.len(),
    {
        if heads.len() == 0 {
            self
        } else {
            self.after_chains(heads.drop_last()).after_chain(heads.last())
        }
    }

    /// What the threads of the pool are given if the run finds a chain for each of these heads.
    pub open spec fn workers(self, heads: Seq<u16>) -> Seq<ChainRun>
        decreases heads.len(),
    {
        if heads.len() == 0 {
            Seq::empty()
        } else {
            let earlier = self.workers(heads.drop_last());
            let reached = self.after_chains(heads.drop_last());
            if reached.action is FetchChain {
                earlier.push(
                    reached.after_fetch(
                        NextChain::Available { head_index: heads.last() },
                    ).worker_of(),
                )
            } else {
                earlier
            }
        }
    }

    /// Whether `used` can be what the threads of the pool have put into the used ring in the end,
    /// if the run finds a chain for each of these heads, and the actions for each chain come out
    /// as `outcomes` says. The threads finish in any order. A request that fails ends the process,
    /// and then it is open which of the other chains were returned by that time.
    pub open spec fn can_use(
        self,
        heads: Seq<u16>,
        outcomes: Seq<ChainOutcomes>,
        used: Multiset<(u16, u32)>,
    ) -> bool {
        let entries = worker_entries(self.workers(heads), outcomes).to_multiset();
        &&& used.subset_of(entries)
        &&& (forall|i: int|
            0 <= i < outcomes.len() ==> crate::chain::failure(#[trigger] outcomes[i]) is None)
            ==> used == entries
    }

    /// The processing of a queue from its start. Guest memory has to be configured for that.
    pub open spec fn start_of(memory_configured: bool, event_idx: bool) -> Self {
        PoolRun {
            event_idx,
            used_any: false,
            action: if memory_configured {
                PoolAction::FetchChain
            } else {
                PoolAction::Finished(Err(Error::NoMemoryConfigured))
            },
        }
    }

    /// Start to process a queue.
    pub fn start(memory_configured: bool, event_idx: bool) -> (run: Self)
        ensures
            run.event_idx == event_idx,
            run.action is FetchChain <==> memory_configured,
            run == Self::start_of(memory_configured, event_idx),
    {
        let action = if memory_configured {
            PoolAction::FetchChain
        } else {
            PoolAction::Finished(Err(Error::NoMemoryConfigured))
        };
        PoolRun { event_idx, used_any: false, action }
    }

    /// The queue was looked at for the next chain.
    pub fn chain_fetched(self, next: NextChain) -> (run: Self)
        requires
            self.action is FetchChain,
        ensures
            run.event_idx == self.event_idx,
            run.used_any == (self.used_any || next is Available),
            run == self.after_fetch(next),
    {
        match next {
            NextChain::Failed => PoolRun {
                action: PoolAction::Finished(Err(Error::IterateQueue)),
                ..self
            },
            NextChain::Available { head_index } => PoolRun {
                event_idx: self.event_idx,
                used_any: true,
                action: PoolAction::SpawnWorker { head_index },
            },
            NextChain::Empty => PoolRun {
                action: PoolAction::Finished(Ok(self.used_any)),
                ..self
            },
        }
    }

    /// The service of the chain that a thread of the pool is to be given.
    pub fn worker(&self) -> (chain: ChainRun)
        requires
            self.action is SpawnWorker,
        ensures
            chain.head_index == self.action->head_index,
            chain.event_idx == self.event_idx,
            chain == self.worker_of(),
    {
        match self.action {
            PoolAction::SpawnWorker { head_index } => ChainRun::process_message(
                head_index,
                self.event_idx,
            ),
            _ => ChainRun::process_message(0, self.event_idx),
        }
    }

    /// A thread of the pool was given the chain.
    pub fn worker_spawned(self) -> (run: Self)
        requires
            self.action is SpawnWorker,
        ensures
            run.event_idx == self.event_idx,
            run.used_any == self.used_any,
            run.action is FetchChain,
            run == self.after_spawn(),
    {
        PoolRun { action: PoolAction::FetchChain, ..self }
    }
}

/// What these threads put into the used ring if none of them is stopped, where the actions of the
/// threads come out as `outcomes` says: the entries of the first thread, then those of the second,
/// and so on.
pub open spec fn worker_entries(workers: Seq<ChainRun>, outcomes: Seq<ChainOutcomes>) -> Seq<
    (u16, u32),
>
    decreases workers.len(),
{
    if workers.len() == 0 {
        Seq::empty()
    } else {
        let worker = workers.last();
        worker_entries(workers.drop_last(), outcomes) + crate::chain::used_of(
            worker.runs(outcomes[workers.len() - 1], 7),
        )
    }
}

/// What the threads put into the used ring does not depend on outcomes beyond theirs.
proof fn lemma_worker_entries_of_prefix(
    workers: Seq<ChainRun>,
    outcomes: Seq<ChainOutcomes>,
    count: nat,
)
    requires
        workers.len() <= count <= outcomes.len(),
    ensures
        worker_entries(workers, outcomes.take(count as int)) == worker_entries(workers, outcomes),
    decreases workers.len(),
{
    if workers.len() > 0 {
        lemma_worker_entries_of_prefix(workers.drop_last(), outcomes, count);
    }
}

/// The threads are given the chains one by one, and those whose requests are handled put them into
/// the used ring.
proof fn lemma_pool_workers(event_idx: bool, heads: Seq<u16>, outcomes: Seq<ChainOutcomes>)
    requires
        outcomes.len() == heads.len(),
    ensures
        PoolRun::start_of(true, event_idx).workers(heads) == Seq::new(
            heads.len(),
            |i: int|
                ChainRun {
                    head_index: heads[i],
                    event_idx,
                    action: ChainAction::CreateReader,
                },
        ),
        (forall|i: int|
            0 <= i < outcomes.len() ==> crate::chain::failure(#[trigger] outcomes[i]) is None)
            ==> worker_entries(PoolRun::start_of(true, event_idx).workers(heads), outcomes)
            == Seq::new(heads.len(), |i: int| (heads[i], outcomes[i].handled->Ok_0)),
    decreases heads.len(),
{
    let start = PoolRun::start_of(true, event_idx);
    let workers = start.workers(heads);
    if heads.len() > 0 {
        let earlier = start.workers(heads.drop_last());
        lemma_pool_workers(event_idx, heads.drop_last(), outcomes.drop_last());
        law_pool_fetches_until_empty(event_idx, heads.drop_last());
        let worker = ChainRun {
            head_index: heads.last(),
            event_idx,
            action: ChainAction::CreateReader,
        };
        assert(workers == earlier.push(worker));
        assert(workers.drop_last() =~= earlier);
        if forall|i: int|
            0 <= i < outcomes.len() ==> crate::chain::failure(#[trigger] outcomes[i]) is None {
            assert(crate::chain::failure(outcomes[outcomes.len() - 1]) is None);
            crate::chain::law_handled_chain_is_used_once(
                heads.last(),
                event_idx,
                outcomes.last(),
                7,
            );
            assert(outcomes.drop_last() =~= outcomes.take(outcomes.len() - 1));
            lemma_worker_entries_of_prefix(earlier, outcomes, (outcomes.len() - 1) as nat);
            assert(worker_entries(workers, outcomes) =~= Seq::new(
                heads.len(),
                |i: int| (heads[i], outcomes[i].handled->Ok_0),
            ));
        }
    }
    assert(workers =~= Seq::new(
        heads.len(),
        |i: int|
            ChainRun { head_index: heads[i], event_idx, action: ChainAction::CreateReader },
    ));
    assert(heads.len() == 0 ==> worker_entries(workers, outcomes) =~= Seq::new(
        heads.len(),
        |i: int| (heads[i], outcomes[i].handled->Ok_0),
    ));
}

/// Each chain that is found on a queue with a thread pool is handed to a thread exactly once, in
/// the order of the queue. As long as every request is handled, each chain is put into the used
/// ring exactly once, with the number of bytes that were written to it; in which order is open.
pub proof fn law_pool_returns_every_chain(
    event_idx: bool,
    heads: Seq<u16>,
    outcomes: Seq<ChainOutcomes>,
    used: Multiset<(u16, u32)>,
)
    requires
        outcomes.len() == heads.len(),
        forall|i: int|
            0 <= i < outcomes.len() ==> crate::chain::failure(#[trigger] outcomes[i]) is None,
    ensures
        PoolRun::start_of(true, event_idx).workers(heads) == Seq::new(
            heads.len(),
            |i: int|
                ChainRun {
                    head_index: heads[i],
                    event_idx,
                    action: ChainAction::CreateReader,
                },
        ),
        worker_entries(PoolRun::start_of(true, event_idx).workers(heads), outcomes) == Seq::new(
            heads.len(),
            |i: int| (heads[i], outcomes[i].handled->Ok_0),
        ),
        PoolRun::start_of(true, event_idx).can_use(heads, outcomes, used) <==> used == Seq::new(
            heads.len(),
            |i: int| (heads[i], outcomes[i].handled->Ok_0),
        ).to_multiset(),
{
    lemma_pool_workers(event_idx, heads, outcomes);
}

/// What the threads put into the used ring comes from requests that were handled.
proof fn lemma_worker_entry_is_handled(
    event_idx: bool,
    heads: Seq<u16>,
    outcomes: Seq<ChainOutcomes>,
    entry: (u16, u32),
) -> (i: int)
    requires
        heads.len() <= outcomes.len(),
        worker_entries(
            PoolRun::start_of(true, event_idx).workers(heads),
            outcomes,
        ).contains(entry),
    ensures
        0 <= i < heads.len(),
        crate::chain::failure(outcomes[i]) is None,
        entry == (heads[i], outcomes[i].handled->Ok_0),
    decreases heads.len(),
{
    let workers = PoolRun::start_of(true, event_idx).workers(heads);
    lemma_pool_workers(event_idx, heads, outcomes.take(heads.len() as int));
    let last = heads.len() - 1;
    let earlier = PoolRun::start_of(true, event_idx).workers(heads.drop_last());
    lemma_pool_workers(event_idx, heads.drop_last(), outcomes.take(last));
    assert(workers.drop_last() =~= earlier);
    if worker_entries(earlier, outcomes).contains(entry) {
        lemma_worker_entry_is_handled(event_idx, heads.drop_last(), outcomes, entry)
    } else {
        if crate::chain::failure(outcomes[last]) is None {
            crate::chain::law_handled_chain_is_used_once(
                heads[last],
                event_idx,
                outcomes[last],
                7,
            );
        } else {
            crate::chain::law_failed_chain_is_not_returned(
                heads[last],
                event_idx,
                outcomes[last],
                7,
            );
        }
        last
    }
}

/// Whatever comes of the requests, the threads of the pool put nothing into the used ring but
/// chains that were found on the queue and whose requests were handled.
pub proof fn law_pool_returns_only_handled_chains(
    event_idx: bool,
    heads: Seq<u16>,
    outcomes: Seq<ChainOutcomes>,
    used: Multiset<(u16, u32)>,
    entry: (u16, u32),
)
    requires
        outcomes.len() == heads.len(),
        PoolRun::start_of(true, event_idx).can_use(heads, outcomes, used),
        used.contains(entry),
    ensures
        exists|i: int|
            0 <= i < heads.len() && crate::chain::failure(#[trigger] outcomes[i]) is None && entry
                == (heads[i], outcomes[i].handled->Ok_0),
{
    let entries = worker_entries(PoolRun::start_of(true, event_idx).workers(heads), outcomes);
    entries.to_multiset_ensures();
    assert(entries.to_multiset().count(entry) >= used.count(entry));
    let i: int = lemma_worker_entry_is_handled(event_idx, heads, outcomes, entry);
    assert(crate::chain::failure(outcomes[i]) is None);
}

/// A queue whose chains are handed to a thread pool is looked at again after each chain. Each
/// chain that is there is handed to a thread. Once the queue is empty, it is reported whether any
/// chain was fetched; if it cannot be iterated, that is reported, whatever was fetched before.
pub proof fn law_pool_fetches_until_empty(event_idx: bool, heads: Seq<u16>)
    ensures
        ({
            let start = PoolRun::start_of(true, event_idx);
            let reached = start.after_chains(heads);
            &&& reached.action is FetchChain
            &&& reached.event_idx == event_idx
            &&& forall|head_index: u16|
                (#[trigger] reached.after_fetch(NextChain::Available { head_index })).action
                    == (PoolAction::SpawnWorker { head_index })
            &&& reached.after_fetch(NextChain::Empty).action == PoolAction::Finished(
                Ok(heads.len() > 0),
            )
            &&& reached.after_fetch(NextChain::Failed).action == PoolAction::Finished(
                Err(Error::IterateQueue),
            )
        }),
    decreases heads.len(),
{
    if heads.len() > 0 {
        law_pool_fetches_until_empty(event_idx, heads.drop_last());
    }
}

/// Of the chains that were collected, the one at each position is served in its turn: while there
/// are some left the next one is ahead, and the queue has been processed once there is none. Then
/// it is reported whether there was any.
pub proof fn law_serial_serves_the_next_position(chains: nat, position: nat)
    requires
        chains <= usize::MAX,
    ensures
        position < chains ==> (serial_action(chains, position) matches SerialAction::ServeChain {
            position: ahead,
        } && ahead == position),
        position >= chains ==> serial_action(chains, position) == SerialAction::Finished(
            Ok(chains != 0),
        ),
{
}

/// A queue is processed just if guest memory is configured, and that is reported if it is not,
/// serially and with a thread pool alike. EVENT_IDX is in use as it was asked for, and nothing has
/// been found yet.
pub proof fn law_queues_start_alike(run: SerialRun, memory_configured: bool, event_idx: bool)
    requires
        run.is_start_of(memory_configured, event_idx),
    ensures
        run.event_idx == event_idx,
        run.heads@.len() == 0,
        memory_configured ==> run.action is CollectChains,
        !memory_configured ==> run.action == SerialAction::Finished(
            Err(Error::NoMemoryConfigured),
        ),
        ({
            let pool = PoolRun::start_of(memory_configured, event_idx);
            &&& pool.event_idx == event_idx
            &&& !pool.used_any
            &&& memory_configured ==> pool.action is FetchChain
            &&& !memory_configured ==> pool.action == PoolAction::Finished(
                Err(Error::NoMemoryConfigured),
            )
        }),
{
}

/// From wherever the processing of a queue with a thread pool is, a chain that is found is the one
/// that a thread is given, with EVENT_IDX in use as on the queue, and it counts as found from then
/// on. A look at the queue that finds none, or fails, ends the processing.
pub proof fn law_pool_hands_out_what_it_finds(run: PoolRun, head_index: u16)
    ensures
        ({
            let found = run.after_fetch(NextChain::Available { head_index });
            &&& found.action == (PoolAction::SpawnWorker { head_index })
            &&& found.event_idx == run.event_idx
            &&& found.used_any
            &&& found.worker_of().head_index == head_index
            &&& found.worker_of().event_idx == run.event_idx
            &&& found.worker_of().action is CreateReader
            &&& found.after_spawn().action is FetchChain
            &&& found.after_spawn().event_idx == run.event_idx
            &&& found.after_spawn().used_any
        }),
        ({
            let empty = run.after_fetch(NextChain::Empty);
            &&& empty.action == PoolAction::Finished(Ok(run.used_any))
            &&& empty.event_idx == run.event_idx
            &&& empty.used_any == run.used_any
        }),
        ({
            let failed = run.after_fetch(NextChain::Failed);
            &&& failed.action == PoolAction::Finished(Err(Error::IterateQueue))
            &&& failed.event_idx == run.event_idx
            &&& failed.used_any == run.used_any
        }),
        run.after_spawn().used_any == run.used_any,
        run.after_spawn().event_idx == run.event_idx,
{
}

} // verus!
