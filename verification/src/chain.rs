//! Serving one descriptor chain: the request in it is handled, and the chain is returned to the
//! guest.

use crate::error::Error;
use vstd::prelude::*;

verus! {

/// What has to be done next for a descriptor chain.
#[derive(Debug)]
pub enum ChainAction {
    /// Create a reader on the chain.
    CreateReader,
    /// Create a writer on the chain.
    CreateWriter,
    /// Let the file system server handle the request in the chain.
    HandleMessage,
    /// Put the chain into the used ring, with this number of bytes written.
    AddUsed {
        /// The number of bytes that were written to the chain.
        len: u32,
    },
    /// Ask the queue whether the guest needs a notification.
    CheckNotification,
    /// Notify the guest that there are used descriptors.
    SignalUsedQueue,
    /// The chain has been served.
    Finished,
    /// The request could not be handled. The error has to be shown, and the process has to end
    /// with exit code 1.
    Exit(Error),
}

/// The service of one descriptor chain.
#[derive(Debug)]
pub struct ChainRun {
    /// The index of the head of the chain.
    pub head_index: u16,
    /// Whether EVENT_IDX is in use on the queue.
    pub event_idx: bool,
    /// What has to be done next.
    pub action: ChainAction,
}

/// What comes of the actions for one descriptor chain.
pub struct ChainOutcomes {
    /// What comes of creating the reader.
    pub reader: Result<(), String>,
    /// What comes of creating the writer.
    pub writer: Result<(), String>,
    /// What comes of handling the request: the number of bytes written, which is one that the used
    /// ring can hold.
    pub handled: Result<u32, String>,
    /// What the queue says when it is asked whether the guest needs a notification. `None` if it
    /// cannot tell.
    pub needed: Option<bool>,
}

impl ChainRun {
    /// `self` with another action ahead.
    pub open spec fn at(self, action: ChainAction) -> Self {
        ChainRun { action, ..self }
    }

    /// Whether nothing is left to be done for the chain.
    pub open spec fn ended(self) -> bool {
        self.action is Finished || self.action is Exit
    }

    /// The run after a reader was created on the chain, or not.
    pub open spec fn after_reader(self, outcome: Result<(), String>) -> Self {
        match outcome {
            Ok(_) => self.at(ChainAction::CreateWriter),
            Err(error) => self.at(ChainAction::Exit(Error::QueueReader(error))),
        }
    }

    /// The run after a writer was created on the chain, or not.
    pub open spec fn after_writer(self, outcome: Result<(), String>) -> Self {
        match outcome {
            Ok(_) => self.at(ChainAction::HandleMessage),
            Err(error) => self.at(ChainAction::Exit(Error::QueueWriter(error))),
        }
    }

    /// The run after the file system server handled the request, or failed to.
    pub open spec fn after_message(self, outcome: Result<usize, String>) -> Self {
        match outcome {
            Ok(len) => self.at(ChainAction::AddUsed { len: len as u32 }),
            Err(error) => self.at(ChainAction::Exit(Error::ProcessQueue(error))),
        }
    }

    /// The run after the chain was put into the used ring.
    pub open spec fn after_used(self) -> Self {
        if self.event_idx {
            self.at(ChainAction::CheckNotification)
        } else {
            self.at(ChainAction::SignalUsedQueue)
        }
    }

    /// The run after the queue was asked whether the guest needs a notification.
    pub open spec fn after_check(self, needed: Option<bool>) -> Self {
        if needed == Some(false) {
            self.at(ChainAction::Finished)
        } else {
            self.at(ChainAction::SignalUsedQueue)
        }
    }

    /// The run after its next action, if the actions come out as `outcomes` says.
    pub open spec fn step(self, outcomes: ChainOutcomes) -> Self {
        match self.action {
            ChainAction::CreateReader => self.after_reader(outcomes.reader),
            ChainAction::CreateWriter => self.after_writer(outcomes.writer),
            ChainAction::HandleMessage => self.after_message(
                match outcomes.handled {
                    Ok(len) => Ok(len as usize),
                    Err(error) => Err(error),
                },
            ),
            ChainAction::AddUsed { .. } => self.after_used(),
            ChainAction::CheckNotification => self.after_check(outcomes.needed),
            ChainAction::SignalUsedQueue => self.at(ChainAction::Finished),
            ChainAction::Finished => self,
            ChainAction::Exit(_) => self,
        }
    }

    /// The actions of the run up to and with the one that ends it, `bound` of them at most.
    pub open spec fn trace(self, outcomes: ChainOutcomes, bound: nat) -> Seq<ChainAction>
        decreases bound,
    {
        if bound == 0 {
            Seq::empty()
        } else if self.ended() {
            seq![self.action]
        } else {
            seq![self.action] + self.step(outcomes).trace(outcomes, (bound - 1) as nat)
        }
    }

    /// The run itself and those after each of its actions, up to and with the one that has ended,
    /// `bound` of them at most.
    pub open spec fn runs(self, outcomes: ChainOutcomes, bound: nat) -> Seq<ChainRun>
        decreases bound,
    {
        if bound == 0 {
            Seq::empty()
        } else if self.ended() {
            seq![self]
        } else {
            seq![self] + self.step(outcomes).runs(outcomes, (bound - 1) as nat)
        }
    }

    /// Start to serve the descriptor chain with this head.
    pub fn process_message(head_index: u16, event_idx: bool) -> (run: Self)
        ensures
            run == (ChainRun { head_index, event_idx, action: ChainAction::CreateReader }),
    {
        ChainRun { head_index, event_idx, action: ChainAction::CreateReader }
    }

    /// A reader was created on the chain, or not: then `Err` holds what was reported.
    pub fn reader_created(self, outcome: Result<(), String>) -> (next: Self)
        requires
            self.action is CreateReader,
        ensures
            next.head_index == self.head_index,
            next.event_idx == self.event_idx,
            next == self.after_reader(outcome),
    {
        let action = match outcome {
            Ok(_) => ChainAction::CreateWriter,
            Err(error) => ChainAction::Exit(Error::QueueReader(error)),
        };
        ChainRun { action, ..self }
    }

    /// A writer was created on the chain, or not: then `Err` holds what was reported.
    pub fn writer_created(self, outcome: Result<(), String>) -> (next: Self)
        requires
            self.action is CreateWriter,
        ensures
            next.head_index == self.head_index,
            next.event_idx == self.event_idx,
            next == self.after_writer(outcome),
    {
        let action = match outcome {
            Ok(_) => ChainAction::HandleMessage,
            Err(error) => ChainAction::Exit(Error::QueueWriter(error)),
        };
        ChainRun { action, ..self }
    }

    /// The file system server handled the request, and `Ok` holds the number of bytes written, or
    /// failed: then `Err` holds what was reported.
    pub fn message_handled(self, outcome: Result<usize, String>) -> (next: Self)
        requires
            self.action is HandleMessage,
            outcome matches Ok(len) ==> len <= u32::MAX,
        ensures
            next.head_index == self.head_index,
            next.event_idx == self.event_idx,
            next == self.after_message(outcome),
    {
        match outcome {
            Ok(len) => self.return_descriptor(len),
            Err(error) => ChainRun {
                action: ChainAction::Exit(Error::ProcessQueue(error)),
                ..self
            },
        }
    }

    /// Start to return the chain to the guest, with `len` bytes written to it.
    fn return_descriptor(self, len: usize) -> (next: Self)
        requires
            len <= u32::MAX,
        ensures
            next == self.at(ChainAction::AddUsed { len: len as u32 }),
    {
        ChainRun { action: ChainAction::AddUsed { len: len as u32 }, ..self }
    }

    /// The chain was put into the used ring. A failure to do so is not followed up: the guest is
    /// notified all the same.
    pub fn used_added(self) -> (next: Self)
        requires
            self.action is AddUsed,
        ensures
            next.head_index == self.head_index,
            next.event_idx == self.event_idx,
            next == self.after_used(),
    {
        if self.event_idx {
            ChainRun { action: ChainAction::CheckNotification, ..self }
        } else {
            ChainRun { action: ChainAction::SignalUsedQueue, ..self }
        }
    }

    /// The queue said whether the guest needs a notification. With `None` it could not tell, and
    /// the guest is notified.
    pub fn notification_checked(self, needed: Option<bool>) -> (next: Self)
        requires
            self.action is CheckNotification,
        ensures
            next.head_index == self.head_index,
            next.event_idx == self.event_idx,
            next == self.after_check(needed),
    {
        match needed {
            Some(false) => ChainRun { action: ChainAction::Finished, ..self },
            _ => ChainRun { action: ChainAction::SignalUsedQueue, ..self },
        }
    }

    /// The guest was notified.
    pub fn used_queue_signalled(self) -> (next: Self)
        requires
            self.action is SignalUsedQueue,
        ensures
            next.head_index == self.head_index,
            next.event_idx == self.event_idx,
            next.action is Finished,
            next == self.at(ChainAction::Finished),
    {
        ChainRun { action: ChainAction::Finished, ..self }
    }
}

/// Whether the guest is notified of a chain that was put into the used ring: always without
/// EVENT_IDX, and with it unless the queue says that there is no need.
pub open spec fn notifies(event_idx: bool, needed: Option<bool>) -> bool {
    !event_idx || needed != Some(false)
}

/// The error of the first step towards a handled request that fails, if one does.
pub open spec fn failure(outcomes: ChainOutcomes) -> Option<Error> {
    match (outcomes.reader, outcomes.writer, outcomes.handled) {
        (Err(error), _, _) => Some(Error::QueueReader(error)),
        (_, Err(error), _) => Some(Error::QueueWriter(error)),
        (_, _, Err(error)) => Some(Error::ProcessQueue(error)),
        _ => None,
    }
}

/// A request that is handled has its chain put into the used ring once, with the number of bytes
/// that were written, and the guest is then notified once where [`notifies`] says so, after the
/// queue was asked where EVENT_IDX is in use. Nothing else is done for the chain.
pub proof fn law_handled_chain_is_returned(
    head_index: u16,
    event_idx: bool,
    outcomes: ChainOutcomes,
    bound: nat,
)
    requires
        failure(outcomes) is None,
        bound >= 7,
    ensures
        (ChainRun { head_index, event_idx, action: ChainAction::CreateReader }).trace(
            outcomes,
            bound,
        ) == seq![
            ChainAction::CreateReader,
            ChainAction::CreateWriter,
            ChainAction::HandleMessage,
            ChainAction::AddUsed { len: outcomes.handled->Ok_0 },
        ] + (if event_idx {
            seq![ChainAction::CheckNotification]
        } else {
            seq![]
        }) + (if notifies(event_idx, outcomes.needed) {
            seq![ChainAction::SignalUsedQueue]
        } else {
            seq![]
        }) + seq![ChainAction::Finished],
{
    reveal_with_fuel(ChainRun::trace, 8);
    let start = ChainRun { head_index, event_idx, action: ChainAction::CreateReader };
    let returned = start.step(outcomes).step(outcomes).step(outcomes);
    assert(returned.action == ChainAction::AddUsed { len: outcomes.handled->Ok_0 });
    assert(start.trace(outcomes, bound) =~= seq![
        ChainAction::CreateReader,
        ChainAction::CreateWriter,
        ChainAction::HandleMessage,
    ] + returned.trace(outcomes, (bound - 3) as nat));
}

/// What `trace`, the actions for the chain with this head, puts into the used ring: the head and
/// the number of bytes written, for each time.
pub open spec fn used_entries(head_index: u16, trace: Seq<ChainAction>) -> Seq<(u16, u32)>
    decreases trace.len(),
{
    if trace.len() == 0 {
        Seq::empty()
    } else {
        let earlier = used_entries(head_index, trace.drop_last());
        match trace.last() {
            ChainAction::AddUsed { len } => earlier.push((head_index, len)),
            _ => earlier,
        }
    }
}

/// What these runs put into the used ring: for each that has to, the head that it holds itself, and
/// the number of bytes written.
pub open spec fn used_of(runs: Seq<ChainRun>) -> Seq<(u16, u32)>
    decreases runs.len(),
{
    if runs.len() == 0 {
        Seq::empty()
    } else {
        let earlier = used_of(runs.drop_last());
        match runs.last().action {
            ChainAction::AddUsed { len } => earlier.push((runs.last().head_index, len)),
            _ => earlier,
        }
    }
}

/// Whatever comes of an action for a chain, the service stays with that chain: its head and the use
/// of EVENT_IDX are those that it had before.
pub proof fn law_every_step_stays_with_its_chain(
    run: ChainRun,
    created: Result<(), String>,
    handled: Result<usize, String>,
    needed: Option<bool>,
    action: ChainAction,
    outcomes: ChainOutcomes,
)
    ensures
        run.after_reader(created).head_index == run.head_index,
        run.after_writer(created).head_index == run.head_index,
        run.after_message(handled).head_index == run.head_index,
        run.after_used().head_index == run.head_index,
        run.after_check(needed).head_index == run.head_index,
        run.at(action).head_index == run.head_index,
        run.step(outcomes).head_index == run.head_index,
        run.after_reader(created).event_idx == run.event_idx,
        run.after_writer(created).event_idx == run.event_idx,
        run.after_message(handled).event_idx == run.event_idx,
        run.after_used().event_idx == run.event_idx,
        run.after_check(needed).event_idx == run.event_idx,
        run.at(action).event_idx == run.event_idx,
        run.step(outcomes).event_idx == run.event_idx,
{
}

/// From wherever the service of a chain is, each run that it leads to is about that chain.
pub proof fn law_service_stays_with_its_chain(
    run: ChainRun,
    outcomes: ChainOutcomes,
    bound: nat,
    i: int,
)
    requires
        0 <= i < run.runs(outcomes, bound).len(),
    ensures
        run.runs(outcomes, bound)[i].head_index == run.head_index,
        run.runs(outcomes, bound)[i].event_idx == run.event_idx,
    decreases bound,
{
    if i > 0 {
        let next = run.step(outcomes);
        assert(run.runs(outcomes, bound)[i] == next.runs(outcomes, (bound - 1) as nat)[i - 1]);
        law_service_stays_with_its_chain(next, outcomes, (bound - 1) as nat, i - 1);
    }
}

/// What is done next follows from what came of the last action, for every chain: what succeeds
/// leads on, with the number of bytes written carried over as it is, and what fails ends the
/// process with what was reported. The guest is left alone only if EVENT_IDX is in use and the
/// queue says so.
pub proof fn law_every_step_follows_its_outcome(
    run: ChainRun,
    len: usize,
    report: String,
    needed: Option<bool>,
    action: ChainAction,
)
    requires
        len <= u32::MAX,
    ensures
        run.after_reader(Ok(())).action is CreateWriter,
        run.after_reader(Err(report)).action == ChainAction::Exit(Error::QueueReader(report)),
        run.after_writer(Ok(())).action is HandleMessage,
        run.after_writer(Err(report)).action == ChainAction::Exit(Error::QueueWriter(report)),
        run.after_message(Ok(len)).action matches ChainAction::AddUsed { len: used } && used == len,
        run.after_message(Err(report)).action == ChainAction::Exit(Error::ProcessQueue(report)),
        run.after_used().action is CheckNotification <==> run.event_idx,
        run.after_used().action is SignalUsedQueue <==> !run.event_idx,
        run.after_check(needed).action is Finished <==> (needed is Some && !needed->0),
        run.after_check(needed).action is SignalUsedQueue <==> (needed is None || needed->0),
        run.at(action).action == action,
{
}

/// A request counts as failed if its chain cannot be read from, cannot be written to, or is not
/// handled, and not otherwise. The guest needs no notification just if EVENT_IDX is in use and the
/// queue says that there is no need.
pub proof fn law_failures_and_notifications(outcomes: ChainOutcomes, event_idx: bool)
    ensures
        failure(outcomes) is None <==> outcomes.reader is Ok && outcomes.writer is Ok
            && outcomes.handled is Ok,
        outcomes.reader is Err ==> failure(outcomes) == Some(
            Error::QueueReader(outcomes.reader->Err_0),
        ),
        outcomes.reader is Ok && outcomes.writer is Err ==> failure(outcomes) == Some(
            Error::QueueWriter(outcomes.writer->Err_0),
        ),
        outcomes.reader is Ok && outcomes.writer is Ok && outcomes.handled is Err ==> failure(
            outcomes,
        ) == Some(Error::ProcessQueue(outcomes.handled->Err_0)),
        notifies(event_idx, outcomes.needed) <==> !event_idx || outcomes.needed is None
            || outcomes.needed->0,
{
}

/// The actions of a service are those of its runs.
proof fn lemma_trace_of_runs(run: ChainRun, outcomes: ChainOutcomes, bound: nat)
    ensures
        run.trace(outcomes, bound).len() == run.runs(outcomes, bound).len(),
        forall|i: int|
            0 <= i < run.runs(outcomes, bound).len() ==> #[trigger] run.trace(outcomes, bound)[i]
                == run.runs(outcomes, bound)[i].action,
    decreases bound,
{
    if bound > 0 && !run.ended() {
        let next = run.step(outcomes);
        let rest = (bound - 1) as nat;
        lemma_trace_of_runs(next, outcomes, rest);
        assert forall|i: int| 0 <= i < run.runs(outcomes, bound).len() implies #[trigger] run.trace(
            outcomes,
            bound,
        )[i] == run.runs(outcomes, bound)[i].action by {
            if i > 0 {
                assert(run.trace(outcomes, bound)[i] == next.trace(outcomes, rest)[i - 1]);
                assert(run.runs(outcomes, bound)[i] == next.runs(outcomes, rest)[i - 1]);
            }
        }
    }
}

/// Runs that all hold the same head put that head into the used ring.
proof fn lemma_used_of_one_chain(head_index: u16, runs: Seq<ChainRun>, trace: Seq<ChainAction>)
    requires
        trace.len() == runs.len(),
        forall|i: int| 0 <= i < runs.len() ==> #[trigger] trace[i] == runs[i].action,
        forall|i: int| 0 <= i < runs.len() ==> (#[trigger] runs[i]).head_index == head_index,
    ensures
        used_of(runs) == used_entries(head_index, trace),
    decreases runs.len(),
{
    if runs.len() > 0 {
        assert(trace[runs.len() - 1] == runs[runs.len() - 1].action);
        lemma_used_of_one_chain(head_index, runs.drop_last(), trace.drop_last());
    }
}

/// What the runs of a service put into the used ring is what its actions do for its head.
proof fn lemma_used_of_service(run: ChainRun, outcomes: ChainOutcomes, bound: nat)
    ensures
        used_of(run.runs(outcomes, bound)) == used_entries(
            run.head_index,
            run.trace(outcomes, bound),
        ),
{
    lemma_trace_of_runs(run, outcomes, bound);
    assert forall|i: int| 0 <= i < run.runs(outcomes, bound).len() implies (#[trigger] run.runs(
        outcomes,
        bound,
    )[i]).head_index == run.head_index by {
        law_service_stays_with_its_chain(run, outcomes, bound, i);
    }
    lemma_used_of_one_chain(
        run.head_index,
        run.runs(outcomes, bound),
        run.trace(outcomes, bound),
    );
}

/// Actions that put nothing into the used ring add no entry.
proof fn lemma_used_entries_of_rest(
    head_index: u16,
    start: Seq<ChainAction>,
    rest: Seq<ChainAction>,
)
    requires
        forall|i: int| 0 <= i < rest.len() ==> !(#[trigger] rest[i] is AddUsed),
    ensures
        used_entries(head_index, start + rest) == used_entries(head_index, start),
    decreases rest.len(),
{
    if rest.len() == 0 {
        assert(start + rest =~= start);
    } else {
        assert((start + rest).drop_last() =~= start + rest.drop_last());
        lemma_used_entries_of_rest(head_index, start, rest.drop_last());
    }
}

/// A request that is handled puts its chain into the used ring exactly once: the head that the run
/// holds when it does so is the one that the service was started with.
pub proof fn law_handled_chain_is_used_once(
    head_index: u16,
    event_idx: bool,
    outcomes: ChainOutcomes,
    bound: nat,
)
    requires
        failure(outcomes) is None,
        bound >= 7,
    ensures
        used_entries(
            head_index,
            (ChainRun { head_index, event_idx, action: ChainAction::CreateReader }).trace(
                outcomes,
                bound,
            ),
        ) == seq![(head_index, outcomes.handled->Ok_0)],
        used_of(
            (ChainRun { head_index, event_idx, action: ChainAction::CreateReader }).runs(
                outcomes,
                bound,
            ),
        ) == seq![(head_index, outcomes.handled->Ok_0)],
{
    lemma_used_of_service(
        ChainRun { head_index, event_idx, action: ChainAction::CreateReader },
        outcomes,
        bound,
    );
    law_handled_chain_is_returned(head_index, event_idx, outcomes, bound);
    let len = outcomes.handled->Ok_0;
    let before = seq![
        ChainAction::CreateReader,
        ChainAction::CreateWriter,
        ChainAction::HandleMessage,
    ];
    let checked = if event_idx {
        seq![ChainAction::CheckNotification]
    } else {
        seq![]
    };
    let signalled = if notifies(event_idx, outcomes.needed) {
        seq![ChainAction::SignalUsedQueue]
    } else {
        seq![]
    };
    let rest = checked + signalled + seq![ChainAction::Finished];
    let used = before.push(ChainAction::AddUsed { len });
    lemma_used_entries_of_rest(head_index, Seq::empty(), before);
    assert(Seq::empty() + before =~= before);
    assert(used.drop_last() =~= before);
    assert(used_entries(head_index, used) =~= seq![(head_index, len)]);
    lemma_used_entries_of_rest(head_index, used, rest);
    assert((ChainRun { head_index, event_idx, action: ChainAction::CreateReader }).trace(
        outcomes,
        bound,
    ) =~= used + rest);
}

/// A request that cannot be read, written to or handled ends the process with the error of the
/// step that failed, and its chain is not returned to the guest.
pub proof fn law_failed_chain_is_not_returned(
    head_index: u16,
    event_idx: bool,
    outcomes: ChainOutcomes,
    bound: nat,
)
    requires
        failure(outcomes) is Some,
        bound >= 7,
    ensures
        ({
            let trace = (ChainRun {
                head_index,
                event_idx,
                action: ChainAction::CreateReader,
            }).trace(outcomes, bound);
            &&& trace.last() == ChainAction::Exit(failure(outcomes)->0)
            &&& forall|i: int| 0 <= i < trace.len() ==> !(#[trigger] trace[i] is AddUsed)
            &&& used_entries(head_index, trace) == Seq::<(u16, u32)>::empty()
        }),
        used_of(
            (ChainRun { head_index, event_idx, action: ChainAction::CreateReader }).runs(
                outcomes,
                bound,
            ),
        ) == Seq::<(u16, u32)>::empty(),
{
    lemma_used_of_service(
        ChainRun { head_index, event_idx, action: ChainAction::CreateReader },
        outcomes,
        bound,
    );
    reveal_with_fuel(ChainRun::trace, 8);
    let trace = (ChainRun { head_index, event_idx, action: ChainAction::CreateReader }).trace(
        outcomes,
        bound,
    );
    assert forall|i: int| 0 <= i < trace.len() implies !(#[trigger] trace[i] is AddUsed) by {
    }
    lemma_used_entries_of_rest(head_index, Seq::empty(), trace);
    assert(Seq::empty() + trace =~= trace);
}

} // verus!
