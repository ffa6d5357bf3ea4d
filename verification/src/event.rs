//! Handling a queue event: how often the queue is processed, and what is reported.

use crate::error::Error;
use crate::error::IoError;
use vstd::prelude::*;

verus! {

/// The number of queues. In addition to the request queues there is one high-prio queue. Since
/// VIRTIO_FS_F_NOTIFICATION is not advertised there is no notification queue.
pub const NUM_QUEUES: usize = 2;

/// The guest queued an available buffer for the high priority queue.
pub const HIPRIO_QUEUE_EVENT: u16 = 0;

/// The guest queued an available buffer for the request queue.
pub const REQ_QUEUE_EVENT: u16 = 1;

/// What has to be done next for a queue event.
#[derive(Debug)]
pub enum EventAction {
    /// Disable notifications of the queue.
    DisableNotification,
    /// Process the queue.
    ProcessQueue,
    /// Enable notifications of the queue.
    EnableNotification,
    /// The event has been handled.
    Finished(Result<(), IoError>),
}

/// The handling of a queue event.
#[derive(Debug)]
pub struct EventRun {
    /// The index of the queue.
    pub queue: usize,
    /// Whether the chains of the queue are handed to a thread pool.
    pub pooled: bool,
    /// Whether EVENT_IDX is in use on the queue.
    pub event_idx: bool,
    /// What has to be done next.
    pub action: EventAction,
}

/// What comes of the actions of one round on a queue with EVENT_IDX.
pub struct Round {
    /// What comes of processing the queue.
    pub processed: Result<bool, Error>,
    /// Whether the queue has new requests when its notifications are enabled.
    pub more: bool,
}

impl EventRun {
    /// `self` with another action ahead.
    pub open spec fn at(self, action: EventAction) -> Self {
        EventRun { action, ..self }
    }

    /// The handling of an event of this queue from its start.
    pub open spec fn start_of(queue: usize, pooled: bool, event_idx: bool) -> Self {
        EventRun {
            queue,
            pooled,
            event_idx,
            action: if event_idx {
                EventAction::DisableNotification
            } else {
                EventAction::ProcessQueue
            },
        }
    }

    /// The run after notifications of the queue were disabled.
    pub open spec fn after_disabling(self) -> Self {
        self.at(EventAction::ProcessQueue)
    }

    /// The run after the queue was processed.
    pub open spec fn after_processing(self, outcome: Result<bool, Error>) -> Self {
        if self.event_idx {
            self.at(EventAction::EnableNotification)
        } else {
            match outcome {
                Ok(_) => self.at(EventAction::Finished(Ok(()))),
                Err(error) => self.at(EventAction::Finished(Err(IoError::Backend(error)))),
            }
        }
    }

    /// The run after notifications of the queue were enabled.
    pub open spec fn after_enabling(self, more: bool) -> Self {
        if more {
            self.at(EventAction::DisableNotification)
        } else {
            self.at(EventAction::Finished(Ok(())))
        }
    }

    /// The run after one round on a queue with EVENT_IDX, if one is ahead.
    pub open spec fn after_round(self, round: Round) -> Self {
        if self.event_idx && self.action is DisableNotification {
            self.after_disabling().after_processing(round.processed).after_enabling(round.more)
        } else {
            self
        }
    }

    /// The run after these rounds on a queue with EVENT_IDX.
    pub open spec fn after_rounds(self, rounds: Seq<Round>) -> Self
        decreases rounds.len(),
    {
        if rounds.len() == 0 {
            self
        } else {
            self.after_rounds(rounds.drop_last()).after_round(rounds.last())
        }
    }

    /// The queue that a device event is about.
    pub open spec fn queue_of(device_event: u16) -> Option<usize> {
        if device_event == HIPRIO_QUEUE_EVENT {
            Some(0)
        } else if device_event == REQ_QUEUE_EVENT {
            Some(1)
        } else {
            None
        }
    }

    /// The handling of a device event from its start. Only the events of the queues are known.
    pub open spec fn start_for(device_event: u16, pooled: bool, event_idx: bool) -> Result<
        Self,
        IoError,
    > {
        match Self::queue_of(device_event) {
            Some(queue) => Ok(Self::start_of(queue, pooled, event_idx)),
            None => Err(IoError::Backend(Error::HandleEventUnknownEvent)),
        }
    }

    /// Start to handle a device event.
    pub fn start(device_event: u16, pooled: bool, event_idx: bool) -> (run: Result<Self, IoError>)
        ensures
            run is Ok <==> device_event < NUM_QUEUES,
            run matches Ok(run) ==> run.queue == device_event && run.pooled == pooled
                && run.event_idx == event_idx,
            run == Self::start_for(device_event, pooled, event_idx),
    {
        let queue: usize = match device_event {
            HIPRIO_QUEUE_EVENT => 0,
            REQ_QUEUE_EVENT => 1,
            _ => {
                return Err(IoError::from(Error::HandleEventUnknownEvent));
            },
        };
        // The queue looks at the available index only once when it is iterated. To support
        // EVENT_IDX properly, it has to be processed until it stops finding new requests.
        // Without EVENT_IDX, once is enough.
        let action = if event_idx {
            EventAction::DisableNotification
        } else {
            EventAction::ProcessQueue
        };
        Ok(EventRun { queue, pooled, event_idx, action })
    }

    /// Notifications of the queue were disabled.
    pub fn notification_disabled(self) -> (next: Self)
        requires
            self.action is DisableNotification,
        ensures
            next.queue == self.queue,
            next.pooled == self.pooled,
            next.event_idx == self.event_idx,
            next == self.after_disabling(),
    {
        EventRun { action: EventAction::ProcessQueue, ..self }
    }

    /// The queue was processed. With EVENT_IDX an error is not reported: it is taken to be
    /// transient.
    pub fn queue_processed(self, outcome: Result<bool, Error>) -> (next: Self)
        requires
            self.action is ProcessQueue,
        ensures
            next.queue == self.queue,
            next.pooled == self.pooled,
            next.event_idx == self.event_idx,
            next == self.after_processing(outcome),
    {
        if self.event_idx {
            EventRun { action: EventAction::EnableNotification, ..self }
        } else {
            let action = match outcome {
                Ok(_) => EventAction::Finished(Ok(())),
                Err(error) => EventAction::Finished(Err(IoError::from(error))),
            };
            EventRun { action, ..self }
        }
    }

    /// Notifications of the queue were enabled, and the queue has new requests or not.
    pub fn notification_enabled(self, more: bool) -> (next: Self)
        requires
            self.action is EnableNotification,
        ensures
            next.queue == self.queue,
            next.pooled == self.pooled,
            next.event_idx == self.event_idx,
            next == self.after_enabling(more),
    {
        if more {
            EventRun { action: EventAction::DisableNotification, ..self }
        } else {
            EventRun { action: EventAction::Finished(Ok(())), ..self }
        }
    }
}

/// Every event that is handled is about a queue that the device has.
pub proof fn law_event_queue_exists(device_event: u16)
    ensures
        EventRun::queue_of(device_event) matches Some(queue) ==> queue < NUM_QUEUES,
        NUM_QUEUES == crate::config::REQUEST_QUEUES + 1,
{
}

/// With EVENT_IDX the queue is processed, with its notifications disabled, until no new request
/// is found when they are enabled again. The event is then reported as handled, whatever errors
/// came up in between.
pub proof fn law_event_idx_processes_until_idle(queue: usize, pooled: bool, rounds: Seq<Round>)
    requires
        forall|i: int| 0 <= i < rounds.len() ==> (#[trigger] rounds[i]).more,
    ensures
        ({
            let start = EventRun::start_of(queue, pooled, true);
            &&& start.action is DisableNotification
            &&& start.after_disabling().action is ProcessQueue
            &&& forall|outcome: Result<bool, Error>|
                (#[trigger] start.after_disabling().after_processing(outcome)).action
                    is EnableNotification
        }),
        EventRun::start_of(queue, pooled, true).after_rounds(rounds) == EventRun::start_of(
            queue,
            pooled,
            true,
        ),
        forall|last: Round|
            !last.more ==> (#[trigger] EventRun::start_of(queue, pooled, true).after_rounds(
                rounds,
            ).after_round(last)).action == EventAction::Finished(Ok(())),
    decreases rounds.len(),
{
    if rounds.len() > 0 {
        law_event_idx_processes_until_idle(queue, pooled, rounds.drop_last());
    }
}

/// Without EVENT_IDX the queue is processed once, its notifications are left alone, and what
/// came of it is reported.
pub proof fn law_without_event_idx_processes_once(
    queue: usize,
    pooled: bool,
    outcome: Result<bool, Error>,
)
    ensures
        ({
            let start = EventRun::start_of(queue, pooled, false);
            &&& start.action is ProcessQueue
            &&& start.after_processing(outcome).action == EventAction::Finished(
                match outcome {
                    Ok(_) => Ok(()),
                    Err(error) => Err(IoError::Backend(error)),
                },
            )
        }),
{
}

/// The event of the high priority queue (0) has queue 0 processed and that of the request queue (1)
/// has queue 1 processed, with a thread pool or without, and with EVENT_IDX or without, as it was
/// asked for. No other event is known. With EVENT_IDX, and only then, notifications are disabled
/// first.
pub proof fn law_event_is_about_its_own_queue(device_event: u16, pooled: bool, event_idx: bool)
    ensures
        HIPRIO_QUEUE_EVENT == 0 && REQ_QUEUE_EVENT == 1 && NUM_QUEUES == 2,
        match EventRun::start_for(device_event, pooled, event_idx) {
            Ok(run) => {
                &&& device_event == 0 || device_event == 1
                &&& run.queue == device_event
                &&& run.pooled == pooled
                &&& run.event_idx == event_idx
                &&& run.action is DisableNotification <==> event_idx
                &&& run.action is ProcessQueue <==> !event_idx
            },
            Err(error) => {
                &&& device_event > 1
                &&& error == IoError::Backend(Error::HandleEventUnknownEvent)
            },
        },
{
}

/// How an event is handled does not change which queue it is about: two events that both start have
/// the same queue just if they are the same event, whatever is asked for besides.
pub proof fn law_different_events_are_about_different_queues(
    first: u16,
    second: u16,
    pooled: (bool, bool),
    event_idx: (bool, bool),
)
    requires
        EventRun::start_for(first, pooled.0, event_idx.0) is Ok,
        EventRun::start_for(second, pooled.1, event_idx.1) is Ok,
    ensures
        EventRun::start_for(first, pooled.0, event_idx.0)->Ok_0.queue == EventRun::start_for(
            second,
            pooled.1,
            event_idx.1,
        )->Ok_0.queue <==> first == second,
{
}

/// Whatever comes of an action for an event, the handling stays with its queue, and with how that
/// is processed.
pub proof fn law_every_step_stays_with_its_queue(
    run: EventRun,
    outcome: Result<bool, Error>,
    more: bool,
    action: EventAction,
    queue: usize,
    pooled: bool,
    event_idx: bool,
)
    ensures
        run.after_disabling().queue == run.queue,
        run.after_processing(outcome).queue == run.queue,
        run.after_enabling(more).queue == run.queue,
        run.at(action).queue == run.queue,
        run.after_disabling().pooled == run.pooled,
        run.after_processing(outcome).pooled == run.pooled,
        run.after_enabling(more).pooled == run.pooled,
        run.at(action).pooled == run.pooled,
        run.after_disabling().event_idx == run.event_idx,
        run.after_processing(outcome).event_idx == run.event_idx,
        run.after_enabling(more).event_idx == run.event_idx,
        run.at(action).event_idx == run.event_idx,
        EventRun::start_of(queue, pooled, event_idx).queue == queue,
        EventRun::start_of(queue, pooled, event_idx).pooled == pooled,
        EventRun::start_of(queue, pooled, event_idx).event_idx == event_idx,
{
}

/// What is done next for an event follows from what came of the last action, for every queue. With
/// EVENT_IDX, notifications are enabled after the queue was processed, whatever came of that, and
/// the queue is processed anew just if it has new requests then. Without it, the event has been
/// handled, and an error is reported.
pub proof fn law_every_step_of_an_event_follows_its_outcome(
    run: EventRun,
    outcome: Result<bool, Error>,
    more: bool,
    action: EventAction,
)
    ensures
        run.after_disabling().action is ProcessQueue,
        run.after_processing(outcome).action is EnableNotification <==> run.event_idx,
        !run.event_idx && outcome is Ok ==> run.after_processing(outcome).action
            == EventAction::Finished(Ok(())),
        !run.event_idx && outcome is Err ==> run.after_processing(outcome).action
            == EventAction::Finished(Err(IoError::Backend(outcome->Err_0))),
        more ==> run.after_enabling(more).action is DisableNotification,
        !more ==> run.after_enabling(more).action == EventAction::Finished(Ok(())),
        run.at(action).action == action,
{
}

} // verus!
