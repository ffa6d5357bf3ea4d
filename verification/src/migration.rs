//! Migration: preparing for it, and transferring the state of the file system.

use crate::error::IoError;
use crate::error::IoErrorKind;
use crate::error::OsError;
use vstd::prelude::*;
use vstd::string::StringExecFns;

verus! {

/// Direction of state transfer for migration.
#[derive(Clone, Copy, Debug, PartialEq, Eq, Structural)]
pub enum TransferDirection {
    /// Outgoing migration: the state is saved.
    Save,
    /// Incoming migration: the state is loaded.
    Load,
}

/// The phase of migration in which a state transfer is asked for.
#[derive(Debug)]
pub enum TransferPhase {
    /// The device is stopped.
    Stopped,
    /// Another phase, of this name.
    Other(String),
}

/// What has to be done about the preparation for migration. `T` is the handle of the thread that
/// prepares.
#[derive(Debug)]
pub enum PreparationAction<T> {
    /// Nothing.
    Nothing,
    /// Start to prepare.
    Start,
    /// Tell the thread to cancel, and wait for it. What it ends with does not matter.
    Cancel(T),
}

/// A transfer of the state of the file system. `T` is the handle of the thread that prepares.
#[derive(Debug)]
pub struct StateTransfer<T> {
    /// What has to be done next while the request for the transfer is handled.
    pub request: RequestStage,
    /// What the thread that transfers the state has to do first, once it is started.
    pub thread: TransferStage,
    /// The preparation that was started, if any: for the request to cancel, or for the thread to
    /// wait for.
    pub preparation: Option<T>,
}

/// What has to be done next while the request for a transfer is handled.
#[derive(Clone, Copy, Debug, PartialEq, Eq, Structural)]
pub enum RequestStage {
    /// Tell the preparation to cancel, and wait for it. What it ends with does not matter.
    CancelPreparation,
    /// Start the thread that transfers the state, and answer the request.
    StartThread,
}

/// What the thread that transfers the state has to do next.
#[derive(Clone, Copy, Debug, PartialEq, Eq, Structural)]
pub enum TransferStage {
    /// Read the state and apply it.
    Deserialize,
    /// Wait for the preparation to finish.
    JoinPreparation,
    /// Prepare now: the front-end did not announce the migration.
    Prepare,
    /// Write out the state.
    Serialize,
    /// End, because the preparation failed.
    PreparationFailed,
}

/// A step of a transfer, with who takes it.
pub enum TransferStep {
    /// It is taken while the request is handled, before that is answered.
    InRequest(RequestStage),
    /// It is taken by the thread that was started.
    OnThread(TransferStage),
}

/// An error of the kind of `error`, whose text is that of `error` after `prefix`.
fn prefixed(prefix: &str, error: OsError) -> (prefixed: IoError)
    ensures
        prefixed is Message,
        prefixed.spec_kind() == IoErrorKind::Reported(error.kind),
        prefixed.text() == prefix@ + error.display@,
{
    IoError::Message {
        kind: IoErrorKind::Reported(error.kind),
        message: prefix.to_owned().concat(error.display.as_str()),
    }
}

impl TransferStage {
    /// What the thread starts with. To save the state, it waits for the preparation, or prepares
    /// itself if none was started. To load it, there is nothing to wait for.
    pub open spec fn start_of(direction: TransferDirection, preparing: bool) -> Self {
        match direction {
            TransferDirection::Save => if preparing {
                TransferStage::JoinPreparation
            } else {
                TransferStage::Prepare
            },
            TransferDirection::Load => TransferStage::Deserialize,
        }
    }

    /// The stage after this one, if the preparation, where it is waited for, ends properly or not.
    /// `None` if the thread ends with this stage.
    pub open spec fn next(self, properly: bool) -> Option<Self> {
        match self {
            TransferStage::JoinPreparation => if properly {
                Some(TransferStage::Serialize)
            } else {
                Some(TransferStage::PreparationFailed)
            },
            TransferStage::Prepare => Some(TransferStage::Serialize),
            TransferStage::Deserialize => None,
            TransferStage::Serialize => None,
            TransferStage::PreparationFailed => None,
        }
    }

    /// The steps of the thread from this stage up to and with the one that ends it, `bound` of them
    /// at most.
    pub open spec fn trace(self, properly: bool, bound: nat) -> Seq<TransferStep>
        decreases bound,
    {
        if bound == 0 {
            Seq::empty()
        } else {
            match self.next(properly) {
                Some(next) => seq![TransferStep::OnThread(self)] + next.trace(
                    properly,
                    (bound - 1) as nat,
                ),
                None => seq![TransferStep::OnThread(self)],
            }
        }
    }

    /// What the thread that transfers the state starts with, with a preparation that was started or
    /// without one.
    pub fn start(direction: TransferDirection, preparing: bool) -> (stage: Self)
        ensures
            stage == Self::start_of(direction, preparing),
    {
        match direction {
            TransferDirection::Save => if preparing {
                TransferStage::JoinPreparation
            } else {
                TransferStage::Prepare
            },
            TransferDirection::Load => TransferStage::Deserialize,
        }
    }

    /// The preparation that was waited for has ended, properly or not.
    pub fn preparation_joined(self, properly: bool) -> (next: Self)
        requires
            self is JoinPreparation,
        ensures
            next == if properly {
                TransferStage::Serialize
            } else {
                TransferStage::PreparationFailed
            },
            self.next(properly) == Some(next),
    {
        if properly {
            TransferStage::Serialize
        } else {
            TransferStage::PreparationFailed
        }
    }

    /// The preparation was done.
    pub fn prepared(self) -> (next: Self)
        requires
            self is Prepare,
        ensures
            next == TransferStage::Serialize,
            forall|properly: bool| self.next(properly) == Some(next),
    {
        TransferStage::Serialize
    }

    /// What the thread that saves the state ends with if the preparation failed.
    pub fn preparation_failed(self) -> (result: Result<(), IoError>)
        requires
            self is PreparationFailed,
        ensures
            crate::error::fails_with(
                result,
                IoErrorKind::Other,
                "Failed to finalize serialization preparation"@,
            ),
    {
        Err(
            IoError::Message {
                kind: IoErrorKind::Other,
                message: "Failed to finalize serialization preparation".to_owned(),
            },
        )
    }

    /// What the thread that saves the state ends with, by what came of writing it out.
    pub fn state_saved(self, outcome: Result<(), OsError>) -> (result: Result<(), IoError>)
        requires
            self is Serialize,
        ensures
            match outcome {
                Ok(_) => result == Ok::<(), IoError>(()),
                Err(error) => crate::error::fails_with(
                    result,
                    IoErrorKind::Reported(error.kind),
                    "Failed to save state: "@ + error.display@,
                ),
            },
    {
        match outcome {
            Ok(_) => Ok(()),
            Err(error) => Err(prefixed("Failed to save state: ", error)),
        }
    }

    /// What the thread that loads the state ends with, by what came of reading the state and
    /// applying it.
    pub fn state_loaded(self, outcome: Result<(), OsError>) -> (result: Result<(), IoError>)
        requires
            self is Deserialize,
        ensures
            match outcome {
                Ok(_) => result == Ok::<(), IoError>(()),
                Err(error) => crate::error::fails_with(
                    result,
                    IoErrorKind::Reported(error.kind),
                    "Failed to load state: "@ + error.display@,
                ),
            },
    {
        match outcome {
            Ok(_) => Ok(()),
            Err(error) => Err(prefixed("Failed to load state: ", error)),
        }
    }
}

impl<T> StateTransfer<T> {
    /// A transfer from its start. One that loads the state has the request cancel the preparation
    /// for an outgoing migration first; one that saves it leaves the preparation to the thread.
    pub open spec fn start_of(direction: TransferDirection, preparation: Option<T>) -> Self {
        StateTransfer {
            request: if direction is Load && preparation is Some {
                RequestStage::CancelPreparation
            } else {
                RequestStage::StartThread
            },
            thread: TransferStage::start_of(direction, preparation is Some),
            preparation,
        }
    }

    /// The transfer after the preparation was cancelled.
    pub open spec fn after_cancelling(self) -> Self {
        StateTransfer { request: RequestStage::StartThread, preparation: None, ..self }
    }

    /// The steps from here up to and with the one that ends the transfer, `bound` of them at most.
    /// The thread takes its steps after it was started, which is the last step of the request.
    pub open spec fn trace(self, properly: bool, bound: nat) -> Seq<TransferStep>
        decreases bound,
    {
        if bound == 0 {
            Seq::empty()
        } else {
            seq![TransferStep::InRequest(self.request)] + match self.request {
                RequestStage::CancelPreparation => self.after_cancelling().trace(
                    properly,
                    (bound - 1) as nat,
                ),
                RequestStage::StartThread => self.thread.trace(properly, (bound - 1) as nat),
            }
        }
    }

    /// Start to transfer the state.
    pub fn start(direction: TransferDirection, preparation: Option<T>) -> (transfer: Self)
        ensures
            transfer.preparation == preparation,
            transfer.request is CancelPreparation <==> direction is Load && preparation is Some,
            transfer == Self::start_of(direction, preparation),
    {
        let request = match direction {
            TransferDirection::Load if preparation.is_some() => RequestStage::CancelPreparation,
            _ => RequestStage::StartThread,
        };
        StateTransfer {
            request,
            thread: TransferStage::start(direction, preparation.is_some()),
            preparation,
        }
    }

    /// The preparation was told to cancel, and has ended.
    pub fn preparation_cancelled(self) -> (next: Self)
        requires
            self.request is CancelPreparation,
        ensures
            next.request is StartThread,
            next.thread == self.thread,
            next.preparation is None,
            next == self.after_cancelling(),
    {
        StateTransfer { request: RequestStage::StartThread, preparation: None, ..self }
    }
}

/// What a transfer ended with: what its thread ended with, or an error if that cannot be told
/// (`None`).
pub fn transfer_joined(joined: Option<Result<(), IoError>>) -> (result: Result<(), IoError>)
    ensures
        match joined {
            Some(ended) => result == ended,
            None => crate::error::fails_with(
                result,
                IoErrorKind::Other,
                "Failed to join the migration thread"@,
            ),
        },
{
    match joined {
        Some(ended) => ended,
        None => Err(
            IoError::Message {
                kind: IoErrorKind::Other,
                message: "Failed to join the migration thread".to_owned(),
            },
        ),
    }
}

/// The threads that migration involves. `T` is the handle of a thread that prepares for an
/// outgoing migration, `J` that of a thread that transfers the state.
#[derive(Debug)]
pub struct MigrationThreads<T, J> {
    /// The thread that prepares for an outgoing migration.
    pub premigration_thread: Option<T>,
    /// The thread that transfers the state.
    pub migration_thread: Option<J>,
}

impl<T, J> MigrationThreads<T, J> {
    /// What has to be done about the preparation when the front-end has LOG_ALL set or cleared.
    pub open spec fn preparation_action(self, log_all: bool) -> PreparationAction<T> {
        match self.premigration_thread {
            Some(thread) => if log_all {
                PreparationAction::Nothing
            } else {
                PreparationAction::Cancel(thread)
            },
            None => if log_all {
                PreparationAction::Start
            } else {
                PreparationAction::Nothing
            },
        }
    }

    /// The threads after the front-end set or cleared LOG_ALL.
    pub open spec fn after_log_all(self, log_all: bool) -> Self {
        if log_all {
            self
        } else {
            self.without_preparation()
        }
    }

    /// The threads after a thread started to prepare.
    pub open spec fn after_start(self, thread: T) -> Self {
        MigrationThreads { premigration_thread: Some(thread), ..self }
    }

    /// The threads after the preparation was taken out.
    pub open spec fn without_preparation(self) -> Self {
        MigrationThreads { premigration_thread: None, ..self }
    }

    /// The transfer of the state in this direction.
    pub open spec fn transfer_of(self, direction: TransferDirection) -> StateTransfer<T> {
        StateTransfer::start_of(direction, self.premigration_thread)
    }

    /// The threads after a thread started to transfer the state.
    pub open spec fn after_transfer(self, thread: J) -> Self {
        MigrationThreads { migration_thread: Some(thread), ..self }
    }

    /// The threads after the transfer was taken out.
    pub open spec fn without_transfer(self) -> Self {
        MigrationThreads { migration_thread: None, ..self }
    }

    /// No threads.
    pub fn new() -> (threads: Self)
        ensures
            threads == (MigrationThreads::<T, J> {
                premigration_thread: None,
                migration_thread: None,
            }),
    {
        MigrationThreads { premigration_thread: None, migration_thread: None }
    }

    /// The front-end set or cleared LOG_ALL. Set, it announces a migration, which is prepared for
    /// unless that is already being done. Cleared, it is taken to mean that migration was
    /// cancelled, if any was ongoing.
    pub fn log_all_changed(&mut self, log_all: bool) -> (action: PreparationAction<T>)
        ensures
            action is Start <==> log_all && old(self).premigration_thread is None,
            action is Cancel <==> !log_all && old(self).premigration_thread is Some,
            action matches PreparationAction::Cancel(thread) ==> old(self).premigration_thread
                == Some(thread),
            final(self).migration_thread == old(self).migration_thread,
            action == old(self).preparation_action(log_all),
            *final(self) == old(self).after_log_all(log_all),
    {
        if log_all {
            if self.premigration_thread.is_none() {
                PreparationAction::Start
            } else {
                PreparationAction::Nothing
            }
        } else {
            match self.premigration_thread.take() {
                Some(thread) => PreparationAction::Cancel(thread),
                None => PreparationAction::Nothing,
            }
        }
    }

    /// A thread started to prepare for migration.
    pub fn preparation_started(&mut self, thread: T)
        requires
            old(self).premigration_thread is None,
        ensures
            final(self).premigration_thread == Some(thread),
            final(self).migration_thread == old(self).migration_thread,
            *final(self) == old(self).after_start(thread),
    {
        self.premigration_thread = Some(thread);
    }

    /// The front-end asked for the state to be transferred. Only a stopped device can do that.
    pub fn do_set_device_state_fd(
        &mut self,
        direction: TransferDirection,
        phase: TransferPhase,
    ) -> (transfer: Result<StateTransfer<T>, IoError>)
        ensures
            match phase {
                TransferPhase::Stopped => {
                    &&& transfer == Ok::<StateTransfer<T>, IoError>(
                        old(self).transfer_of(direction),
                    )
                    &&& transfer->Ok_0.preparation == old(self).premigration_thread
                    &&& final(self).premigration_thread is None
                    &&& final(self).migration_thread == old(self).migration_thread
                    &&& *final(self) == old(self).without_preparation()
                },
                TransferPhase::Other(name) => {
                    &&& crate::error::fails_with(
                        transfer,
                        IoErrorKind::Unsupported,
                        "Transfer in phase "@ + name@ + " is not supported"@,
                    )
                    &&& *final(self) == *old(self)
                },
            },
    {
        match phase {
            TransferPhase::Stopped => {},
            TransferPhase::Other(name) => {
                let mut message: String = "Transfer in phase ".to_owned();
                message.append(name.as_str());
                message.append(" is not supported");
                return Err(IoError::Message { kind: IoErrorKind::Unsupported, message });
            },
        }
        Ok(StateTransfer::start(direction, self.premigration_thread.take()))
    }

    /// A thread started to transfer the state, which is the last stage of the request for it. Says
    /// what the request is answered.
    pub fn transfer_started(&mut self, request: RequestStage, thread: J) -> (answer: Result<
        (),
        IoError,
    >)
        requires
            request is StartThread,
        ensures
            final(self).migration_thread == Some(thread),
            final(self).premigration_thread == old(self).premigration_thread,
            *final(self) == old(self).after_transfer(thread),
            answer == Ok::<(), IoError>(()),
    {
        self.migration_thread = Some(thread);
        Ok(())
    }

    /// The front-end asks what came of the transfer. The thread to wait for is handed out, and
    /// [`transfer_joined`] says what to answer. Asking for it without a transfer is a protocol
    /// violation.
    pub fn do_check_device_state(&mut self) -> (thread: Result<J, IoError>)
        ensures
            final(self).migration_thread is None,
            final(self).premigration_thread == old(self).premigration_thread,
            *final(self) == old(self).without_transfer(),
            match old(self).migration_thread {
                Some(handle) => thread == Ok::<J, IoError>(handle),
                None => crate::error::fails_with(
                    thread,
                    IoErrorKind::InvalidInput,
                    "Front-end attempts to check migration state, but no migration has been done"@,
                ),
            },
    {
        match self.migration_thread.take() {
            Some(handle) => Ok(handle),
            None => Err(
                IoError::Message {
                    kind: IoErrorKind::InvalidInput,
                    message:
                        "Front-end attempts to check migration state, but no migration has been done".to_owned(),
                },
            ),
        }
    }
}

/// Something that the front-end does about migration.
pub enum FrontEndRequest<T, J> {
    /// It sets LOG_ALL or clears it. If that starts a preparation, `thread` is its handle.
    LogAll { set: bool, thread: T },
    /// It asks for the state to be transferred. If that is not refused, `transfer` does it.
    Transfer { direction: TransferDirection, phase: TransferPhase, transfer: J },
    /// It asks what came of the transfer.
    Check,
}

impl<T, J> FrontEndRequest<T, J> {
    /// Whether this request has the state transferred: only a stopped device can do that.
    pub open spec fn transfers(self) -> bool {
        self matches FrontEndRequest::Transfer { phase, .. } && phase is Stopped
    }
}

impl<T, J> MigrationThreads<T, J> {
    /// The threads after this request.
    pub open spec fn after(self, request: FrontEndRequest<T, J>) -> Self {
        match request {
            FrontEndRequest::LogAll { set, thread } => {
                let after = self.after_log_all(set);
                if self.preparation_action(set) is Start {
                    after.after_start(thread)
                } else {
                    after
                }
            },
            FrontEndRequest::Transfer { phase, transfer, .. } => match phase {
                TransferPhase::Stopped => self.without_preparation().after_transfer(transfer),
                TransferPhase::Other(_) => self,
            },
            FrontEndRequest::Check => self.without_transfer(),
        }
    }

    /// The threads after these requests.
    pub open spec fn after_all(self, requests: Seq<FrontEndRequest<T, J>>) -> Self
        decreases requests.len(),
    {
        if requests.len() == 0 {
            self
        } else {
            self.after_all(requests.drop_last()).after(requests.last())
        }
    }

    /// The preparation that this request starts.
    pub open spec fn started(self, request: FrontEndRequest<T, J>) -> Option<T> {
        match request {
            FrontEndRequest::LogAll { set, thread } => if self.preparation_action(set) is Start {
                Some(thread)
            } else {
                None
            },
            _ => None,
        }
    }

    /// The preparation that this request cancels or has waited for.
    pub open spec fn ended(self, request: FrontEndRequest<T, J>) -> Option<T> {
        match request {
            FrontEndRequest::LogAll { set, .. } => match self.preparation_action(set) {
                PreparationAction::Cancel(thread) => Some(thread),
                _ => None,
            },
            FrontEndRequest::Transfer { direction, phase, .. } => {
                let transfer = self.transfer_of(direction);
                if phase is Stopped && (transfer.request is CancelPreparation
                    || transfer.thread is JoinPreparation) {
                    transfer.preparation
                } else {
                    None
                }
            },
            FrontEndRequest::Check => None,
        }
    }

    /// The preparations that these requests start, in order.
    pub open spec fn all_started(self, requests: Seq<FrontEndRequest<T, J>>) -> Seq<T>
        decreases requests.len(),
    {
        if requests.len() == 0 {
            Seq::empty()
        } else {
            let before = self.after_all(requests.drop_last());
            self.all_started(requests.drop_last()) + as_seq(before.started(requests.last()))
        }
    }

    /// The preparations that these requests cancel or have waited for, in order.
    pub open spec fn all_ended(self, requests: Seq<FrontEndRequest<T, J>>) -> Seq<T>
        decreases requests.len(),
    {
        if requests.len() == 0 {
            Seq::empty()
        } else {
            let before = self.after_all(requests.drop_last());
            self.all_ended(requests.drop_last()) + as_seq(before.ended(requests.last()))
        }
    }
}

/// What `option` holds, as a sequence.
pub open spec fn as_seq<A>(option: Option<A>) -> Seq<A> {
    match option {
        Some(value) => seq![value],
        None => Seq::empty(),
    }
}

/// Whatever threads there are, LOG_ALL has a preparation started just if it is set and there is
/// none, and the one that is there cancelled just if it is cleared. It never touches the transfer.
pub proof fn law_log_all_is_about_the_preparation<T, J>(
    threads: MigrationThreads<T, J>,
    log_all: bool,
)
    ensures
        threads.preparation_action(log_all) is Start <==> log_all && threads.premigration_thread
            is None,
        threads.preparation_action(log_all) is Cancel <==> !log_all && threads.premigration_thread
            is Some,
        threads.preparation_action(log_all) matches PreparationAction::Cancel(thread)
            ==> threads.premigration_thread == Some(thread),
        threads.after_log_all(log_all).migration_thread == threads.migration_thread,
        log_all ==> threads.after_log_all(log_all).premigration_thread
            == threads.premigration_thread,
        !log_all ==> threads.after_log_all(log_all).premigration_thread is None,
{
}

/// A thread that was started is the one that is there, and one that was taken out is gone. What is
/// done about the preparation leaves the transfer alone, and the other way around.
pub proof fn law_threads_are_kept_apart<T, J>(
    threads: MigrationThreads<T, J>,
    preparation: T,
    transfer: J,
)
    ensures
        threads.after_start(preparation).premigration_thread == Some(preparation),
        threads.without_preparation().premigration_thread is None,
        threads.after_transfer(transfer).migration_thread == Some(transfer),
        threads.without_transfer().migration_thread is None,
        threads.after_start(preparation).migration_thread == threads.migration_thread,
        threads.without_preparation().migration_thread == threads.migration_thread,
        threads.after_transfer(transfer).premigration_thread == threads.premigration_thread,
        threads.without_transfer().premigration_thread == threads.premigration_thread,
{
}

/// Whatever threads there are, a transfer gets the preparation that was started. The request
/// cancels it just if the state is loaded, and the thread waits for it just if the state is saved.
/// A thread that saves the state without one prepares itself, and one that loads it only does that.
pub proof fn law_transfer_goes_by_direction_and_preparation<T, J>(
    threads: MigrationThreads<T, J>,
    direction: TransferDirection,
)
    ensures
        ({
            let transfer = threads.transfer_of(direction);
            let prepared = threads.premigration_thread is Some;
            &&& transfer.preparation == threads.premigration_thread
            &&& transfer.request is CancelPreparation <==> direction is Load && prepared
            &&& transfer.thread is JoinPreparation <==> direction is Save && prepared
            &&& transfer.thread is Prepare <==> direction is Save && !prepared
            &&& transfer.thread is Deserialize <==> direction is Load
        }),
{
}

/// From wherever a transfer is, cancelling the preparation changes nothing about what the thread
/// does and leaves it no preparation. The thread goes on from the preparation to the state just if
/// the preparation was done, here or where it was waited for, and it ends with the state.
pub proof fn law_every_stage_leads_to_its_next<T>(transfer: StateTransfer<T>, properly: bool)
    ensures
        transfer.after_cancelling().request is StartThread,
        transfer.after_cancelling().thread == transfer.thread,
        transfer.after_cancelling().preparation is None,
        TransferStage::JoinPreparation.next(properly) == Some(TransferStage::Serialize)
            <==> properly,
        TransferStage::JoinPreparation.next(properly) == Some(TransferStage::PreparationFailed)
            <==> !properly,
        TransferStage::Prepare.next(properly) == Some(TransferStage::Serialize),
        TransferStage::Serialize.next(properly) is None,
        TransferStage::Deserialize.next(properly) is None,
        TransferStage::PreparationFailed.next(properly) is None,
{
}

/// Setting LOG_ALL starts a preparation only if there is none, and setting it again changes
/// nothing. Clearing it cancels just the preparation that was started, and leaves everything as it
/// was before.
pub proof fn law_clearing_log_all_undoes_setting_it<T, J>(
    threads: MigrationThreads<T, J>,
    thread: T,
)
    requires
        threads.premigration_thread is None,
    ensures
        threads.preparation_action(true) is Start,
        ({
            let started = threads.after_log_all(true).after_start(thread);
            &&& started.preparation_action(true) is Nothing
            &&& started.after_log_all(true) == started
            &&& started.preparation_action(false) == PreparationAction::Cancel(thread)
            &&& started.after_log_all(false) == threads
        }),
        threads.preparation_action(false) is Nothing,
        threads.after_log_all(false) == threads,
{
}

/// The preparation that was started goes to the transfer: an outgoing one waits for it, an
/// incoming one cancels it. Either way none is left behind, and the next announcement of a
/// migration starts one anew. Without a preparation, an outgoing transfer prepares itself.
pub proof fn law_transfer_takes_the_preparation<T, J>(
    threads: MigrationThreads<T, J>,
    thread: T,
    transfer: J,
)
    requires
        threads.premigration_thread is None,
    ensures
        ({
            let started = threads.after_start(thread);
            let transferring = started.without_preparation().after_transfer(transfer);
            &&& started.transfer_of(TransferDirection::Save) == (StateTransfer {
                request: RequestStage::StartThread,
                thread: TransferStage::JoinPreparation,
                preparation: Some(thread),
            })
            &&& started.transfer_of(TransferDirection::Load) == (StateTransfer {
                request: RequestStage::CancelPreparation,
                thread: TransferStage::Deserialize,
                preparation: Some(thread),
            })
            &&& started.transfer_of(TransferDirection::Load).after_cancelling()
                == threads.transfer_of(TransferDirection::Load)
            &&& transferring.preparation_action(false) is Nothing
            &&& transferring.preparation_action(true) is Start
        }),
        threads.transfer_of(TransferDirection::Save) == (StateTransfer::<T> {
            request: RequestStage::StartThread,
            thread: TransferStage::Prepare,
            preparation: None,
        }),
        threads.transfer_of(TransferDirection::Load) == (StateTransfer::<T> {
            request: RequestStage::StartThread,
            thread: TransferStage::Deserialize,
            preparation: None,
        }),
{
}

/// Whatever a transfer does while its request is handled comes before its thread is started, and
/// whatever comes after that is done by the thread: a preparation is never cancelled once there is
/// a thread.
pub proof fn law_request_ends_with_the_start_of_the_thread<T>(
    transfer: StateTransfer<T>,
    properly: bool,
    bound: nat,
    i: int,
    j: int,
)
    requires
        0 <= i < j < transfer.trace(properly, bound).len(),
    ensures
        ({
            let steps = transfer.trace(properly, bound);
            &&& steps[i] == TransferStep::InRequest(RequestStage::CancelPreparation) <==> i == 0
                && transfer.request is CancelPreparation
            &&& steps[j] is InRequest <==> j == 1 && transfer.request is CancelPreparation
            &&& steps[j] is InRequest ==> steps[j] == TransferStep::InRequest(
                RequestStage::StartThread,
            )
        }),
{
    reveal_with_fuel(StateTransfer::trace, 3);
    let steps = transfer.trace(properly, bound);
    let started: int = if transfer.request is CancelPreparation {
        2
    } else {
        1
    };
    lemma_thread_steps(transfer.thread, properly, (bound - started) as nat);
    assert(steps =~= steps.take(started) + transfer.thread.trace(
        properly,
        (bound - started) as nat,
    ));
}

/// The steps of the thread are its own.
proof fn lemma_thread_steps(stage: TransferStage, properly: bool, bound: nat)
    ensures
        forall|i: int|
            0 <= i < stage.trace(properly, bound).len() ==> (#[trigger] stage.trace(
                properly,
                bound,
            )[i]) is OnThread,
    decreases bound,
{
    if bound > 0 && stage.next(properly) is Some {
        let next = stage.next(properly)->0;
        lemma_thread_steps(next, properly, (bound - 1) as nat);
        assert forall|i: int| 0 <= i < stage.trace(properly, bound).len() implies (
        #[trigger] stage.trace(properly, bound)[i]) is OnThread by {
            if i > 0 {
                assert(stage.trace(properly, bound)[i] == next.trace(
                    properly,
                    (bound - 1) as nat,
                )[i - 1]);
            }
        }
    }
}

/// An outgoing transfer has its thread started at once. The thread serializes the state last, after
/// it waited for the preparation or prepared itself. If the preparation that it waited for failed,
/// nothing is serialized.
pub proof fn law_save_follows_the_preparation<T, J>(
    threads: MigrationThreads<T, J>,
    properly: bool,
    bound: nat,
)
    requires
        bound >= 3,
    ensures
        ({
            let steps = threads.transfer_of(TransferDirection::Save).trace(properly, bound);
            &&& steps == seq![TransferStep::InRequest(RequestStage::StartThread)]
                + match threads.premigration_thread {
                Some(_) => if properly {
                    seq![
                        TransferStep::OnThread(TransferStage::JoinPreparation),
                        TransferStep::OnThread(TransferStage::Serialize),
                    ]
                } else {
                    seq![
                        TransferStep::OnThread(TransferStage::JoinPreparation),
                        TransferStep::OnThread(TransferStage::PreparationFailed),
                    ]
                },
                None => seq![
                    TransferStep::OnThread(TransferStage::Prepare),
                    TransferStep::OnThread(TransferStage::Serialize),
                ],
            }
            &&& steps.contains(TransferStep::OnThread(TransferStage::Serialize)) <==> (
            threads.premigration_thread is Some ==> properly)
        }),
{
    reveal_with_fuel(TransferStage::trace, 3);
    let steps = threads.transfer_of(TransferDirection::Save).trace(properly, bound);
    assert(steps.len() == 3);
    assert(steps[2] == TransferStep::OnThread(TransferStage::Serialize) <==> (
    threads.premigration_thread is Some ==> properly));
}

/// An incoming transfer has the preparation for an outgoing one, if there was one, cancelled and
/// waited for while its request is handled. Only then its thread is started, which does nothing but
/// deserialize the state. How the preparation ended does not matter.
pub proof fn law_load_follows_the_cancelling<T, J>(
    threads: MigrationThreads<T, J>,
    properly: bool,
    bound: nat,
)
    requires
        bound >= 3,
    ensures
        threads.transfer_of(TransferDirection::Load).trace(properly, bound)
            == match threads.premigration_thread {
            Some(_) => seq![
                TransferStep::InRequest(RequestStage::CancelPreparation),
                TransferStep::InRequest(RequestStage::StartThread),
                TransferStep::OnThread(TransferStage::Deserialize),
            ],
            None => seq![
                TransferStep::InRequest(RequestStage::StartThread),
                TransferStep::OnThread(TransferStage::Deserialize),
            ],
        },
{
    reveal_with_fuel(StateTransfer::trace, 3);
    reveal_with_fuel(TransferStage::trace, 2);
}

/// What came of a transfer can be asked for once: the thread that was started last is handed out,
/// and then there is none until the next transfer. LOG_ALL has no bearing on that.
pub proof fn law_transfer_is_checked_once<T, J>(
    threads: MigrationThreads<T, J>,
    transfer: J,
    log_all: bool,
)
    ensures
        threads.after_transfer(transfer).migration_thread == Some(transfer),
        threads.after_transfer(transfer).after_log_all(log_all).migration_thread == Some(transfer),
        threads.after_transfer(transfer).without_transfer().migration_thread is None,
        threads.after_log_all(log_all).migration_thread == threads.migration_thread,
{
}

/// Whatever the front-end does, the transfer that it can ask for is the one of its last request
/// that had the state transferred, unless it asked for that one already: then, and if there was no
/// such request, there is none. `last` is the position of the last request that transferred or
/// asked, or -1 if none did. Refused transfers and LOG_ALL have no bearing on that.
pub proof fn law_last_transfer_can_be_checked<T, J>(
    requests: Seq<FrontEndRequest<T, J>>,
    last: int,
)
    requires
        -1 <= last < requests.len(),
        last >= 0 ==> requests[last].transfers() || requests[last] is Check,
        forall|i: int|
            last < i < requests.len() ==> !(#[trigger] requests[i]).transfers()
                && !(requests[i] is Check),
    ensures
        ({
            let start = MigrationThreads::<T, J> {
                premigration_thread: None,
                migration_thread: None,
            };
            start.after_all(requests).migration_thread == if last >= 0
                && requests[last].transfers() {
                Some(requests[last]->transfer)
            } else {
                None
            }
        }),
    decreases requests.len(),
{
    if requests.len() > 0 && last < requests.len() - 1 {
        let rest = requests.drop_last();
        assert(!requests.last().transfers() && !(requests.last() is Check));
        assert forall|i: int| last < i < rest.len() implies !(#[trigger] rest[i]).transfers()
            && !(rest[i] is Check) by {
            assert(rest[i] == requests[i]);
        }
        law_last_transfer_can_be_checked(rest, last);
    }
}

/// Each transfer is handed out at most once: what the front-end gets when it asks a second time is
/// a transfer that it requested since it asked before, with nothing asked or transferred in
/// between.
pub proof fn law_each_transfer_is_handed_out_at_most_once<T, J>(
    requests: Seq<FrontEndRequest<T, J>>,
    first: int,
    second: int,
)
    requires
        0 <= first < second < requests.len(),
        requests[first] is Check,
        requests[second] is Check,
    ensures
        ({
            let start = MigrationThreads::<T, J> {
                premigration_thread: None,
                migration_thread: None,
            };
            start.after_all(requests.take(second)).migration_thread matches Some(handed_out)
                ==> exists|k: int|
                first < k < second && (#[trigger] requests[k]).transfers() && requests[k]->transfer
                    == handed_out && forall|i: int|
                    k < i < second ==> !(#[trigger] requests[i]).transfers() && !(
                    requests[i] is Check)
        }),
{
    let before = requests.take(second);
    let last: int = lemma_last_that_settles(before, first);
    law_last_transfer_can_be_checked(before, last);
    assert(requests[last] == before[last]);
    assert forall|i: int| last < i < second implies !(#[trigger] requests[i]).transfers() && !(
    requests[i] is Check) by {
        assert(before[i] == requests[i]);
    }
}

/// The last request that transfers or asks, where one is known.
proof fn lemma_last_that_settles<T, J>(
    requests: Seq<FrontEndRequest<T, J>>,
    known: int,
) -> (last: int)
    requires
        0 <= known < requests.len(),
        requests[known].transfers() || requests[known] is Check,
    ensures
        known <= last < requests.len(),
        requests[last].transfers() || requests[last] is Check,
        forall|i: int|
            last < i < requests.len() ==> !(#[trigger] requests[i]).transfers()
                && !(requests[i] is Check),
    decreases requests.len(),
{
    if requests.last().transfers() || requests.last() is Check {
        requests.len() - 1
    } else {
        let rest = requests.drop_last();
        let last: int = lemma_last_that_settles(rest, known);
        assert forall|i: int| last < i < requests.len() implies !(
        #[trigger] requests[i]).transfers() && !(requests[i] is Check) by {
            if i < rest.len() {
                assert(rest[i] == requests[i]);
            }
        }
        last
    }
}

/// Whatever the front-end does, no preparation is lost and none ends twice: those that were
/// started are those that were cancelled or waited for, and after them the one that is still
/// there. There is never more than one.
pub proof fn law_every_preparation_is_accounted_for<T, J>(
    requests: Seq<FrontEndRequest<T, J>>,
)
    ensures
        ({
            let start = MigrationThreads::<T, J> {
                premigration_thread: None,
                migration_thread: None,
            };
            start.all_started(requests) == start.all_ended(requests) + as_seq(
                start.after_all(requests).premigration_thread,
            )
        }),
    decreases requests.len(),
{
    let start = MigrationThreads::<T, J> { premigration_thread: None, migration_thread: None };
    if requests.len() > 0 {
        law_every_preparation_is_accounted_for(requests.drop_last());
        let before = start.after_all(requests.drop_last());
        let request = requests.last();
        assert(as_seq(before.premigration_thread) + as_seq(before.started(request)) =~= as_seq(
            before.ended(request),
        ) + as_seq(before.after(request).premigration_thread));
        assert(start.all_started(requests) =~= start.all_ended(requests.drop_last()) + (as_seq(
            before.premigration_thread,
        ) + as_seq(before.started(request))));
        assert(start.all_ended(requests) + as_seq(before.after(request).premigration_thread)
            =~= start.all_ended(requests.drop_last()) + (as_seq(before.ended(request)) + as_seq(
            before.after(request).premigration_thread,
        )));
    }
}

} // verus!
