//! The part of the backend that processes the queues.

use crate::error::Error;
use crate::error::IoError;
use crate::error::OsError;
use crate::event::EventRun;
use crate::queue::PoolRun;
use crate::queue::SerialRun;
use vstd::prelude::*;

verus! {

/// What has to be done next to set up a thread pool `P`.
#[derive(Debug)]
pub enum PoolStage<P> {
    /// Test that unshare(CLONE_FS) works: it will be called for each thread.
    TestUnshare,
    /// Create the pool.
    CreatePool,
    /// The pool is there, or none is wanted.
    Ready(Option<P>),
    /// The pool cannot be set up.
    Failed(Error),
}

/// The setup of a thread pool.
#[derive(Debug)]
pub struct PoolSetup<P> {
    /// The size of the pool. A size of zero asks for no pool.
    pub thread_pool_size: usize,
    /// What has to be done next.
    pub stage: PoolStage<P>,
}

impl<P> PoolSetup<P> {
    /// Whether there is a pool in the end just if one is wanted, and nothing is done or fails if
    /// none is.
    pub open spec fn wf(self) -> bool {
        match self.stage {
            PoolStage::Ready(pool) => pool is Some <==> self.thread_pool_size > 0,
            _ => self.thread_pool_size > 0,
        }
    }

    /// Whether nothing is left to be done.
    pub open spec fn ended(self) -> bool {
        self.stage is Ready || self.stage is Failed
    }

    /// The setup of a pool from its start.
    pub open spec fn start_of(thread_pool_size: usize) -> Self {
        PoolSetup {
            thread_pool_size,
            stage: if thread_pool_size > 0 {
                PoolStage::TestUnshare
            } else {
                PoolStage::Ready(None)
            },
        }
    }

    /// The setup after the unshare(CLONE_FS) call returned `ret`.
    pub open spec fn after_unshare(self, ret: i32, os_error: OsError) -> Self {
        PoolSetup {
            stage: if ret == -1 {
                PoolStage::Failed(Error::UnshareCloneFs(os_error))
            } else {
                PoolStage::CreatePool
            },
            ..self
        }
    }

    /// The setup after the pool was created, or not.
    pub open spec fn after_creation(self, outcome: Result<P, OsError>) -> Self {
        PoolSetup {
            stage: match outcome {
                Ok(pool) => PoolStage::Ready(Some(pool)),
                Err(error) => PoolStage::Failed(Error::CreateThreadPool(error)),
            },
            ..self
        }
    }

    /// Start to set up a pool.
    pub fn start(thread_pool_size: usize) -> (setup: Self)
        ensures
            setup.wf(),
            setup.thread_pool_size == thread_pool_size,
            setup == Self::start_of(thread_pool_size),
    {
        let stage = if thread_pool_size > 0 {
            PoolStage::TestUnshare
        } else {
            PoolStage::Ready(None)
        };
        PoolSetup { thread_pool_size, stage }
    }

    /// The unshare(CLONE_FS) call returned `ret`, and `os_error` is the error of the system that
    /// goes with it. Some container runtimes reject the call.
    pub fn unshare_returned(self, ret: i32, os_error: OsError) -> (next: Self)
        requires
            self.wf(),
            self.stage is TestUnshare,
        ensures
            next.wf(),
            next.thread_pool_size == self.thread_pool_size,
            next == self.after_unshare(ret, os_error),
    {
        let stage = if ret == -1 {
            PoolStage::Failed(Error::UnshareCloneFs(os_error))
        } else {
            PoolStage::CreatePool
        };
        PoolSetup { stage, ..self }
    }

    /// The pool was created, or not.
    pub fn pool_created(self, outcome: Result<P, OsError>) -> (next: Self)
        requires
            self.wf(),
            self.stage is CreatePool,
        ensures
            next.wf(),
            next.thread_pool_size == self.thread_pool_size,
            next == self.after_creation(outcome),
    {
        let stage = match outcome {
            Ok(pool) => PoolStage::Ready(Some(pool)),
            Err(error) => PoolStage::Failed(Error::CreateThreadPool(error)),
        };
        PoolSetup { stage, ..self }
    }
}

/// A size of zero disables the thread pool: nothing is done, and nothing can fail. For any other
/// size there is a pool in the end, unless the unshare(CLONE_FS) call or the creation of the pool
/// fails, which is reported; without the first the second is not tried.
pub proof fn law_pool_just_if_wanted<P>(
    thread_pool_size: usize,
    ret: i32,
    os_error: OsError,
    outcome: Result<P, OsError>,
)
    ensures
        ({
            let start = PoolSetup::<P>::start_of(thread_pool_size);
            &&& thread_pool_size == 0 ==> start.stage == PoolStage::<P>::Ready(None)
            &&& thread_pool_size > 0 ==> start.stage is TestUnshare
            &&& thread_pool_size > 0 && ret == -1 ==> start.after_unshare(ret, os_error).stage
                == PoolStage::<P>::Failed(Error::UnshareCloneFs(os_error))
            &&& thread_pool_size > 0 && ret != -1 ==> {
                let unshared = start.after_unshare(ret, os_error);
                &&& unshared.stage is CreatePool
                &&& unshared.after_creation(outcome).stage == (match outcome {
                    Ok(pool) => PoolStage::Ready(Some(pool)),
                    Err(error) => PoolStage::Failed(Error::CreateThreadPool(error)),
                })
            }
        }),
{
}

/// From wherever the setup of a pool is, the size that was asked for stays. Only a call that
/// returns -1 has failed. The pool that was created is the one that is there in the end, and what
/// was reported instead is what the setup fails with. Nothing is left to be done just if there is a
/// pool, none is wanted, or the setup failed.
pub proof fn law_setup_keeps_what_was_asked_and_reported<P>(
    setup: PoolSetup<P>,
    thread_pool_size: usize,
    ret: i32,
    os_error: OsError,
    pool: P,
)
    ensures
        PoolSetup::<P>::start_of(thread_pool_size).thread_pool_size == thread_pool_size,
        thread_pool_size == 0 <==> PoolSetup::<P>::start_of(thread_pool_size).stage is Ready,
        thread_pool_size > 0 <==> PoolSetup::<P>::start_of(thread_pool_size).stage is TestUnshare,
        setup.after_unshare(ret, os_error).thread_pool_size == setup.thread_pool_size,
        setup.after_unshare(ret, os_error).stage is CreatePool <==> ret != -1,
        ret == -1 ==> setup.after_unshare(ret, os_error).stage == PoolStage::<P>::Failed(
            Error::UnshareCloneFs(os_error),
        ),
        setup.after_creation(Ok(pool)).thread_pool_size == setup.thread_pool_size,
        setup.after_creation(Ok(pool)).stage == PoolStage::Ready(Some(pool)),
        setup.after_creation(Err(os_error)).thread_pool_size == setup.thread_pool_size,
        setup.after_creation(Err(os_error)).stage == PoolStage::<P>::Failed(
            Error::CreateThreadPool(os_error),
        ),
        setup.ended() <==> !(setup.stage is TestUnshare) && !(setup.stage is CreatePool),
        setup.wf() && setup.stage is Ready ==> (setup.stage->Ready_0 is None
            <==> setup.thread_pool_size == 0),
        setup.wf() && !(setup.stage is Ready) ==> setup.thread_pool_size != 0,
{
}

/// A backend that has just been set up serves the file system that it was given, with the pool that
/// it was given. Nothing that is negotiated is there yet: no guest memory, no channel for requests,
/// and no use of EVENT_IDX.
pub proof fn law_new_thread_has_what_it_was_given<F, M, R, P>(fs: F, pool: Option<P>)
    ensures
        ({
            let thread = VhostUserFsThread::<F, M, R, P>::initial(fs, pool);
            &&& thread.server == fs
            &&& thread.pool == pool
            &&& thread.mem is None
            &&& thread.vu_req is None
            &&& !thread.event_idx
        }),
{
}

/// The part of the backend that processes the queues. `F` is the file system server, `M` guest
/// memory, `R` the channel for requests to the front-end, and `P` the thread pool.
#[derive(Debug)]
pub struct VhostUserFsThread<F, M, R, P> {
    /// Guest memory, once it is configured.
    pub mem: Option<M>,
    /// The file system server.
    pub server: F,
    /// The channel for requests from the backend to the front-end.
    pub vu_req: Option<R>,
    /// Whether EVENT_IDX is in use.
    pub event_idx: bool,
    /// The thread pool, if one is used.
    pub pool: Option<P>,
}

impl<F, M, R, P> VhostUserFsThread<F, M, R, P> {
    /// The state of a backend that has just been set up.
    pub open spec fn initial(server: F, pool: Option<P>) -> Self {
        VhostUserFsThread { mem: None, server, vu_req: None, event_idx: false, pool }
    }

    /// Serve the file system `fs`, once the setup of the thread pool has ended.
    pub fn new(fs: F, setup: PoolSetup<P>) -> (thread: Result<Self, Error>)
        requires
            setup.ended(),
        ensures
            setup.stage matches PoolStage::Failed(error) ==> thread == Err::<Self, Error>(error),
            setup.stage matches PoolStage::Ready(pool) ==> thread == Ok::<Self, Error>(
                Self::initial(fs, pool),
            ),
            thread matches Ok(thread) ==> {
                &&& thread.server == fs
                &&& setup.stage == PoolStage::Ready(thread.pool)
                &&& thread.mem is None
                &&& thread.vu_req is None
                &&& !thread.event_idx
            },
    {
        let pool = match setup.stage {
            PoolStage::Failed(error) => {
                return Err(error);
            },
            PoolStage::Ready(pool) => pool,
            _ => None,
        };
        Ok(VhostUserFsThread { mem: None, server: fs, vu_req: None, event_idx: false, pool })
    }

    /// Start to process a queue whose chains are handed to the thread pool.
    pub fn process_queue_pool(&self) -> (run: PoolRun)
        ensures
            run.event_idx == self.event_idx,
            run.action is FetchChain <==> self.mem is Some,
            run == PoolRun::start_of(self.mem is Some, self.event_idx),
    {
        PoolRun::start(self.mem.is_some(), self.event_idx)
    }

    /// Start to process a queue, one chain after the other.
    pub fn process_queue_serial(&self) -> (run: SerialRun)
        ensures
            run.event_idx == self.event_idx,
            run.action is CollectChains <==> self.mem is Some,
            run.is_start_of(self.mem is Some, self.event_idx),
    {
        SerialRun::start(self.mem.is_some(), self.event_idx)
    }

    /// Start to handle a device event, with the chains of the queue handed to the thread pool.
    pub fn handle_event_pool(&self, device_event: u16) -> (run: Result<EventRun, IoError>)
        ensures
            run matches Ok(run) ==> run.queue == device_event && run.pooled && run.event_idx
                == self.event_idx,
            run == EventRun::start_for(device_event, true, self.event_idx),
    {
        EventRun::start(device_event, true, self.event_idx)
    }

    /// Start to handle a device event, with the chains of the queue served one after the other.
    pub fn handle_event_serial(&self, device_event: u16) -> (run: Result<EventRun, IoError>)
        ensures
            run matches Ok(run) ==> run.queue == device_event && !run.pooled && run.event_idx
                == self.event_idx,
            run == EventRun::start_for(device_event, false, self.event_idx),
    {
        EventRun::start(device_event, false, self.event_idx)
    }
}

} // verus!
