//! The backend as the front-end sees it.

use crate::config::VirtioFsConfig;
use crate::error::Error;
use crate::error::IoError;
use crate::error::IoErrorKind;
use crate::event::EventRun;
use crate::event::NUM_QUEUES;
use crate::migration::FrontEndRequest;
use crate::migration::MigrationThreads;
use crate::migration::PreparationAction;
use crate::migration::RequestStage;
use crate::migration::StateTransfer;
use crate::migration::TransferDirection;
use crate::migration::TransferPhase;
use crate::outside::event_set_in;
use crate::outside::protocol_feature_masks;
use crate::outside::shmem_config;
use crate::outside::transport_feature_masks;
use crate::outside::virtio_feature_bits;
use crate::outside::ShMemConfig;
use crate::queue::PoolAction;
use crate::queue::PoolRun;
use crate::queue::SerialRun;
use crate::thread::PoolSetup;
use crate::thread::VhostUserFsThread;
use vstd::prelude::*;

verus! {

/// The maximum number of entries of a queue.
pub const QUEUE_SIZE: usize = 32768;

/// The events of a file descriptor that can be read from, as epoll reports them.
pub const EPOLL_IN: u32 = 1;

/// Whether the device offers the virtio feature with this bit number.
pub open spec fn device_feature(bit: u64) -> bool {
    ||| bit == 26  // LOG_ALL: dirtied memory can be logged
    ||| bit == 28  // RING_INDIRECT_DESC
    ||| bit == 29  // RING_EVENT_IDX
    ||| bit == 30  // PROTOCOL_FEATURES: there are protocol features to negotiate
    ||| bit == 32  // VERSION_1
}

/// The bit number of the virtio feature LOG_ALL.
pub open spec fn log_all_bit() -> u64 {
    26
}

/// The bit number of the protocol feature CONFIG: the configuration space can be read.
pub open spec fn config_bit() -> u64 {
    9
}

/// The bit number of the protocol feature SHMEM: there are shared memory regions.
pub open spec fn shmem_bit() -> u64 {
    22
}

/// Whether the backend offers the protocol feature with this bit number to any front-end.
pub open spec fn base_protocol_feature(bit: u64) -> bool {
    ||| bit == 0  // MQ
    ||| bit == 1  // LOG_SHMFD
    ||| bit == 3  // REPLY_ACK
    ||| bit == 5  // BACKEND_REQ
    ||| bit == 10  // BACKEND_SEND_FD
    ||| bit == 13  // RESET_DEVICE
    ||| bit == 15  // CONFIGURE_MEM_SLOTS
    ||| bit == 19  // DEVICE_STATE
}

/// A builder for configurable creation of [`VhostUserFsBackend`] objects.
#[derive(Debug)]
pub struct VhostUserFsBackendBuilder {
    /// The size of the thread pool. A size of zero asks for no pool.
    pub thread_pool_size: usize,
    /// The tag of the file system.
    pub tag: Option<String>,
    /// The size of the DAX window in bytes. A size of zero disables DAX.
    pub dax_window_size: u64,
}

impl Default for VhostUserFsBackendBuilder {
    /// No thread pool, no tag and no DAX window.
    fn default() -> (builder: Self)
        ensures
            builder == (VhostUserFsBackendBuilder {
                thread_pool_size: 0,
                tag: None,
                dax_window_size: 0,
            }),
    {
        VhostUserFsBackendBuilder { thread_pool_size: 0, tag: None, dax_window_size: 0 }
    }
}

impl VhostUserFsBackendBuilder {
    /// `self` with another size of the thread pool.
    pub open spec fn with_thread_pool_size(self, size: usize) -> Self {
        VhostUserFsBackendBuilder { thread_pool_size: size, ..self }
    }

    /// `self` with another tag.
    pub open spec fn with_tag(self, tag: Option<String>) -> Self {
        VhostUserFsBackendBuilder { tag, ..self }
    }

    /// `self` with another size of the DAX window.
    pub open spec fn with_dax_window_size(self, size: u64) -> Self {
        VhostUserFsBackendBuilder { dax_window_size: size, ..self }
    }

    /// Adjust the size of the thread pool to use.
    ///
    /// A value of `0` disables the usage of a thread pool.
    pub fn set_thread_pool_size(self, size: usize) -> (builder: Self)
        ensures
            builder.thread_pool_size == size,
            builder.tag == self.tag,
            builder.dax_window_size == self.dax_window_size,
            builder == self.with_thread_pool_size(size),
    {
        VhostUserFsBackendBuilder { thread_pool_size: size, ..self }
    }

    /// Set the tag to use for the file system.
    ///
    /// The tag length must not exceed [`MAX_TAG_LEN`](crate::MAX_TAG_LEN) bytes.
    pub fn set_tag(self, tag: Option<String>) -> (builder: Self)
        ensures
            builder.tag == tag,
            builder.thread_pool_size == self.thread_pool_size,
            builder.dax_window_size == self.dax_window_size,
            builder == self.with_tag(tag),
    {
        VhostUserFsBackendBuilder { tag, ..self }
    }

    /// Set the size of the DAX window in bytes. A value of `0` disables DAX.
    pub fn set_dax_window_size(self, size: u64) -> (builder: Self)
        ensures
            builder.dax_window_size == size,
            builder.thread_pool_size == self.thread_pool_size,
            builder.tag == self.tag,
            builder == self.with_dax_window_size(size),
    {
        VhostUserFsBackendBuilder { dax_window_size: size, ..self }
    }

    /// Start to set up the thread pool that was asked for.
    pub fn pool_setup<P>(&self) -> (setup: PoolSetup<P>)
        ensures
            setup.wf(),
            setup.thread_pool_size == self.thread_pool_size,
            setup.ended() <==> self.thread_pool_size == 0,
            setup == PoolSetup::<P>::start_of(self.thread_pool_size),
    {
        PoolSetup::start(self.thread_pool_size)
    }

    /// Build the [`VhostUserFsBackend`] object, once the setup of the thread pool has ended.
    pub fn build<F, M, R, P, T, J>(self, fs: F, setup: PoolSetup<P>) -> (backend: Result<
        VhostUserFsBackend<F, M, R, P, T, J>,
        Error,
    >)
        requires
            setup.wf(),
            setup.ended(),
            setup.thread_pool_size == self.thread_pool_size,
        ensures
            setup.stage matches crate::thread::PoolStage::Failed(error) ==> backend == Err::<
                VhostUserFsBackend<F, M, R, P, T, J>,
                Error,
            >(error),
            setup.stage matches crate::thread::PoolStage::Ready(pool) ==> {
                &&& backend == Ok::<VhostUserFsBackend<F, M, R, P, T, J>, Error>(
                    VhostUserFsBackend::initial(fs, pool, self.tag, self.dax_window_size),
                )
                &&& pool is Some <==> self.thread_pool_size > 0
            },
            backend matches Ok(backend) ==> {
                &&& backend.tag == self.tag
                &&& backend.dax_window_size == self.dax_window_size
                &&& backend.thread.server == fs
                &&& setup.stage == crate::thread::PoolStage::Ready(backend.thread.pool)
                &&& backend.thread.mem is None
                &&& backend.thread.vu_req is None
                &&& !backend.thread.event_idx
                &&& backend.migration.premigration_thread is None
                &&& backend.migration.migration_thread is None
            },
    {
        let thread = match VhostUserFsThread::new(fs, setup) {
            Ok(thread) => thread,
            Err(error) => {
                return Err(error);
            },
        };
        Ok(
            VhostUserFsBackend {
                thread,
                migration: MigrationThreads::new(),
                tag: self.tag,
                dax_window_size: self.dax_window_size,
            },
        )
    }
}

/// A vhost-user backend that serves a file system. `F` is the file system server, `M` guest
/// memory, `R` the channel for requests to the front-end, and `P` the thread pool; `T` is the
/// handle of a thread that prepares for migration, and `J` that of a thread that transfers the
/// state.
#[derive(Debug)]
pub struct VhostUserFsBackend<F, M, R, P, T, J> {
    /// The part that processes the queues.
    pub thread: VhostUserFsThread<F, M, R, P>,
    /// The threads that migration involves.
    pub migration: MigrationThreads<T, J>,
    /// The tag of the file system.
    pub tag: Option<String>,
    /// The size of the DAX window in bytes. A size of zero disables DAX.
    pub dax_window_size: u64,
}

impl<F, M, R, P, T, J> VhostUserFsBackend<F, M, R, P, T, J> {
    /// The state of a backend that has just been built.
    pub open spec fn initial(
        fs: F,
        pool: Option<P>,
        tag: Option<String>,
        dax_window_size: u64,
    ) -> Self {
        VhostUserFsBackend {
            thread: VhostUserFsThread::initial(fs, pool),
            migration: MigrationThreads { premigration_thread: None, migration_thread: None },
            tag,
            dax_window_size,
        }
    }

    /// Whether the backend offers the protocol feature with this bit number.
    pub open spec fn protocol_feature(self, bit: u64) -> bool {
        ||| base_protocol_feature(bit)
        ||| bit == config_bit() && self.tag is Some
        ||| bit == shmem_bit() && self.dax_window_size > 0
    }

    /// `self` with these threads.
    pub open spec fn with_migration(self, migration: MigrationThreads<T, J>) -> Self {
        VhostUserFsBackend { migration, ..self }
    }

    /// `self` with EVENT_IDX in use or not.
    pub open spec fn with_event_idx(self, enabled: bool) -> Self {
        VhostUserFsBackend {
            thread: VhostUserFsThread { event_idx: enabled, ..self.thread },
            ..self
        }
    }

    /// `self` with this guest memory.
    pub open spec fn with_memory(self, mem: M) -> Self {
        VhostUserFsBackend { thread: VhostUserFsThread { mem: Some(mem), ..self.thread }, ..self }
    }

    /// `self` with this channel for requests to the front-end.
    pub open spec fn with_channel(self, vu_req: R) -> Self {
        VhostUserFsBackend {
            thread: VhostUserFsThread { vu_req: Some(vu_req), ..self.thread },
            ..self
        }
    }

    /// Create a [`VhostUserFsBackend`] without a thread pool or a tag.
    ///
    /// For more configurable creation refer to [`VhostUserFsBackendBuilder`].
    pub fn new(fs: F) -> (backend: Result<Self, Error>)
        ensures
            backend matches Ok(backend) && backend.thread.server == fs && backend.thread.pool
                is None && backend.tag is None && backend.dax_window_size == 0,
            backend == Ok::<Self, Error>(Self::initial(fs, None, None, 0)),
    {
        let builder = VhostUserFsBackendBuilder::default();
        let setup = builder.pool_setup();
        builder.build(fs, setup)
    }

    /// The number of queues.
    pub fn num_queues(&self) -> (queues: usize)
        ensures
            queues == NUM_QUEUES,
    {
        NUM_QUEUES
    }

    /// The maximum number of entries of a queue.
    pub fn max_queue_size(&self) -> (size: usize)
        ensures
            size == QUEUE_SIZE,
    {
        QUEUE_SIZE
    }

    /// The virtio features that the device offers.
    pub fn features(&self) -> (features: u64)
        ensures
            features == 0x1_7400_0000,
            forall|bit: u64|
                bit < 64 ==> (#[trigger] crate::bits::has_bit(features, bit) <==> device_feature(
                    bit,
                )),
    {
        let virtio = virtio_feature_bits();
        let transport = transport_feature_masks();
        let features: u64 = (1u64 << virtio.version_1) | (1u64 << virtio.indirect_desc) | (1u64
            << virtio.event_idx) | transport.protocol_features | transport.log_all;
        assert((1u64 << 32u32) | (1u64 << 28u32) | (1u64 << 29u32) | 0x4000_0000 | 0x400_0000
            == 0x1_7400_0000) by (bit_vector);
        assert forall|bit: u64| bit < 64 implies (#[trigger] crate::bits::has_bit(features, bit)
            <==> device_feature(bit)) by {
            assert((0x1_7400_0000u64 >> bit) & 1 == 1 <==> (bit == 26 || bit == 28 || bit == 29
                || bit == 30 || bit == 32)) by (bit_vector)
                requires
                    bit < 64,
            ;
        }
        features
    }

    /// The protocol features that the backend offers.
    pub fn protocol_features(&self) -> (features: u64)
        ensures
            features == 0x8_a42b + (if self.tag is Some {
                0x200int
            } else {
                0
            }) + (if self.dax_window_size > 0 {
                0x40_0000int
            } else {
                0
            }),
            forall|bit: u64|
                bit < 64 ==> (#[trigger] crate::bits::has_bit(features, bit)
                    <==> self.protocol_feature(bit)),
    {
        let masks = protocol_feature_masks();
        let mut features: u64 = masks.mq | masks.backend_req | masks.backend_send_fd
            | masks.reply_ack | masks.configure_mem_slots | masks.log_shmfd | masks.device_state
            | masks.reset_device;
        assert(0x1u64 | 0x20 | 0x400 | 0x8 | 0x8000 | 0x2 | 0x8_0000 | 0x2000 == 0x8_a42b)
            by (bit_vector);

        if self.tag.is_some() {
            features = features | masks.config;
        }
        if self.dax_window_size > 0 {
            features = features | masks.shmem;
        }
        proof {
            assert(0x8_a42bu64 | 0x200 == 0x8_a62b) by (bit_vector);
            assert(0x8_a42bu64 | 0x40_0000 == 0x48_a42b) by (bit_vector);
            assert(0x8_a62bu64 | 0x40_0000 == 0x48_a62b) by (bit_vector);
            let tagged = self.tag is Some;
            let dax = self.dax_window_size > 0;
            assert forall|bit: u64| bit < 64 implies (#[trigger] crate::bits::has_bit(
                features,
                bit,
            ) <==> self.protocol_feature(bit)) by {
                assert((features >> bit) & 1 == 1 <==> (bit == 0 || bit == 1 || bit == 3 || bit == 5
                    || bit == 10 || bit == 13 || bit == 15 || bit == 19 || (bit == 9 && tagged) || (
                bit == 22 && dax))) by (bit_vector)
                    requires
                        bit < 64,
                        features == (if tagged {
                            if dax {
                                0x48_a62bu64
                            } else {
                                0x8_a62bu64
                            }
                        } else {
                            if dax {
                                0x48_a42bu64
                            } else {
                                0x8_a42bu64
                            }
                        }),
                ;
            }
        }
        features
    }

    /// The shared memory regions of the device: the DAX window, if DAX is enabled.
    pub fn get_shmem_config(&self) -> (config: Result<ShMemConfig, IoError>)
        ensures
            self.dax_window_size == 0 ==> crate::error::fails_with(
                config,
                IoErrorKind::Unsupported,
                "DAX is not enabled"@,
            ),
            self.dax_window_size > 0 ==> {
                &&& config is Ok
                &&& config->Ok_0.nregions == 1
                &&& config->Ok_0.memory_sizes@ == Seq::new(
                    256,
                    |i: int|
                        if i == 0 {
                            self.dax_window_size
                        } else {
                            0u64
                        },
                )
            },
    {
        if self.dax_window_size == 0 {
            return Err(
                IoError::Message {
                    kind: IoErrorKind::Unsupported,
                    message: "DAX is not enabled".to_owned(),
                },
            );
        }
        let sizes: [u64; 1] = [self.dax_window_size];
        let config = shmem_config(1, sizes.as_slice());
        assert(config.memory_sizes@ =~= Seq::new(
            256,
            |i: int|
                if i == 0 {
                    self.dax_window_size
                } else {
                    0u64
                },
        ));
        Ok(config)
    }

    /// Read `size` bytes of the configuration space from `offset` on. What lies beyond its end
    /// reads as zeros.
    ///
    /// Without a tag there is no configuration space, and none is offered to the front-end.
    pub fn get_config(&self, offset: u32, size: u32) -> (result: Vec<u8>)
        requires
            self.tag matches Some(tag) && crate::config::valid_tag(tag@),
        ensures
            result@ == crate::config::window(
                crate::config::config_space(self.tag->0@),
                offset as int,
                size as nat,
            ),
    {
        let tag = self.tag.as_ref().expect(
            "Did not expect read of config if tag is not set. We do not advertise F_CONFIG in that case!",
        );
        VirtioFsConfig::with_tag(tag.as_str()).read(offset, size)
    }

    /// The front-end acknowledged these virtio features. With LOG_ALL among them it announces a
    /// migration, and without it takes that back.
    pub fn acked_features(&mut self, features: u64) -> (action: PreparationAction<T>)
        ensures
            ({
                let log_all = crate::bits::has_bit(features, log_all_bit());
                &&& action is Start <==> log_all && old(self).migration.premigration_thread is None
                &&& action is Cancel <==> !log_all && old(self).migration.premigration_thread
                    is Some
                &&& action == old(self).migration.preparation_action(log_all)
                &&& *final(self) == old(self).with_migration(
                    old(self).migration.after_log_all(log_all),
                )
                &&& final(self).migration == old(self).migration.after_log_all(log_all)
            }),
            final(self).migration.migration_thread == old(self).migration.migration_thread,
            final(self).thread == old(self).thread,
            final(self).tag == old(self).tag,
            final(self).dax_window_size == old(self).dax_window_size,
    {
        let log_all: bool = features & transport_feature_masks().log_all != 0;
        proof {
            assert(1u64 << 26u64 == 0x400_0000) by (bit_vector);
            crate::bits::lemma_mask_tests_bit(features, 26);
        }
        self.migration.log_all_changed(log_all)
    }

    /// A thread started to prepare for migration.
    pub fn preparation_started(&mut self, thread: T)
        requires
            old(self).migration.premigration_thread is None,
        ensures
            *final(self) == old(self).with_migration(old(self).migration.after_start(thread)),
            final(self).migration.premigration_thread == Some(thread),
            final(self).migration.migration_thread == old(self).migration.migration_thread,
            final(self).thread == old(self).thread,
            final(self).tag == old(self).tag,
            final(self).dax_window_size == old(self).dax_window_size,
    {
        self.migration.preparation_started(thread);
    }

    /// Enable or disable the use of EVENT_IDX.
    pub fn set_event_idx(&mut self, enabled: bool)
        ensures
            *final(self) == old(self).with_event_idx(enabled),
            final(self).thread.event_idx == enabled,
            final(self).thread.mem == old(self).thread.mem,
            final(self).thread.server == old(self).thread.server,
            final(self).thread.vu_req == old(self).thread.vu_req,
            final(self).thread.pool == old(self).thread.pool,
            final(self).migration == old(self).migration,
            final(self).tag == old(self).tag,
            final(self).dax_window_size == old(self).dax_window_size,
    {
        self.thread.event_idx = enabled;
    }

    /// Configure guest memory.
    pub fn update_memory(&mut self, mem: M) -> (result: Result<(), IoError>)
        ensures
            result is Ok,
            *final(self) == old(self).with_memory(mem),
            final(self).thread.mem == Some(mem),
            final(self).thread.server == old(self).thread.server,
            final(self).thread.vu_req == old(self).thread.vu_req,
            final(self).thread.event_idx == old(self).thread.event_idx,
            final(self).thread.pool == old(self).thread.pool,
            final(self).migration == old(self).migration,
            final(self).tag == old(self).tag,
            final(self).dax_window_size == old(self).dax_window_size,
    {
        self.thread.mem = Some(mem);
        Ok(())
    }

    /// Set the channel for requests from the backend to the front-end.
    pub fn set_backend_req_fd(&mut self, vu_req: R)
        ensures
            *final(self) == old(self).with_channel(vu_req),
            final(self).thread.vu_req == Some(vu_req),
            final(self).thread.mem == old(self).thread.mem,
            final(self).thread.server == old(self).thread.server,
            final(self).thread.event_idx == old(self).thread.event_idx,
            final(self).thread.pool == old(self).thread.pool,
            final(self).migration == old(self).migration,
            final(self).tag == old(self).tag,
            final(self).dax_window_size == old(self).dax_window_size,
    {
        self.thread.vu_req = Some(vu_req);
    }

    /// Start to handle a device event, with these epoll events on its file descriptor. Only input
    /// events are handled.
    pub fn handle_event(&self, device_event: u16, evset: u32) -> (run: Result<EventRun, IoError>)
        ensures
            run == (if evset != EPOLL_IN {
                Err(IoError::Backend(Error::HandleEventNotEpollIn))
            } else {
                EventRun::start_for(
                    device_event,
                    self.thread.pool is Some,
                    self.thread.event_idx,
                )
            }),
            run is Ok <==> evset == 1 && device_event <= 1,
            run matches Ok(run) ==> {
                &&& run.queue == device_event
                &&& run.pooled == (self.thread.pool is Some)
                &&& run.event_idx == self.thread.event_idx
                &&& run.action is DisableNotification <==> self.thread.event_idx
                &&& run.action is ProcessQueue <==> !self.thread.event_idx
            },
    {
        if evset != event_set_in() {
            return Err(IoError::from(Error::HandleEventNotEpollIn));
        }
        if self.thread.pool.is_some() {
            self.thread.handle_event_pool(device_event)
        } else {
            self.thread.handle_event_serial(device_event)
        }
    }

    /// The front-end asked for the state to be transferred. Only a stopped device can do that.
    pub fn set_device_state_fd(
        &mut self,
        direction: TransferDirection,
        phase: TransferPhase,
    ) -> (transfer: Result<StateTransfer<T>, IoError>)
        ensures
            match phase {
                TransferPhase::Stopped => {
                    &&& transfer == Ok::<StateTransfer<T>, IoError>(
                        old(self).migration.transfer_of(direction),
                    )
                    &&& *final(self) == old(self).with_migration(
                        old(self).migration.without_preparation(),
                    )
                    &&& transfer->Ok_0.preparation == old(self).migration.premigration_thread
                    &&& final(self).migration.premigration_thread is None
                    &&& final(self).migration.migration_thread
                        == old(self).migration.migration_thread
                    &&& final(self).thread == old(self).thread
                    &&& final(self).tag == old(self).tag
                    &&& final(self).dax_window_size == old(self).dax_window_size
                },
                TransferPhase::Other(name) => {
                    &&& crate::error::fails_with(
                        transfer,
                        IoErrorKind::Unsupported,
                        "Transfer in phase "@ + name@ + " is not supported"@,
                    )
                    &&& *final(self) == *old(self)
                },
            },
    {
        self.migration.do_set_device_state_fd(direction, phase)
    }

    /// A thread started to transfer the state, which is the last stage of the request for it. Says
    /// what the request is answered.
    pub fn transfer_started(&mut self, request: RequestStage, thread: J) -> (answer: Result<
        (),
        IoError,
    >)
        requires
            request is StartThread,
        ensures
            *final(self) == old(self).with_migration(old(self).migration.after_transfer(thread)),
            final(self).migration.migration_thread == Some(thread),
            final(self).migration.premigration_thread == old(self).migration.premigration_thread,
            final(self).thread == old(self).thread,
            final(self).tag == old(self).tag,
            final(self).dax_window_size == old(self).dax_window_size,
            answer == Ok::<(), IoError>(()),
    {
        self.migration.transfer_started(request, thread)
    }

    /// The front-end asks what came of the transfer. The thread to wait for is handed out, and
    /// [`transfer_joined`](crate::transfer_joined) says what to answer. Asking for it without a
    /// transfer is a protocol violation.
    pub fn check_device_state(&mut self) -> (thread: Result<J, IoError>)
        ensures
            *final(self) == old(self).with_migration(old(self).migration.without_transfer()),
            final(self).migration.migration_thread is None,
            final(self).migration.premigration_thread == old(self).migration.premigration_thread,
            final(self).thread == old(self).thread,
            final(self).tag == old(self).tag,
            final(self).dax_window_size == old(self).dax_window_size,
            match old(self).migration.migration_thread {
                Some(handle) => thread == Ok::<J, IoError>(handle),
                None => crate::error::fails_with(
                    thread,
                    IoErrorKind::InvalidInput,
                    "Front-end attempts to check migration state, but no migration has been done"@,
                ),
            },
    {
        self.migration.do_check_device_state()
    }
}

/// The configuration space is offered just if there is a tag to be read from it, and shared memory
/// just if there is a DAX window. Whatever else is offered does not depend on how the backend was
/// built.
pub proof fn law_offered_protocol_features<F, M, R, P, T, J>(
    backend: VhostUserFsBackend<F, M, R, P, T, J>,
    bit: u64,
)
    ensures
        backend.protocol_feature(config_bit()) <==> backend.tag is Some,
        backend.protocol_feature(shmem_bit()) <==> backend.dax_window_size > 0,
        bit != config_bit() && bit != shmem_bit() ==> (backend.protocol_feature(bit)
            <==> base_protocol_feature(bit)),
{
}

/// A backend that has just been built processes no queue, because no guest memory is configured.
/// Once it is, queues are processed, whatever is set besides. Nothing of this changes what is
/// offered to the front-end.
pub proof fn law_queues_are_processed_once_memory_is_configured<F, M, R, P, T, J>(
    fs: F,
    pool: Option<P>,
    tag: Option<String>,
    dax_window_size: u64,
    backend: VhostUserFsBackend<F, M, R, P, T, J>,
    mem: M,
    enabled: bool,
    vu_req: R,
    bit: u64,
)
    ensures
        ({
            let thread = VhostUserFsBackend::<F, M, R, P, T, J>::initial(
                fs,
                pool,
                tag,
                dax_window_size,
            ).thread;
            PoolRun::start_of(thread.mem is Some, thread.event_idx).action == PoolAction::Finished(
                Err(Error::NoMemoryConfigured),
            )
        }),
        ({
            let configured = backend.with_memory(mem).with_event_idx(enabled).with_channel(vu_req);
            let thread = configured.thread;
            &&& thread.mem == Some(mem)
            &&& PoolRun::start_of(thread.mem is Some, thread.event_idx).action is FetchChain
            &&& forall|run: SerialRun| #[trigger]
                run.is_start_of(thread.mem is Some, thread.event_idx) ==> run.action
                    is CollectChains
            &&& configured.protocol_feature(bit) == backend.protocol_feature(bit)
        }),
{
}

/// The settings of a builder do not depend on the order in which they are made, and of two that
/// are made for the same thing the last one counts.
pub proof fn law_builder_settings_are_independent(
    builder: VhostUserFsBackendBuilder,
    size: usize,
    tag: Option<String>,
    window: u64,
    later: (usize, Option<String>, u64),
)
    ensures
        builder.with_thread_pool_size(size).with_tag(tag) == builder.with_tag(
            tag,
        ).with_thread_pool_size(size),
        builder.with_thread_pool_size(size).with_dax_window_size(window)
            == builder.with_dax_window_size(window).with_thread_pool_size(size),
        builder.with_tag(tag).with_dax_window_size(window) == builder.with_dax_window_size(
            window,
        ).with_tag(tag),
        builder.with_thread_pool_size(size).with_thread_pool_size(later.0)
            == builder.with_thread_pool_size(later.0),
        builder.with_tag(tag).with_tag(later.1) == builder.with_tag(later.1),
        builder.with_dax_window_size(window).with_dax_window_size(later.2)
            == builder.with_dax_window_size(later.2),
{
}

/// The protocol features that are offered to any front-end are these eight, by their bit numbers.
/// The configuration space (9) and shared memory (22) come in addition. A word offers what its bits
/// say.
pub proof fn law_protocol_features_by_number<F, M, R, P, T, J>(
    backend: VhostUserFsBackend<F, M, R, P, T, J>,
    bit: u64,
    features: u64,
)
    ensures
        backend.protocol_feature(bit) <==> {
            ||| bit == 0 || bit == 1 || bit == 3 || bit == 5
            ||| bit == 10 || bit == 13 || bit == 15 || bit == 19
            ||| bit == 9 && backend.tag is Some
            ||| bit == 22 && backend.dax_window_size != 0
        },
        device_feature(bit) <==> bit == 26 || bit == 28 || bit == 29 || bit == 30 || bit == 32,
        crate::bits::has_bit(features, log_all_bit()) <==> features & 0x400_0000 != 0,
{
    assert((features >> 26) & 1 == 1 <==> features & 0x400_0000 != 0) by (bit_vector);
}

/// Each setting of a builder is the one that was made, and no setting changes another.
pub proof fn law_builder_keeps_each_setting(
    builder: VhostUserFsBackendBuilder,
    size: usize,
    tag: Option<String>,
    window: u64,
)
    ensures
        builder.with_thread_pool_size(size).thread_pool_size == size,
        builder.with_thread_pool_size(size).tag == builder.tag,
        builder.with_thread_pool_size(size).dax_window_size == builder.dax_window_size,
        builder.with_tag(tag).tag == tag,
        builder.with_tag(tag).thread_pool_size == builder.thread_pool_size,
        builder.with_tag(tag).dax_window_size == builder.dax_window_size,
        builder.with_dax_window_size(window).dax_window_size == window,
        builder.with_dax_window_size(window).thread_pool_size == builder.thread_pool_size,
        builder.with_dax_window_size(window).tag == builder.tag,
{
}

/// A backend that was built has the tag and the DAX window that were set on the builder, the file
/// system that it was given and the pool that was set up, whichever they are. So it offers its
/// configuration space just if a tag was set, and shared memory just if a DAX window was, with a
/// pool or without. No migration is going on, and nothing has been negotiated.
pub proof fn law_built_backend_has_the_settings<F, M, R, P, T, J>(
    builder: VhostUserFsBackendBuilder,
    size: usize,
    tag: Option<String>,
    window: u64,
    fs: F,
    pool: Option<P>,
)
    ensures
        ({
            let set = builder.with_thread_pool_size(size).with_tag(tag).with_dax_window_size(
                window,
            );
            let backend = VhostUserFsBackend::<F, M, R, P, T, J>::initial(
                fs,
                pool,
                set.tag,
                set.dax_window_size,
            );
            &&& backend.tag == tag
            &&& backend.dax_window_size == window
            &&& backend.thread.server == fs
            &&& backend.thread.pool == pool
            &&& backend.thread.mem is None
            &&& backend.thread.vu_req is None
            &&& !backend.thread.event_idx
            &&& backend.migration.premigration_thread is None
            &&& backend.migration.migration_thread is None
            &&& backend.protocol_feature(9) <==> tag is Some
            &&& backend.protocol_feature(22) <==> window > 0
        }),
{
}

/// The use of EVENT_IDX is what it was set to last, and setting it changes nothing else of the
/// backend, whatever that holds.
pub proof fn law_event_idx_is_what_was_set<F, M, R, P, T, J>(
    backend: VhostUserFsBackend<F, M, R, P, T, J>,
    enabled: bool,
)
    ensures
        backend.with_event_idx(enabled).thread.event_idx == enabled,
        backend.with_event_idx(enabled).thread.mem == backend.thread.mem,
        backend.with_event_idx(enabled).thread.server == backend.thread.server,
        backend.with_event_idx(enabled).thread.vu_req == backend.thread.vu_req,
        backend.with_event_idx(enabled).thread.pool == backend.thread.pool,
        backend.with_event_idx(enabled).migration == backend.migration,
        backend.with_event_idx(enabled).tag == backend.tag,
        backend.with_event_idx(enabled).dax_window_size == backend.dax_window_size,
{
}

/// Guest memory is what was configured last, and configuring it changes nothing else of the
/// backend, whatever that holds.
pub proof fn law_memory_is_what_was_configured<F, M, R, P, T, J>(
    backend: VhostUserFsBackend<F, M, R, P, T, J>,
    mem: M,
)
    ensures
        backend.with_memory(mem).thread.mem == Some(mem),
        backend.with_memory(mem).thread.server == backend.thread.server,
        backend.with_memory(mem).thread.vu_req == backend.thread.vu_req,
        backend.with_memory(mem).thread.event_idx == backend.thread.event_idx,
        backend.with_memory(mem).thread.pool == backend.thread.pool,
        backend.with_memory(mem).migration == backend.migration,
        backend.with_memory(mem).tag == backend.tag,
        backend.with_memory(mem).dax_window_size == backend.dax_window_size,
{
}

/// The channel for requests is the one that was set last, and setting it changes nothing else of
/// the backend, whatever that holds.
pub proof fn law_channel_is_what_was_set<F, M, R, P, T, J>(
    backend: VhostUserFsBackend<F, M, R, P, T, J>,
    vu_req: R,
)
    ensures
        backend.with_channel(vu_req).thread.vu_req == Some(vu_req),
        backend.with_channel(vu_req).thread.mem == backend.thread.mem,
        backend.with_channel(vu_req).thread.server == backend.thread.server,
        backend.with_channel(vu_req).thread.event_idx == backend.thread.event_idx,
        backend.with_channel(vu_req).thread.pool == backend.thread.pool,
        backend.with_channel(vu_req).migration == backend.migration,
        backend.with_channel(vu_req).tag == backend.tag,
        backend.with_channel(vu_req).dax_window_size == backend.dax_window_size,
{
}

/// The migration threads of a backend are those that a request left, and nothing else of the
/// backend changes, whatever that holds.
pub proof fn law_migration_threads_are_what_was_left<F, M, R, P, T, J>(
    backend: VhostUserFsBackend<F, M, R, P, T, J>,
    migration: MigrationThreads<T, J>,
)
    ensures
        backend.with_migration(migration).migration == migration,
        backend.with_migration(migration).thread == backend.thread,
        backend.with_migration(migration).tag == backend.tag,
        backend.with_migration(migration).dax_window_size == backend.dax_window_size,
{
}

/// An event that is handled once EVENT_IDX was enabled or disabled is handled with it or without,
/// as it was set, and with the thread pool if there is one, on the queue that it is about. Guest
/// memory, the channel and migration have no bearing on that.
pub proof fn law_events_go_by_what_was_negotiated<F, M, R, P, T, J>(
    backend: VhostUserFsBackend<F, M, R, P, T, J>,
    enabled: bool,
    mem: M,
    vu_req: R,
    migration: MigrationThreads<T, J>,
    device_event: u16,
)
    requires
        device_event <= 1,
    ensures
        ({
            let thread = backend.with_event_idx(enabled).with_memory(mem).with_channel(
                vu_req,
            ).with_migration(migration).thread;
            let run = EventRun::start_for(device_event, thread.pool is Some, thread.event_idx);
            &&& run is Ok
            &&& run->Ok_0.queue == device_event
            &&& run->Ok_0.event_idx == enabled
            &&& run->Ok_0.pooled <==> backend.thread.pool is Some
            &&& run->Ok_0.action is DisableNotification <==> enabled
            &&& run->Ok_0.action is ProcessQueue <==> !enabled
        }),
{
}

/// A transfer that was started on a backend is handed out when the front-end asks for it, whatever
/// the backend holds, and whatever is negotiated and announced in between. Asked once more, the
/// backend has none.
pub proof fn law_started_transfer_is_handed_out<F, M, R, P, T, J>(
    backend: VhostUserFsBackend<F, M, R, P, T, J>,
    transfer: J,
    enabled: bool,
    mem: M,
    vu_req: R,
    log_all: bool,
)
    ensures
        ({
            let started = backend.with_migration(backend.migration.after_transfer(transfer));
            let later = started.with_event_idx(enabled).with_memory(mem).with_channel(vu_req);
            let asked = later.with_migration(later.migration.after_log_all(log_all));
            let asked_again = asked.with_migration(asked.migration.without_transfer());
            &&& started.migration.migration_thread == Some(transfer)
            &&& asked.migration.migration_thread == Some(transfer)
            &&& asked_again.migration.migration_thread is None
        }),
{
}

/// Something that the front-end asks of a running backend.
pub enum BackendRequest<M, R, T, J> {
    /// To use EVENT_IDX, or not to.
    SetEventIdx { enabled: bool },
    /// To use this guest memory.
    UpdateMemory { mem: M },
    /// To use this channel for requests to the front-end.
    SetChannel { vu_req: R },
    /// Something about migration.
    Migrate { request: FrontEndRequest<T, J> },
}

/// Those of the requests that are about migration, in order.
pub open spec fn migration_requests<M, R, T, J>(
    requests: Seq<BackendRequest<M, R, T, J>>,
) -> Seq<FrontEndRequest<T, J>>
    decreases requests.len(),
{
    if requests.len() == 0 {
        Seq::empty()
    } else {
        let earlier = migration_requests(requests.drop_last());
        match requests.last() {
            BackendRequest::Migrate { request } => earlier.push(request),
            _ => earlier,
        }
    }
}

impl<F, M, R, P, T, J> VhostUserFsBackend<F, M, R, P, T, J> {
    /// The backend after this request.
    pub open spec fn after(self, request: BackendRequest<M, R, T, J>) -> Self {
        match request {
            BackendRequest::SetEventIdx { enabled } => self.with_event_idx(enabled),
            BackendRequest::UpdateMemory { mem } => self.with_memory(mem),
            BackendRequest::SetChannel { vu_req } => self.with_channel(vu_req),
            BackendRequest::Migrate { request } => self.with_migration(
                self.migration.after(request),
            ),
        }
    }

    /// The backend after these requests.
    pub open spec fn after_all(self, requests: Seq<BackendRequest<M, R, T, J>>) -> Self
        decreases requests.len(),
    {
        if requests.len() == 0 {
            self
        } else {
            self.after_all(requests.drop_last()).after(requests.last())
        }
    }
}

/// Whatever the front-end asks, a backend stays the one that was built: its tag, its DAX window,
/// its file system and its pool are never changed. The migration threads are those that the
/// requests about migration leave by themselves, so what holds of these holds of every backend.
pub proof fn law_requests_leave_the_settings_alone<F, M, R, P, T, J>(
    backend: VhostUserFsBackend<F, M, R, P, T, J>,
    requests: Seq<BackendRequest<M, R, T, J>>,
)
    ensures
        backend.after_all(requests).tag == backend.tag,
        backend.after_all(requests).dax_window_size == backend.dax_window_size,
        backend.after_all(requests).thread.server == backend.thread.server,
        backend.after_all(requests).thread.pool == backend.thread.pool,
        backend.after_all(requests).migration == backend.migration.after_all(
            migration_requests(requests),
        ),
    decreases requests.len(),
{
    if requests.len() > 0 {
        law_requests_leave_the_settings_alone(backend, requests.drop_last());
        if requests.last() is Migrate {
            let earlier = migration_requests(requests.drop_last());
            assert(migration_requests(requests).drop_last() =~= earlier);
        }
    }
}

/// Whatever the front-end asks, EVENT_IDX is in use as it said last, at position `last`, and as
/// before if it never did (-1).
pub proof fn law_last_word_on_event_idx_counts<F, M, R, P, T, J>(
    backend: VhostUserFsBackend<F, M, R, P, T, J>,
    requests: Seq<BackendRequest<M, R, T, J>>,
    last: int,
)
    requires
        -1 <= last < requests.len(),
        last >= 0 ==> requests[last] is SetEventIdx,
        forall|i: int| last < i < requests.len() ==> !(#[trigger] requests[i] is SetEventIdx),
    ensures
        backend.after_all(requests).thread.event_idx == if last >= 0 {
            requests[last]->enabled
        } else {
            backend.thread.event_idx
        },
    decreases requests.len(),
{
    if requests.len() > 0 && last < requests.len() - 1 {
        let rest = requests.drop_last();
        assert(!(requests[requests.len() - 1] is SetEventIdx));
        assert forall|i: int| last < i < rest.len() implies !(#[trigger] rest[i]
            is SetEventIdx) by {
            assert(rest[i] == requests[i]);
        }
        law_last_word_on_event_idx_counts(backend, rest, last);
    }
}

/// Whatever the front-end asks, guest memory is what it configured last, at position `last`, and as
/// before if it never did (-1). Once configured, it is never taken away.
pub proof fn law_last_memory_counts<F, M, R, P, T, J>(
    backend: VhostUserFsBackend<F, M, R, P, T, J>,
    requests: Seq<BackendRequest<M, R, T, J>>,
    last: int,
)
    requires
        -1 <= last < requests.len(),
        last >= 0 ==> requests[last] is UpdateMemory,
        forall|i: int| last < i < requests.len() ==> !(#[trigger] requests[i] is UpdateMemory),
    ensures
        backend.after_all(requests).thread.mem == if last >= 0 {
            Some(requests[last]->mem)
        } else {
            backend.thread.mem
        },
    decreases requests.len(),
{
    if requests.len() > 0 && last < requests.len() - 1 {
        let rest = requests.drop_last();
        assert(!(requests[requests.len() - 1] is UpdateMemory));
        assert forall|i: int| last < i < rest.len() implies !(#[trigger] rest[i]
            is UpdateMemory) by {
            assert(rest[i] == requests[i]);
        }
        law_last_memory_counts(backend, rest, last);
    }
}

} // verus!
