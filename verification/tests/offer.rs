use vhost::vhost_user::message::{
    VhostUserProtocolFeatures, VhostUserShMemConfig, VhostUserVirtioFeatures,
};
use vhost_user_fs::{
    Error, IoErrorKind, OsError, PoolSetup, PoolStage, VhostUserFsBackend,
    VhostUserFsBackendBuilder, EPOLL_IN, HIPRIO_QUEUE_EVENT, NUM_QUEUES, QUEUE_SIZE,
    REQ_QUEUE_EVENT,
};
use virtio_bindings::bindings::virtio_config::VIRTIO_F_VERSION_1;
use virtio_bindings::bindings::virtio_ring::{
    VIRTIO_RING_F_EVENT_IDX, VIRTIO_RING_F_INDIRECT_DESC,
};
use vmm_sys_util::epoll::EventSet;

type Backend = VhostUserFsBackend<&'static str, u32, u8, &'static str, u32, u64>;

fn os_error(display: &str) -> OsError {
    OsError {
        kind: std::io::ErrorKind::PermissionDenied,
        display: display.to_string(),
        debug: format!("Os({})", display),
    }
}

fn built(tag: Option<&str>, dax_window_size: u64) -> Backend {
    let builder = VhostUserFsBackendBuilder::default()
        .set_tag(tag.map(|tag| tag.to_string()))
        .set_dax_window_size(dax_window_size);
    let setup = builder.pool_setup();
    builder.build("fs", setup).unwrap()
}

#[test]
fn device_features_are_those_of_the_virtio_crates() {
    let features = Backend::new("fs").unwrap().features();
    assert_eq!(features, 0x1_7400_0000);
    let expected = (1u64 << VIRTIO_F_VERSION_1)
        | (1u64 << VIRTIO_RING_F_INDIRECT_DESC)
        | (1u64 << VIRTIO_RING_F_EVENT_IDX)
        | VhostUserVirtioFeatures::PROTOCOL_FEATURES.bits()
        | VhostUserVirtioFeatures::LOG_ALL.bits();
    assert_eq!(features, expected);
}

#[test]
fn protocol_features_follow_tag_and_dax() {
    let base = VhostUserProtocolFeatures::MQ
        | VhostUserProtocolFeatures::BACKEND_REQ
        | VhostUserProtocolFeatures::BACKEND_SEND_FD
        | VhostUserProtocolFeatures::REPLY_ACK
        | VhostUserProtocolFeatures::CONFIGURE_MEM_SLOTS
        | VhostUserProtocolFeatures::LOG_SHMFD
        | VhostUserProtocolFeatures::DEVICE_STATE
        | VhostUserProtocolFeatures::RESET_DEVICE;
    let config = VhostUserProtocolFeatures::CONFIG;
    let shmem = VhostUserProtocolFeatures::SHMEM;
    assert_eq!(built(None, 0).protocol_features(), base.bits());
    assert_eq!(built(Some("t"), 0).protocol_features(), (base | config).bits());
    assert_eq!(built(None, 4096).protocol_features(), (base | shmem).bits());
    assert_eq!(built(Some("t"), 1).protocol_features(), (base | config | shmem).bits());
    assert_eq!(built(None, 0).protocol_features(), 0x8_a42b);
}

#[test]
fn shared_memory_is_the_dax_window() {
    let config = built(None, 0x4000_0000).get_shmem_config().unwrap();
    let expected = VhostUserShMemConfig::new(1, &[0x4000_0000]);
    assert_eq!(config.nregions, expected.nregions);
    assert_eq!(config.memory_sizes, expected.memory_sizes);
    assert_eq!(config.memory_sizes[0], 0x4000_0000);
    assert_eq!(config.memory_sizes[1], 0);
}

#[test]
fn shared_memory_needs_dax() {
    let error = built(Some("t"), 0).get_shmem_config().unwrap_err();
    assert!(matches!(error.kind(), IoErrorKind::Unsupported));
    assert_eq!(error.display(), "DAX is not enabled");
}

#[test]
fn new_backend_is_plain() {
    let backend = Backend::new("fs").unwrap();
    assert_eq!(backend.thread.server, "fs");
    assert!(backend.tag.is_none());
    assert_eq!(backend.dax_window_size, 0);
    assert!(backend.thread.pool.is_none());
    assert!(backend.thread.mem.is_none());
    assert!(backend.thread.vu_req.is_none());
    assert!(!backend.thread.event_idx);
    assert!(backend.migration.premigration_thread.is_none());
    assert!(backend.migration.migration_thread.is_none());
    assert_eq!(backend.num_queues(), 2);
    assert_eq!(backend.max_queue_size(), 32768);
    assert_eq!(NUM_QUEUES, 2);
    assert_eq!(QUEUE_SIZE, 32768);
}

#[test]
fn builder_settings_are_kept() {
    let builder = VhostUserFsBackendBuilder::default()
        .set_dax_window_size(7)
        .set_tag(Some("a".to_string()))
        .set_thread_pool_size(3)
        .set_tag(Some("b".to_string()));
    assert_eq!(builder.thread_pool_size, 3);
    assert_eq!(builder.tag.as_deref(), Some("b"));
    assert_eq!(builder.dax_window_size, 7);
}

#[test]
fn no_pool_for_size_zero() {
    let builder = VhostUserFsBackendBuilder::default().set_thread_pool_size(0);
    let setup: PoolSetup<&'static str> = builder.pool_setup();
    assert!(matches!(setup.stage, PoolStage::Ready(None)));
}

#[test]
fn pool_is_set_up() {
    let builder = VhostUserFsBackendBuilder::default().set_thread_pool_size(4);
    let setup: PoolSetup<&'static str> = builder.pool_setup();
    assert_eq!(setup.thread_pool_size, 4);
    assert!(matches!(setup.stage, PoolStage::TestUnshare));
    let setup = setup.unshare_returned(0, os_error("Success"));
    assert!(matches!(setup.stage, PoolStage::CreatePool));
    let setup = setup.pool_created(Ok("pool"));
    assert!(matches!(setup.stage, PoolStage::Ready(Some("pool"))));
    let backend: Backend = builder.build("fs", setup).unwrap();
    assert_eq!(backend.thread.pool, Some("pool"));
}

#[test]
fn failing_unshare_is_reported() {
    let builder = VhostUserFsBackendBuilder::default().set_thread_pool_size(1);
    let setup = builder.pool_setup().unshare_returned(-1, os_error("Operation not permitted"));
    let built: Result<Backend, Error> = builder.build("fs", setup);
    let error = built.unwrap_err();
    assert!(matches!(error, Error::UnshareCloneFs(_)));
    assert_eq!(
        error.display(),
        "The unshare(CLONE_FS) syscall failed with 'Operation not permitted'. If running in a \
         container please check that the container runtime seccomp policy allows unshare."
    );
}

#[test]
fn failing_pool_is_reported() {
    let builder = VhostUserFsBackendBuilder::default().set_thread_pool_size(1);
    let setup = builder
        .pool_setup()
        .unshare_returned(0, os_error("Success"))
        .pool_created(Err(os_error("no threads")));
    let built: Result<Backend, Error> = builder.build("fs", setup);
    let error = built.unwrap_err();
    assert!(matches!(error, Error::CreateThreadPool(_)));
    assert_eq!(error.display(), "CreateThreadPool(Os(no threads))");
}

#[test]
fn settings_reach_the_thread() {
    let mut backend = built(None, 0);
    backend.set_event_idx(true);
    backend.update_memory(17).unwrap();
    backend.set_backend_req_fd(3);
    assert!(backend.thread.event_idx);
    assert_eq!(backend.thread.mem, Some(17));
    assert_eq!(backend.thread.vu_req, Some(3));
    backend.set_event_idx(false);
    backend.update_memory(18).unwrap();
    assert!(!backend.thread.event_idx);
    assert_eq!(backend.thread.mem, Some(18));
}

#[test]
fn only_input_events_are_handled() {
    let backend = built(None, 0);
    assert_eq!(EPOLL_IN, EventSet::IN.bits());
    let error = backend.handle_event(HIPRIO_QUEUE_EVENT, EventSet::OUT.bits()).unwrap_err();
    assert_eq!(error.display(), "HandleEventNotEpollIn");
    assert!(matches!(error.kind(), IoErrorKind::Other));
    let both = (EventSet::IN | EventSet::HANG_UP).bits();
    assert!(backend.handle_event(REQ_QUEUE_EVENT, both).is_err());
    assert!(backend.handle_event(REQ_QUEUE_EVENT, 0).is_err());
}

#[test]
fn only_queue_events_are_known() {
    let backend = built(None, 0);
    let error = backend.handle_event(2, EventSet::IN.bits()).unwrap_err();
    assert_eq!(error.display(), "HandleEventUnknownEvent");
    assert!(backend.handle_event(u16::MAX, EPOLL_IN).is_err());
}

#[test]
fn events_name_their_queue() {
    let backend = built(None, 0);
    let run = backend.handle_event(HIPRIO_QUEUE_EVENT, EventSet::IN.bits()).unwrap();
    assert_eq!((run.queue, run.pooled, run.event_idx), (0, false, false));
    let run = backend.handle_event(REQ_QUEUE_EVENT, EventSet::IN.bits()).unwrap();
    assert_eq!((run.queue, run.pooled, run.event_idx), (1, false, false));
}

#[test]
fn events_go_to_the_pool_if_there_is_one() {
    let builder = VhostUserFsBackendBuilder::default().set_thread_pool_size(1);
    let setup =
        builder.pool_setup().unshare_returned(0, os_error("Success")).pool_created(Ok("pool"));
    let mut backend: Backend = builder.build("fs", setup).unwrap();
    backend.set_event_idx(true);
    let run = backend.handle_event(REQ_QUEUE_EVENT, EPOLL_IN).unwrap();
    assert_eq!((run.queue, run.pooled, run.event_idx), (1, true, true));
}

#[test]
fn errors_are_shown() {
    assert_eq!(
        Error::InvalidTag.display(),
        format!(
            "The tag may not be empty or longer than {} bytes (encoded as UTF-8).",
            vhost_user_fs::MAX_TAG_LEN
        )
    );
    assert_eq!(
        Error::QueueReader("r".to_string()).display(),
        "Failed to create a queue reader: r"
    );
    assert_eq!(
        Error::QueueWriter("w".to_string()).display(),
        "Failed to create a queue writer: w"
    );
    assert_eq!(
        Error::ProcessQueue("p".to_string()).display(),
        "Failed to handle an incoming request: p"
    );
    assert_eq!(
        Error::CreateKillEventFd(os_error("k")).display(),
        "CreateKillEventFd(Os(k))"
    );
    assert_eq!(Error::IterateQueue.display(), "IterateQueue");
    assert_eq!(Error::NoMemoryConfigured.display(), "NoMemoryConfigured");
}

#[test]
fn backend_error_as_io_error() {
    let error = vhost_user_fs::IoError::from(Error::ProcessQueue("p".to_string()));
    assert!(matches!(error.kind(), IoErrorKind::Other));
    assert_eq!(error.display(), "Failed to handle an incoming request: p");
}
