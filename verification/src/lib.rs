//! The decision core of a vhost-user backend for virtio-fs.
//!
//! A virtio-fs device that is served over vhost-user answers a front-end (what it supports, what
//! its configuration space holds), processes the requests that a guest puts on its queues, and
//! hands its state over when the guest is migrated. What it answers and what it does next is
//! decided here; guest memory, event file descriptors and threads are moved by the program
//! around this crate, which carries out the actions it is given and reports what came of them.

pub mod backend;
pub mod bits;
pub mod chain;
pub mod config;
pub mod error;
pub mod event;
pub mod migration;
pub mod outside;
pub mod queue;
pub mod thread;

pub use backend::{VhostUserFsBackend, VhostUserFsBackendBuilder, EPOLL_IN, QUEUE_SIZE};
pub use chain::{ChainAction, ChainRun};
pub use config::{VirtioFsConfig, CONFIG_SPACE_LEN, MAX_TAG_LEN, REQUEST_QUEUES};
pub use error::{Error, IoError, IoErrorKind, OsError};
pub use event::{EventAction, EventRun, HIPRIO_QUEUE_EVENT, NUM_QUEUES, REQ_QUEUE_EVENT};
pub use migration::{
    transfer_joined, MigrationThreads, PreparationAction, RequestStage, StateTransfer,
    TransferDirection, TransferPhase, TransferStage,
};
pub use outside::ShMemConfig;
pub use queue::{NextChain, PoolAction, PoolRun, SerialAction, SerialRun};
pub use thread::{PoolSetup, PoolStage, VhostUserFsThread};
