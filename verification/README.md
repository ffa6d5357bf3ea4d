# vhost_user_fs

The decisions of a vhost-user backend for virtio-fs, verified with Verus: what the backend offers
to a front-end, what its configuration space holds, which descriptor chains of a queue are served
and how they are returned to the guest, and how the state of the file system is prepared for
migration and transferred.

`src/` is the library. It touches neither guest memory nor file descriptors nor threads. Where
work on those has to be done, a value of the library says which action is next (`ChainRun`,
`SerialRun`, `PoolRun`, `EventRun`, `PoolSetup`, `StateTransfer` and so on), and its methods take
what came of the action. Numbers and encodings of the virtio and vhost-user crates come in through
`src/outside.rs`.

- `config.rs`: the configuration space, with the tag and the number of request queues
- `chain.rs`: serving one descriptor chain
- `queue.rs`: processing a queue, serially or with a thread pool
- `event.rs`: handling a queue event, with or without EVENT_IDX
- `migration.rs`: preparing for migration and transferring the state
- `thread.rs`, `backend.rs`: the backend, and the builder that makes it
- `error.rs`: the errors, and how they are shown

The proof functions whose names start with `law_` state what holds of the library as a whole.

`app/` is the device around it: it implements the trait of `vhost_user_backend` and carries the
actions out, for any file system server that implements `FsServer`.
