[package]
name = "vhost_user_fs"
version = "0.1.0"
edition = "2021"
publish = false

[dependencies]
futures = { version = "0.3", features = ["thread-pool"] }
libc = "0.2"
log = "0.4"
vhost = { version = "*", features = ["vhost-user-backend"] }
vhost-user-backend = "*"
virtio-bindings = "*"
virtio-queue = "*"
vm-memory = { version = "*", features = ["backend-mmap", "backend-atomic"] }
vmm-sys-util = "*"
