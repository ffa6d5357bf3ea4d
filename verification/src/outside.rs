//! What the crate takes from outside: numbers and encodings of the virtio and vhost-user crates.

use vhost::vhost_user::message::VhostUserProtocolFeatures;
use vhost::vhost_user::message::VhostUserShMemConfig;
use vhost::vhost_user::message::VhostUserVirtioFeatures;
use virtio_bindings::bindings::virtio_config::VIRTIO_F_VERSION_1;
use virtio_bindings::bindings::virtio_ring::VIRTIO_RING_F_EVENT_IDX;
use virtio_bindings::bindings::virtio_ring::VIRTIO_RING_F_INDIRECT_DESC;
use vm_memory::ByteValued;
use vm_memory::Le32;
use vmm_sys_util::epoll::EventSet;
use vstd::prelude::*;

verus! {

/// The bytes of `value`, least significant byte first.
pub open spec fn le32(value: u32) -> Seq<u8> {
    seq![
        (value % 0x100) as u8,
        (value / 0x100 % 0x100) as u8,
        (value / 0x1_0000 % 0x100) as u8,
        (value / 0x100_0000) as u8,
    ]
}

/// The bytes of a value add up to it, each with the weight of its place.
pub proof fn law_little_endian_bytes_add_up(value: u32)
    ensures
        le32(value).len() == 4,
        value == le32(value)[0] + 0x100 * le32(value)[1] + 0x1_0000 * le32(value)[2] + 0x100_0000
            * le32(value)[3],
{
}

/// Calls `vm_memory::Le32::from` and `ByteValued::as_slice` on what it gives. An `Le32` keeps its
/// value in little-endian order and `as_slice` shows the four bytes as they lie in memory, so
/// they come least significant byte first.
#[verifier::external_body]
pub(crate) fn le32_bytes(value: u32) -> (bytes: Vec<u8>)
    ensures
        bytes@ == le32(value),
{
    Le32::from(value).as_slice().to_vec()
}

/// The numbers of the feature bits that virtio defines for all devices.
pub(crate) struct VirtioFeatureBits {
    pub version_1: u32,
    pub indirect_desc: u32,
    pub event_idx: u32,
}

/// Reads `VIRTIO_F_VERSION_1`, `VIRTIO_RING_F_INDIRECT_DESC` and `VIRTIO_RING_F_EVENT_IDX` of
/// `virtio_bindings`, which are the bit numbers 32, 28 and 29.
#[verifier::external_body]
pub(crate) fn virtio_feature_bits() -> (bits: VirtioFeatureBits)
    ensures
        bits.version_1 == 32,
        bits.indirect_desc == 28,
        bits.event_idx == 29,
{
    VirtioFeatureBits {
        version_1: VIRTIO_F_VERSION_1,
        indirect_desc: VIRTIO_RING_F_INDIRECT_DESC,
        event_idx: VIRTIO_RING_F_EVENT_IDX,
    }
}

/// The masks of the feature bits that vhost-user adds.
pub(crate) struct TransportFeatureMasks {
    pub log_all: u64,
    pub protocol_features: u64,
}

/// Calls `VhostUserVirtioFeatures::bits` of `vhost` on `LOG_ALL` and `PROTOCOL_FEATURES`, which
/// are bits 26 and 30.
#[verifier::external_body]
pub(crate) fn transport_feature_masks() -> (masks: TransportFeatureMasks)
    ensures
        masks.log_all == 0x400_0000,
        masks.protocol_features == 0x4000_0000,
{
    TransportFeatureMasks {
        log_all: VhostUserVirtioFeatures::LOG_ALL.bits(),
        protocol_features: VhostUserVirtioFeatures::PROTOCOL_FEATURES.bits(),
    }
}

/// The masks of the protocol features that the backend knows.
pub(crate) struct ProtocolFeatureMasks {
    pub mq: u64,
    pub log_shmfd: u64,
    pub reply_ack: u64,
    pub backend_req: u64,
    pub config: u64,
    pub backend_send_fd: u64,
    pub reset_device: u64,
    pub configure_mem_slots: u64,
    pub device_state: u64,
    pub shmem: u64,
}

/// Calls `VhostUserProtocolFeatures::bits` of `vhost` on the flags that the fields are named
/// after, each of which is one bit.
#[verifier::external_body]
pub(crate) fn protocol_feature_masks() -> (masks: ProtocolFeatureMasks)
    ensures
        masks.mq == 0x1,
        masks.log_shmfd == 0x2,
        masks.reply_ack == 0x8,
        masks.backend_req == 0x20,
        masks.config == 0x200,
        masks.backend_send_fd == 0x400,
        masks.reset_device == 0x2000,
        masks.configure_mem_slots == 0x8000,
        masks.device_state == 0x8_0000,
        masks.shmem == 0x40_0000,
{
    ProtocolFeatureMasks {
        mq: VhostUserProtocolFeatures::MQ.bits(),
        log_shmfd: VhostUserProtocolFeatures::LOG_SHMFD.bits(),
        reply_ack: VhostUserProtocolFeatures::REPLY_ACK.bits(),
        backend_req: VhostUserProtocolFeatures::BACKEND_REQ.bits(),
        config: VhostUserProtocolFeatures::CONFIG.bits(),
        backend_send_fd: VhostUserProtocolFeatures::BACKEND_SEND_FD.bits(),
        reset_device: VhostUserProtocolFeatures::RESET_DEVICE.bits(),
        configure_mem_slots: VhostUserProtocolFeatures::CONFIGURE_MEM_SLOTS.bits(),
        device_state: VhostUserProtocolFeatures::DEVICE_STATE.bits(),
        shmem: VhostUserProtocolFeatures::SHMEM.bits(),
    }
}

/// Calls `EventSet::bits` of `vmm_sys_util` on `IN`, which is `EPOLLIN`.
#[verifier::external_body]
pub(crate) fn event_set_in() -> (events: u32)
    ensures
        events == 1,
{
    EventSet::IN.bits()
}

/// The shared memory regions of a device.
#[derive(Debug)]
pub struct ShMemConfig {
    /// Total number of shared memory regions.
    pub nregions: u32,
    /// Size of each memory region, in bytes. Where there is no region, the size is zero.
    pub memory_sizes: [u64; 256],
}

/// Calls `VhostUserShMemConfig::new` of `vhost`, which keeps the number of regions and the sizes
/// it is given, up to 256 of them, and fills up with zeros.
#[verifier::external_body]
pub(crate) fn shmem_config(nregions: u32, memory: &[u64]) -> (config: ShMemConfig)
    ensures
        config.nregions == nregions,
        forall|i: int|
            0 <= i < 256 ==> #[trigger] config.memory_sizes@[i] == (if i < memory@.len() {
                memory@[i]
            } else {
                0u64
            }),
{
    let config = VhostUserShMemConfig::new(nregions, memory);
    ShMemConfig { nregions: config.nregions, memory_sizes: config.memory_sizes }
}

} // verus!
