use vhost_user_fs::{
    VhostUserFsBackend, VhostUserFsBackendBuilder, VirtioFsConfig, CONFIG_SPACE_LEN, MAX_TAG_LEN,
    REQUEST_QUEUES,
};
use vm_memory::{ByteValued, Le32};

type Backend = VhostUserFsBackend<(), (), (), (), (), ()>;

fn backend(tag: &str) -> Backend {
    let builder = VhostUserFsBackendBuilder::default().set_tag(Some(tag.to_string()));
    let setup = builder.pool_setup();
    builder.build((), setup).unwrap()
}

#[test]
fn whole_space_holds_tag_padding_and_queue_count() {
    let space = backend("myfs").get_config(0, 40);
    assert_eq!(space.len(), CONFIG_SPACE_LEN);
    assert_eq!(&space[..4], b"myfs");
    assert!(space[4..MAX_TAG_LEN].iter().all(|byte| *byte == 0));
    assert_eq!(&space[MAX_TAG_LEN..], &[1, 0, 0, 0]);
    assert_eq!(&space[MAX_TAG_LEN..], Le32::from(REQUEST_QUEUES).as_slice());
}

#[test]
fn tag_of_full_length_is_not_terminated() {
    let tag = "abcdefghijklmnopqrstuvwxyz0123456789";
    assert_eq!(tag.len(), MAX_TAG_LEN);
    let space = backend(tag).get_config(0, 40);
    assert_eq!(&space[..36], tag.as_bytes());
    assert_eq!(space[36], 1);
}

#[test]
fn tag_is_encoded_as_utf8() {
    let tag = "größe€😀";
    let space = backend(tag).get_config(0, 36);
    let end = space.iter().position(|byte| *byte == 0).unwrap();
    assert_eq!(end, tag.len());
    assert_eq!(std::str::from_utf8(&space[..end]).unwrap(), tag);
}

#[test]
fn tag_with_inner_nul_reads_back() {
    let tag = "a\0b";
    let space = backend(tag).get_config(0, 36);
    let mut field = space.clone();
    while field.last() == Some(&0) {
        field.pop();
    }
    assert_eq!(String::from_utf8(field).unwrap(), tag);
}

#[test]
fn partial_reads_agree_with_the_whole() {
    let device = backend("shared");
    let whole = device.get_config(0, 40);
    assert_eq!(device.get_config(2, 5), whole[2..7].to_vec());
    assert_eq!(device.get_config(36, 4), vec![1, 0, 0, 0]);
    assert_eq!(device.get_config(35, 2), vec![0, 1]);
    let mut parts = device.get_config(3, 10);
    parts.extend(device.get_config(13, 27));
    assert_eq!(parts, device.get_config(3, 37));
    assert!(device.get_config(7, 0).is_empty());
}

#[test]
fn reads_beyond_the_end_give_zeros() {
    let device = backend("shared");
    assert_eq!(device.get_config(36, 8), vec![1, 0, 0, 0, 0, 0, 0, 0]);
    assert_eq!(device.get_config(40, 3), vec![0, 0, 0]);
    assert_eq!(device.get_config(u32::MAX, 2), vec![0, 0]);
}

#[test]
fn default_config_is_empty() {
    let config = VirtioFsConfig::default();
    assert_eq!(config.tag, [0; MAX_TAG_LEN]);
    assert_eq!(config.num_request_queues, 0);
    assert_eq!(config.as_slice(), vec![0; 40]);
}

#[test]
fn queue_count_is_little_endian() {
    let mut config = VirtioFsConfig::with_tag("t");
    config.num_request_queues = 0x0102_0304;
    assert_eq!(config.read(36, 4), vec![4, 3, 2, 1]);
}
