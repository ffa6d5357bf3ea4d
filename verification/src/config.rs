//! The configuration space of the device: the file system's tag and the number of request queues.

use crate::outside::le32_bytes;
use vstd::prelude::*;

verus! {

/// The maximum length of the tag being used.
pub const MAX_TAG_LEN: usize = 36;

/// The number of request queues. The device type allows for several; one is supported.
pub const REQUEST_QUEUES: u32 = 1;

/// The length of the configuration space: the tag's field and the number of request queues.
pub const CONFIG_SPACE_LEN: usize = 40;

/// Whether `tag` can stand in the configuration space: it is not empty, and its UTF-8 encoding
/// fits into the tag's field.
pub open spec fn valid_tag(tag: Seq<char>) -> bool {
    &&& tag.len() > 0
    &&& vstd::utf8::encode_utf8(tag).len() <= MAX_TAG_LEN
}

/// `bytes`, padded with NUL bytes to the length of the tag's field.
pub open spec fn padded(bytes: Seq<u8>) -> Seq<u8> {
    Seq::new(
        MAX_TAG_LEN as nat,
        |i: int|
            if i < bytes.len() {
                bytes[i]
            } else {
                0u8
            },
    )
}

/// The configuration space of a file system with this tag: the tag in UTF-8, padded with NUL
/// bytes, then the number of request queues.
pub open spec fn config_space(tag: Seq<char>) -> Seq<u8> {
    padded(vstd::utf8::encode_utf8(tag)) + crate::outside::le32(REQUEST_QUEUES)
}

/// What a read of `size` bytes at `offset` sees of `space`: its bytes from `offset` on, and zeros
/// where the space has ended.
pub open spec fn window(space: Seq<u8>, offset: int, size: nat) -> Seq<u8> {
    Seq::new(
        size,
        |i: int|
            if offset + i < space.len() {
                space[offset + i]
            } else {
                0u8
            },
    )
}

/// The device configuration, as the driver reads it.
#[derive(Clone, Copy)]
pub struct VirtioFsConfig {
    /// The tag in UTF-8, padded with NUL bytes. It is not NUL-terminated if it takes up the
    /// entire field.
    pub tag: [u8; MAX_TAG_LEN],
    /// The number of request queues.
    pub num_request_queues: u32,
}

impl Default for VirtioFsConfig {
    /// An empty tag and no request queues.
    fn default() -> (config: Self)
        ensures
            config.tag@ == padded(Seq::empty()),
            config.num_request_queues == 0,
    {
        let config = VirtioFsConfig { tag: [0; MAX_TAG_LEN], num_request_queues: 0 };
        assert(config.tag@ =~= padded(Seq::empty()));
        config
    }
}

impl VirtioFsConfig {
    /// The bytes of the configuration space that holds `self`: the tag's field, then the number
    /// of request queues in little-endian order.
    pub open spec fn bytes(self) -> Seq<u8> {
        self.tag@ + crate::outside::le32(self.num_request_queues)
    }

    /// The configuration of a file system with this tag.
    pub fn with_tag(tag: &str) -> (config: Self)
        requires
            valid_tag(tag@),
        ensures
            config.tag@ == padded(vstd::utf8::encode_utf8(tag@)),
            config.num_request_queues == REQUEST_QUEUES,
            config.bytes() == config_space(tag@),
    {
        let encoded: &[u8] = tag.as_bytes();
        let mut field: [u8; MAX_TAG_LEN] = [0; MAX_TAG_LEN];
        let mut i: usize = 0;
        while i < encoded.len()
            invariant
                i <= encoded@.len() <= MAX_TAG_LEN,
                field@ =~= padded(encoded@.take(i as int)),
            decreases encoded@.len() - i,
        {
            field[i] = encoded[i];
            i = i + 1;
        }
        assert(encoded@.take(i as int) =~= encoded@);
        VirtioFsConfig { tag: field, num_request_queues: REQUEST_QUEUES }
    }

    /// The configuration space that holds `self`.
    pub fn as_slice(&self) -> (space: Vec<u8>)
        ensures
            space@ == self.bytes(),
            space@.len() == CONFIG_SPACE_LEN,
    {
        let mut space: Vec<u8> = Vec::new();
        let mut i: usize = 0;
        while i < MAX_TAG_LEN
            invariant
                i <= MAX_TAG_LEN,
                space@ =~= self.tag@.take(i as int),
            decreases MAX_TAG_LEN - i,
        {
            space.push(self.tag[i]);
            i = i + 1;
        }
        let mut number: Vec<u8> = le32_bytes(self.num_request_queues);
        space.append(&mut number);
        assert(self.tag@.take(MAX_TAG_LEN as int) =~= self.tag@);
        space
    }

    /// Read `size` bytes of the configuration space from `offset` on. What lies beyond its end
    /// reads as zeros.
    pub fn read(&self, offset: u32, size: u32) -> (result: Vec<u8>)
        ensures
            result@ == window(self.bytes(), offset as int, size as nat),
    {
        let space: Vec<u8> = self.as_slice();
        let offset: usize = offset as usize;
        let size: usize = size as usize;
        let available: usize = if offset < space.len() {
            space.len() - offset
        } else {
            0
        };
        let taken: usize = if size < available {
            size
        } else {
            available
        };
        let mut result: Vec<u8> = Vec::new();
        let mut i: usize = 0;
        while i < taken
            invariant
                i <= taken,
                space@.len() == CONFIG_SPACE_LEN,
                taken > 0 ==> offset + taken <= space@.len(),
                result@.len() == i,
                forall|j: int| 0 <= j < i ==> result@[j] == space@[offset + j],
            decreases taken - i,
        {
            result.push(space[offset + i]);
            i = i + 1;
        }
        let ghost read = result@;
        // Pad with zeros up to `size`.
        result.resize(size, 0);
        assert forall|j: int| 0 <= j < taken implies result@[j] == space@[offset + j] by {
            assert(read[j] == space@[offset + j]);
            assert(result@.subrange(0, read.len() as int)[j] == read[j]);
        }
        assert forall|j: int| taken <= j < size implies result@[j] == 0 by {
            assert(cloned::<u8>(0u8, result@[j]));
        }
        assert(result@ =~= window(self.bytes(), offset as int, size as nat));
        result
    }
}

/// `field` without the NUL bytes at its end.
pub open spec fn without_padding(field: Seq<u8>) -> Seq<u8>
    decreases field.len(),
{
    if field.len() > 0 && field.last() == 0 {
        without_padding(field.drop_last())
    } else {
        field
    }
}

/// The encoding of a text that is not empty and does not end in NUL does not end in a zero byte.
proof fn lemma_encoding_ends_in_nonzero(text: Seq<char>)
    requires
        text.len() > 0,
        text.last() != '\0',
    ensures
        vstd::utf8::encode_utf8(text).len() > 0,
        vstd::utf8::encode_utf8(text).last() != 0,
    decreases text.len(),
{
    vstd::utf8::char_is_scalar(text[0]);
    let scalar = text[0] as u32;
    if text.len() == 1 {
        assert(vstd::utf8::encode_utf8(text.drop_first()) =~= Seq::empty());
        assert(vstd::utf8::encode_utf8(text) =~= vstd::utf8::encode_scalar(scalar));
        if vstd::utf8::has_width_1_encoding(scalar) {
            vstd::utf8::char_u32_cast(text[0], scalar);
            assert(scalar != 0 && scalar <= 0x7F ==> (scalar & 0x7F) as u8 != 0) by (bit_vector);
        } else {
            assert(0x80 | (scalar & 0x3F) as u8 != 0) by (bit_vector);
            assert(vstd::utf8::encode_utf8(text).last() == vstd::utf8::last_continuation_byte(
                scalar,
            ));
        }
    } else {
        lemma_encoding_ends_in_nonzero(text.drop_first());
        assert(vstd::utf8::encode_utf8(text).last() == vstd::utf8::encode_utf8(
            text.drop_first(),
        ).last());
    }
}

/// What padding adds is what is taken away again.
proof fn lemma_padding_is_taken_away(bytes: Seq<u8>, zeros: nat)
    requires
        bytes.len() > 0,
        bytes.last() != 0,
    ensures
        without_padding(bytes + Seq::new(zeros, |i: int| 0u8)) == bytes,
    decreases zeros,
{
    let field = bytes + Seq::new(zeros, |i: int| 0u8);
    if zeros == 0 {
        assert(field =~= bytes);
    } else {
        assert(field.drop_last() =~= bytes + Seq::new((zeros - 1) as nat, |i: int| 0u8));
        lemma_padding_is_taken_away(bytes, (zeros - 1) as nat);
    }
}

/// The configuration space starts with the tag in UTF-8. What is left of the tag's field is NUL
/// bytes; if the tag takes up the entire field, it is not NUL-terminated. The number of request
/// queues follows, in little-endian order.
pub proof fn law_config_space_layout(tag: Seq<char>)
    requires
        valid_tag(tag),
    ensures
        ({
            let encoded = vstd::utf8::encode_utf8(tag);
            let space = config_space(tag);
            &&& space.len() == CONFIG_SPACE_LEN
            &&& space.take(encoded.len() as int) == encoded
            &&& forall|i: int| encoded.len() <= i < MAX_TAG_LEN ==> #[trigger] space[i] == 0
            &&& space.skip(MAX_TAG_LEN as int) == seq![1u8, 0, 0, 0]
        }),
{
    let encoded = vstd::utf8::encode_utf8(tag);
    let space = config_space(tag);
    assert(space.take(encoded.len() as int) =~= encoded);
    assert(crate::outside::le32(1) =~= seq![1u8, 0, 0, 0]);
    assert(space.skip(MAX_TAG_LEN as int) =~= seq![1u8, 0, 0, 0]);
}

/// A tag is valid just if it has a character and takes up no more than 36 bytes in UTF-8.
pub proof fn law_valid_tags(tag: Seq<char>)
    ensures
        valid_tag(tag) <==> tag != Seq::<char>::empty() && vstd::utf8::encode_utf8(tag).len() <= 36,
{
    assert(tag.len() == 0 ==> tag =~= Seq::empty());
}

/// A read sees each byte where it lies in the space, and zeros beyond the end of the space.
pub proof fn law_read_sees_the_space(space: Seq<u8>, offset: nat, size: nat, i: int)
    requires
        0 <= i < size,
    ensures
        window(space, offset as int, size).len() == size,
        offset + i < space.len() ==> window(space, offset as int, size)[i] == space[offset + i],
        offset + i >= space.len() ==> window(space, offset as int, size)[i] == 0,
{
}

/// What the driver reads at a position of the configuration space depends on that position alone:
/// the bytes of the tag first, the number of request queues at position 36, and zeros elsewhere.
pub proof fn law_driver_reads_tag_and_queues(tag: Seq<char>, offset: nat, size: nat, i: int)
    requires
        valid_tag(tag),
        0 <= i < size,
    ensures
        ({
            let encoded = vstd::utf8::encode_utf8(tag);
            let byte = window(config_space(tag), offset as int, size)[i];
            &&& offset + i < encoded.len() ==> byte == encoded[offset + i]
            &&& offset + i == 36 ==> byte == 1
            &&& offset + i >= encoded.len() && offset + i != 36 ==> byte == 0
        }),
{
    law_config_space_layout(tag);
    let encoded = vstd::utf8::encode_utf8(tag);
    let space = config_space(tag);
    let position: int = offset + i;
    if position < encoded.len() {
        assert(space.take(encoded.len() as int)[position] == space[position]);
    } else if 36 <= position < 40 {
        assert(space.skip(MAX_TAG_LEN as int)[position - 36] == space[position]);
    }
}

/// The space that holds a configuration is its tag's field and then the number of request queues,
/// whatever they are. The field of a tag starts with its bytes and is NUL from there on.
pub proof fn law_space_holds_the_configuration(config: VirtioFsConfig, bytes: Seq<u8>, i: int)
    requires
        0 <= i < MAX_TAG_LEN,
    ensures
        config.bytes().len() == 40,
        config.bytes()[i] == config.tag@[i],
        config.num_request_queues == config.bytes()[36] + 0x100 * config.bytes()[37] + 0x1_0000
            * config.bytes()[38] + 0x100_0000 * config.bytes()[39],
        padded(bytes).len() == 36,
        i < bytes.len() ==> padded(bytes)[i] == bytes[i],
        i >= bytes.len() ==> padded(bytes)[i] == 0,
{
    crate::outside::law_little_endian_bytes_add_up(config.num_request_queues);
}

/// The driver reads back the tag that was set: it is what the tag's field holds in UTF-8, without
/// the padding.
pub proof fn law_tag_reads_back(tag: Seq<char>)
    requires
        valid_tag(tag),
        tag.last() != '\0',
    ensures
        vstd::utf8::decode_utf8(
            without_padding(window(config_space(tag), 0, MAX_TAG_LEN as nat)),
        ) == tag,
{
    let encoded = vstd::utf8::encode_utf8(tag);
    let zeros = (MAX_TAG_LEN - encoded.len()) as nat;
    lemma_encoding_ends_in_nonzero(tag);
    lemma_padding_is_taken_away(encoded, zeros);
    assert(window(config_space(tag), 0, MAX_TAG_LEN as nat) =~= encoded + Seq::new(
        zeros,
        |i: int| 0u8,
    ));
    vstd::utf8::encode_utf8_decode_utf8(tag);
}

/// A read gives as many bytes as it asks for. A read of the whole space gives the space, and a
/// read in two parts gives what a read in one does.
pub proof fn law_reads_are_consistent(space: Seq<u8>, offset: nat, first: nat, second: nat)
    ensures
        window(space, offset as int, first).len() == first,
        window(space, 0, space.len()) == space,
        window(space, offset as int, first + second) == window(space, offset as int, first)
            + window(space, (offset + first) as int, second),
{
    assert(window(space, 0, space.len()) =~= space);
    assert(window(space, offset as int, first + second) =~= window(space, offset as int, first)
        + window(space, (offset + first) as int, second));
}

} // verus!
