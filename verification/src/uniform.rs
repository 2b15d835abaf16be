//! The camera record that the GPU programs read, and its bytes.

use vstd::prelude::*;
use vstd::slice::slice_to_vec;
use crate::camera::Vector3;

verus! {

/// Number of 32-bit words in the record.
pub const CAMERA_UBO_WORDS: usize = 20;

/// Size of the record in bytes.
pub const CAMERA_UBO_SIZE: u64 = 80;

/// How many times a path may bounce.
pub const MAX_BOUNCE: u32 = 2;

/// The camera as the GPU programs see it. Each vector takes four words, the
/// fourth being padding, so that the next one starts at a multiple of
/// sixteen bytes.
#[derive(Clone, Copy, Debug, PartialEq, Eq)]
pub struct CameraUBO {
    pub origin: Vector3,
    pub dir: Vector3,
    pub right: Vector3,
    pub up: Vector3,
    pub img_size: [u32; 2],
    pub frame_index: u32,
    pub max_bounce: u32,
}

/// Byte `k` of a word, counted from the least significant one.
pub open spec fn byte_of(word: u32, k: int) -> u8 {
    if k == 0 {
        (word % 0x100) as u8
    } else if k == 1 {
        (word / 0x100 % 0x100) as u8
    } else if k == 2 {
        (word / 0x1_0000 % 0x100) as u8
    } else {
        (word / 0x100_0000 % 0x100) as u8
    }
}

/// Which byte of its word stands at place `i` of a word's four bytes in
/// memory: the least significant first on a little-endian machine, the most
/// significant first on a big-endian one.
pub open spec fn byte_place(i: int, little_endian: bool) -> int {
    if little_endian {
        i
    } else {
        3 - i
    }
}

/// The bytes of a row of words in memory: four bytes for each word, the
/// words in order.
pub open spec fn memory_image(words: Seq<u32>, little_endian: bool) -> Seq<u8> {
    Seq::new(
        4 * words.len(),
        |i: int| byte_of(words[i / 4], byte_place(i % 4, little_endian)),
    )
}

/// The word that four bytes of `bytes` spell, starting at `offset`.
pub open spec fn word_at(bytes: Seq<u8>, offset: int, little_endian: bool) -> int {
    bytes[offset + byte_place(0, little_endian)] + 0x100 * bytes[offset + byte_place(
        1,
        little_endian,
    )] + 0x1_0000 * bytes[offset + byte_place(2, little_endian)] + 0x100_0000 * bytes[offset
        + byte_place(3, little_endian)]
}

/// `bytemuck::bytes_of` on twenty words. It hands out the memory that holds
/// the words: eighty bytes, four for each word in order, each word in the
/// byte order of the machine. Which of the two byte orders that is, the
/// contract leaves open.
#[verifier::external_body]
fn bytes_of_words(words: &[u32; 20]) -> (bytes: &[u8])
    ensures
        bytes@ == memory_image(words@, true) || bytes@ == memory_image(words@, false),
{
    bytemuck::bytes_of(words)
}

impl CameraUBO {
    /// The record as twenty words: origin, direction, right and up with a
    /// zero behind each, then the image width and height, the frame index
    /// and the bounce limit.
    pub open spec fn spec_words(self) -> Seq<u32> {
        seq![
            self.origin.x,
            self.origin.y,
            self.origin.z,
            0,
            self.dir.x,
            self.dir.y,
            self.dir.z,
            0,
            self.right.x,
            self.right.y,
            self.right.z,
            0,
            self.up.x,
            self.up.y,
            self.up.z,
            0,
            self.img_size[0],
            self.img_size[1],
            self.frame_index,
            self.max_bounce,
        ]
    }

    /// The bytes of the record on a machine of the given byte order.
    pub open spec fn wire(self, little_endian: bool) -> Seq<u8> {
        memory_image(self.spec_words(), little_endian)
    }

    /// The record as twenty words.
    pub fn words(&self) -> (words: [u32; CAMERA_UBO_WORDS])
        ensures
            words@ == self.spec_words(),
    {
        let words: [u32; CAMERA_UBO_WORDS] = [
            self.origin.x,
            self.origin.y,
            self.origin.z,
            0,
            self.dir.x,
            self.dir.y,
            self.dir.z,
            0,
            self.right.x,
            self.right.y,
            self.right.z,
            0,
            self.up.x,
            self.up.y,
            self.up.z,
            0,
            self.img_size[0],
            self.img_size[1],
            self.frame_index,
            self.max_bounce,
        ];
        assert(words@ =~= self.spec_words());
        words
    }

    /// The eighty bytes to write to the GPU buffer, in the byte order of the
    /// machine.
    pub fn to_bytes(&self) -> (bytes: Vec<u8>)
        ensures
            bytes@.len() == CAMERA_UBO_SIZE,
            bytes@ == self.wire(true) || bytes@ == self.wire(false),
    {
        let words = self.words();
        slice_to_vec(bytes_of_words(&words))
    }
}

/// In the memory image of a row of words, the four bytes at four times `j`
/// spell word `j`.
pub proof fn lemma_word_at_image(words: Seq<u32>, little_endian: bool, j: int)
    requires
        0 <= j < words.len(),
    ensures
        word_at(memory_image(words, little_endian), 4 * j, little_endian) == words[j],
{
    let w = words[j];
    let image = memory_image(words, little_endian);
    assert forall|k: int| 0 <= k < 4 implies #[trigger] image[4 * j + k] == byte_of(
        w,
        byte_place(k, little_endian),
    ) by {
        assert((4 * j + k) / 4 == j);
        assert((4 * j + k) % 4 == k);
    }
    assert(image[4 * j + byte_place(0, little_endian)] == byte_of(w, 0));
    assert(image[4 * j + byte_place(1, little_endian)] == byte_of(w, 1));
    assert(image[4 * j + byte_place(2, little_endian)] == byte_of(w, 2));
    assert(image[4 * j + byte_place(3, little_endian)] == byte_of(w, 3));
    assert(w == w % 0x100 + 0x100 * (w / 0x100 % 0x100) + 0x1_0000 * (w / 0x1_0000 % 0x100)
        + 0x100_0000 * (w / 0x100_0000 % 0x100));
}

/// The layout of the record: the origin at byte 0, the direction at 16, the
/// right vector at 32, the up vector at 48, each followed by four bytes of
/// zero; the image size at 64, the frame index at 72 and the bounce limit at
/// 76; eighty bytes in all.
pub proof fn lemma_wire_layout(ubo: CameraUBO, little_endian: bool)
    ensures
        ubo.wire(little_endian).len() == 80,
        word_at(ubo.wire(little_endian), 0, little_endian) == ubo.origin.x,
        word_at(ubo.wire(little_endian), 4, little_endian) == ubo.origin.y,
        word_at(ubo.wire(little_endian), 8, little_endian) == ubo.origin.z,
        word_at(ubo.wire(little_endian), 12, little_endian) == 0,
        word_at(ubo.wire(little_endian), 16, little_endian) == ubo.dir.x,
        word_at(ubo.wire(little_endian), 20, little_endian) == ubo.dir.y,
        word_at(ubo.wire(little_endian), 24, little_endian) == ubo.dir.z,
        word_at(ubo.wire(little_endian), 28, little_endian) == 0,
        word_at(ubo.wire(little_endian), 32, little_endian) == ubo.right.x,
        word_at(ubo.wire(little_endian), 36, little_endian) == ubo.right.y,
        word_at(ubo.wire(little_endian), 40, little_endian) == ubo.right.z,
        word_at(ubo.wire(little_endian), 44, little_endian) == 0,
        word_at(ubo.wire(little_endian), 48, little_endian) == ubo.up.x,
        word_at(ubo.wire(little_endian), 52, little_endian) == ubo.up.y,
        word_at(ubo.wire(little_endian), 56, little_endian) == ubo.up.z,
        word_at(ubo.wire(little_endian), 60, little_endian) == 0,
        word_at(ubo.wire(little_endian), 64, little_endian) == ubo.img_size[0],
        word_at(ubo.wire(little_endian), 68, little_endian) == ubo.img_size[1],
        word_at(ubo.wire(little_endian), 72, little_endian) == ubo.frame_index,
        word_at(ubo.wire(little_endian), 76, little_endian) == ubo.max_bounce,
{
    let words = ubo.spec_words();
    lemma_word_at_image(words, little_endian, 0);
    lemma_word_at_image(words, little_endian, 1);
    lemma_word_at_image(words, little_endian, 2);
    lemma_word_at_image(words, little_endian, 3);
    lemma_word_at_image(words, little_endian, 4);
    lemma_word_at_image(words, little_endian, 5);
    lemma_word_at_image(words, little_endian, 6);
    lemma_word_at_image(words, little_endian, 7);
    lemma_word_at_image(words, little_endian, 8);
    lemma_word_at_image(words, little_endian, 9);
    lemma_word_at_image(words, little_endian, 10);
    lemma_word_at_image(words, little_endian, 11);
    lemma_word_at_image(words, little_endian, 12);
    lemma_word_at_image(words, little_endian, 13);
    lemma_word_at_image(words, little_endian, 14);
    lemma_word_at_image(words, little_endian, 15);
    lemma_word_at_image(words, little_endian, 16);
    lemma_word_at_image(words, little_endian, 17);
    lemma_word_at_image(words, little_endian, 18);
    lemma_word_at_image(words, little_endian, 19);
}

} // verus!
