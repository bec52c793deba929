//! The dimensions record that the kernel reads from its uniform slot.

use vstd::prelude::*;

verus! {

/// Number of bytes the record occupies in device memory. Uniform memory is
/// handed out in units of 16 bytes, which is why the record is padded.
pub const RECORD_BYTES: u64 = 16;

/// Width and height of the matrices of one run, padded to 16 bytes.
#[derive(Clone, Copy, Debug)]
pub struct MatrixDimensions {
    pub width: u32,
    pub height: u32,
    pub padding: [u32; 2],
}

/// The four bytes of `word`, least significant first.
pub open spec fn le_bytes(word: u32) -> Seq<u8> {
    seq![
        (word % 0x100) as u8,
        (word / 0x100 % 0x100) as u8,
        (word / 0x1_0000 % 0x100) as u8,
        (word / 0x100_0000) as u8,
    ]
}

/// The four bytes of `word`, most significant first.
pub open spec fn be_bytes(word: u32) -> Seq<u8> {
    seq![
        (word / 0x100_0000) as u8,
        (word / 0x1_0000 % 0x100) as u8,
        (word / 0x100 % 0x100) as u8,
        (word % 0x100) as u8,
    ]
}

/// The bytes of `words` laid out one word after the other, each word in the
/// byte order chosen.
pub open spec fn image(words: Seq<u32>, big_endian: bool) -> Seq<u8>
    decreases words.len(),
{
    if words.len() == 0 {
        Seq::empty()
    } else {
        image(words.drop_last(), big_endian) + if big_endian {
            be_bytes(words.last())
        } else {
            le_bytes(words.last())
        }
    }
}

/// The image of a sequence of words has four bytes for each word.
pub proof fn lemma_image_len(words: Seq<u32>, big_endian: bool)
    ensures
        image(words, big_endian).len() == 4 * words.len(),
    decreases words.len(),
{
    if words.len() > 0 {
        lemma_image_len(words.drop_last(), big_endian);
    }
}

/// The bytes that `bytemuck::cast_slice` shows of four 32-bit words: the
/// words as they lie in memory, one after the other, each in the byte order
/// of the machine, which is the same for all four and either little or big
/// endian. The cast from words to bytes cannot fail: bytes need no alignment
/// and every word is four whole bytes.
#[verifier::external_body]
fn words_as_bytes(words: &[u32; 4]) -> (bytes: Vec<u8>)
    ensures
        bytes@ == image(words@, false) || bytes@ == image(words@, true),
{
    bytemuck::cast_slice::<u32, u8>(words).to_vec()
}

impl MatrixDimensions {
    /// The four words of the record in the order of its fields.
    pub open spec fn words(&self) -> Seq<u32> {
        seq![self.width, self.height, self.padding@[0], self.padding@[1]]
    }

    /// The record of a square matrix with `size` rows and columns.
    pub fn square(size: u32) -> (dims: MatrixDimensions)
        ensures
            dims.width == size,
            dims.height == size,
            dims.padding@ == seq![0u32, 0u32],
            dims.words() == seq![size, size, 0u32, 0u32],
    {
        let dims = MatrixDimensions { width: size, height: size, padding: [0, 0] };
        assert(dims.padding@ =~= seq![0u32, 0u32]);
        assert(dims.words() =~= seq![size, size, 0u32, 0u32]);
        dims
    }

    /// The record as the four words the kernel reads.
    pub fn to_words(&self) -> (words: [u32; 4])
        ensures
            words@ == self.words(),
    {
        let words: [u32; 4] = [self.width, self.height, self.padding[0], self.padding[1]];
        assert(words@ =~= self.words());
        words
    }

    /// The record as the bytes that are uploaded into the uniform buffer:
    /// sixteen of them, the four words in the byte order of the machine.
    pub fn to_bytes(&self) -> (bytes: Vec<u8>)
        ensures
            bytes@.len() == RECORD_BYTES,
            bytes@ == image(self.words(), false) || bytes@ == image(self.words(), true),
    {
        let words = self.to_words();
        let bytes = words_as_bytes(&words);
        proof {
            lemma_image_len(self.words(), false);
            lemma_image_len(self.words(), true);
        }
        bytes
    }
}

} // verus!
