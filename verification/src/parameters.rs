//! The parameter block: the effect settings as the fragment stage reads them.

use vstd::prelude::*;
use crate::layout::{le_word, signed_word, word_signed, words_bytes, Scalar};
use crate::layout::{encode_words, from_word, read_word, to_word};
use crate::layout::{lemma_signed_round_trip, lemma_word_at};

verus! {

/// Size in bytes of the parameter block in the uniform buffer.
pub const PARAMETER_BLOCK_SIZE: usize = 32;

/// Alignment in bytes that the size of a uniform block has to be a multiple of.
pub const UNIFORM_ALIGNMENT: usize = 16;

/// Settings of the active effect, in the order in which the uniform buffer holds them.
///
/// No field is validated: the shader stages tolerate or clamp what they are given.
#[derive(Debug, Clone, Copy, PartialEq, Eq, Structural)]
pub struct Parameters {
    pub sigma1: Scalar,
    pub tau: Scalar,
    pub gfact: Scalar,
    pub epsilon: Scalar,
    pub num_gvf_iterations: i32,
    pub enable_xdog: u32,
    pub shader_index: u32,
    pub colors: Scalar,
}

impl Parameters {
    /// The eight words of the block, in field order.
    pub open spec fn words(self) -> Seq<u32> {
        seq![
            self.sigma1.bits,
            self.tau.bits,
            self.gfact.bits,
            self.epsilon.bits,
            signed_word(self.num_gvf_iterations),
            self.enable_xdog,
            self.shader_index,
            self.colors.bits,
        ]
    }

    /// The bytes of the block: its words in field order, each least significant byte first.
    pub open spec fn layout(self) -> Seq<u8> {
        words_bytes(self.words())
    }

    /// The block that `bytes` holds, if they have the size of one.
    pub open spec fn parse(bytes: Seq<u8>) -> Option<Parameters> {
        if bytes.len() == PARAMETER_BLOCK_SIZE {
            Some(
                Parameters {
                    sigma1: Scalar { bits: le_word(bytes, 0) },
                    tau: Scalar { bits: le_word(bytes, 4) },
                    gfact: Scalar { bits: le_word(bytes, 8) },
                    epsilon: Scalar { bits: le_word(bytes, 12) },
                    num_gvf_iterations: word_signed(le_word(bytes, 16)),
                    enable_xdog: le_word(bytes, 20),
                    shader_index: le_word(bytes, 24),
                    colors: Scalar { bits: le_word(bytes, 28) },
                },
            )
        } else {
            None
        }
    }

    /// Serializes the block for upload to the uniform buffer.
    pub fn to_bytes(&self) -> (bytes: Vec<u8>)
        ensures
            bytes@ == self.layout(),
            bytes@.len() == PARAMETER_BLOCK_SIZE,
            PARAMETER_BLOCK_SIZE % UNIFORM_ALIGNMENT == 0,
    {
        let words: [u32; 8] = [
            self.sigma1.bits,
            self.tau.bits,
            self.gfact.bits,
            self.epsilon.bits,
            to_word(self.num_gvf_iterations),
            self.enable_xdog,
            self.shader_index,
            self.colors.bits,
        ];
        assert(words@ =~= self.words());
        encode_words(words.as_slice())
    }

    /// Reads a block back from the bytes of a uniform buffer.
    ///
    /// Returns `None` unless `bytes` has exactly the size of a block.
    pub fn from_bytes(bytes: &[u8]) -> (block: Option<Parameters>)
        ensures
            block == Parameters::parse(bytes@),
    {
        if bytes.len() != PARAMETER_BLOCK_SIZE {
            return None;
        }
        Some(
            Parameters {
                sigma1: Scalar { bits: read_word(bytes, 0) },
                tau: Scalar { bits: read_word(bytes, 4) },
                gfact: Scalar { bits: read_word(bytes, 8) },
                epsilon: Scalar { bits: read_word(bytes, 12) },
                num_gvf_iterations: from_word(read_word(bytes, 16)),
                enable_xdog: read_word(bytes, 20),
                shader_index: read_word(bytes, 24),
                colors: Scalar { bits: read_word(bytes, 28) },
            },
        )
    }

    /// Decoding the bytes of a block with the same field layout gives the block back,
    /// field for field.
    pub proof fn lemma_round_trip(self)
        ensures
            self.layout().len() == PARAMETER_BLOCK_SIZE,
            Parameters::parse(self.layout()) == Some(self),
    {
        let words = self.words();
        lemma_word_at(words, 0);
        lemma_word_at(words, 1);
        lemma_word_at(words, 2);
        lemma_word_at(words, 3);
        lemma_word_at(words, 4);
        lemma_word_at(words, 5);
        lemma_word_at(words, 6);
        lemma_word_at(words, 7);
        lemma_signed_round_trip(self.num_gvf_iterations);
    }

    /// A buffer of the size of a block holds the bytes of exactly the block read from it.
    pub proof fn lemma_parse_layout(bytes: Seq<u8>)
        requires
            bytes.len() == PARAMETER_BLOCK_SIZE,
        ensures
            Parameters::parse(bytes) is Some,
            Parameters::parse(bytes)->0.layout() == bytes,
    {
        let block = Parameters::parse(bytes)->0;
        assert forall|i: int| 0 <= i < 32 implies block.layout()[i] == bytes[i] by {
            let k = i / 4;
            crate::layout::lemma_bytes_round_trip(bytes, 4 * k);
            assert(bytes.subrange(4 * k, 4 * k + 4)[i % 4] == bytes[i]);
            crate::layout::lemma_signed_word_round_trip(le_word(bytes, 16));
        }
        assert(block.layout() =~= bytes);
    }
}

} // verus!
