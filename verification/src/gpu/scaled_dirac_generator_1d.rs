use vstd::prelude::*;
use crate::gpu::parameter_bytes::{encode_words_le, le_word_at, lemma_words_le_bytes_layout, words_le_bytes};

verus! {

/// The 16-byte uniform block of the scaled Dirac generator kernel: the point
/// count, the lattice spacing, the inverse spectral scale `1 / s` and a
/// padding word, each little-endian. The two real parameters are passed as
/// the bit patterns of their `f32` values.
pub fn create_parameter_bytes(
    point_count: u32,
    lattice_spacing_bits: u32,
    inverse_spectral_scale_bits: u32,
) -> (bytes: Vec<u8>)
    ensures
        bytes@ == words_le_bytes(seq![point_count, lattice_spacing_bits, inverse_spectral_scale_bits, 0u32]),
        bytes@.len() == 16,
        le_word_at(bytes@, 0) == point_count,
        le_word_at(bytes@, 1) == lattice_spacing_bits,
        le_word_at(bytes@, 2) == inverse_spectral_scale_bits,
        le_word_at(bytes@, 3) == 0,
{
    let words: [u32; 4] = [point_count, lattice_spacing_bits, inverse_spectral_scale_bits, 0];
    let bytes = encode_words_le(&words);
    assert(words@ =~= seq![point_count, lattice_spacing_bits, inverse_spectral_scale_bits, 0u32]);
    proof {
        lemma_words_le_bytes_layout(words@, 0);
        lemma_words_le_bytes_layout(words@, 1);
        lemma_words_le_bytes_layout(words@, 2);
        lemma_words_le_bytes_layout(words@, 3);
    }
    bytes
}

} // verus!
