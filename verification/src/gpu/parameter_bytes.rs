use vstd::prelude::*;
use vstd::bytes::{spec_u32_to_le_bytes, u32_to_le_bytes};

verus! {

/// The little-endian bytes of a sequence of 32-bit words, word after word:
/// the layout in which WGSL reads a uniform block of `u32`/`f32` fields.
pub open spec fn words_le_bytes(words: Seq<u32>) -> Seq<u8>
    decreases words.len(),
{
    if words.len() == 0 {
        Seq::empty()
    } else {
        words_le_bytes(words.drop_last()) + spec_u32_to_le_bytes(words.last())
    }
}

/// The 32-bit word stored little-endian at bytes `4k .. 4k + 4`.
pub open spec fn le_word_at(bytes: Seq<u8>, k: int) -> u32 {
    vstd::bytes::spec_u32_from_le_bytes(bytes.subrange(4 * k, 4 * k + 4))
}

/// Appends the four little-endian bytes of `word`.
pub fn push_le_word(bytes: &mut Vec<u8>, word: u32)
    ensures
        final(bytes)@ == old(bytes)@ + spec_u32_to_le_bytes(word),
{
    let word_bytes = u32_to_le_bytes(word);
    let ghost start = bytes@;
    let mut i: usize = 0;
    while i < 4
        invariant
            word_bytes@ == spec_u32_to_le_bytes(word),
            word_bytes@.len() == 4,
            i <= 4,
            bytes@ == start + word_bytes@.take(i as int),
        decreases 4 - i,
    {
        bytes.push(word_bytes[i]);
        i = i + 1;
        assert(bytes@ =~= start + word_bytes@.take(i as int));
    }
    assert(word_bytes@.take(4) =~= word_bytes@);
}

/// Appends `count` zero bytes.
pub fn push_zero_bytes(bytes: &mut Vec<u8>, count: usize)
    ensures
        final(bytes)@ == old(bytes)@ + Seq::new(count as nat, |i: int| 0u8),
{
    let ghost start = bytes@;
    let mut i: usize = 0;
    while i < count
        invariant
            i <= count,
            bytes@ == start + Seq::new(i as nat, |j: int| 0u8),
        decreases count - i,
    {
        bytes.push(0u8);
        i = i + 1;
        assert(bytes@ =~= start + Seq::new(i as nat, |j: int| 0u8));
    }
}

/// The little-endian bytes of `words`, as a uniform buffer's contents.
pub fn encode_words_le(words: &[u32]) -> (bytes: Vec<u8>)
    ensures
        bytes@ == words_le_bytes(words@),
        bytes@.len() == 4 * words@.len(),
{
    let mut bytes: Vec<u8> = Vec::new();
    let mut i: usize = 0;
    while i < words.len()
        invariant
            i <= words@.len(),
            bytes@ == words_le_bytes(words@.take(i as int)),
            bytes@.len() == 4 * i,
        decreases words@.len() - i,
    {
        proof {
            vstd::bytes::lemma_auto_spec_u32_to_from_le_bytes();
            assert(words@.take(i + 1).drop_last() =~= words@.take(i as int));
        }
        push_le_word(&mut bytes, words[i]);
        i = i + 1;
    }
    assert(words@.take(words@.len() as int) =~= words@);
    bytes
}

/// Decoding what `encode_words_le` wrote gives the words back: word `k`
/// sits in bytes `4k .. 4k + 4`.
pub proof fn lemma_words_le_bytes_layout(words: Seq<u32>, k: int)
    requires
        0 <= k < words.len(),
    ensures
        words_le_bytes(words).len() == 4 * words.len(),
        words_le_bytes(words).subrange(4 * k, 4 * k + 4) == spec_u32_to_le_bytes(words[k]),
        vstd::bytes::spec_u32_from_le_bytes(words_le_bytes(words).subrange(4 * k, 4 * k + 4)) == words[k],
    decreases words.len(),
{
    vstd::bytes::lemma_auto_spec_u32_to_from_le_bytes();
    lemma_words_le_bytes_len(words.drop_last());
    if k < words.len() - 1 {
        lemma_words_le_bytes_layout(words.drop_last(), k);
        assert(words_le_bytes(words).subrange(4 * k, 4 * k + 4) =~= words_le_bytes(words.drop_last()).subrange(4 * k, 4 * k + 4));
    } else {
        assert(words_le_bytes(words).subrange(4 * k, 4 * k + 4) =~= spec_u32_to_le_bytes(words.last()));
    }
}

/// `words_le_bytes` spends four bytes per word.
pub proof fn lemma_words_le_bytes_len(words: Seq<u32>)
    ensures
        words_le_bytes(words).len() == 4 * words.len(),
    decreases words.len(),
{
    vstd::bytes::lemma_auto_spec_u32_to_from_le_bytes();
    if words.len() > 0 {
        lemma_words_le_bytes_len(words.drop_last());
    }
}

} // verus!
