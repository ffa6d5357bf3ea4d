use vstd::prelude::*;

verus! {

/// Whether bit number `bit` of `word` is set.
pub open spec fn has_bit(word: u64, bit: u64) -> bool {
    (word >> bit) & 1 == 1
}

/// A mask of one bit meets a word exactly where that bit of the word is set.
pub proof fn lemma_mask_tests_bit(word: u64, bit: u64)
    requires
        bit < 64,
    ensures
        (word & (1u64 << bit) != 0) == has_bit(word, bit),
{
    assert((word & (1u64 << bit) != 0) == ((word >> bit) & 1 == 1)) by (bit_vector)
        requires
            bit < 64,
    ;
}

} // verus!
