//! Bit-level access to packed 32-bit register words.
//!
//! Several logical pins share one register word; each operation here touches
//! exactly one bit and leaves the other 31 as they were.
use vstd::prelude::*;

verus! {

/// Whether bit `index` of `word` is set.
pub open spec fn bit_of(word: u32, index: u32) -> bool {
    (word >> index) & 1u32 == 1u32
}

/// The word with bit `index` forced to `bit`.
pub open spec fn with_bit(word: u32, index: u32, bit: bool) -> u32 {
    if bit {
        word | (1u32 << index)
    } else {
        word & !(1u32 << index)
    }
}

/// The word with bit `index` inverted.
pub open spec fn flip_bit(word: u32, index: u32) -> u32 {
    word ^ (1u32 << index)
}

/// Forcing one bit sets that bit and keeps all others.
pub proof fn lemma_with_bit(word: u32, index: u32, bit: bool)
    requires
        index < 32,
    ensures
        bit_of(with_bit(word, index, bit), index) == bit,
        forall|j: u32|
            #![trigger bit_of(with_bit(word, index, bit), j)]
            j < 32 && j != index ==> bit_of(with_bit(word, index, bit), j) == bit_of(word, j),
{
    let r = with_bit(word, index, bit);
    if bit {
        assert(bit_of(r, index)) by (bit_vector)
            requires
                r == word | (1u32 << index),
                index < 32,
        ;
    } else {
        assert(!bit_of(r, index)) by (bit_vector)
            requires
                r == word & !(1u32 << index),
                index < 32,
        ;
    }
    assert forall|j: u32| j < 32 && j != index implies bit_of(r, j) == bit_of(word, j) by {
        if bit {
            assert(bit_of(r, j) == bit_of(word, j)) by (bit_vector)
                requires
                    r == word | (1u32 << index),
                    index < 32,
                    j < 32,
                    j != index,
            ;
        } else {
            assert(bit_of(r, j) == bit_of(word, j)) by (bit_vector)
                requires
                    r == word & !(1u32 << index),
                    index < 32,
                    j < 32,
                    j != index,
            ;
        }
    }
}

/// Inverting one bit inverts that bit and keeps all others.
pub proof fn lemma_flip_bit(word: u32, index: u32)
    requires
        index < 32,
    ensures
        bit_of(flip_bit(word, index), index) == !bit_of(word, index),
        forall|j: u32|
            #![trigger bit_of(flip_bit(word, index), j)]
            j < 32 && j != index ==> bit_of(flip_bit(word, index), j) == bit_of(word, j),
{
    let r = flip_bit(word, index);
    assert(bit_of(r, index) == !bit_of(word, index)) by (bit_vector)
        requires
            r == word ^ (1u32 << index),
            index < 32,
    ;
    assert forall|j: u32| j < 32 && j != index implies bit_of(r, j) == bit_of(word, j) by {
        assert(bit_of(r, j) == bit_of(word, j)) by (bit_vector)
            requires
                r == word ^ (1u32 << index),
                index < 32,
                j < 32,
                j != index,
        ;
    }
}

/// Two single-bit updates at different indices never lose each other: applied
/// in either order they give the same word, and each bit ends as its own update
/// asked. This is what makes an atomic set or clear of one pin safe next to a
/// concurrent one on another pin of the same register.
pub proof fn lemma_independent_bits_commute(word: u32, i: u32, a: bool, j: u32, b: bool)
    requires
        i < 32,
        j < 32,
        i != j,
    ensures
        with_bit(with_bit(word, i, a), j, b) == with_bit(with_bit(word, j, b), i, a),
        bit_of(with_bit(with_bit(word, i, a), j, b), i) == a,
        bit_of(with_bit(with_bit(word, i, a), j, b), j) == b,
{
    let x = with_bit(with_bit(word, i, a), j, b);
    let y = with_bit(with_bit(word, j, b), i, a);
    if a {
        if b {
            assert(x == y) by (bit_vector)
                requires x == (word | (1u32 << i)) | (1u32 << j), y == (word | (1u32 << j)) | (1u32 << i);
        } else {
            assert(x == y) by (bit_vector)
                requires x == (word | (1u32 << i)) & !(1u32 << j), y == (word & !(1u32 << j)) | (1u32 << i), i < 32, j < 32, i != j;
        }
    } else {
        if b {
            assert(x == y) by (bit_vector)
                requires x == (word & !(1u32 << i)) | (1u32 << j), y == (word | (1u32 << j)) & !(1u32 << i), i < 32, j < 32, i != j;
        } else {
            assert(x == y) by (bit_vector)
                requires x == (word & !(1u32 << i)) & !(1u32 << j), y == (word & !(1u32 << j)) & !(1u32 << i);
        }
    }
    lemma_with_bit(word, i, a);
    lemma_with_bit(with_bit(word, i, a), j, b);
}

/// Forcing a bit twice leaves what the second asked; forcing a bit to the
/// value it has changes nothing.
pub proof fn lemma_with_bit_twice(word: u32, index: u32, a: bool, b: bool)
    requires
        index < 32,
    ensures
        with_bit(with_bit(word, index, a), index, b) == with_bit(word, index, b),
        bit_of(word, index) == b ==> with_bit(word, index, b) == word,
{
    let m = 1u32 << index;
    if a {
        if b {
            assert((word | m) | m == word | m) by (bit_vector);
        } else {
            assert((word | m) & !m == word & !m) by (bit_vector);
        }
    } else {
        if b {
            assert((word & !m) | m == word | m) by (bit_vector);
        } else {
            assert((word & !m) & !m == word & !m) by (bit_vector);
        }
    }
    if b {
        assert(bit_of(word, index) ==> word | (1u32 << index) == word) by (bit_vector)
            requires
                index < 32,
        ;
    } else {
        assert(!bit_of(word, index) ==> word & !(1u32 << index) == word) by (bit_vector)
            requires
                index < 32,
        ;
    }
}

/// Returns `word` with bit `index` forced to `bit`.
pub fn u32_set_bit(word: u32, bit: bool, index: u32) -> (r: u32)
    requires
        index < 32,
    ensures
        r == with_bit(word, index, bit),
        bit_of(r, index) == bit,
        forall|j: u32| #![trigger bit_of(r, j)] j < 32 && j != index ==> bit_of(r, j) == bit_of(word, j),
{
    proof {
        lemma_with_bit(word, index, bit);
    }
    if bit {
        word | (1u32 << index)
    } else {
        word & !(1u32 << index)
    }
}

/// Returns `word` with bit `index` inverted.
pub fn u32_toggle_bit(word: u32, index: u32) -> (r: u32)
    requires
        index < 32,
    ensures
        r == flip_bit(word, index),
        bit_of(r, index) == !bit_of(word, index),
        forall|j: u32| #![trigger bit_of(r, j)] j < 32 && j != index ==> bit_of(r, j) == bit_of(word, j),
{
    proof {
        lemma_flip_bit(word, index);
    }
    word ^ (1u32 << index)
}

/// Whether bit `index` of `word` is set.
pub fn u32_bit_is_set(word: u32, index: u32) -> (r: bool)
    requires
        index < 32,
    ensures
        r == bit_of(word, index),
{
    let r = word & (1u32 << index) != 0;
    assert(r == bit_of(word, index)) by (bit_vector)
        requires
            r == (word & (1u32 << index) != 0),
            index < 32,
    ;
    r
}

/// Whether bit `index` of `word` is clear.
pub fn u32_bit_is_clear(word: u32, index: u32) -> (r: bool)
    requires
        index < 32,
    ensures
        r == !bit_of(word, index),
{
    let r = word & (1u32 << index) == 0;
    assert(r == !bit_of(word, index)) by (bit_vector)
        requires
            r == (word & (1u32 << index) == 0),
            index < 32,
    ;
    r
}

} // verus!
