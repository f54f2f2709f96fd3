use vstd::prelude::*;

verus! {

/// Number of 64-bit words in a lesson bitmap.
pub const LESSON_WORDS: usize = 4;

/// Number of lesson indices a bitmap can hold.
pub const MAX_LESSONS: u32 = 256;

/// Whether bit `bit` (0..64) of `word` is one.
pub open spec fn word_bit(word: u64, bit: int) -> bool {
    (word >> (bit as u64)) & 1u64 == 1u64
}

/// Whether lesson `i` (0..256) is marked in `flags`.
pub open spec fn flag_set(flags: [u64; 4], i: int) -> bool {
    word_bit(flags[i / 64], i % 64)
}

/// Number of marked lessons among the indices `0..n`.
pub open spec fn count_below(flags: [u64; 4], n: nat) -> nat
    decreases n,
{
    if n == 0 {
        0
    } else {
        count_below(flags, (n - 1) as nat) + if flag_set(flags, n - 1) {
            1nat
        } else {
            0nat
        }
    }
}

/// Population count of the whole bitmap.
pub open spec fn popcount(flags: [u64; 4]) -> nat {
    count_below(flags, 256)
}

/// The word that holds lesson `index`.
pub fn lesson_word(index: u8) -> (r: usize)
    ensures
        r == index as int / 64,
        r < LESSON_WORDS,
{
    (index / 64) as usize
}

/// The position of lesson `index` inside its word.
pub fn lesson_bit(index: u8) -> (r: u32)
    ensures
        r == index as int % 64,
        r < 64,
{
    (index % 64) as u32
}

proof fn lemma_or_mask(word: u64, b: u64, k: u64)
    requires
        b < 64,
        k < 64,
    ensures
        word_bit(word | (1u64 << b), k as int) == (k == b || word_bit(word, k as int)),
{
    assert(((word | (1u64 << b)) >> k) & 1u64 == 1u64 <==> (k == b || (word >> k) & 1u64 == 1u64))
        by (bit_vector)
        requires
            b < 64,
            k < 64,
    ;
}

proof fn lemma_mask_test(word: u64, b: u64)
    requires
        b < 64,
    ensures
        (word & (1u64 << b) != 0) == word_bit(word, b as int),
        word_bit(word, b as int) ==> word | (1u64 << b) == word,
{
    assert((word & (1u64 << b) != 0) == ((word >> b) & 1u64 == 1u64)) by (bit_vector)
        requires
            b < 64,
    ;
    assert(((word >> b) & 1u64 == 1u64) ==> word | (1u64 << b) == word) by (bit_vector)
        requires
            b < 64,
    ;
}

/// Marks lesson `index` as completed.
pub fn bitmap_set(flags: &mut [u64; 4], index: u8)
    ensures
        forall|j: int| 0 <= j < 256 ==> #[trigger] flag_set(*final(flags), j) == (j == index as int
            || flag_set(*old(flags), j)),
        flag_set(*old(flags), index as int) ==> *final(flags) == *old(flags) && popcount(
            *final(flags),
        ) == popcount(*old(flags)),
{
    let w = lesson_word(index);
    let b = lesson_bit(index);
    let old_word = flags[w];
    let mask: u64 = 1u64 << b;
    flags[w] = old_word | mask;
    assert forall|j: int| 0 <= j < 256 implies #[trigger] flag_set(*flags, j) == (j == index as int
        || flag_set(*old(flags), j)) by {
        if j / 64 == w as int {
            lemma_or_mask(old_word, b as u64, (j % 64) as u64);
        }
    }
    proof {
        lemma_mask_test(old_word, b as u64);
        if flag_set(*old(flags), index as int) {
            assert(flags@ =~= old(flags)@);
        }
    }
}

/// Whether lesson `index` is marked.
pub fn bitmap_is_set(flags: &[u64; 4], index: u8) -> (r: bool)
    ensures
        r == flag_set(*flags, index as int),
{
    let w = lesson_word(index);
    let b = lesson_bit(index);
    proof {
        lemma_mask_test(flags[w as int], b as u64);
    }
    flags[w] & (1u64 << b) != 0
}

proof fn lemma_count_below_le(flags: [u64; 4], n: nat)
    ensures
        count_below(flags, n) <= n,
    decreases n,
{
    if n > 0 {
        lemma_count_below_le(flags, (n - 1) as nat);
    }
}

/// Number of marked lessons in the whole bitmap.
pub fn bitmap_count_ones(flags: &[u64; 4]) -> (r: u32)
    ensures
        r as nat == popcount(*flags),
        r <= MAX_LESSONS,
{
    let mut count: u32 = 0;
    let mut i: u32 = 0;
    while i < MAX_LESSONS
        invariant
            i <= MAX_LESSONS,
            count as nat == count_below(*flags, i as nat),
            count <= i,
        decreases MAX_LESSONS - i,
    {
        if bitmap_is_set(flags, i as u8) {
            count = count + 1;
        }
        i = i + 1;
    }
    count
}

proof fn lemma_count_below_prefix(flags: [u64; 4], n: nat, k: nat)
    requires
        n <= 256,
        k <= 256,
        forall|j: int| 0 <= j < 256 ==> #[trigger] flag_set(flags, j) == (j < n),
    ensures
        count_below(flags, k) == if k < n {
            k
        } else {
            n
        },
    decreases k,
{
    if k > 0 {
        lemma_count_below_prefix(flags, n, (k - 1) as nat);
        assert(flag_set(flags, k - 1) == (k - 1 < n));
    }
}

/// A bitmap whose marked lessons are exactly the indices below `n` has
/// population count `n`: marking every lesson of an `n`-lesson course, and
/// nothing else, counts `n`.
pub proof fn lemma_popcount_of_first(flags: [u64; 4], n: nat)
    requires
        n <= 256,
        forall|j: int| 0 <= j < 256 ==> #[trigger] flag_set(flags, j) == (j < n),
    ensures
        popcount(flags) == n,
{
    lemma_count_below_prefix(flags, n, 256);
}

/// A bitmap of four zero words has no lesson marked and counts zero.
pub proof fn lemma_zero_bitmap(flags: [u64; 4])
    requires
        flags@ == seq![0u64, 0u64, 0u64, 0u64],
    ensures
        forall|j: int| 0 <= j < 256 ==> !#[trigger] flag_set(flags, j),
        popcount(flags) == 0,
{
    assert forall|j: int| 0 <= j < 256 implies !#[trigger] flag_set(flags, j) by {
        let w = flags[j / 64];
        assert(w == flags@[j / 64]);
        let b = (j % 64) as u64;
        assert((0u64 >> b) & 1u64 == 0u64) by (bit_vector);
    }
    lemma_popcount_of_first(flags, 0);
}

} // verus!
