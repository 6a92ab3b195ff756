use vstd::prelude::*;

verus! {

/// Whether bit `i` (0 = least significant) of `x` is set.
pub open spec fn bit(x: u32, i: u32) -> bool {
    (x >> i) & 1 == 1
}

/// Number of set bits among the `n` lowest bits of `x`.
pub open spec fn ones(x: u32, n: nat) -> nat
    decreases n,
{
    if n == 0 {
        0
    } else {
        ones(x, (n - 1) as nat) + if bit(x, (n - 1) as u32) {
            1nat
        } else {
            0nat
        }
    }
}

/// Population count of a whole 32-bit word.
pub open spec fn popcount(x: u32) -> nat {
    ones(x, 32)
}

/// The byte `x` with its bit order reversed: bit `i` moves to bit `7 - i`.
pub open spec fn rev8(x: u8) -> u8 {
    (((x & 0x01) << 7) | ((x & 0x02) << 5) | ((x & 0x04) << 3) | ((x & 0x08) << 1)
        | ((x & 0x10) >> 1) | ((x & 0x20) >> 3) | ((x & 0x40) >> 5) | ((x & 0x80) >> 7)) as u8
}

/// Reversing the bit order of a byte twice gives the byte back.
pub proof fn lemma_rev8_involutive(x: u8)
    ensures
        rev8(rev8(x)) == x,
{
    assert(rev8(rev8(x)) == x) by (bit_vector);
}

/// Two words that agree on their `n` lowest bits have as many set bits there.
pub proof fn lemma_ones_agree(x: u32, y: u32, n: nat)
    requires
        n <= 32,
        forall|i: u32| i < n ==> #[trigger] bit(x, i) == bit(y, i),
    ensures
        ones(x, n) == ones(y, n),
    decreases n,
{
    if n > 0 {
        lemma_ones_agree(x, y, (n - 1) as nat);
        assert(bit(x, (n - 1) as u32) == bit(y, (n - 1) as u32));
    }
}

/// Among the `n` lowest bits, flipping bit `k` changes the count of set bits by
/// exactly one when `k < n`, and not at all otherwise.
pub proof fn lemma_ones_flip(w: u32, k: u32, n: nat)
    requires
        n <= 32,
        k < 32,
    ensures
        ones(w ^ (1u32 << k), n) + (if k < n && bit(w, k) {
            1nat
        } else {
            0nat
        }) == ones(w, n) + (if k < n && !bit(w, k) {
            1nat
        } else {
            0nat
        }),
    decreases n,
{
    let f = w ^ (1u32 << k);
    if n > 0 {
        lemma_ones_flip(w, k, (n - 1) as nat);
        let j = (n - 1) as u32;
        assert(j != k ==> (bit(f, j) == bit(w, j))) by (bit_vector)
            requires
                f == w ^ (1u32 << k),
                k < 32,
                j < 32,
        ;
        assert(bit(f, k) != bit(w, k)) by (bit_vector)
            requires
                f == w ^ (1u32 << k),
                k < 32,
        ;
    }
}

/// Reverses the bit order of a byte, swapping nibbles, then pairs, then neighbours.
pub fn reverse_bits8(x: u8) -> (r: u8)
    ensures
        r == rev8(x),
{
    let a: u8 = (x >> 4) | (x << 4);
    let b: u8 = ((a & 0xCC) >> 2) | ((a & 0x33) << 2);
    let c: u8 = ((b & 0xAA) >> 1) | ((b & 0x55) << 1);
    assert(c == rev8(x)) by (bit_vector)
        requires
            a == (x >> 4) | (x << 4),
            b == ((a & 0xCC) >> 2) | ((a & 0x33) << 2),
            c == ((b & 0xAA) >> 1) | ((b & 0x55) << 1),
    ;
    c
}

/// Counts the set bits of a 32-bit word.
pub fn count_ones32(x: u32) -> (r: u32)
    ensures
        r == popcount(x),
{
    let mut count: u32 = 0;
    let mut i: u32 = 0;
    while i < 32
        invariant
            i <= 32,
            count == ones(x, i as nat),
            count <= i,
        decreases 32 - i,
    {
        if (x >> i) & 1 == 1 {
            count = count + 1;
        }
        i = i + 1;
    }
    count
}

} // verus!
