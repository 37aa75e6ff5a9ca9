//! The Internet ones-complement checksum of RFC 768: 16-bit big-endian
//! words are summed (a trailing odd byte counts as the high half of a
//! zero-padded word), the carries are folded back in, and the result is
//! complemented.

use vstd::prelude::*;

verus! {

/// Sum of the 16-bit big-endian words of `b` from index `i` on; a
/// trailing odd byte is the high-order byte of a zero-padded word.
pub open spec fn sum_words_from(b: Seq<u8>, i: int) -> int
    decreases b.len() - i when 0 <= i
{
    if i >= b.len() {
        0
    } else if i + 1 == b.len() {
        b[i] * 256
    } else {
        b[i] * 256 + b[i + 1] + sum_words_from(b, i + 2)
    }
}

/// Sum of all the 16-bit words of a byte sequence.
pub open spec fn sum_words(b: Seq<u8>) -> int {
    sum_words_from(b, 0)
}

/// End-around carry fold: adds the high bits back into the low 16 until
/// the sum fits in 16 bits.
pub open spec fn fold16(s: int) -> int
    decreases s when s >= 0
{
    if s < 0x10000 {
        s
    } else {
        fold16(s % 0x10000 + s / 0x10000)
    }
}

/// The checksum of a byte sequence: the folded word sum, complemented.
pub open spec fn checksum_of(b: Seq<u8>) -> u16 {
    (0xFFFF - fold16(sum_words(b))) as u16
}

pub proof fn lemma_fold16_bounds(s: int)
    requires
        s >= 0,
    ensures
        0 <= fold16(s) <= 0xFFFF,
    decreases s,
{
    if s >= 0x10000 {
        lemma_fold16_bounds(s % 0x10000 + s / 0x10000);
    }
}

/// The word sum never exceeds one maximal word per byte pair.
pub proof fn lemma_sum_words_from_bounds(b: Seq<u8>, i: int)
    requires
        0 <= i <= b.len(),
    ensures
        0 <= sum_words_from(b, i) <= (b.len() - i) * 0xFFFF,
    decreases b.len() - i,
{
    if i < b.len() && i + 1 < b.len() {
        lemma_sum_words_from_bounds(b, i + 2);
    }
}

/// Computes the Internet checksum of a byte buffer.
pub fn checksum(b: &[u8]) -> (r: u16)
    requires
        b@.len() <= 0x20000,
    ensures
        r == checksum_of(b@),
{
    let n = b.len();
    let mut acc: u64 = 0;
    let mut i: usize = 0;
    proof {
        lemma_sum_words_from_bounds(b@, 0);
    }
    while i + 1 < n
        invariant
            n == b@.len() <= 0x20000,
            i <= n,
            i % 2 == 0,
            acc == sum_words(b@) - sum_words_from(b@, i as int),
            0 <= sum_words(b@) <= b@.len() * 0xFFFF,
            0 <= acc <= sum_words(b@),
        decreases n - i,
    {
        proof {
            lemma_sum_words_from_bounds(b@, i as int);
            lemma_sum_words_from_bounds(b@, i + 2);
        }
        acc = acc + (b[i] as u64) * 256 + (b[i + 1] as u64);
        i += 2;
    }
    if i < n {
        proof {
            lemma_sum_words_from_bounds(b@, i as int);
        }
        acc = acc + (b[i] as u64) * 256;
        proof {
            assert(sum_words_from(b@, i as int) == b@[i as int] * 256);
        }
    }
    assert(acc == sum_words(b@));
    compile(acc)
}

/// Folds the carries of a running word sum and complements it, yielding
/// the final 16-bit checksum.
pub fn compile(sum: u64) -> (r: u16)
    ensures
        r == (0xFFFF - fold16(sum as int)) as u16,
{
    let mut s: u64 = sum;
    while s > 0xFFFF
        invariant
            s >= 0,
            fold16(s as int) == fold16(sum as int),
        decreases s,
    {
        s = s % 0x10000 + s / 0x10000;
    }
    proof {
        lemma_fold16_bounds(sum as int);
    }
    0xFFFF - (s as u16)
}

} // verus!
