//! Big-endian byte layout for the 16-bit fields of the UDP header.

use vstd::prelude::*;

verus! {

/// The two network-order bytes of a 16-bit value.
pub open spec fn be16(x: u16) -> Seq<u8> {
    seq![(x / 256) as u8, (x % 256) as u8]
}

/// The 16-bit value read back from two network-order bytes.
pub open spec fn word(hi: u8, lo: u8) -> u16 {
    (hi * 256 + lo) as u16
}

/// Reading the two bytes of `be16` back gives the value itself.
pub proof fn lemma_be16_word(x: u16)
    ensures
        word(be16(x)[0], be16(x)[1]) == x,
{
}

/// Appends the two network-order bytes of `x`.
pub fn push_be16(out: &mut Vec<u8>, x: u16)
    ensures
        final(out)@ == old(out)@ + be16(x),
{
    out.push((x / 256) as u8);
    out.push((x % 256) as u8);
    proof {
        assert(out@ =~= old(out)@ + be16(x));
    }
}

/// Reads a 16-bit value from two network-order bytes.
pub fn read_be16(hi: u8, lo: u8) -> (x: u16)
    ensures
        x == word(hi, lo),
        be16(x) == seq![hi, lo],
{
    let x: u16 = (hi as u16) * 256 + (lo as u16);
    proof {
        assert(be16(x) =~= seq![hi, lo]);
    }
    x
}

} // verus!
