//! Dotted-quad IPv4 addresses: four octets, parsed from and rendered to
//! decimal byte strings.

use vstd::prelude::*;
use crate::decimal::{is_digits, dec_val, dec_rep, dec_value, push_dec};
use crate::scan::{index_of, find_byte, lemma_index_of};

verus! {

/// ASCII `'.'`.
pub const DOT: u8 = 46;

/// An IPv4 address, one field per octet in dotted-quad order.
#[derive(Copy, Clone, PartialEq, Eq, Structural, Debug)]
pub struct IPv4Addr {
    pub o0: u8,
    pub o1: u8,
    pub o2: u8,
    pub o3: u8,
}

/// One address octet: a non-empty digit string worth at most 255.
pub open spec fn octet_of(s: Seq<u8>) -> Option<u8> {
    if s.len() > 0 && is_digits(s) && 0 <= dec_val(s) <= 255 {
        Some(dec_val(s) as u8)
    } else {
        None
    }
}

/// The address denoted by `a.b.c.d`, or `None` when the string is not
/// exactly four dot-separated octets.
pub open spec fn ipv4_of(s: Seq<u8>) -> Option<IPv4Addr> {
    let i1 = index_of(s, DOT);
    if i1 == s.len() {
        None
    } else {
        let r1 = s.skip(i1 + 1);
        let i2 = index_of(r1, DOT);
        if i2 == r1.len() {
            None
        } else {
            let r2 = r1.skip(i2 + 1);
            let i3 = index_of(r2, DOT);
            if i3 == r2.len() {
                None
            } else {
                match (octet_of(s.take(i1)), octet_of(r1.take(i2)), octet_of(r2.take(i3)), octet_of(r2.skip(i3 + 1))) {
                    (Some(o0), Some(o1), Some(o2), Some(o3)) => Some(IPv4Addr { o0, o1, o2, o3 }),
                    _ => None,
                }
            }
        }
    }
}

/// The dotted-quad rendering of an address.
pub open spec fn addr_rep(a: IPv4Addr) -> Seq<u8> {
    dec_rep(a.o0 as int) + seq![DOT] + dec_rep(a.o1 as int) + seq![DOT]
        + dec_rep(a.o2 as int) + seq![DOT] + dec_rep(a.o3 as int)
}

/// Reads one octet.
pub fn parse_octet(s: &[u8]) -> (r: Option<u8>)
    ensures
        r == octet_of(s@),
{
    match dec_value(s) {
        Some(v) => {
            if v <= 255 {
                proof {
                    crate::decimal::lemma_dec_val_nonneg(s@);
                }
                Some(v as u8)
            } else {
                None
            }
        },
        None => None,
    }
}

impl IPv4Addr {
    /// Reads a dotted-quad address string.
    pub fn parse(s: &[u8]) -> (r: Option<IPv4Addr>)
        ensures
            r == ipv4_of(s@),
    {
        proof {
            lemma_index_of(s@, DOT);
        }
        let i1 = find_byte(s, DOT);
        if i1 == s.len() {
            return None;
        }
        let part0 = &s[0..i1];
        let rest1 = &s[i1 + 1..s.len()];
        proof {
            assert(part0@ =~= s@.take(i1 as int));
            assert(rest1@ =~= s@.skip(i1 + 1));
            lemma_index_of(rest1@, DOT);
        }
        let i2 = find_byte(rest1, DOT);
        if i2 == rest1.len() {
            return None;
        }
        let part1 = &rest1[0..i2];
        let rest2 = &rest1[i2 + 1..rest1.len()];
        proof {
            assert(part1@ =~= rest1@.take(i2 as int));
            assert(rest2@ =~= rest1@.skip(i2 + 1));
            lemma_index_of(rest2@, DOT);
        }
        let i3 = find_byte(rest2, DOT);
        if i3 == rest2.len() {
            return None;
        }
        let part2 = &rest2[0..i3];
        let part3 = &rest2[i3 + 1..rest2.len()];
        proof {
            assert(part2@ =~= rest2@.take(i3 as int));
            assert(part3@ =~= rest2@.skip(i3 + 1));
        }
        match (parse_octet(part0), parse_octet(part1), parse_octet(part2), parse_octet(part3)) {
            (Some(o0), Some(o1), Some(o2), Some(o3)) => Some(IPv4Addr { o0, o1, o2, o3 }),
            _ => None,
        }
    }

    /// Appends the dotted-quad rendering of the address.
    pub fn push_rendered(&self, out: &mut Vec<u8>)
        ensures
            final(out)@ == old(out)@ + addr_rep(*self),
    {
        push_dec(out, self.o0 as u16);
        out.push(DOT);
        push_dec(out, self.o1 as u16);
        out.push(DOT);
        push_dec(out, self.o2 as u16);
        out.push(DOT);
        push_dec(out, self.o3 as u16);
        proof {
            assert(out@ =~= old(out)@ + addr_rep(*self));
        }
    }
}

} // verus!
