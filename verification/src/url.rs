//! The URL grammar of the scheme: `scheme:`, an optional `//`, then
//! either `/<port>` (a passive open, listening on a local port) or
//! `<host>:<port>` (an active open toward an explicit peer).  The same
//! scheme-and-authority shape is used to read the peer address out of a
//! transport's rendered path.

use vstd::prelude::*;
use crate::decimal::{is_digits, dec_val, dec_value};
use crate::ipv4::{IPv4Addr, ipv4_of};
use crate::scan::{index_of, find_byte, lemma_index_of};

verus! {

/// ASCII `':'`.
pub const COLON: u8 = 58;
/// ASCII `'/'`.
pub const SLASH: u8 = 47;

/// What an open request asks for, read off the URL.
#[derive(Copy, Clone, PartialEq, Eq, Structural, Debug)]
pub enum OpenRequest {
    /// Listen for the next datagram addressed to this local port.
    Passive { local_port: u16 },
    /// Send to and receive from one explicit peer.
    Active { peer: IPv4Addr, peer_port: u16 },
}

/// A UDP port: a non-empty digit string worth 1 to 65535.  Zero and
/// anything 65536 or above are out of range.
pub open spec fn port_of(s: Seq<u8>) -> Option<u16> {
    if s.len() > 0 && is_digits(s) && 0 < dec_val(s) <= 0xFFFF {
        Some(dec_val(s) as u16)
    } else {
        None
    }
}

/// Everything after the first `:`, or `None` when there is no scheme
/// separator at all.
pub open spec fn scheme_rest(s: Seq<u8>) -> Option<Seq<u8>> {
    let i = index_of(s, COLON);
    if i == s.len() {
        None
    } else {
        Some(s.skip(i + 1))
    }
}

/// Drops one leading `//` if present.
pub open spec fn strip_slashes(s: Seq<u8>) -> Seq<u8> {
    if s.len() >= 2 && s[0] == SLASH && s[1] == SLASH {
        s.skip(2)
    } else {
        s
    }
}

/// The request denoted by an open URL, or `None` on any parse or range
/// failure.
pub open spec fn request_of(url: Seq<u8>) -> Option<OpenRequest> {
    match scheme_rest(url) {
        None => None,
        Some(rest0) => {
            let rest = strip_slashes(rest0);
            if rest.len() > 0 && rest[0] == SLASH {
                match port_of(rest.skip(1)) {
                    Some(p) => Some(OpenRequest::Passive { local_port: p }),
                    None => None,
                }
            } else {
                let i = index_of(rest, COLON);
                if i == rest.len() {
                    None
                } else {
                    match (ipv4_of(rest.take(i)), port_of(rest.skip(i + 1))) {
                        (Some(a), Some(p)) => Some(OpenRequest::Active { peer: a, peer_port: p }),
                        _ => None,
                    }
                }
            }
        },
    }
}

/// Where the host part of an authority ends: at the first `:` or `/`,
/// whichever comes first.
pub open spec fn host_end(s: Seq<u8>) -> int {
    if index_of(s, COLON) <= index_of(s, SLASH) {
        index_of(s, COLON)
    } else {
        index_of(s, SLASH)
    }
}

/// The peer address a transport path of the form
/// `scheme://host[:port][/rest]` names, or `None` when it has none.
pub open spec fn peer_of_path(p: Seq<u8>) -> Option<IPv4Addr> {
    match scheme_rest(p) {
        None => None,
        Some(rest0) => {
            let rest = strip_slashes(rest0);
            ipv4_of(rest.take(host_end(rest)))
        },
    }
}

/// Reads a port numeral, refusing zero and anything above 65535.
pub fn parse_port(s: &[u8]) -> (r: Option<u16>)
    ensures
        r == port_of(s@),
{
    match dec_value(s) {
        Some(v) => {
            if v > 0 {
                Some(v as u16)
            } else {
                None
            }
        },
        None => {
            proof {
                if s@.len() > 0 && is_digits(s@) {
                    crate::decimal::lemma_dec_val_nonneg(s@);
                }
            }
            None
        },
    }
}

/// Splits off the scheme and one optional `//`, handing back the rest.
fn strip_prefix(url: &[u8]) -> (r: Option<&[u8]>)
    ensures
        r is Some <==> scheme_rest(url@) is Some,
        r matches Some(rest) ==> rest@ == strip_slashes(scheme_rest(url@)->Some_0),
{
    proof {
        lemma_index_of(url@, COLON);
    }
    let i = find_byte(url, COLON);
    if i == url.len() {
        return None;
    }
    let rest0 = &url[i + 1..url.len()];
    proof {
        assert(rest0@ =~= url@.skip(i + 1));
    }
    if rest0.len() >= 2 && rest0[0] == SLASH && rest0[1] == SLASH {
        let rest = &rest0[2..rest0.len()];
        proof {
            assert(rest@ =~= rest0@.skip(2));
        }
        Some(rest)
    } else {
        Some(rest0)
    }
}

/// Reads an open URL into a request, or `None` on any parse or range
/// failure.
pub fn parse_request(url: &[u8]) -> (r: Option<OpenRequest>)
    ensures
        r == request_of(url@),
{
    let rest = match strip_prefix(url) {
        Some(rest) => rest,
        None => {
            return None;
        },
    };
    if rest.len() > 0 && rest[0] == SLASH {
        let port_part = &rest[1..rest.len()];
        proof {
            assert(port_part@ =~= rest@.skip(1));
        }
        match parse_port(port_part) {
            Some(p) => Some(OpenRequest::Passive { local_port: p }),
            None => None,
        }
    } else {
        proof {
            lemma_index_of(rest@, COLON);
        }
        let i = find_byte(rest, COLON);
        if i == rest.len() {
            return None;
        }
        let host_part = &rest[0..i];
        let port_part = &rest[i + 1..rest.len()];
        proof {
            assert(host_part@ =~= rest@.take(i as int));
            assert(port_part@ =~= rest@.skip(i + 1));
        }
        match (IPv4Addr::parse(host_part), parse_port(port_part)) {
            (Some(a), Some(p)) => Some(OpenRequest::Active { peer: a, peer_port: p }),
            _ => None,
        }
    }
}

/// Reads the peer address out of a transport path of the form
/// `scheme://host[:port][/rest]`.
pub fn parse_peer_path(path: &[u8]) -> (r: Option<IPv4Addr>)
    ensures
        r == peer_of_path(path@),
{
    let rest = match strip_prefix(path) {
        Some(rest) => rest,
        None => {
            return None;
        },
    };
    proof {
        lemma_index_of(rest@, COLON);
        lemma_index_of(rest@, SLASH);
    }
    let ic = find_byte(rest, COLON);
    let is = find_byte(rest, SLASH);
    let end = if ic <= is { ic } else { is };
    let host_part = &rest[0..end];
    proof {
        assert(host_part@ =~= rest@.take(host_end(rest@)));
    }
    IPv4Addr::parse(host_part)
}

} // verus!
