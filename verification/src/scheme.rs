//! The open protocol.  A URL names either a passive open (listen on a
//! local port, adopt the sender of the first matching datagram as the
//! peer) or an active open (an explicit peer, with a pseudo-random
//! ephemeral local port).  The scheme is stateless: every decision here
//! is a pure function of the URL, the raw bytes the transport handed
//! back, and the entropy the caller supplies.

use vstd::prelude::*;
use crate::codec::{UDP, decodes, header_of, payload_of};
use crate::decimal::dec_val;
use crate::ipv4::{IPv4Addr, addr_rep};
use crate::resource::Resource;
use crate::url::{OpenRequest, port_of, request_of, parse_request};

verus! {

/// The UDP scheme itself; it keeps no state between opens.
pub struct Scheme;

/// An ephemeral port drawn from `entropy`: always in [32768, 65536).
pub open spec fn ephemeral_of(entropy: u64) -> u16 {
    (32768 + entropy % 32768) as u16
}

/// The address an underlying raw transport is opened by: `ip://` then
/// the fixed peer for an active open (nothing for a passive one), then
/// `/11`, the UDP protocol number.
pub open spec fn transport_url(peer: Option<IPv4Addr>) -> Seq<u8> {
    let tail = match peer {
        Some(a) => addr_rep(a),
        None => Seq::<u8>::empty(),
    };
    seq![105u8, 112u8, 58u8, 47u8, 47u8] + tail + seq![47u8, 49u8, 49u8]
}

impl Scheme {
    pub fn new() -> (s: Scheme) {
        Scheme
    }

    /// Reads an open URL into a request; `None` refuses the open.
    pub fn parse(&self, url: &[u8]) -> (r: Option<OpenRequest>)
        ensures
            r == request_of(url@),
    {
        parse_request(url)
    }

    /// Picks the local port of an active open from caller-supplied
    /// entropy: always an ephemeral port in [32768, 65536).
    pub fn ephemeral_port(&self, entropy: u64) -> (p: u16)
        ensures
            p == ephemeral_of(entropy),
            32768 <= p < 65536,
    {
        32768 + (entropy % 32768) as u16
    }

    /// Renders the address the raw transport is opened by.
    pub fn transport_address(&self, peer: Option<&IPv4Addr>) -> (r: Vec<u8>)
        ensures
            peer is Some ==> r@ == transport_url(Some(*peer->Some_0)),
            peer is None ==> r@ == transport_url(None::<IPv4Addr>),
    {
        let mut r: Vec<u8> = Vec::new();
        r.push(105);
        r.push(112);
        r.push(58);
        r.push(47);
        r.push(47);
        match peer {
            Some(a) => {
                a.push_rendered(&mut r);
            },
            None => {},
        }
        r.push(47);
        r.push(49);
        r.push(49);
        proof {
            match peer {
                Some(a) => {
                    assert(r@ =~= transport_url(Some(*a)));
                },
                None => {
                    assert(r@ =~= transport_url(None::<IPv4Addr>));
                },
            }
        }
        r
    }

    /// The single probe of a passive open: one raw buffer off the
    /// shared feed either is a datagram addressed to the listened-on
    /// port — and is consumed — or the open attempt fails; nothing
    /// beyond that first buffer is touched.
    pub fn passive_probe(&self, raw: &[u8], local_port: u16) -> (r: Option<UDP>)
        ensures
            r is Some <==> decodes(raw@) && header_of(raw@).dst == local_port,
            r matches Some(d) ==> d.header == header_of(raw@) && d.data@ == payload_of(raw@),
    {
        match UDP::from_bytes(vstd::slice::slice_to_vec(raw)) {
            Some(datagram) => {
                if datagram.header.dst == local_port {
                    Some(datagram)
                } else {
                    None
                }
            },
            None => None,
        }
    }

    /// The resource a matched probe produces: the matched payload
    /// buffered for the first read, the sender's port as peer port, the
    /// transport-reported sender as peer address, and the listened-on
    /// port as local port.
    pub fn passive_resource(&self, datagram: UDP, peer: IPv4Addr, local_port: u16) -> (r: Resource)
        ensures
            r.data@ == datagram.data@,
            r.peer_addr == peer,
            r.peer_port == datagram.header.src,
            r.host_port == local_port,
    {
        Resource {
            peer_port: datagram.header.src,
            data: datagram.data,
            peer_addr: peer,
            host_port: local_port,
        }
    }

    /// The resource an active open produces: nothing buffered, the
    /// requested peer, and the chosen ephemeral local port.
    pub fn active_resource(&self, peer: IPv4Addr, peer_port: u16, host_port: u16) -> (r: Resource)
        ensures
            r.data@.len() == 0,
            r.peer_addr == peer,
            r.peer_port == peer_port,
            r.host_port == host_port,
    {
        Resource {
            data: Vec::new(),
            peer_addr: peer,
            peer_port: peer_port,
            host_port: host_port,
        }
    }
}

/// A port numeral worth zero or 65536 and above opens nothing.
pub proof fn lemma_out_of_range_port_refused(s: Seq<u8>)
    requires
        dec_val(s) <= 0 || dec_val(s) >= 65536,
    ensures
        port_of(s) is None,
{
}

/// Every request a URL parses to carries a port inside (0, 65536):
/// an open with an out-of-range port always fails.
pub proof fn lemma_open_port_in_range(url: Seq<u8>)
    ensures
        request_of(url) matches Some(OpenRequest::Passive { local_port }) ==> 0 < local_port < 65536,
        request_of(url) matches Some(OpenRequest::Active { peer_port, .. }) ==> 0 < peer_port < 65536,
{
}

} // verus!
