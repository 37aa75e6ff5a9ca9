//! One open UDP resource: the addressing triple it is bound to, the
//! payload a passive open may have buffered, and the pure halves of its
//! read, write, seek, duplicate and path operations.  The raw transport
//! reads and writes themselves happen outside the library: callers hand
//! raw buffers in and carry wire images out.

use vstd::prelude::*;
use vstd::math::min;
use crate::codec::{UDP, UDPHeader, HEADER_LEN, decodes, header_of, payload_of, wire_bytes, well_formed, pseudo_image, datagram_checksum};
use crate::checksum::checksum_of;
use crate::ipv4::{IPv4Addr, addr_rep};
use crate::decimal::dec_rep;
use crate::url::{COLON, SLASH};

verus! {

/// A seek origin; datagrams have no seekable offset, so every seek on a
/// resource fails whatever it holds.
#[derive(Copy, Clone, PartialEq, Eq, Structural, Debug)]
pub enum SeekFrom {
    Start(u64),
    Current(i64),
    End(i64),
}

/// A UDP resource bound to one peer-address, peer-port, local-port
/// triple.  `data` holds a payload already received on its behalf (by a
/// passive open's probe) and not yet read.
pub struct Resource {
    pub data: Vec<u8>,
    pub peer_addr: IPv4Addr,
    pub peer_port: u16,
    pub host_port: u16,
}

/// Whether an inbound header belongs to this resource: sent to its
/// local port, from its peer's port.
pub open spec fn matches_resource(r: Resource, h: UDPHeader) -> bool {
    h.dst == r.host_port && h.src == r.peer_port
}

/// `dst` after copying `src` into its front: as much of `src` as fits,
/// the rest of `dst` untouched.
pub open spec fn prefix_written(dst_old: Seq<u8>, dst_new: Seq<u8>, src: Seq<u8>) -> bool {
    &&& dst_new.len() == dst_old.len()
    &&& forall|j: int| 0 <= j < min(src.len() as int, dst_old.len() as int) ==> dst_new[j] == src[j]
    &&& forall|j: int| min(src.len() as int, dst_old.len() as int) <= j < dst_old.len() ==> dst_new[j] == dst_old[j]
}

/// Copies as much of `src` as fits into the front of `dst`; reports how
/// many bytes that was.
pub fn copy_into(dst: &mut [u8], src: &[u8]) -> (n: usize)
    ensures
        n == min(src@.len() as int, old(dst)@.len() as int),
        prefix_written(old(dst)@, final(dst)@, src@),
{
    let n = if src.len() <= dst.len() { src.len() } else { dst.len() };
    let mut i: usize = 0;
    while i < n
        invariant
            0 <= i <= n,
            n == min(src@.len() as int, old(dst)@.len() as int),
            dst@.len() == old(dst)@.len(),
            forall|j: int| 0 <= j < i ==> dst@[j] == src@[j],
            forall|j: int| i <= j < dst@.len() ==> dst@[j] == old(dst)@[j],
        decreases n - i,
    {
        dst[i] = src[i];
        i += 1;
    }
    n
}

/// The header an outbound payload is framed under: source is the local
/// port, destination the peer port, length is header plus payload, and
/// the checksum is taken per RFC 768 with the checksum field zero.
pub open spec fn outgoing_header(r: Resource, local: IPv4Addr, payload: Seq<u8>) -> UDPHeader {
    let bare = UDPHeader {
        src: r.host_port,
        dst: r.peer_port,
        len: (HEADER_LEN + payload.len()) as u16,
        checksum: 0,
    };
    UDPHeader { checksum: checksum_of(pseudo_image(local, r.peer_addr, bare, payload)), ..bare }
}

/// The full wire image an outbound payload is sent as.
pub open spec fn outgoing_wire(r: Resource, local: IPv4Addr, payload: Seq<u8>) -> Seq<u8> {
    wire_bytes(outgoing_header(r, local, payload), payload)
}

/// The rendered path of a resource:
/// `udp://<peer-address>:<peer-port>/<local-port>`.
pub open spec fn path_bytes(r: Resource) -> Seq<u8> {
    seq![117u8, 100u8, 112u8, COLON, SLASH, SLASH] + addr_rep(r.peer_addr) + seq![COLON]
        + dec_rep(r.peer_port as int) + seq![SLASH] + dec_rep(r.host_port as int)
}

/// The checksum, and with it the whole wire image, depends only on the
/// addressing triple, the local address and the payload: two resources
/// bound alike send byte-identical datagrams for the same payload.
pub proof fn lemma_write_deterministic(r1: Resource, r2: Resource, local: IPv4Addr, payload: Seq<u8>)
    requires
        r1.peer_addr == r2.peer_addr,
        r1.peer_port == r2.peer_port,
        r1.host_port == r2.host_port,
    ensures
        outgoing_wire(r1, local, payload) == outgoing_wire(r2, local, payload),
{
}

/// Framing and demultiplexing cohere: the wire image one resource sends
/// decodes, is addressed so that a counterpart bound the other way
/// round (its local port the sender's peer port and vice versa) accepts
/// it, and carries the payload unchanged.
pub proof fn lemma_sent_matches_counterpart(sender: Resource, receiver: Resource, local: IPv4Addr, payload: Seq<u8>)
    requires
        receiver.host_port == sender.peer_port,
        receiver.peer_port == sender.host_port,
    ensures
        decodes(outgoing_wire(sender, local, payload)),
        matches_resource(receiver, header_of(outgoing_wire(sender, local, payload))),
        payload_of(outgoing_wire(sender, local, payload)) == payload,
{
    crate::codec::lemma_round_trip(outgoing_header(sender, local, payload), payload);
}

impl Resource {
    /// A duplicate holds the same addressing triple and a copy of any
    /// buffered payload.  The transport handle underneath is shared by
    /// the two, but its duplication is the transport's affair, not the
    /// library's.
    pub fn dup(&self) -> (r: Resource)
        ensures
            r.data@ == self.data@,
            r.peer_addr == self.peer_addr,
            r.peer_port == self.peer_port,
            r.host_port == self.host_port,
    {
        Resource {
            data: vstd::slice::slice_to_vec(self.data.as_slice()),
            peer_addr: self.peer_addr,
            peer_port: self.peer_port,
            host_port: self.host_port,
        }
    }

    /// Renders the resource's path into `buf`, truncating silently when
    /// the buffer is short, and reports how many bytes were written.
    pub fn path(&self, buf: &mut [u8]) -> (r: Option<usize>)
        ensures
            r matches Some(n) && n == min(path_bytes(*self).len() as int, old(buf)@.len() as int),
            prefix_written(old(buf)@, final(buf)@, path_bytes(*self)),
    {
        let mut rendered: Vec<u8> = Vec::new();
        rendered.push(117);
        rendered.push(100);
        rendered.push(112);
        rendered.push(COLON);
        rendered.push(SLASH);
        rendered.push(SLASH);
        self.peer_addr.push_rendered(&mut rendered);
        rendered.push(COLON);
        crate::decimal::push_dec(&mut rendered, self.peer_port);
        rendered.push(SLASH);
        crate::decimal::push_dec(&mut rendered, self.host_port);
        proof {
            assert(rendered@ =~= path_bytes(*self));
        }
        Some(copy_into(buf, rendered.as_slice()))
    }

    /// Drains the buffered payload, if any, into `buf`: the first read
    /// after a passive open consumes what the probe already took off
    /// the feed.  Reports how many bytes `buf` received, `None` when
    /// nothing was buffered.
    pub fn read_buffered(&mut self, buf: &mut [u8]) -> (r: Option<usize>)
        ensures
            r is Some <==> old(self).data@.len() > 0,
            final(self).peer_addr == old(self).peer_addr,
            final(self).peer_port == old(self).peer_port,
            final(self).host_port == old(self).host_port,
            r is None ==> final(self).data@ == old(self).data@ && final(buf)@ == old(buf)@,
            r matches Some(n) ==> {
                &&& n == min(old(self).data@.len() as int, old(buf)@.len() as int)
                &&& final(self).data@.len() == 0
                &&& prefix_written(old(buf)@, final(buf)@, old(self).data@)
            },
    {
        if self.data.len() == 0 {
            return None;
        }
        let n = copy_into(buf, self.data.as_slice());
        self.data = Vec::new();
        Some(n)
    }

    /// One demultiplexing step of the read loop: decodes one raw buffer
    /// off the shared feed and delivers its payload exactly when it is
    /// a datagram addressed to this resource's local port from its
    /// peer's port; anything else is discarded and the caller fetches
    /// the next raw buffer.
    pub fn read_step(&self, raw: &[u8], buf: &mut [u8]) -> (r: Option<usize>)
        ensures
            r is Some <==> decodes(raw@) && matches_resource(*self, header_of(raw@)),
            r is None ==> final(buf)@ == old(buf)@,
            r matches Some(n) ==> {
                &&& n == min(payload_of(raw@).len() as int, old(buf)@.len() as int)
                &&& prefix_written(old(buf)@, final(buf)@, payload_of(raw@))
            },
    {
        match UDP::from_bytes(vstd::slice::slice_to_vec(raw)) {
            Some(datagram) => {
                if datagram.header.dst == self.host_port && datagram.header.src == self.peer_port {
                    Some(copy_into(buf, datagram.data.as_slice()))
                } else {
                    None
                }
            },
            None => None,
        }
    }

    /// Frames an outbound payload: header fields from the resource's
    /// triple, length and RFC 768 checksum computed, and the whole laid
    /// out as wire bytes for the transport to send.
    pub fn write_wire(&self, local: &IPv4Addr, buf: &[u8]) -> (r: Vec<u8>)
        requires
            HEADER_LEN + buf@.len() <= 0xFFFF,
        ensures
            r@ == outgoing_wire(*self, *local, buf@),
            r@.len() == HEADER_LEN + buf@.len(),
            well_formed(outgoing_header(*self, *local, buf@), buf@),
    {
        let bare = UDPHeader {
            src: self.host_port,
            dst: self.peer_port,
            len: (HEADER_LEN + buf.len()) as u16,
            checksum: 0,
        };
        let c = datagram_checksum(local, &self.peer_addr, bare, buf);
        let datagram = UDP {
            header: UDPHeader { checksum: c, ..bare },
            data: vstd::slice::slice_to_vec(buf),
        };
        proof {
            assert(UDPHeader { checksum: 0, ..bare } == bare);
            assert(datagram.header == outgoing_header(*self, *local, buf@));
        }
        datagram.to_bytes()
    }

    /// What a write reports once the transport has taken the wire
    /// image: the caller's own payload length, not the longer wire
    /// length; a transport failure stays a failure.
    pub fn write_outcome(&self, payload_len: usize, sent: Option<usize>) -> (r: Option<usize>)
        ensures
            sent is Some ==> r == Some(payload_len),
            sent is None ==> r is None,
    {
        match sent {
            Some(_) => Some(payload_len),
            None => None,
        }
    }

    /// Seeking is meaningless on a datagram resource: it fails for
    /// every origin and offset, and the resource is left as it was.
    pub fn seek(&mut self, pos: SeekFrom) -> (r: Option<usize>)
        ensures
            r is None,
            final(self).data@ == old(self).data@,
            final(self).peer_addr == old(self).peer_addr,
            final(self).peer_port == old(self).peer_port,
            final(self).host_port == old(self).host_port,
    {
        None
    }
}

} // verus!
