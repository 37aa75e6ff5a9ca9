//! RFC 768 datagram framing: the fixed eight-byte header and the
//! conversion between a datagram and its wire image.

use vstd::prelude::*;
use crate::wire::{be16, word, push_be16, read_be16};
use crate::ipv4::IPv4Addr;
use crate::checksum::checksum_of;

verus! {

/// The IP protocol number of UDP.
pub const UDP_PROTOCOL: u16 = 17;

/// Bytes in the fixed UDP header: two each for source port, destination
/// port, length and checksum.
pub const HEADER_LEN: usize = 8;

/// The UDP header, held as host-order values; `to_bytes` lays the fields
/// out big-endian in the order the wire demands.
#[derive(Copy, Clone, PartialEq, Eq, Structural, Debug)]
pub struct UDPHeader {
    /// Source port.
    pub src: u16,
    /// Destination port.
    pub dst: u16,
    /// Header plus payload length in bytes.
    pub len: u16,
    /// Internet checksum over the pseudo-header, header and payload.
    pub checksum: u16,
}

/// One UDP datagram: a header and its payload.
pub struct UDP {
    pub header: UDPHeader,
    pub data: Vec<u8>,
}

/// The eight wire bytes of a header.
pub open spec fn header_bytes(h: UDPHeader) -> Seq<u8> {
    be16(h.src) + be16(h.dst) + be16(h.len) + be16(h.checksum)
}

/// The wire image of a datagram with header `h` and payload `data`.
pub open spec fn wire_bytes(h: UDPHeader, data: Seq<u8>) -> Seq<u8> {
    header_bytes(h) + data
}

/// The header read back from the first eight bytes of a wire image.
pub open spec fn header_of(bytes: Seq<u8>) -> UDPHeader {
    UDPHeader {
        src: word(bytes[0], bytes[1]),
        dst: word(bytes[2], bytes[3]),
        len: word(bytes[4], bytes[5]),
        checksum: word(bytes[6], bytes[7]),
    }
}

/// A buffer decodes as a datagram exactly when it holds a full header.
pub open spec fn decodes(bytes: Seq<u8>) -> bool {
    bytes.len() >= HEADER_LEN
}

/// The payload part of a wire image.
pub open spec fn payload_of(bytes: Seq<u8>) -> Seq<u8> {
    bytes.skip(HEADER_LEN as int)
}

impl UDP {
    /// Parses a raw buffer: the first eight bytes become the header, the
    /// rest the payload; a buffer shorter than a header is refused.
    pub fn from_bytes(bytes: Vec<u8>) -> (r: Option<UDP>)
        ensures
            decodes(bytes@) <==> r is Some,
            r matches Some(d) ==> d.header == header_of(bytes@) && d.data@ == payload_of(bytes@),
    {
        if bytes.len() >= HEADER_LEN {
            let header = UDPHeader {
                src: read_be16(bytes[0], bytes[1]),
                dst: read_be16(bytes[2], bytes[3]),
                len: read_be16(bytes[4], bytes[5]),
                checksum: read_be16(bytes[6], bytes[7]),
            };
            let mut data: Vec<u8> = Vec::new();
            let mut i: usize = HEADER_LEN;
            while i < bytes.len()
                invariant
                    HEADER_LEN <= i <= bytes@.len(),
                    data@ == bytes@.subrange(HEADER_LEN as int, i as int),
                decreases bytes@.len() - i,
            {
                data.push(bytes[i]);
                i += 1;
                proof {
                    assert(data@ =~= bytes@.subrange(HEADER_LEN as int, i as int));
                }
            }
            proof {
                assert(data@ =~= payload_of(bytes@));
            }
            Some(UDP { header, data })
        } else {
            None
        }
    }

    /// Lays the datagram out as wire bytes: the four header fields
    /// big-endian, then the payload.
    pub fn to_bytes(&self) -> (r: Vec<u8>)
        ensures
            r@ == wire_bytes(self.header, self.data@),
            r@.len() == HEADER_LEN + self.data@.len(),
    {
        let mut r: Vec<u8> = Vec::new();
        push_be16(&mut r, self.header.src);
        push_be16(&mut r, self.header.dst);
        push_be16(&mut r, self.header.len);
        push_be16(&mut r, self.header.checksum);
        let mut i: usize = 0;
        while i < self.data.len()
            invariant
                0 <= i <= self.data@.len(),
                r@ == header_bytes(self.header) + self.data@.subrange(0, i as int),
            decreases self.data@.len() - i,
        {
            r.push(self.data[i]);
            i += 1;
            proof {
                assert(r@ =~= header_bytes(self.header) + self.data@.subrange(0, i as int));
            }
        }
        proof {
            assert(r@ =~= wire_bytes(self.header, self.data@));
        }
        r
    }
}

/// The header invariant of an outbound datagram: the length field
/// counts the header and the payload together.
pub open spec fn well_formed(h: UDPHeader, payload: Seq<u8>) -> bool {
    h.len == HEADER_LEN + payload.len()
}

/// The byte range the checksum is taken over: the pseudo-header (source
/// address, destination address, protocol 17 and the datagram length,
/// the last two big-endian), then the header with its checksum field
/// zero, then the payload.
pub open spec fn pseudo_image(local: IPv4Addr, peer: IPv4Addr, h: UDPHeader, payload: Seq<u8>) -> Seq<u8> {
    seq![local.o0, local.o1, local.o2, local.o3]
        + seq![peer.o0, peer.o1, peer.o2, peer.o3]
        + be16(UDP_PROTOCOL)
        + be16(h.len)
        + header_bytes(UDPHeader { checksum: 0, ..h })
        + payload
}

/// Computes the RFC 768 checksum of a datagram: the ones-complement
/// checksum of the pseudo-header, the header taken with a zero checksum
/// field, and the payload.
pub fn datagram_checksum(local: &IPv4Addr, peer: &IPv4Addr, h: UDPHeader, payload: &[u8]) -> (r: u16)
    requires
        payload@.len() <= 0xFFFF,
    ensures
        r == checksum_of(pseudo_image(*local, *peer, h, payload@)),
{
    let zeroed = UDPHeader { checksum: 0, ..h };
    let mut image: Vec<u8> = Vec::new();
    image.push(local.o0);
    image.push(local.o1);
    image.push(local.o2);
    image.push(local.o3);
    image.push(peer.o0);
    image.push(peer.o1);
    image.push(peer.o2);
    image.push(peer.o3);
    push_be16(&mut image, UDP_PROTOCOL);
    push_be16(&mut image, h.len);
    push_be16(&mut image, zeroed.src);
    push_be16(&mut image, zeroed.dst);
    push_be16(&mut image, zeroed.len);
    push_be16(&mut image, zeroed.checksum);
    proof {
        assert(image@ =~= pseudo_image(*local, *peer, h, payload@.subrange(0, 0)));
    }
    let mut i: usize = 0;
    while i < payload.len()
        invariant
            0 <= i <= payload@.len() <= 0xFFFF,
            image@ == pseudo_image(*local, *peer, h, payload@.subrange(0, i as int)),
        decreases payload@.len() - i,
    {
        image.push(payload[i]);
        i += 1;
        proof {
            assert(image@ =~= pseudo_image(*local, *peer, h, payload@.subrange(0, i as int)));
        }
    }
    proof {
        assert(image@ =~= pseudo_image(*local, *peer, h, payload@));
    }
    crate::checksum::checksum(image.as_slice())
}

/// Framing round trip: reading a wire image back yields the header and
/// payload it was built from, for any header fields and any payload.
pub proof fn lemma_round_trip(h: UDPHeader, data: Seq<u8>)
    ensures
        decodes(wire_bytes(h, data)),
        header_of(wire_bytes(h, data)) == h,
        payload_of(wire_bytes(h, data)) == data,
{
    let w = wire_bytes(h, data);
    crate::wire::lemma_be16_word(h.src);
    crate::wire::lemma_be16_word(h.dst);
    crate::wire::lemma_be16_word(h.len);
    crate::wire::lemma_be16_word(h.checksum);
    assert(w[0] == be16(h.src)[0] && w[1] == be16(h.src)[1]);
    assert(w[2] == be16(h.dst)[0] && w[3] == be16(h.dst)[1]);
    assert(w[4] == be16(h.len)[0] && w[5] == be16(h.len)[1]);
    assert(w[6] == be16(h.checksum)[0] && w[7] == be16(h.checksum)[1]);
    assert(payload_of(w) =~= data);
}

} // verus!
