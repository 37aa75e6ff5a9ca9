//! A UDP layer over a raw, packet-oriented IP transport.
//!
//! The library holds the protocol logic: RFC 768 datagram framing, the
//! ones-complement checksum with its pseudo-header, the URL grammar that
//! selects an active or a passive open, and the demultiplexing rules that
//! match an inbound datagram against a resource's port pair.  The raw
//! transport itself (one packet per read or write) is outside the library:
//! callers fetch and send raw byte buffers and let these functions decide
//! what the bytes mean.

pub mod wire;
pub mod codec;
pub mod checksum;
pub mod decimal;
pub mod scan;
pub mod ipv4;
pub mod url;
pub mod resource;
pub mod scheme;
