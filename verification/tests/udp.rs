use udp_scheme::checksum::checksum;
use udp_scheme::codec::{UDP, UDPHeader, HEADER_LEN};
use udp_scheme::decimal::dec_value;
use udp_scheme::ipv4::IPv4Addr;
use udp_scheme::resource::{Resource, SeekFrom};
use udp_scheme::scheme::Scheme;
use udp_scheme::url::{OpenRequest, parse_peer_path, parse_request};

fn addr(o0: u8, o1: u8, o2: u8, o3: u8) -> IPv4Addr {
    IPv4Addr { o0, o1, o2, o3 }
}

fn sample_resource() -> Resource {
    Resource {
        data: Vec::new(),
        peer_addr: addr(10, 0, 0, 5),
        peer_port: 9999,
        host_port: 4000,
    }
}

fn raw_datagram(src: u16, dst: u16, payload: &[u8]) -> Vec<u8> {
    let d = UDP {
        header: UDPHeader {
            src,
            dst,
            len: (HEADER_LEN + payload.len()) as u16,
            checksum: 0,
        },
        data: payload.to_vec(),
    };
    d.to_bytes()
}

#[test]
fn round_trip_with_payload() {
    let header = UDPHeader { src: 4000, dst: 9999, len: 13, checksum: 0xABCD };
    let d = UDP { header, data: b"hello".to_vec() };
    let wire = d.to_bytes();
    assert_eq!(wire.len(), 13);
    let back = UDP::from_bytes(wire).expect("a full header must decode");
    assert_eq!(back.header, header);
    assert_eq!(back.data, b"hello".to_vec());
}

#[test]
fn round_trip_empty_payload() {
    let header = UDPHeader { src: 1, dst: 65535, len: 8, checksum: 0 };
    let d = UDP { header, data: Vec::new() };
    let wire = d.to_bytes();
    assert_eq!(wire.len(), 8);
    let back = UDP::from_bytes(wire).expect("an eight-byte buffer must decode");
    assert_eq!(back.header, header);
    assert!(back.data.is_empty());
}

#[test]
fn decode_short_buffer_fails() {
    assert!(UDP::from_bytes(vec![0u8; 7]).is_none());
    assert!(UDP::from_bytes(Vec::new()).is_none());
}

#[test]
fn wire_layout_is_big_endian() {
    let d = UDP {
        header: UDPHeader { src: 0x0FA0, dst: 0x270F, len: 0x000A, checksum: 0x4CBC },
        data: vec![0x68, 0x69],
    };
    assert_eq!(d.to_bytes(), vec![0x0F, 0xA0, 0x27, 0x0F, 0x00, 0x0A, 0x4C, 0xBC, 0x68, 0x69]);
}

#[test]
fn checksum_known_words() {
    // 0x0001 + 0xF203 + 0xF4F5 + 0xF6F7 = 0x2DDF0; folded 0xDDF2; complemented 0x220D.
    assert_eq!(checksum(&[0x00, 0x01, 0xF2, 0x03, 0xF4, 0xF5, 0xF6, 0xF7]), 0x220D);
}

#[test]
fn checksum_odd_length_pads_low_byte() {
    // A trailing byte is the high half of a zero-padded word.
    assert_eq!(checksum(&[0x01]), !0x0100u16);
    assert_eq!(checksum(&[0x01, 0x02, 0x03]), !(0x0102u16 + 0x0300));
}

#[test]
fn checksum_empty_is_all_ones() {
    assert_eq!(checksum(&[]), 0xFFFF);
}

#[test]
fn write_wire_exact_image() {
    // Pseudo-header words for 10.0.0.1 -> 10.0.0.5, protocol 17, length 10,
    // header 4000 -> 9999 with a zero checksum, payload "hi":
    // 0x0A00 + 0x0001 + 0x0A00 + 0x0005 + 0x0011 + 0x000A
    //   + 0x0FA0 + 0x270F + 0x000A + 0x0000 + 0x6869 = 0xB343; complemented 0x4CBC.
    let r = sample_resource();
    let wire = r.write_wire(&addr(10, 0, 0, 1), b"hi");
    assert_eq!(wire, vec![0x0F, 0xA0, 0x27, 0x0F, 0x00, 0x0A, 0x4C, 0xBC, 0x68, 0x69]);
}

#[test]
fn write_wire_is_deterministic() {
    let r = sample_resource();
    let local = addr(10, 0, 0, 1);
    let first = r.write_wire(&local, b"same payload");
    let second = r.write_wire(&local, b"same payload");
    assert_eq!(first, second);
}

#[test]
fn single_byte_flips_change_the_checksum() {
    let r = sample_resource();
    let local = addr(10, 0, 0, 1);
    let payload = b"checksum sample".to_vec();
    let baseline = UDP::from_bytes(r.write_wire(&local, &payload)).unwrap().header.checksum;
    for i in 0..payload.len() {
        for bit in 0..8 {
            let mut flipped = payload.clone();
            flipped[i] ^= 1u8 << bit;
            let other = UDP::from_bytes(r.write_wire(&local, &flipped)).unwrap().header.checksum;
            assert_ne!(baseline, other, "flipping byte {} bit {} kept the checksum", i, bit);
        }
    }
}

#[test]
fn write_outcome_reports_payload_length() {
    let r = sample_resource();
    assert_eq!(r.write_outcome(0, Some(8)), Some(0));
    assert_eq!(r.write_outcome(5, Some(13)), Some(5));
    assert_eq!(r.write_outcome(5, None), None);
}

#[test]
fn path_renders_the_triple() {
    let r = sample_resource();
    let mut buf = [0u8; 64];
    let n = r.path(&mut buf).unwrap();
    assert_eq!(&buf[..n], b"udp://10.0.0.5:9999/4000");
}

#[test]
fn path_truncates_into_a_short_buffer() {
    let r = sample_resource();
    let mut buf = [0xEEu8; 10];
    let n = r.path(&mut buf).unwrap();
    assert_eq!(n, 10);
    assert_eq!(&buf[..], b"udp://10.0");
}

#[test]
fn seek_always_fails() {
    let mut r = sample_resource();
    assert_eq!(r.seek(SeekFrom::Start(0)), None);
    assert_eq!(r.seek(SeekFrom::Start(4096)), None);
    assert_eq!(r.seek(SeekFrom::Current(-3)), None);
    assert_eq!(r.seek(SeekFrom::End(17)), None);
}

#[test]
fn dup_copies_the_binding_and_buffer() {
    let mut r = sample_resource();
    r.data = b"pending".to_vec();
    let d = r.dup();
    assert_eq!(d.data, b"pending".to_vec());
    assert_eq!(d.peer_addr, r.peer_addr);
    assert_eq!(d.peer_port, 9999);
    assert_eq!(d.host_port, 4000);
}

#[test]
fn read_drains_the_buffered_payload_once() {
    let mut r = sample_resource();
    r.data = b"probe payload".to_vec();
    let mut buf = [0u8; 32];
    let n = r.read_buffered(&mut buf).unwrap();
    assert_eq!(&buf[..n], b"probe payload");
    assert_eq!(r.read_buffered(&mut buf), None);
}

#[test]
fn read_step_delivers_a_matching_datagram() {
    let r = sample_resource();
    let raw = raw_datagram(9999, 4000, b"inbound");
    let mut buf = [0u8; 32];
    let n = r.read_step(&raw, &mut buf).unwrap();
    assert_eq!(&buf[..n], b"inbound");
}

#[test]
fn read_step_discards_other_traffic() {
    let r = sample_resource();
    let mut buf = [0u8; 32];
    // Wrong destination port.
    assert_eq!(r.read_step(&raw_datagram(9999, 4001, b"x"), &mut buf), None);
    // Wrong source port.
    assert_eq!(r.read_step(&raw_datagram(9998, 4000, b"x"), &mut buf), None);
    // Not even a header.
    assert_eq!(r.read_step(&[1, 2, 3], &mut buf), None);
}

#[test]
fn read_step_truncates_into_a_short_buffer() {
    let r = sample_resource();
    let raw = raw_datagram(9999, 4000, b"a long inbound payload");
    let mut buf = [0u8; 6];
    let n = r.read_step(&raw, &mut buf).unwrap();
    assert_eq!(n, 6);
    assert_eq!(&buf[..], b"a long");
}

#[test]
fn written_wire_is_delivered_by_the_counterpart() {
    let sender = sample_resource();
    let receiver = Resource {
        data: Vec::new(),
        peer_addr: addr(10, 0, 0, 1),
        peer_port: sender.host_port,
        host_port: sender.peer_port,
    };
    let wire = sender.write_wire(&addr(10, 0, 0, 1), b"ping");
    let mut buf = [0u8; 16];
    let n = receiver.read_step(&wire, &mut buf).unwrap();
    assert_eq!(&buf[..n], b"ping");
}

#[test]
fn parse_active_open() {
    assert_eq!(
        parse_request(b"udp://10.0.0.5:9999"),
        Some(OpenRequest::Active { peer: addr(10, 0, 0, 5), peer_port: 9999 })
    );
}

#[test]
fn parse_passive_open() {
    assert_eq!(parse_request(b"udp:///8080"), Some(OpenRequest::Passive { local_port: 8080 }));
}

#[test]
fn open_with_out_of_range_port_fails() {
    assert_eq!(parse_request(b"udp:///70000"), None);
    assert_eq!(parse_request(b"udp:///0"), None);
    assert_eq!(parse_request(b"udp:///65536"), None);
    assert_eq!(parse_request(b"udp://10.0.0.5:70000"), None);
    assert_eq!(parse_request(b"udp://10.0.0.5:0"), None);
}

#[test]
fn malformed_urls_fail() {
    assert_eq!(parse_request(b"udp"), None);
    assert_eq!(parse_request(b"udp://10.0.0.5"), None);
    assert_eq!(parse_request(b"udp://10.0.5:99"), None);
    assert_eq!(parse_request(b"udp://:99"), None);
    assert_eq!(parse_request(b"udp://256.0.0.1:99"), None);
    assert_eq!(parse_request(b"udp:///"), None);
    assert_eq!(parse_request(b"udp:///12x"), None);
}

#[test]
fn port_65535_is_the_highest_accepted() {
    assert_eq!(parse_request(b"udp:///65535"), Some(OpenRequest::Passive { local_port: 65535 }));
}

#[test]
fn ephemeral_ports_stay_in_range() {
    let s = Scheme::new();
    assert_eq!(s.ephemeral_port(0), 32768);
    assert_eq!(s.ephemeral_port(32767), 65535);
    assert_eq!(s.ephemeral_port(32768), 32768);
    for entropy in [1u64, 999, 123_456_789, u64::MAX] {
        let p = s.ephemeral_port(entropy);
        assert!((32768..=65535).contains(&p));
    }
}

#[test]
fn passive_probe_takes_only_the_first_match() {
    let s = Scheme::new();
    let port_a = 4000u16;
    let port_b = 5000u16;
    let feed = vec![
        raw_datagram(9999, port_a, b"first"),
        raw_datagram(9999, port_b, b"second"),
        raw_datagram(7777, port_a, b"third"),
    ];
    // A passive open for port A consumes the first datagram and nothing else.
    let matched = s.passive_probe(&feed[0], port_a).unwrap();
    assert_eq!(matched.data, b"first".to_vec());
    assert_eq!(matched.header.src, 9999);
    // The rest of the feed is left for later opens: B's datagram first,
    // then the second one bound for A.
    let later_b = s.passive_probe(&feed[1], port_b).unwrap();
    assert_eq!(later_b.data, b"second".to_vec());
    let later_a = s.passive_probe(&feed[2], port_a).unwrap();
    assert_eq!(later_a.data, b"third".to_vec());
    assert_eq!(later_a.header.src, 7777);
}

#[test]
fn passive_probe_rejects_a_mismatch() {
    let s = Scheme::new();
    assert!(s.passive_probe(&raw_datagram(9999, 5000, b"x"), 4000).is_none());
    assert!(s.passive_probe(&[0u8; 7], 4000).is_none());
}

#[test]
fn passive_resource_buffers_the_match() {
    let s = Scheme::new();
    let matched = s.passive_probe(&raw_datagram(9999, 4000, b"hello"), 4000).unwrap();
    let r = s.passive_resource(matched, addr(10, 0, 0, 5), 4000);
    assert_eq!(r.peer_port, 9999);
    assert_eq!(r.host_port, 4000);
    assert_eq!(r.peer_addr, addr(10, 0, 0, 5));
    assert_eq!(r.data, b"hello".to_vec());
}

#[test]
fn active_resource_starts_empty() {
    let s = Scheme::new();
    let r = s.active_resource(addr(10, 0, 0, 5), 9999, 40000);
    assert!(r.data.is_empty());
    assert_eq!(r.peer_port, 9999);
    assert_eq!(r.host_port, 40000);
}

#[test]
fn transport_addresses() {
    let s = Scheme::new();
    assert_eq!(s.transport_address(None), b"ip:///11".to_vec());
    assert_eq!(s.transport_address(Some(&addr(10, 0, 0, 5))), b"ip://10.0.0.5/11".to_vec());
}

#[test]
fn peer_path_yields_the_peer_address() {
    assert_eq!(parse_peer_path(b"ip://10.0.0.5/11"), Some(addr(10, 0, 0, 5)));
    assert_eq!(parse_peer_path(b"ip://192.168.7.30:1234/x"), Some(addr(192, 168, 7, 30)));
    assert_eq!(parse_peer_path(b"ip://not.an.addr/11"), None);
    assert_eq!(parse_peer_path(b"no separator"), None);
}

#[test]
fn decimal_edges() {
    assert_eq!(dec_value(b"65535"), Some(65535));
    assert_eq!(dec_value(b"65536"), None);
    assert_eq!(dec_value(b"00080"), Some(80));
    assert_eq!(dec_value(b""), None);
    assert_eq!(dec_value(b"12a"), None);
    assert_eq!(dec_value(b"999999999999999999999"), None);
}
