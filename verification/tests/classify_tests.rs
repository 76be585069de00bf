use packetmon::classify::{classify, parse_class, PacketClass};

fn eth_frame(ethertype: u16, payload: &[u8]) -> Vec<u8> {
    let mut f = vec![0u8; 12];
    f.push((ethertype >> 8) as u8);
    f.push((ethertype & 0xff) as u8);
    f.extend_from_slice(payload);
    f
}

fn ipv4_header(proto: u8, src: [u8; 4], dst: [u8; 4]) -> Vec<u8> {
    let mut h = vec![0u8; 20];
    h[0] = 0x45;
    h[9] = proto;
    h[12..16].copy_from_slice(&src);
    h[16..20].copy_from_slice(&dst);
    h
}

fn tcp_header(sport: u16, dport: u16, flags: u8) -> Vec<u8> {
    let mut h = vec![0u8; 20];
    h[0] = (sport >> 8) as u8;
    h[1] = (sport & 0xff) as u8;
    h[2] = (dport >> 8) as u8;
    h[3] = (dport & 0xff) as u8;
    h[13] = flags;
    h
}

fn udp_header(sport: u16, dport: u16) -> Vec<u8> {
    let mut h = vec![0u8; 8];
    h[0] = (sport >> 8) as u8;
    h[1] = (sport & 0xff) as u8;
    h[2] = (dport >> 8) as u8;
    h[3] = (dport & 0xff) as u8;
    h
}

fn ipv4_tcp_frame(src: [u8; 4], dst: [u8; 4], sport: u16, dport: u16, flags: u8) -> Vec<u8> {
    let mut p = ipv4_header(6, src, dst);
    p.extend_from_slice(&tcp_header(sport, dport, flags));
    eth_frame(0x0800, &p)
}

#[test]
fn empty_frame_is_unknown() {
    let s = classify(&[], 0);
    assert_eq!(s.text, "[0] Unknown Packet | LEN: 0");
    assert!(matches!(s.class, PacketClass::Unknown));
}

#[test]
fn short_frame_is_unknown() {
    let s = classify(&[1, 2, 3, 4, 5], 3);
    assert_eq!(s.text, "[3] Unknown Packet | LEN: 5");
}

#[test]
fn thirteen_bytes_is_unknown() {
    let s = classify(&[0u8; 13], 9);
    assert_eq!(s.text, "[9] Unknown Packet | LEN: 13");
}

#[test]
fn ipv4_tcp_summary_exact() {
    let f = ipv4_tcp_frame([192, 168, 1, 1], [10, 0, 0, 2], 80, 443, 24);
    assert_eq!(f.len(), 54);
    let s = classify(&f, 7);
    assert_eq!(
        s.text,
        "[7] IPv4 TCP | SRC: 192.168.1.1:80 | DST: 10.0.0.2:443 | FLAGS: 24 | LEN: 54"
    );
}

#[test]
fn ipv4_udp_summary_exact() {
    let mut p = ipv4_header(17, [1, 2, 3, 4], [5, 6, 7, 8]);
    p.extend_from_slice(&udp_header(53, 1024));
    let f = eth_frame(0x0800, &p);
    assert_eq!(f.len(), 42);
    let s = classify(&f, 1);
    assert_eq!(s.text, "[1] IPv4 UDP | SRC: 1.2.3.4:53 | DST: 5.6.7.8:1024 | LEN: 42");
}

#[test]
fn ipv6_tcp_summary_exact() {
    let mut p = vec![0u8; 40];
    p[6] = 6;
    // source ::1, destination fe80::2
    p[23] = 1;
    p[24] = 0xfe;
    p[25] = 0x80;
    p[39] = 2;
    p.extend_from_slice(&tcp_header(8080, 25, 2));
    let f = eth_frame(0x86DD, &p);
    assert_eq!(f.len(), 74);
    let s = classify(&f, 0);
    assert_eq!(
        s.text,
        "[0] IPv6 TCP | SRC: 0000:0000:0000:0000:0000:0000:0000:0001:8080 \
         | DST: fe80:0000:0000:0000:0000:0000:0000:0002:25 | FLAGS: 2 | LEN: 74"
    );
}

#[test]
fn ipv6_udp_summary_exact() {
    let mut p = vec![0u8; 40];
    p[6] = 17;
    p[23] = 3;
    p[39] = 4;
    p.extend_from_slice(&udp_header(500, 500));
    let f = eth_frame(0x86DD, &p);
    let s = classify(&f, 11);
    assert_eq!(
        s.text,
        "[11] IPv6 UDP | SRC: 0000:0000:0000:0000:0000:0000:0000:0003:500 \
         | DST: 0000:0000:0000:0000:0000:0000:0000:0004:500 | LEN: 62"
    );
}

#[test]
fn unrecognized_ethertype_is_unknown() {
    // An ARP frame: the ethertype is neither IPv4 nor IPv6.
    let f = eth_frame(0x0806, &[0u8; 28]);
    let s = classify(&f, 2);
    assert_eq!(s.text, "[2] Unknown Packet | LEN: 42");
}

#[test]
fn unrecognized_ip_protocol_is_unknown() {
    // ICMP below IPv4 is not recognized.
    let mut p = ipv4_header(1, [1, 1, 1, 1], [2, 2, 2, 2]);
    p.extend_from_slice(&[0u8; 8]);
    let f = eth_frame(0x0800, &p);
    let s = classify(&f, 0);
    assert!(matches!(s.class, PacketClass::Unknown));
}

#[test]
fn unrecognized_ipv6_next_header_is_unknown() {
    let mut p = vec![0u8; 40];
    // Hop-by-hop options are not recognized.
    p[6] = 0;
    p.extend_from_slice(&[0u8; 20]);
    let f = eth_frame(0x86DD, &p);
    let s = classify(&f, 0);
    assert!(matches!(s.class, PacketClass::Unknown));
}

#[test]
fn truncated_ipv6_is_unknown() {
    let f = eth_frame(0x86DD, &[0u8; 39]);
    let s = classify(&f, 0);
    assert!(matches!(s.class, PacketClass::Unknown));
}

#[test]
fn truncated_ipv4_is_unknown() {
    let f = eth_frame(0x0800, &[0x45u8; 19]);
    let s = classify(&f, 0);
    assert!(matches!(s.class, PacketClass::Unknown));
}

#[test]
fn truncated_tcp_is_unknown() {
    let mut p = ipv4_header(6, [1, 1, 1, 1], [2, 2, 2, 2]);
    p.extend_from_slice(&[0u8; 10]);
    let f = eth_frame(0x0800, &p);
    let s = classify(&f, 0);
    assert!(matches!(s.class, PacketClass::Unknown));
}

#[test]
fn truncated_udp_is_unknown() {
    let mut p = ipv4_header(17, [1, 1, 1, 1], [2, 2, 2, 2]);
    p.extend_from_slice(&[0u8; 7]);
    let f = eth_frame(0x0800, &p);
    let s = classify(&f, 0);
    assert!(matches!(s.class, PacketClass::Unknown));
}

#[test]
fn bad_ihl_is_unknown() {
    // Header length below the minimum of five words.
    let mut p = ipv4_header(6, [1, 1, 1, 1], [2, 2, 2, 2]);
    p[0] = 0x42;
    p.extend_from_slice(&tcp_header(1, 2, 0));
    let f = eth_frame(0x0800, &p);
    let s = classify(&f, 0);
    assert!(matches!(s.class, PacketClass::Unknown));
}

#[test]
fn ihl_beyond_payload_is_unknown() {
    // Header length pointing past the end of the packet.
    let mut p = ipv4_header(6, [1, 1, 1, 1], [2, 2, 2, 2]);
    p[0] = 0x4f;
    let f = eth_frame(0x0800, &p);
    let s = classify(&f, 0);
    assert!(matches!(s.class, PacketClass::Unknown));
}

#[test]
fn ipv4_options_shift_transport() {
    // A six-word header: the transport header starts after the options.
    let mut p = ipv4_header(6, [9, 9, 9, 9], [8, 8, 8, 8]);
    p[0] = 0x46;
    p.extend_from_slice(&[0u8; 4]);
    p.extend_from_slice(&tcp_header(100, 200, 16));
    let f = eth_frame(0x0800, &p);
    let s = classify(&f, 5);
    assert_eq!(
        s.text,
        "[5] IPv4 TCP | SRC: 9.9.9.9:100 | DST: 8.8.8.8:200 | FLAGS: 16 | LEN: 58"
    );
}

#[test]
fn classify_is_total_on_junk() {
    // Arbitrary bytes of every length up to beyond the largest header
    // path always yield a summary naming the frame length.
    for len in 0..80usize {
        let data: Vec<u8> = (0..len).map(|i| (i * 37 + 11) as u8).collect();
        let s = classify(&data, len as u64);
        assert!(s.text.contains(&format!("LEN: {}", len)));
        assert!(s.text.starts_with(&format!("[{}]", len)));
    }
}

#[test]
fn parse_class_fields() {
    let f = ipv4_tcp_frame([172, 16, 0, 1], [172, 16, 0, 2], 22, 60000, 17);
    match parse_class(&f) {
        PacketClass::V4Tcp { src, dst, sport, dport, flags } => {
            assert_eq!((src.o0, src.o1, src.o2, src.o3), (172, 16, 0, 1));
            assert_eq!((dst.o0, dst.o1, dst.o2, dst.o3), (172, 16, 0, 2));
            assert_eq!(sport, 22);
            assert_eq!(dport, 60000);
            assert_eq!(flags, 17);
        },
        _ => panic!("expected an IPv4 TCP class"),
    }
}
