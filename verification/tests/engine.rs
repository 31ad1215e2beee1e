use icmp_tun::checksum::calculate_checksum;
use icmp_tun::checksum::put_checksum;
use icmp_tun::checksum::put_header_checksum;
use icmp_tun::classify::is_broadcast;
use icmp_tun::classify::is_wrapped;
use icmp_tun::classify::should_warp;
use icmp_tun::summary::describe;
use icmp_tun::summary::ProtoSummary;
use icmp_tun::transcode::add_wrapper;
use icmp_tun::transcode::handle;
use icmp_tun::transcode::maybe_redirect_broadcast;
use icmp_tun::transcode::rm_wrapper;

/// A 20-byte IPv4 header with the given protocol, flags byte and
/// destination, its checksum field valid.
fn header(proto: u8, flags: u8, dst: [u8; 4]) -> Vec<u8> {
    let mut h = vec![
        0x45, 0x00, 0x00, 0x1c, 0x00, 0x00, flags, 0x00, 0x40, proto, 0x00, 0x00, 192, 168, 1, 2,
        dst[0], dst[1], dst[2], dst[3],
    ];
    put_header_checksum(&mut h[..]);
    h
}

/// Like `header`, followed by four transport bytes (source and destination
/// port, big-endian).
fn packet_with_ports(proto: u8, flags: u8, dst: [u8; 4], sport: u16, dport: u16) -> Vec<u8> {
    let mut p = header(proto, flags, dst);
    p.extend_from_slice(&sport.to_be_bytes());
    p.extend_from_slice(&dport.to_be_bytes());
    p
}

#[test]
fn checksum_known_header() {
    // A classic worked example of the RFC 1071 header checksum.
    let h: Vec<u8> = vec![
        0x45, 0x00, 0x00, 0x3c, 0x1c, 0x46, 0x40, 0x00, 0x40, 0x06, 0x00, 0x00, 0xac, 0x10, 0x0a,
        0x63, 0xac, 0x10, 0x0a, 0x0c,
    ];
    assert_eq!(calculate_checksum(&h[..]), 0xb1e6);
}

#[test]
fn checksum_odd_length() {
    // 0x0102 + 0x0300 = 0x0402; one's complement is 0xfbfd.
    let b: Vec<u8> = vec![0x01, 0x02, 0x03];
    assert_eq!(calculate_checksum(&b[..]), 0xfbfd);
}

#[test]
fn checksum_single_byte() {
    let b: Vec<u8> = vec![0xff];
    assert_eq!(calculate_checksum(&b[..]), 0x00ff);
}

#[test]
fn checksum_all_zero() {
    let b: Vec<u8> = vec![0; 20];
    assert_eq!(calculate_checksum(&b[..]), 0xffff);
}

#[test]
fn patch_then_checksum_is_zero() {
    // Internet-checksum self-verification: after the checksum is patched in,
    // the checksum over the same buffer is zero.
    let mut h: Vec<u8> = vec![
        0x45, 0x00, 0x00, 0x3c, 0x1c, 0x46, 0x40, 0x00, 0x40, 0x06, 0x00, 0x00, 0xac, 0x10, 0x0a,
        0x63, 0xac, 0x10, 0x0a, 0x0c,
    ];
    put_checksum(&mut h[..], 10);
    assert_eq!(h[10], 0xb1);
    assert_eq!(h[11], 0xe6);
    assert_eq!(calculate_checksum(&h[..]), 0);
}

#[test]
fn roundtrip_tcp() {
    let original = header(6, 0x00, [192, 168, 1, 10]);
    let mut p = original.clone();
    add_wrapper(&mut p[..]);
    assert_eq!(p[9], 1);
    assert_eq!(p[6], 0x00);
    assert_ne!(p, original);
    rm_wrapper(&mut p[..]);
    assert_eq!(p, original);
}

#[test]
fn roundtrip_udp() {
    let original = header(17, 0x00, [192, 168, 1, 10]);
    let mut p = original.clone();
    add_wrapper(&mut p[..]);
    assert_eq!(p[9], 1);
    assert_eq!(p[6], 0x80);
    rm_wrapper(&mut p[..]);
    assert_eq!(p, original);
}

#[test]
fn roundtrip_unwrap_then_wrap() {
    // A wrapped UDP packet: tag bit set, protocol ICMP, checksum valid.
    let original = header(1, 0x80, [192, 168, 1, 10]);
    let mut p = original.clone();
    rm_wrapper(&mut p[..]);
    assert_eq!(p[9], 17);
    assert_eq!(p[6], 0x00);
    add_wrapper(&mut p[..]);
    assert_eq!(p, original);
}

#[test]
fn classification_partition() {
    for proto in [6u8, 17u8] {
        let p = header(proto, 0, [10, 0, 0, 1]);
        assert!(should_warp(&p[..]));
        assert!(!is_wrapped(&p[..]));
    }
    let p = header(1, 0, [10, 0, 0, 1]);
    assert!(is_wrapped(&p[..]));
    assert!(!should_warp(&p[..]));
    let p = header(0x2f, 0, [10, 0, 0, 1]);
    assert!(!is_wrapped(&p[..]));
    assert!(!should_warp(&p[..]));
}

#[test]
fn broadcast_detection() {
    let p = header(6, 0, [192, 168, 1, 255]);
    assert!(is_broadcast(&p[..]));
    let p = header(6, 0, [192, 168, 1, 254]);
    assert!(!is_broadcast(&p[..]));
}

#[test]
fn broadcast_redirect_rewrites_destination() {
    let mut p = header(6, 0, [192, 168, 1, 255]);
    maybe_redirect_broadcast(&mut p[..], Some([10, 0, 0, 5]));
    assert_eq!(&p[16..20], &[10, 0, 0, 5]);
    put_header_checksum(&mut p[..]);
    assert_eq!(calculate_checksum(&p[..20]), 0);
}

#[test]
fn redirect_without_broadcast_is_noop() {
    let original = header(6, 0, [192, 168, 1, 10]);
    let mut p = original.clone();
    maybe_redirect_broadcast(&mut p[..], Some([10, 0, 0, 5]));
    assert_eq!(p, original);
}

#[test]
fn redirect_without_address_is_noop() {
    let original = header(6, 0, [192, 168, 1, 255]);
    let mut p = original.clone();
    maybe_redirect_broadcast(&mut p[..], None);
    assert_eq!(p, original);
}

#[test]
fn wrap_tcp_scenario() {
    // TCP, flags byte 0x00, destination ending in octet 10.
    let mut p = packet_with_ports(6, 0x00, [192, 168, 1, 10], 8080, 80);
    let report = handle(&mut p[..], None);
    assert_eq!(p[9], 1);
    assert_eq!(p[6], 0x00);
    assert_eq!(calculate_checksum(&p[..20]), 0);
    // The diagnostic reports the packet as it arrived.
    assert_eq!(report.proto, ProtoSummary::Tcp { src_port: 8080, dst_port: 80 });
    assert_eq!(report.dst, (192, 168, 1, 10));
    assert_eq!(report.len, 24);
}

#[test]
fn wrap_then_unwrap_udp_scenario() {
    let original = packet_with_ports(17, 0x00, [192, 168, 1, 10], 5353, 53);
    let mut p = original.clone();
    handle(&mut p[..], None);
    assert_eq!(p[9], 1);
    assert_eq!(p[6], 0x80);
    assert_eq!(calculate_checksum(&p[..20]), 0);
    let report = handle(&mut p[..], None);
    assert_eq!(p[9], 17);
    assert_eq!(p[6], 0x00);
    assert_eq!(calculate_checksum(&p[..20]), 0);
    assert_eq!(p, original);
    // The diagnostic after unwrapping reports the restored transport.
    assert_eq!(report.proto, ProtoSummary::Udp { src_port: 5353, dst_port: 53 });
}

#[test]
fn broadcast_wrap_scenario() {
    // TCP to 255.255.255.255 with a configured redirect of 10.0.0.5.
    let mut p = packet_with_ports(6, 0x00, [255, 255, 255, 255], 8080, 80);
    handle(&mut p[..], Some([10, 0, 0, 5]));
    assert_eq!(&p[16..20], &[10, 0, 0, 5]);
    assert_eq!(p[9], 1);
    assert_eq!(calculate_checksum(&p[..20]), 0);
}

#[test]
fn passthrough_scenario() {
    // Protocol 0x2f is neither TCP, UDP nor ICMP: the buffer is untouched.
    let original = header(0x2f, 0x00, [192, 168, 1, 10]);
    let mut p = original.clone();
    let report = handle(&mut p[..], Some([10, 0, 0, 5]));
    assert_eq!(p, original);
    assert_eq!(report.proto, ProtoSummary::Unknown { proto: 0x2f });
}

#[test]
fn describe_tcp_ports() {
    let p = packet_with_ports(6, 0, [10, 0, 0, 2], 443, 50000);
    let s = describe(&p[..]);
    assert_eq!(s.src, (192, 168, 1, 2));
    assert_eq!(s.dst, (10, 0, 0, 2));
    assert_eq!(s.proto, ProtoSummary::Tcp { src_port: 443, dst_port: 50000 });
    assert_eq!(s.len, 24);
}

#[test]
fn describe_icmp_echo_request() {
    let mut p = header(1, 0, [10, 0, 0, 2]);
    p.push(8);
    let s = describe(&p[..]);
    assert_eq!(s.proto, ProtoSummary::Icmp { icmp_type: 8 });
    assert_eq!(s.len, 21);
}

#[test]
fn describe_truncated_transport() {
    // A bare 20-byte header promises ports (TCP) or an ICMP type it cannot
    // hold; the summary says so instead of reading past the end.
    let p = header(6, 0, [10, 0, 0, 2]);
    let s = describe(&p[..]);
    assert_eq!(s.proto, ProtoSummary::Truncated { proto: 6 });
    let p = header(1, 0, [10, 0, 0, 2]);
    let s = describe(&p[..]);
    assert_eq!(s.proto, ProtoSummary::Truncated { proto: 1 });
}

#[test]
fn describe_unknown_protocol() {
    let p = header(0x2f, 0, [10, 0, 0, 2]);
    let s = describe(&p[..]);
    assert_eq!(s.proto, ProtoSummary::Unknown { proto: 0x2f });
}
