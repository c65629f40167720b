use rusty_shark::error::{PcapFault, SnifferError};
use rusty_shark::parser::{
    format_mac, parse_ethernet, parse_ipv4, parse_tcp, parse_udp, IpProtocol, TransportProtocol,
};

fn ethernet(ether_type: u16, payload: &[u8]) -> Vec<u8> {
    let mut frame = vec![
        0xFF, 0xFF, 0xFF, 0xFF, 0xFF, 0xFF, 0x00, 0x1A, 0x2B, 0x3C, 0x4D, 0x5E,
    ];
    frame.extend_from_slice(&ether_type.to_be_bytes());
    frame.extend_from_slice(payload);
    frame
}

fn ipv4(protocol: u8, words: u8, payload: &[u8]) -> Vec<u8> {
    let mut packet = vec![0u8; 20];
    packet[0] = 0x40 | words;
    packet[9] = protocol;
    packet[12..16].copy_from_slice(&[192, 168, 1, 10]);
    packet[16..20].copy_from_slice(&[8, 8, 4, 255]);
    packet.extend_from_slice(payload);
    packet
}

fn tcp(words: u8, flags: u8, payload: &[u8]) -> Vec<u8> {
    let mut segment = vec![
        0x01, 0xBB, 0xC0, 0x01, 0x01, 0x02, 0x03, 0x04, 0xFF, 0xFE, 0xFD, 0xFC,
    ];
    segment.push(words << 4);
    segment.push(flags);
    segment.extend_from_slice(&[0; 6]);
    segment.extend_from_slice(payload);
    segment
}

#[test]
fn mac_is_upper_case_hex_with_colons() {
    assert_eq!(format_mac(&[0x00, 0x1A, 0xB2, 0x0C, 0xFF, 0x07]), "00:1A:B2:0C:FF:07");
    assert_eq!(format_mac(&[0; 6]), "00:00:00:00:00:00");
}

#[test]
fn different_macs_have_different_texts() {
    assert_ne!(format_mac(&[0, 0, 0, 0, 1, 0]), format_mac(&[0, 0, 0, 0, 0, 16]));
}

#[test]
fn short_frame_is_refused() {
    for n in 0..14 {
        let bytes = vec![0u8; n];
        assert!(matches!(parse_ethernet(&bytes), Err(SnifferError::InvalidLength)));
    }
    assert!(parse_ethernet(&[0u8; 14]).is_ok());
}

#[test]
fn addresses_are_destination_first() {
    let bytes = ethernet(0x0806, &[]);
    let frame = parse_ethernet(&bytes).unwrap();
    assert_eq!(frame.dest_mac, "FF:FF:FF:FF:FF:FF");
    assert_eq!(frame.src_mac, "00:1A:2B:3C:4D:5E");
    assert!(matches!(frame.payload, IpProtocol::Arp));
}

#[test]
fn ipv6_is_recognised() {
    let bytes = ethernet(0x86DD, &[1, 2, 3]);
    assert!(matches!(parse_ethernet(&bytes).unwrap().payload, IpProtocol::Ipv6));
}

#[test]
fn unknown_ether_type_is_carried_on() {
    let bytes = ethernet(0x88CC, &[1, 2, 3]);
    assert!(matches!(parse_ethernet(&bytes).unwrap().payload, IpProtocol::Unknown(0x88CC)));
}

#[test]
fn broken_ipv4_is_unknown_with_its_ether_type() {
    let short = ethernet(0x0800, &[0x45; 19]);
    assert!(matches!(parse_ethernet(&short).unwrap().payload, IpProtocol::Unknown(0x0800)));
    let long_header = ethernet(0x0800, &ipv4(6, 6, &[0; 3]));
    assert!(matches!(parse_ethernet(&long_header).unwrap().payload, IpProtocol::Unknown(0x0800)));
}

#[test]
fn tcp_segment_is_read() {
    let bytes = ethernet(0x0800, &ipv4(6, 5, &tcp(5, 0x12, b"hello")));
    let frame = parse_ethernet(&bytes).unwrap();
    let IpProtocol::Ipv4(ip) = frame.payload else { panic!("no IPv4") };
    assert_eq!(ip.src_ip, "192.168.1.10");
    assert_eq!(ip.dest_ip, "8.8.4.255");
    assert_eq!(ip.protocol, 6);
    let TransportProtocol::Tcp(tcp) = ip.transport else { panic!("no TCP") };
    assert_eq!(tcp.src_port, 443);
    assert_eq!(tcp.dest_port, 49153);
    assert_eq!(tcp.seq, 0x01020304);
    assert_eq!(tcp.ack_num, 0xFFFEFDFC);
    assert!(tcp.flags.syn && tcp.flags.ack);
    assert!(!tcp.flags.fin && !tcp.flags.rst && !tcp.flags.psh && !tcp.flags.urg);
    assert_eq!(tcp.payload, b"hello");
}

#[test]
fn each_flag_has_its_bit() {
    for bit in 0..8 {
        let bytes = tcp(5, 1 << bit, &[]);
        let Ok(TransportProtocol::Tcp(header)) = parse_tcp(&bytes) else { panic!("no TCP") };
        assert_eq!(header.flags.fin, bit == 0);
        assert_eq!(header.flags.syn, bit == 1);
        assert_eq!(header.flags.rst, bit == 2);
        assert_eq!(header.flags.psh, bit == 3);
        assert_eq!(header.flags.ack, bit == 4);
        assert_eq!(header.flags.urg, bit == 5);
    }
}

#[test]
fn options_are_no_payload() {
    let mut options = vec![0xAA; 8];
    options.extend_from_slice(b"data");
    let segment = tcp(7, 0, &options);
    let Ok(TransportProtocol::Tcp(header)) = parse_tcp(&segment) else { panic!("no TCP") };
    assert_eq!(header.payload, b"data");
    let mut ip_options = vec![0xBB; 4];
    ip_options.extend_from_slice(b"rest");
    let packet = ipv4(1, 6, &ip_options);
    let Ok(ip) = parse_ipv4(&packet) else { panic!("no IPv4") };
    assert!(matches!(ip.transport, TransportProtocol::Unknown(b"rest")));
}

#[test]
fn header_shorter_than_its_minimum_reaches_into_itself() {
    let packet = ipv4(1, 0, b"x");
    let Ok(ip) = parse_ipv4(&packet) else { panic!("no IPv4") };
    let TransportProtocol::Unknown(raw) = ip.transport else { panic!("not unknown") };
    assert_eq!(raw, &packet[..]);
}

#[test]
fn short_tcp_is_unknown_transport() {
    assert!(matches!(parse_tcp(&[0; 19]), Err(SnifferError::InvalidLength)));
    assert!(matches!(parse_tcp(&tcp(6, 0, &[0; 3])), Err(SnifferError::InvalidLength)));
    let packet = ipv4(6, 5, &[7; 19]);
    let Ok(ip) = parse_ipv4(&packet) else { panic!("no IPv4") };
    let TransportProtocol::Unknown(raw) = ip.transport else { panic!("not unknown") };
    assert_eq!(raw, &[7; 19]);
}

#[test]
fn udp_datagram_is_read() {
    let packet = ipv4(17, 5, &[0x00, 0x35, 0x30, 0x39, 0x00, 0x0A, 0xAB, 0xCD, 1, 2]);
    let Ok(ip) = parse_ipv4(&packet) else { panic!("no IPv4") };
    let TransportProtocol::Udp(udp) = ip.transport else { panic!("no UDP") };
    assert_eq!((udp.src_port, udp.dest_port, udp.len), (53, 12345, 10));
    assert_eq!(udp.payload, &[1, 2]);
    assert!(matches!(parse_udp(&[0; 7]), Err(SnifferError::InvalidLength)));
    let Ok(TransportProtocol::Udp(empty)) = parse_udp(&[0; 8]) else { panic!("no UDP") };
    assert!(empty.payload.is_empty());
}

#[test]
fn short_udp_is_unknown_transport() {
    let packet = ipv4(17, 5, &[9; 7]);
    let Ok(ip) = parse_ipv4(&packet) else { panic!("no IPv4") };
    assert!(matches!(ip.transport, TransportProtocol::Unknown([9, 9, 9, 9, 9, 9, 9])));
}

#[test]
fn short_ipv4_is_refused() {
    assert!(matches!(parse_ipv4(&[0x45; 19]), Err(SnifferError::InvalidLength)));
    assert!(matches!(parse_ipv4(&ipv4(6, 15, &[0; 39])), Err(SnifferError::InvalidLength)));
    assert!(parse_ipv4(&ipv4(6, 15, &[0; 40])).is_ok());
}

#[test]
fn trailing_bytes_only_lengthen_the_payload() {
    let mut bytes = ethernet(0x0800, &ipv4(6, 5, &tcp(5, 0x10, b"ab")));
    bytes.extend_from_slice(b"cd");
    let IpProtocol::Ipv4(ip) = parse_ethernet(&bytes).unwrap().payload else { panic!("no IPv4") };
    let TransportProtocol::Tcp(header) = ip.transport else { panic!("no TCP") };
    assert_eq!(header.src_port, 443);
    assert_eq!(header.payload, b"abcd");
}

#[test]
fn errors_have_messages() {
    let fault = PcapFault {
        timeout_expired: false,
        text: "libpcap error: no such device".to_string(),
        debug: "PcapError(\"no such device\")".to_string(),
    };
    assert_eq!(
        SnifferError::PcapError(fault).message(),
        "Pcap 底层错误: libpcap error: no such device"
    );
    assert_eq!(SnifferError::DeviceNotFound.message(), "找不到指定的网卡设备");
    assert_eq!(SnifferError::InvalidLength.message(), "数据包长度不足以解析首部");
    for n in [0u16, 9, 0x800, 0x86DD, 0xFFFF] {
        assert_eq!(
            SnifferError::UnknownEtherType(n).message(),
            format!("未知的以太网协议类型: {:#X}", n)
        );
    }
}

#[test]
fn trailing_bytes_only_lengthen_a_datagram() {
    let mut bytes = ethernet(0x0800, &ipv4(17, 5, &[0, 53, 0, 54, 0, 9, 0, 0, 1]));
    bytes.extend_from_slice(&[2, 3]);
    let IpProtocol::Ipv4(ip) = parse_ethernet(&bytes).unwrap().payload else { panic!("no IPv4") };
    let TransportProtocol::Udp(udp) = ip.transport else { panic!("no UDP") };
    assert_eq!((udp.src_port, udp.dest_port, udp.len), (53, 54, 9));
    assert_eq!(udp.payload, &[1, 2, 3]);
}

#[test]
fn different_addresses_have_different_texts() {
    let text = |address: [u8; 4]| {
        let mut packet = ipv4(1, 5, &[]);
        packet[12..16].copy_from_slice(&address);
        parse_ipv4(&packet).unwrap().src_ip
    };
    assert_eq!(text([1, 11, 1, 1]), "1.11.1.1");
    assert_ne!(text([1, 11, 1, 1]), text([11, 1, 1, 1]));
    assert_ne!(text([1, 1, 11, 1]), text([1, 11, 1, 1]));
    assert_eq!(text([0, 255, 100, 9]), "0.255.100.9");
}
