use rusty_shark::display::{brief, details, Color};
use rusty_shark::parser::parse_ethernet;

fn frame(ether_type: u16, payload: &[u8]) -> Vec<u8> {
    let mut bytes = vec![2, 0, 0, 0, 0, 1, 2, 0, 0, 0, 0, 0xFE];
    bytes.extend_from_slice(&ether_type.to_be_bytes());
    bytes.extend_from_slice(payload);
    bytes
}

fn ip(protocol: u8, payload: &[u8]) -> Vec<u8> {
    let mut packet = vec![0u8; 20];
    packet[0] = 0x45;
    packet[9] = protocol;
    packet[12..20].copy_from_slice(&[10, 0, 0, 1, 10, 0, 0, 200]);
    packet.extend_from_slice(payload);
    frame(0x0800, &packet)
}

fn tcp(flags: u8, payload: &[u8]) -> Vec<u8> {
    let mut segment = vec![0, 80, 0x1F, 0x90, 0, 0, 0, 7, 0xFF, 0xFF, 0xFF, 0xFF, 0x50, flags, 0, 0, 0, 0, 0, 0];
    segment.extend_from_slice(payload);
    ip(6, &segment)
}

fn line(number: usize, packet: &[u8]) -> (String, Color) {
    let row = brief(number, packet);
    (row.text, row.color)
}

#[test]
fn tcp_line() {
    assert_eq!(
        line(1, &tcp(0x02, &[])),
        ("[001] 协议: TCP   | 10.0.0.1 -> 10.0.0.200".to_string(), Color::LightBlue)
    );
}

#[test]
fn reset_stands_out() {
    assert_eq!(
        line(42, &tcp(0x14, &[])),
        ("[042] 协议: TCP(RST) | 10.0.0.1 -> 10.0.0.200 [异常断开连接]".to_string(), Color::Red)
    );
}

#[test]
fn udp_line() {
    assert_eq!(
        line(999, &ip(17, &[0; 8])),
        ("[999] 协议: UDP   | 10.0.0.1 -> 10.0.0.200".to_string(), Color::LightYellow)
    );
}

#[test]
fn other_ipv4_line() {
    assert_eq!(
        line(1000, &ip(1, &[0; 8])),
        ("[1000] 协议: IPv4  | 10.0.0.1 -> 10.0.0.200".to_string(), Color::White)
    );
}

#[test]
fn ipv6_line() {
    assert_eq!(
        line(7, &frame(0x86DD, &[])),
        ("[007] 协议: IPv6  | MAC: 02:00:00:00:00:FE -> 02:00:00:00:00:01".to_string(), Color::LightMagenta)
    );
}

#[test]
fn arp_line() {
    assert_eq!(
        line(7, &frame(0x0806, &[])),
        ("[007] 协议: ARP   | MAC: 02:00:00:00:00:FE -> 02:00:00:00:00:01".to_string(), Color::LightGreen)
    );
}

#[test]
fn unknown_line_has_four_hex_digits() {
    assert_eq!(
        line(7, &frame(0x0042, &[])),
        ("[007] 未知(0x0042) | MAC: 02:00:00:00:00:FE -> 02:00:00:00:00:01".to_string(), Color::DarkGray)
    );
    assert_eq!(
        line(7, &frame(0x0800, &[])),
        ("[007] 未知(0x0800) | MAC: 02:00:00:00:00:FE -> 02:00:00:00:00:01".to_string(), Color::DarkGray)
    );
}

#[test]
fn damaged_line() {
    assert_eq!(line(10, &[1, 2, 3]), ("[010] 损坏的数据包".to_string(), Color::Red));
}

#[test]
fn tcp_tree() {
    assert_eq!(
        details(&tcp(0x1A, b"abc")),
        " ├─ [Layer 2] 以太网帧: MAC (02:00:00:00:00:FE) -> (02:00:00:00:00:01)\n \
         ├─ [Layer 3] 互联网协议 (IPv4): 10.0.0.1 -> 10.0.0.200\n \
         └─ [Layer 4] 传输控制协议 (TCP)\n      \
         ├── 源端口: 80 ──> 目的端口: 8080\n      \
         ├── 序列号 (Seq): 7 | 确认号 (Ack): 4294967295\n      \
         └── 控制标志位: [SYN|ACK|PSH] | 载荷大小: 3 字节"
    );
}

#[test]
fn flags_are_named_in_order_and_urgent_is_not() {
    let named = |flags: u8| {
        let tree = details(&tcp(flags, &[]));
        let start = tree.rfind('[').unwrap();
        tree[start..tree.rfind(']').unwrap() + 1].to_string()
    };
    assert_eq!(named(0x00), "[]");
    assert_eq!(named(0x01), "[FIN]");
    assert_eq!(named(0x20), "[]");
    assert_eq!(named(0x3F), "[SYN|ACK|FIN|RST|PSH]");
}

#[test]
fn udp_tree() {
    assert_eq!(
        details(&ip(17, &[0, 53, 1, 0, 0, 9, 0, 0, 5])),
        " ├─ [Layer 2] 以太网帧: MAC (02:00:00:00:00:FE) -> (02:00:00:00:00:01)\n \
         ├─ [Layer 3] 互联网协议 (IPv4): 10.0.0.1 -> 10.0.0.200\n \
         └─ [Layer 4] 用户数据报协议 (UDP)\n      \
         └── 源端口: 53 ──> 目的端口: 256 | 长度: 9 字节"
    );
}

#[test]
fn unknown_transport_tree() {
    assert_eq!(
        details(&ip(1, &[0; 64])),
        " ├─ [Layer 2] 以太网帧: MAC (02:00:00:00:00:FE) -> (02:00:00:00:00:01)\n \
         ├─ [Layer 3] 互联网协议 (IPv4): 10.0.0.1 -> 10.0.0.200\n \
         └─ [Layer 4] 未知传输层协议 | 原始载荷大小: 64 字节"
    );
}

#[test]
fn ipv6_tree() {
    assert_eq!(
        details(&frame(0x86DD, &[])),
        " ├─ [Layer 2] 以太网帧: MAC (02:00:00:00:00:FE) -> (02:00:00:00:00:01)\n \
         └─ [Layer 3] 互联网协议第六版 (IPv6) | 后台内核已基于 BPF 规则完成筛选"
    );
}

#[test]
fn arp_tree() {
    assert_eq!(
        details(&frame(0x0806, &[])),
        " ├─ [Layer 2] 以太网帧: MAC (02:00:00:00:00:FE) -> (02:00:00:00:00:01)\n \
         └─ [Layer 3] 地址解析协议 (ARP) | 用于局域网内 IP 与 MAC 地址的动态映射寻址"
    );
}

#[test]
fn unknown_tree() {
    assert_eq!(
        details(&frame(0x88CC, &[])),
        " ├─ [Layer 2] 以太网帧: MAC (02:00:00:00:00:FE) -> (02:00:00:00:00:01)\n \
         └─ [Layer 3] 未知上层网络协议 (EtherType: 0x88CC)，停止递进解析"
    );
}

#[test]
fn damaged_tree_names_the_error() {
    let bytes = [0u8; 13];
    let error = parse_ethernet(&bytes).unwrap_err();
    assert_eq!(details(&bytes), format!(" 解析失败: {:?}", error));
}

#[test]
fn numbers_are_written_as_they_read() {
    for n in [1usize, 9, 10, 99, 100, 101, 999, 1000, 65535, 4294967296] {
        let row = brief(n, &[]);
        let digits = &row.text[1..row.text.find(']').unwrap()];
        assert!(digits.len() >= 3);
        assert_eq!(digits.parse::<usize>().unwrap(), n);
        assert_eq!(row.text, format!("[{:03}] 损坏的数据包", n));
    }
}
