use rusty_shark::export::export_to_pcap;
use rusty_shark::session::Session;

fn read_back(file: &[u8]) -> Vec<Vec<u8>> {
    let mut packets = Vec::new();
    let mut rest = &file[24..];
    while rest.len() >= 16 {
        let n = u32::from_le_bytes([rest[8], rest[9], rest[10], rest[11]]) as usize;
        packets.push(rest[16..16 + n].to_vec());
        rest = &rest[16 + n..];
    }
    assert!(rest.is_empty());
    packets
}

#[test]
fn empty_export_is_the_header() {
    assert_eq!(
        export_to_pcap(&[], 1, 2),
        [
            0xd4, 0xc3, 0xb2, 0xa1, 2, 0, 4, 0, 0, 0, 0, 0, 0, 0, 0, 0, 0xff, 0xff, 0, 0, 1, 0, 0,
            0
        ]
    );
}

#[test]
fn record_holds_time_length_and_bytes() {
    let file = export_to_pcap(&[vec![0xAA, 0xBB, 0xCC]], 0x01020304, 0x000A0B0C);
    assert_eq!(
        file[24..],
        [
            4, 3, 2, 1, 0x0C, 0x0B, 0x0A, 0, 3, 0, 0, 0, 3, 0, 0, 0, 0xAA, 0xBB, 0xCC
        ]
    );
}

#[test]
fn seconds_keep_their_low_bits() {
    let file = export_to_pcap(&[vec![]], 0x5_0000_0007, 999_999);
    assert_eq!(file[24..28], [7, 0, 0, 0]);
    assert_eq!(file[28..32], 999_999u32.to_le_bytes());
}

#[test]
fn exported_packets_read_back() {
    let packets = vec![vec![], vec![1], vec![2; 300], vec![3; 70000], vec![0; 16]];
    assert_eq!(read_back(&export_to_pcap(&packets, 1700000000, 5)), packets);
}

#[test]
fn export_of_one_more_packet_appends() {
    let mut packets = vec![vec![1, 2], vec![3]];
    let before = export_to_pcap(&packets, 9, 9);
    packets.push(vec![4, 5, 6]);
    let after = export_to_pcap(&packets, 9, 9);
    assert_eq!(after[..before.len()], before[..]);
    assert_eq!(after.len(), before.len() + 16 + 3);
}

#[test]
fn session_exports_what_it_kept() {
    let mut session = Session::new();
    session.on_packet(vec![1, 2, 3]);
    session.on_packet(vec![]);
    assert_eq!(read_back(&session.export_file(5, 6)), vec![vec![1, 2, 3], vec![]]);
    assert_eq!(session.export_file(5, 6), export_to_pcap(&[vec![1, 2, 3], vec![]], 5, 6));
}
