//! Captured packets as a file in the classic libpcap format.

use vstd::prelude::*;

verus! {

/// The number that opens a file, in the byte order of the file.
pub const MAGIC: u32 = 0xa1b2c3d4;

/// The longest part of a packet that the file announces to hold.
pub const SNAPSHOT_LENGTH: u32 = 65535;

/// The link type of Ethernet.
pub const LINK_TYPE_ETHERNET: u32 = 1;

/// The low 32 bits of a number.
pub open spec fn low32(n: int) -> u32 {
    (n % 0x1_0000_0000) as u32
}

/// Two bytes, the low one first.
pub open spec fn le16(n: u16) -> Seq<u8> {
    seq![(n % 256) as u8, (n / 256) as u8]
}

/// Four bytes, the lowest one first.
pub open spec fn le32(n: u32) -> Seq<u8> {
    seq![
        (n % 256) as u8,
        (n / 0x100 % 256) as u8,
        (n / 0x10000 % 256) as u8,
        (n / 0x1000000) as u8,
    ]
}

/// The number of the four bytes at offset `i`, the lowest one first.
pub open spec fn le32_at(s: Seq<u8>, i: int) -> u32 {
    (s[i] + s[i + 1] * 0x100 + s[i + 2] * 0x10000 + s[i + 3] * 0x1000000) as u32
}

/// The 24 bytes in front of the records: format version 2.4, no time zone correction, no
/// stated accuracy, the snapshot length and the link type.
pub open spec fn file_header() -> Seq<u8> {
    le32(MAGIC) + le16(2) + le16(4) + le32(0) + le32(0) + le32(SNAPSHOT_LENGTH) + le32(
        LINK_TYPE_ETHERNET,
    )
}

/// The 16 bytes in front of a packet of `len` bytes: when it was captured, and its length,
/// both as stored and as it was on the wire.
pub open spec fn record_header(len: nat, secs: u32, micros: u32) -> Seq<u8> {
    le32(secs) + le32(micros) + le32(low32(len as int)) + le32(low32(len as int))
}

/// One packet with its header.
pub open spec fn record(packet: Seq<u8>, secs: u32, micros: u32) -> Seq<u8> {
    record_header(packet.len(), secs, micros) + packet
}

/// All packets with their headers, one behind the other.
pub open spec fn records(packets: Seq<Seq<u8>>, secs: u32, micros: u32) -> Seq<u8>
    decreases packets.len(),
{
    if packets.len() == 0 {
        Seq::empty()
    } else {
        records(packets.drop_last(), secs, micros) + record(packets.last(), secs, micros)
    }
}

/// The whole file.
pub open spec fn file_bytes(packets: Seq<Seq<u8>>, secs: u32, micros: u32) -> Seq<u8> {
    file_header() + records(packets, secs, micros)
}

/// The packets of a list as sequences of bytes.
pub open spec fn contents(packets: Seq<Vec<u8>>) -> Seq<Seq<u8>> {
    Seq::new(packets.len(), |i: int| packets[i]@)
}

/// The packets that a reader finds in the records of a file: of each record the length that
/// is stored with it and that many bytes, up to the first record that is not whole.
pub open spec fn read_records(bytes: Seq<u8>) -> Seq<Seq<u8>>
    decreases bytes.len(),
{
    if bytes.len() < 16 || bytes.len() < 16 + le32_at(bytes, 8) {
        Seq::empty()
    } else {
        let end = 16 + le32_at(bytes, 8) as int;
        seq![bytes.subrange(16, end)] + read_records(bytes.skip(end))
    }
}

/// The packets that a reader finds in a file of this byte order.
pub open spec fn read_file(bytes: Seq<u8>) -> Seq<Seq<u8>> {
    if bytes.len() < 24 || le32_at(bytes, 0) != MAGIC {
        Seq::empty()
    } else {
        read_records(bytes.skip(24))
    }
}

/// The four bytes of a number read back as that number.
proof fn le32_reads_back(n: u32)
    ensures
        le32_at(le32(n), 0) == n,
{
    let s = le32(n);
    assert(s[0] + s[1] * 0x100 + s[2] * 0x10000 + s[3] * 0x1000000 == n);
}

/// The first record of a file can be split off.
proof fn records_front(packets: Seq<Seq<u8>>, secs: u32, micros: u32)
    requires
        packets.len() > 0,
    ensures
        records(packets, secs, micros) == record(packets[0], secs, micros) + records(
            packets.skip(1),
            secs,
            micros,
        ),
    decreases packets.len(),
{
    if packets.len() == 1 {
        assert(packets.drop_last() =~= Seq::empty());
        assert(packets.skip(1) =~= Seq::empty());
        assert(records(packets, secs, micros) =~= record(packets[0], secs, micros) + records(
            packets.skip(1),
            secs,
            micros,
        ));
    } else {
        records_front(packets.drop_last(), secs, micros);
        assert(packets.drop_last().skip(1) =~= packets.skip(1).drop_last());
        assert(packets.skip(1).last() == packets.last());
        assert(records(packets, secs, micros) =~= record(packets[0], secs, micros) + records(
            packets.skip(1),
            secs,
            micros,
        ));
    }
}

/// A reader of the records finds the packets that were written.
proof fn records_read_back(packets: Seq<Seq<u8>>, secs: u32, micros: u32)
    requires
        forall|i: int| 0 <= i < packets.len() ==> (#[trigger] packets[i]).len() < 0x1_0000_0000,
    ensures
        read_records(records(packets, secs, micros)) == packets,
    decreases packets.len(),
{
    let bytes = records(packets, secs, micros);
    if packets.len() == 0 {
        assert(read_records(bytes) =~= packets);
    } else {
        let first = packets[0];
        let rest = packets.skip(1);
        records_front(packets, secs, micros);
        let len = low32(first.len() as int);
        le32_reads_back(len);
        assert(bytes.subrange(8, 12) =~= le32(len));
        assert(forall|j: int| 0 <= j < 4 ==> bytes[8 + j] == bytes.subrange(8, 12)[j]);
        assert(bytes[8] == le32(len)[0] && bytes[9] == le32(len)[1] && bytes[10] == le32(len)[2]
            && bytes[11] == le32(len)[3]);
        assert(le32_at(bytes, 8) == first.len());
        let end = 16 + first.len() as int;
        assert(bytes.subrange(16, end) =~= first);
        assert(bytes.skip(end) =~= records(rest, secs, micros));
        records_read_back(rest, secs, micros);
        assert(seq![first] + rest =~= packets);
    }
}

/// What is exported reads back: a reader of the file finds the packets, all of them, in their
/// order and unchanged. A packet of four gibibytes or more is left out, since the file has 32
/// bits for a packet's length.
pub proof fn export_reads_back(packets: Seq<Seq<u8>>, secs: u32, micros: u32)
    requires
        forall|i: int| 0 <= i < packets.len() ==> (#[trigger] packets[i]).len() < 0x1_0000_0000,
    ensures
        read_file(file_bytes(packets, secs, micros)) == packets,
{
    let bytes = file_bytes(packets, secs, micros);
    le32_reads_back(MAGIC);
    assert(bytes.subrange(0, 4) =~= le32(MAGIC));
    assert(forall|j: int| 0 <= j < 4 ==> bytes[j] == bytes.subrange(0, 4)[j]);
    assert(bytes[0] == le32(MAGIC)[0] && bytes[1] == le32(MAGIC)[1] && bytes[2] == le32(MAGIC)[2]
        && bytes[3] == le32(MAGIC)[3]);
    assert(bytes.skip(24) =~= records(packets, secs, micros));
    records_read_back(packets, secs, micros);
}

/// Exporting one packet more only appends to the file: what was exported before is a prefix
/// of it.
pub proof fn export_appends(packets: Seq<Seq<u8>>, packet: Seq<u8>, secs: u32, micros: u32)
    ensures
        file_bytes(packets.push(packet), secs, micros) == file_bytes(packets, secs, micros)
            + record(packet, secs, micros),
{
    assert(packets.push(packet).drop_last() =~= packets);
    assert(file_bytes(packets.push(packet), secs, micros) =~= file_bytes(packets, secs, micros)
        + record(packet, secs, micros));
}

/// Appends a number as two bytes, the low one first.
fn push_le16(out: &mut Vec<u8>, n: u16)
    ensures
        final(out)@ == old(out)@ + le16(n),
{
    out.push((n % 256) as u8);
    out.push((n / 256) as u8);
    assert(out@ =~= old(out)@ + le16(n));
}

/// Appends a number as four bytes, the lowest one first.
fn push_le32(out: &mut Vec<u8>, n: u32)
    ensures
        final(out)@ == old(out)@ + le32(n),
{
    out.push((n % 256) as u8);
    out.push((n / 0x100 % 256) as u8);
    out.push((n / 0x10000 % 256) as u8);
    out.push((n / 0x1000000) as u8);
    assert(out@ =~= old(out)@ + le32(n));
}

/// The packets as the bytes of a file. All of them carry the time of the export, `secs` seconds
/// and `micros` microseconds after the epoch, of which the file holds the low 32 bits each.
pub fn export_to_pcap(raw_packets: &[Vec<u8>], secs: u64, micros: u32) -> (file: Vec<u8>)
    ensures
        file@ == file_bytes(contents(raw_packets@), low32(secs as int), micros),
{
    let mut file: Vec<u8> = Vec::new();
    push_le32(&mut file, MAGIC);
    push_le16(&mut file, 2);
    push_le16(&mut file, 4);
    push_le32(&mut file, 0);
    push_le32(&mut file, 0);
    push_le32(&mut file, SNAPSHOT_LENGTH);
    push_le32(&mut file, LINK_TYPE_ETHERNET);
    assert(file@ =~= file_header());
    let low_secs: u32 = (secs % 0x1_0000_0000) as u32;
    let ghost packets = contents(raw_packets@);
    let mut i: usize = 0;
    assert(packets.take(0) =~= Seq::<Seq<u8>>::empty());
    assert(file@ =~= file_bytes(packets.take(0), low_secs, micros));
    while i < raw_packets.len()
        invariant
            0 <= i <= raw_packets@.len(),
            packets == contents(raw_packets@),
            file@ == file_bytes(packets.take(i as int), low_secs, micros),
        decreases raw_packets@.len() - i,
    {
        let packet = &raw_packets[i];
        let len: u32 = (packet.len() as u64 % 0x1_0000_0000) as u32;
        let ghost before = file@;
        push_le32(&mut file, low_secs);
        push_le32(&mut file, micros);
        push_le32(&mut file, len);
        push_le32(&mut file, len);
        file.extend_from_slice(packet.as_slice());
        proof {
            assert(file@ =~= before + record(packet@, low_secs, micros));
            assert(packets.take(i + 1) =~= packets.take(i as int).push(packet@));
            export_appends(packets.take(i as int), packet@, low_secs, micros);
        }
        i = i + 1;
    }
    assert(packets.take(i as int) =~= packets);
    file
}

} // verus!
