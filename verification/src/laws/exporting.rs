//! What a reader finds in an exported file, byte by byte.

use crate::export;
use vstd::prelude::*;

verus! {

/// A file begins with the 24 bytes of the classic format: the magic number, version 2.4, no time
/// zone, no accuracy, packets of at most 65535 bytes, Ethernet. Without packets that is all.
#[verifier::spinoff_prover]
#[verifier::rlimit(50)]
pub proof fn file_begins_with_the_classic_header(packets: Seq<Seq<u8>>, secs: u32, micros: u32)
    ensures
        ({
            let header: Seq<u8> = seq![
                0xd4u8, 0xc3u8, 0xb2u8, 0xa1u8, 2u8, 0u8, 4u8, 0u8,
                0u8, 0u8, 0u8, 0u8, 0u8, 0u8, 0u8, 0u8,
                0xffu8, 0xffu8, 0u8, 0u8, 1u8, 0u8, 0u8, 0u8,
            ];
            &&& export::file_bytes(packets, secs, micros).len() >= 24
            &&& export::file_bytes(packets, secs, micros).take(24) == header
            &&& packets.len() == 0 ==> export::file_bytes(packets, secs, micros) == header
        }),
{
    let header: Seq<u8> = seq![
        0xd4u8, 0xc3u8, 0xb2u8, 0xa1u8, 2u8, 0u8, 4u8, 0u8,
        0u8, 0u8, 0u8, 0u8, 0u8, 0u8, 0u8, 0u8,
        0xffu8, 0xffu8, 0u8, 0u8, 1u8, 0u8, 0u8, 0u8,
    ];
    assert(export::le32(export::MAGIC) =~= header.subrange(0, 4));
    assert(export::le32(export::SNAPSHOT_LENGTH) =~= header.subrange(16, 20));
    assert(export::le32(export::LINK_TYPE_ETHERNET) =~= header.subrange(20, 24));
    assert(export::file_header() =~= header);
    assert(export::file_bytes(packets, secs, micros).take(24) =~= header);
    if packets.len() == 0 {
        assert(export::file_bytes(packets, secs, micros) =~= header);
    }
}

/// Four bytes of a number, the lowest first, add up to the number.
proof fn four_bytes_add_up(n: u32)
    ensures
        export::le32(n).len() == 4,
        export::le32(n)[0] + 256 * export::le32(n)[1] + 65536 * export::le32(n)[2] + 16777216
            * export::le32(n)[3] == n,
{
}

/// The record of a packet is 16 bytes and the packet. The 16 bytes are four numbers, the lowest
/// byte first: the seconds, the microseconds, the packet's length, and the packet's length again.
/// Of a length the file holds what is left over four gibibytes.
#[verifier::spinoff_prover]
#[verifier::rlimit(50)]
pub proof fn record_reads_back(packet: Seq<u8>, secs: u32, micros: u32)
    ensures
        ({
            let r = export::record(packet, secs, micros);
            &&& r.len() == 16 + packet.len()
            &&& r[0] + 256 * r[1] + 65536 * r[2] + 16777216 * r[3] == secs
            &&& r[4] + 256 * r[5] + 65536 * r[6] + 16777216 * r[7] == micros
            &&& r[8] + 256 * r[9] + 65536 * r[10] + 16777216 * r[11] == packet.len()
                % 0x1_0000_0000
            &&& r[12] + 256 * r[13] + 65536 * r[14] + 16777216 * r[15] == packet.len()
                % 0x1_0000_0000
            &&& r.skip(16) == packet
        }),
{
    let r = export::record(packet, secs, micros);
    let len = export::low32(packet.len() as int);
    four_bytes_add_up(secs);
    four_bytes_add_up(micros);
    four_bytes_add_up(len);
    assert(r.subrange(0, 4) =~= export::le32(secs));
    assert(r.subrange(4, 8) =~= export::le32(micros));
    assert(r.subrange(8, 12) =~= export::le32(len));
    assert(r.subrange(12, 16) =~= export::le32(len));
    assert(forall|j: int| 0 <= j < 4 ==> r[j] == #[trigger] r.subrange(0, 4)[j]);
    assert(forall|j: int| 0 <= j < 4 ==> r[4 + j] == #[trigger] r.subrange(4, 8)[j]);
    assert(forall|j: int| 0 <= j < 4 ==> r[8 + j] == #[trigger] r.subrange(8, 12)[j]);
    assert(forall|j: int| 0 <= j < 4 ==> r[12 + j] == #[trigger] r.subrange(12, 16)[j]);
    assert(r.subrange(0, 4)[0] == r[0] && r.subrange(0, 4)[1] == r[1] && r.subrange(0, 4)[2]
        == r[2] && r.subrange(0, 4)[3] == r[3]);
    assert(r.subrange(4, 8)[0] == r[4] && r.subrange(4, 8)[1] == r[5] && r.subrange(4, 8)[2]
        == r[6] && r.subrange(4, 8)[3] == r[7]);
    assert(r.subrange(8, 12)[0] == r[8] && r.subrange(8, 12)[1] == r[9] && r.subrange(8, 12)[2]
        == r[10] && r.subrange(8, 12)[3] == r[11]);
    assert(r.subrange(12, 16)[0] == r[12] && r.subrange(12, 16)[1] == r[13] && r.subrange(
        12,
        16,
    )[2] == r[14] && r.subrange(12, 16)[3] == r[15]);
    assert(r.skip(16) =~= packet);
}

/// The file up to one of its packets.
#[verifier::spinoff_prover]
#[verifier::rlimit(50)]
proof fn file_is_extended(packets: Seq<Seq<u8>>, i: int, secs: u32, micros: u32)
    requires
        0 <= i < packets.len(),
    ensures
        ({
            let file = export::file_bytes(packets, secs, micros);
            let before = export::file_bytes(packets.take(i), secs, micros);
            let r = export::record(packets[i], secs, micros);
            &&& before.len() + r.len() <= file.len()
            &&& file.subrange(before.len() as int, (before.len() + r.len()) as int) == r
        }),
    decreases packets.len(),
{
    let file = export::file_bytes(packets, secs, micros);
    let front = packets.drop_last();
    let r = export::record(packets[i], secs, micros);
    let before = export::file_bytes(packets.take(i), secs, micros);
    assert(packets =~= front.push(packets.last()));
    export::export_appends(front, packets.last(), secs, micros);
    if i == packets.len() - 1 {
        assert(packets.take(i) =~= front);
        assert(file.subrange(before.len() as int, file.len() as int) =~= r);
    } else {
        file_is_extended(front, i, secs, micros);
        assert(front.take(i) =~= packets.take(i));
        let shorter = export::file_bytes(front, secs, micros);
        assert(file.subrange(before.len() as int, (before.len() + r.len()) as int)
            =~= shorter.subrange(before.len() as int, (before.len() + r.len()) as int));
    }
}

/// The number of bytes that the records of packets take.
pub open spec fn room_of(packets: Seq<Seq<u8>>) -> nat
    decreases packets.len(),
{
    if packets.len() == 0 {
        0
    } else {
        room_of(packets.drop_last()) + 16 + packets.last().len()
    }
}

/// A file is as long as its header and its records.
#[verifier::spinoff_prover]
#[verifier::rlimit(50)]
pub proof fn file_is_as_long_as_its_records(packets: Seq<Seq<u8>>, secs: u32, micros: u32)
    ensures
        export::file_bytes(packets, secs, micros).len() == 24 + room_of(packets),
    decreases packets.len(),
{
    file_begins_with_the_classic_header(packets, secs, micros);
    if packets.len() > 0 {
        let front = packets.drop_last();
        file_is_as_long_as_its_records(front, secs, micros);
        assert(packets =~= front.push(packets.last()));
        export::export_appends(front, packets.last(), secs, micros);
        record_reads_back(packets.last(), secs, micros);
    } else {
        assert(export::file_bytes(packets, secs, micros).take(24).len() == 24);
    }
}

/// Every packet stands in the file behind the records of the earlier ones: the seconds, the
/// microseconds, its length twice, each as four bytes with the lowest first, and then its bytes.
/// A packet of four gibibytes or more is left out, since the file has 32 bits for a length.
#[verifier::spinoff_prover]
#[verifier::rlimit(50)]
pub proof fn every_packet_stands_in_the_file(
    packets: Seq<Seq<u8>>,
    i: int,
    secs: u32,
    micros: u32,
)
    requires
        0 <= i < packets.len(),
        packets[i].len() < 0x1_0000_0000,
    ensures
        ({
            let f = export::file_bytes(packets, secs, micros);
            let at = 24 + room_of(packets.take(i)) as int;
            &&& at + 16 + packets[i].len() <= f.len()
            &&& f[at] + 256 * f[at + 1] + 65536 * f[at + 2] + 16777216 * f[at + 3] == secs
            &&& f[at + 4] + 256 * f[at + 5] + 65536 * f[at + 6] + 16777216 * f[at + 7] == micros
            &&& f[at + 8] + 256 * f[at + 9] + 65536 * f[at + 10] + 16777216 * f[at + 11]
                == packets[i].len()
            &&& f[at + 12] + 256 * f[at + 13] + 65536 * f[at + 14] + 16777216 * f[at + 15]
                == packets[i].len()
            &&& f.subrange(at + 16, at + 16 + packets[i].len()) == packets[i]
        }),
{
    let f = export::file_bytes(packets, secs, micros);
    let at = 24 + room_of(packets.take(i)) as int;
    let r = export::record(packets[i], secs, micros);
    file_is_as_long_as_its_records(packets.take(i), secs, micros);
    file_is_extended(packets, i, secs, micros);
    record_reads_back(packets[i], secs, micros);
    let part = f.subrange(at, at + r.len());
    assert(part == r);
    assert(part[0] == f[at] && part[1] == f[at + 1] && part[2] == f[at + 2] && part[3] == f[at
        + 3]);
    assert(part[4] == f[at + 4] && part[5] == f[at + 5] && part[6] == f[at + 6] && part[7]
        == f[at + 7]);
    assert(part[8] == f[at + 8] && part[9] == f[at + 9] && part[10] == f[at + 10] && part[11]
        == f[at + 11]);
    assert(part[12] == f[at + 12] && part[13] == f[at + 13] && part[14] == f[at + 14] && part[15]
        == f[at + 15]);
    assert(f.subrange(at + 16, at + 16 + packets[i].len()) =~= part.skip(16));
}

/// The time of an export is stored as it is as long as 32 bits hold it, and what is left over
/// the range of 32 bits else.
pub proof fn low_half_is_what_32_bits_hold(n: int)
    requires
        n >= 0,
    ensures
        n < 0x1_0000_0000 ==> export::low32(n) == n,
        (n - export::low32(n)) % 0x1_0000_0000 == 0,
{
}

/// The packets that are exported are those of the list, in its order.
pub proof fn list_is_exported_as_it_is(packets: Seq<Vec<u8>>)
    ensures
        export::contents(packets).len() == packets.len(),
        forall|i: int| 0 <= i < packets.len() ==> #[trigger] export::contents(packets)[i]
            == packets[i]@,
{
}

} // verus!
