//! Replaying a dump of RTP packets through the depacketizer, to see offline whether
//! frames get lost there.
//!
//! A dump is a run of records: sequence number (16 bits), timestamp (32 bits), a
//! byte that is not zero where the marker is set, payload length (32 bits), payload.
use vstd::prelude::*;
use vstd::slice::{slice_subrange, slice_to_vec};

use crate::hevc::{
    annexb_stream, fed_packets, new_depacketizer, push_packet, take_stream, taken_bytes, FedPacket,
};
use crate::rtp::{nal_type, nal_unit_type};
use crate::wire::{
    be16, be16_bytes, be32, be32_bytes, law_be16_reads_back, law_be32_reads_back, read_be16,
    read_be32,
};

verus! {

/// A packet of a dump.
#[derive(Debug)]
pub struct Record {
    pub sequence_number: u16,
    pub timestamp: u32,
    pub marker: bool,
    pub payload: Vec<u8>,
}

/// What a [`Record`] holds.
#[verifier::ext_equal]
pub struct RecordModel {
    pub sequence_number: u16,
    pub timestamp: u32,
    pub marker: bool,
    pub payload: Seq<u8>,
}

impl View for Record {
    type V = RecordModel;

    open spec fn view(&self) -> RecordModel {
        RecordModel {
            sequence_number: self.sequence_number,
            timestamp: self.timestamp,
            marker: self.marker,
            payload: self.payload@,
        }
    }
}

/// How many bytes of a record go before its payload.
pub const RECORD_HEADER: usize = 11;

/// The length of the record at the start of a dump, if it is all there.
pub open spec fn record_len(dump: Seq<u8>) -> Option<int> {
    if dump.len() < RECORD_HEADER || RECORD_HEADER + be32(dump, 7) > dump.len() {
        None
    } else {
        Some(RECORD_HEADER + be32(dump, 7))
    }
}

/// The record at the start of a dump.
pub open spec fn first_record(dump: Seq<u8>) -> RecordModel {
    RecordModel {
        sequence_number: be16(dump, 0) as u16,
        timestamp: be32(dump, 2) as u32,
        marker: dump[6] != 0,
        payload: dump.subrange(RECORD_HEADER as int, RECORD_HEADER + be32(dump, 7)),
    }
}

/// The records of a dump, up to the first that is not all there.
pub open spec fn records(dump: Seq<u8>) -> Seq<RecordModel>
    decreases dump.len(),
{
    match record_len(dump) {
        Some(len) if len > 0 => seq![first_record(dump)] + records(dump.skip(len)),
        _ => Seq::empty(),
    }
}

/// Whether a dump ends in a record whose header is there and whose payload is not.
pub open spec fn ends_early(dump: Seq<u8>) -> bool
    decreases dump.len(),
{
    match record_len(dump) {
        Some(len) if len > 0 => ends_early(dump.skip(len)),
        _ => dump.len() >= RECORD_HEADER,
    }
}

/// What a list of records holds.
pub open spec fn records_view(list: Seq<Record>) -> Seq<RecordModel> {
    list.map_values(|r: Record| r@)
}

/// Read a dump: its records, and whether it ends early.
pub fn read_dump(dump: &[u8]) -> (r: (Vec<Record>, bool))
    ensures
        records_view(r.0@) == records(dump@),
        r.1 == ends_early(dump@),
{
    let mut list: Vec<Record> = Vec::new();
    let mut off: usize = 0;
    assert(dump@.skip(0) =~= dump@);
    assert(records_view(list@) + records(dump@) =~= records(dump@));
    while dump.len() - off >= RECORD_HEADER
        invariant_except_break
            records(dump@) == records_view(list@) + records(dump@.skip(off as int)),
        invariant
            off <= dump@.len(),
            ends_early(dump@) == ends_early(dump@.skip(off as int)),
        ensures
            records(dump@) == records_view(list@),
            ends_early(dump@) == (dump@.len() - off >= RECORD_HEADER),
        decreases dump@.len() - off,
    {
        let ghost rest = dump@.skip(off as int);
        assert(dump.len() <= usize::MAX);
        let sequence_number: u16 = read_be16(dump, off);
        let timestamp: u32 = read_be32(dump, off + 2);
        let marker = dump[off + 6] != 0;
        let len: u32 = read_be32(dump, off + 7);
        assert(be16(dump@, off as int) == be16(rest, 0));
        assert(be32(dump@, off + 2) == be32(rest, 2));
        assert(be32(dump@, off + 7) == be32(rest, 7));
        if len as usize > dump.len() - off - RECORD_HEADER {
            assert(record_len(rest) is None);
            assert(records_view(list@) + records(rest) =~= records_view(list@));
            break;
        }
        let start: usize = off + RECORD_HEADER;
        let end: usize = start + len as usize;
        let payload = slice_to_vec(slice_subrange(dump, start, end));
        let record = Record { sequence_number, timestamp, marker, payload };
        proof {
            assert(record@.payload =~= first_record(rest).payload);
            assert(record@ =~= first_record(rest));
            assert(rest.skip(record_len(rest)->0) =~= dump@.skip(end as int));
            assert(records_view(list@.push(record)) =~= records_view(list@) + seq![record@]);
            assert(records_view(list@) + records(rest) =~= records_view(list@.push(record))
                + records(dump@.skip(end as int)));
        }
        list.push(record);
        off = end;
    }
    (list, dump.len() - off >= RECORD_HEADER)
}

/// How many of the first `n` numbers have a property.
pub open spec fn count_where(n: nat, holds: spec_fn(int) -> bool) -> nat
    decreases n,
{
    if n == 0 {
        0
    } else {
        count_where((n - 1) as nat, holds) + if holds(n - 1) {
            1nat
        } else {
            0
        }
    }
}

/// Which packets end an access unit.
pub open spec fn marked(list: Seq<RecordModel>) -> spec_fn(int) -> bool {
    |i: int| list[i].marker
}

/// Whether a timestamp occurs among the first `n` packets.
pub open spec fn stamped_before(list: Seq<RecordModel>, n: int, timestamp: u32) -> bool {
    exists|j: int| 0 <= j < n && (#[trigger] list[j]).timestamp == timestamp
}

/// Which packets begin an access unit: those whose timestamp has not been seen
/// before.
pub open spec fn begins_unit(list: Seq<RecordModel>) -> spec_fn(int) -> bool {
    |i: int| !stamped_before(list, i, list[i].timestamp)
}

/// How far a packet's sequence number is ahead of that of the packet before.
pub open spec fn ahead(list: Seq<RecordModel>, i: int) -> int {
    (list[i].sequence_number - list[i - 1].sequence_number) % 0x1_0000
}

/// Which packets repeat the sequence number before, or go back from it.
pub open spec fn goes_back(list: Seq<RecordModel>) -> spec_fn(int) -> bool {
    |i: int| i > 0 && (ahead(list, i) == 0 || ahead(list, i) >= 0x8000)
}

/// A forward jump in the sequence numbers: by how much, and at which packet,
/// counting from 1.
#[derive(Debug, Clone, Copy, PartialEq, Eq, Structural)]
pub struct Jump {
    pub by: u16,
    pub packet: u64,
    pub previous: u16,
    pub sequence_number: u16,
}

/// The forward jumps, in order.
pub open spec fn jumps(list: Seq<RecordModel>) -> Seq<Jump>
    decreases list.len(),
{
    if list.len() < 2 {
        Seq::empty()
    } else {
        let at = list.len() - 1;
        let before = jumps(list.drop_last());
        if 1 < ahead(list, at) < 0x8000 {
            before.push(
                Jump {
                    by: ahead(list, at) as u16,
                    packet: list.len() as u64,
                    previous: list[at - 1].sequence_number,
                    sequence_number: list[at].sequence_number,
                },
            )
        } else {
            before
        }
    }
}

/// What a dump looks like going in.
#[derive(Debug)]
pub struct Arrivals {
    pub packets: u64,
    pub markers: u64,
    pub jumps: Vec<Jump>,
    pub backwards: u64,
    pub access_units: u64,
}

proof fn lemma_count_is_bounded(n: nat, holds: spec_fn(int) -> bool)
    ensures
        count_where(n, holds) <= n,
    decreases n,
{
    if n > 0 {
        lemma_count_is_bounded((n - 1) as nat, holds);
    }
}

/// Whether a timestamp is in a list, which is searched from its end.
fn known(stamps: &Vec<u32>, timestamp: u32) -> (r: bool)
    ensures
        r == stamps@.contains(timestamp),
{
    let mut i: usize = stamps.len();
    while i > 0
        invariant
            i <= stamps@.len(),
            forall|j: int| i <= j < stamps@.len() ==> stamps@[j] != timestamp,
        decreases i,
    {
        i -= 1;
        if stamps[i] == timestamp {
            return true;
        }
    }
    false
}

/// Count what a dump holds.
pub fn survey(list: &Vec<Record>) -> (r: Arrivals)
    ensures
        ({
            let all = records_view(list@);
            &&& r.packets == all.len()
            &&& r.markers == count_where(all.len(), marked(all))
            &&& r.jumps@ == jumps(all)
            &&& r.backwards == count_where(all.len(), goes_back(all))
            &&& r.access_units == count_where(all.len(), begins_unit(all))
        }),
{
    let ghost all = records_view(list@);
    let mut markers: u64 = 0;
    let mut found: Vec<Jump> = Vec::new();
    let mut backwards: u64 = 0;
    let mut access_units: u64 = 0;
    let mut stamps: Vec<u32> = Vec::new();
    let mut i: usize = 0;
    while i < list.len()
        invariant
            i <= list@.len(),
            forall|t: u32|
                #![trigger stamps@.contains(t)]
                stamps@.contains(t) == stamped_before(all, i as int, t),
            all == records_view(list@),
            markers == count_where(i as nat, marked(all)),
            found@ == jumps(all.take(i as int)),
            backwards == count_where(i as nat, goes_back(all)),
            access_units == count_where(i as nat, begins_unit(all)),
        decreases list@.len() - i,
    {
        proof {
            lemma_count_is_bounded(i as nat, marked(all));
            lemma_count_is_bounded(i as nat, goes_back(all));
            lemma_count_is_bounded(i as nat, begins_unit(all));
            assert(all.take(i + 1).drop_last() =~= all.take(i as int));
            assert(all[i as int] == list@[i as int]@);
            if i > 0 {
                assert(all[i - 1] == list@[i - 1]@);
            }
        }
        let sequence_number: u16 = list[i].sequence_number;
        if list[i].marker {
            markers += 1;
        }
        let timestamp: u32 = list[i].timestamp;
        let ghost before = stamps@;
        if !known(&stamps, timestamp) {
            access_units += 1;
            stamps.push(timestamp);
            assert(stamps@.last() == timestamp);
        }
        proof {
            assert forall|t: u32|
                #![trigger stamps@.contains(t)]
                stamps@.contains(t) == stamped_before(all, i + 1, t) by {
                assert(stamps@.contains(t) == (before.contains(t) || t == timestamp)) by {
                    if before.contains(t) {
                        let j = choose|j: int| 0 <= j < before.len() && before[j] == t;
                        assert(stamps@[j] == t);
                    }
                }
                if t == timestamp {
                    assert(all[i as int].timestamp == t);
                }
                if stamped_before(all, i + 1, t) && t != timestamp {
                    let j = choose|j: int| 0 <= j < i + 1 && (#[trigger] all[j]).timestamp == t;
                    assert(stamped_before(all, i as int, t));
                }
            }
        }
        if i > 0 {
            let previous: u16 = list[i - 1].sequence_number;
            let by: u16 = sequence_number.wrapping_sub(previous);
            assert(by == ahead(all, i as int));
            assert(ahead(all.take(i + 1), i as int) == ahead(all, i as int));
            if by == 0 || by >= 0x8000 {
                backwards += 1;
            } else if by > 1 {
                found.push(Jump { by, packet: i as u64 + 1, previous, sequence_number });
            }
        }
        i += 1;
    }
    assert(all.take(all.len() as int) =~= all);
    Arrivals { packets: list.len() as u64, markers, jumps: found, backwards, access_units }
}

/// The packets of a dump, as the depacketizer takes them.
pub open spec fn packets_of(list: Seq<RecordModel>) -> Seq<FedPacket> {
    list.map_values(
        |r: RecordModel|
            FedPacket {
                sequence_number: r.sequence_number,
                timestamp: r.timestamp,
                payload: r.payload,
            },
    )
}

/// The stream that the depacketizer makes of a dump.
pub fn depacketize(list: &Vec<Record>) -> (r: Vec<u8>)
    ensures
        r@ == annexb_stream(packets_of(records_view(list@))),
{
    let ghost all = packets_of(records_view(list@));
    let mut depacketizer = new_depacketizer();
    let mut out: Vec<u8> = Vec::new();
    let mut i: usize = 0;
    assert(all.take(0) =~= Seq::<FedPacket>::empty());
    while i < list.len()
        invariant
            i <= list@.len(),
            all == packets_of(records_view(list@)),
            fed_packets(depacketizer) == all.take(i as int),
            taken_bytes(depacketizer) == out@,
            out@ == annexb_stream(all.take(i as int)),
        decreases list@.len() - i,
    {
        let record = &list[i];
        push_packet(
            &mut depacketizer,
            record.sequence_number,
            record.timestamp,
            record.payload.as_slice(),
        );
        assert(fed_packets(depacketizer) =~= all.take(i + 1));
        let mut piece = take_stream(&mut depacketizer);
        out.append(&mut piece);
        i += 1;
    }
    assert(all.take(all.len() as int) =~= all);
    out
}

/// The length of the start code at the start of a stream; 0 if there is none. The
/// last four bytes are not looked at.
pub open spec fn start_code(stream: Seq<u8>) -> int {
    if stream.len() <= 4 {
        0
    } else if stream[0] == 0 && stream[1] == 0 && stream[2] == 0 && stream[3] == 1 {
        4
    } else if stream[0] == 0 && stream[1] == 0 && stream[2] == 1 {
        3
    } else {
        0
    }
}

/// How many NAL units of some types an Annex-B stream holds.
pub open spec fn units_of(stream: Seq<u8>, wanted: spec_fn(int) -> bool) -> nat
    decreases stream.len(),
{
    if stream.len() <= 4 {
        0
    } else if start_code(stream) > 0 {
        let code = start_code(stream);
        units_of(stream.skip(code), wanted) + if wanted(nal_type(stream[code])) {
            1nat
        } else {
            0
        }
    } else {
        units_of(stream.skip(1), wanted)
    }
}

/// The types of the units that hold picture data (VCL).
pub open spec fn picture_units() -> spec_fn(int) -> bool {
    |t: int| t <= 31
}

/// The type of access unit delimiters.
pub open spec fn delimiter_units() -> spec_fn(int) -> bool {
    |t: int| t == 35
}

/// Count the units with picture data, and the access unit delimiters, of a stream.
pub fn count_units(stream: &[u8]) -> (r: (u64, u64))
    ensures
        r.0 == units_of(stream@, picture_units()),
        r.1 == units_of(stream@, delimiter_units()),
{
    let mut pictures: u64 = 0;
    let mut delimiters: u64 = 0;
    let mut i: usize = 0;
    assert(stream@.skip(0) =~= stream@);
    while stream.len() - i > 4
        invariant
            i <= stream@.len(),
            pictures <= i,
            delimiters <= i,
            units_of(stream@, picture_units()) == pictures + units_of(
                stream@.skip(i as int),
                picture_units(),
            ),
            units_of(stream@, delimiter_units()) == delimiters + units_of(
                stream@.skip(i as int),
                delimiter_units(),
            ),
        decreases stream@.len() - i,
    {
        let ghost rest = stream@.skip(i as int);
        assert(stream.len() <= usize::MAX);
        let zeros = stream[i] == 0 && stream[i + 1] == 0;
        let long = zeros && stream[i + 2] == 0 && stream[i + 3] == 1;
        let short = zeros && stream[i + 2] == 1;
        let code: usize = if long {
            4
        } else if short {
            3
        } else {
            0
        };
        assert(code == start_code(rest));
        if code > 0 {
            let unit: u8 = nal_unit_type(stream[i + code]);
            assert(rest[code as int] == stream@[i + code]);
            assert(rest.skip(code as int) =~= stream@.skip(i + code));
            if unit <= 31 {
                pictures += 1;
            } else if unit == 35 {
                delimiters += 1;
            }
            i += code;
        } else {
            assert(rest.skip(1) =~= stream@.skip(i + 1));
            i += 1;
        }
    }
    (pictures, delimiters)
}

/// How many frames got lost: access units that went in and did not come out.
pub fn dropped_frames(access_units: u64, frames: u64) -> (r: u64)
    ensures
        r == if frames < access_units {
            access_units - frames
        } else {
            0
        },
{
    if frames < access_units {
        access_units - frames
    } else {
        0
    }
}

/// The byte of a marker.
pub open spec fn marker_byte(marker: bool) -> u8 {
    if marker {
        1
    } else {
        0
    }
}

/// A record as a dump lays it out.
pub open spec fn record_bytes(record: RecordModel) -> Seq<u8> {
    be16_bytes(record.sequence_number as int) + be32_bytes(record.timestamp as int) + seq![
        marker_byte(record.marker),
    ] + be32_bytes(record.payload.len() as int) + record.payload
}

/// A dump of these records.
pub open spec fn dump_of(list: Seq<RecordModel>) -> Seq<u8>
    decreases list.len(),
{
    if list.len() == 0 {
        Seq::empty()
    } else {
        record_bytes(list[0]) + dump_of(list.drop_first())
    }
}

proof fn lemma_sequence_number_reads_back(record: RecordModel, more: Seq<u8>)
    ensures
        be16(record_bytes(record) + more, 0) == record.sequence_number,
{
    let number = be16_bytes(record.sequence_number as int);
    let after = (record_bytes(record) + more).skip(2);
    law_be16_reads_back(record.sequence_number as int, Seq::empty(), after);
    assert(record_bytes(record) + more =~= Seq::<u8>::empty() + number + after);
}

proof fn lemma_timestamp_reads_back(record: RecordModel, more: Seq<u8>)
    ensures
        be32(record_bytes(record) + more, 2) == record.timestamp,
{
    let before = be16_bytes(record.sequence_number as int);
    let stamp = be32_bytes(record.timestamp as int);
    let after = (record_bytes(record) + more).skip(6);
    law_be32_reads_back(record.timestamp as int, before, after);
    assert(record_bytes(record) + more =~= before + stamp + after);
}

proof fn lemma_length_reads_back(record: RecordModel, more: Seq<u8>)
    requires
        record.payload.len() < 0x1_0000_0000,
    ensures
        be32(record_bytes(record) + more, 7) == record.payload.len(),
{
    let before = record_bytes(record).take(7);
    let length = be32_bytes(record.payload.len() as int);
    let after = record.payload + more;
    law_be32_reads_back(record.payload.len() as int, before, after);
    assert(record_bytes(record) + more =~= before + length + after);
}

proof fn lemma_payload_reads_back(record: RecordModel, more: Seq<u8>)
    ensures
        (record_bytes(record) + more)[6] == marker_byte(record.marker),
        (record_bytes(record) + more).subrange(11, 11 + record.payload.len() as int)
            == record.payload,
        record_bytes(record).len() == 11 + record.payload.len(),
{
    assert((record_bytes(record) + more).subrange(11, 11 + record.payload.len() as int)
        =~= record.payload);
}

proof fn lemma_record_reads_back(record: RecordModel, more: Seq<u8>)
    requires
        record.payload.len() < 0x1_0000_0000,
    ensures
        ({
            let dump = record_bytes(record) + more;
            &&& record_len(dump) == Some(record_bytes(record).len() as int)
            &&& first_record(dump) == record
        }),
{
    lemma_sequence_number_reads_back(record, more);
    lemma_timestamp_reads_back(record, more);
    lemma_length_reads_back(record, more);
    lemma_payload_reads_back(record, more);
}

/// A dump gives back the records that it was made of, and does not end early.
pub proof fn law_a_dump_reads_back(list: Seq<RecordModel>)
    requires
        forall|i: int|
            0 <= i < list.len() ==> (#[trigger] list[i]).payload.len() < 0x1_0000_0000,
    ensures
        records(dump_of(list)) == list,
        !ends_early(dump_of(list)),
    decreases list.len(),
{
    if list.len() == 0 {
        assert(records(dump_of(list)) =~= list);
    } else {
        let more = dump_of(list.drop_first());
        law_a_dump_reads_back(list.drop_first());
        lemma_record_reads_back(list[0], more);
        let dump = record_bytes(list[0]) + more;
        assert(dump.skip(record_bytes(list[0]).len() as int) =~= more);
        assert(seq![list[0]] + list.drop_first() =~= list);
    }
}

/// A dump whose sequence numbers follow on one another shows neither jumps nor
/// steps back.
pub proof fn law_an_unbroken_dump_shows_no_loss(list: Seq<RecordModel>)
    requires
        forall|i: int| 0 < i < list.len() ==> #[trigger] ahead(list, i) == 1,
    ensures
        jumps(list).len() == 0,
        count_where(list.len(), goes_back(list)) == 0,
    decreases list.len(),
{
    if list.len() > 0 {
        let shorter = list.drop_last();
        assert forall|i: int| 0 < i < shorter.len() implies #[trigger] ahead(shorter, i) == 1 by {
            assert(ahead(list, i) == 1);
        }
        law_an_unbroken_dump_shows_no_loss(shorter);
        lemma_count_agrees(shorter.len(), goes_back(list), goes_back(shorter));
        if list.len() > 1 {
            assert(ahead(list, list.len() - 1) == 1);
        }
    }
}

proof fn lemma_count_agrees(n: nat, a: spec_fn(int) -> bool, b: spec_fn(int) -> bool)
    requires
        forall|i: int| 0 <= i < n ==> #[trigger] a(i) == b(i),
    ensures
        count_where(n, a) == count_where(n, b),
    decreases n,
{
    if n > 0 {
        lemma_count_agrees((n - 1) as nat, a, b);
        assert(a(n - 1) == b(n - 1));
    }
}

/// The timestamps of some packets.
pub open spec fn timestamps(list: Seq<RecordModel>) -> Set<u32> {
    list.map_values(|r: RecordModel| r.timestamp).to_set()
}

/// The access units are the distinct timestamps.
pub proof fn law_access_units_are_distinct_timestamps(list: Seq<RecordModel>)
    ensures
        timestamps(list).finite(),
        count_where(list.len(), begins_unit(list)) == timestamps(list).len(),
    decreases list.len(),
{
    let stamps = list.map_values(|r: RecordModel| r.timestamp);
    if list.len() == 0 {
        assert(timestamps(list) =~= Set::<u32>::empty());
    } else {
        let n = list.len() - 1;
        let shorter = list.drop_last();
        let fewer = shorter.map_values(|r: RecordModel| r.timestamp);
        law_access_units_are_distinct_timestamps(shorter);
        assert forall|i: int| 0 <= i < n implies #[trigger] begins_unit(list)(i) == begins_unit(
            shorter,
        )(i) by {
            let t = list[i].timestamp;
            if stamped_before(list, i, t) {
                let j = choose|j: int| 0 <= j < i && (#[trigger] list[j]).timestamp == t;
                assert(shorter[j].timestamp == t);
            }
            if stamped_before(shorter, i, t) {
                let j = choose|j: int| 0 <= j < i && (#[trigger] shorter[j]).timestamp == t;
                assert(list[j].timestamp == t);
            }
        }
        lemma_count_agrees(n as nat, begins_unit(list), begins_unit(shorter));
        let last = list[n].timestamp;
        assert(timestamps(list) =~= timestamps(shorter).insert(last)) by {
            assert forall|t: u32| timestamps(list).contains(t) implies timestamps(shorter).insert(
                last,
            ).contains(t) by {
                let j = choose|j: int| 0 <= j < stamps.len() && stamps[j] == t;
                if j < n {
                    assert(fewer[j] == t);
                }
            }
            assert forall|t: u32| timestamps(shorter).insert(last).contains(t) implies timestamps(
                list,
            ).contains(t) by {
                if t == last {
                    assert(stamps[n] == t);
                } else {
                    let j = choose|j: int| 0 <= j < fewer.len() && fewer[j] == t;
                    assert(stamps[j] == t);
                }
            }
        }
        assert(timestamps(shorter).contains(last) == stamped_before(list, n, last)) by {
            if timestamps(shorter).contains(last) {
                let j = choose|j: int| 0 <= j < fewer.len() && fewer[j] == last;
                assert(list[j].timestamp == last);
            }
            if stamped_before(list, n, last) {
                let j = choose|j: int| 0 <= j < n && (#[trigger] list[j]).timestamp == last;
                assert(fewer[j] == last);
            }
        }
    }
}

/// A dump begins with the record that its first bytes lay out, high bytes first, any
/// byte but zero setting the marker, and goes on behind it. Where the payload is not
/// all there the dump ends early, and a rest that is shorter than a header is
/// nothing.
pub proof fn law_a_dump_begins_with_a_record(dump: Seq<u8>)
    ensures
        dump.len() < 11 ==> records(dump).len() == 0 && !ends_early(dump),
        dump.len() >= 11 ==> {
            let len = 16_777_216 * dump[7] + 65_536 * dump[8] + 256 * dump[9] + dump[10];
            let record = RecordModel {
                sequence_number: (256 * dump[0] + dump[1]) as u16,
                timestamp: (16_777_216 * dump[2] + 65_536 * dump[3] + 256 * dump[4]
                    + dump[5]) as u32,
                marker: dump[6] > 0,
                payload: dump.subrange(11, 11 + len),
            };
            &&& 11 + len > dump.len() ==> records(dump).len() == 0 && ends_early(dump)
            &&& 11 + len <= dump.len() ==> {
                &&& records(dump) == seq![record] + records(dump.skip(11 + len))
                &&& ends_early(dump) == ends_early(dump.skip(11 + len))
            }
        },
{
}

/// A dump that is cut off keeps the records before the cut, and ends early exactly
/// if the header of the record that was cut is still there.
pub proof fn law_a_cut_dump_keeps_what_is_whole(
    list: Seq<RecordModel>,
    record: RecordModel,
    kept: int,
)
    requires
        forall|i: int|
            0 <= i < list.len() ==> (#[trigger] list[i]).payload.len() < 0x1_0000_0000,
        record.payload.len() < 0x1_0000_0000,
        0 <= kept < 11 + record.payload.len(),
    ensures
        ({
            let dump = dump_of(list) + record_bytes(record).take(kept);
            &&& records(dump) == list
            &&& ends_early(dump) <==> kept >= 11
        }),
    decreases list.len(),
{
    let cut = record_bytes(record).take(kept);
    lemma_payload_reads_back(record, Seq::empty());
    if list.len() == 0 {
        assert(dump_of(list) + cut =~= cut);
        if kept >= 11 {
            lemma_length_reads_back(record, Seq::empty());
            assert(record_bytes(record) + Seq::<u8>::empty() =~= record_bytes(record));
            assert(be32(cut, 7) == be32(record_bytes(record), 7));
        }
        assert(records(cut) =~= list);
    } else {
        let more = dump_of(list.drop_first()) + cut;
        law_a_cut_dump_keeps_what_is_whole(list.drop_first(), record, kept);
        lemma_record_reads_back(list[0], more);
        lemma_payload_reads_back(list[0], more);
        let dump = record_bytes(list[0]) + more;
        assert(dump_of(list) + cut =~= dump);
        assert(dump.skip(record_bytes(list[0]).len() as int) =~= more);
        assert(seq![list[0]] + list.drop_first() =~= list);
    }
}

/// What one more packet adds to the count: a marker if it has one; and, by how far
/// its number is ahead of the one before, around the 16-bit wrap, a jump if that is
/// more than one and less than half a wrap, a step back if it is none or half a wrap
/// and more, and nothing if it is one.
pub proof fn law_one_more_packet_is_counted(list: Seq<RecordModel>, next: RecordModel)
    requires
        list.len() < u64::MAX,
    ensures
        ({
            let longer = list.push(next);
            let n = list.len();
            let by = (next.sequence_number - list.last().sequence_number) % 0x1_0000;
            let marks = count_where(n, marked(list));
            let steps = count_where(n, goes_back(list));
            &&& count_where(n + 1, marked(longer)) == if next.marker {
                marks + 1
            } else {
                marks
            }
            &&& n == 0 ==> jumps(longer).len() == 0 && count_where(n + 1, goes_back(longer)) == 0
            &&& n > 0 && by == 1 ==> jumps(longer) == jumps(list) && count_where(
                n + 1,
                goes_back(longer),
            ) == steps
            &&& n > 0 && 1 < by < 0x8000 ==> {
                &&& jumps(longer) == jumps(list).push(
                    Jump {
                        by: by as u16,
                        packet: (n + 1) as u64,
                        previous: list.last().sequence_number,
                        sequence_number: next.sequence_number,
                    },
                )
                &&& count_where(n + 1, goes_back(longer)) == steps
            }
            &&& n > 0 && (by == 0 || by >= 0x8000) ==> {
                &&& jumps(longer) == jumps(list)
                &&& count_where(n + 1, goes_back(longer)) == steps + 1
            }
        }),
        count_where(0, marked(list)) == 0,
        count_where(0, goes_back(list)) == 0,
        jumps(Seq::empty()).len() == 0,
{
    let longer = list.push(next);
    let n = list.len();
    assert(longer.drop_last() =~= list);
    assert forall|i: int| 0 <= i < n implies #[trigger] marked(longer)(i) == marked(list)(i) by {
        assert(longer[i] == list[i]);
    }
    assert forall|i: int| 0 <= i < n implies #[trigger] goes_back(longer)(i) == goes_back(list)(
        i,
    ) by {
        assert(longer[i] == list[i]);
        if i > 0 {
            assert(longer[i - 1] == list[i - 1]);
        }
    }
    lemma_count_agrees(n, marked(longer), marked(list));
    lemma_count_agrees(n, goes_back(longer), goes_back(list));
}

/// The packets of a dump are fed as they are, in their order.
pub proof fn law_packets_are_fed_as_dumped(list: Seq<RecordModel>, i: int)
    requires
        0 <= i < list.len(),
    ensures
        packets_of(list).len() == list.len(),
        packets_of(list)[i].sequence_number == list[i].sequence_number,
        packets_of(list)[i].timestamp == list[i].timestamp,
        packets_of(list)[i].payload == list[i].payload,
{
}

/// A unit is counted behind each start code, of three bytes or four, by the type
/// that its header gives: as a picture up to type 31, as a delimiter at type 35.
/// Where no start code stands the next byte is looked at, and the last four bytes
/// hold no unit.
pub proof fn law_units_stand_behind_start_codes(
    first: u8,
    header: u8,
    rest: Seq<u8>,
    wanted: spec_fn(int) -> bool,
)
    requires
        rest.len() > 0,
    ensures
        ({
            let unit = seq![header] + rest;
            let one: nat = if wanted(header as int / 2 % 64) {
                1
            } else {
                0
            };
            &&& units_of(seq![0u8, 0, 0, 1] + unit, wanted) == units_of(unit, wanted) + one
            &&& units_of(seq![0u8, 0, 1] + unit, wanted) == units_of(unit, wanted) + one
        }),
        first != 0 && rest.len() >= 4 ==> units_of(seq![first] + rest, wanted) == units_of(
            rest,
            wanted,
        ),
        rest.len() <= 4 ==> units_of(rest, wanted) == 0,
        picture_units()(header as int / 2 % 64) <==> header as int / 2 % 64 < 32,
        delimiter_units()(header as int / 2 % 64) <==> header as int / 2 % 64 == 35,
{
    let unit = seq![header] + rest;
    let long = seq![0u8, 0, 0, 1] + unit;
    let short = seq![0u8, 0, 1] + unit;
    let other = seq![first] + rest;
    assert(long[0] == 0 && long[1] == 0 && long[2] == 0 && long[3] == 1 && long[4] == header);
    assert(short[0] == 0 && short[1] == 0 && short[2] == 1 && short[3] == header);
    assert(long.skip(4) =~= unit);
    assert(short.skip(3) =~= unit);
    assert(other[0] == first);
    assert(other.skip(1) =~= rest);
}

/// Zeros that do not lead to a one are no start code: the search goes on behind the
/// first of them.
pub proof fn law_zeros_alone_are_no_start_code(stream: Seq<u8>, wanted: spec_fn(int) -> bool)
    requires
        stream.len() > 4,
        stream[0] != 0 || stream[1] != 0 || stream[2] > 1 || (stream[2] == 0 && stream[3] != 1),
    ensures
        units_of(stream, wanted) == units_of(stream.skip(1), wanted),
{
}

/// Records are taken as they are and in their order.
pub proof fn law_records_say_what_they_hold(list: Seq<Record>, i: int)
    ensures
        records_view(list).len() == list.len(),
        0 <= i < list.len() ==> {
            &&& records_view(list)[i].sequence_number == list[i].sequence_number
            &&& records_view(list)[i].timestamp == list[i].timestamp
            &&& records_view(list)[i].marker == list[i].marker
            &&& records_view(list)[i].payload == list[i].payload@
        },
{
}

} // verus!
