use devicehub::replay::{
    count_units, depacketize, dropped_frames, read_dump, survey, Jump, Record,
};

fn record(seq: u16, ts: u32, marker: u8, payload: &[u8]) -> Vec<u8> {
    let mut r = seq.to_be_bytes().to_vec();
    r.extend_from_slice(&ts.to_be_bytes());
    r.push(marker);
    r.extend_from_slice(&(payload.len() as u32).to_be_bytes());
    r.extend_from_slice(payload);
    r
}

fn plain(seq: u16, ts: u32) -> Record {
    Record { sequence_number: seq, timestamp: ts, marker: false, payload: vec![2, 1, 9] }
}

#[test]
fn a_dump_reads_back() {
    let dump = [record(1, 0x0102_0304, 0, b"abc"), record(0xfffe, 7, 2, b"")].concat();
    let (list, early) = read_dump(&dump);
    assert!(!early);
    assert_eq!(list.len(), 2);
    assert_eq!((list[0].sequence_number, list[0].timestamp), (1, 0x0102_0304));
    assert!(!list[0].marker && list[0].payload == b"abc");
    assert_eq!((list[1].sequence_number, list[1].timestamp), (0xfffe, 7));
    assert!(list[1].marker && list[1].payload.is_empty());
}

#[test]
fn a_truncated_dump_keeps_its_head() {
    let mut dump = record(1, 1, 0, b"abc");
    dump.extend(record(2, 1, 0, b"defg"));
    let (list, early) = read_dump(&dump[..dump.len() - 1]);
    assert!(early);
    assert_eq!(list.len(), 1);
    // Less than a header at the end is passed over.
    let (list, early) = read_dump(&dump[..14 + 10]);
    assert!(!early);
    assert_eq!(list.len(), 1);
    let (list, early) = read_dump(&[]);
    assert!(!early && list.is_empty());
    let (list, early) = read_dump(&record(1, 1, 0, &[])[..11]);
    assert!(!early && list.len() == 1);
}

#[test]
fn arrivals_are_surveyed() {
    let mut list = vec![plain(65534, 1), plain(65535, 1), plain(2, 2), plain(2, 2), plain(1, 3)];
    list[1].marker = true;
    let found = survey(&list);
    assert_eq!((found.packets, found.markers), (5, 1));
    assert_eq!((found.backwards, found.access_units), (2, 3));
    assert_eq!(
        found.jumps,
        [Jump { by: 3, packet: 3, previous: 65535, sequence_number: 2 }]
    );
}

#[test]
fn half_a_wrap_counts_as_backwards() {
    let found = survey(&vec![plain(0, 1), plain(0x8000, 1)]);
    assert_eq!((found.backwards, found.jumps.len()), (1, 0));
    let found = survey(&vec![plain(0, 1), plain(0x7fff, 1)]);
    assert_eq!((found.backwards, found.jumps.len()), (0, 1));
}

#[test]
fn an_unbroken_dump_shows_no_loss() {
    let list: Vec<Record> = (0..10u16).map(|i| plain(65530u16.wrapping_add(i), 1)).collect();
    let found = survey(&list);
    assert_eq!((found.backwards, found.jumps.len(), found.access_units), (0, 0, 1));
    let found = survey(&vec![]);
    assert_eq!((found.packets, found.access_units), (0, 0));
}

#[test]
fn access_units_are_distinct_timestamps() {
    let found = survey(&vec![plain(1, 1), plain(2, 2), plain(3, 1), plain(4, 2), plain(5, 3)]);
    assert_eq!(found.access_units, 3);
}

#[test]
fn the_stream_is_rebuilt_and_counted() {
    let list = vec![plain(1, 1), plain(2, 2), plain(3, 2)];
    let out = depacketize(&list);
    let slice = [0, 0, 0, 1, 2, 1, 9];
    let delimiter = [0, 0, 0, 1, 0x46, 0x01, 0x50];
    assert_eq!(out, [slice, delimiter, slice, slice].concat());
    assert_eq!(count_units(&out), (3, 1));
    assert!(depacketize(&vec![]).is_empty());
}

#[test]
fn units_are_found_by_their_start_codes() {
    assert_eq!(count_units(&[]), (0, 0));
    assert_eq!(count_units(&[0, 0, 1, 2, 1, 9]), (1, 0));
    assert_eq!(count_units(&[0, 0, 1, 0x46, 1]), (0, 1));
    // Four bytes are too few to look at.
    assert_eq!(count_units(&[0, 0, 1, 2]), (0, 0));
    assert_eq!(count_units(&[9, 0, 0, 0, 1, 0x40, 0, 0, 1, 0x3E, 0]), (1, 0));
}

#[test]
fn dropped_frames_are_those_that_did_not_come_out() {
    assert_eq!(dropped_frames(10, 7), 3);
    assert_eq!(dropped_frames(7, 7), 0);
    assert_eq!(dropped_frames(7, 20), 0);
}
