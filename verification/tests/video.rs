use devicehub::rtcp::{RtcpPeer, RtcpShared};
use devicehub::stats::RtpStats;
use devicehub::video::{DatagramOutcome, VideoReceiver, VideoStep, SSRC_TAKEOVER_GRACE};

fn rtp(seq: u16, ts: u32, ssrc: u32, marker: bool, payload: &[u8]) -> Vec<u8> {
    let mut p = vec![0x80, if marker { 0x80 | 100 } else { 100 }];
    p.extend_from_slice(&seq.to_be_bytes());
    p.extend_from_slice(&ts.to_be_bytes());
    p.extend_from_slice(&ssrc.to_be_bytes());
    p.extend_from_slice(payload);
    p
}

/// A slice of an ordinary picture.
const SLICE: [u8; 3] = [0x02, 0x01, 0xAA];

fn media(outcome: DatagramOutcome) -> VideoStep {
    match outcome {
        DatagramOutcome::Media(step) => step,
        other => panic!("not a packet that counts: {other:?}"),
    }
}

#[test]
fn rtcp_on_the_rtp_port_is_noted() {
    let mut receiver = VideoReceiver::new(1, false, 0);
    let mut shared = RtcpShared::new();
    let report = [0x80, 201, 0, 1, 0, 0, 0, 1];
    let outcome = receiver.on_datagram(&mut shared, &report, 4000, 7);
    assert!(matches!(outcome, DatagramOutcome::Control));
    assert_eq!(shared.peer, RtcpPeer::Mux(4000));
    assert!(!shared.stats.initialized);
}

#[test]
fn what_is_no_packet_is_ignored() {
    let mut receiver = VideoReceiver::new(1, false, 0);
    let mut shared = RtcpShared::new();
    let mut old_version = rtp(1, 1, 1, false, &SLICE);
    old_version[0] = 0x40;
    for data in [&[][..], &[0x80], &[0x80; 11], &old_version] {
        let outcome = receiver.on_datagram(&mut shared, data, 1, 0);
        assert!(matches!(outcome, DatagramOutcome::Malformed));
    }
    assert!(shared.media_ssrc.is_none());
}

#[test]
fn a_packet_is_counted_and_fed() {
    let mut receiver = VideoReceiver::new(1, false, 0);
    let mut shared = RtcpShared::new();
    let data = rtp(10, 500, 7, true, &SLICE);
    let step = media(receiver.on_datagram(&mut shared, &data, 1, 0));
    assert_eq!((step.ssrc, step.keyframe, step.migrated_from), (7, false, None));
    assert!(step.ack.is_none());
    assert_eq!(step.output, [0, 0, 0, 1, 0x02, 0x01, 0xAA]);
    assert_eq!((shared.media_ssrc, shared.frames), (Some(7), 1));
    assert_eq!((shared.stats.base_seq, shared.stats.received), (10, 1));
}

#[test]
fn the_outputs_make_up_the_stream_in_order() {
    let mut receiver = VideoReceiver::new(1, false, 0);
    let mut shared = RtcpShared::new();
    let mut out = Vec::new();
    for seq in [1u16, 3, 2] {
        let data = rtp(seq, 500, 7, false, &[0x02, 0x01, seq as u8]);
        out.extend(media(receiver.on_datagram(&mut shared, &data, 1, 0)).output);
    }
    assert_eq!(
        out,
        [0, 0, 0, 1, 2, 1, 1, 0, 0, 0, 1, 2, 1, 2, 0, 0, 0, 1, 2, 1, 3]
    );
}

#[test]
fn header_extras_and_padding_are_left_out() {
    let mut receiver = VideoReceiver::new(1, false, 0);
    let mut shared = RtcpShared::new();
    let mut data = rtp(1, 1, 7, false, &[]);
    data[0] = 0x80 | 0x20 | 0x10 | 1;
    data.extend_from_slice(&[9, 9, 9, 9]);
    data.extend_from_slice(&[0xBE, 0xDE, 0, 1, 5, 5, 5, 5]);
    data.extend_from_slice(&SLICE);
    data.extend_from_slice(&[0, 0, 3]);
    let step = media(receiver.on_datagram(&mut shared, &data, 1, 0));
    assert_eq!(step.output, [0, 0, 0, 1, 0x02, 0x01, 0xAA]);
}

#[test]
fn a_competing_source_waits_for_silence() {
    let mut receiver = VideoReceiver::new(1, false, 0);
    let mut shared = RtcpShared::new();
    let from = |ssrc: u32, seq: u16| rtp(seq, 1, ssrc, false, &SLICE);
    media(receiver.on_datagram(&mut shared, &from(7, 1), 1, 0));
    let early = receiver
        .on_datagram(&mut shared, &from(8, 100), 1, SSRC_TAKEOVER_GRACE - 1);
    assert!(matches!(early, DatagramOutcome::Competing { ssrc: 8, keyframe: false }));
    assert_eq!((shared.media_ssrc, shared.stats.received), (Some(7), 1));
    let late = receiver
        .on_datagram(&mut shared, &from(8, 100), 1, SSRC_TAKEOVER_GRACE);
    let step = media(late);
    assert_eq!((step.ssrc, step.migrated_from), (8, Some(7)));
    assert_eq!(step.output, [0, 0, 0, 1, 0x02, 0x01, 0xAA]);
    assert_eq!((shared.media_ssrc, shared.stats.base_seq), (Some(8), 100));
    assert_eq!(shared.stats.received, 1);
}

#[test]
fn a_source_that_is_heard_keeps_the_lock() {
    let mut receiver = VideoReceiver::new(1, false, 0);
    let mut shared = RtcpShared::new();
    let step = SSRC_TAKEOVER_GRACE / 2;
    for i in 0..10u16 {
        let now = step * i as u64;
        let ours = rtp(i, 1, 7, false, &SLICE);
        media(receiver.on_datagram(&mut shared, &ours, 1, now));
        let stray = rtp(i, 1, 8, false, &SLICE);
        let outcome = receiver.on_datagram(&mut shared, &stray, 1, now + 1);
        assert!(matches!(outcome, DatagramOutcome::Competing { ssrc: 8, .. }));
    }
    assert_eq!(shared.stats.received, 10);
}

#[test]
fn keyframes_are_recognised() {
    let cases: [(&[u8], bool); 8] = [
        (&[19 << 1, 1, 0], true),
        (&[16 << 1, 1], true),
        (&[24 << 1, 1, 0], false),
        (&[49 << 1, 1, 0x80 | 19], true),
        (&[49 << 1, 1, 19], false),
        (&[49 << 1, 1, 0x80 | 1], false),
        (&[49 << 1, 1], false),
        (&[19 << 1], false),
    ];
    for (payload, keyframe) in cases {
        let mut receiver = VideoReceiver::new(1, false, 0);
        let mut shared = RtcpShared::new();
        let data = rtp(1, 1, 7, false, payload);
        let step = media(receiver.on_datagram(&mut shared, &data, 1, 0));
        assert_eq!(step.keyframe, keyframe, "{payload:?}");
    }
}

#[test]
fn only_whole_frames_are_acknowledged() {
    let mut receiver = VideoReceiver::new(0x0102_0304, true, 0);
    let mut shared = RtcpShared::new();
    let mut send = |seq: u16, ts: u32, marker: bool| {
        let data = rtp(seq, ts, 7, marker, &SLICE);
        media(receiver.on_datagram(&mut shared, &data, 1, 0)).ack
    };
    // The first frame is taken on trust.
    assert_eq!(
        send(5, 0x0A0B_0C0D, true).unwrap(),
        [0x80, 204, 0, 3, 1, 2, 3, 4, 0, 0, 0, 5, 0x0A, 0x0B, 0x0C, 0x0D]
    );
    assert!(send(6, 2, false).is_none());
    assert!(send(7, 2, true).is_some());
    // Packet 8 is missing.
    assert!(send(9, 3, false).is_none());
    assert!(send(10, 3, true).is_none());
    assert!(send(11, 4, true).is_some());
    // Repeated packets do not make up for packet 13.
    assert!(send(12, 5, false).is_none());
    assert!(send(12, 5, false).is_none());
    assert!(send(14, 5, true).is_none());
    // Nor does their order matter.
    assert!(send(16, 6, false).is_none());
    assert!(send(15, 6, false).is_none());
    assert!(send(15, 6, false).is_none());
    assert!(send(17, 6, true).is_some());
}

#[test]
fn a_late_packet_does_not_stop_the_stream() {
    let mut receiver = VideoReceiver::new(1, false, 0);
    let mut shared = RtcpShared::new();
    for seq in [5u16, 65530, 6] {
        let data = rtp(seq, 1, 7, false, &SLICE);
        media(receiver.on_datagram(&mut shared, &data, 1, 0));
    }
    assert_eq!((shared.stats.ext_max, shared.stats.received), (6, 3));
}

#[test]
fn full_counters_do_not_stop_the_stream() {
    let mut receiver = VideoReceiver::new(1, false, 0);
    let mut shared = RtcpShared::new();
    media(receiver.on_datagram(&mut shared, &rtp(1, 1, 7, false, &SLICE), 1, 0));
    shared.stats = RtpStats { received: u32::MAX, ..shared.stats };
    let step = media(receiver.on_datagram(&mut shared, &rtp(2, 1, 7, false, &SLICE), 1, 0));
    assert_eq!(step.output, [0, 0, 0, 1, 0x02, 0x01, 0xAA]);
    assert_eq!(shared.stats.ext_max, 2);
}

#[test]
fn frames_are_whole_across_the_wrap() {
    let mut receiver = VideoReceiver::new(1, true, 0);
    let mut shared = RtcpShared::new();
    let mut send = |seq: u16, marker: bool| {
        let data = rtp(seq, 1, 7, marker, &SLICE);
        media(receiver.on_datagram(&mut shared, &data, 1, 0)).ack.is_some()
    };
    assert!(send(65534, true));
    assert!(!send(65535, false));
    assert!(!send(0, false));
    assert!(send(1, true));
    assert!(!send(3, true));
}
