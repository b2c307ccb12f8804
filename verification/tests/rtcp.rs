use devicehub::rtcp::{
    delay_in_units, endpoint_cname, route, Outgoing, RtcpPeer, RtcpSender, RtcpShared, Socket,
    KEYFRAME_DEBOUNCE,
};
use devicehub::stats::RtpStats;

fn sender_report(ssrc: u32, ntp_middle: u32) -> Vec<u8> {
    let mut p = vec![0x80, 200, 0, 6];
    p.extend_from_slice(&ssrc.to_be_bytes());
    p.extend_from_slice(&[0xAA, 0xBB]);
    p.extend_from_slice(&ntp_middle.to_be_bytes());
    p.extend_from_slice(&[0xCC, 0xDD]);
    p.extend_from_slice(&[0; 12]);
    p
}

fn receiver_report() -> Vec<u8> {
    vec![0x80, 201, 0, 1, 0, 0, 0, 1]
}

fn destinations(sent: &[Outgoing]) -> Vec<(Socket, u16)> {
    sent.iter().map(|o| (o.socket, o.port)).collect()
}

fn sender(rtcp_socket: bool, send_rctl: bool) -> RtcpSender {
    RtcpSender::new(0x0102_0304, "ab".to_string(), rtcp_socket, send_rctl)
}

#[test]
fn the_relative_highest_number_keeps_16_bits() {
    let mut shared = RtcpShared::new();
    assert_eq!(shared.highest_seq_rel(), 0);
    for seq in [65534u16, 65535, 0, 5] {
        shared.stats.on_packet(seq);
    }
    assert_eq!(shared.highest_seq_rel(), 7);
    shared.stats = RtpStats { ext_max: 65534 + 0x1_0003, ..shared.stats };
    assert_eq!(shared.highest_seq_rel(), 3);
}

#[test]
fn inbound_rtcp_shows_where_replies_go() {
    let mut shared = RtcpShared::new();
    shared.note_inbound(&receiver_report(), 4000, false, 1);
    assert_eq!(shared.peer, RtcpPeer::Mux(4000));
    assert!(shared.sr_echo.is_none() && shared.media_ssrc.is_none());
    shared.note_inbound(&receiver_report(), 4001, true, 2);
    assert_eq!(shared.peer, RtcpPeer::Separate(4001));
}

#[test]
fn a_sender_report_is_kept_for_the_echo() {
    let mut shared = RtcpShared::new();
    let mut compound = receiver_report();
    compound.extend(sender_report(77, 0x1234_5678));
    shared.note_inbound(&compound, 4000, false, 5);
    let echo = shared.sr_echo.unwrap();
    assert_eq!((echo.ntp_middle, echo.received_at), (0x1234_5678, 5));
    assert_eq!(shared.media_ssrc, Some(77));
    // A source that is known stays.
    shared.note_inbound(&sender_report(78, 1), 4000, false, 6);
    assert_eq!(shared.media_ssrc, Some(77));
}

#[test]
fn the_separate_socket_takes_only_rtcp() {
    let mut shared = RtcpShared::new();
    shared.on_rtcp_datagram(&[0x80, 100, 0, 0], 4000, 1);
    assert_eq!(shared.peer, RtcpPeer::Unknown);
    shared.on_rtcp_datagram(&[0x80], 4000, 1);
    assert_eq!(shared.peer, RtcpPeer::Unknown);
    shared.on_rtcp_datagram(&receiver_report(), 4000, 1);
    assert_eq!(shared.peer, RtcpPeer::Separate(4000));
}

#[test]
fn blocks_wait_for_a_source() {
    let mut shared = RtcpShared::new();
    shared.stats.on_packet(3);
    assert!(shared.report_blocks(0).is_empty());
    assert_eq!(shared.stats.received_prior, 0);
    shared.media_ssrc = Some(9);
    let blocks = shared.report_blocks(0);
    assert_eq!(blocks.len(), 1);
    assert_eq!((blocks[0].source_ssrc, blocks[0].highest_seq), (9, 3));
    assert_eq!((blocks[0].lsr, blocks[0].dlsr), (0, 0));
    assert_eq!(shared.stats.received_prior, 1);
}

#[test]
fn blocks_echo_the_sender_report() {
    let mut shared = RtcpShared::new();
    shared.note_inbound(&sender_report(9, 42), 1, false, 1_000_000_000);
    let blocks = shared.report_blocks(3_500_000_000);
    assert_eq!((blocks[0].lsr, blocks[0].dlsr), (42, 163_840));
    // A clock that has not moved on gives no delay.
    assert_eq!(shared.report_blocks(0)[0].dlsr, 0);
}

#[test]
fn delays_agree_with_floating_point() {
    for nanos in [
        0u64,
        1,
        15_258,
        15_259,
        999_999_999,
        1_000_000_000,
        1_234_567_891,
        65_535_999_999_999,
        65_536_000_000_000,
        u64::MAX,
    ] {
        let float = (std::time::Duration::from_nanos(nanos).as_secs_f64() * 65536.0) as u32;
        assert_eq!(delay_in_units(nanos), float, "{nanos}");
    }
    assert_eq!(delay_in_units(500_000_000), 32768);
}

#[test]
fn packets_are_routed_by_what_was_seen() {
    let packet = || vec![1, 2, 3];
    assert_eq!(destinations(&route(RtcpPeer::Mux(7), true, packet())), [(Socket::Rtp, 7)]);
    assert_eq!(
        destinations(&route(RtcpPeer::Separate(7), true, packet())),
        [(Socket::Rtcp, 7)]
    );
    assert!(route(RtcpPeer::Separate(7), false, packet()).is_empty());
    let both = route(RtcpPeer::Unknown, true, packet());
    assert_eq!(destinations(&both), [(Socket::Rtp, 50001), (Socket::Rtcp, 50002)]);
    assert!(both.iter().all(|o| o.packet == [1, 2, 3]));
    assert_eq!(
        destinations(&route(RtcpPeer::Unknown, false, packet())),
        [(Socket::Rtp, 50001)]
    );
}

#[test]
fn the_liveness_report_is_laid_out() {
    let mut shared = RtcpShared::new();
    let sent = sender(false, false).on_report_tick(&mut shared, 0);
    assert_eq!(sent.len(), 1);
    let report = [0x80, 201, 0, 1, 1, 2, 3, 4];
    let description = [0x81, 202, 0, 3, 1, 2, 3, 4, 1, 2, b'a', b'b', 0, 0, 0, 0];
    assert_eq!(sent[0].packet, [&report[..], &description[..]].concat());
}

#[test]
fn the_report_carries_the_block() {
    let mut shared = RtcpShared::new();
    shared.note_inbound(&sender_report(0x0A0B_0C0D, 0x1122_3344), 4000, false, 0);
    for seq in [1u16, 2, 4] {
        shared.stats.on_packet(seq);
    }
    let sent = sender(true, false).on_report_tick(&mut shared, 1_000_000_000);
    assert_eq!(destinations(&sent), [(Socket::Rtp, 4000)]);
    let block = [
        0x0A, 0x0B, 0x0C, 0x0D, 64, 0, 0, 1, 0, 0, 0, 4, 0, 0, 0, 0, 0x11, 0x22, 0x33, 0x44, 0, 1,
        0, 0,
    ];
    assert_eq!(&sent[0].packet[..8], &[0x81, 201, 0, 7, 1, 2, 3, 4]);
    assert_eq!(&sent[0].packet[8..32], &block);
    assert_eq!(shared.stats.received_prior, 3);
}

#[test]
fn a_keyframe_is_requested_of_a_known_source() {
    let mut shared = RtcpShared::new();
    let mut sender = sender(false, false);
    assert!(sender.on_corruption(&mut shared, 0).is_none());
    assert_eq!((sender.fir_seq, sender.last_request), (0, None));
    shared.media_ssrc = Some(0x0A0B_0C0D);
    let sent = sender.on_corruption(&mut shared, 7).unwrap();
    assert_eq!((sender.fir_seq, sender.last_request), (1, Some(7)));
    let loss = [0x81, 206, 0, 2, 1, 2, 3, 4, 0x0A, 0x0B, 0x0C, 0x0D];
    let intra = [
        0x84, 206, 0, 4, 1, 2, 3, 4, 0, 0, 0, 0, 0x0A, 0x0B, 0x0C, 0x0D, 1, 0, 0, 0,
    ];
    let packet = &sent[0].packet;
    assert_eq!(&packet[packet.len() - 32..], [&loss[..], &intra[..]].concat());
    sender.fir_seq = 255;
    assert!(sender.on_corruption(&mut shared, 7 + KEYFRAME_DEBOUNCE).is_some());
    assert_eq!(sender.fir_seq, 0);
}

#[test]
fn a_burst_yields_one_request() {
    let mut shared = RtcpShared::new();
    shared.media_ssrc = Some(9);
    shared.stats.on_packet(1);
    let mut sender = sender(false, false);
    let start = 10_000_000_000;
    assert!(sender.on_corruption(&mut shared, start).is_some());
    shared.stats.on_packet(2);
    for after in [0, 1, 700_000_000, KEYFRAME_DEBOUNCE - 1] {
        assert!(sender.on_corruption(&mut shared, start + after).is_none());
    }
    // An ignored trigger leaves the report interval alone.
    assert_eq!((sender.fir_seq, shared.stats.received_prior), (1, 1));
    assert!(sender.on_corruption(&mut shared, start + 1_500_000_000).is_some());
    assert_eq!((sender.fir_seq, shared.stats.received_prior), (2, 2));
}

#[test]
fn the_control_report_is_an_experiment() {
    let mut shared = RtcpShared::new();
    assert!(sender(false, true).on_rctl_tick(&shared, 0).is_none());
    shared.media_ssrc = Some(1);
    assert!(sender(false, false).on_rctl_tick(&shared, 0).is_none());
    shared.frames = 0x1_0203;
    shared.stats.on_packet(10);
    shared.stats.on_packet(0x0416);
    let sent = sender(false, true).on_rctl_tick(&shared, 66_050_999_999).unwrap();
    assert_eq!(
        sent[0].packet,
        [
            0x80, 204, 0, 7, 1, 2, 3, 4, b'R', b'C', b'T', b'L', 0x85, 0, 0, 4, 2, 3, 0, 0, 0, 0,
            0, 0, 0x02, 0x02, 0, 0, 0x04, 0x0C, 0, 0,
        ]
    );
}

#[test]
fn the_endpoint_has_a_name() {
    assert_eq!(endpoint_cname("fd00::1"), "devicehub@fd00::1");
}
