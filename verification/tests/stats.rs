use devicehub::stats::{ReportBlock, RtpStats};

fn after(seqs: &[u16]) -> RtpStats {
    let mut stats = RtpStats::new();
    for &seq in seqs {
        stats.on_packet(seq);
    }
    stats
}

#[test]
fn the_first_packet_sets_the_base() {
    let stats = after(&[500]);
    assert!(stats.initialized);
    assert_eq!((stats.base_seq, stats.ext_max, stats.received), (500, 500, 1));
}

#[test]
fn a_wrap_is_followed_both_ways() {
    let stats = after(&[0xfffe, 0xffff, 0x0000, 0x0001]);
    assert_eq!(stats.ext_max, 0x1_0001);
    // A late packet from before the wrap does not raise the highest number.
    let stats = after(&[0xfffe, 0x0001, 0xffff]);
    assert_eq!((stats.ext_max, stats.received), (0x1_0001, 3));
}

#[test]
fn half_a_wrap_is_the_watershed() {
    assert_eq!(after(&[0, 0x7fff]).ext_max, 0x7fff);
    assert_eq!(after(&[0x8000, 0]).ext_max, 0x1_0000);
    assert_eq!(after(&[0x7fff, 0]).ext_max, 0x7fff);
}

#[test]
fn a_late_packet_from_before_the_first_is_not_the_highest() {
    let stats = after(&[5, 65530]);
    assert_eq!((stats.base_seq, stats.ext_max, stats.received), (5, 5, 2));
    assert_eq!(after(&[0, 0xffff]).ext_max, 0);
    assert_eq!(after(&[5, 65530, 6]).ext_max, 6);
}

#[test]
fn reordered_and_repeated_packets_are_counted() {
    let stats = after(&[10, 12, 11, 11, 13]);
    assert_eq!((stats.base_seq, stats.ext_max, stats.received), (10, 13, 5));
}

#[test]
fn full_counters_go_on() {
    let mut full = RtpStats { received: u32::MAX, ..after(&[7]) };
    full.on_packet(8);
    assert_eq!((full.ext_max, full.received), (8, 0));
    let mut last = RtpStats { ext_max: 0xffff_fff0, ..after(&[7]) };
    last.on_packet(3);
    assert_eq!((last.ext_max, last.received), (0xffff_fff0, 2));
    last.on_packet(0xfff1);
    assert_eq!(last.ext_max, 0xffff_fff1);
}

#[test]
fn a_complete_stream_reports_no_loss() {
    let seqs: Vec<u16> = (0..100u16).map(|i| 65500u16.wrapping_add(i)).collect();
    let block = after(&seqs).report_block(9, 7, 8);
    assert_eq!(
        block,
        ReportBlock {
            source_ssrc: 9,
            fraction_lost: 0,
            cumulative_lost: 0,
            highest_seq: 65599,
            jitter: 0,
            lsr: 7,
            dlsr: 8,
        }
    );
}

#[test]
fn loss_is_reported_once_per_interval() {
    let mut stats = after(&[1, 2, 4]);
    let first = stats.report_block(1, 0, 0);
    assert_eq!((first.fraction_lost, first.cumulative_lost), (64, 1));
    let second = stats.report_block(1, 0, 0);
    assert_eq!((second.fraction_lost, second.cumulative_lost), (0, 1));
    assert_eq!(ReportBlock { fraction_lost: 0, ..first }, second);
}

#[test]
fn the_fraction_rounds_down() {
    // Two of three packets lost.
    let mut stats = RtpStats { ext_max: 3, ..after(&[1]) };
    assert_eq!(stats.report_block(1, 0, 0).fraction_lost, 170);
}

#[test]
fn a_total_loss_does_not_fit_the_fraction() {
    let mut stats = RtpStats { ext_max: 10, received: 0, ..after(&[1]) };
    let block = stats.report_block(1, 0, 0);
    assert_eq!((block.fraction_lost, block.cumulative_lost), (0, 10));
}

#[test]
fn the_loss_keeps_24_bits() {
    let mut stats = RtpStats { ext_max: 0x0200_0002, ..after(&[0]) };
    let block = stats.report_block(1, 0, 0);
    assert_eq!(block.cumulative_lost, 2);
    // 0x0200_0002 packets lost: the product keeps 32 bits.
    assert_eq!(block.fraction_lost, (0x0000_0200u32 / 0x0200_0003) as u8);
}

#[test]
fn more_packets_than_expected_is_no_loss() {
    let mut stats = after(&[5, 5, 5, 6]);
    let block = stats.report_block(1, 0, 0);
    assert_eq!((block.fraction_lost, block.cumulative_lost), (0, 0));
}
