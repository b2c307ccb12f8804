//! RTCP packets on the wire (RFC 3550, RFC 4585, RFC 5104).
use vstd::prelude::*;
use vstd::utf8::encode_utf8;

use crate::stats::ReportBlock;
use crate::wire::{be16, be16_bytes, be32, be32_bytes};

verus! {

/// RTCP packet types.
pub const SENDER_REPORT: u8 = 200;

pub const RECEIVER_REPORT: u8 = 201;

pub const SOURCE_DESCRIPTION: u8 = 202;

pub const APPLICATION: u8 = 204;

pub const PAYLOAD_FEEDBACK: u8 = 206;

/// The part of a Sender Report that a receiver echoes.
#[derive(Debug, Clone, Copy, PartialEq, Eq, Structural)]
pub struct SenderReport {
    pub ssrc: u32,
    /// Middle 32 bits of the 64-bit NTP timestamp.
    pub ntp_middle: u32,
}

/// Whether a datagram holds RTCP rather than RTP: its second byte is one of the
/// RTCP packet types.
pub open spec fn holds_rtcp(buf: Seq<u8>) -> bool {
    buf.len() >= 2 && SENDER_REPORT <= buf[1] <= PAYLOAD_FEEDBACK
}

/// The first Sender Report of a compound packet. Each sub-packet gives its own
/// length in words, less one; the search ends at one that does not fit.
pub open spec fn first_sender_report(buf: Seq<u8>) -> Option<SenderReport>
    decreases buf.len(),
{
    let len = 4 * (be16(buf, 2) + 1);
    if buf.len() < 4 || len > buf.len() {
        None
    } else if buf[1] == SENDER_REPORT && len >= 16 {
        Some(
            SenderReport {
                ssrc: be32(buf, 4) as u32,
                ntp_middle: be32(buf, 10) as u32,
            },
        )
    } else {
        first_sender_report(buf.skip(len))
    }
}

/// One RTCP packet: its first byte (version 2 and a count or format), its type,
/// its length in words less one, and its body.
pub open spec fn rtcp_packet(first: int, kind: u8, body: Seq<u8>) -> Seq<u8> {
    seq![first as u8, kind] + be16_bytes(body.len() as int / 4) + body
}

/// The 24 bytes of a report block.
pub open spec fn block_bytes(b: ReportBlock) -> Seq<u8> {
    be32_bytes(b.source_ssrc as int) + seq![b.fraction_lost] + be32_bytes(
        b.cumulative_lost as int,
    ).skip(1) + be32_bytes(b.highest_seq as int) + be32_bytes(b.jitter as int) + be32_bytes(
        b.lsr as int,
    ) + be32_bytes(b.dlsr as int)
}

/// The bytes of several report blocks.
pub open spec fn blocks_bytes(blocks: Seq<ReportBlock>) -> Seq<u8>
    decreases blocks.len(),
{
    if blocks.len() == 0 {
        Seq::empty()
    } else {
        blocks_bytes(blocks.drop_last()) + block_bytes(blocks.last())
    }
}

/// A Receiver Report; it has room for 31 blocks.
pub open spec fn receiver_report(our_ssrc: u32, blocks: Seq<ReportBlock>) -> Seq<u8> {
    let sent = if blocks.len() > 31 {
        blocks.take(31)
    } else {
        blocks
    };
    rtcp_packet(
        0x80 + sent.len() as int,
        RECEIVER_REPORT,
        be32_bytes(our_ssrc as int) + blocks_bytes(sent),
    )
}

/// A source description of one chunk with one item, the canonical name, of which
/// at most 255 bytes are sent. A zero ends the items, and zeros fill the word.
pub open spec fn source_description(our_ssrc: u32, cname: Seq<u8>) -> Seq<u8> {
    let text = if cname.len() > 255 {
        cname.take(255)
    } else {
        cname
    };
    let items = seq![1u8, text.len() as u8] + text + seq![0u8];
    let fill = Seq::new(((4 - items.len() % 4) % 4) as nat, |i: int| 0u8);
    rtcp_packet(0x81, SOURCE_DESCRIPTION, be32_bytes(our_ssrc as int) + items + fill)
}

/// A compound report that tells the sender that its receiver is alive.
pub open spec fn liveness(our_ssrc: u32, cname: Seq<char>, blocks: Seq<ReportBlock>) -> Seq<u8> {
    receiver_report(our_ssrc, blocks) + source_description(our_ssrc, encode_utf8(cname))
}

/// A Picture Loss Indication.
pub open spec fn picture_loss(our_ssrc: u32, media_ssrc: u32) -> Seq<u8> {
    rtcp_packet(
        0x81,
        PAYLOAD_FEEDBACK,
        be32_bytes(our_ssrc as int) + be32_bytes(media_ssrc as int),
    )
}

/// A Full Intra Request with its sequence number.
pub open spec fn full_intra(our_ssrc: u32, media_ssrc: u32, seq: u8) -> Seq<u8> {
    rtcp_packet(
        0x84,
        PAYLOAD_FEEDBACK,
        be32_bytes(our_ssrc as int) + be32_bytes(0) + be32_bytes(media_ssrc as int) + seq![
            seq,
            0u8,
            0u8,
            0u8,
        ],
    )
}

/// A compound request for a fresh key picture, in both forms that an encoder
/// may honour.
pub open spec fn keyframe_request(
    our_ssrc: u32,
    cname: Seq<char>,
    media_ssrc: u32,
    blocks: Seq<ReportBlock>,
    fir_seq: u8,
) -> Seq<u8> {
    liveness(our_ssrc, cname, blocks) + picture_loss(our_ssrc, media_ssrc) + full_intra(
        our_ssrc,
        media_ssrc,
        fir_seq,
    )
}

/// An acknowledgment of the frame with the given RTP timestamp.
pub open spec fn frame_ack(our_ssrc: u32, timestamp: u32) -> Seq<u8> {
    rtcp_packet(
        0x80,
        APPLICATION,
        be32_bytes(our_ssrc as int) + be32_bytes(5) + be32_bytes(timestamp as int),
    )
}

/// An `RCTL` control report: a constant tag, the frame counter, a millisecond
/// clock and the highest relative sequence number, each set off by zeros.
pub open spec fn control_report(
    our_ssrc: u32,
    clock_ms: u16,
    frames: u16,
    highest_seq: u16,
) -> Seq<u8> {
    rtcp_packet(
        0x80,
        APPLICATION,
        be32_bytes(our_ssrc as int) + seq![0x52u8, 0x43, 0x54, 0x4c, 0x85, 0, 0, 4] + be16_bytes(
            frames as int,
        ) + seq![0u8, 0, 0, 0, 0, 0] + be16_bytes(clock_ms as int) + seq![0u8, 0] + be16_bytes(
            highest_seq as int,
        ) + seq![0u8, 0],
    )
}

/// Calls `idevice::core_device::is_rtcp`, which is trusted to test the length
/// and the packet type as [`holds_rtcp`] does.
#[verifier::external_body]
pub(crate) fn is_rtcp(buf: &[u8]) -> (r: bool)
    ensures
        r == holds_rtcp(buf@),
{
    idevice::core_device::is_rtcp(buf)
}

/// Calls `idevice::core_device::SenderReport::parse_first`, which is trusted to
/// return the report that [`first_sender_report`] describes.
#[verifier::external_body]
pub(crate) fn parse_first(buf: &[u8]) -> (r: Option<SenderReport>)
    ensures
        r == first_sender_report(buf@),
{
    let sr = idevice::core_device::SenderReport::parse_first(buf)?;
    Some(SenderReport { ssrc: sr.ssrc, ntp_middle: sr.ntp_middle })
}

/// Calls `idevice::core_device::build_liveness`, which is trusted to lay out a
/// Receiver Report and a source description as [`liveness`] does.
#[verifier::external_body]
pub(crate) fn build_liveness(our_ssrc: u32, cname: &str, blocks: &[ReportBlock]) -> (r: Vec<u8>)
    ensures
        r@ == liveness(our_ssrc, cname@, blocks@),
{
    let blocks: Vec<idevice::core_device::ReportBlock> = blocks.iter().map(|b| idevice::core_device::ReportBlock {
        source_ssrc: b.source_ssrc,
        fraction_lost: b.fraction_lost,
        cumulative_lost: b.cumulative_lost,
        highest_seq: b.highest_seq,
        jitter: b.jitter,
        lsr: b.lsr,
        dlsr: b.dlsr,
    }).collect();
    idevice::core_device::build_liveness(our_ssrc, cname, &blocks)
}

/// Calls `idevice::core_device::build_keyframe_request`, which is trusted to
/// append both keyframe requests to a liveness report as [`keyframe_request`]
/// does.
#[verifier::external_body]
pub(crate) fn build_keyframe_request(
    our_ssrc: u32,
    cname: &str,
    media_ssrc: u32,
    blocks: &[ReportBlock],
    fir_seq: u8,
) -> (r: Vec<u8>)
    ensures
        r@ == keyframe_request(our_ssrc, cname@, media_ssrc, blocks@, fir_seq),
{
    let blocks: Vec<idevice::core_device::ReportBlock> = blocks.iter().map(|b| idevice::core_device::ReportBlock {
        source_ssrc: b.source_ssrc,
        fraction_lost: b.fraction_lost,
        cumulative_lost: b.cumulative_lost,
        highest_seq: b.highest_seq,
        jitter: b.jitter,
        lsr: b.lsr,
        dlsr: b.dlsr,
    }).collect();
    idevice::core_device::build_keyframe_request(our_ssrc, cname, media_ssrc, &blocks, fir_seq)
}

/// Calls `idevice::core_device::build_frame_ack`, which is trusted to lay out
/// the acknowledgment as [`frame_ack`] does.
#[verifier::external_body]
pub(crate) fn build_frame_ack(our_ssrc: u32, timestamp: u32) -> (r: Vec<u8>)
    ensures
        r@ == frame_ack(our_ssrc, timestamp),
{
    idevice::core_device::build_frame_ack(our_ssrc, timestamp)
}

/// Calls `idevice::core_device::build_rctl`, which is trusted to lay out the
/// control report as [`control_report`] does.
#[verifier::external_body]
pub(crate) fn build_rctl(our_ssrc: u32, clock_ms: u16, frames: u16, highest_seq: u16) -> (r: Vec<
    u8,
>)
    ensures
        r@ == control_report(our_ssrc, clock_ms, frames, highest_seq),
{
    idevice::core_device::build_rctl(our_ssrc, clock_ms, frames, highest_seq)
}

/// RTCP is told from RTP by the packet types 200 to 206, which no RTP packet of a
/// dynamic payload type (96 to 127) shows, with or without its marker.
pub proof fn law_rtcp_is_told_by_its_type(buf: Seq<u8>, kind: u8)
    requires
        96 <= kind < 128,
    ensures
        holds_rtcp(buf) <==> buf.len() >= 2 && 200 <= buf[1] <= 206,
        buf.len() >= 2 && buf[1] == kind ==> !holds_rtcp(buf),
        buf.len() >= 2 && buf[1] == 128 + kind ==> !holds_rtcp(buf),
{
}

/// A Sender Report gives its source, and the middle of its timestamp: the low half of
/// the seconds and the high half of the fraction.
pub proof fn law_a_sender_report_is_read(report: Seq<u8>)
    requires
        report.len() >= 16,
        report[1] == 200,
        16 <= 4 * (be16(report, 2) + 1) <= report.len(),
    ensures
        ({
            let (seconds, fraction) = (be32(report, 8), be32(report, 12));
            &&& first_sender_report(report) matches Some(found)
            &&& found.ssrc == be32(report, 4)
            &&& found.ntp_middle == seconds % 0x1_0000 * 0x1_0000 + fraction / 0x1_0000
        }),
{
}

/// A Sender Report is found behind a well-formed packet of another type, and there
/// is none where no packet is one.
pub proof fn law_other_packets_are_passed_over(
    first: u8,
    kind: u8,
    body: Seq<u8>,
    more: Seq<u8>,
)
    requires
        kind != 200,
        body.len() % 4 == 0,
        body.len() / 4 < 0x1_0000,
    ensures
        first_sender_report(
            seq![first, kind] + be16_bytes(body.len() as int / 4) + body + more,
        ) == first_sender_report(more),
        first_sender_report(Seq::empty()) is None,
{
    let words = body.len() as int / 4;
    let all = seq![first, kind] + be16_bytes(words) + body + more;
    assert(all[1] == kind);
    assert(all[2] == be16_bytes(words)[0] && all[3] == be16_bytes(words)[1]);
    assert(be16(all, 2) == words);
    assert(all.skip(4 + body.len() as int) =~= more);
}

} // verus!
