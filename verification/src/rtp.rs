//! RTP packets of the device's HEVC video stream.
use vstd::prelude::*;

use crate::wire::{be16, be16_bytes, be32, be32_bytes};

verus! {

/// What the receiver reads of an RTP packet.
#[derive(Debug, Clone, Copy)]
pub struct RtpPacket<'a> {
    /// Set on the last packet of an access unit (frame).
    pub marker: bool,
    pub sequence_number: u16,
    pub timestamp: u32,
    pub ssrc: u32,
    /// The media payload, without contributing sources, extension and padding.
    pub payload: &'a [u8],
}

/// The value of an [`RtpPacket`].
pub struct PacketModel {
    pub marker: bool,
    pub sequence_number: u16,
    pub timestamp: u32,
    pub ssrc: u32,
    pub payload: Seq<u8>,
}

impl<'a> View for RtpPacket<'a> {
    type V = PacketModel;

    open spec fn view(&self) -> PacketModel {
        PacketModel {
            marker: self.marker,
            sequence_number: self.sequence_number,
            timestamp: self.timestamp,
            ssrc: self.ssrc,
            payload: self.payload@,
        }
    }
}

/// The packet that a datagram holds (RFC 3550 section 5.1): a 12-byte header of
/// version 2, as many 4-byte contributing sources as its low bits count, an
/// extension of as many words as its own header says where the extension bit is
/// set, the payload, and padding of the length that the last byte gives where
/// the padding bit is set.
pub open spec fn rtp_packet(buf: Seq<u8>) -> Option<PacketModel> {
    if buf.len() < 12 || buf[0] / 64 != 2 {
        None
    } else {
        let padded = buf[0] / 32 % 2 == 1;
        let extended = buf[0] / 16 % 2 == 1;
        let fixed = 12 + 4 * (buf[0] % 16);
        let start = if extended {
            fixed + 4 + 4 * be16(buf, fixed + 2)
        } else {
            fixed
        };
        let padding: int = if padded {
            buf.last() as int
        } else {
            0
        };
        if (extended && fixed + 4 > buf.len()) || (padded && padding == 0) || start + padding
            > buf.len() {
            None
        } else {
            Some(
                PacketModel {
                    marker: buf[1] >= 128,
                    sequence_number: be16(buf, 2) as u16,
                    timestamp: be32(buf, 4) as u32,
                    ssrc: be32(buf, 8) as u32,
                    payload: buf.subrange(start, buf.len() - padding),
                },
            )
        }
    }
}

/// Calls `idevice::core_device::RtpPacket::parse`, which is trusted to return
/// the packet that [`rtp_packet`] describes, and `None` where there is none.
#[verifier::external_body]
pub(crate) fn parse_packet<'a>(buf: &'a [u8]) -> (r: Option<RtpPacket<'a>>)
    ensures
        match r {
            Some(packet) => rtp_packet(buf@) == Some(packet@),
            None => rtp_packet(buf@) is None,
        },
{
    let p = idevice::core_device::RtpPacket::parse(buf)?;
    Some(
        RtpPacket {
            marker: p.marker,
            sequence_number: p.sequence_number,
            timestamp: p.timestamp,
            ssrc: p.ssrc,
            payload: p.payload,
        },
    )
}

/// The NAL unit type in the first byte of a NAL header.
pub open spec fn nal_type(header: u8) -> int {
    header as int / 2 % 64
}

/// Whether a NAL unit type is that of a key picture's slice (IRAP).
pub open spec fn is_irap(nal: int) -> bool {
    16 <= nal <= 23
}

/// Whether a payload begins a key picture's slice: a fragmentation unit (type
/// 49) whose start bit is set and whose inner type is IRAP, or any other unit
/// of an IRAP type.
pub open spec fn starts_keyframe(payload: Seq<u8>) -> bool {
    if payload.len() >= 3 && nal_type(payload[0]) == 49 {
        payload[2] >= 128 && is_irap(payload[2] as int % 64)
    } else {
        payload.len() >= 2 && is_irap(nal_type(payload[0]))
    }
}

/// Whether a payload begins a slice of a key picture.
pub fn begins_keyframe(payload: &[u8]) -> (r: bool)
    ensures
        r == starts_keyframe(payload@),
{
    if payload.len() < 2 {
        return false;
    }
    let unit: u8 = nal_unit_type(payload[0]);
    if payload.len() >= 3 && unit == 49 {
        let fu: u8 = payload[2];
        assert(fu & 0x80 != 0 <==> fu >= 128) by (bit_vector);
        assert(fu & 0x3f == fu % 64) by (bit_vector);
        (fu & 0x80) != 0 && 16 <= (fu & 0x3f) && (fu & 0x3f) <= 23
    } else {
        16 <= unit && unit <= 23
    }
}

/// The NAL unit type in the first byte of a NAL header.
pub fn nal_unit_type(header: u8) -> (r: u8)
    ensures
        r == nal_type(header),
{
    assert((header >> 1) & 0x3f == header / 2 % 64) by (bit_vector);
    (header >> 1) & 0x3f
}

/// A packet without contributing sources, extension and padding reads back as it
/// was written, whatever its payload type and payload; anything shorter than a
/// header, or of another version, is no packet.
pub proof fn law_a_plain_packet_reads_back(packet: PacketModel, kind: u8, other: Seq<u8>)
    requires
        kind < 128,
        other.len() < 12 || !(128 <= other[0] < 192),
    ensures
        rtp_packet(
            seq![
                0x80u8,
                if packet.marker {
                    (128 + kind) as u8
                } else {
                    kind
                },
            ] + be16_bytes(packet.sequence_number as int) + be32_bytes(packet.timestamp as int)
                + be32_bytes(packet.ssrc as int) + packet.payload,
        ) == Some(packet),
        rtp_packet(other) is None,
{
    let second = if packet.marker {
        (128 + kind) as u8
    } else {
        kind
    };
    let number = be16_bytes(packet.sequence_number as int);
    let time = be32_bytes(packet.timestamp as int);
    let source = be32_bytes(packet.ssrc as int);
    let buf = seq![0x80u8, second] + number + time + source + packet.payload;
    assert(buf[0] == 0x80 && buf[1] == second);
    assert(buf[2] == number[0] && buf[3] == number[1]);
    assert(be16(buf, 2) == packet.sequence_number);
    assert(forall|i: int| 0 <= i < 4 ==> buf[4 + i] == time[i]);
    assert(be32(buf, 4) == packet.timestamp);
    assert(forall|i: int| 0 <= i < 4 ==> buf[8 + i] == source[i]);
    assert(be32(buf, 8) == packet.ssrc);
    assert(buf.subrange(12, buf.len() as int) =~= packet.payload);
}

/// A key picture is told by unit types 16 to 23: those of the unit itself or, of a
/// fragmented unit (type 49), those of its first fragment. The unit type is what
/// stands between a header's top and bottom bit.
pub proof fn law_keyframes_are_told_by_their_units(
    unit: u8,
    top: u8,
    bottom: u8,
    second: u8,
    third: u8,
    rest: Seq<u8>,
)
    requires
        unit < 64,
        top <= 1,
        bottom <= 1,
    ensures
        nal_type((128 * top + 2 * unit + bottom) as u8) == unit,
        unit != 49 ==> (starts_keyframe(
            seq![(128 * top + 2 * unit + bottom) as u8, second] + rest,
        ) <==> 16 <= unit < 24),
        unit == 49 ==> (starts_keyframe(
            seq![(128 * top + 2 * unit + bottom) as u8, second, third] + rest,
        ) <==> 144 <= third < 152 || 208 <= third < 216),
        !starts_keyframe(seq![(128 * top + 2 * unit + bottom) as u8]),
        !starts_keyframe(Seq::empty()),
{
    let header = (128 * top + 2 * unit + bottom) as u8;
    assert((seq![header, second] + rest)[0] == header);
    assert((seq![header, second, third] + rest)[0] == header);
    assert((seq![header, second, third] + rest)[2] == third);
}

/// A packet says what it holds.
pub proof fn law_a_packet_says_what_it_holds(packet: RtpPacket)
    ensures
        packet@.marker == packet.marker,
        packet@.sequence_number == packet.sequence_number,
        packet@.timestamp == packet.timestamp,
        packet@.ssrc == packet.ssrc,
        packet@.payload == packet.payload@,
{
}

} // verus!
