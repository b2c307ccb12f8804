//! The HEVC depacketizer (RFC 7798): RTP payloads in, an Annex-B stream out.
use vstd::prelude::*;

use idevice::core_device::HevcDepacketizer;

verus! {

/// `idevice::core_device::HevcDepacketizer`, which reorders packets, reassembles
/// NAL units and collects them as an Annex-B stream.
#[verifier::external_type_specification]
#[verifier::external_body]
pub struct ExHevcDepacketizer(HevcDepacketizer);

/// A packet as the depacketizer takes it.
pub struct FedPacket {
    pub sequence_number: u16,
    pub timestamp: u32,
    pub payload: Seq<u8>,
}

/// The packets that a depacketizer has been given since it was made, in order.
pub uninterp spec fn fed_packets(depacketizer: HevcDepacketizer) -> Seq<FedPacket>;

/// The bytes that have been taken out of a depacketizer since it was made.
pub uninterp spec fn taken_bytes(depacketizer: HevcDepacketizer) -> Seq<u8>;

/// The whole Annex-B stream that a new depacketizer makes of `packets`.
pub uninterp spec fn annexb_stream(packets: Seq<FedPacket>) -> Seq<u8>;

/// Calls `HevcDepacketizer::new`, which is trusted to have been given nothing
/// and to make nothing of it.
#[verifier::external_body]
pub(crate) fn new_depacketizer() -> (r: HevcDepacketizer)
    ensures
        fed_packets(r) == Seq::<FedPacket>::empty(),
        taken_bytes(r) == Seq::<u8>::empty(),
        annexb_stream(fed_packets(r)) == Seq::<u8>::empty(),
{
    HevcDepacketizer::new()
}

/// Calls `HevcDepacketizer::push`, which is trusted to take one more packet and
/// hand nothing out.
#[verifier::external_body]
pub(crate) fn push_packet(
    depacketizer: &mut HevcDepacketizer,
    sequence_number: u16,
    timestamp: u32,
    payload: &[u8],
)
    ensures
        fed_packets(*final(depacketizer)) == fed_packets(*old(depacketizer)).push(
            FedPacket { sequence_number, timestamp, payload: payload@ },
        ),
        taken_bytes(*final(depacketizer)) == taken_bytes(*old(depacketizer)),
{
    depacketizer.push(sequence_number, timestamp, payload)
}

/// Calls `HevcDepacketizer::take_output`, which is trusted to hand out what the
/// packets given so far have added to the stream since it was last called: with
/// it, all that was taken is the stream of those packets.
#[verifier::external_body]
pub(crate) fn take_stream(depacketizer: &mut HevcDepacketizer) -> (r: Vec<u8>)
    ensures
        fed_packets(*final(depacketizer)) == fed_packets(*old(depacketizer)),
        taken_bytes(*final(depacketizer)) == taken_bytes(*old(depacketizer)) + r@,
        taken_bytes(*final(depacketizer)) == annexb_stream(fed_packets(*old(depacketizer))),
{
    depacketizer.take_output()
}

} // verus!
