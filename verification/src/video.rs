//! The video receive loop: which datagrams count, and what they lead to.
use vstd::prelude::*;

use idevice::core_device::HevcDepacketizer;

use crate::hevc::{
    annexb_stream, fed_packets, new_depacketizer, push_packet, take_stream, taken_bytes, FedPacket,
};
use crate::rtcp::RtcpShared;
use crate::rtcp_wire::{build_frame_ack, frame_ack, holds_rtcp, is_rtcp};
use crate::rtp::{
    begins_keyframe, parse_packet, rtp_packet, starts_keyframe, PacketModel, RtpPacket,
};
use crate::stats::RtpStats;

verus! {

/// How long the locked stream must be silent before another source may take
/// over: long enough to ignore strays of a leaked sender, short enough to pick
/// up a restarted stream promptly. In nanoseconds.
pub const SSRC_TAKEOVER_GRACE: u64 = 250_000_000;

/// The receive loop of one session.
///
/// It locks onto a single RTP source and feeds only that source's packets to the
/// depacketizer. A restarted stream has a new source, and the device does not
/// reliably stop the old sender, so the lock moves only once the locked source
/// has been silent for [`SSRC_TAKEOVER_GRACE`].
pub struct VideoReceiver {
    depacketizer: HevcDepacketizer,
    locked_ssrc: Option<u32>,
    last_locked: u64,
    our_ssrc: u32,
    send_frame_ack: bool,
    prev_marker_seq: Option<u16>,
    seen: Vec<u16>,
}

/// The value of a [`VideoReceiver`].
pub struct VideoModel {
    /// The packets of the locked source, since the lock was taken.
    pub fed: Seq<FedPacket>,
    pub locked_ssrc: Option<u32>,
    /// When the locked source was last heard.
    pub last_locked: u64,
    /// The SSRC under which frames are acknowledged.
    pub our_ssrc: u32,
    /// Whether frames are acknowledged at all. It corrupts the stream under
    /// motion, so it is an experiment to be asked for.
    pub send_frame_ack: bool,
    /// The sequence number that ended the previous frame.
    pub prev_marker_seq: Option<u16>,
    /// The sequence numbers that came since then, where frames are acknowledged.
    pub seen: Set<u16>,
}

/// What a datagram is to the receive loop.
pub enum Arrival {
    /// RTCP on the RTP port.
    Control,
    /// Neither RTCP nor an RTP packet.
    Malformed,
    /// A packet of another source while the locked one is still heard.
    Competing(PacketModel),
    /// A packet that counts; the flag says that the lock moves to its source.
    Media(PacketModel, bool),
}

/// What came of a packet that counted.
#[derive(Debug)]
pub struct VideoStep {
    /// The packet's source.
    pub ssrc: u32,
    /// Whether the packet begins a slice of a key picture.
    pub keyframe: bool,
    /// The source that the lock moved away from, if it moved.
    pub migrated_from: Option<u32>,
    /// An acknowledgment to send back to where the packet came from.
    pub ack: Option<Vec<u8>>,
    /// Annex-B bytes for the decoder.
    pub output: Vec<u8>,
}

/// What came of a datagram.
#[derive(Debug)]
pub enum DatagramOutcome {
    Control,
    Malformed,
    Competing { ssrc: u32, keyframe: bool },
    Media(VideoStep),
}

/// The number `k` after another, around the 16-bit wrap.
pub open spec fn number_after(number: u16, k: int) -> u16 {
    ((number + k) % 0x1_0000) as u16
}

/// Whether all the numbers after `previous`, up to and with `last`, are there.
pub open spec fn unbroken(numbers: Set<u16>, previous: u16, last: u16) -> bool {
    forall|k: int|
        1 <= k <= (last - previous) % 0x1_0000 ==> numbers.contains(
            #[trigger] number_after(previous, k),
        )
}

/// The numbers in a list.
pub open spec fn numbers_in(list: Seq<u16>) -> Set<u16> {
    Set::new(|n: u16| list.contains(n))
}

fn holds(list: &Vec<u16>, number: u16) -> (r: bool)
    ensures
        r == numbers_in(list@).contains(number),
{
    for i in 0..list.len()
        invariant
            forall|j: int| 0 <= j < i ==> list@[j] != number,
    {
        if list[i] == number {
            return true;
        }
    }
    false
}

fn note(list: &mut Vec<u16>, number: u16)
    ensures
        numbers_in(final(list)@) == numbers_in(old(list)@).insert(number),
{
    if !holds(list, number) {
        list.push(number);
        assert(list@.last() == number);
        assert forall|n: u16| n != number && list@.contains(n) implies old(list)@.contains(n) by {
            let i = choose|i: int| 0 <= i < list@.len() && list@[i] == n;
            assert(old(list)@[i] == n);
        }
        assert forall|n: u16| old(list)@.contains(n) implies list@.contains(n) by {
            let i = choose|i: int| 0 <= i < old(list)@.len() && old(list)@[i] == n;
            assert(list@[i] == n);
        }
    }
    assert(numbers_in(list@) =~= numbers_in(old(list)@).insert(number));
}

fn is_unbroken(list: &Vec<u16>, previous: u16, last: u16) -> (r: bool)
    ensures
        r == unbroken(numbers_in(list@), previous, last),
{
    let span: u16 = last.wrapping_sub(previous);
    let mut k: u16 = 0;
    while k < span
        invariant
            k <= span,
            span == (last - previous) % 0x1_0000,
            forall|j: int|
                1 <= j <= k ==> numbers_in(list@).contains(#[trigger] number_after(previous, j)),
        decreases span - k,
    {
        k += 1;
        let number: u16 = previous.wrapping_add(k);
        assert(number == number_after(previous, k as int));
        if !holds(list, number) {
            return false;
        }
    }
    true
}

/// What the loops share, as it is for the packets of the stream that `packet`
/// belongs to: anew if the lock moves.
pub open spec fn stream_shared(
    shared: RtcpShared,
    packet: PacketModel,
    migrates: bool,
) -> RtcpShared {
    if migrates {
        RtcpShared { media_ssrc: Some(packet.ssrc), stats: RtpStats::fresh(), ..shared }
    } else {
        shared
    }
}

/// What the loops share, once `packet` has been counted.
pub open spec fn counted(shared: RtcpShared, packet: PacketModel) -> RtcpShared {
    RtcpShared {
        media_ssrc: if shared.media_ssrc is None {
            Some(packet.ssrc)
        } else {
            shared.media_ssrc
        },
        stats: shared.stats.after_packet(packet.sequence_number),
        frames: if packet.marker {
            ((shared.frames + 1) % 0x1_0000_0000) as u32
        } else {
            shared.frames
        },
        ..shared
    }
}

impl VideoModel {
    /// A receive loop that began at `now`.
    pub open spec fn fresh(our_ssrc: u32, send_frame_ack: bool, now: u64) -> VideoModel {
        VideoModel {
            fed: Seq::empty(),
            locked_ssrc: None,
            last_locked: now,
            our_ssrc,
            send_frame_ack,
            prev_marker_seq: None,
            seen: Set::empty(),
        }
    }

    /// What a datagram that arrives at `now` is.
    pub open spec fn arrival(self, data: Seq<u8>, now: u64) -> Arrival {
        if holds_rtcp(data) {
            Arrival::Control
        } else {
            match rtp_packet(data) {
                None => Arrival::Malformed,
                Some(packet) => if self.locked_ssrc is None || self.locked_ssrc == Some(
                    packet.ssrc,
                ) {
                    Arrival::Media(packet, false)
                } else if now - self.last_locked < SSRC_TAKEOVER_GRACE {
                    Arrival::Competing(packet)
                } else {
                    Arrival::Media(packet, true)
                },
            }
        }
    }

    /// Whether `packet` ends a frame that is to be acknowledged: one that is intact,
    /// with every sequence number since the one that ended the previous frame. The
    /// first frame is taken on trust.
    pub open spec fn acknowledges(self, packet: PacketModel) -> bool {
        &&& self.send_frame_ack
        &&& packet.marker
        &&& self.prev_marker_seq matches Some(previous) ==> unbroken(
            self.seen.insert(packet.sequence_number),
            previous,
            packet.sequence_number,
        )
    }

    /// The packets fed before `packet`: none if the lock moves.
    pub open spec fn fed_before(self, migrates: bool) -> Seq<FedPacket> {
        if migrates {
            Seq::empty()
        } else {
            self.fed
        }
    }

    /// The receive loop after `packet` counted.
    pub open spec fn after_media(self, packet: PacketModel, migrates: bool, now: u64) -> VideoModel {
        VideoModel {
            fed: self.fed_before(migrates).push(
                FedPacket {
                    sequence_number: packet.sequence_number,
                    timestamp: packet.timestamp,
                    payload: packet.payload,
                },
            ),
            locked_ssrc: Some(packet.ssrc),
            last_locked: now,
            prev_marker_seq: if self.send_frame_ack && packet.marker {
                Some(packet.sequence_number)
            } else {
                self.prev_marker_seq
            },
            seen: if !self.send_frame_ack {
                self.seen
            } else if packet.marker {
                Set::empty()
            } else {
                self.seen.insert(packet.sequence_number)
            },
            ..self
        }
    }

    /// The receive loop after a datagram.
    pub open spec fn after(self, data: Seq<u8>, now: u64) -> VideoModel {
        match self.arrival(data, now) {
            Arrival::Media(packet, migrates) => self.after_media(packet, migrates, now),
            _ => self,
        }
    }

    /// The receive loop after several datagrams and their times.
    pub open spec fn after_all(self, datagrams: Seq<(Seq<u8>, u64)>) -> VideoModel
        decreases datagrams.len(),
    {
        if datagrams.len() == 0 {
            self
        } else {
            self.after_all(datagrams.drop_last()).after(datagrams.last().0, datagrams.last().1)
        }
    }
}

impl View for VideoReceiver {
    type V = VideoModel;

    closed spec fn view(&self) -> VideoModel {
        VideoModel {
            fed: fed_packets(self.depacketizer),
            locked_ssrc: self.locked_ssrc,
            last_locked: self.last_locked,
            our_ssrc: self.our_ssrc,
            send_frame_ack: self.send_frame_ack,
            prev_marker_seq: self.prev_marker_seq,
            seen: numbers_in(self.seen@),
        }
    }
}

impl VideoReceiver {
    /// Everything that the packets fed so far amount to has been handed out.
    #[verifier::type_invariant]
    spec fn all_handed_out(self) -> bool {
        taken_bytes(self.depacketizer) == annexb_stream(fed_packets(self.depacketizer))
    }

    /// A receive loop that begins at `now`.
    pub fn new(our_ssrc: u32, send_frame_ack: bool, now: u64) -> (r: VideoReceiver)
        ensures
            r@ == VideoModel::fresh(our_ssrc, send_frame_ack, now),
    {
        let seen: Vec<u16> = Vec::new();
        assert(numbers_in(seen@) =~= Set::empty());
        VideoReceiver {
            depacketizer: new_depacketizer(),
            locked_ssrc: None,
            last_locked: now,
            our_ssrc,
            send_frame_ack,
            prev_marker_seq: None,
            seen,
        }
    }

    /// Handle one datagram from `source_port` that arrived at `now`.
    ///
    /// RTCP is noted and goes no further. A packet that counts is folded into
    /// the shared statistics and fed to the depacketizer; what it adds to the
    /// stream is handed out.
    pub fn on_datagram(
        &mut self,
        shared: &mut RtcpShared,
        data: &[u8],
        source_port: u16,
        now: u64,
    ) -> (r: DatagramOutcome)
        ensures
            match old(self)@.arrival(data@, now) {
                Arrival::Control => {
                    &&& r matches DatagramOutcome::Control
                    &&& final(self)@ == old(self)@
                    &&& *final(shared) == old(shared).after_inbound(data@, source_port, false, now)
                },
                Arrival::Malformed => {
                    &&& r matches DatagramOutcome::Malformed
                    &&& final(self)@ == old(self)@
                    &&& *final(shared) == *old(shared)
                },
                Arrival::Competing(packet) => {
                    &&& r matches DatagramOutcome::Competing { ssrc, keyframe }
                    &&& ssrc == packet.ssrc
                    &&& keyframe == starts_keyframe(packet.payload)
                    &&& final(self)@ == old(self)@
                    &&& *final(shared) == *old(shared)
                },
                Arrival::Media(packet, migrates) => {
                    let stream = stream_shared(*old(shared), packet, migrates);
                    &&& r matches DatagramOutcome::Media(step)
                    &&& step.ssrc == packet.ssrc
                    &&& step.keyframe == starts_keyframe(packet.payload)
                    &&& step.migrated_from == if migrates {
                        old(self)@.locked_ssrc
                    } else {
                        None
                    }
                    &&& match step.ack {
                        Some(ack) => old(self)@.acknowledges(packet) && ack@ == frame_ack(
                            old(self)@.our_ssrc,
                            packet.timestamp,
                        ),
                        None => !old(self)@.acknowledges(packet),
                    }
                    &&& annexb_stream(final(self)@.fed) == annexb_stream(
                        old(self)@.fed_before(migrates),
                    ) + step.output@
                    &&& final(self)@ == old(self)@.after_media(packet, migrates, now)
                    &&& *final(shared) == counted(stream, packet)
                },
            },
    {
        if is_rtcp(data) {
            shared.note_inbound(data, source_port, false, now);
            return DatagramOutcome::Control;
        }
        let packet: RtpPacket = match parse_packet(data) {
            Some(packet) => packet,
            None => {
                return DatagramOutcome::Malformed;
            },
        };
        proof {
            use_type_invariant(&*self);
        }
        let keyframe: bool = begins_keyframe(packet.payload);
        let migrated_from: Option<u32> = match self.locked_ssrc {
            Some(ssrc) => {
                if ssrc == packet.ssrc {
                    None
                } else if now.saturating_sub(self.last_locked) < SSRC_TAKEOVER_GRACE {
                    return DatagramOutcome::Competing { ssrc: packet.ssrc, keyframe };
                } else {
                    Some(ssrc)
                }
            },
            None => None,
        };
        let mut depacketizer = new_depacketizer();
        if migrated_from.is_some() {
            shared.media_ssrc = Some(packet.ssrc);
            shared.stats = RtpStats::new();
        } else {
            std::mem::swap(&mut depacketizer, &mut self.depacketizer);
        }
        self.locked_ssrc = Some(packet.ssrc);
        self.last_locked = now;
        if shared.media_ssrc.is_none() {
            shared.media_ssrc = Some(packet.ssrc);
        }
        shared.stats.on_packet(packet.sequence_number);
        if packet.marker {
            shared.frames = shared.frames.wrapping_add(1);
        }
        let mut ack: Option<Vec<u8>> = None;
        if self.send_frame_ack {
            let mut seen: Vec<u16> = Vec::new();
            std::mem::swap(&mut seen, &mut self.seen);
            note(&mut seen, packet.sequence_number);
            if packet.marker {
                let intact: bool = match self.prev_marker_seq {
                    Some(previous) => is_unbroken(&seen, previous, packet.sequence_number),
                    None => true,
                };
                if intact {
                    ack = Some(build_frame_ack(self.our_ssrc, packet.timestamp));
                }
                self.prev_marker_seq = Some(packet.sequence_number);
                seen = Vec::new();
                assert(numbers_in(seen@) =~= Set::empty());
            }
            self.seen = seen;
        }
        push_packet(
            &mut depacketizer,
            packet.sequence_number,
            packet.timestamp,
            packet.payload,
        );
        let output: Vec<u8> = take_stream(&mut depacketizer);
        self.depacketizer = depacketizer;
        DatagramOutcome::Media(
            VideoStep { ssrc: packet.ssrc, keyframe, migrated_from, ack, output },
        )
    }
}

impl VideoModel {
    /// Whether `output` is what a datagram adds to the stream.
    pub open spec fn yields(self, data: Seq<u8>, now: u64, output: Seq<u8>) -> bool {
        match self.arrival(data, now) {
            Arrival::Media(_, migrates) => annexb_stream(self.after(data, now).fed)
                == annexb_stream(self.fed_before(migrates)) + output,
            _ => output.len() == 0,
        }
    }

    /// Whether each of `outputs` is what the datagram of the same place adds, and
    /// the lock never moves.
    pub open spec fn yields_all(
        self,
        datagrams: Seq<(Seq<u8>, u64)>,
        outputs: Seq<Seq<u8>>,
    ) -> bool
        decreases datagrams.len(),
    {
        &&& datagrams.len() == outputs.len()
        &&& datagrams.len() > 0 ==> {
            let before = self.after_all(datagrams.drop_last());
            &&& self.yields_all(datagrams.drop_last(), outputs.drop_last())
            &&& before.yields(datagrams.last().0, datagrams.last().1, outputs.last())
            &&& !(before.arrival(datagrams.last().0, datagrams.last().1) matches Arrival::Media(
                _,
                true,
            ))
        }
    }

    /// Whether the locked source is heard often enough: at each datagram, less
    /// than the grace period has passed since its last packet.
    pub open spec fn heard_throughout(self, datagrams: Seq<(Seq<u8>, u64)>) -> bool
        decreases datagrams.len(),
    {
        datagrams.len() > 0 ==> {
            &&& self.heard_throughout(datagrams.drop_last())
            &&& datagrams.last().1 - self.after_all(datagrams.drop_last()).last_locked
                < SSRC_TAKEOVER_GRACE
        }
    }
}

/// Only packets of the locked source reach the depacketizer: whatever is fed
/// belongs to the source that is locked from then on, and any other datagram
/// leaves the loop as it was.
pub proof fn law_only_the_locked_source_is_fed(receiver: VideoModel, data: Seq<u8>, now: u64)
    ensures
        receiver.after(data, now) != receiver ==> {
            &&& rtp_packet(data) matches Some(packet)
            &&& receiver.after(data, now).locked_ssrc == Some(packet.ssrc)
            &&& receiver.after(data, now).fed.last() == (FedPacket {
                sequence_number: packet.sequence_number,
                timestamp: packet.timestamp,
                payload: packet.payload,
            })
            &&& receiver.after(data, now).fed.drop_last() == if receiver.locked_ssrc is None
                || receiver.locked_ssrc == Some(packet.ssrc) {
                receiver.fed
            } else {
                Seq::<FedPacket>::empty()
            }
        },
{
    if let Arrival::Media(packet, migrates) = receiver.arrival(data, now) {
        let fed = receiver.after(data, now).fed;
        assert(fed.drop_last() =~= receiver.fed_before(migrates));
    }
}

/// A packet of another source is ignored while the locked one is heard, and
/// takes the lock over, with a new depacketizer, once it has been silent for the
/// grace period.
pub proof fn law_the_lock_moves_only_after_silence(
    receiver: VideoModel,
    data: Seq<u8>,
    now: u64,
    locked: u32,
    packet: PacketModel,
)
    requires
        receiver.locked_ssrc == Some(locked),
        !holds_rtcp(data),
        rtp_packet(data) == Some(packet),
        packet.ssrc != locked,
    ensures
        now - receiver.last_locked < 250_000_000 ==> {
            &&& receiver.arrival(data, now) == Arrival::Competing(packet)
            &&& receiver.after(data, now) == receiver
        },
        now - receiver.last_locked >= 250_000_000 ==> {
            let after = receiver.after(data, now);
            &&& receiver.arrival(data, now) == Arrival::Media(packet, true)
            &&& after.locked_ssrc == Some(packet.ssrc)
            &&& after.last_locked == now
            &&& after.fed == seq![
                FedPacket {
                    sequence_number: packet.sequence_number,
                    timestamp: packet.timestamp,
                    payload: packet.payload,
                },
            ]
        },
{
    assert(Seq::<FedPacket>::empty().push(
        FedPacket {
            sequence_number: packet.sequence_number,
            timestamp: packet.timestamp,
            payload: packet.payload,
        },
    ) =~= seq![
        FedPacket {
            sequence_number: packet.sequence_number,
            timestamp: packet.timestamp,
            payload: packet.payload,
        },
    ]);
}

/// While the locked source is heard at least every grace period, the lock stays.
pub proof fn law_the_lock_holds_while_heard(
    receiver: VideoModel,
    datagrams: Seq<(Seq<u8>, u64)>,
)
    requires
        receiver.locked_ssrc is Some,
        receiver.heard_throughout(datagrams),
    ensures
        receiver.after_all(datagrams).locked_ssrc == receiver.locked_ssrc,
        receiver.fed.is_prefix_of(receiver.after_all(datagrams).fed),
    decreases datagrams.len(),
{
    if datagrams.len() > 0 {
        law_the_lock_holds_while_heard(receiver, datagrams.drop_last());
        let before = receiver.after_all(datagrams.drop_last());
        let after = before.after(datagrams.last().0, datagrams.last().1);
        assert(before.fed.is_prefix_of(after.fed)) by {
            if let Arrival::Media(_, migrates) = before.arrival(
                datagrams.last().0,
                datagrams.last().1,
            ) {
                assert(!migrates);
                assert(after.fed.take(before.fed.len() as int) =~= before.fed);
            } else {
                assert(before.fed.take(before.fed.len() as int) =~= before.fed);
            }
        }
        assert(receiver.fed.is_prefix_of(after.fed));
    } else {
        assert(receiver.fed.take(receiver.fed.len() as int) =~= receiver.fed);
    }
}

/// As long as the lock does not move, what is handed out, piece by piece, is the
/// stream of the packets fed: nothing is lost and nothing comes twice.
pub proof fn law_the_outputs_make_up_the_stream(
    receiver: VideoModel,
    datagrams: Seq<(Seq<u8>, u64)>,
    outputs: Seq<Seq<u8>>,
)
    requires
        receiver.yields_all(datagrams, outputs),
    ensures
        annexb_stream(receiver.after_all(datagrams).fed) == annexb_stream(receiver.fed)
            + outputs.flatten(),
    decreases datagrams.len(),
{
    if datagrams.len() > 0 {
        law_the_outputs_make_up_the_stream(receiver, datagrams.drop_last(), outputs.drop_last());
        let before = receiver.after_all(datagrams.drop_last());
        let (data, now) = datagrams.last();
        assert(outputs.drop_last().push(outputs.last()) =~= outputs);
        outputs.drop_last().lemma_flatten_push(outputs.last());
        assert(annexb_stream(before.after(data, now).fed) =~= annexb_stream(before.fed)
            + outputs.last());
        assert(annexb_stream(receiver.after_all(datagrams).fed) =~= annexb_stream(receiver.fed) + (
        outputs.drop_last().flatten() + outputs.last()));
    } else {
        assert(outputs =~= Seq::<Seq<u8>>::empty());
        assert(outputs.flatten() =~= Seq::<u8>::empty());
        assert(annexb_stream(receiver.fed) + outputs.flatten() =~= annexb_stream(receiver.fed));
    }
}

impl VideoModel {
    /// Whether the datagram at `i` brings the packet numbered `number`.
    pub open spec fn brings(self, datagrams: Seq<(Seq<u8>, u64)>, i: int, number: u16) -> bool {
        self.after_all(datagrams.take(i)).arrival(
            datagrams[i].0,
            datagrams[i].1,
        ) matches Arrival::Media(packet, _) && packet.sequence_number == number
    }

    /// Whether some datagram brings the packet numbered `number`.
    pub open spec fn came(self, datagrams: Seq<(Seq<u8>, u64)>, number: u16) -> bool {
        exists|i: int| 0 <= i < datagrams.len() && #[trigger] self.brings(datagrams, i, number)
    }

    /// Whether the datagram at `i` ends a frame.
    pub open spec fn ends_frame(self, datagrams: Seq<(Seq<u8>, u64)>, i: int) -> bool {
        self.after_all(datagrams.take(i)).arrival(
            datagrams[i].0,
            datagrams[i].1,
        ) matches Arrival::Media(packet, _) && packet.marker
    }
}

proof fn lemma_seen_came(receiver: VideoModel, datagrams: Seq<(Seq<u8>, u64)>, number: u16)
    requires
        receiver.send_frame_ack,
        receiver.seen == Set::<u16>::empty(),
        forall|i: int| 0 <= i < datagrams.len() ==> !#[trigger] receiver.ends_frame(datagrams, i),
    ensures
        receiver.after_all(datagrams).send_frame_ack,
        receiver.after_all(datagrams).prev_marker_seq == receiver.prev_marker_seq,
        receiver.after_all(datagrams).seen.contains(number) == receiver.came(datagrams, number),
    decreases datagrams.len(),
{
    if datagrams.len() > 0 {
        let n = datagrams.len() - 1;
        let shorter = datagrams.drop_last();
        assert(datagrams.take(n) =~= shorter);
        assert forall|i: int| 0 <= i < shorter.len() implies !#[trigger] receiver.ends_frame(
            shorter,
            i,
        ) by {
            assert(shorter.take(i) =~= datagrams.take(i));
            assert(!receiver.ends_frame(datagrams, i));
        }
        lemma_seen_came(receiver, shorter, number);
        assert(!receiver.ends_frame(datagrams, n));
        if receiver.came(shorter, number) {
            let i = choose|i: int|
                0 <= i < shorter.len() && #[trigger] receiver.brings(shorter, i, number);
            assert(shorter.take(i) =~= datagrams.take(i));
            assert(receiver.brings(datagrams, i, number));
        } else if receiver.after_all(datagrams).seen.contains(number) {
            assert(receiver.brings(datagrams, n, number));
        } else if receiver.came(datagrams, number) {
            let i = choose|i: int|
                0 <= i < datagrams.len() && #[trigger] receiver.brings(datagrams, i, number);
            if i < n {
                assert(shorter.take(i) =~= datagrams.take(i));
                assert(receiver.brings(shorter, i, number));
            }
        }
    }
}

/// A gap is never acknowledged, and an intact frame always is: where frames are
/// acknowledged, the one that `packet` ends is exactly if each sequence number after
/// the one that ended the previous frame, up to the packet's own, has come since,
/// however often others came.
pub proof fn law_a_gap_is_never_acknowledged(
    receiver: VideoModel,
    datagrams: Seq<(Seq<u8>, u64)>,
    packet: PacketModel,
    previous: u16,
)
    requires
        receiver.send_frame_ack,
        receiver.prev_marker_seq == Some(previous),
        receiver.seen == Set::<u16>::empty(),
        forall|i: int| 0 <= i < datagrams.len() ==> !#[trigger] receiver.ends_frame(datagrams, i),
        packet.marker,
    ensures
        receiver.after_all(datagrams).acknowledges(packet) <==> forall|k: int|
            1 <= k <= (packet.sequence_number - previous) % 0x1_0000 ==> {
                let number = #[trigger] number_after(previous, k);
                number == packet.sequence_number || receiver.came(datagrams, number)
            },
{
    assert forall|number: u16|
        #[trigger] receiver.after_all(datagrams).seen.contains(number) == receiver.came(
            datagrams,
            number,
        ) by {
        lemma_seen_came(receiver, datagrams, number);
    }
    lemma_seen_came(receiver, datagrams, 0);
}

/// Without being asked, no frame is acknowledged.
pub proof fn law_acknowledging_is_asked_for(receiver: VideoModel, packet: PacketModel)
    requires
        !receiver.send_frame_ack,
    ensures
        !receiver.acknowledges(packet),
{
}

/// Every packet of the locked source, and the first of any source, is fed as it
/// came, behind those before it, and keeps the lock alive.
pub proof fn law_every_packet_of_the_source_is_fed(
    receiver: VideoModel,
    data: Seq<u8>,
    now: u64,
    packet: PacketModel,
)
    requires
        !holds_rtcp(data),
        rtp_packet(data) == Some(packet),
        receiver.locked_ssrc is None || receiver.locked_ssrc == Some(packet.ssrc),
    ensures
        ({
            let after = receiver.after(data, now);
            &&& receiver.arrival(data, now) == Arrival::Media(packet, false)
            &&& after.fed == receiver.fed.push(
                FedPacket {
                    sequence_number: packet.sequence_number,
                    timestamp: packet.timestamp,
                    payload: packet.payload,
                },
            )
            &&& after.locked_ssrc == Some(packet.ssrc)
            &&& after.last_locked == now
        }),
{
}

/// RTCP, and what is neither RTCP nor RTP, is told apart and leaves the loop as it
/// was.
pub proof fn law_other_datagrams_are_not_fed(receiver: VideoModel, data: Seq<u8>, now: u64)
    ensures
        holds_rtcp(data) ==> receiver.arrival(data, now) == Arrival::Control,
        !holds_rtcp(data) && rtp_packet(data) is None ==> receiver.arrival(data, now)
            == Arrival::Malformed,
        holds_rtcp(data) || rtp_packet(data) is None ==> receiver.after(data, now) == receiver,
{
}

/// A loop begins without a lock, so that any first packet takes it, and keeps the
/// identity and the wish to acknowledge that it was given, whatever comes.
pub proof fn law_a_loop_begins_unlocked(
    our_ssrc: u32,
    send_frame_ack: bool,
    start: u64,
    datagrams: Seq<(Seq<u8>, u64)>,
    packet: PacketModel,
)
    ensures
        ({
            let fresh = VideoModel::fresh(our_ssrc, send_frame_ack, start);
            &&& fresh.fed.len() == 0
            &&& fresh.locked_ssrc is None
            &&& fresh.last_locked == start
            &&& fresh.acknowledges(packet) <==> send_frame_ack && packet.marker
            &&& fresh.after_all(datagrams).our_ssrc == our_ssrc
            &&& fresh.after_all(datagrams).send_frame_ack == send_frame_ack
        }),
    decreases datagrams.len(),
{
    if datagrams.len() > 0 {
        law_a_loop_begins_unlocked(
            our_ssrc,
            send_frame_ack,
            start,
            datagrams.drop_last(),
            packet,
        );
    }
}

/// A packet that counts is counted in what the loops share: its number in the
/// statistics of its source, which begin anew where the lock moves, its source
/// where none is known, and its frame if it ends one. Nothing else changes.
pub proof fn law_packets_are_counted(shared: RtcpShared, packet: PacketModel, migrates: bool)
    ensures
        ({
            let after = counted(stream_shared(shared, packet, migrates), packet);
            &&& after.frames == if !packet.marker {
                shared.frames as int
            } else if shared.frames == u32::MAX {
                0
            } else {
                shared.frames + 1
            }
            &&& after.peer == shared.peer
            &&& after.sr_echo == shared.sr_echo
            &&& migrates || shared.media_ssrc is None ==> after.media_ssrc == Some(packet.ssrc)
            &&& !migrates && shared.media_ssrc is Some ==> after.media_ssrc == shared.media_ssrc
            &&& !migrates ==> after.stats == shared.stats.after_packet(packet.sequence_number)
            &&& migrates ==> after.stats == (RtpStats {
                initialized: true,
                base_seq: packet.sequence_number as u32,
                ext_max: packet.sequence_number as u32,
                received: 1,
                expected_prior: 0,
                received_prior: 0,
            })
        }),
{
}

/// Where frames are acknowledged, a packet is noted until one ends its frame; the
/// next frame then begins behind that one, with nothing noted yet. The first
/// frame is taken on trust, and only the end of a frame is acknowledged. Where they
/// are not, nothing of this is kept.
pub proof fn law_frames_are_followed(
    receiver: VideoModel,
    packet: PacketModel,
    migrates: bool,
    now: u64,
    number: u16,
)
    ensures
        !receiver.send_frame_ack ==> {
            let after = receiver.after_media(packet, migrates, now);
            &&& after.prev_marker_seq == receiver.prev_marker_seq
            &&& after.seen == receiver.seen
        },
        receiver.send_frame_ack ==> ({
            let after = receiver.after_media(packet, migrates, now);
            &&& packet.marker ==> after.prev_marker_seq == Some(packet.sequence_number)
                && !after.seen.contains(number)
            &&& !packet.marker ==> {
                &&& after.prev_marker_seq == receiver.prev_marker_seq
                &&& after.seen.contains(number) <==> receiver.seen.contains(number) || number
                    == packet.sequence_number
            }
            &&& packet.marker && receiver.prev_marker_seq is None ==> receiver.acknowledges(packet)
            &&& !packet.marker ==> !receiver.acknowledges(packet)
        }),
{
}

/// Numbers go up by one, and from the last 16-bit one to zero.
pub proof fn law_numbers_count_on(number: u16, k: int)
    requires
        k >= 0,
    ensures
        number_after(number, 0) == number,
        number_after(number, k + 1) == if number_after(number, k) == 0xffff {
            0
        } else {
            number_after(number, k) + 1
        },
{
}

} // verus!
