//! The receiver's side of RTCP: what it has learnt of the sender, and what it
//! sends back.
//!
//! Times are nanoseconds on the session's monotonic clock.
use vstd::prelude::*;
use vstd::string::StringExecFns;

use crate::rtcp_wire::{
    build_keyframe_request, build_liveness, build_rctl, control_report, first_sender_report,
    holds_rtcp, is_rtcp, keyframe_request, liveness, parse_first,
};
use crate::stats::{ReportBlock, RtpStats};

verus! {

/// The port that the device is told to send video from, and so the destination
/// of RTCP until the device's own RTCP shows where it listens.
pub const VIDEO_SENDER_PORT: u16 = 50001;

/// The port of the separate RTCP convention beside [`VIDEO_SENDER_PORT`].
pub const VIDEO_SENDER_RTCP_PORT: u16 = 50002;

/// Interval of Receiver Reports. When reports stop, the sender stops too.
pub const RTCP_REPORT_INTERVAL_MS: u64 = 1000;

/// Interval of `RCTL` control reports.
pub const RCTL_INTERVAL_MS: u64 = 50;

/// After a keyframe request, further triggers are ignored for this long, so
/// that a burst of decode errors yields one request. In nanoseconds.
pub const KEYFRAME_DEBOUNCE: u64 = 1_500_000_000;

/// Without a decoded frame for this long the stream counts as stalled.
pub const STALL_TIMEOUT_MS: u64 = 3000;

/// Where the device's RTCP comes from, as observed.
#[derive(Debug, Clone, Copy, PartialEq, Eq, Structural)]
pub enum RtcpPeer {
    Unknown,
    /// On the RTP port; replies go over the RTP socket to this port.
    Mux(u16),
    /// On a port of its own; replies go over the RTCP socket to this port.
    Separate(u16),
}

/// The last Sender Report, for the echo in a Receiver Report.
#[derive(Debug, Clone, Copy, PartialEq, Eq, Structural)]
pub struct SrEcho {
    /// Middle 32 bits of the report's NTP timestamp.
    pub ntp_middle: u32,
    pub received_at: u64,
}

/// What the RTP and RTCP loops share.
#[derive(Debug, Clone, Copy)]
pub struct RtcpShared {
    /// The device's video source, once one is known.
    pub media_ssrc: Option<u32>,
    pub stats: RtpStats,
    pub sr_echo: Option<SrEcho>,
    pub peer: RtcpPeer,
    /// Complete frames received.
    pub frames: u32,
}

/// A delay in units of 1/65536 s, rounded down, at most `u32::MAX`.
pub open spec fn delay_units(nanos: int) -> u32 {
    let units = nanos * 65536 / 1_000_000_000;
    if units > u32::MAX {
        u32::MAX
    } else {
        units as u32
    }
}

/// A delay in units of 1/65536 s, as report blocks carry it.
pub fn delay_in_units(nanos: u64) -> (r: u32)
    ensures
        r == delay_units(nanos as int),
{
    let units: u128 = nanos as u128 * 65536 / 1_000_000_000;
    if units > u32::MAX as u128 {
        u32::MAX
    } else {
        units as u32
    }
}

impl RtcpShared {
    /// The state before anything has arrived.
    pub open spec fn fresh() -> RtcpShared {
        RtcpShared {
            media_ssrc: None,
            stats: RtpStats::fresh(),
            sr_echo: None,
            peer: RtcpPeer::Unknown,
            frames: 0,
        }
    }

    /// The highest sequence number received, counted from the first packet's,
    /// in 16 bits; zero before any packet.
    pub open spec fn relative_highest(self) -> u16 {
        if self.stats.initialized {
            ((self.stats.ext_max - self.stats.base_seq) % 0x1_0000) as u16
        } else {
            0
        }
    }

    /// The state after an RTCP datagram from `source_port` came in at `now`,
    /// over the separate socket or not. A Sender Report also settles the media
    /// source if none is known.
    pub open spec fn after_inbound(
        self,
        buf: Seq<u8>,
        source_port: u16,
        separate: bool,
        now: u64,
    ) -> RtcpShared {
        let peer = if separate {
            RtcpPeer::Separate(source_port)
        } else {
            RtcpPeer::Mux(source_port)
        };
        match first_sender_report(buf) {
            Some(sr) => RtcpShared {
                peer,
                sr_echo: Some(SrEcho { ntp_middle: sr.ntp_middle, received_at: now }),
                media_ssrc: if self.media_ssrc is None {
                    Some(sr.ssrc)
                } else {
                    self.media_ssrc
                },
                ..self
            },
            None => RtcpShared { peer, ..self },
        }
    }

    /// The echo of the last Sender Report: its timestamp and the delay since.
    pub open spec fn echo(self, now: u64) -> (u32, u32) {
        match self.sr_echo {
            Some(e) => (
                e.ntp_middle,
                delay_units(
                    if now > e.received_at {
                        now - e.received_at
                    } else {
                        0
                    },
                ),
            ),
            None => (0, 0),
        }
    }

    /// The report blocks to send at `now`: one for the media source, once known.
    pub open spec fn blocks(self, now: u64) -> Seq<ReportBlock> {
        match self.media_ssrc {
            Some(ssrc) => seq![self.stats.block(ssrc, self.echo(now).0, self.echo(now).1)],
            None => Seq::empty(),
        }
    }

    /// The state once those blocks have been taken.
    pub open spec fn after_blocks(self) -> RtcpShared {
        if self.media_ssrc is Some {
            RtcpShared { stats: self.stats.after_report(), ..self }
        } else {
            self
        }
    }

    /// The state before anything has arrived.
    pub fn new() -> (r: RtcpShared)
        ensures
            r == RtcpShared::fresh(),
    {
        RtcpShared {
            media_ssrc: None,
            stats: RtpStats::new(),
            sr_echo: None,
            peer: RtcpPeer::Unknown,
            frames: 0,
        }
    }

    /// The highest sequence number received, relative to the first packet's.
    pub fn highest_seq_rel(&self) -> (r: u16)
        ensures
            r == self.relative_highest(),
    {
        if self.stats.initialized {
            let diff: u32 = self.stats.ext_max.wrapping_sub(self.stats.base_seq);
            assert(diff as u16 == diff % 0x1_0000) by (bit_vector);
            diff as u16
        } else {
            0
        }
    }

    /// Record an inbound RTCP datagram: where it came from and, if it holds a
    /// Sender Report, the data to echo.
    pub fn note_inbound(&mut self, buf: &[u8], source_port: u16, separate: bool, now: u64)
        ensures
            *final(self) == old(self).after_inbound(buf@, source_port, separate, now),
    {
        self.peer = if separate {
            RtcpPeer::Separate(source_port)
        } else {
            RtcpPeer::Mux(source_port)
        };
        if let Some(sr) = parse_first(buf) {
            self.sr_echo = Some(SrEcho { ntp_middle: sr.ntp_middle, received_at: now });
            if self.media_ssrc.is_none() {
                self.media_ssrc = Some(sr.ssrc);
            }
        }
    }

    /// Handle a datagram on the separate RTCP socket: anything but RTCP is
    /// ignored.
    pub fn on_rtcp_datagram(&mut self, buf: &[u8], source_port: u16, now: u64)
        ensures
            *final(self) == if holds_rtcp(buf@) {
                old(self).after_inbound(buf@, source_port, true, now)
            } else {
                *old(self)
            },
    {
        if is_rtcp(buf) {
            self.note_inbound(buf, source_port, true, now);
        }
    }

    /// Take the blocks of a Receiver Report; none until a source is known.
    pub fn report_blocks(&mut self, now: u64) -> (r: Vec<ReportBlock>)
        ensures
            r@ == old(self).blocks(now),
            *final(self) == old(self).after_blocks(),
    {
        let mut out: Vec<ReportBlock> = Vec::new();
        if let Some(ssrc) = self.media_ssrc {
            let (lsr, dlsr): (u32, u32) = match self.sr_echo {
                Some(e) => (e.ntp_middle, delay_in_units(now.saturating_sub(e.received_at))),
                None => (0, 0),
            };
            out.push(self.stats.report_block(ssrc, lsr, dlsr));
        }
        out
    }
}

/// The sockets that RTCP can leave by.
#[derive(Debug, Clone, Copy, PartialEq, Eq, Structural)]
pub enum Socket {
    Rtp,
    Rtcp,
}

/// A datagram to send.
#[derive(Debug)]
pub struct Outgoing {
    pub socket: Socket,
    pub port: u16,
    pub packet: Vec<u8>,
}

/// The value of an [`Outgoing`].
pub struct OutgoingModel {
    pub socket: Socket,
    pub port: u16,
    pub packet: Seq<u8>,
}

impl View for Outgoing {
    type V = OutgoingModel;

    open spec fn view(&self) -> OutgoingModel {
        OutgoingModel { socket: self.socket, port: self.port, packet: self.packet@ }
    }
}

/// The values of several datagrams.
pub open spec fn outgoing(datagrams: Seq<Outgoing>) -> Seq<OutgoingModel> {
    datagrams.map_values(|d: Outgoing| d@)
}

/// Where a packet goes: to the port and over the socket that the peer's RTCP
/// showed, as far as that socket is there, and before any was seen to both
/// conventional ports.
pub open spec fn routed(peer: RtcpPeer, rtcp_socket: bool, packet: Seq<u8>) -> Seq<OutgoingModel> {
    match peer {
        RtcpPeer::Mux(port) => seq![OutgoingModel { socket: Socket::Rtp, port, packet }],
        RtcpPeer::Separate(port) => if rtcp_socket {
            seq![OutgoingModel { socket: Socket::Rtcp, port, packet }]
        } else {
            Seq::empty()
        },
        RtcpPeer::Unknown => {
            let mux = OutgoingModel { socket: Socket::Rtp, port: VIDEO_SENDER_PORT, packet };
            let separate = OutgoingModel {
                socket: Socket::Rtcp,
                port: VIDEO_SENDER_RTCP_PORT,
                packet,
            };
            if rtcp_socket {
                seq![mux, separate]
            } else {
                seq![mux]
            }
        },
    }
}

/// Address a packet to wherever the peer's RTCP was observed.
pub fn route(peer: RtcpPeer, rtcp_socket: bool, packet: Vec<u8>) -> (r: Vec<Outgoing>)
    ensures
        outgoing(r@) == routed(peer, rtcp_socket, packet@),
{
    let mut out: Vec<Outgoing> = Vec::new();
    match peer {
        RtcpPeer::Mux(port) => {
            out.push(Outgoing { socket: Socket::Rtp, port, packet });
        },
        RtcpPeer::Separate(port) => {
            if rtcp_socket {
                out.push(Outgoing { socket: Socket::Rtcp, port, packet });
            }
        },
        RtcpPeer::Unknown => {
            if rtcp_socket {
                let copy: Vec<u8> = packet.clone();
                assert(copy@ =~= packet@);
                out.push(Outgoing { socket: Socket::Rtp, port: VIDEO_SENDER_PORT, packet: copy });
                out.push(
                    Outgoing { socket: Socket::Rtcp, port: VIDEO_SENDER_RTCP_PORT, packet },
                );
            } else {
                out.push(Outgoing { socket: Socket::Rtp, port: VIDEO_SENDER_PORT, packet });
            }
        },
    }
    assert(outgoing(out@) =~= routed(peer, rtcp_socket, packet@));
    out
}

/// The canonical name of the endpoint at `host_ip`.
pub fn endpoint_cname(host_ip: &str) -> (r: String)
    ensures
        r@ == "devicehub@"@ + host_ip@,
{
    let mut name: String = "devicehub@".to_string();
    name.append(host_ip);
    name
}

/// The sending side of the RTCP control loop.
#[derive(Debug)]
pub struct RtcpSender {
    /// The SSRC that the video offer declares as ours.
    pub our_ssrc: u32,
    pub cname: String,
    /// Whether the separate RTCP socket could be bound.
    pub rtcp_socket: bool,
    /// Whether to send `RCTL` reports. They desync the encoder, so they are an
    /// experiment to be asked for.
    pub send_rctl: bool,
    /// Sequence number of the last Full Intra Request.
    pub fir_seq: u8,
    /// When the last keyframe request went out.
    pub last_request: Option<u64>,
}

impl RtcpSender {
    /// Whether a trigger at `now` leads to a keyframe request: there is somebody to
    /// ask, and the last request is long enough ago.
    pub open spec fn asks(self, shared: RtcpShared, now: u64) -> bool {
        &&& shared.media_ssrc is Some
        &&& self.last_request matches Some(last) ==> now - last >= KEYFRAME_DEBOUNCE
    }

    /// The sender after a trigger at `now`: a request takes the next sequence
    /// number.
    pub open spec fn after_trigger(self, shared: RtcpShared, now: u64) -> RtcpSender {
        if self.asks(shared, now) {
            RtcpSender {
                fir_seq: ((self.fir_seq + 1) % 256) as u8,
                last_request: Some(now),
                ..self
            }
        } else {
            self
        }
    }

    /// A sender that has requested nothing yet.
    pub fn new(our_ssrc: u32, cname: String, rtcp_socket: bool, send_rctl: bool) -> (r: RtcpSender)
        ensures
            r == (RtcpSender {
                our_ssrc,
                cname,
                rtcp_socket,
                send_rctl,
                fir_seq: 0,
                last_request: None,
            }),
    {
        RtcpSender { our_ssrc, cname, rtcp_socket, send_rctl, fir_seq: 0, last_request: None }
    }

    /// The periodic report: a Receiver Report and a source description, to keep
    /// the sender sending.
    pub fn on_report_tick(&self, shared: &mut RtcpShared, now: u64) -> (r: Vec<Outgoing>)
        ensures
            outgoing(r@) == routed(
                old(shared).peer,
                self.rtcp_socket,
                liveness(self.our_ssrc, self.cname@, old(shared).blocks(now)),
            ),
            *final(shared) == old(shared).after_blocks(),
    {
        let blocks: Vec<ReportBlock> = shared.report_blocks(now);
        let packet: Vec<u8> = build_liveness(
            self.our_ssrc,
            self.cname.as_str(),
            blocks.as_slice(),
        );
        route(shared.peer, self.rtcp_socket, packet)
    }

    /// The stream is corrupt or stalled: request a fresh key picture of the
    /// media source, under the next sequence number. Before a source is known there
    /// is nobody to ask, and for [`KEYFRAME_DEBOUNCE`] after a request further
    /// triggers are ignored; nothing changes then.
    pub fn on_corruption(&mut self, shared: &mut RtcpShared, now: u64) -> (r: Option<Vec<Outgoing>>)
        ensures
            r is Some <==> old(self).asks(*old(shared), now),
            r matches Some(sent) ==> outgoing(sent@) == routed(
                old(shared).peer,
                old(self).rtcp_socket,
                keyframe_request(
                    old(self).our_ssrc,
                    old(self).cname@,
                    old(shared).media_ssrc->0,
                    old(shared).blocks(now),
                    final(self).fir_seq,
                ),
            ),
            *final(self) == old(self).after_trigger(*old(shared), now),
            *final(shared) == if old(self).asks(*old(shared), now) {
                old(shared).after_blocks()
            } else {
                *old(shared)
            },
    {
        if let Some(last) = self.last_request {
            if now < last || now - last < KEYFRAME_DEBOUNCE {
                return None;
            }
        }
        match shared.media_ssrc {
            Some(media_ssrc) => {
                let blocks: Vec<ReportBlock> = shared.report_blocks(now);
                self.fir_seq = self.fir_seq.wrapping_add(1);
                self.last_request = Some(now);
                let packet: Vec<u8> = build_keyframe_request(
                    self.our_ssrc,
                    self.cname.as_str(),
                    media_ssrc,
                    blocks.as_slice(),
                    self.fir_seq,
                );
                Some(route(shared.peer, self.rtcp_socket, packet))
            },
            None => None,
        }
    }

    /// The control report, `elapsed` nanoseconds after the loop began: nothing
    /// unless it was asked for and a source is known.
    pub fn on_rctl_tick(&self, shared: &RtcpShared, elapsed: u64) -> (r: Option<Vec<Outgoing>>)
        ensures
            if self.send_rctl && shared.media_ssrc is Some {
                r matches Some(sent) && outgoing(sent@) == routed(
                    shared.peer,
                    self.rtcp_socket,
                    control_report(
                        self.our_ssrc,
                        (elapsed / 1_000_000 % 0x1_0000) as u16,
                        (shared.frames % 0x1_0000) as u16,
                        shared.relative_highest(),
                    ),
                )
            } else {
                r is None
            },
    {
        if !self.send_rctl || shared.media_ssrc.is_none() {
            return None;
        }
        let millis: u64 = elapsed / 1_000_000;
        assert(millis as u16 == millis % 0x1_0000) by (bit_vector);
        let frames: u32 = shared.frames;
        assert(frames as u16 == frames % 0x1_0000) by (bit_vector);
        let packet: Vec<u8> = build_rctl(
            self.our_ssrc,
            millis as u16,
            frames as u16,
            shared.highest_seq_rel(),
        );
        Some(route(shared.peer, self.rtcp_socket, packet))
    }
}

/// A reply goes to the port, and over the socket, from which the last RTCP came.
pub proof fn law_replies_go_where_rtcp_came_from(
    shared: RtcpShared,
    buf: Seq<u8>,
    source_port: u16,
    separate: bool,
    now: u64,
    rtcp_socket: bool,
    packet: Seq<u8>,
)
    requires
        separate ==> rtcp_socket,
    ensures
        routed(
            shared.after_inbound(buf, source_port, separate, now).peer,
            rtcp_socket,
            packet,
        ) == seq![
            OutgoingModel {
                socket: if separate {
                    Socket::Rtcp
                } else {
                    Socket::Rtp
                },
                port: source_port,
                packet,
            },
        ],
{
}

/// Inbound RTCP never changes a media source that is already known, nor the
/// statistics and the frame count.
pub proof fn law_inbound_keeps_the_source(
    shared: RtcpShared,
    buf: Seq<u8>,
    source_port: u16,
    separate: bool,
    now: u64,
)
    ensures
        shared.media_ssrc is Some ==> shared.after_inbound(buf, source_port, separate, now).media_ssrc
            == shared.media_ssrc,
        shared.after_inbound(buf, source_port, separate, now).stats == shared.stats,
        shared.after_inbound(buf, source_port, separate, now).frames == shared.frames,
{
}

/// A report sent after a Sender Report echoes that report's timestamp and the
/// time since it came.
pub proof fn law_reports_echo_the_sender_report(
    shared: RtcpShared,
    buf: Seq<u8>,
    source_port: u16,
    separate: bool,
    now: u64,
    later: u64,
)
    requires
        first_sender_report(buf) is Some,
        now <= later,
    ensures
        ({
            let blocks = shared.after_inbound(buf, source_port, separate, now).blocks(later);
            &&& blocks.len() == 1
            &&& blocks[0].lsr == first_sender_report(buf)->0.ntp_middle
            &&& blocks[0].dlsr == delay_units(later - now)
        }),
{
}

/// The sender after several triggers, each with what the loops share and the time.
pub open spec fn after_triggers(sender: RtcpSender, triggers: Seq<(RtcpShared, u64)>) -> RtcpSender
    decreases triggers.len(),
{
    if triggers.len() == 0 {
        sender
    } else {
        after_triggers(sender, triggers.drop_last()).after_trigger(
            triggers.last().0,
            triggers.last().1,
        )
    }
}

/// How many of several triggers lead to a request.
pub open spec fn requests(sender: RtcpSender, triggers: Seq<(RtcpShared, u64)>) -> nat
    decreases triggers.len(),
{
    if triggers.len() == 0 {
        0
    } else {
        let before = after_triggers(sender, triggers.drop_last());
        requests(sender, triggers.drop_last()) + if before.asks(
            triggers.last().0,
            triggers.last().1,
        ) {
            1nat
        } else {
            0
        }
    }
}

/// A burst of triggers yields a single request: none of those within the debounce
/// time of the one that led to it leads to another.
pub proof fn law_a_burst_yields_one_request(
    sender: RtcpSender,
    triggers: Seq<(RtcpShared, u64)>,
)
    requires
        triggers.len() > 0,
        sender.asks(triggers[0].0, triggers[0].1),
        forall|i: int|
            0 <= i < triggers.len() ==> (#[trigger] triggers[i]).1 - triggers[0].1
                < KEYFRAME_DEBOUNCE,
    ensures
        requests(sender, triggers) == 1,
        after_triggers(sender, triggers).last_request == Some(triggers[0].1),
    decreases triggers.len(),
{
    let before = triggers.drop_last();
    if triggers.len() == 1 {
        assert(after_triggers(sender, before) == sender);
        assert(requests(sender, before) == 0);
    } else {
        assert forall|i: int| 0 <= i < before.len() implies (#[trigger] before[i]).1 - before[0].1
            < KEYFRAME_DEBOUNCE by {
            assert(before[i] == triggers[i]);
        }
        law_a_burst_yields_one_request(sender, before);
    }
}

/// Once the debounce time has passed since a request, the next trigger leads to
/// another; before that none does.
pub proof fn law_requests_keep_their_distance(
    sender: RtcpSender,
    shared: RtcpShared,
    now: u64,
    shared_later: RtcpShared,
    later: u64,
)
    requires
        sender.asks(shared, now),
        shared_later.media_ssrc is Some,
    ensures
        sender.after_trigger(shared, now).asks(shared_later, later) <==> later - now
            >= KEYFRAME_DEBOUNCE,
{
}

/// Everything that the receiver sends back is recognised as RTCP.
pub proof fn law_what_is_sent_is_rtcp(
    our_ssrc: u32,
    cname: Seq<char>,
    media_ssrc: u32,
    blocks: Seq<ReportBlock>,
    fir_seq: u8,
    clock_ms: u16,
    frames: u16,
    highest_seq: u16,
)
    ensures
        holds_rtcp(liveness(our_ssrc, cname, blocks)),
        holds_rtcp(keyframe_request(our_ssrc, cname, media_ssrc, blocks, fir_seq)),
        holds_rtcp(control_report(our_ssrc, clock_ms, frames, highest_seq)),
{
}

/// A trigger leads to a request exactly if a source is known and, where one went
/// out before, at least a second and a half have passed since: a first trigger
/// always does, whatever else is known of the stream. A request takes the next
/// number and the current time; without one nothing changes.
pub proof fn law_a_known_source_is_asked(sender: RtcpSender, shared: RtcpShared, now: u64)
    ensures
        shared.media_ssrc is None ==> !sender.asks(shared, now),
        shared.media_ssrc is Some && sender.last_request is None ==> sender.asks(shared, now),
        shared.media_ssrc is Some && sender.last_request is Some ==> (sender.asks(shared, now)
            <==> now >= sender.last_request->0 + 1_500_000_000),
        sender.asks(shared, now) ==> {
            let after = sender.after_trigger(shared, now);
            &&& after.last_request == Some(now)
            &&& after.fir_seq == if sender.fir_seq == 255 {
                0
            } else {
                sender.fir_seq + 1
            }
            &&& after.our_ssrc == sender.our_ssrc
            &&& after.cname == sender.cname
            &&& after.rtcp_socket == sender.rtcp_socket
            &&& after.send_rctl == sender.send_rctl
        },
        !sender.asks(shared, now) ==> sender.after_trigger(shared, now) == sender,
{
}

/// A delay in units is the most units that do not exceed it, as far as they fit.
pub proof fn law_delays_round_down(nanos: int)
    requires
        nanos >= 0,
    ensures
        delay_units(nanos) * 1_000_000_000 <= nanos * 65_536,
        delay_units(nanos) < u32::MAX ==> nanos * 65_536 < (delay_units(nanos) + 1)
            * 1_000_000_000,
{
}

/// A report has one block once a source is known, and none before: it tells of that
/// source and of all that was counted of it, and echoes the last Sender Report, or
/// zeros where there was none. It closes the interval and changes nothing else.
pub proof fn law_reports_tell_of_the_source(shared: RtcpShared, now: u64)
    ensures
        shared.media_ssrc is None ==> shared.blocks(now).len() == 0 && shared.after_blocks()
            == shared,
        shared.media_ssrc matches Some(ssrc) ==> {
            let blocks = shared.blocks(now);
            let after = shared.after_blocks();
            &&& blocks.len() == 1
            &&& blocks[0] == shared.stats.block(ssrc, blocks[0].lsr, blocks[0].dlsr)
            &&& match shared.sr_echo {
                None => blocks[0].lsr == 0 && blocks[0].dlsr == 0,
                Some(report) => {
                    &&& blocks[0].lsr == report.ntp_middle
                    &&& now <= report.received_at ==> blocks[0].dlsr == 0
                    &&& now >= report.received_at ==> blocks[0].dlsr == delay_units(
                        now - report.received_at,
                    )
                },
            }
            &&& after.stats == shared.stats.after_report()
            &&& after.media_ssrc == shared.media_ssrc
            &&& after.sr_echo == shared.sr_echo
            &&& after.peer == shared.peer
            &&& after.frames == shared.frames
        },
{
}

/// A Sender Report settles the source where none is known, and is kept for the
/// echo with the time at which it came; RTCP without one changes neither.
pub proof fn law_sender_reports_are_noted(
    shared: RtcpShared,
    buf: Seq<u8>,
    source_port: u16,
    separate: bool,
    now: u64,
)
    ensures
        ({
            let after = shared.after_inbound(buf, source_port, separate, now);
            &&& first_sender_report(buf) is None ==> after.sr_echo == shared.sr_echo
                && after.media_ssrc == shared.media_ssrc
            &&& first_sender_report(buf) matches Some(report) ==> {
                &&& after.sr_echo == Some(
                    SrEcho { ntp_middle: report.ntp_middle, received_at: now },
                )
                &&& shared.media_ssrc is None ==> after.media_ssrc == Some(report.ssrc)
                &&& shared.media_ssrc is Some ==> after.media_ssrc == shared.media_ssrc
            }
        }),
{
}

/// Before any RTCP has been seen, RTCP goes out from each socket that is there, to
/// the conventional port of each; a peer on a port of its own cannot be reached
/// without the socket for it.
pub proof fn law_an_unseen_peer_is_tried_everywhere(packet: Seq<u8>, port: u16)
    ensures
        routed(RtcpShared::fresh().peer, true, packet) == seq![
            OutgoingModel { socket: Socket::Rtp, port: 50001, packet },
            OutgoingModel { socket: Socket::Rtcp, port: 50002, packet },
        ],
        routed(RtcpShared::fresh().peer, false, packet) == seq![
            OutgoingModel { socket: Socket::Rtp, port: 50001, packet },
        ],
        routed(RtcpPeer::Separate(port), false, packet).len() == 0,
{
}

/// Before anything has arrived there is nothing to report, nobody to ask and nothing
/// to echo, and no frame and no packet has been counted.
pub proof fn law_nothing_is_known_at_first(sender: RtcpSender, now: u64)
    ensures
        RtcpShared::fresh().blocks(now).len() == 0,
        !sender.asks(RtcpShared::fresh(), now),
        RtcpShared::fresh().sr_echo is None,
        RtcpShared::fresh().frames == 0,
        !RtcpShared::fresh().stats.initialized,
        RtcpShared::fresh().relative_highest() == 0,
{
}

/// The relative number leads from the first packet's number to the highest one,
/// around the 16-bit wrap; before any packet it is zero.
pub proof fn law_the_relative_number_leads_to_the_highest(shared: RtcpShared)
    ensures
        shared.stats.initialized ==> (shared.stats.base_seq + shared.relative_highest()) % 0x1_0000
            == shared.stats.ext_max % 0x1_0000,
        !shared.stats.initialized ==> shared.relative_highest() == 0,
{
}

/// A datagram goes out as it is: each by its own socket, to its own port, with its
/// whole packet.
pub proof fn law_datagrams_go_out_as_they_are(datagrams: Seq<Outgoing>, i: int)
    ensures
        outgoing(datagrams).len() == datagrams.len(),
        0 <= i < datagrams.len() ==> {
            &&& outgoing(datagrams)[i].socket == datagrams[i].socket
            &&& outgoing(datagrams)[i].port == datagrams[i].port
            &&& outgoing(datagrams)[i].packet == datagrams[i].packet@
        },
{
}

} // verus!
