//! RTP reception statistics of one source (RFC 3550, without jitter).
use vstd::prelude::*;

verus! {

/// One report block of an RTCP Receiver Report.
#[derive(Debug, Clone, Copy, PartialEq, Eq, Structural)]
pub struct ReportBlock {
    pub source_ssrc: u32,
    /// Packets lost since the previous report, in 1/256 of those expected.
    pub fraction_lost: u8,
    /// Packets lost since the start (24 bits).
    pub cumulative_lost: u32,
    /// Extended highest sequence number received.
    pub highest_seq: u32,
    pub jitter: u32,
    /// Middle 32 bits of the last Sender Report's NTP timestamp.
    pub lsr: u32,
    /// Delay since that report, in 1/65536 s.
    pub dlsr: u32,
}

/// Reception statistics for a single source, enough to fill in a report block.
#[derive(Debug, Clone, Copy, PartialEq, Eq, Structural)]
pub struct RtpStats {
    pub initialized: bool,
    /// Extended sequence number of the first packet seen.
    pub base_seq: u32,
    /// Extended highest sequence number seen: wraps of the 16-bit counter in
    /// the high half, the counter itself in the low half.
    pub ext_max: u32,
    pub received: u32,
    /// Packets expected and received as of the previous report.
    pub expected_prior: u32,
    pub received_prior: u32,
}

/// What is left of `x` in 32 bits.
pub open spec fn wrap32(x: int) -> u32 {
    (x % 0x1_0000_0000) as u32
}

/// The number that is `seq` modulo 2^16 and lies nearest `max`: less than
/// `0x8000` away, or exactly that far in the direction that changes the wrap
/// count.
pub open spec fn nearest_extended(max: int, seq: int) -> int {
    let cycles = max - max % 0x1_0000;
    let low = max % 0x1_0000;
    if seq - low >= 0x8000 {
        cycles - 0x1_0000 + seq
    } else if low - seq >= 0x8000 {
        cycles + 0x1_0000 + seq
    } else {
        cycles + seq
    }
}

impl RtpStats {
    /// The statistics before the first packet.
    pub open spec fn fresh() -> RtpStats {
        RtpStats {
            initialized: false,
            base_seq: 0,
            ext_max: 0,
            received: 0,
            expected_prior: 0,
            received_prior: 0,
        }
    }

    /// The statistics after one more packet, numbered `seq`.
    ///
    /// A late packet, even one from before the first, leaves the highest number as
    /// it is. The counters keep 32 bits: the count of packets wraps, and a number
    /// that does not fit leaves the highest one as it is.
    pub open spec fn after_packet(self, seq: u16) -> RtpStats {
        if !self.initialized {
            RtpStats {
                initialized: true,
                base_seq: seq as u32,
                ext_max: seq as u32,
                received: 1,
                ..self
            }
        } else {
            let number = nearest_extended(self.ext_max as int, seq as int);
            RtpStats {
                ext_max: if self.ext_max < number <= u32::MAX {
                    number as u32
                } else {
                    self.ext_max
                },
                received: wrap32(self.received + 1),
                ..self
            }
        }
    }

    /// Packets that the sequence numbers seen so far span.
    pub open spec fn expected(self) -> u32 {
        wrap32(self.ext_max - self.base_seq + 1)
    }

    /// Packets expected since the previous report.
    pub open spec fn expected_interval(self) -> u32 {
        wrap32(self.expected() - self.expected_prior)
    }

    /// Packets received since the previous report.
    pub open spec fn received_interval(self) -> u32 {
        wrap32(self.received - self.received_prior)
    }

    /// Packets lost since the previous report.
    pub open spec fn lost_interval(self) -> int {
        if self.expected_interval() > self.received_interval() {
            self.expected_interval() - self.received_interval()
        } else {
            0
        }
    }

    /// The loss since the previous report in 1/256 of what was expected, as far
    /// as it fits: the product keeps 32 bits and the quotient 8.
    pub open spec fn fraction_lost(self) -> u8 {
        if self.lost_interval() == 0 {
            0
        } else {
            ((self.lost_interval() * 256) % 0x1_0000_0000 / (self.expected_interval() as int)
                % 256) as u8
        }
    }

    /// Packets lost since the start, in 24 bits.
    pub open spec fn cumulative_lost(self) -> u32 {
        if self.expected() > self.received {
            ((self.expected() - self.received) % 0x100_0000) as u32
        } else {
            0
        }
    }

    /// The report block for these statistics.
    pub open spec fn block(self, source_ssrc: u32, lsr: u32, dlsr: u32) -> ReportBlock {
        ReportBlock {
            source_ssrc,
            fraction_lost: self.fraction_lost(),
            cumulative_lost: self.cumulative_lost(),
            highest_seq: self.ext_max,
            jitter: 0,
            lsr,
            dlsr,
        }
    }

    /// The statistics once a report has gone out.
    pub open spec fn after_report(self) -> RtpStats {
        RtpStats { expected_prior: self.expected(), received_prior: self.received, ..self }
    }

    /// The statistics before the first packet.
    pub fn new() -> (r: RtpStats)
        ensures
            r == RtpStats::fresh(),
    {
        RtpStats {
            initialized: false,
            base_seq: 0,
            ext_max: 0,
            received: 0,
            expected_prior: 0,
            received_prior: 0,
        }
    }

    /// Fold one packet's 16-bit sequence number into the statistics.
    pub fn on_packet(&mut self, seq: u16)
        ensures
            *final(self) == old(self).after_packet(seq),
    {
        let seq: u32 = seq as u32;
        if !self.initialized {
            self.initialized = true;
            self.base_seq = seq;
            self.ext_max = seq;
            self.received = 1;
            return;
        }
        let max: u32 = self.ext_max;
        proof {
            assert(max & !0xffffu32 == max - max % 0x1_0000) by (bit_vector);
            assert(max & 0xffff == max % 0x1_0000) by (bit_vector);
            assert(forall|c: u32| c % 0x1_0000 == 0 && seq < 0x1_0000 ==> #[trigger] (c | seq) == c + seq)
                by (bit_vector);
        }
        let cycles: u32 = max & !0xffffu32;
        let max_lo: u32 = max & 0xffff;
        let ext: u32 = if seq >= max_lo {
            if seq - max_lo < 0x8000 {
                cycles | seq
            } else {
                // From before the last wrap: late.
                max
            }
        } else if max_lo - seq < 0x8000 {
            cycles | seq
        } else {
            cycles.wrapping_add(0x1_0000) | seq
        };
        if ext > self.ext_max {
            self.ext_max = ext;
        }
        self.received = self.received.wrapping_add(1);
    }

    /// Produce a report block for this source and start the next interval.
    pub fn report_block(&mut self, source_ssrc: u32, lsr: u32, dlsr: u32) -> (r: ReportBlock)
        ensures
            r == old(self).block(source_ssrc, lsr, dlsr),
            *final(self) == old(self).after_report(),
    {
        let ghost before = *self;
        let expected: u32 = self.ext_max.wrapping_sub(self.base_seq).wrapping_add(1);
        assert(expected == before.expected());
        let lost: u32 = expected.saturating_sub(self.received);
        let expected_interval: u32 = expected.wrapping_sub(self.expected_prior);
        let received_interval: u32 = self.received.wrapping_sub(self.received_prior);
        self.expected_prior = expected;
        self.received_prior = self.received;
        let lost_interval: u32 = expected_interval.saturating_sub(received_interval);
        assert(expected_interval == before.expected_interval());
        assert(lost_interval == before.lost_interval());
        let fraction_lost: u8 = if expected_interval == 0 || lost_interval == 0 {
            0
        } else {
            let shifted: u32 = lost_interval << 8;
            assert(shifted == (lost_interval * 256) % 0x1_0000_0000) by (bit_vector)
                requires
                    shifted == lost_interval << 8,
            ;
            let quotient: u32 = shifted / expected_interval;
            assert(quotient == (before.lost_interval() * 256) % 0x1_0000_0000 / (
            before.expected_interval() as int));
            assert(quotient as u8 == quotient % 256) by (bit_vector);
            quotient as u8
        };
        assert(fraction_lost == before.fraction_lost());
        assert(lost & 0x00ff_ffff == lost % 0x100_0000) by (bit_vector);
        ReportBlock {
            source_ssrc,
            fraction_lost,
            cumulative_lost: lost & 0x00ff_ffff,
            highest_seq: self.ext_max,
            jitter: 0,
            lsr,
            dlsr,
        }
    }
}

/// The statistics after the packets whose full sequence numbers are `numbers`
/// have arrived in that order, each carrying the low 16 bits of its number.
pub open spec fn after_numbers(numbers: Seq<int>) -> RtpStats
    decreases numbers.len(),
{
    if numbers.len() == 0 {
        RtpStats::fresh()
    } else {
        after_numbers(numbers.drop_last()).after_packet((numbers.last() % 0x1_0000) as u16)
    }
}

/// The highest of `numbers`.
pub open spec fn highest(numbers: Seq<int>) -> int
    decreases numbers.len(),
{
    if numbers.len() <= 1 {
        numbers[0]
    } else if numbers.last() > highest(numbers.drop_last()) {
        numbers.last()
    } else {
        highest(numbers.drop_last())
    }
}

/// Whether `numbers` can be told apart by their low 16 bits: the first fits 16
/// bits, none exceeds 32, and each later one lies less than half a wrap from the
/// highest before it. One from before the first may be negative.
pub open spec fn trackable(numbers: Seq<int>) -> bool
    decreases numbers.len(),
{
    numbers.len() == 0 || {
        &&& trackable(numbers.drop_last())
        &&& numbers.last() <= u32::MAX
        &&& if numbers.len() == 1 {
            0 <= numbers.last() <= u16::MAX
        } else {
            -0x8000 < numbers.last() - highest(numbers.drop_last()) < 0x8000
        }
    }
}

/// A received sequence number is resolved to the full number nearest the
/// highest seen: no other number with the same low 16 bits is nearer.
pub proof fn law_resolves_to_the_nearest(max: int, seq: int, other: int)
    requires
        0 <= seq < 0x1_0000,
        other % 0x1_0000 == seq,
    ensures
        nearest_extended(max, seq) % 0x1_0000 == seq,
        -0x8000 <= nearest_extended(max, seq) - max <= 0x8000,
        other != nearest_extended(max, seq) ==> other - max >= 0x8000 || max - other >= 0x8000,
{
}

/// A packet less than half a wrap from the highest number seen is given its
/// true number, whichever side of a wrap it lies on, and raises the highest number
/// only if it is higher.
pub proof fn law_wraps_are_followed(stats: RtpStats, number: int)
    requires
        stats.initialized,
        number <= u32::MAX,
        -0x8000 < number - stats.ext_max < 0x8000,
    ensures
        nearest_extended(stats.ext_max as int, number % 0x1_0000) == number,
        stats.after_packet((number % 0x1_0000) as u16).ext_max == if number > stats.ext_max {
            number
        } else {
            stats.ext_max as int
        },
{
    law_resolves_to_the_nearest(stats.ext_max as int, number % 0x1_0000, number);
}

/// The highest number of a source never falls.
pub proof fn law_highest_never_falls(stats: RtpStats, seq: u16)
    requires
        stats.initialized,
    ensures
        stats.after_packet(seq).ext_max >= stats.ext_max,
{
}

/// However packets are reordered or repeated within half a wrap of the highest
/// one, the statistics hold the first number, the highest number and the count.
pub proof fn law_arrivals_are_counted(numbers: Seq<int>)
    requires
        trackable(numbers),
        0 < numbers.len() <= u32::MAX,
    ensures
        after_numbers(numbers) == (RtpStats {
            initialized: true,
            base_seq: numbers[0] as u32,
            ext_max: highest(numbers) as u32,
            received: numbers.len() as u32,
            expected_prior: 0,
            received_prior: 0,
        }),
        0 <= numbers[0] <= highest(numbers) <= u32::MAX,
    decreases numbers.len(),
{
    let before = numbers.drop_last();
    if numbers.len() == 1 {
        assert(after_numbers(before) == RtpStats::fresh());
        assert(numbers.last() == numbers[0] == highest(numbers));
        assert(0 <= numbers.last() <= u16::MAX);
    } else {
        law_arrivals_are_counted(before);
        assert(before[0] == numbers[0]);
        law_wraps_are_followed(after_numbers(before), numbers.last());
    }
}

/// A stream of which every packet from the first on arrives once, in order,
/// reports no loss.
pub proof fn law_complete_stream_reports_no_loss(
    first: u16,
    count: nat,
    ssrc: u32,
    lsr: u32,
    dlsr: u32,
)
    requires
        0 < count,
        first + count <= u32::MAX,
    ensures
        after_numbers(Seq::new(count, |i: int| first + i)).block(ssrc, lsr, dlsr) == (ReportBlock {
            source_ssrc: ssrc,
            fraction_lost: 0,
            cumulative_lost: 0,
            highest_seq: (first + count - 1) as u32,
            jitter: 0,
            lsr,
            dlsr,
        }),
{
    let numbers = Seq::new(count, |i: int| first + i);
    lemma_consecutive(first, count);
    law_arrivals_are_counted(numbers);
}

proof fn lemma_consecutive(first: u16, count: nat)
    requires
        0 < count,
        first + count <= u32::MAX,
    ensures
        trackable(Seq::new(count, |i: int| first + i)),
        highest(Seq::new(count, |i: int| first + i)) == first + count - 1,
    decreases count,
{
    let numbers = Seq::new(count, |i: int| first + i);
    if count > 1 {
        lemma_consecutive(first, (count - 1) as nat);
        assert(numbers.drop_last() =~= Seq::new((count - 1) as nat, |i: int| first + i));
    } else {
        assert(trackable(numbers.drop_last()));
    }
}

/// Without a packet in between, a second report shows no loss for its interval
/// and the same totals as the first.
pub proof fn law_a_report_closes_its_interval(stats: RtpStats, ssrc: u32, lsr: u32, dlsr: u32)
    ensures
        stats.after_report().fraction_lost() == 0,
        stats.after_report().block(ssrc, lsr, dlsr) == (ReportBlock {
            fraction_lost: 0,
            ..stats.block(ssrc, lsr, dlsr)
        }),
        stats.after_report().after_report() == stats.after_report(),
{
}

/// The reported fraction is the share of the interval's packets that was lost,
/// rounded down to 1/256, when fewer than 2^24 were lost and at least one came
/// through.
pub proof fn law_fraction_is_the_share_lost(stats: RtpStats)
    requires
        stats.lost_interval() < 0x100_0000,
        stats.received_interval() > 0,
        stats.expected_interval() > 0,
    ensures
        stats.fraction_lost() == stats.lost_interval() * 256 / (stats.expected_interval() as int),
{
    let lost = stats.lost_interval();
    let expected = stats.expected_interval() as int;
    if lost > 0 {
        assert(lost * 256 / expected < 256) by (nonlinear_arith)
            requires
                0 < lost < expected,
        ;
        assert(0 <= lost * 256 / expected) by (nonlinear_arith)
            requires
                0 < lost < expected,
        ;
    } else {
        assert(0int / expected == 0) by (nonlinear_arith)
            requires
                expected > 0,
        ;
    }
}

/// A packet ahead of the highest number by less than half a wrap raises it by its
/// distance, and one behind, or the same again, leaves it; every packet counts
/// once. Exactly half a wrap ahead is ahead if the wrap count changes on the way.
/// The first packet is both the first number and the highest.
pub proof fn law_a_packet_is_counted(stats: RtpStats, seq: u16)
    ensures
        ({
            let after = stats.after_packet(seq);
            let ahead = (seq - stats.ext_max) % 0x1_0000;
            let forward = ahead != 0 && (ahead < 0x8000 || (ahead == 0x8000 && stats.ext_max
                % 0x1_0000 >= 0x8000));
            &&& after.initialized
            &&& after.expected_prior == stats.expected_prior
            &&& after.received_prior == stats.received_prior
            &&& stats.initialized ==> {
                &&& after.base_seq == stats.base_seq
                &&& after.received == if stats.received == u32::MAX {
                    0
                } else {
                    stats.received + 1
                }
                &&& after.ext_max == if forward && stats.ext_max + ahead <= u32::MAX {
                    stats.ext_max + ahead
                } else {
                    stats.ext_max as int
                }
            }
            &&& !stats.initialized ==> {
                &&& after.base_seq == seq
                &&& after.ext_max == seq
                &&& after.received == 1
            }
        }),
        !RtpStats::fresh().initialized,
        RtpStats::fresh().base_seq == 0,
        RtpStats::fresh().ext_max == 0,
        RtpStats::fresh().received == 0,
        RtpStats::fresh().expected_prior == 0,
        RtpStats::fresh().received_prior == 0,
{
}

/// A report block names its source and the highest number, and counts as lost what
/// lies between the first and the highest number and did not come: since the start
/// in 24 bits, and since the previous report as a share in 1/256, rounded down. The
/// next interval begins where this one ends.
pub proof fn law_a_report_tells_the_loss(stats: RtpStats, ssrc: u32, lsr: u32, dlsr: u32)
    ensures
        ({
            let block = stats.block(ssrc, lsr, dlsr);
            let after = stats.after_report();
            let spanned = (stats.ext_max - stats.base_seq + 1) % 0x1_0000_0000;
            let due = (spanned - stats.expected_prior) % 0x1_0000_0000;
            let came = (stats.received - stats.received_prior) % 0x1_0000_0000;
            let lost = due - came;
            &&& block.source_ssrc == ssrc
            &&& block.highest_seq == stats.ext_max
            &&& block.jitter == 0
            &&& block.lsr == lsr
            &&& block.dlsr == dlsr
            &&& spanned <= stats.received ==> block.cumulative_lost == 0
            &&& spanned > stats.received ==> block.cumulative_lost == (spanned - stats.received)
                % 0x100_0000
            &&& lost <= 0 ==> block.fraction_lost == 0
            &&& lost > 0 ==> block.fraction_lost == (lost % 0x100_0000) * 256 / due % 256
            &&& 0 < lost < 0x100_0000 && came > 0 ==> block.fraction_lost * due <= lost * 256 < (
            block.fraction_lost + 1) * due
            &&& after.expected_prior == spanned
            &&& after.received_prior == stats.received
            &&& after.initialized == stats.initialized
            &&& after.base_seq == stats.base_seq
            &&& after.ext_max == stats.ext_max
            &&& after.received == stats.received
        }),
{
    let due = stats.expected_interval() as int;
    let lost = stats.lost_interval();
    let spanned = (stats.ext_max - stats.base_seq + 1) % 0x1_0000_0000;
    let came = stats.received_interval() as int;
    assert(stats.expected() == spanned);
    assert(due == (spanned - stats.expected_prior) % 0x1_0000_0000);
    assert(came == (stats.received - stats.received_prior) % 0x1_0000_0000);
    assert((lost * 256) % 0x1_0000_0000 == (lost % 0x100_0000) * 256);
    if 0 < lost < 0x100_0000 && came > 0 {
        law_fraction_is_the_share_lost(stats);
        let share = lost * 256 / due;
        assert(share * due <= lost * 256 < (share + 1) * due) by (nonlinear_arith)
            requires
                due > 0,
                share == lost * 256 / due,
        ;
    }
}

} // verus!
