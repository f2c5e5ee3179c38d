//! Data and packet rate of the measurement stream: bytes and packets are
//! counted over a window of `RATE` milliseconds, and each full window is
//! reported once.
use vstd::prelude::*;

verus! {

/// Unit in which a data rate is shown.
#[derive(Debug, Clone, Copy, PartialEq, Eq, Structural)]
pub enum RateUnit {
    /// Bits per second
    Bps,
    /// Kibibits per second
    Kbps,
    /// Mebibits per second
    Mbps,
}

impl RateUnit {
    /// Name of the unit as printed.
    pub fn as_str(self) -> (r: &'static str)
        ensures
            r@ == (match self {
                RateUnit::Bps => "bps"@,
                RateUnit::Kbps => "kbps"@,
                RateUnit::Mbps => "mbps"@,
            }),
    {
        match self {
            RateUnit::Bps => "bps",
            RateUnit::Kbps => "kbps",
            RateUnit::Mbps => "mbps",
        }
    }

    /// Bits in one unit.
    pub open spec fn spec_divisor(self) -> u64 {
        match self {
            RateUnit::Bps => 1,
            RateUnit::Kbps => 1024,
            RateUnit::Mbps => 1048576,
        }
    }

    /// Bits in one unit.
    pub fn divisor(self) -> (r: u64)
        ensures
            r == self.spec_divisor(),
    {
        match self {
            RateUnit::Bps => 1,
            RateUnit::Kbps => 1024,
            RateUnit::Mbps => 1048576,
        }
    }
}

/// The unit for an amount of bits: the largest one of which there is at
/// least one whole unit.
pub open spec fn spec_rate_unit(bits: u64) -> RateUnit {
    if bits >= 1048576 {
        RateUnit::Mbps
    } else if bits >= 1024 {
        RateUnit::Kbps
    } else {
        RateUnit::Bps
    }
}

/// The unit for an amount of bits.
pub fn rate_unit(bits: u64) -> (r: RateUnit)
    ensures
        r == spec_rate_unit(bits),
{
    if bits >= 1048576 {
        RateUnit::Mbps
    } else if bits >= 1024 {
        RateUnit::Kbps
    } else {
        RateUnit::Bps
    }
}

/// Traffic of a window: the bits sent, the packets counted and the
/// window's length in milliseconds.
#[derive(Debug, Clone, Copy, PartialEq, Eq, Structural)]
pub struct RateSample {
    /// Bits sent
    pub bits: u64,
    /// Packets counted
    pub packets: usize,
    /// Length of the window in milliseconds
    pub dur_ms: u64,
}

/// Byte and packet counters of the current window.
pub struct DataRateCounter<const RATE: u32> {
    bytes: usize,
    count: usize,
    start_ms: u64,
}

/// A counter incremented as an atomic add does: wrapping at the maximum.
pub open spec fn bump(count: usize) -> usize {
    if count == usize::MAX {
        0
    } else {
        (count + 1) as usize
    }
}

/// Counters as plain values: bytes of the current window, packets since
/// the last report, start of the window in milliseconds.
pub type Counters = (usize, usize, u64);

/// One packet of `bytes` bytes counted at `now_ms` with a window of `rate`
/// milliseconds: the counters after it and the report, if the window
/// closed. More than `rate` ms after the window started, the window closes,
/// a new one starts at `now_ms`, and when any bytes were sent the traffic
/// of the closed window (this packet included) is reported and the packet
/// counter restarts; otherwise the bytes and the packet are only counted.
pub open spec fn spec_update(rate: u32, c: Counters, now_ms: u64, bytes: usize) -> (
    Counters,
    Option<RateSample>,
) {
    let dur = now_ms - c.2;
    let sent = c.0 + bytes;
    let counted = bump(c.1);
    if dur > rate {
        if sent == 0 {
            ((0, counted, now_ms), None)
        } else {
            (
                (0, 0, now_ms),
                Some(RateSample { bits: (sent * 8) as u64, packets: counted, dur_ms: dur as u64 }),
            )
        }
    } else {
        ((sent as usize, counted, c.2), None)
    }
}

impl<const RATE: u32> DataRateCounter<RATE> {
    /// The counters as plain values.
    pub closed spec fn spec_counters(&self) -> Counters {
        (self.bytes, self.count, self.start_ms)
    }

    /// Bytes counted in the current window.
    pub open spec fn spec_bytes(&self) -> usize {
        self.spec_counters().0
    }

    /// Packets counted since the last report.
    pub open spec fn spec_count(&self) -> usize {
        self.spec_counters().1
    }

    /// Start of the current window, in milliseconds.
    pub open spec fn spec_start_ms(&self) -> u64 {
        self.spec_counters().2
    }

    /// Empty counters with a window that starts at `now_ms`.
    pub fn new(now_ms: u64) -> (r: Self)
        ensures
            r.spec_bytes() == 0,
            r.spec_count() == 0,
            r.spec_start_ms() == now_ms,
    {
        DataRateCounter { bytes: 0, count: 0, start_ms: now_ms }
    }

    /// Bytes counted in the current window.
    pub fn bytes(&self) -> (r: usize)
        ensures
            r == self.spec_bytes(),
    {
        self.bytes
    }

    /// Start of the current window, in milliseconds.
    pub fn start_ms(&self) -> (r: u64)
        ensures
            r == self.spec_start_ms(),
    {
        self.start_ms
    }

    /// Count a packet of `bytes` bytes sent at `now_ms`. Once more than
    /// `RATE` milliseconds have passed since the window started, the window
    /// closes: a new one starts at `now_ms`, and when any bytes were sent
    /// the traffic of the closed window (this packet included) is reported
    /// and the packet counter restarts.
    pub fn update(&mut self, now_ms: u64, bytes: usize) -> (r: Option<RateSample>)
        requires
            old(self).spec_start_ms() <= now_ms,
            (old(self).spec_bytes() + bytes) * 8 <= usize::MAX,
        ensures
            spec_update(RATE, old(self).spec_counters(), now_ms, bytes) == (
                final(self).spec_counters(),
                r,
            ),
    {
        let dur: u64 = now_ms - self.start_ms;
        self.count = if self.count == usize::MAX {
            0
        } else {
            self.count + 1
        };
        if dur > RATE as u64 {
            self.start_ms = now_ms;
            let sent: usize = self.bytes + bytes;
            self.bytes = 0;
            if sent == 0 {
                None
            } else {
                let packets: usize = self.count;
                self.count = 0;
                Some(RateSample { bits: (sent * 8) as u64, packets, dur_ms: dur })
            }
        } else {
            self.bytes = self.bytes + bytes;
            None
        }
    }

    /// Traffic of the current window so far, as of `now_ms`, when any
    /// bytes were counted.
    pub fn peek(&self, now_ms: u64) -> (r: Option<RateSample>)
        requires
            self.spec_start_ms() <= now_ms,
            self.spec_bytes() * 8 <= usize::MAX,
        ensures
            r == (if self.spec_bytes() == 0 {
                None
            } else {
                Some(
                    RateSample {
                        bits: (self.spec_bytes() * 8) as u64,
                        packets: self.spec_count(),
                        dur_ms: (now_ms - self.spec_start_ms()) as u64,
                    },
                )
            }),
    {
        if self.bytes == 0 {
            None
        } else {
            Some(
                RateSample {
                    bits: (self.bytes * 8) as u64,
                    packets: self.count,
                    dur_ms: now_ms - self.start_ms,
                },
            )
        }
    }
}

/// Counters after packets `(time, size)` counted one after the other.
pub open spec fn run_updates(rate: u32, c: Counters, packets: Seq<(u64, usize)>) -> Counters
    decreases packets.len(),
{
    if packets.len() == 0 {
        c
    } else {
        spec_update(
            rate,
            run_updates(rate, c, packets.drop_last()),
            packets.last().0,
            packets.last().1,
        ).0
    }
}

/// Total size of the packets.
pub open spec fn total_bytes(packets: Seq<(u64, usize)>) -> nat
    decreases packets.len(),
{
    if packets.len() == 0 {
        0
    } else {
        total_bytes(packets.drop_last()) + packets.last().1 as nat
    }
}

/// A packet counter after `n` more packets.
pub open spec fn bumps(count: usize, n: nat) -> usize
    decreases n,
{
    if n == 0 {
        count
    } else {
        bump(bumps(count, (n - 1) as nat))
    }
}

/// Packets counted no later than `rate` ms after the window started report
/// nothing and only add to the counters.
proof fn lemma_within_window(rate: u32, c: Counters, packets: Seq<(u64, usize)>)
    requires
        forall|i: int| 0 <= i < packets.len() ==> c.2 <= #[trigger] packets[i].0 <= c.2 + rate,
        c.0 + total_bytes(packets) <= usize::MAX,
    ensures
        run_updates(rate, c, packets) == ((c.0 + total_bytes(packets)) as usize, bumps(
            c.1,
            packets.len(),
        ), c.2),
        forall|k: int|
            0 <= k < packets.len() ==> (#[trigger] spec_update(
                rate,
                run_updates(rate, c, packets.take(k)),
                packets[k].0,
                packets[k].1,
            )).1 is None,
    decreases packets.len(),
{
    if packets.len() > 0 {
        let init = packets.drop_last();
        assert forall|i: int| 0 <= i < init.len() implies c.2 <= #[trigger] init[i].0 <= c.2 + rate by {
            assert(init[i] == packets[i]);
        }
        lemma_within_window(rate, c, init);
        assert(packets.last() == packets[packets.len() - 1]);
        assert forall|k: int| 0 <= k < packets.len() implies (#[trigger] spec_update(
            rate,
            run_updates(rate, c, packets.take(k)),
            packets[k].0,
            packets[k].1,
        )).1 is None by {
            if k < init.len() {
                assert(packets.take(k) =~= init.take(k));
                assert(init[k] == packets[k]);
            } else {
                assert(packets.take(k) =~= init);
            }
        }
    }
}

/// Every byte of a window is reported once: packets counted no later than
/// `rate` ms after the window started report nothing and only add to the
/// counters, and the first packet after that reports the bytes of the whole
/// window, its own included, as bits, with all packets counted since the
/// last report.
pub proof fn lemma_window_report(
    rate: u32,
    c: Counters,
    packets: Seq<(u64, usize)>,
    now_ms: u64,
    bytes: usize,
)
    requires
        forall|i: int| 0 <= i < packets.len() ==> c.2 <= #[trigger] packets[i].0 <= c.2 + rate,
        now_ms > c.2 + rate,
        (c.0 + total_bytes(packets) + bytes) * 8 <= usize::MAX,
        c.0 + total_bytes(packets) + bytes > 0,
    ensures
        forall|k: int|
            0 <= k < packets.len() ==> (#[trigger] spec_update(
                rate,
                run_updates(rate, c, packets.take(k)),
                packets[k].0,
                packets[k].1,
            )).1 is None,
        run_updates(rate, c, packets) == ((c.0 + total_bytes(packets)) as usize, bumps(
            c.1,
            packets.len(),
        ), c.2),
        spec_update(rate, run_updates(rate, c, packets), now_ms, bytes).1 == Some(
            RateSample {
                bits: ((c.0 + total_bytes(packets) + bytes) * 8) as u64,
                packets: bumps(c.1, packets.len() + 1),
                dur_ms: (now_ms - c.2) as u64,
            },
        ),
{
    lemma_within_window(rate, c, packets);
    assert(bumps(c.1, packets.len() + 1) == bump(bumps(c.1, packets.len())));
}

} // verus!
