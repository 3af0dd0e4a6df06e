//! The interval buffer: packets of the current interval, and the detection of
//! interval boundaries from packet timestamps alone.

use vstd::prelude::*;
use std::collections::VecDeque;
use crate::errors::ArchiveError;
use crate::types::WeatherPacket;

verus! {

/// Division that rounds toward zero, for a positive divisor.
pub open spec fn div_toward_zero(t: int, i: int) -> int {
    if t >= 0 {
        t / i
    } else {
        -((-t) / i)
    }
}

/// The end of the interval of length `i` that a packet stamped `t` opens:
/// the next multiple of `i` above the multiple at or toward zero from `t`.
pub open spec fn interval_end(t: int, i: int) -> int {
    (div_toward_zero(t, i) + 1) * i
}

/// The largest number of packets a buffer for intervals of length `i` holds.
pub open spec fn capacity_for(i: int) -> int {
    if 2 * i >= 100 {
        2 * i
    } else {
        100
    }
}

/// Whether a packet stamped `t` makes a buffer with the interval end `end`
/// compute a new one: there is none yet, or `t` lies beyond it.
pub open spec fn opens_interval(end: Option<i64>, t: i64) -> bool {
    match end {
        None => true,
        Some(e) => t > e,
    }
}

/// The boundary that a packet stamped `t` reports against the interval end
/// `end`: that end, if there is one and `t` lies beyond it.
pub open spec fn boundary(end: Option<i64>, t: i64) -> Option<i64> {
    match end {
        Some(e) if t > e => Some(e),
        _ => None,
    }
}

/// The interval end after a packet stamped `t` has been added against the
/// interval end `end`: unchanged while `t` lies within it, else the end of
/// the interval that `t` opens.
pub open spec fn next_end(end: Option<i64>, t: i64, i: int) -> int {
    match end {
        Some(e) if t <= e => e as int,
        _ => interval_end(t as int, i),
    }
}

/// For a non-negative timestamp the interval end is `((t / i) + 1) * i`, lies
/// strictly above the timestamp and at most one interval above it.
pub proof fn lemma_interval_end_bounds(t: int, i: int)
    requires
        t >= 0,
        i > 0,
    ensures
        interval_end(t, i) == ((t / i) + 1) * i,
        interval_end(t, i) > t,
        interval_end(t, i) <= t + i,
        interval_end(t, i) % i == 0,
{
    vstd::arithmetic::div_mod::lemma_fundamental_div_mod(t, i);
    vstd::arithmetic::div_mod::lemma_mod_bound(t, i);
    assert((t / i + 1) * i == i * (t / i) + i) by (nonlinear_arith);
    vstd::arithmetic::div_mod::lemma_mod_multiples_basic(t / i + 1, i);
}

/// A timestamp on a multiple of the interval opens the interval that ends at
/// the next multiple.
pub proof fn lemma_interval_end_of_multiple(k: int, i: int)
    requires
        k >= 0,
        i > 0,
    ensures
        interval_end(k * i, i) == (k + 1) * i,
{
    vstd::arithmetic::div_mod::lemma_div_multiples_vanish(k, i);
    assert(k * i == i * k && k * i >= 0) by (nonlinear_arith)
        requires
            k >= 0,
            i > 0,
    ;
}

/// Every timestamp, negative ones included, lies strictly below the end of
/// the interval it opens.
pub proof fn lemma_interval_end_above(t: int, i: int)
    requires
        i > 0,
    ensures
        t < interval_end(t, i),
{
    if t >= 0 {
        lemma_interval_end_bounds(t, i);
    } else {
        let n = -t;
        vstd::arithmetic::div_mod::lemma_fundamental_div_mod(n, i);
        vstd::arithmetic::div_mod::lemma_mod_bound(n, i);
        let q = n / i;
        assert((-q + 1) * i == i - i * q) by (nonlinear_arith);
    }
}

/// Packets of the current interval, in arrival order.
pub struct PacketBuffer {
    interval: i32,
    packets: VecDeque<WeatherPacket>,
    current_interval_end: Option<i64>,
    max_packets: usize,
}

impl PacketBuffer {
    /// The interval length in seconds.
    pub closed spec fn spec_interval(&self) -> int {
        self.interval as int
    }

    /// The buffered packets, oldest first.
    pub closed spec fn packets(&self) -> Seq<WeatherPacket> {
        self.packets@
    }

    /// The end of the current interval, once a packet has opened one.
    pub closed spec fn spec_interval_end(&self) -> Option<i64> {
        self.current_interval_end
    }

    /// The interval is positive, the cap is the one for that interval, every
    /// buffered packet is well formed, and a non-empty buffer has an interval
    /// end.
    pub closed spec fn wf(&self) -> bool {
        &&& self.interval > 0
        &&& self.max_packets as int == capacity_for(self.interval as int)
        &&& self.packets@.len() <= self.max_packets
        &&& forall|j: int| 0 <= j < self.packets@.len() ==> (#[trigger] self.packets@[j]).wf()
        &&& self.packets@.len() > 0 ==> self.current_interval_end.is_some()
    }

    /// Whether adding a packet stamped `t` computes a new interval end: the
    /// buffer has none yet, or `t` lies beyond the one it has.
    pub open spec fn opens_interval(&self, t: i64) -> bool {
        opens_interval(self.spec_interval_end(), t)
    }

    /// The boundary that adding a packet stamped `t` reports: the current
    /// interval end if there is one and `t` lies beyond it.
    pub open spec fn boundary_on(&self, t: i64) -> Option<i64> {
        boundary(self.spec_interval_end(), t)
    }

    /// The interval end after adding a packet stamped `t`.
    pub open spec fn end_after(&self, t: i64) -> int {
        next_end(self.spec_interval_end(), t, self.spec_interval())
    }

    /// A well-formed buffer has a positive interval, holds no more packets
    /// than its cap and only well-formed ones, and has an interval end
    /// whenever it holds a packet.
    pub proof fn lemma_within_capacity(&self)
        requires
            self.wf(),
        ensures
            self.spec_interval() > 0,
            self.packets().len() <= capacity_for(self.spec_interval()),
            forall|j: int| 0 <= j < self.packets().len() ==> (#[trigger] self.packets()[j]).wf(),
            self.packets().len() > 0 ==> self.spec_interval_end().is_some(),
    {
    }

    /// An empty buffer for intervals of `interval` seconds.
    pub fn new(interval: i32) -> (b: Self)
        requires
            interval > 0,
        ensures
            b.wf(),
            b.spec_interval() == interval,
            b.packets() == Seq::<WeatherPacket>::empty(),
            b.spec_interval_end().is_none(),
    {
        let doubled: usize = (interval as usize) * 2;
        let max_packets: usize = if doubled >= 100 {
            doubled
        } else {
            100
        };
        PacketBuffer {
            interval,
            packets: VecDeque::new(),
            current_interval_end: None,
            max_packets,
        }
    }

    /// The end of the interval that a packet stamped `timestamp` opens.
    pub fn calculate_interval_end(&self, timestamp: i64) -> (end: i64)
        requires
            self.wf(),
            interval_end(timestamp as int, self.spec_interval()) <= i64::MAX,
        ensures
            end == interval_end(timestamp as int, self.spec_interval()),
            end > timestamp,
    {
        let interval: i64 = self.interval as i64;
        let q: i64 = timestamp / interval;
        proof {
            let t = timestamp as int;
            let i = interval as int;
            assert(q as int == div_toward_zero(t, i));
            lemma_interval_end_above(t, i);
            assert((q + 1) * i <= i64::MAX);
            assert(q + 1 <= i64::MAX) by (nonlinear_arith)
                requires
                    (q + 1) * i <= i64::MAX,
                    i > 0,
            ;
        }
        (q + 1) * interval
    }

    /// Adds a packet. Fails, leaving the buffer as it was, when the buffer is
    /// full. Otherwise the packet is appended; if its timestamp lies beyond
    /// the current interval end, that end is returned as the boundary to flush
    /// up to, and the interval that the packet opens becomes current.
    pub fn add(&mut self, packet: WeatherPacket) -> (r: Result<Option<i64>, ArchiveError>)
        requires
            old(self).wf(),
            packet.wf(),
            old(self).opens_interval(packet.date_time) ==> interval_end(
                packet.date_time as int,
                old(self).spec_interval(),
            ) <= i64::MAX,
        ensures
            final(self).wf(),
            final(self).spec_interval() == old(self).spec_interval(),
            match r {
                Err(e) => {
                    &&& e == ArchiveError::BufferOverflow
                    &&& old(self).packets().len() >= capacity_for(old(self).spec_interval())
                    &&& final(self).packets() == old(self).packets()
                    &&& final(self).spec_interval_end() == old(self).spec_interval_end()
                },
                Ok(boundary) => {
                    &&& old(self).packets().len() < capacity_for(old(self).spec_interval())
                    &&& final(self).packets() == old(self).packets().push(packet)
                    &&& boundary == old(self).boundary_on(packet.date_time)
                    &&& final(self).spec_interval_end().is_some()
                    &&& final(self).spec_interval_end().unwrap() == old(self).end_after(
                        packet.date_time,
                    )
                },
            },
    {
        if self.packets.len() >= self.max_packets {
            return Err(ArchiveError::BufferOverflow);
        }
        let packet_time: i64 = packet.date_time;
        let interval_end: i64 = match self.current_interval_end {
            Some(end) => end,
            None => {
                let end = self.calculate_interval_end(packet_time);
                self.current_interval_end = Some(end);
                end
            },
        };
        if packet_time <= interval_end {
            self.packets.push_back(packet);
            Ok(None)
        } else {
            self.packets.push_back(packet);
            let completed_interval = self.current_interval_end;
            let next = self.calculate_interval_end(packet_time);
            self.current_interval_end = Some(next);
            Ok(completed_interval)
        }
    }

    /// Removes and returns every buffered packet, oldest first, and forgets
    /// the current interval end.
    pub fn drain(&mut self) -> (drained: Vec<WeatherPacket>)
        requires
            old(self).wf(),
        ensures
            final(self).wf(),
            final(self).spec_interval() == old(self).spec_interval(),
            drained@ == old(self).packets(),
            final(self).packets() == Seq::<WeatherPacket>::empty(),
            final(self).spec_interval_end().is_none(),
            forall|j: int| 0 <= j < drained@.len() ==> (#[trigger] drained@[j]).wf(),
    {
        let mut drained: Vec<WeatherPacket> = Vec::new();
        let ghost before = self.packets@;
        loop
            invariant
                self.interval == old(self).interval,
                self.max_packets == old(self).max_packets,
                before == old(self).packets@,
                drained@ + self.packets@ == before,
            ensures
                self.packets@.len() == 0,
                drained@ == before,
            decreases self.packets@.len(),
        {
            match self.packets.pop_front() {
                Some(p) => {
                    drained.push(p);
                    proof {
                        assert(drained@ + self.packets@ =~= before);
                    }
                },
                None => {
                    proof {
                        assert(drained@ =~= drained@ + self.packets@);
                    }
                    break ;
                },
            }
        }
        self.current_interval_end = None;
        proof {
            assert(self.packets@ =~= Seq::<WeatherPacket>::empty());
        }
        drained
    }

    /// The number of buffered packets.
    pub fn len(&self) -> (n: usize)
        ensures
            n == self.packets().len(),
    {
        self.packets.len()
    }

    /// Whether no packet is buffered.
    pub fn is_empty(&self) -> (b: bool)
        ensures
            b == (self.packets().len() == 0),
    {
        self.packets.len() == 0
    }

    /// The end of the current interval, once a packet has opened one.
    pub fn interval_end(&self) -> (end: Option<i64>)
        ensures
            end == self.spec_interval_end(),
    {
        self.current_interval_end
    }
}

} // verus!
