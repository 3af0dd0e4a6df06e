//! The interval aggregator: feeds packets to the interval buffer and, when an
//! interval closes, routes the buffered packets into accumulators and shapes
//! the archive row.

use vstd::prelude::*;
use crate::buffer::{
    boundary, capacity_for, interval_end, next_end, opens_interval, PacketBuffer,
};
use crate::clock::utc_now;
use crate::errors::ArchiveError;
use crate::field_map::FieldMap;
use crate::rollups::{aggregate_packets, default_aggregate, series, Accumulator};
use crate::schema::ArchiveRow;
use crate::types::{AggregateType, WeatherPacket};

verus! {

/// The packets of one closed interval, routed into accumulators, with the
/// timestamp that the interval's archive row carries.
pub struct IntervalBatch {
    /// The end of the interval.
    pub end_time: i64,
    /// One accumulator per observation name that had a numeric value.
    pub accumulators: FieldMap<Accumulator>,
}

/// Whether `accumulators` is what routing `packets` gives: a name is present
/// exactly when some packet holds a numeric value under it, with the name's
/// default aggregate and the name's values in packet order.
pub open spec fn routed(packets: Seq<WeatherPacket>, accumulators: FieldMap<Accumulator>) -> bool {
    &&& accumulators.wf()
    &&& forall|name: Seq<char>| #[trigger]
        accumulators@.contains_key(name) <==> series(packets, name).len() > 0
    &&& forall|name: Seq<char>| #[trigger]
        accumulators@.contains_key(name) ==> accumulators@[name].values() == series(packets, name)
            && accumulators@[name].kind() == default_aggregate(name)
}

/// The aggregate held under `name`, or nothing where the name is missing or
/// its aggregate is.
pub open spec fn column(
    aggregates: Map<Seq<char>, (AggregateType, Option<u64>)>,
    name: Seq<char>,
) -> Option<u64> {
    if aggregates.contains_key(name) {
        aggregates[name].1
    } else {
        None
    }
}

/// The archive row that the aggregates project onto: each column takes the
/// aggregate of its observation name, names outside the schema are dropped.
pub open spec fn archive_row_of(
    date_time: i64,
    us_units: i32,
    interval: i32,
    aggregates: Map<Seq<char>, (AggregateType, Option<u64>)>,
) -> ArchiveRow {
    ArchiveRow {
        date_time,
        us_units,
        interval,
        out_temp: column(aggregates, "outTemp"@),
        in_temp: column(aggregates, "inTemp"@),
        extra_temp1: column(aggregates, "extraTemp1"@),
        out_humidity: column(aggregates, "outHumidity"@),
        in_humidity: column(aggregates, "inHumidity"@),
        barometer: column(aggregates, "barometer"@),
        pressure: column(aggregates, "pressure"@),
        altimeter: column(aggregates, "altimeter"@),
        wind_speed: column(aggregates, "windSpeed"@),
        wind_dir: column(aggregates, "windDir"@),
        wind_gust: column(aggregates, "windGust"@),
        wind_gust_dir: column(aggregates, "windGustDir"@),
        rain: column(aggregates, "rain"@),
        rain_rate: column(aggregates, "rainRate"@),
        dewpoint: column(aggregates, "dewpoint"@),
        windchill: column(aggregates, "windchill"@),
        heatindex: column(aggregates, "heatindex"@),
        radiation: column(aggregates, "radiation"@),
        uv: column(aggregates, "UV"@),
        rx_check_percent: column(aggregates, "rxCheckPercent"@),
    }
}

/// The aggregates of a batch, given for each accumulator, in entry order, the
/// real number it reduces to (as a binary64 bit pattern) or nothing: each
/// name with its accumulator's kind and that number.
pub open spec fn aggregates_of(
    accumulators: FieldMap<Accumulator>,
    results: Seq<Option<u64>>,
) -> Map<Seq<char>, (AggregateType, Option<u64>)> {
    Map::new(
        |name: Seq<char>| accumulators@.contains_key(name),
        |name: Seq<char>|
            (accumulators@[name].kind(), results[accumulators.keys().index_of(name)]),
    )
}

/// Looks one column up.
fn get_value(aggregates: &FieldMap<(AggregateType, Option<u64>)>, name: &str) -> (r: Option<u64>)
    requires
        aggregates.wf(),
    ensures
        r == column(aggregates@, name@),
{
    match aggregates.get(name) {
        Some(entry) => entry.1,
        None => None,
    }
}

/// Turns the packet stream into one batch per closed interval.
pub struct IntervalAggregator {
    interval: i32,
    unit_system: i32,
    buffer: PacketBuffer,
}

impl IntervalAggregator {
    /// The interval length in seconds.
    pub closed spec fn spec_interval(&self) -> i32 {
        self.interval
    }

    /// The unit-system tag given to archive rows.
    pub closed spec fn spec_unit_system(&self) -> i32 {
        self.unit_system
    }

    /// The packets waiting for their interval to close, oldest first.
    pub closed spec fn pending(&self) -> Seq<WeatherPacket> {
        self.buffer.packets()
    }

    /// The end of the interval being filled, once a packet has opened one.
    pub closed spec fn current_end(&self) -> Option<i64> {
        self.buffer.spec_interval_end()
    }

    /// The buffer is well formed and has the aggregator's interval.
    pub closed spec fn wf(&self) -> bool {
        &&& self.interval > 0
        &&& self.buffer.wf()
        &&& self.buffer.spec_interval() == self.interval
    }

    /// An aggregator over intervals of `interval` seconds, with nothing
    /// pending.
    pub fn new(interval: i32, unit_system: i32) -> (a: Self)
        requires
            interval > 0,
        ensures
            a.wf(),
            a.spec_interval() == interval,
            a.spec_unit_system() == unit_system,
            a.pending() == Seq::<WeatherPacket>::empty(),
            a.current_end().is_none(),
    {
        IntervalAggregator { interval, unit_system, buffer: PacketBuffer::new(interval) }
    }

    /// Takes one packet. A full buffer refuses it and nothing changes. A
    /// packet within the current interval is kept pending. A packet beyond
    /// the current interval end closes the interval: everything pending, that
    /// packet included, is routed into a batch stamped with the end that was
    /// crossed, and the aggregator is left with nothing pending.
    pub fn add_packet(&mut self, packet: WeatherPacket) -> (r: Result<
        Option<IntervalBatch>,
        ArchiveError,
    >)
        requires
            old(self).wf(),
            packet.wf(),
            opens_interval(old(self).current_end(), packet.date_time) ==> interval_end(
                packet.date_time as int,
                old(self).spec_interval() as int,
            ) <= i64::MAX,
        ensures
            final(self).wf(),
            final(self).spec_interval() == old(self).spec_interval(),
            final(self).spec_unit_system() == old(self).spec_unit_system(),
            match r {
                Err(e) => {
                    &&& e == ArchiveError::BufferOverflow
                    &&& old(self).pending().len() >= capacity_for(old(self).spec_interval() as int)
                    &&& final(self).pending() == old(self).pending()
                    &&& final(self).current_end() == old(self).current_end()
                },
                Ok(None) => {
                    &&& old(self).pending().len() < capacity_for(old(self).spec_interval() as int)
                    &&& boundary(old(self).current_end(), packet.date_time).is_none()
                    &&& final(self).pending() == old(self).pending().push(packet)
                    &&& final(self).current_end().is_some()
                    &&& final(self).current_end().unwrap() == next_end(
                        old(self).current_end(),
                        packet.date_time,
                        old(self).spec_interval() as int,
                    )
                },
                Ok(Some(batch)) => {
                    &&& old(self).pending().len() < capacity_for(old(self).spec_interval() as int)
                    &&& boundary(old(self).current_end(), packet.date_time) == Some(batch.end_time)
                    &&& routed(old(self).pending().push(packet), batch.accumulators)
                    &&& final(self).pending() == Seq::<WeatherPacket>::empty()
                    &&& final(self).current_end().is_none()
                },
            },
    {
        match self.buffer.add(packet) {
            Err(e) => Err(e),
            Ok(None) => Ok(None),
            Ok(Some(end_time)) => {
                let flushed = self.flush_interval(end_time);
                Ok(flushed)
            },
        }
    }

    /// Closes the interval at `end_time`: with nothing pending, nothing is
    /// produced; otherwise everything pending is routed into one batch
    /// stamped `end_time`. Either way nothing stays pending.
    pub fn flush_interval(&mut self, end_time: i64) -> (r: Option<IntervalBatch>)
        requires
            old(self).wf(),
        ensures
            final(self).wf(),
            final(self).spec_interval() == old(self).spec_interval(),
            final(self).spec_unit_system() == old(self).spec_unit_system(),
            final(self).pending() == Seq::<WeatherPacket>::empty(),
            final(self).current_end().is_none(),
            r.is_some() == (old(self).pending().len() > 0),
            match r {
                Some(batch) => batch.end_time == end_time && routed(
                    old(self).pending(),
                    batch.accumulators,
                ),
                None => true,
            },
    {
        let packets = self.buffer.drain();
        if packets.len() == 0 {
            return None;
        }
        let accumulators = aggregate_packets(&packets);
        Some(IntervalBatch { end_time, accumulators })
    }

    /// Closes the interval being filled, stamped with the current time: the
    /// flush on shutdown. With nothing pending, nothing is produced.
    pub fn force_flush(&mut self) -> (r: Option<IntervalBatch>)
        requires
            old(self).wf(),
        ensures
            final(self).wf(),
            final(self).spec_interval() == old(self).spec_interval(),
            final(self).spec_unit_system() == old(self).spec_unit_system(),
            final(self).pending() == Seq::<WeatherPacket>::empty(),
            final(self).current_end().is_none(),
            r.is_some() == (old(self).pending().len() > 0),
            match r {
                Some(batch) => routed(old(self).pending(), batch.accumulators),
                None => true,
            },
    {
        let now = utc_now();
        self.flush_interval(now)
    }

    /// The archive row for the interval that ended at `date_time`: the
    /// aggregator's unit system and interval, and each column of the schema
    /// taken from the aggregate of its name.
    pub fn build_archive_row(
        &self,
        date_time: i64,
        aggregates: &FieldMap<(AggregateType, Option<u64>)>,
    ) -> (row: ArchiveRow)
        requires
            aggregates.wf(),
        ensures
            row == archive_row_of(
                date_time,
                self.spec_unit_system(),
                self.spec_interval(),
                aggregates@,
            ),
    {
        ArchiveRow {
            date_time,
            us_units: self.unit_system,
            interval: self.interval,
            out_temp: get_value(aggregates, "outTemp"),
            in_temp: get_value(aggregates, "inTemp"),
            extra_temp1: get_value(aggregates, "extraTemp1"),
            out_humidity: get_value(aggregates, "outHumidity"),
            in_humidity: get_value(aggregates, "inHumidity"),
            barometer: get_value(aggregates, "barometer"),
            pressure: get_value(aggregates, "pressure"),
            altimeter: get_value(aggregates, "altimeter"),
            wind_speed: get_value(aggregates, "windSpeed"),
            wind_dir: get_value(aggregates, "windDir"),
            wind_gust: get_value(aggregates, "windGust"),
            wind_gust_dir: get_value(aggregates, "windGustDir"),
            rain: get_value(aggregates, "rain"),
            rain_rate: get_value(aggregates, "rainRate"),
            dewpoint: get_value(aggregates, "dewpoint"),
            windchill: get_value(aggregates, "windchill"),
            heatindex: get_value(aggregates, "heatindex"),
            radiation: get_value(aggregates, "radiation"),
            uv: get_value(aggregates, "UV"),
            rx_check_percent: get_value(aggregates, "rxCheckPercent"),
        }
    }

    /// The archive row of a batch, given for each of its accumulators, in
    /// entry order, the real number it reduces to or nothing. The row is
    /// stamped with the batch's end time.
    pub fn archive_row(&self, batch: &IntervalBatch, results: &Vec<Option<u64>>) -> (row:
        ArchiveRow)
        requires
            batch.accumulators.wf(),
            results@.len() == batch.accumulators.keys().len(),
        ensures
            row == archive_row_of(
                batch.end_time,
                self.spec_unit_system(),
                self.spec_interval(),
                aggregates_of(batch.accumulators, results@),
            ),
    {
        let accumulators = &batch.accumulators;
        let mut aggregates: FieldMap<(AggregateType, Option<u64>)> = FieldMap::new();
        let n: usize = accumulators.len();
        let mut i: usize = 0;
        while i < n
            invariant
                accumulators.wf(),
                aggregates.wf(),
                n == accumulators.keys().len(),
                results@.len() == n,
                i <= n,
                aggregates.keys() == accumulators.keys().subrange(0, i as int),
                aggregates.values().len() == i,
                forall|j: int|
                    0 <= j < i ==> #[trigger] aggregates.values()[j] == (
                        accumulators.values()[j].kind(),
                        results@[j],
                    ),
            decreases n - i,
        {
            let name = accumulators.key_at(i).clone();
            let kind = accumulators.value_at(i).aggregate_type();
            proof {
                aggregates.lemma_view();
                if aggregates@.contains_key(name@) {
                    let j = aggregates.keys().index_of(name@);
                    assert(aggregates.keys()[j] == name@);
                    assert(accumulators.keys()[j] == accumulators.keys()[i as int]);
                }
            }
            aggregates.insert(name, (kind, results[i]));
            proof {
                assert(aggregates.keys() =~= accumulators.keys().subrange(0, i + 1));
            }
            i = i + 1;
        }
        proof {
            assert(aggregates.keys() =~= accumulators.keys());
            aggregates.lemma_view();
            accumulators.lemma_view();
            let wanted = aggregates_of(*accumulators, results@);
            assert forall|name: Seq<char>| #[trigger]
                wanted.contains_key(name) implies aggregates@.contains_key(name)
                && aggregates@[name] == wanted[name] by {
                let j = accumulators.keys().index_of(name);
                assert(accumulators.keys()[j] == name);
                assert(aggregates@.contains_key(aggregates.keys()[j]));
            }
            assert forall|name: Seq<char>| #[trigger]
                aggregates@.contains_key(name) implies wanted.contains_key(name) by {
                let j = aggregates.keys().index_of(name);
                assert(accumulators@.contains_key(accumulators.keys()[j]));
            }
            assert(aggregates@ =~= wanted);
        }
        self.build_archive_row(batch.end_time, &aggregates)
    }

    /// The interval length in seconds.
    pub fn interval(&self) -> (i: i32)
        ensures
            i == self.spec_interval(),
    {
        self.interval
    }

    /// The unit-system tag given to archive rows.
    pub fn unit_system(&self) -> (u: i32)
        ensures
            u == self.spec_unit_system(),
    {
        self.unit_system
    }

    /// The number of packets pending.
    pub fn pending_len(&self) -> (n: usize)
        ensures
            n == self.pending().len(),
    {
        self.buffer.len()
    }
}

/// The interval end that the aggregator holds after it has taken packets with
/// the timestamps `ts`, starting with nothing pending: none after a packet
/// that closed an interval, else the end of the interval being filled.
pub open spec fn end_after_feed(ts: Seq<i64>, i: int) -> Option<i64>
    decreases ts.len(),
{
    if ts.len() == 0 {
        None
    } else {
        let before = end_after_feed(ts.drop_last(), i);
        if boundary(before, ts.last()).is_some() {
            None
        } else {
            Some(next_end(before, ts.last(), i) as i64)
        }
    }
}

/// The timestamps of the batches that the aggregator produces while it takes
/// packets with the timestamps `ts`, starting with nothing pending.
pub open spec fn batches_of_feed(ts: Seq<i64>, i: int) -> Seq<i64>
    decreases ts.len(),
{
    if ts.len() == 0 {
        Seq::empty()
    } else {
        let earlier = batches_of_feed(ts.drop_last(), i);
        match boundary(end_after_feed(ts.drop_last(), i), ts.last()) {
            Some(end) => earlier.push(end),
            None => earlier,
        }
    }
}

/// Packets that all fall into the interval opened by the first of them
/// produce no batch while they arrive and leave that interval's end current.
pub proof fn lemma_single_interval_feed(ts: Seq<i64>, i: int)
    requires
        i > 0,
        ts.len() > 0,
        interval_end(ts[0] as int, i) <= i64::MAX,
        forall|j: int| 0 <= j < ts.len() ==> (#[trigger] ts[j]) as int <= interval_end(ts[0] as int, i),
    ensures
        batches_of_feed(ts, i) == Seq::<i64>::empty(),
        end_after_feed(ts, i) == Some(interval_end(ts[0] as int, i) as i64),
    decreases ts.len(),
{
    crate::buffer::lemma_interval_end_above(ts[0] as int, i);
    if ts.len() == 1 {
        assert(ts.drop_last().len() == 0);
        assert(end_after_feed(ts.drop_last(), i).is_none());
        assert(batches_of_feed(ts.drop_last(), i) == Seq::<i64>::empty());
        assert(ts.last() == ts[0]);
    } else {
        let init = ts.drop_last();
        assert(init[0] == ts[0]);
        assert forall|j: int| 0 <= j < init.len() implies (#[trigger] init[j]) as int
            <= interval_end(init[0] as int, i) by {
            assert(init[j] == ts[j]);
        }
        lemma_single_interval_feed(init, i);
        assert(ts.last() == ts[ts.len() - 1]);
    }
}

/// A non-empty run of packets within one interval yields exactly one batch,
/// stamped with that interval's end: none while the run arrives, and one,
/// with that stamp, on the first packet beyond the interval.
pub proof fn lemma_single_interval_one_record(ts: Seq<i64>, next: i64, i: int)
    requires
        i > 0,
        ts.len() > 0,
        interval_end(ts[0] as int, i) <= i64::MAX,
        forall|j: int| 0 <= j < ts.len() ==> (#[trigger] ts[j]) as int <= interval_end(ts[0] as int, i),
        next as int > interval_end(ts[0] as int, i),
    ensures
        batches_of_feed(ts.push(next), i) == seq![interval_end(ts[0] as int, i) as i64],
        end_after_feed(ts.push(next), i).is_none(),
{
    lemma_single_interval_feed(ts, i);
    crate::buffer::lemma_interval_end_above(ts[0] as int, i);
    assert(ts.push(next).drop_last() =~= ts);
    assert(ts.push(next).last() == next);
    assert(batches_of_feed(ts.push(next), i) =~= seq![interval_end(ts[0] as int, i) as i64]);
}

/// Whether no element is smaller than one before it.
pub open spec fn nondecreasing(s: Seq<i64>) -> bool {
    forall|a: int, b: int| 0 <= a <= b < s.len() ==> s[a] <= s[b]
}

/// Whether every element is greater than all before it.
pub open spec fn increasing(s: Seq<i64>) -> bool {
    forall|a: int, b: int| 0 <= a < b < s.len() ==> s[a] < s[b]
}

/// While the packets arrive in timestamp order, the batches come out with
/// strictly increasing timestamps, each below the timestamp of the packet
/// that closed its interval and below the end of any interval opened later.
pub proof fn lemma_batches_increase(ts: Seq<i64>, i: int)
    requires
        i > 0,
        nondecreasing(ts),
        forall|j: int| 0 <= j < ts.len() ==> interval_end((#[trigger] ts[j]) as int, i) <= i64::MAX,
    ensures
        increasing(batches_of_feed(ts, i)),
        forall|k: int|
            0 <= k < batches_of_feed(ts, i).len() ==> ts.len() > 0 && (#[trigger] batches_of_feed(
                ts,
                i,
            )[k]) < ts.last(),
        match end_after_feed(ts, i) {
            Some(end) => ts.len() > 0 && ts.last() <= end && forall|k: int|
                0 <= k < batches_of_feed(ts, i).len() ==> (#[trigger] batches_of_feed(ts, i)[k])
                    < end,
            None => true,
        },
    decreases ts.len(),
{
    if ts.len() > 0 {
        let init = ts.drop_last();
        let t = ts.last();
        assert(nondecreasing(init)) by {
            assert forall|a: int, b: int| 0 <= a <= b < init.len() implies init[a] <= init[b] by {
                assert(init[a] == ts[a] && init[b] == ts[b]);
            }
        }
        assert forall|j: int| 0 <= j < init.len() implies interval_end(
            (#[trigger] init[j]) as int,
            i,
        ) <= i64::MAX by {
            assert(init[j] == ts[j]);
        }
        lemma_batches_increase(init, i);
        crate::buffer::lemma_interval_end_above(t as int, i);
        assert(ts[ts.len() - 1] == t);
        if init.len() > 0 {
            assert(init.last() == ts[ts.len() - 2]);
            assert(init.last() <= t);
        }
        let before = end_after_feed(init, i);
        let earlier = batches_of_feed(init, i);
        match boundary(before, t) {
            Some(end) => {
                assert(batches_of_feed(ts, i) == earlier.push(end));
                assert(increasing(earlier.push(end)));
            },
            None => {
                assert(batches_of_feed(ts, i) == earlier);
            },
        }
    }
}

} // verus!
