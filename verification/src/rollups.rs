//! Aggregation over an interval: the accumulator of one observation, the
//! default aggregate of each observation name, and the routing of a batch of
//! packets into accumulators.

use vstd::prelude::*;
use crate::field_map::FieldMap;
use crate::text::str_eq;
use crate::types::{AggregateType, Number, WeatherPacket};

verus! {

/// The values of one observation over an interval, in the order added, and
/// the way they are to be combined.
#[derive(Debug, Clone)]
pub struct Accumulator {
    observations: Vec<Number>,
    aggregate_type: AggregateType,
}

/// What an accumulator amounts to, as far as that can be said without
/// arithmetic on reals.
#[derive(Debug, Clone, Copy, PartialEq, Eq, Structural)]
pub enum Reduction {
    /// The aggregate is this one of the added values.
    Value(Number),
    /// The aggregate is this count of added values.
    Count(usize),
    /// The aggregate is the least of the added values.
    Min,
    /// The aggregate is the greatest of the added values.
    Max,
    /// The aggregate is the sum of the added values, taken in the order added.
    Sum,
    /// The aggregate is the sum of the added values divided by their number.
    Avg,
}

/// What `kind` makes of the non-empty sequence `values`.
pub open spec fn reduction_of(kind: AggregateType, values: Seq<Number>) -> Reduction
    recommends
        values.len() > 0,
{
    match kind {
        AggregateType::Min => Reduction::Min,
        AggregateType::Max => Reduction::Max,
        AggregateType::Sum => Reduction::Sum,
        AggregateType::Avg => Reduction::Avg,
        AggregateType::Last => Reduction::Value(values.last()),
        AggregateType::First => Reduction::Value(values.first()),
        AggregateType::Count => Reduction::Count(values.len() as usize),
    }
}

impl Accumulator {
    /// The added values, in the order added.
    pub closed spec fn values(&self) -> Seq<Number> {
        self.observations@
    }

    /// The way the values are combined.
    pub closed spec fn kind(&self) -> AggregateType {
        self.aggregate_type
    }

    /// An accumulator of the given kind with no value.
    pub fn new(aggregate_type: AggregateType) -> (acc: Self)
        ensures
            acc.values() == Seq::<Number>::empty(),
            acc.kind() == aggregate_type,
    {
        Accumulator { observations: Vec::new(), aggregate_type }
    }

    /// Appends a value.
    pub fn add(&mut self, value: Number)
        ensures
            final(self).values() == old(self).values().push(value),
            final(self).kind() == old(self).kind(),
    {
        self.observations.push(value);
    }

    /// Nothing if no value was added; otherwise what the kind makes of the
    /// added values.
    pub fn result(&self) -> (r: Option<Reduction>)
        ensures
            r == if self.values().len() == 0 {
                None
            } else {
                Some(reduction_of(self.kind(), self.values()))
            },
    {
        let n: usize = self.observations.len();
        if n == 0 {
            return None;
        }
        Some(
            match self.aggregate_type {
                AggregateType::Min => Reduction::Min,
                AggregateType::Max => Reduction::Max,
                AggregateType::Sum => Reduction::Sum,
                AggregateType::Avg => Reduction::Avg,
                AggregateType::Last => Reduction::Value(self.observations[n - 1]),
                AggregateType::First => Reduction::Value(self.observations[0]),
                AggregateType::Count => Reduction::Count(n),
            },
        )
    }

    /// The number of added values.
    pub fn count(&self) -> (n: usize)
        ensures
            n == self.values().len(),
    {
        self.observations.len()
    }

    /// The way the values are combined.
    pub fn aggregate_type(&self) -> (kind: AggregateType)
        ensures
            kind == self.kind(),
    {
        self.aggregate_type
    }

    /// The added value at position `i`.
    pub fn value_at(&self, i: usize) -> (v: Number)
        requires
            i < self.values().len(),
        ensures
            v == self.values()[i as int],
    {
        self.observations[i]
    }
}

/// The default aggregate of each observation name: rain is summed, gusts
/// keep their maximum, directions and unknown names keep their last value,
/// the other known measurements are averaged.
pub open spec fn default_aggregate(name: Seq<char>) -> AggregateType {
    if name == "rain"@ {
        AggregateType::Sum
    } else if name == "outTemp"@ || name == "inTemp"@ || name == "dewpoint"@ || name
        == "heatindex"@ || name == "windchill"@ || name == "barometer"@ || name == "pressure"@
        || name == "altimeter"@ || name == "windSpeed"@ {
        AggregateType::Avg
    } else if name == "windGust"@ {
        AggregateType::Max
    } else if name == "windDir"@ || name == "windGustDir"@ {
        AggregateType::Last
    } else if name == "outHumidity"@ || name == "inHumidity"@ || name == "radiation"@ || name
        == "UV"@ {
        AggregateType::Avg
    } else {
        AggregateType::Last
    }
}

/// The default aggregate of the observation named `obs_type`.
pub fn default_aggregate_type(obs_type: &str) -> (kind: AggregateType)
    ensures
        kind == default_aggregate(obs_type@),
{
    if str_eq(obs_type, "rain") {
        AggregateType::Sum
    } else if str_eq(obs_type, "outTemp") || str_eq(obs_type, "inTemp") || str_eq(
        obs_type,
        "dewpoint",
    ) || str_eq(obs_type, "heatindex") || str_eq(obs_type, "windchill") || str_eq(
        obs_type,
        "barometer",
    ) || str_eq(obs_type, "pressure") || str_eq(obs_type, "altimeter") || str_eq(
        obs_type,
        "windSpeed",
    ) {
        AggregateType::Avg
    } else if str_eq(obs_type, "windGust") {
        AggregateType::Max
    } else if str_eq(obs_type, "windDir") || str_eq(obs_type, "windGustDir") {
        AggregateType::Last
    } else if str_eq(obs_type, "outHumidity") || str_eq(obs_type, "inHumidity") || str_eq(
        obs_type,
        "radiation",
    ) || str_eq(obs_type, "UV") {
        AggregateType::Avg
    } else {
        AggregateType::Last
    }
}

/// Whether the packet holds a numeric value under `name`.
pub open spec fn has_number(p: WeatherPacket, name: Seq<char>) -> bool {
    p.observations@.contains_key(name) && p.observations@[name].numeric().is_some()
}

/// The numeric values that the packets hold under `name`, in packet order;
/// packets without the name, or with a non-numeric value under it, add
/// nothing.
pub open spec fn series(packets: Seq<WeatherPacket>, name: Seq<char>) -> Seq<Number>
    decreases packets.len(),
{
    if packets.len() == 0 {
        Seq::empty()
    } else {
        let rest = series(packets.drop_last(), name);
        if has_number(packets.last(), name) {
            rest.push(packets.last().observations@[name].numeric().unwrap())
        } else {
            rest
        }
    }
}

/// A name has a non-empty series exactly when some packet holds a numeric
/// value under it.
pub proof fn lemma_series_nonempty(packets: Seq<WeatherPacket>, name: Seq<char>)
    ensures
        series(packets, name).len() > 0 <==> exists|j: int|
            0 <= j < packets.len() && has_number(#[trigger] packets[j], name),
    decreases packets.len(),
{
    if packets.len() > 0 {
        let init = packets.drop_last();
        lemma_series_nonempty(init, name);
        if series(packets, name).len() > 0 {
            if has_number(packets.last(), name) {
                assert(has_number(packets[packets.len() - 1], name));
            } else {
                let j = choose|j: int| 0 <= j < init.len() && has_number(#[trigger] init[j], name);
                assert(has_number(packets[j], name));
            }
        }
        if exists|j: int| 0 <= j < packets.len() && has_number(#[trigger] packets[j], name) {
            let j = choose|j: int| 0 <= j < packets.len() && has_number(#[trigger] packets[j], name);
            if j < packets.len() - 1 {
                assert(has_number(init[j], name));
            }
        }
    }
}

/// The accumulator of one name over a batch of packets.
fn accumulate(packets: &Vec<WeatherPacket>, name: &str) -> (acc: Accumulator)
    requires
        forall|j: int| 0 <= j < packets@.len() ==> (#[trigger] packets@[j]).wf(),
    ensures
        acc.values() == series(packets@, name@),
        acc.kind() == default_aggregate(name@),
{
    let mut acc = Accumulator::new(default_aggregate_type(name));
    let mut j: usize = 0;
    while j < packets.len()
        invariant
            j <= packets@.len(),
            forall|k: int| 0 <= k < packets@.len() ==> (#[trigger] packets@[k]).wf(),
            acc.values() == series(packets@.subrange(0, j as int), name@),
            acc.kind() == default_aggregate(name@),
        decreases packets@.len() - j,
    {
        proof {
            assert(packets@.subrange(0, j + 1).drop_last() =~= packets@.subrange(0, j as int));
            assert(packets@.subrange(0, j + 1).last() == packets@[j as int]);
            assert(packets@[j as int].wf());
        }
        match packets[j].observations.get(name) {
            Some(value) => {
                match value.as_number() {
                    Some(number) => {
                        acc.add(number);
                    },
                    None => {},
                }
            },
            None => {},
        }
        j = j + 1;
    }
    proof {
        assert(packets@.subrange(0, j as int) =~= packets@);
    }
    acc
}

/// Routes the numeric observations of a batch of packets into one
/// accumulator per observation name. A name is present exactly when some
/// packet holds a numeric value under it; its accumulator has the name's
/// default aggregate and holds the name's values in packet order.
/// Non-numeric values are skipped.
pub fn aggregate_packets(packets: &Vec<WeatherPacket>) -> (r: FieldMap<Accumulator>)
    requires
        forall|j: int| 0 <= j < packets@.len() ==> (#[trigger] packets@[j]).wf(),
    ensures
        r.wf(),
        forall|name: Seq<char>| #[trigger]
            r@.contains_key(name) <==> series(packets@, name).len() > 0,
        forall|name: Seq<char>| #[trigger]
            r@.contains_key(name) ==> r@[name].values() == series(packets@, name)
                && r@[name].kind() == default_aggregate(name),
{
    let mut r: FieldMap<Accumulator> = FieldMap::new();
    let mut j: usize = 0;
    while j < packets.len()
        invariant
            j <= packets@.len(),
            r.wf(),
            forall|k: int| 0 <= k < packets@.len() ==> (#[trigger] packets@[k]).wf(),
            forall|name: Seq<char>| #[trigger]
                r@.contains_key(name) ==> series(packets@, name).len() > 0 && r@[name].values()
                    == series(packets@, name) && r@[name].kind() == default_aggregate(name),
            forall|k: int, name: Seq<char>|
                0 <= k < j && has_number(#[trigger] packets@[k], name) ==> #[trigger] r@.contains_key(name),
        decreases packets@.len() - j,
    {
        let packet = &packets[j];
        assert(packet.wf());
        let n: usize = packet.observations.len();
        let mut i: usize = 0;
        while i < n
            invariant
                j < packets@.len(),
                *packet == packets@[j as int],
                packet.wf(),
                n == packet.observations.keys().len(),
                i <= n,
                r.wf(),
                forall|k: int| 0 <= k < packets@.len() ==> (#[trigger] packets@[k]).wf(),
                forall|name: Seq<char>| #[trigger]
                    r@.contains_key(name) ==> series(packets@, name).len() > 0
                        && r@[name].values() == series(packets@, name) && r@[name].kind()
                        == default_aggregate(name),
                forall|k: int, name: Seq<char>|
                    0 <= k < j && has_number(#[trigger] packets@[k], name) ==> #[trigger] r@.contains_key(name),
                forall|e: int|
                    0 <= e < i && (#[trigger] packet.observations.values()[e]).numeric().is_some()
                        ==> r@.contains_key(packet.observations.keys()[e]),
            decreases n - i,
        {
            let key = packet.observations.key_at(i);
            let value = packet.observations.value_at(i);
            if value.as_number().is_some() && !r.contains_key(key.as_str()) {
                let acc = accumulate(packets, key.as_str());
                proof {
                    assert(has_number(packets@[j as int], key@));
                    lemma_series_nonempty(packets@, key@);
                }
                r.insert(key.clone(), acc);
            }
            i = i + 1;
        }
        proof {
            assert forall|name: Seq<char>| has_number(packets@[j as int], name) implies r@.contains_key(name) by {
                packet.observations.lemma_view();
                let e = packet.observations.keys().index_of(name);
                assert(packet.observations.keys()[e] == name);
                assert(packet.observations.values()[e].numeric().is_some());
            }
        }
        j = j + 1;
    }
    proof {
        assert forall|name: Seq<char>| series(packets@, name).len() > 0 implies #[trigger] r@.contains_key(name) by {
            lemma_series_nonempty(packets@, name);
            let k = choose|k: int| 0 <= k < packets@.len() && has_number(#[trigger] packets@[k], name);
            assert(has_number(packets@[k], name));
        }
    }
    r
}

} // verus!
