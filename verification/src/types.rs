//! The canonical packet model: observation values, packets and archive
//! records.
//!
//! A real-valued measurement is carried as the bit pattern of its IEEE-754
//! binary64 encoding. The library moves, selects and compares such patterns
//! and never does arithmetic on them.

use vstd::prelude::*;
use crate::field_map::FieldMap;

verus! {

/// Seconds since the Unix epoch.
pub type Timestamp = i64;

/// A length of time in seconds.
pub type Interval = i32;

/// How the values of one observation are combined over an interval.
#[derive(Debug, Clone, Copy, PartialEq, Eq, Hash, Structural)]
pub enum AggregateType {
    Min,
    Max,
    Sum,
    Avg,
    Last,
    First,
    Count,
}

/// The numeric projection of an observation value. `==` compares real
/// values by their bit patterns.
#[derive(Debug, Clone, Copy, PartialEq, Eq, Hash, Structural)]
pub enum Number {
    /// A real value, as its binary64 bit pattern.
    Float(u64),
    /// A whole value.
    Integer(i64),
}

/// One observed value. `==` compares real values by their bit patterns.
#[derive(Debug, PartialEq)]
pub enum ObservationValue {
    /// A real value, as its binary64 bit pattern.
    Float(u64),
    /// A whole value.
    Integer(i64),
    /// A textual value.
    String(String),
    /// An explicit absence.
    Null,
}

impl ObservationValue {
    /// The numeric projection: `Float` and `Integer` have one, `String` and
    /// `Null` have none.
    pub open spec fn numeric(&self) -> Option<Number> {
        match *self {
            ObservationValue::Float(bits) => Some(Number::Float(bits)),
            ObservationValue::Integer(v) => Some(Number::Integer(v)),
            _ => None,
        }
    }

    /// The numeric projection of this value, if it has one.
    pub fn as_number(&self) -> (r: Option<Number>)
        ensures
            r == self.numeric(),
    {
        match self {
            ObservationValue::Float(bits) => Some(Number::Float(*bits)),
            ObservationValue::Integer(v) => Some(Number::Integer(*v)),
            _ => None,
        }
    }

    /// Whether this value is the explicit absence.
    pub fn is_null(&self) -> (b: bool)
        ensures
            b == (*self == ObservationValue::Null),
    {
        match self {
            ObservationValue::Null => true,
            _ => false,
        }
    }
}

impl Clone for ObservationValue {
    fn clone(&self) -> (r: Self)
        ensures
            r == *self,
    {
        match self {
            ObservationValue::Float(bits) => ObservationValue::Float(*bits),
            ObservationValue::Integer(v) => ObservationValue::Integer(*v),
            ObservationValue::String(s) => ObservationValue::String(s.clone()),
            ObservationValue::Null => ObservationValue::Null,
        }
    }
}

/// A copy of an observation map: the same names with the same values, in the
/// same order.
pub fn clone_observations(m: &FieldMap<ObservationValue>) -> (r: FieldMap<ObservationValue>)
    requires
        m.wf(),
    ensures
        r.wf(),
        r@ == m@,
        r.keys() == m.keys(),
        r.values() == m.values(),
{
    let mut r: FieldMap<ObservationValue> = FieldMap::new();
    let n: usize = m.len();
    let mut i: usize = 0;
    while i < n
        invariant
            m.wf(),
            r.wf(),
            n == m.keys().len(),
            i <= n,
            r.keys() == m.keys().subrange(0, i as int),
            r.values() == m.values().subrange(0, i as int),
        decreases n - i,
    {
        let key = m.key_at(i).clone();
        let value = m.value_at(i).clone();
        proof {
            r.lemma_view();
            if r@.contains_key(key@) {
                let j = r.keys().index_of(key@);
                assert(r.keys()[j] == key@);
                assert(m.keys()[j] == m.keys()[i as int]);
            }
        }
        r.insert(key, value);
        proof {
            assert(r.keys() =~= m.keys().subrange(0, i + 1));
            assert(r.values() =~= m.values().subrange(0, i + 1));
        }
        i = i + 1;
    }
    proof {
        assert(r.keys() =~= m.keys());
        assert(r.values() =~= m.values());
    }
    r
}

/// What a packet holds, as plain mathematical values.
pub struct PacketView {
    pub date_time: i64,
    pub station: Option<Seq<char>>,
    pub interval: Option<i32>,
    pub observations: Map<Seq<char>, ObservationValue>,
}

/// A timestamped bundle of observations from one station.
#[derive(Debug, Clone, PartialEq)]
pub struct WeatherPacket {
    /// When the observations were made.
    pub date_time: Timestamp,
    /// The station's vendor or model label.
    pub station: Option<String>,
    /// The station's reporting cadence in seconds.
    pub interval: Option<Interval>,
    /// The observations, by name.
    pub observations: FieldMap<ObservationValue>,
}

impl View for WeatherPacket {
    type V = PacketView;

    open spec fn view(&self) -> PacketView {
        PacketView {
            date_time: self.date_time,
            station: match self.station {
                Some(s) => Some(s@),
                None => None,
            },
            interval: self.interval,
            observations: self.observations@,
        }
    }
}

impl WeatherPacket {
    /// The observation map is well formed.
    pub open spec fn wf(&self) -> bool {
        self.observations.wf()
    }
}

impl WeatherPacket {
    /// A copy of this packet: the same fields, the same observations in the
    /// same order.
    pub fn duplicate(&self) -> (r: Self)
        requires
            self.wf(),
        ensures
            r.wf(),
            r@ == self@,
            r.observations.keys() == self.observations.keys(),
            r.observations.values() == self.observations.values(),
    {
        WeatherPacket {
            date_time: self.date_time,
            station: match &self.station {
                Some(s) => Some(s.clone()),
                None => None,
            },
            interval: self.interval,
            observations: clone_observations(&self.observations),
        }
    }
}

/// One aggregated row produced for a closed interval, with its aggregates
/// held by name.
#[derive(Debug, Clone, PartialEq)]
pub struct ArchiveRecord {
    /// The end of the interval.
    pub date_time: Timestamp,
    /// The interval's length in seconds.
    pub interval: Interval,
    /// The unit-system tag of the values.
    pub us_units: i32,
    /// The aggregated observations, by name.
    pub aggregates: FieldMap<ObservationValue>,
}

} // verus!
