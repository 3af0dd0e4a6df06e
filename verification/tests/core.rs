use weewx::field_map::FieldMap;
use weewx::rollups::{aggregate_packets, default_aggregate_type, Accumulator, Reduction};
use weewx::types::{AggregateType, Number, ObservationValue, WeatherPacket};
use weewx::unit_systems;
use weewx::units::{convert, get_unit_group, Conversion, UnitError, UnitGroup};

fn float(v: f64) -> Number {
    Number::Float(v.to_bits())
}

fn as_real(n: Number) -> f64 {
    match n {
        Number::Float(bits) => f64::from_bits(bits),
        Number::Integer(v) => v as f64,
    }
}

fn reduce(acc: &Accumulator) -> Option<f64> {
    let values: Vec<f64> = (0..acc.count()).map(|i| as_real(acc.value_at(i))).collect();
    Some(match acc.result()? {
        Reduction::Value(n) => as_real(n),
        Reduction::Count(n) => n as f64,
        Reduction::Min => values.iter().copied().fold(f64::INFINITY, f64::min),
        Reduction::Max => values.iter().copied().fold(f64::NEG_INFINITY, f64::max),
        Reduction::Sum => values.iter().sum(),
        Reduction::Avg => values.iter().sum::<f64>() / values.len() as f64,
    })
}

fn apply(conversion: Conversion, value: f64) -> f64 {
    match conversion {
        Conversion::Identity => value,
        Conversion::FahrenheitToCelsius => (value - 32.0) * 5.0 / 9.0,
        Conversion::CelsiusToFahrenheit => value * 9.0 / 5.0 + 32.0,
        Conversion::InHgToMbar => value * 33.8639,
        Conversion::MbarToInHg => value / 33.8639,
        Conversion::InchToCm => value * 2.54,
        Conversion::CmToInch => value / 2.54,
        Conversion::MphToKph => value * 1.60934,
        Conversion::KphToMph => value / 1.60934,
    }
}

fn packet(t: i64, entries: &[(&str, ObservationValue)]) -> WeatherPacket {
    let mut observations = FieldMap::new();
    for (name, value) in entries {
        observations.insert(name.to_string(), value.clone());
    }
    WeatherPacket { date_time: t, station: None, interval: None, observations }
}

#[test]
fn test_accumulator_min() {
    let mut acc = Accumulator::new(AggregateType::Min);
    acc.add(float(10.0));
    acc.add(float(5.0));
    acc.add(float(15.0));
    assert_eq!(acc.result(), Some(Reduction::Min));
    assert_eq!(reduce(&acc), Some(5.0));
}

#[test]
fn test_accumulator_max() {
    let mut acc = Accumulator::new(AggregateType::Max);
    acc.add(float(10.0));
    acc.add(float(5.0));
    acc.add(float(15.0));
    assert_eq!(acc.result(), Some(Reduction::Max));
    assert_eq!(reduce(&acc), Some(15.0));
}

#[test]
fn test_accumulator_avg() {
    let mut acc = Accumulator::new(AggregateType::Avg);
    acc.add(float(10.0));
    acc.add(float(20.0));
    acc.add(float(30.0));
    assert_eq!(acc.result(), Some(Reduction::Avg));
    assert_eq!(reduce(&acc), Some(20.0));
}

#[test]
fn test_accumulator_sum() {
    let mut acc = Accumulator::new(AggregateType::Sum);
    acc.add(float(10.0));
    acc.add(float(20.0));
    acc.add(float(30.0));
    assert_eq!(acc.result(), Some(Reduction::Sum));
    assert_eq!(reduce(&acc), Some(60.0));
}

#[test]
fn test_accumulator_last() {
    let mut acc = Accumulator::new(AggregateType::Last);
    acc.add(float(10.0));
    acc.add(float(20.0));
    acc.add(float(30.0));
    assert_eq!(acc.result(), Some(Reduction::Value(float(30.0))));
    assert_eq!(reduce(&acc), Some(30.0));
}

#[test]
fn test_accumulator_empty() {
    let acc = Accumulator::new(AggregateType::Avg);
    assert_eq!(acc.result(), None);
    assert_eq!(reduce(&acc), None);
}

#[test]
fn accumulator_first_and_count() {
    let mut first = Accumulator::new(AggregateType::First);
    let mut count = Accumulator::new(AggregateType::Count);
    for v in [7.5, 1.0, 9.0] {
        first.add(float(v));
        count.add(float(v));
    }
    count.add(Number::Integer(4));
    assert_eq!(first.result(), Some(Reduction::Value(float(7.5))));
    assert_eq!(first.count(), 3);
    assert_eq!(count.result(), Some(Reduction::Count(4)));
    assert_eq!(count.value_at(3), Number::Integer(4));
    assert_eq!(count.aggregate_type(), AggregateType::Count);
    for kind in [
        AggregateType::Min, AggregateType::Max, AggregateType::Sum, AggregateType::Avg,
        AggregateType::Last, AggregateType::First, AggregateType::Count,
    ] {
        assert_eq!(Accumulator::new(kind).result(), None);
    }
}

#[test]
fn test_default_aggregate_types() {
    assert_eq!(default_aggregate_type("rain"), AggregateType::Sum);
    assert_eq!(default_aggregate_type("outTemp"), AggregateType::Avg);
    assert_eq!(default_aggregate_type("windGust"), AggregateType::Max);
    assert_eq!(default_aggregate_type("windDir"), AggregateType::Last);
}

#[test]
fn default_aggregate_table_is_complete() {
    for name in [
        "outTemp", "inTemp", "dewpoint", "heatindex", "windchill", "barometer", "pressure",
        "altimeter", "windSpeed", "outHumidity", "inHumidity", "radiation", "UV",
    ] {
        assert_eq!(default_aggregate_type(name), AggregateType::Avg, "{}", name);
    }
    assert_eq!(default_aggregate_type("windGustDir"), AggregateType::Last);
    assert_eq!(default_aggregate_type("uv"), AggregateType::Last);
    assert_eq!(default_aggregate_type("Rain"), AggregateType::Last);
    assert_eq!(default_aggregate_type(""), AggregateType::Last);
}

#[test]
fn aggregation_defaults() {
    let packets = vec![
        packet(1, &[
            ("rain", ObservationValue::Float(1.0f64.to_bits())),
            ("outTemp", ObservationValue::Float(10.0f64.to_bits())),
            ("windGust", ObservationValue::Float(5.0f64.to_bits())),
        ]),
        packet(2, &[
            ("rain", ObservationValue::Float(2.0f64.to_bits())),
            ("outTemp", ObservationValue::Float(20.0f64.to_bits())),
            ("windGust", ObservationValue::Float(15.0f64.to_bits())),
        ]),
        packet(3, &[
            ("rain", ObservationValue::Float(3.0f64.to_bits())),
            ("outTemp", ObservationValue::Float(30.0f64.to_bits())),
            ("windGust", ObservationValue::Float(10.0f64.to_bits())),
        ]),
    ];
    let aggregates = aggregate_packets(&packets);
    assert_eq!(aggregates.len(), 3);
    let rain = aggregates.get("rain").unwrap();
    assert_eq!(rain.aggregate_type(), AggregateType::Sum);
    assert_eq!(reduce(rain), Some(6.0));
    let out_temp = aggregates.get("outTemp").unwrap();
    assert_eq!(out_temp.aggregate_type(), AggregateType::Avg);
    assert_eq!(reduce(out_temp), Some(20.0));
    let gust = aggregates.get("windGust").unwrap();
    assert_eq!(gust.aggregate_type(), AggregateType::Max);
    assert_eq!(reduce(gust), Some(15.0));
}

#[test]
fn aggregation_skips_what_is_not_a_number() {
    let packets = vec![
        packet(1, &[
            ("windDir", ObservationValue::Integer(90)),
            ("note", ObservationValue::String("calm".to_string())),
            ("gap", ObservationValue::Null),
        ]),
        packet(2, &[("gap", ObservationValue::Float(2.5f64.to_bits()))]),
        packet(3, &[
            ("windDir", ObservationValue::Integer(180)),
            ("gap", ObservationValue::Null),
        ]),
    ];
    let aggregates = aggregate_packets(&packets);
    assert_eq!(aggregates.len(), 2);
    assert!(!aggregates.contains_key("note"));
    let dir = aggregates.get("windDir").unwrap();
    assert_eq!(dir.count(), 2);
    assert_eq!(dir.result(), Some(Reduction::Value(Number::Integer(180))));
    let gap = aggregates.get("gap").unwrap();
    assert_eq!(gap.count(), 1);
    assert_eq!(gap.aggregate_type(), AggregateType::Last);
    assert_eq!(reduce(gap), Some(2.5));

    assert!(aggregate_packets(&Vec::new()).is_empty());
}

#[test]
fn test_observation_value_conversions() {
    let float_val = ObservationValue::Float(25.5f64.to_bits());
    assert_eq!(float_val.as_number().map(as_real), Some(25.5));

    let int_val = ObservationValue::Integer(42);
    assert_eq!(int_val.as_number(), Some(Number::Integer(42)));
    assert_eq!(int_val.as_number().map(as_real), Some(42.0));

    let null_val = ObservationValue::Null;
    assert!(null_val.is_null());
    assert_eq!(null_val.as_number(), None);

    let text = ObservationValue::String("n/a".to_string());
    assert!(!text.is_null());
    assert_eq!(text.as_number(), None);
    assert_eq!(text.clone(), text);
}

#[test]
fn field_map_replaces_and_keeps_order() {
    let mut map: FieldMap<i64> = FieldMap::new();
    assert!(map.is_empty());
    map.insert("b".to_string(), 1);
    map.insert("a".to_string(), 2);
    map.insert("b".to_string(), 3);
    assert_eq!(map.len(), 2);
    assert_eq!(map.get("b"), Some(&3));
    assert_eq!(map.get("a"), Some(&2));
    assert_eq!(map.get("c"), None);
    assert_eq!(map.position("a"), Some(1));
    assert_eq!(map.key_at(0), "b");
    assert_eq!(*map.value_at(1), 2);
    assert!(map.contains_key("a"));
    assert!(!map.contains_key("A"));
}

#[test]
fn packet_duplicate_is_equal() {
    let original = WeatherPacket {
        date_time: 7,
        station: Some("gw1100".to_string()),
        interval: Some(5),
        observations: {
            let mut m = FieldMap::new();
            m.insert("outTemp".to_string(), ObservationValue::Float(21.5f64.to_bits()));
            m.insert("note".to_string(), ObservationValue::String("x".to_string()));
            m
        },
    };
    assert_eq!(original.duplicate(), original);
}

#[test]
fn test_temperature_conversion() {
    let c = convert(unit_systems::US, unit_systems::METRIC, UnitGroup::Temperature).unwrap();
    let result = apply(c, 32.0);
    assert!((result - 0.0).abs() < 0.001);

    let c = convert(unit_systems::METRIC, unit_systems::US, UnitGroup::Temperature).unwrap();
    let result = apply(c, 0.0);
    assert!((result - 32.0).abs() < 0.001);

    let c = convert(unit_systems::US, unit_systems::METRIC, UnitGroup::Temperature).unwrap();
    let result = apply(c, 212.0);
    assert!((result - 100.0).abs() < 0.001);
}

#[test]
fn test_same_unit_conversion() {
    let c = convert(unit_systems::US, unit_systems::US, UnitGroup::Temperature).unwrap();
    assert_eq!(c, Conversion::Identity);
    assert_eq!(apply(c, 25.0), 25.0);
}

#[test]
fn conversion_table() {
    let us = unit_systems::US;
    let metric = unit_systems::METRIC;
    assert_eq!(convert(us, metric, UnitGroup::Pressure), Ok(Conversion::InHgToMbar));
    assert_eq!(convert(metric, us, UnitGroup::Pressure), Ok(Conversion::MbarToInHg));
    assert_eq!(convert(us, metric, UnitGroup::Rain), Ok(Conversion::InchToCm));
    assert_eq!(convert(metric, us, UnitGroup::Rain), Ok(Conversion::CmToInch));
    assert_eq!(convert(us, metric, UnitGroup::Speed), Ok(Conversion::MphToKph));
    assert_eq!(convert(metric, us, UnitGroup::Speed), Ok(Conversion::KphToMph));
    assert_eq!(convert(us, metric, UnitGroup::Humidity), Err(UnitError::ConversionNotSupported));
    assert_eq!(
        convert(us, unit_systems::METRICWX, UnitGroup::Temperature),
        Err(UnitError::ConversionNotSupported)
    );
    assert_eq!(convert(99, 99, UnitGroup::Count), Ok(Conversion::Identity));
}

#[test]
fn test_unit_group_detection() {
    assert_eq!(get_unit_group("outTemp"), Some(UnitGroup::Temperature));
    assert_eq!(get_unit_group("barometer"), Some(UnitGroup::Pressure));
    assert_eq!(get_unit_group("windSpeed"), Some(UnitGroup::Speed));
    assert_eq!(get_unit_group("unknown"), None);
}

#[test]
fn unit_group_table_is_complete() {
    assert_eq!(get_unit_group("rain"), Some(UnitGroup::Rain));
    assert_eq!(get_unit_group("rainRate"), Some(UnitGroup::RainRate));
    assert_eq!(get_unit_group("windGust"), Some(UnitGroup::Speed));
    assert_eq!(get_unit_group("windGustDir"), Some(UnitGroup::Direction));
    assert_eq!(get_unit_group("inHumidity"), Some(UnitGroup::Humidity));
    assert_eq!(get_unit_group("radiation"), Some(UnitGroup::Radiation));
    assert_eq!(get_unit_group("UV"), None);
}
