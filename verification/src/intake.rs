//! The HTTP intake: vendor upload parameters translated into the canonical
//! packet. The translation decides, for each known parameter, the canonical
//! observation name and the unit conversion; reading a real number from its
//! text and scaling it is the caller's part, after which the packet is
//! assembled here.

use vstd::prelude::*;
use crate::clock::{parse_utc_seconds, utc_now, utc_seconds};
use crate::field_map::FieldMap;
use crate::text::{parse_i64, parsed_i64, str_eq};
use crate::types::{ObservationValue, WeatherPacket};

verus! {

/// The format of an upload's `dateutc` parameter.
pub const DATE_FORMAT: &'static str = "%Y-%m-%d %H:%M:%S";

/// The number of rows of the translation table.
pub const RULE_COUNT: usize = 12;

/// A unit conversion from an upload's unit to the canonical one.
#[derive(Debug, Clone, Copy, PartialEq, Eq, Hash, Structural)]
pub enum Scale {
    /// The value is kept.
    Unchanged,
    /// Degrees Fahrenheit to degrees Celsius: subtract 32, then times 5/9.
    FahrenheitToCelsius,
    /// Inches of mercury to hectopascal: times 33.8638866667.
    InHgToHpa,
    /// Miles per hour to metres per second: times 0.44704.
    MphToMps,
    /// Inches to millimetres: times 25.4.
    InchToMm,
}

/// What an upload gives for one observation.
#[derive(Debug, Clone, PartialEq, Eq)]
pub enum Reading {
    /// A whole number, already read.
    Whole(i64),
    /// A real number still in its text, and the conversion it is to undergo.
    Real { text: String, scale: Scale },
}

/// A reading as plain mathematical values.
pub enum ReadingView {
    Whole(i64),
    Real { text: Seq<char>, scale: Scale },
}

/// One observation of an upload under its canonical name.
#[derive(Debug, Clone, PartialEq, Eq)]
pub struct UploadField {
    pub key: String,
    pub reading: Reading,
}

/// An upload field as plain mathematical values.
pub struct FieldView {
    pub key: Seq<char>,
    pub reading: ReadingView,
}

impl View for UploadField {
    type V = FieldView;

    open spec fn view(&self) -> FieldView {
        FieldView {
            key: self.key@,
            reading: match self.reading {
                Reading::Whole(v) => ReadingView::Whole(v),
                Reading::Real { text, scale } => ReadingView::Real { text: text@, scale },
            },
        }
    }
}

/// A translated upload: its timestamp, its station label and its
/// observations in table order.
#[derive(Debug, Clone, PartialEq, Eq)]
pub struct Upload {
    pub date_time: i64,
    pub station: Option<String>,
    pub fields: Vec<UploadField>,
}

/// The upload parameter of row `i` of the translation table.
pub open spec fn rule_param(i: int) -> Seq<char> {
    if i == 0 {
        "tempf"@
    } else if i == 1 {
        "humidity"@
    } else if i == 2 {
        "baromin"@
    } else if i == 3 {
        "baromabsin"@
    } else if i == 4 {
        "baromrelin"@
    } else if i == 5 {
        "windspeedmph"@
    } else if i == 6 {
        "windgustmph"@
    } else if i == 7 {
        "winddir"@
    } else if i == 8 {
        "rainin"@
    } else if i == 9 {
        "dailyrainin"@
    } else if i == 10 {
        "solarradiation"@
    } else {
        "uv"@
    }
}

/// The canonical observation name of row `i` of the translation table.
pub open spec fn rule_key(i: int) -> Seq<char> {
    if i == 0 {
        "outTemp"@
    } else if i == 1 {
        "humidity"@
    } else if i == 2 {
        "barometer"@
    } else if i == 3 {
        "barometerAbs"@
    } else if i == 4 {
        "barometer"@
    } else if i == 5 {
        "windSpeed"@
    } else if i == 6 {
        "windGust"@
    } else if i == 7 {
        "windDir"@
    } else if i == 8 {
        "rainRate"@
    } else if i == 9 {
        "dailyRain"@
    } else if i == 10 {
        "radiation"@
    } else {
        "uv"@
    }
}

/// The conversion of row `i` of the translation table; none for the rows
/// that hold whole numbers.
pub open spec fn rule_scale(i: int) -> Option<Scale> {
    if i == 0 {
        Some(Scale::FahrenheitToCelsius)
    } else if i == 1 || i == 7 {
        None
    } else if i == 2 || i == 3 || i == 4 {
        Some(Scale::InHgToHpa)
    } else if i == 5 || i == 6 {
        Some(Scale::MphToMps)
    } else if i == 8 || i == 9 {
        Some(Scale::InchToMm)
    } else {
        Some(Scale::Unchanged)
    }
}

/// Row `i` of the translation table: the upload parameter, the canonical
/// observation name and the conversion.
pub fn rule(i: usize) -> (r: (&'static str, &'static str, Option<Scale>))
    requires
        i < RULE_COUNT,
    ensures
        r.0@ == rule_param(i as int),
        r.1@ == rule_key(i as int),
        r.2 == rule_scale(i as int),
{
    if i == 0 {
        ("tempf", "outTemp", Some(Scale::FahrenheitToCelsius))
    } else if i == 1 {
        ("humidity", "humidity", None)
    } else if i == 2 {
        ("baromin", "barometer", Some(Scale::InHgToHpa))
    } else if i == 3 {
        ("baromabsin", "barometerAbs", Some(Scale::InHgToHpa))
    } else if i == 4 {
        ("baromrelin", "barometer", Some(Scale::InHgToHpa))
    } else if i == 5 {
        ("windspeedmph", "windSpeed", Some(Scale::MphToMps))
    } else if i == 6 {
        ("windgustmph", "windGust", Some(Scale::MphToMps))
    } else if i == 7 {
        ("winddir", "windDir", None)
    } else if i == 8 {
        ("rainin", "rainRate", Some(Scale::InchToMm))
    } else if i == 9 {
        ("dailyrainin", "dailyRain", Some(Scale::InchToMm))
    } else if i == 10 {
        ("solarradiation", "radiation", Some(Scale::Unchanged))
    } else {
        ("uv", "uv", Some(Scale::Unchanged))
    }
}

/// What row `i` of the table makes of the parameters: nothing where the
/// row's parameter is missing, or where a whole number is wanted and the text
/// is none; otherwise the field under the row's canonical name.
pub open spec fn rule_yield(params: Map<Seq<char>, String>, i: int) -> Option<FieldView> {
    if !params.contains_key(rule_param(i)) {
        None
    } else {
        let text = params[rule_param(i)]@;
        match rule_scale(i) {
            Some(scale) => Some(
                FieldView { key: rule_key(i), reading: ReadingView::Real { text, scale } },
            ),
            None => match parsed_i64(text) {
                Some(v) => Some(FieldView { key: rule_key(i), reading: ReadingView::Whole(v) }),
                None => None,
            },
        }
    }
}

/// What the first `n` rows of the table make of the parameters, in row order.
pub open spec fn planned_fields(params: Map<Seq<char>, String>, n: int) -> Seq<FieldView>
    decreases n,
{
    if n <= 0 {
        Seq::empty()
    } else {
        let before = planned_fields(params, n - 1);
        match rule_yield(params, n - 1) {
            Some(f) => before.push(f),
            None => before,
        }
    }
}

/// The fields as plain mathematical values.
pub open spec fn field_views(fields: Seq<UploadField>) -> Seq<FieldView> {
    Seq::new(fields.len(), |i: int| fields[i]@)
}

/// The `dateutc` parameter of an upload, if it has one.
pub open spec fn date_param(params: Map<Seq<char>, String>) -> Option<Seq<char>> {
    if params.contains_key("dateutc"@) {
        Some(params["dateutc"@]@)
    } else {
        None
    }
}

/// The timestamp of an upload: the current time where `dateutc` is missing
/// or is the word `now`; otherwise what the date reads as in UTC, and the
/// current time where it cannot be read.
pub open spec fn date_time_of(dateutc: Option<Seq<char>>, parsed: Option<i64>, now: i64) -> i64 {
    match dateutc {
        None => now,
        Some(text) => if text == "now"@ {
            now
        } else {
            match parsed {
                Some(t) => t,
                None => now,
            }
        },
    }
}

/// What `dateutc` reads as, where it is given and is not the word `now`.
pub open spec fn date_reading(dateutc: Option<Seq<char>>) -> Option<i64> {
    match dateutc {
        None => None,
        Some(text) => if text == "now"@ {
            None
        } else {
            utc_seconds(text, DATE_FORMAT@)
        },
    }
}

/// The timestamp of an upload, given what its `dateutc` reads as.
pub fn choose_date_time(dateutc: Option<&str>, parsed: Option<i64>, now: i64) -> (t: i64)
    ensures
        t == date_time_of(
            match dateutc {
                Some(s) => Some(s@),
                None => None,
            },
            parsed,
            now,
        ),
{
    match dateutc {
        None => now,
        Some(text) => {
            if str_eq(text, "now") {
                now
            } else {
                match parsed {
                    Some(t) => t,
                    None => now,
                }
            }
        },
    }
}

/// The timestamp of an upload with the given `dateutc`, at the time `now`.
pub fn resolve_date_time(dateutc: Option<&str>, now: i64) -> (t: i64)
    ensures
        t == match date_reading(
            match dateutc {
                Some(s) => Some(s@),
                None => None,
            },
        ) {
            Some(read) => read,
            None => now,
        },
{
    match dateutc {
        None => now,
        Some(text) => {
            if str_eq(text, "now") {
                now
            } else {
                let parsed = parse_utc_seconds(text, DATE_FORMAT);
                choose_date_time(dateutc, parsed, now)
            }
        },
    }
}

/// Whether `upload` is the translation of `params` at the time `now`: the
/// timestamp from `dateutc` or the clock, the station from `stationtype`, and
/// the fields that the table's rows yield, in row order. Parameters that the
/// table does not know leave no trace.
pub open spec fn translates(params: Map<Seq<char>, String>, now: i64, upload: Upload) -> bool {
    &&& upload.date_time == match date_reading(date_param(params)) {
        Some(read) => read,
        None => now,
    }
    &&& match upload.station {
        Some(s) => params.contains_key("stationtype"@) && s@ == params["stationtype"@]@,
        None => !params.contains_key("stationtype"@),
    }
    &&& field_views(upload.fields@) == planned_fields(params, RULE_COUNT as int)
}

/// Translates upload parameters at the time `now`.
pub fn plan_upload(params: &FieldMap<String>, now: i64) -> (upload: Upload)
    requires
        params.wf(),
    ensures
        translates(params@, now, upload),
{
    let date_time = match params.get("dateutc") {
        Some(text) => resolve_date_time(Some(text.as_str()), now),
        None => resolve_date_time(None, now),
    };
    let station = match params.get("stationtype") {
        Some(s) => Some(s.clone()),
        None => None,
    };
    let mut fields: Vec<UploadField> = Vec::new();
    let mut i: usize = 0;
    while i < RULE_COUNT
        invariant
            params.wf(),
            i <= RULE_COUNT,
            field_views(fields@) == planned_fields(params@, i as int),
        decreases RULE_COUNT - i,
    {
        let (param, key, scale) = rule(i);
        let ghost before = fields@;
        match params.get(param) {
            Some(text) => {
                match scale {
                    Some(scale) => {
                        fields.push(
                            UploadField {
                                key: key.to_owned(),
                                reading: Reading::Real { text: text.clone(), scale },
                            },
                        );
                        proof {
                            assert(field_views(fields@) =~= field_views(before).push(
                                rule_yield(params@, i as int).unwrap(),
                            ));
                        }
                    },
                    None => {
                        match parse_i64(text.as_str()) {
                            Some(v) => {
                                fields.push(
                                    UploadField { key: key.to_owned(), reading: Reading::Whole(v) },
                                );
                                proof {
                                    assert(field_views(fields@) =~= field_views(before).push(
                                        rule_yield(params@, i as int).unwrap(),
                                    ));
                                }
                            },
                            None => {},
                        }
                    },
                }
            },
            None => {},
        }
        i = i + 1;
    }
    Upload { date_time, station, fields }
}

/// Translates the query parameters of an upload made with GET. The time is
/// read from the clock, so the timestamp is fixed only where `dateutc` gives
/// one.
pub fn ingest_ecowitt(params: &FieldMap<String>) -> (upload: Upload)
    requires
        params.wf(),
    ensures
        exists|now: i64| translates(params@, now, upload),
{
    let now = utc_now();
    plan_upload(params, now)
}

/// Translates the form parameters of an upload made with POST: the same
/// vocabulary, translated the same way.
pub fn ingest_post(params: &FieldMap<String>) -> (upload: Upload)
    requires
        params.wf(),
    ensures
        exists|now: i64| translates(params@, now, upload),
{
    let now = utc_now();
    plan_upload(params, now)
}

/// The observations that the first `n` fields give, with `reals` holding for
/// each field the scaled real number read from its text, or nothing where the
/// text holds none. Whole readings are stored as integers; real readings are
/// stored where a number was read and dropped where none was; a later field
/// replaces an earlier one of the same name.
pub open spec fn observations_of(fields: Seq<FieldView>, reals: Seq<Option<u64>>, n: int) -> Map<
    Seq<char>,
    ObservationValue,
>
    decreases n,
{
    if n <= 0 {
        Map::empty()
    } else {
        let before = observations_of(fields, reals, n - 1);
        match fields[n - 1].reading {
            ReadingView::Whole(v) => before.insert(fields[n - 1].key, ObservationValue::Integer(v)),
            ReadingView::Real { .. } => match reals[n - 1] {
                Some(bits) => before.insert(fields[n - 1].key, ObservationValue::Float(bits)),
                None => before,
            },
        }
    }
}

impl Upload {
    /// Assembles the canonical packet, given for each field the scaled real
    /// number read from its text (as a binary64 bit pattern), or nothing
    /// where the text holds none. Entries of `reals` at whole readings are
    /// not looked at. The packet has no interval.
    pub fn into_packet(self, reals: &Vec<Option<u64>>) -> (packet: WeatherPacket)
        requires
            reals@.len() == self.fields@.len(),
        ensures
            packet.wf(),
            packet.date_time == self.date_time,
            packet.station == self.station,
            packet.interval.is_none(),
            packet.observations@ == observations_of(
                field_views(self.fields@),
                reals@,
                self.fields@.len() as int,
            ),
    {
        let mut observations: FieldMap<ObservationValue> = FieldMap::new();
        let n: usize = self.fields.len();
        let mut i: usize = 0;
        while i < n
            invariant
                n == self.fields@.len(),
                reals@.len() == n,
                i <= n,
                observations.wf(),
                observations@ == observations_of(field_views(self.fields@), reals@, i as int),
            decreases n - i,
        {
            let field = &self.fields[i];
            match &field.reading {
                Reading::Whole(v) => {
                    observations.insert(field.key.clone(), ObservationValue::Integer(*v));
                },
                Reading::Real { .. } => {
                    match reals[i] {
                        Some(bits) => {
                            observations.insert(field.key.clone(), ObservationValue::Float(bits));
                        },
                        None => {},
                    }
                },
            }
            i = i + 1;
        }
        WeatherPacket {
            date_time: self.date_time,
            station: self.station,
            interval: None,
            observations,
        }
    }
}

} // verus!
