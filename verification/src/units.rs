//! Unit groups of observations and the choice of conversion between unit
//! systems.

use vstd::prelude::*;
use crate::text::str_eq;
use crate::unit_systems::{METRIC, US};

verus! {

/// A failure to convert between units.
#[derive(Debug, Clone, PartialEq, Eq)]
pub enum UnitError {
    UnknownUnitSystem(i32),
    UnknownObservationType(String),
    ConversionNotSupported,
}

/// The kind of quantity an observation measures.
#[derive(Debug, Clone, Copy, PartialEq, Eq, Hash, Structural)]
pub enum UnitGroup {
    Temperature,
    Pressure,
    Rain,
    RainRate,
    Speed,
    Direction,
    Humidity,
    Radiation,
    Count,
}

/// The arithmetic that carries a value from one unit system to another.
#[derive(Debug, Clone, Copy, PartialEq, Eq, Hash, Structural)]
pub enum Conversion {
    /// The value is kept.
    Identity,
    /// Subtract 32, times 5, divided by 9.
    FahrenheitToCelsius,
    /// Times 9, divided by 5, plus 32.
    CelsiusToFahrenheit,
    /// Times 33.8639.
    InHgToMbar,
    /// Divided by 33.8639.
    MbarToInHg,
    /// Times 2.54.
    InchToCm,
    /// Divided by 2.54.
    CmToInch,
    /// Times 1.60934.
    MphToKph,
    /// Divided by 1.60934.
    KphToMph,
}

/// The unit group of each known observation name.
pub open spec fn unit_group_of(name: Seq<char>) -> Option<UnitGroup> {
    if name == "outTemp"@ || name == "inTemp"@ || name == "dewpoint"@ || name == "heatindex"@
        || name == "windchill"@ {
        Some(UnitGroup::Temperature)
    } else if name == "barometer"@ || name == "pressure"@ || name == "altimeter"@ {
        Some(UnitGroup::Pressure)
    } else if name == "rain"@ {
        Some(UnitGroup::Rain)
    } else if name == "rainRate"@ {
        Some(UnitGroup::RainRate)
    } else if name == "windSpeed"@ || name == "windGust"@ {
        Some(UnitGroup::Speed)
    } else if name == "windDir"@ || name == "windGustDir"@ {
        Some(UnitGroup::Direction)
    } else if name == "outHumidity"@ || name == "inHumidity"@ {
        Some(UnitGroup::Humidity)
    } else if name == "radiation"@ {
        Some(UnitGroup::Radiation)
    } else {
        None
    }
}

/// The unit group of the observation named `obs_type`, if the name is known.
pub fn get_unit_group(obs_type: &str) -> (group: Option<UnitGroup>)
    ensures
        group == unit_group_of(obs_type@),
{
    if str_eq(obs_type, "outTemp") || str_eq(obs_type, "inTemp") || str_eq(obs_type, "dewpoint")
        || str_eq(obs_type, "heatindex") || str_eq(obs_type, "windchill") {
        Some(UnitGroup::Temperature)
    } else if str_eq(obs_type, "barometer") || str_eq(obs_type, "pressure") || str_eq(
        obs_type,
        "altimeter",
    ) {
        Some(UnitGroup::Pressure)
    } else if str_eq(obs_type, "rain") {
        Some(UnitGroup::Rain)
    } else if str_eq(obs_type, "rainRate") {
        Some(UnitGroup::RainRate)
    } else if str_eq(obs_type, "windSpeed") || str_eq(obs_type, "windGust") {
        Some(UnitGroup::Speed)
    } else if str_eq(obs_type, "windDir") || str_eq(obs_type, "windGustDir") {
        Some(UnitGroup::Direction)
    } else if str_eq(obs_type, "outHumidity") || str_eq(obs_type, "inHumidity") {
        Some(UnitGroup::Humidity)
    } else if str_eq(obs_type, "radiation") {
        Some(UnitGroup::Radiation)
    } else {
        None
    }
}

/// The conversion between two unit systems for a unit group: the identity
/// between equal systems; between US and metric the known conversions of
/// temperature, pressure, rain and speed; none otherwise.
pub open spec fn conversion_of(from_unit: i32, to_unit: i32, group: UnitGroup) -> Option<
    Conversion,
> {
    if from_unit == to_unit {
        Some(Conversion::Identity)
    } else if from_unit == US && to_unit == METRIC {
        match group {
            UnitGroup::Temperature => Some(Conversion::FahrenheitToCelsius),
            UnitGroup::Pressure => Some(Conversion::InHgToMbar),
            UnitGroup::Rain => Some(Conversion::InchToCm),
            UnitGroup::Speed => Some(Conversion::MphToKph),
            _ => None,
        }
    } else if from_unit == METRIC && to_unit == US {
        match group {
            UnitGroup::Temperature => Some(Conversion::CelsiusToFahrenheit),
            UnitGroup::Pressure => Some(Conversion::MbarToInHg),
            UnitGroup::Rain => Some(Conversion::CmToInch),
            UnitGroup::Speed => Some(Conversion::KphToMph),
            _ => None,
        }
    } else {
        None
    }
}

/// Chooses the conversion that carries a value of the given unit group from
/// one unit system to another, or reports that there is none.
pub fn convert(from_unit: i32, to_unit: i32, unit_group: UnitGroup) -> (r: Result<
    Conversion,
    UnitError,
>)
    ensures
        match r {
            Ok(c) => conversion_of(from_unit, to_unit, unit_group) == Some(c),
            Err(e) => conversion_of(from_unit, to_unit, unit_group).is_none() && e
                == UnitError::ConversionNotSupported,
        },
{
    if from_unit == to_unit {
        return Ok(Conversion::Identity);
    }
    if from_unit == US && to_unit == METRIC {
        match unit_group {
            UnitGroup::Temperature => Ok(Conversion::FahrenheitToCelsius),
            UnitGroup::Pressure => Ok(Conversion::InHgToMbar),
            UnitGroup::Rain => Ok(Conversion::InchToCm),
            UnitGroup::Speed => Ok(Conversion::MphToKph),
            _ => Err(UnitError::ConversionNotSupported),
        }
    } else if from_unit == METRIC && to_unit == US {
        match unit_group {
            UnitGroup::Temperature => Ok(Conversion::CelsiusToFahrenheit),
            UnitGroup::Pressure => Ok(Conversion::MbarToInHg),
            UnitGroup::Rain => Ok(Conversion::CmToInch),
            UnitGroup::Speed => Ok(Conversion::KphToMph),
            _ => Err(UnitError::ConversionNotSupported),
        }
    } else {
        Err(UnitError::ConversionNotSupported)
    }
}

} // verus!
