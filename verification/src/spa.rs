//! Input validation for the solar position computation.
//!
//! The solar position pipeline is the only fallible stage of the calculator,
//! and it can fail only here: every input field is range-checked before any
//! formula runs, and each field that can be out of range maps to its own
//! error kind. Once validation passes, the numeric pipeline is total.
//!
//! The range comparisons themselves are made on the floating-point fields by
//! the caller, which reports their outcomes in a [`SpaInputChecks`] record;
//! this module fixes which error is raised, and in which order the checks
//! are applied.

use vstd::prelude::*;

verus! {

/// An error that is returned for invalid input parameters.
#[derive(Copy, Clone, Debug, PartialEq, Eq, Structural)]
pub enum SpaError {
    InvalidElevation,
    InvalidAtmosRefract,
    InvalidLatitude,
    InvalidLongitude,
    InvalidDeltaT,
    InvalidTemperature,
    InvalidPressure,
    UnsupportedDate,
}

impl SpaError {
    /// A short human-readable description of the error.
    pub fn message(&self) -> (r: String)
        ensures
            r@ == spa_error_message(*self),
    {
        proof {
            reveal_strlit("Elevation out of range");
            reveal_strlit("Atmospheric Refraction out of range");
            reveal_strlit("Latitude out of range");
            reveal_strlit("Longitude out of range");
            reveal_strlit("Delta T out of range");
            reveal_strlit("Temperature out of range");
            reveal_strlit("Pressure out of range");
            reveal_strlit("Timestamp outside of supported range");
        }
        match self {
            SpaError::InvalidElevation => "Elevation out of range".to_string(),
            SpaError::InvalidAtmosRefract => "Atmospheric Refraction out of range".to_string(),
            SpaError::InvalidLatitude => "Latitude out of range".to_string(),
            SpaError::InvalidLongitude => "Longitude out of range".to_string(),
            SpaError::InvalidDeltaT => "Delta T out of range".to_string(),
            SpaError::InvalidTemperature => "Temperature out of range".to_string(),
            SpaError::InvalidPressure => "Pressure out of range".to_string(),
            SpaError::UnsupportedDate => "Timestamp outside of supported range".to_string(),
        }
    }
}

/// The description text of each [`SpaError`].
pub open spec fn spa_error_message(e: SpaError) -> Seq<char> {
    match e {
        SpaError::InvalidElevation => "Elevation out of range"@,
        SpaError::InvalidAtmosRefract => "Atmospheric Refraction out of range"@,
        SpaError::InvalidLatitude => "Latitude out of range"@,
        SpaError::InvalidLongitude => "Longitude out of range"@,
        SpaError::InvalidDeltaT => "Delta T out of range"@,
        SpaError::InvalidTemperature => "Temperature out of range"@,
        SpaError::InvalidPressure => "Pressure out of range"@,
        SpaError::UnsupportedDate => "Timestamp outside of supported range"@,
    }
}

/// Outcome of the range comparison of each input field of the solar position
/// computation, in the caller's floating-point representation.
///
/// A field is `true` when the corresponding input lies inside its supported
/// range:
/// - `date`: Julian Day within [990575.5, 3912880.49999]
///   (see [`crate::julian::unix_time_supported`] for the same range in whole
///   Unix seconds);
/// - `pressure`: 0 <= pressure <= 5000 millibars;
/// - `temperature`: -273 < temperature <= 6000 degrees Celsius;
/// - `delta_t`: |delta_t| <= 8000 seconds;
/// - `longitude`: |longitude| <= 180 degrees;
/// - `latitude`: |latitude| <= 90 degrees;
/// - `atmos_refract`: |atmos_refract| <= 5 degrees;
/// - `elevation`: elevation >= -6500000 meters.
#[derive(Copy, Clone, Debug, PartialEq, Eq, Structural)]
pub struct SpaInputChecks {
    pub date: bool,
    pub pressure: bool,
    pub temperature: bool,
    pub delta_t: bool,
    pub longitude: bool,
    pub latitude: bool,
    pub atmos_refract: bool,
    pub elevation: bool,
}

impl SpaInputChecks {
    /// All fields are inside their supported ranges.
    pub open spec fn all_in_range(self) -> bool {
        self.date && self.pressure && self.temperature && self.delta_t && self.longitude
            && self.latitude && self.atmos_refract && self.elevation
    }
}

/// The error raised for a record of check outcomes: the first failing check,
/// in the fixed order date, pressure, temperature, delta-T, longitude,
/// latitude, atmospheric refraction, elevation.
pub open spec fn first_validation_error(c: SpaInputChecks) -> SpaError {
    if !c.date {
        SpaError::UnsupportedDate
    } else if !c.pressure {
        SpaError::InvalidPressure
    } else if !c.temperature {
        SpaError::InvalidTemperature
    } else if !c.delta_t {
        SpaError::InvalidDeltaT
    } else if !c.longitude {
        SpaError::InvalidLongitude
    } else if !c.latitude {
        SpaError::InvalidLatitude
    } else if !c.atmos_refract {
        SpaError::InvalidAtmosRefract
    } else {
        SpaError::InvalidElevation
    }
}

/// Accepts a record of range-check outcomes iff every check passed, and
/// otherwise reports the first failing check as its error kind.
pub fn validate_inputs(c: &SpaInputChecks) -> (r: Result<(), SpaError>)
    ensures
        r is Ok <==> c.all_in_range(),
        r is Err ==> r->Err_0 == first_validation_error(*c),
{
    if !c.date {
        Err(SpaError::UnsupportedDate)
    } else if !c.pressure {
        Err(SpaError::InvalidPressure)
    } else if !c.temperature {
        Err(SpaError::InvalidTemperature)
    } else if !c.delta_t {
        Err(SpaError::InvalidDeltaT)
    } else if !c.longitude {
        Err(SpaError::InvalidLongitude)
    } else if !c.latitude {
        Err(SpaError::InvalidLatitude)
    } else if !c.atmos_refract {
        Err(SpaError::InvalidAtmosRefract)
    } else if !c.elevation {
        Err(SpaError::InvalidElevation)
    } else {
        Ok(())
    }
}

} // verus!
