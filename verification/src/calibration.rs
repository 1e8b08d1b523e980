//! Calibration feed: validation of the cross-sensor compensation input.
//!
//! Once per sampling cycle the CO2 sensor's supervisor pulls the
//! environmental sensor's latest pressure without waiting and turns it into
//! the ambient-pressure compensation value, in whole hPa, that the bus
//! transaction takes. The policy never blocks and never fails the cycle: an
//! in-range reading is used as-is, a finite out-of-range reading is clamped
//! to the valid physical band, and a non-finite or absent reading falls back
//! to a constant.

use vstd::prelude::*;

use crate::measurement::PressureHpa;

verus! {

/// Lower edge of the valid physical pressure band, in hPa.
pub const PRESSURE_MIN_HPA: u16 = 700;

/// Upper edge of the valid physical pressure band, in hPa.
pub const PRESSURE_MAX_HPA: u16 = 1200;

/// Compensation used when no usable pressure is available, in hPa.
pub const PRESSURE_FALLBACK_HPA: u16 = 1015;

/// A finite pressure reading, in hundredths of hPa, clamped into the valid
/// band and truncated to whole hPa.
pub open spec fn clamped_hpa(centi_hpa: int) -> int {
    if centi_hpa < 70000 {
        700
    } else if centi_hpa > 120000 {
        1200
    } else {
        centi_hpa / 100
    }
}

/// The compensation value for one pulled reading: the clamped value of a
/// finite reading, the fallback constant for a non-finite or absent one.
pub open spec fn compensation_spec(input: Option<PressureHpa>) -> int {
    match input {
        Some(PressureHpa::Finite(centi_hpa)) => clamped_hpa(centi_hpa as int),
        Some(PressureHpa::NonFinite) => PRESSURE_FALLBACK_HPA as int,
        None => PRESSURE_FALLBACK_HPA as int,
    }
}

/// Turns the latest pulled pressure — or its absence — into the ambient
/// pressure compensation, in whole hPa, always inside the valid band or
/// equal to the fallback.
pub fn validate_compensation(input: Option<PressureHpa>) -> (hpa: u16)
    ensures
        hpa == compensation_spec(input),
        PRESSURE_MIN_HPA <= hpa <= PRESSURE_MAX_HPA,
{
    match input {
        Some(PressureHpa::Finite(centi_hpa)) => {
            if centi_hpa < 70000 {
                PRESSURE_MIN_HPA
            } else if centi_hpa > 120000 {
                PRESSURE_MAX_HPA
            } else {
                (centi_hpa / 100) as u16
            }
        },
        Some(PressureHpa::NonFinite) => PRESSURE_FALLBACK_HPA,
        None => PRESSURE_FALLBACK_HPA,
    }
}

} // verus!
