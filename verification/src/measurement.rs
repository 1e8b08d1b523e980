//! Measurement value types.
//!
//! The sensors report temperature, humidity, pressure and gas resistance as
//! fractional readings; the orchestration core stores them in fixed point,
//! as signed hundredths (`i64`), so that every comparison and conversion the
//! core performs is exact integer arithmetic. A pressure reading keeps one
//! extra piece of information the calibration feed must see: whether the
//! sensor produced a finite number at all.

use vstd::prelude::*;

verus! {

/// A pressure reading in hPa, in hundredths, or the record that the sensor
/// produced a non-finite value (the calibration feed falls back to a
/// constant in that case).
#[derive(Clone, Copy, Debug, PartialEq, Eq, Structural)]
pub enum PressureHpa {
    /// A finite pressure, in hundredths of hPa (101,500 stands for 1015 hPa).
    Finite(i64),
    /// The sensor reported a value that is not a finite number.
    NonFinite,
}

/// One CO2 sensor sample: CO2 in ppm, temperature in hundredths of a degree
/// Celsius, relative humidity in hundredths of a percent.
#[derive(Clone, Copy, Debug, PartialEq, Eq, Structural)]
pub struct Scd41Measurement {
    pub co2: u16,
    pub temperature_centi_c: i64,
    pub humidity_centi_pct: i64,
}

/// One environmental sensor sample: temperature in hundredths of a degree
/// Celsius, relative humidity in hundredths of a percent, pressure in
/// hundredths of hPa (possibly non-finite), and gas resistance in hundredths
/// of an Ohm where the gas measurement finished in time.
#[derive(Clone, Copy, Debug, PartialEq, Eq, Structural)]
pub struct Bme680Measurement {
    pub temperature_centi_c: i64,
    pub humidity_centi_pct: i64,
    pub pressure: PressureHpa,
    pub gas_resistance_centi_ohm: Option<i64>,
}

/// What a raw bus read of the environmental sensor delivers before unit
/// conversion: the pressure arrives in hundredths of Pa, not of hPa.
#[derive(Clone, Copy, Debug, PartialEq, Eq, Structural)]
pub struct Bme680RawReading {
    pub temperature_centi_c: i64,
    pub humidity_centi_pct: i64,
    pub pressure_centi_pa: PressureHpa,
    pub gas_resistance_centi_ohm: Option<i64>,
}

/// Pa to hPa, both in hundredths: one hPa is one hundred Pa. The quotient is
/// truncated toward zero, as the hardware-facing conversion truncates.
pub open spec fn pa_to_hpa_spec(centi_pa: int) -> int {
    if centi_pa >= 0 {
        centi_pa / 100
    } else {
        -((-centi_pa) / 100)
    }
}

/// The pressure field after unit conversion: a finite reading is divided by
/// one hundred, a non-finite one stays non-finite.
pub open spec fn converted_pressure_spec(raw: PressureHpa) -> PressureHpa {
    match raw {
        PressureHpa::Finite(centi_pa) => PressureHpa::Finite(pa_to_hpa_spec(centi_pa as int) as i64),
        PressureHpa::NonFinite => PressureHpa::NonFinite,
    }
}

/// The measurement built from one raw environmental reading: the pressure is
/// converted from Pa to hPa, every other field is carried over unchanged.
pub open spec fn from_raw_spec(raw: Bme680RawReading) -> Bme680Measurement {
    Bme680Measurement {
        temperature_centi_c: raw.temperature_centi_c,
        humidity_centi_pct: raw.humidity_centi_pct,
        pressure: converted_pressure_spec(raw.pressure_centi_pa),
        gas_resistance_centi_ohm: raw.gas_resistance_centi_ohm,
    }
}

impl Bme680Measurement {
    /// Builds the published measurement from a raw bus reading, converting
    /// the pressure from hundredths of Pa to hundredths of hPa.
    pub fn from_raw(raw: Bme680RawReading) -> (m: Bme680Measurement)
        requires
            raw.pressure_centi_pa matches PressureHpa::Finite(p) ==> i64::MIN < p,
        ensures
            m == from_raw_spec(raw),
    {
        let pressure: PressureHpa = match raw.pressure_centi_pa {
            PressureHpa::Finite(centi_pa) => {
                if centi_pa >= 0 {
                    PressureHpa::Finite(centi_pa / 100)
                } else {
                    PressureHpa::Finite(-((-centi_pa) / 100))
                }
            },
            PressureHpa::NonFinite => PressureHpa::NonFinite,
        };
        Bme680Measurement {
            temperature_centi_c: raw.temperature_centi_c,
            humidity_centi_pct: raw.humidity_centi_pct,
            pressure,
            gas_resistance_centi_ohm: raw.gas_resistance_centi_ohm,
        }
    }

    /// Whether the converted pressure lies in the band the sensor measures
    /// accurately, strictly between 300 and 1100 hPa; a reading outside it is
    /// still published, only flagged in the diagnostics.
    pub fn pressure_in_accurate_range(&self) -> (r: bool)
        ensures
            r == pressure_accurate_spec(self.pressure),
    {
        match self.pressure {
            PressureHpa::Finite(centi_hpa) => 30000 < centi_hpa && centi_hpa < 110000,
            PressureHpa::NonFinite => false,
        }
    }
}

/// Whether a converted pressure reading lies strictly between 300 and
/// 1100 hPa (in hundredths); a non-finite reading never does.
pub open spec fn pressure_accurate_spec(p: PressureHpa) -> bool {
    match p {
        PressureHpa::Finite(centi_hpa) => 30000 < centi_hpa && centi_hpa < 110000,
        PressureHpa::NonFinite => false,
    }
}

} // verus!
