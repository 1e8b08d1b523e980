//! Telemetry payload serialization.
//!
//! Each measurement is framed as one JSON object with fixed keys. Fixed-point
//! hundredths are written as plain decimals with exactly two fraction digits,
//! so `101500` hundredths of hPa becomes `1015.00`; a non-finite pressure and
//! an absent gas resistance are written as `null`. The byte image of every
//! measurement is pinned down exactly by spec functions, so the uplink's
//! overflow rule — a payload larger than the configured buffer is dropped
//! whole, never fragmented — can be stated over the real serialized length.

use vstd::prelude::*;

use crate::measurement::Bme680Measurement;
use crate::measurement::PressureHpa;
use crate::measurement::Scd41Measurement;

verus! {

/// The shortest decimal image of `n`: most significant digit first, no sign,
/// no leading zeros (a single zero for zero).
pub open spec fn dec_bytes(n: nat) -> Seq<u8>
    decreases n,
{
    if n < 10 {
        seq![(48 + n) as u8]
    } else {
        dec_bytes(n / 10).push((48 + n % 10) as u8)
    }
}

/// The decimal image of a fixed-point value in hundredths: optional minus
/// sign, the whole part, a dot, then exactly two fraction digits.
pub open spec fn centi_bytes(c: int) -> Seq<u8> {
    let mag = if c < 0 {
        -c
    } else {
        c
    };
    let sign: Seq<u8> = if c < 0 {
        seq![45u8]
    } else {
        Seq::empty()
    };
    sign + dec_bytes((mag / 100) as nat) + seq![
        46u8,
        (48 + (mag % 100) / 10) as u8,
        (48 + mag % 10) as u8,
    ]
}

/// The JSON word for an absent or non-finite value.
pub open spec fn null_bytes() -> Seq<u8> {
    seq![110u8, 117u8, 108u8, 108u8]
}

/// `{"co2":`
pub open spec fn co2_opening() -> Seq<u8> {
    seq![123u8, 34u8, 99u8, 111u8, 50u8, 34u8, 58u8]
}

/// `{"temperature":`
pub open spec fn temperature_opening() -> Seq<u8> {
    seq![123u8, 34u8, 116u8, 101u8, 109u8, 112u8, 101u8, 114u8, 97u8, 116u8, 117u8, 114u8, 101u8, 34u8, 58u8]
}

/// `,"temperature":`
pub open spec fn temperature_key() -> Seq<u8> {
    seq![44u8, 34u8, 116u8, 101u8, 109u8, 112u8, 101u8, 114u8, 97u8, 116u8, 117u8, 114u8, 101u8, 34u8, 58u8]
}

/// `,"humidity":`
pub open spec fn humidity_key() -> Seq<u8> {
    seq![44u8, 34u8, 104u8, 117u8, 109u8, 105u8, 100u8, 105u8, 116u8, 121u8, 34u8, 58u8]
}

/// `,"pressure":`
pub open spec fn pressure_key() -> Seq<u8> {
    seq![44u8, 34u8, 112u8, 114u8, 101u8, 115u8, 115u8, 117u8, 114u8, 101u8, 34u8, 58u8]
}

/// `,"gas_resistance":`
pub open spec fn gas_resistance_key() -> Seq<u8> {
    seq![
        44u8, 34u8, 103u8, 97u8, 115u8, 95u8, 114u8, 101u8, 115u8, 105u8, 115u8, 116u8, 97u8, 110u8, 99u8,
        101u8, 34u8, 58u8,
    ]
}

/// The full payload for one CO2 sensor sample.
pub open spec fn json_scd41(m: Scd41Measurement) -> Seq<u8> {
    co2_opening() + dec_bytes(m.co2 as nat) + temperature_key() + centi_bytes(
        m.temperature_centi_c as int,
    ) + humidity_key() + centi_bytes(m.humidity_centi_pct as int) + seq![125u8]
}

/// The byte image of a pressure field: the fixed-point decimal of a finite
/// reading, `null` for a non-finite one.
pub open spec fn pressure_bytes(p: PressureHpa) -> Seq<u8> {
    match p {
        PressureHpa::Finite(c) => centi_bytes(c as int),
        PressureHpa::NonFinite => null_bytes(),
    }
}

/// The byte image of a gas-resistance field: the fixed-point decimal when
/// the gas measurement finished, `null` when it is absent.
pub open spec fn gas_bytes(g: Option<i64>) -> Seq<u8> {
    match g {
        Some(c) => centi_bytes(c as int),
        None => null_bytes(),
    }
}

/// The full payload for one environmental sensor sample.
pub open spec fn json_bme680(m: Bme680Measurement) -> Seq<u8> {
    temperature_opening() + centi_bytes(m.temperature_centi_c as int) + humidity_key()
        + centi_bytes(m.humidity_centi_pct as int) + pressure_key() + pressure_bytes(m.pressure)
        + gas_resistance_key() + gas_bytes(m.gas_resistance_centi_ohm) + seq![125u8]
}

/// The fixed-point writer rejects only the one value whose magnitude does
/// not fit its own type.
pub open spec fn centi_in_range(c: i64) -> bool {
    i64::MIN < c
}

/// Every fixed-point field of a CO2 sample is writable.
pub open spec fn scd41_serializable(m: Scd41Measurement) -> bool {
    centi_in_range(m.temperature_centi_c) && centi_in_range(m.humidity_centi_pct)
}

/// Every fixed-point field of an environmental sample is writable.
pub open spec fn bme680_serializable(m: Bme680Measurement) -> bool {
    &&& centi_in_range(m.temperature_centi_c)
    &&& centi_in_range(m.humidity_centi_pct)
    &&& (m.pressure matches PressureHpa::Finite(c) ==> centi_in_range(c))
    &&& (m.gas_resistance_centi_ohm matches Some(c) ==> centi_in_range(c))
}

/// Appends the shortest decimal image of `n`, most significant digit first.
fn push_dec(out: &mut Vec<u8>, n: u64)
    ensures
        final(out)@ == old(out)@ + dec_bytes(n as nat),
    decreases n,
{
    if n >= 10 {
        push_dec(out, n / 10);
    }
    out.push(48 + (n % 10) as u8);
    proof {
        assert(out@ =~= old(out)@ + dec_bytes(n as nat));
    }
}

/// Appends the fixed-point decimal image of `c` hundredths.
fn push_centi(out: &mut Vec<u8>, c: i64)
    requires
        centi_in_range(c),
    ensures
        final(out)@ == old(out)@ + centi_bytes(c as int),
{
    let mag: u64 = if c < 0 {
        out.push(45);
        (-c) as u64
    } else {
        c as u64
    };
    push_dec(out, mag / 100);
    out.push(46);
    out.push(48 + ((mag % 100) / 10) as u8);
    out.push(48 + (mag % 10) as u8);
    proof {
        assert(out@ =~= old(out)@ + centi_bytes(c as int));
    }
}

/// Appends `null`.
fn push_null(out: &mut Vec<u8>)
    ensures
        final(out)@ == old(out)@ + null_bytes(),
{
    out.push(110u8);
    out.push(117u8);
    out.push(108u8);
    out.push(108u8);
    proof {
        assert(out@ =~= old(out)@ + null_bytes());
    }
}

/// Appends `{"co2":`.
fn push_co2_opening(out: &mut Vec<u8>)
    ensures
        final(out)@ == old(out)@ + co2_opening(),
{
    out.push(123u8);
    out.push(34u8);
    out.push(99u8);
    out.push(111u8);
    out.push(50u8);
    out.push(34u8);
    out.push(58u8);
    proof {
        assert(out@ =~= old(out)@ + co2_opening());
    }
}

/// Appends `{"temperature":` or `,"temperature":`.
fn push_temperature(out: &mut Vec<u8>, opening: bool)
    ensures
        opening ==> final(out)@ == old(out)@ + temperature_opening(),
        !opening ==> final(out)@ == old(out)@ + temperature_key(),
{
    if opening {
        out.push(123u8);
    } else {
        out.push(44u8);
    }
    out.push(34u8);
    out.push(116u8);
    out.push(101u8);
    out.push(109u8);
    out.push(112u8);
    out.push(101u8);
    out.push(114u8);
    out.push(97u8);
    out.push(116u8);
    out.push(117u8);
    out.push(114u8);
    out.push(101u8);
    out.push(34u8);
    out.push(58u8);
    proof {
        if opening {
            assert(out@ =~= old(out)@ + temperature_opening());
        } else {
            assert(out@ =~= old(out)@ + temperature_key());
        }
    }
}

/// Appends `,"humidity":`.
fn push_humidity_key(out: &mut Vec<u8>)
    ensures
        final(out)@ == old(out)@ + humidity_key(),
{
    out.push(44u8);
    out.push(34u8);
    out.push(104u8);
    out.push(117u8);
    out.push(109u8);
    out.push(105u8);
    out.push(100u8);
    out.push(105u8);
    out.push(116u8);
    out.push(121u8);
    out.push(34u8);
    out.push(58u8);
    proof {
        assert(out@ =~= old(out)@ + humidity_key());
    }
}

/// Appends `,"pressure":`.
fn push_pressure_key(out: &mut Vec<u8>)
    ensures
        final(out)@ == old(out)@ + pressure_key(),
{
    out.push(44u8);
    out.push(34u8);
    out.push(112u8);
    out.push(114u8);
    out.push(101u8);
    out.push(115u8);
    out.push(115u8);
    out.push(117u8);
    out.push(114u8);
    out.push(101u8);
    out.push(34u8);
    out.push(58u8);
    proof {
        assert(out@ =~= old(out)@ + pressure_key());
    }
}

/// Appends `,"gas_resistance":`.
fn push_gas_key(out: &mut Vec<u8>)
    ensures
        final(out)@ == old(out)@ + gas_resistance_key(),
{
    out.push(44u8);
    out.push(34u8);
    out.push(103u8);
    out.push(97u8);
    out.push(115u8);
    out.push(95u8);
    out.push(114u8);
    out.push(101u8);
    out.push(115u8);
    out.push(105u8);
    out.push(115u8);
    out.push(116u8);
    out.push(97u8);
    out.push(110u8);
    out.push(99u8);
    out.push(101u8);
    out.push(34u8);
    out.push(58u8);
    proof {
        assert(out@ =~= old(out)@ + gas_resistance_key());
    }
}

/// Serializes one CO2 sample to exactly its specified payload.
pub fn serialize_scd41(m: &Scd41Measurement) -> (out: Vec<u8>)
    requires
        scd41_serializable(*m),
    ensures
        out@ == json_scd41(*m),
{
    let mut out: Vec<u8> = Vec::new();
    push_co2_opening(&mut out);
    push_dec(&mut out, m.co2 as u64);
    push_temperature(&mut out, false);
    push_centi(&mut out, m.temperature_centi_c);
    push_humidity_key(&mut out);
    push_centi(&mut out, m.humidity_centi_pct);
    out.push(125u8);
    proof {
        assert(out@ =~= json_scd41(*m));
    }
    out
}

/// Serializes one environmental sample to exactly its specified payload.
pub fn serialize_bme680(m: &Bme680Measurement) -> (out: Vec<u8>)
    requires
        bme680_serializable(*m),
    ensures
        out@ == json_bme680(*m),
{
    let mut out: Vec<u8> = Vec::new();
    push_temperature(&mut out, true);
    push_centi(&mut out, m.temperature_centi_c);
    push_humidity_key(&mut out);
    push_centi(&mut out, m.humidity_centi_pct);
    push_pressure_key(&mut out);
    match m.pressure {
        PressureHpa::Finite(c) => push_centi(&mut out, c),
        PressureHpa::NonFinite => push_null(&mut out),
    }
    push_gas_key(&mut out);
    match m.gas_resistance_centi_ohm {
        Some(c) => push_centi(&mut out, c),
        None => push_null(&mut out),
    }
    out.push(125u8);
    proof {
        assert(out@ =~= json_bme680(*m));
    }
    out
}

} // verus!
