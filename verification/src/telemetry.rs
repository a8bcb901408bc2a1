//! Scaling of raw converter readings to the units that are displayed.
//!
//! A reading that the converter could not deliver is replaced by
//! [`FAILED_READING`] before it is scaled, so that a failure shows as a value
//! that no battery gives.

use vstd::prelude::*;

verus! {

/// Stands in for a reading that could not be taken.
pub const FAILED_READING: i16 = 8091;

/// Raw counts per milliampere across the shunt.
pub const CURRENT_DIVISOR: i16 = 10;

/// Millivolts per raw count on a single-ended input.
pub const VOLTAGE_FACTOR: i16 = 2;

/// Raw counts per degree of the temperature sensor.
pub const TEMPERATURE_DIVISOR: i16 = 5;

/// Degrees that the sensor shows at zero volts, below zero.
pub const TEMPERATURE_OFFSET: i16 = 50;

/// Largest raw count that can be scaled to millivolts.
pub const MAX_VOLTAGE_READING: i16 = 16383;

/// Smallest raw count that can be scaled to millivolts.
pub const MIN_VOLTAGE_READING: i16 = -16384;

/// The quotient rounded towards zero.
pub open spec fn quotient(value: int, divisor: int) -> int
    recommends
        divisor > 0,
{
    if value >= 0 {
        value / divisor
    } else {
        -((-value) / divisor)
    }
}

/// The raw count that is scaled: the reading, or [`FAILED_READING`] in place
/// of a failed one.
pub open spec fn raw_count<E>(reading: Result<i16, E>) -> int {
    match reading {
        Ok(raw) => raw as int,
        Err(_) => FAILED_READING as int,
    }
}

/// Whether a reading can be scaled to millivolts without leaving `i16`.
pub open spec fn voltage_in_range<E>(reading: Result<i16, E>) -> bool {
    MIN_VOLTAGE_READING <= raw_count(reading) <= MAX_VOLTAGE_READING
}

/// The raw count to scale for one reading.
pub fn reading_or_default<E>(reading: Result<i16, E>) -> (raw: i16)
    ensures
        raw == raw_count(reading),
{
    match reading {
        Ok(raw) => raw,
        Err(_) => FAILED_READING,
    }
}

/// A differential reading across a shunt, in milliamperes: a tenth of the raw
/// count, rounded towards zero.
pub fn current_ma<E>(reading: Result<i16, E>) -> (ma: i16)
    ensures
        ma == quotient(raw_count(reading), CURRENT_DIVISOR as int),
{
    reading_or_default(reading) / CURRENT_DIVISOR
}

/// Says whether [`voltage_mv`] can scale the reading.
pub fn can_scale_voltage<E>(reading: &Result<i16, E>) -> (yes: bool)
    ensures
        yes == voltage_in_range(*reading),
{
    match reading {
        Ok(raw) => MIN_VOLTAGE_READING <= *raw && *raw <= MAX_VOLTAGE_READING,
        Err(_) => true,
    }
}

/// A single-ended reading, in millivolts: twice the raw count.
pub fn voltage_mv<E>(reading: Result<i16, E>) -> (mv: i16)
    requires
        voltage_in_range(reading),
    ensures
        mv == raw_count(reading) * VOLTAGE_FACTOR,
{
    reading_or_default(reading) * VOLTAGE_FACTOR
}

/// The reading of the temperature sensor, in degrees Celsius: a fifth of the
/// raw count, rounded towards zero, less fifty.
pub fn temperature_c<E>(reading: Result<i16, E>) -> (celsius: i16)
    ensures
        celsius == quotient(raw_count(reading), TEMPERATURE_DIVISOR as int) - TEMPERATURE_OFFSET,
{
    reading_or_default(reading) / TEMPERATURE_DIVISOR - TEMPERATURE_OFFSET
}

} // verus!
